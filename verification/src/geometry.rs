//! Mapping between linear board indices in [0, 25) and (x, y) grid
//! coordinates on the 5x5 board, with bounds checking.

use vstd::prelude::*;

verus! {

/// Number of cells along one edge of the board.
pub const BOARD_DIM: usize = 5;

/// Number of cells on the board.
pub const BOARD_LENGTH: usize = 25;

/// True when `index` addresses a cell of the board.
pub fn is_index_on_board(piece_index: usize) -> (r: bool)
    ensures
        r == (piece_index < 25),
{
    piece_index < BOARD_LENGTH
}

/// The linear index of the cell at `(x, y)`, or `None` when the
/// coordinates fall outside the board.
pub fn get_board_index(x: usize, y: usize) -> (r: Option<usize>)
    ensures
        (x < 5 && y < 5) ==> r == Some((y * 5 + x) as usize),
        !(x < 5 && y < 5) ==> r is None,
{
    if x < BOARD_DIM && y < BOARD_DIM {
        Some(y * BOARD_DIM + x)
    } else {
        None
    }
}

/// The `(x, y)` coordinates of the cell at `index`, or `None` when the
/// index falls outside the board.
pub fn get_board_xy(index: usize) -> (r: Option<(usize, usize)>)
    ensures
        index < 25 ==> r == Some(((index % 5) as usize, (index / 5) as usize)),
        index >= 25 ==> r is None,
{
    if is_index_on_board(index) {
        Some((index % BOARD_DIM, index / BOARD_DIM))
    } else {
        None
    }
}

/// A single on-screen point/coordinate pair.
#[derive(Clone, Copy, Debug, Eq, Hash, PartialEq, Structural)]
pub struct Point {
    pub x: i32,
    pub y: i32,
}

impl Point {
    /// A point on the given coordinates, which must be non-negative.
    pub fn new(x: i32, y: i32) -> (r: Point)
        requires
            x >= 0,
            y >= 0,
        ensures
            r == (Point { x, y }),
    {
        Point { x, y }
    }

    /// A point on the given coordinates, with negative coordinates
    /// clamped to zero.
    pub fn new_safe(x: i32, y: i32) -> (r: Point)
        ensures
            r.x == if x >= 0 {
                x as int
            } else {
                0
            },
            r.y == if y >= 0 {
                y as int
            } else {
                0
            },
    {
        let px = if x >= 0 {
            x
        } else {
            0
        };
        let py = if y >= 0 {
            y
        } else {
            0
        };
        Point { x: px, y: py }
    }

    /// This point displaced by `(x, y)`, clamped to non-negative
    /// coordinates.
    pub fn add(&self, x: i32, y: i32) -> (r: Point)
        requires
            i32::MIN <= self.x + x <= i32::MAX,
            i32::MIN <= self.y + y <= i32::MAX,
        ensures
            r.x == if self.x + x >= 0 {
                self.x + x
            } else {
                0
            },
            r.y == if self.y + y >= 0 {
                self.y + y
            } else {
                0
            },
    {
        Point::new_safe(self.x + x, self.y + y)
    }
}

/// A 2D size.
#[derive(Clone, Copy, Debug, Eq, Hash, PartialEq, Structural)]
pub struct Size {
    pub width: i32,
    pub height: i32,
}

impl Size {
    /// A size with the given non-negative extents.
    pub fn new(width: i32, height: i32) -> (r: Size)
        requires
            width >= 0,
            height >= 0,
        ensures
            r == (Size { width, height }),
    {
        Size { width, height }
    }
}

/// A rectangle, described by its four corners and a size.
#[derive(Clone, Copy, Debug, Eq, Hash, PartialEq, Structural)]
pub struct Rect {
    /// The top-left corner.
    pub top_left: Point,
    /// The top-right corner.
    pub top_right: Point,
    /// The bottom-right corner.
    pub bottom_right: Point,
    /// The bottom-left corner.
    pub bottom_left: Point,
    /// The rectangle's size.
    pub size: Size,
}

impl Rect {
    /// A rectangle from its top-left corner and its size.
    pub fn from_size(origin: Point, size: Size) -> (r: Rect)
        requires
            origin.x >= 0,
            origin.y >= 0,
            size.width >= 0,
            size.height >= 0,
            origin.x + size.width <= i32::MAX,
            origin.y + size.height <= i32::MAX,
        ensures
            r.top_left == origin,
            r.top_right == (Point { x: (origin.x + size.width) as i32, y: origin.y }),
            r.bottom_left == (Point { x: origin.x, y: (origin.y + size.height) as i32 }),
            r.bottom_right == (Point {
                x: (origin.x + size.width) as i32,
                y: (origin.y + size.height) as i32,
            }),
            r.size == size,
    {
        let top_right = Point::new(origin.x + size.width, origin.y);
        let bottom_left = Point::new(origin.x, origin.y + size.height);
        let bottom_right = Point::new(top_right.x, bottom_left.y);

        Rect { top_left: origin, top_right, bottom_left, bottom_right, size }
    }

    /// A rectangle from its top-left and bottom-right corners.
    pub fn from_points(top_left: Point, bottom_right: Point) -> (r: Rect)
        requires
            top_left.x >= 0,
            top_left.y >= 0,
            bottom_right.x >= top_left.x,
            bottom_right.y >= top_left.y,
        ensures
            r.top_left == top_left,
            r.top_right == (Point { x: bottom_right.x, y: top_left.y }),
            r.bottom_left == (Point { x: top_left.x, y: bottom_right.y }),
            r.bottom_right == bottom_right,
            r.size == (Size {
                width: (bottom_right.x - top_left.x) as i32,
                height: (bottom_right.y - top_left.y) as i32,
            }),
    {
        let size = Size::new(bottom_right.x - top_left.x, bottom_right.y - top_left.y);
        Rect::from_size(top_left, size)
    }

    /// A rectangle from its top-left corner and its size, values
    /// unwrapped.
    pub fn from_values(x: i32, y: i32, width: i32, height: i32) -> (r: Rect)
        requires
            x >= 0,
            y >= 0,
            width >= 0,
            height >= 0,
            x + width <= i32::MAX,
            y + height <= i32::MAX,
        ensures
            r.top_left == (Point { x, y }),
            r.top_right == (Point { x: (x + width) as i32, y }),
            r.bottom_left == (Point { x, y: (y + height) as i32 }),
            r.bottom_right == (Point { x: (x + width) as i32, y: (y + height) as i32 }),
            r.size == (Size { width, height }),
    {
        let origin = Point::new(x, y);
        let size = Size::new(width, height);
        Rect::from_size(origin, size)
    }

    /// A rectangle from its top-left and bottom-right corners, values
    /// unwrapped.
    pub fn from_point_values(
        top_left_x: i32,
        top_left_y: i32,
        bottom_right_x: i32,
        bottom_right_y: i32,
    ) -> (r: Rect)
        requires
            top_left_x >= 0,
            top_left_y >= 0,
            bottom_right_x >= top_left_x,
            bottom_right_y >= top_left_y,
        ensures
            r.top_left == (Point { x: top_left_x, y: top_left_y }),
            r.top_right == (Point { x: bottom_right_x, y: top_left_y }),
            r.bottom_left == (Point { x: top_left_x, y: bottom_right_y }),
            r.bottom_right == (Point { x: bottom_right_x, y: bottom_right_y }),
            r.size == (Size {
                width: (bottom_right_x - top_left_x) as i32,
                height: (bottom_right_y - top_left_y) as i32,
            }),
    {
        let top_left = Point::new(top_left_x, top_left_y);
        let bottom_right = Point::new(bottom_right_x, bottom_right_y);
        Rect::from_points(top_left, bottom_right)
    }
}

/// True when `point` lies in the half-open rectangle at `(x, y)` with
/// width `w` and height `h`.
pub open spec fn inside_rect_spec(point: Point, x: i32, y: i32, w: i32, h: i32) -> bool {
    x <= point.x && y <= point.y && point.x < x + w && point.y < y + h
}

/// True when `point` lies in the half-open rectangle at `(x, y)` with
/// width `w` and height `h`.
pub fn inside_rect(point: Point, x: i32, y: i32, w: i32, h: i32) -> (r: bool)
    requires
        i32::MIN <= x + w <= i32::MAX,
        i32::MIN <= y + h <= i32::MAX,
    ensures
        r == inside_rect_spec(point, x, y, w, h),
{
    x <= point.x && y <= point.y && point.x < x + w && point.y < y + h
}

/// The screen column of board column `x`.
pub fn piece_x(x: i32) -> (r: i32)
    requires
        0 <= x < 5,
    ensures
        r == 40 + x * 8,
{
    40 + x * 8
}

/// The screen row of board row `y`.
pub fn piece_y(y: i32) -> (r: i32)
    requires
        0 <= y < 5,
    ensures
        r == 12 + y * 4,
{
    12 + y * 4
}

/// Round-trip law: converting a valid index to coordinates and back
/// yields the same index.
pub proof fn lemma_index_to_xy_round_trip(index: usize)
    requires
        index < 25,
    ensures
        (index / 5) * 5 + (index % 5) == index,
        index % 5 < 5,
        index / 5 < 5,
{
}

/// Round-trip law: converting valid coordinates to an index and back
/// yields the same coordinates.
pub proof fn lemma_xy_to_index_round_trip(x: usize, y: usize)
    requires
        x < 5,
        y < 5,
    ensures
        (y * 5 + x) % 5 == x,
        (y * 5 + x) / 5 == y,
        y * 5 + x < 25,
{
}

} // verus!
