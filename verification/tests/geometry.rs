use pagoda::get_board_index;
use pagoda::get_board_xy;
use pagoda::is_index_on_board;
use pagoda::Point;
use pagoda::Rect;
use pagoda::Size;

#[test]
fn index_to_xy_round_trips() {
    for i in 0..25usize {
        let (x, y) = get_board_xy(i).expect("on board");
        assert_eq!(get_board_index(x, y), Some(i));
    }
}

#[test]
fn xy_to_index_round_trips() {
    for x in 0..5usize {
        for y in 0..5usize {
            let i = get_board_index(x, y).expect("on board");
            assert_eq!(get_board_xy(i), Some((x, y)));
        }
    }
}

#[test]
fn out_of_range_is_rejected() {
    assert!(is_index_on_board(24));
    assert!(!is_index_on_board(25));
    assert_eq!(get_board_xy(25), None);
    assert_eq!(get_board_index(5, 0), None);
    assert_eq!(get_board_index(0, 5), None);
    assert_eq!(get_board_index(7, 3), None);
}

#[test]
fn point_new_safe_clamps() {
    let p = Point::new_safe(-3, 4);
    assert_eq!(p, Point { x: 0, y: 4 });
    let q = p.add(5, -10);
    assert_eq!(q, Point { x: 5, y: 0 });
}

#[test]
fn rect_from_size_corners() {
    let rect = Rect::from_size(Point::new(10, 20), Size::new(30, 40));
    assert_eq!(rect.top_left, Point::new(10, 20));
    assert_eq!(rect.top_right, Point::new(40, 20));
    assert_eq!(rect.bottom_left, Point::new(10, 60));
    assert_eq!(rect.bottom_right, Point::new(40, 60));
    assert_eq!(rect.size, Size::new(30, 40));
}

#[test]
fn rect_from_points_corners() {
    let rect = Rect::from_points(Point::new(10, 20), Point::new(30, 40));
    assert_eq!(rect.top_left, Point::new(10, 20));
    assert_eq!(rect.top_right, Point::new(30, 20));
    assert_eq!(rect.bottom_left, Point::new(10, 40));
    assert_eq!(rect.bottom_right, Point::new(30, 40));
    assert_eq!(rect.size, Size::new(20, 20));
}

#[test]
fn rect_constructors_agree() {
    assert_eq!(
        Rect::from_values(10, 20, 30, 40),
        Rect::from_size(Point::new(10, 20), Size::new(30, 40))
    );
    assert_eq!(
        Rect::from_point_values(10, 20, 30, 40),
        Rect::from_points(Point::new(10, 20), Point::new(30, 40))
    );
}
