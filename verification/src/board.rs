//! The 25-cell board of optional pieces, piece ownership, move
//! application, piece counting, and the win-condition evaluator.

use vstd::prelude::*;

verus! {

/// One side of the game.
#[derive(Debug, Copy, Clone, PartialEq, Eq, Structural)]
pub enum PieceColour {
    Red,
    Blue,
}

/// A piece on the board; colour and mastership are derivable facts.
#[derive(Debug, Copy, Clone, PartialEq, Eq, Structural)]
pub enum Piece {
    RedStudent,
    BlueStudent,
    RedMaster,
    BlueMaster,
}

/// The board: 25 optional piece slots, addressed by `index = y * 5 + x`.
pub type Board = [Option<Piece>; 25];

/// The shrine cell Blue's master must reach to win.
pub const TOP_PAGODA_INDEX: usize = 2;

/// The shrine cell Red's master must reach to win.
pub const BOTTOM_PAGODA_INDEX: usize = 22;

/// The colour of `piece`.
pub open spec fn colour_of(piece: Piece) -> PieceColour {
    match piece {
        Piece::BlueStudent | Piece::BlueMaster => PieceColour::Blue,
        Piece::RedStudent | Piece::RedMaster => PieceColour::Red,
    }
}

/// The master piece of `colour`.
pub open spec fn master_of(colour: PieceColour) -> Piece {
    match colour {
        PieceColour::Red => Piece::RedMaster,
        PieceColour::Blue => Piece::BlueMaster,
    }
}

/// The opposing side of `colour`.
pub open spec fn other_colour(colour: PieceColour) -> PieceColour {
    match colour {
        PieceColour::Red => PieceColour::Blue,
        PieceColour::Blue => PieceColour::Red,
    }
}

impl PieceColour {
    /// The opposing side.
    pub fn other(self) -> (r: PieceColour)
        ensures
            r == other_colour(self),
    {
        match self {
            PieceColour::Red => PieceColour::Blue,
            PieceColour::Blue => PieceColour::Red,
        }
    }
}

impl Piece {
    /// True for the human-controlled (Blue) side's pieces.
    pub fn is_player(&self) -> (r: bool)
        ensures
            r == (colour_of(*self) == PieceColour::Blue),
    {
        match *self {
            Piece::BlueStudent | Piece::BlueMaster => true,
            _ => false,
        }
    }

    /// The colour owning this piece.
    pub fn piece_colour(self) -> (r: PieceColour)
        ensures
            r == colour_of(self),
    {
        match self {
            Piece::BlueStudent | Piece::BlueMaster => PieceColour::Blue,
            Piece::RedStudent | Piece::RedMaster => PieceColour::Red,
        }
    }
}

/// The display glyph of `piece` in the game's font.
pub open spec fn piece_char_spec(piece: Piece) -> char {
    match piece {
        Piece::RedStudent => '\u{E000}',
        Piece::RedMaster => '\u{E001}',
        Piece::BlueStudent => '\u{E003}',
        Piece::BlueMaster => '\u{E004}',
    }
}

/// The display glyph of `piece`.
pub fn piece_char(piece: Piece) -> (r: char)
    ensures
        r == piece_char_spec(piece),
{
    match piece {
        Piece::RedStudent => '\u{E000}',
        Piece::RedMaster => '\u{E001}',
        Piece::BlueStudent => '\u{E003}',
        Piece::BlueMaster => '\u{E004}',
    }
}

/// True when `cell` holds a piece of `colour`.
pub open spec fn cell_has_colour(cell: Option<Piece>, colour: PieceColour) -> bool {
    match cell {
        Some(p) => colour_of(p) == colour,
        None => false,
    }
}

/// How many of the first `n` cells hold a piece of `colour`.
pub open spec fn colour_count_to(board: Seq<Option<Piece>>, colour: PieceColour, n: int) -> nat
    decreases n,
{
    if n <= 0 {
        0
    } else {
        colour_count_to(board, colour, n - 1) + if cell_has_colour(board[n - 1], colour) {
            1nat
        } else {
            0nat
        }
    }
}

/// How many cells of the board hold a piece of `colour`.
pub open spec fn colour_count(board: Seq<Option<Piece>>, colour: PieceColour) -> nat {
    colour_count_to(board, colour, 25)
}

/// How many of the first `n` cells are occupied at all.
pub open spec fn occupied_count_to(board: Seq<Option<Piece>>, n: int) -> nat
    decreases n,
{
    if n <= 0 {
        0
    } else {
        occupied_count_to(board, n - 1) + if board[n - 1] is Some {
            1nat
        } else {
            0nat
        }
    }
}

/// How many cells of the board are occupied.
pub open spec fn occupied_count(board: Seq<Option<Piece>>) -> nat {
    occupied_count_to(board, 25)
}

/// The number of pieces of `colour` on `board`.
pub fn piece_count_of_colour(board: &Board, piece_colour: PieceColour) -> (r: usize)
    ensures
        r == colour_count(board@, piece_colour),
{
    let mut count: usize = 0;
    let mut i: usize = 0;
    while i < 25
        invariant
            i <= 25,
            count == colour_count_to(board@, piece_colour, i as int),
            count <= i,
        decreases 25 - i,
    {
        let counted = match board[i] {
            Some(p) => p.piece_colour() == piece_colour,
            None => false,
        };
        if counted {
            count = count + 1;
        }
        i = i + 1;
    }
    count
}

/// A changed cell beyond `n` leaves the count of the first `n` cells
/// alone.
proof fn lemma_colour_count_to_update_above(
    board: Seq<Option<Piece>>,
    colour: PieceColour,
    i: int,
    v: Option<Piece>,
    n: int,
)
    requires
        0 <= i < board.len(),
        n <= i,
    ensures
        colour_count_to(board.update(i, v), colour, n) == colour_count_to(board, colour, n),
    decreases n,
{
    if n > 0 {
        lemma_colour_count_to_update_above(board, colour, i, v, n - 1);
    }
}

/// How updating one of the first `n` cells changes the colour count.
proof fn lemma_colour_count_to_update(
    board: Seq<Option<Piece>>,
    colour: PieceColour,
    i: int,
    v: Option<Piece>,
    n: int,
)
    requires
        0 <= i < n,
        n <= board.len(),
    ensures
        colour_count_to(board.update(i, v), colour, n) + if cell_has_colour(board[i], colour) {
            1nat
        } else {
            0nat
        } == colour_count_to(board, colour, n) + if cell_has_colour(v, colour) {
            1nat
        } else {
            0nat
        },
    decreases n,
{
    if i == n - 1 {
        lemma_colour_count_to_update_above(board, colour, i, v, n - 1);
    } else {
        lemma_colour_count_to_update(board, colour, i, v, n - 1);
    }
}

/// A changed cell beyond `n` leaves the occupancy count of the first
/// `n` cells alone.
proof fn lemma_occupied_count_to_update_above(
    board: Seq<Option<Piece>>,
    i: int,
    v: Option<Piece>,
    n: int,
)
    requires
        0 <= i < board.len(),
        n <= i,
    ensures
        occupied_count_to(board.update(i, v), n) == occupied_count_to(board, n),
    decreases n,
{
    if n > 0 {
        lemma_occupied_count_to_update_above(board, i, v, n - 1);
    }
}

/// How updating one of the first `n` cells changes the occupancy count.
proof fn lemma_occupied_count_to_update(
    board: Seq<Option<Piece>>,
    i: int,
    v: Option<Piece>,
    n: int,
)
    requires
        0 <= i < n,
        n <= board.len(),
    ensures
        occupied_count_to(board.update(i, v), n) + if board[i] is Some {
            1nat
        } else {
            0nat
        } == occupied_count_to(board, n) + if v is Some {
            1nat
        } else {
            0nat
        },
    decreases n,
{
    if i == n - 1 {
        lemma_occupied_count_to_update_above(board, i, v, n - 1);
    } else {
        lemma_occupied_count_to_update(board, i, v, n - 1);
    }
}

/// An ephemeral move: source and target cell of one piece displacement.
#[derive(Debug, Copy, Clone, PartialEq, Eq, Structural)]
pub struct Move {
    pub source_index: usize,
    pub target_index: usize,
}

/// The board after playing `current_move`: the source piece overwrites
/// the target cell (capturing whatever stood there) and the source cell
/// empties.
pub open spec fn apply_move_spec(board: Seq<Option<Piece>>, current_move: Move) -> Seq<
    Option<Piece>,
> {
    board.update(current_move.target_index as int, board[current_move.source_index as int]).update(
        current_move.source_index as int,
        None,
    )
}

/// Play `current_move` on a copy of `board`.
pub fn apply_move(board: &Board, current_move: Move) -> (r: Board)
    requires
        current_move.source_index < 25,
        current_move.target_index < 25,
    ensures
        r@ == apply_move_spec(board@, current_move),
{
    let mut result = *board;
    let piece = result[current_move.source_index];
    result[current_move.target_index] = piece;
    result[current_move.source_index] = None;
    result
}

/// A move never adds pieces: the occupied-cell count of the board after
/// any move is at most the count before.
pub proof fn lemma_apply_move_count_monotone(board: Seq<Option<Piece>>, current_move: Move)
    requires
        board.len() == 25,
        current_move.source_index < 25,
        current_move.target_index < 25,
    ensures
        occupied_count(apply_move_spec(board, current_move)) <= occupied_count(board),
        occupied_count(board) <= occupied_count(apply_move_spec(board, current_move)) + 1,
{
    lemma_apply_move_count(board, current_move);
}

/// Occupancy law of a move: when source and target differ and the
/// source is occupied, the move lowers the occupied-cell count by
/// exactly one if the target was occupied (a capture) and leaves it
/// unchanged otherwise.  In every other case the count never rises.
pub proof fn lemma_apply_move_count(board: Seq<Option<Piece>>, current_move: Move)
    requires
        board.len() == 25,
        current_move.source_index < 25,
        current_move.target_index < 25,
    ensures
        occupied_count(apply_move_spec(board, current_move)) <= occupied_count(board),
        occupied_count(board) <= occupied_count(apply_move_spec(board, current_move)) + 1,
        (current_move.source_index != current_move.target_index
            && board[current_move.source_index as int] is Some) ==> occupied_count(
            apply_move_spec(board, current_move),
        ) + (
        if board[current_move.target_index as int] is Some {
            1nat
        } else {
            0nat
        }) == occupied_count(board),
{
    let src = current_move.source_index as int;
    let tgt = current_move.target_index as int;
    let mid = board.update(tgt, board[src]);
    lemma_occupied_count_to_update(board, tgt, board[src], 25);
    lemma_occupied_count_to_update(mid, src, None, 25);
    if src == tgt {
        assert(mid =~= board.update(src, board[src]));
        assert(board.update(src, board[src]) =~= board);
    }
}

/// How a move changes one colour's piece count: `colour` loses one
/// piece exactly when the target cell held a piece of `colour`, and is
/// untouched otherwise.
pub proof fn lemma_apply_move_colour_count(
    board: Seq<Option<Piece>>,
    current_move: Move,
    colour: PieceColour,
)
    requires
        board.len() == 25,
        current_move.source_index < 25,
        current_move.target_index < 25,
        current_move.source_index != current_move.target_index,
    ensures
        colour_count(apply_move_spec(board, current_move), colour) + (
        if cell_has_colour(board[current_move.target_index as int], colour) {
            1nat
        } else {
            0nat
        }) == colour_count(board, colour),
{
    let src = current_move.source_index as int;
    let tgt = current_move.target_index as int;
    let mid = board.update(tgt, board[src]);
    lemma_colour_count_to_update(board, colour, tgt, board[src], 25);
    lemma_colour_count_to_update(mid, colour, src, None, 25);
}

/// True when some cell of the first `n` holds the master of `colour`.
pub open spec fn has_master_to(board: Seq<Option<Piece>>, colour: PieceColour, n: int) -> bool {
    exists|i: int| 0 <= i < n && board[i] == Some(master_of(colour))
}

/// True when `colour` still has its master on the board.
pub open spec fn has_master(board: Seq<Option<Piece>>, colour: PieceColour) -> bool {
    has_master_to(board, colour, 25)
}

/// The first cell holding the master of `colour`, if any.
pub fn get_master_index(board: &Board, colour: PieceColour) -> (r: Option<usize>)
    ensures
        match r {
            Some(i) => {
                &&& i < 25
                &&& board@[i as int] == Some(master_of(colour))
                &&& forall|j: int| 0 <= j < i ==> board@[j] != Some(master_of(colour))
            },
            None => !has_master(board@, colour),
        },
{
    let target = match colour {
        PieceColour::Red => Piece::RedMaster,
        PieceColour::Blue => Piece::BlueMaster,
    };
    let mut i: usize = 0;
    while i < 25
        invariant
            i <= 25,
            target == master_of(colour),
            forall|j: int| 0 <= j < i ==> board@[j] != Some(master_of(colour)),
        decreases 25 - i,
    {
        let found = match board[i] {
            Some(p) => p == target,
            None => false,
        };
        if found {
            return Some(i);
        }
        i = i + 1;
    }
    None
}

/// Blue's victory condition: Blue's master stands on Red's shrine, or
/// Red has no master left.
pub open spec fn blue_wins_spec(board: Seq<Option<Piece>>) -> bool {
    board[2] == Some(Piece::BlueMaster) || !has_master(board, PieceColour::Red)
}

/// Red's victory condition: Red's master stands on Blue's shrine, or
/// Blue has no master left.
pub open spec fn red_wins_spec(board: Seq<Option<Piece>>) -> bool {
    board[22] == Some(Piece::RedMaster) || !has_master(board, PieceColour::Blue)
}

/// True when Blue has won on `board`.
pub fn blue_wins(board: &Board) -> (r: bool)
    ensures
        r == blue_wins_spec(board@),
{
    let at_shrine = match board[TOP_PAGODA_INDEX] {
        Some(p) => p == Piece::BlueMaster,
        None => false,
    };
    at_shrine || get_master_index(board, PieceColour::Red).is_none()
}

/// True when Red has won on `board`.
pub fn red_wins(board: &Board) -> (r: bool)
    ensures
        r == red_wins_spec(board@),
{
    let at_shrine = match board[BOTTOM_PAGODA_INDEX] {
        Some(p) => p == Piece::RedMaster,
        None => false,
    };
    at_shrine || get_master_index(board, PieceColour::Blue).is_none()
}

/// True when `colour` has won on `board`.
pub open spec fn wins_spec(board: Seq<Option<Piece>>, colour: PieceColour) -> bool {
    match colour {
        PieceColour::Blue => blue_wins_spec(board),
        PieceColour::Red => red_wins_spec(board),
    }
}

/// The winning colour on `board`, if any; Blue is evaluated first.
pub open spec fn winner_spec(board: Seq<Option<Piece>>) -> Option<PieceColour> {
    if blue_wins_spec(board) {
        Some(PieceColour::Blue)
    } else if red_wins_spec(board) {
        Some(PieceColour::Red)
    } else {
        None
    }
}

/// Win-evaluator law: a board with Blue's master on Red's shrine, or
/// with no Red master anywhere, reports Blue as winner; the mirrored
/// statements hold for Red, which is named winner whenever it wins and
/// Blue does not.
pub proof fn lemma_win_conditions(board: Seq<Option<Piece>>)
    ensures
        board[2] == Some(Piece::BlueMaster) ==> blue_wins_spec(board),
        !has_master(board, PieceColour::Red) ==> blue_wins_spec(board),
        board[22] == Some(Piece::RedMaster) ==> red_wins_spec(board),
        !has_master(board, PieceColour::Blue) ==> red_wins_spec(board),
        blue_wins_spec(board) ==> winner_spec(board) == Some(PieceColour::Blue),
        red_wins_spec(board) && !blue_wins_spec(board) ==> winner_spec(board) == Some(
            PieceColour::Red,
        ),
{
}

/// The colour that has won on `board`, or `None` while play continues.
pub fn winner(board: &Board) -> (r: Option<PieceColour>)
    ensures
        r == winner_spec(board@),
{
    if blue_wins(board) {
        Some(PieceColour::Blue)
    } else if red_wins(board) {
        Some(PieceColour::Red)
    } else {
        None
    }
}

} // verus!
