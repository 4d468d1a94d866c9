use pagoda::get_moves;
use pagoda::get_piece_indices;
use pagoda::valid_move_locations;
use pagoda::Board;
use pagoda::Card;
use pagoda::Move;
use pagoda::PairIndex;
use pagoda::Piece;
use pagoda::PieceColour;

fn starting_board() -> Board {
    let mut board: Board = [None; 25];
    board[0] = Some(Piece::RedStudent);
    board[1] = Some(Piece::RedStudent);
    board[2] = Some(Piece::RedMaster);
    board[3] = Some(Piece::RedStudent);
    board[4] = Some(Piece::RedStudent);
    board[20] = Some(Piece::BlueStudent);
    board[21] = Some(Piece::BlueStudent);
    board[22] = Some(Piece::BlueMaster);
    board[23] = Some(Piece::BlueStudent);
    board[24] = Some(Piece::BlueStudent);
    board
}

#[test]
fn tiger_from_blue_shrine() {
    // From (2, 4) the Tiger reaches (2, 2); its other offset leaves
    // the board.
    let board = starting_board();
    let targets = valid_move_locations(&board, &Card::Tiger, 22, PieceColour::Blue);
    assert_eq!(targets, vec![(2, 2)]);
}

#[test]
fn targets_skip_same_colour_pieces() {
    // From (1, 4) the Boar offers (0, 4), (2, 4) and (1, 3), but both
    // horizontal neighbours hold Blue pieces.
    let board = starting_board();
    let targets = valid_move_locations(&board, &Card::Boar, 21, PieceColour::Blue);
    assert_eq!(targets, vec![(1, 3)]);
}

#[test]
fn capture_target_is_offered() {
    // A Blue piece at (2, 1) may step up onto Red's master at (2, 0).
    let mut board = starting_board();
    board[7] = Some(Piece::BlueStudent);
    let targets = valid_move_locations(&board, &Card::Boar, 7, PieceColour::Blue);
    assert_eq!(targets, vec![(1, 1), (3, 1), (2, 0)]);
}

#[test]
fn off_board_source_has_no_targets() {
    let board = starting_board();
    let targets = valid_move_locations(&board, &Card::Tiger, 25, PieceColour::Blue);
    assert!(targets.is_empty());
}

#[test]
fn all_targets_on_board_and_capture_only_opponents() {
    let board = starting_board();
    for card in [Card::Tiger, Card::Crab, Card::Monkey, Card::Dragon, Card::Cobra] {
        for source in 0..25usize {
            for &(x, y) in valid_move_locations(&board, &card, source, PieceColour::Blue).iter() {
                assert!(x < 5 && y < 5);
                let cell = board[y * 5 + x];
                assert!(cell.map(Piece::piece_colour) != Some(PieceColour::Blue));
            }
        }
    }
}

#[test]
fn piece_indices_in_ascending_order() {
    let board = starting_board();
    assert_eq!(get_piece_indices(&board, PieceColour::Red), vec![0, 1, 2, 3, 4]);
    assert_eq!(get_piece_indices(&board, PieceColour::Blue), vec![20, 21, 22, 23, 24]);
}

#[test]
fn get_moves_tags_each_pair_slot() {
    // One Blue piece at (2, 2) with Tiger and Boar: Tiger reaches
    // (2, 0) and (2, 3); Boar reaches (1, 2), (3, 2) and (2, 1).
    let mut board: Board = [None; 25];
    board[12] = Some(Piece::BlueStudent);
    board[2] = Some(Piece::RedMaster);
    board[22] = Some(Piece::BlueMaster);
    let moves = get_moves(&board, &(Card::Tiger, Card::Boar), PieceColour::Blue);
    let from_twelve: Vec<(Move, PairIndex)> =
        moves.iter().cloned().filter(|(m, _)| m.source_index == 12).collect();
    assert_eq!(
        from_twelve,
        vec![
            (Move { source_index: 12, target_index: 2 }, PairIndex::First),
            (Move { source_index: 12, target_index: 17 }, PairIndex::First),
            (Move { source_index: 12, target_index: 11 }, PairIndex::Second),
            (Move { source_index: 12, target_index: 13 }, PairIndex::Second),
            (Move { source_index: 12, target_index: 7 }, PairIndex::Second),
        ]
    );
}

#[test]
fn no_pieces_means_no_moves() {
    let board: Board = [None; 25];
    let moves = get_moves(&board, &(Card::Tiger, Card::Boar), PieceColour::Red);
    assert!(moves.is_empty());
}
