use pagoda::apply_move;
use pagoda::blue_wins;
use pagoda::get_master_index;
use pagoda::get_offsets;
use pagoda::get_swap_cards_result;
use pagoda::piece_char;
use pagoda::piece_count_of_colour;
use pagoda::red_wins;
use pagoda::swap_cards;
use pagoda::winner;
use pagoda::AllValues;
use pagoda::Board;
use pagoda::Card;
use pagoda::Move;
use pagoda::PairIndex;
use pagoda::Piece;
use pagoda::PieceColour;

fn starting_board() -> Board {
    let mut board: Board = [None; 25];
    board[0] = Some(Piece::RedStudent);
    board[1] = Some(Piece::RedStudent);
    board[2] = Some(Piece::RedMaster);
    board[3] = Some(Piece::RedStudent);
    board[4] = Some(Piece::RedStudent);
    board[20] = Some(Piece::BlueStudent);
    board[21] = Some(Piece::BlueStudent);
    board[22] = Some(Piece::BlueMaster);
    board[23] = Some(Piece::BlueStudent);
    board[24] = Some(Piece::BlueStudent);
    board
}

#[test]
fn catalog_has_sixteen_distinct_cards() {
    let all = Card::all_values();
    assert_eq!(all.len(), 16);
    for i in 0..all.len() {
        for j in 0..all.len() {
            if i != j {
                assert_ne!(all[i], all[j]);
            }
        }
    }
}

#[test]
fn card_symbols_are_distinct_glyphs() {
    let all = Card::all_values();
    assert_eq!(all[0].as_str(), "\u{E0C0}");
    assert_eq!(all[15].as_str(), "\u{E0CF}");
    for i in 0..all.len() {
        for j in 0..all.len() {
            if i != j {
                assert_ne!(all[i].as_str(), all[j].as_str());
            }
        }
    }
}

#[test]
fn tiger_offsets() {
    assert_eq!(get_offsets(&Card::Tiger), vec![(0, -2), (0, 1)]);
}

#[test]
fn monkey_offsets() {
    assert_eq!(get_offsets(&Card::Monkey), vec![(-1, -1), (-1, 1), (1, -1), (1, 1)]);
}

#[test]
fn every_card_has_two_to_four_offsets() {
    for card in Card::all_values() {
        let offsets = get_offsets(&card);
        assert!(offsets.len() >= 2 && offsets.len() <= 4);
        for &(dx, dy) in offsets.iter() {
            assert!((-2..=2).contains(&dx));
            assert!((-2..=2).contains(&dy));
            assert!(!(dx == 0 && dy == 0));
        }
    }
}

#[test]
fn swap_first_card_rotates_center() {
    let result = get_swap_cards_result(Card::Tiger, (Card::Crab, Card::Monkey), PairIndex::First);
    assert_eq!(result.center_card, Card::Crab);
    assert_eq!(result.pair, (Card::Tiger, Card::Monkey));
}

#[test]
fn swap_second_card_rotates_center() {
    let result = get_swap_cards_result(Card::Tiger, (Card::Crab, Card::Monkey), PairIndex::Second);
    assert_eq!(result.center_card, Card::Monkey);
    assert_eq!(result.pair, (Card::Crab, Card::Tiger));
}

#[test]
fn swap_in_place_keeps_five_distinct_cards() {
    let mut center = Card::Tiger;
    let mut pair = (Card::Crab, Card::Monkey);
    let other = (Card::Crane, Card::Dragon);
    swap_cards(&mut center, &mut pair, PairIndex::First);
    assert_eq!(center, Card::Crab);
    assert_eq!(pair, (Card::Tiger, Card::Monkey));
    let five = [center, pair.0, pair.1, other.0, other.1];
    for i in 0..5 {
        for j in 0..5 {
            if i != j {
                assert_ne!(five[i], five[j]);
            }
        }
    }
}

#[test]
fn piece_colour_and_side() {
    assert_eq!(Piece::RedStudent.piece_colour(), PieceColour::Red);
    assert_eq!(Piece::RedMaster.piece_colour(), PieceColour::Red);
    assert_eq!(Piece::BlueStudent.piece_colour(), PieceColour::Blue);
    assert_eq!(Piece::BlueMaster.piece_colour(), PieceColour::Blue);
    assert!(Piece::BlueStudent.is_player());
    assert!(Piece::BlueMaster.is_player());
    assert!(!Piece::RedStudent.is_player());
    assert!(!Piece::RedMaster.is_player());
}

#[test]
fn apply_move_without_capture_keeps_count() {
    let board = starting_board();
    let before = piece_count_of_colour(&board, PieceColour::Red)
        + piece_count_of_colour(&board, PieceColour::Blue);
    assert_eq!(before, 10);
    let after = apply_move(&board, Move { source_index: 22, target_index: 17 });
    let count = piece_count_of_colour(&after, PieceColour::Red)
        + piece_count_of_colour(&after, PieceColour::Blue);
    assert_eq!(count, 10);
    assert_eq!(after[17], Some(Piece::BlueMaster));
    assert_eq!(after[22], None);
}

#[test]
fn apply_move_with_capture_drops_one_piece() {
    let board = starting_board();
    let after = apply_move(&board, Move { source_index: 22, target_index: 2 });
    let count = piece_count_of_colour(&after, PieceColour::Red)
        + piece_count_of_colour(&after, PieceColour::Blue);
    assert_eq!(count, 9);
    assert_eq!(piece_count_of_colour(&after, PieceColour::Red), 4);
    assert_eq!(after[2], Some(Piece::BlueMaster));
    assert_eq!(after[22], None);
}

#[test]
fn blue_wins_with_master_on_red_shrine() {
    let mut board: Board = [None; 25];
    board[2] = Some(Piece::BlueMaster);
    board[12] = Some(Piece::RedMaster);
    assert!(blue_wins(&board));
    assert!(!red_wins(&board));
    assert_eq!(winner(&board), Some(PieceColour::Blue));
}

#[test]
fn blue_wins_when_red_master_is_gone() {
    let mut board: Board = [None; 25];
    board[13] = Some(Piece::BlueMaster);
    board[5] = Some(Piece::RedStudent);
    assert!(blue_wins(&board));
    assert_eq!(winner(&board), Some(PieceColour::Blue));
}

#[test]
fn red_wins_with_master_on_blue_shrine() {
    let mut board: Board = [None; 25];
    board[22] = Some(Piece::RedMaster);
    board[12] = Some(Piece::BlueMaster);
    assert!(red_wins(&board));
    assert!(!blue_wins(&board));
    assert_eq!(winner(&board), Some(PieceColour::Red));
}

#[test]
fn red_wins_when_blue_master_is_gone() {
    let mut board: Board = [None; 25];
    board[13] = Some(Piece::RedMaster);
    board[20] = Some(Piece::BlueStudent);
    assert!(red_wins(&board));
    assert_eq!(winner(&board), Some(PieceColour::Red));
}

#[test]
fn no_winner_in_starting_position() {
    let board = starting_board();
    assert!(!blue_wins(&board));
    assert!(!red_wins(&board));
    assert_eq!(winner(&board), None);
}

#[test]
fn master_index_finds_first_master() {
    let board = starting_board();
    assert_eq!(get_master_index(&board, PieceColour::Red), Some(2));
    assert_eq!(get_master_index(&board, PieceColour::Blue), Some(22));
    let empty: Board = [None; 25];
    assert_eq!(get_master_index(&empty, PieceColour::Red), None);
}

#[test]
fn master_capture_ends_game_from_start() {
    // The end-to-end scenario: Blue's master steps from its shrine
    // straight onto Red's shrine, capturing the Red master.
    let board = starting_board();
    let after = apply_move(&board, Move { source_index: 22, target_index: 2 });
    assert_eq!(winner(&after), Some(PieceColour::Blue));
}

#[test]
fn piece_glyphs_are_distinct() {
    let pieces = [
        Piece::RedStudent,
        Piece::RedMaster,
        Piece::BlueStudent,
        Piece::BlueMaster,
    ];
    assert_eq!(piece_char(Piece::RedStudent), '\u{E000}');
    assert_eq!(piece_char(Piece::BlueMaster), '\u{E004}');
    for i in 0..4 {
        for j in 0..4 {
            if i != j {
                assert_ne!(piece_char(pieces[i]), piece_char(pieces[j]));
            }
        }
    }
}
