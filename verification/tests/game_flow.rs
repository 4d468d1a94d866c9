use pagoda::new_state;
use pagoda::update_game;
use pagoda::cpu_take_turn;
use pagoda::piece_count_of_colour;
use pagoda::Card;
use pagoda::Event;
use pagoda::KeyCode;
use pagoda::PairIndex;
use pagoda::Piece;
use pagoda::PieceColour;
use pagoda::Point;
use pagoda::Turn;

fn no_events() -> Vec<Event> {
    Vec::new()
}

fn press() -> Vec<Event> {
    vec![Event::KeyPressed { key: KeyCode::MouseLeft, ctrl: false, shift: false }]
}

fn release() -> Vec<Event> {
    vec![Event::KeyReleased { key: KeyCode::MouseLeft, ctrl: false, shift: false }]
}

fn total_pieces(board: &pagoda::Board) -> usize {
    piece_count_of_colour(board, PieceColour::Red) + piece_count_of_colour(board, PieceColour::Blue)
}

/// Drive one full click cycle on the cell at `pos`: hover, press,
/// release.
fn click(state: &mut pagoda::State, pos: Point) {
    assert!(!update_game(state, &no_events(), pos));
    assert!(!update_game(state, &press(), pos));
    assert!(!update_game(state, &release(), pos));
}

#[test]
fn new_state_deals_five_distinct_cards_onto_starting_board() {
    let state = new_state(42);
    assert_eq!(state.turn, Turn::Waiting);
    let five = [
        state.center_card,
        state.player_cards.0,
        state.player_cards.1,
        state.cpu_cards.0,
        state.cpu_cards.1,
    ];
    for i in 0..5 {
        for j in 0..5 {
            if i != j {
                assert_ne!(five[i], five[j]);
            }
        }
    }
    assert_eq!(state.board[2], Some(Piece::RedMaster));
    assert_eq!(state.board[22], Some(Piece::BlueMaster));
    assert_eq!(total_pieces(&state.board), 10);
    for i in 5..20 {
        assert_eq!(state.board[i], None);
    }
}

#[test]
fn same_seed_same_deal() {
    let a = new_state(7);
    let b = new_state(7);
    assert_eq!(a.player_cards, b.player_cards);
    assert_eq!(a.cpu_cards, b.cpu_cards);
    assert_eq!(a.center_card, b.center_card);
}

#[test]
fn close_event_requests_quit() {
    let mut state = new_state(1);
    let events = vec![Event::Close];
    assert!(update_game(&mut state, &events, Point { x: 0, y: 0 }));
}

#[test]
fn escape_requests_quit() {
    let mut state = new_state(1);
    let events = vec![Event::KeyPressed { key: KeyCode::Escape, ctrl: false, shift: false }];
    assert!(update_game(&mut state, &events, Point { x: 0, y: 0 }));
}

#[test]
fn plain_r_does_not_reset_but_chord_does() {
    let mut state = new_state(1);
    state.turn = Turn::CpuTurn;
    state.board[12] = Some(Piece::RedStudent);

    let plain = vec![Event::KeyPressed { key: KeyCode::R, ctrl: false, shift: false }];
    // A CPU turn runs, so the turn leaves CpuTurn, but no reset put
    // eleven pieces back to ten plus one.
    assert!(!update_game(&mut state, &plain, Point { x: 0, y: 0 }));

    state.turn = Turn::Over(PieceColour::Red);
    let chord = vec![Event::KeyPressed { key: KeyCode::R, ctrl: true, shift: false }];
    assert!(!update_game(&mut state, &chord, Point { x: 0, y: 0 }));
    assert_eq!(state.turn, Turn::Waiting);
    assert_eq!(total_pieces(&state.board), 10);
    assert_eq!(state.board[12], None);
}

#[test]
fn card_click_selects_then_piece_then_move_reaches_cpu_turn() {
    let mut state = new_state(4);
    // Fix the hands so the scenario is card-geometry independent.
    state.player_cards = (Card::Tiger, Card::Boar);
    state.cpu_cards = (Card::Crab, Card::Ox);
    state.center_card = Card::Cobra;

    // Click the first card button (anchored at (6, 32), 32 by 8).
    click(&mut state, Point { x: 10, y: 34 });
    assert_eq!(state.turn, Turn::SelectedCard(PairIndex::First));

    // Click the Blue piece on cell (0, 4): its button spans
    // (36..45) x (26..31).
    click(&mut state, Point { x: 38, y: 27 });
    assert_eq!(state.turn, Turn::SelectedPiece(PairIndex::First, 20));

    // The Tiger's only target from (0, 4) is (0, 2); its destination
    // button spans (36..45) x (18..23).
    click(&mut state, Point { x: 38, y: 20 });

    // The move was applied and the used card went to the center.
    assert_eq!(state.board[20], None);
    assert_eq!(state.board[10], Some(Piece::BlueStudent));
    assert_eq!(state.center_card, Card::Tiger);
    assert_eq!(state.player_cards, (Card::Cobra, Card::Boar));

    // No winner yet: the machine handed the turn to the CPU, and the
    // next frame plays the CPU's whole turn.
    assert_eq!(state.turn, Turn::CpuTurn);
    let pieces_before = total_pieces(&state.board);
    assert!(!update_game(&mut state, &no_events(), Point { x: 0, y: 0 }));
    assert!(matches!(state.turn, Turn::Waiting | Turn::Over(_)));
    assert!(total_pieces(&state.board) <= pieces_before);
}

#[test]
fn reclicking_other_card_overrides_selection() {
    let mut state = new_state(4);
    state.player_cards = (Card::Tiger, Card::Boar);
    state.cpu_cards = (Card::Crab, Card::Ox);
    state.center_card = Card::Cobra;
    click(&mut state, Point { x: 10, y: 34 });
    assert_eq!(state.turn, Turn::SelectedCard(PairIndex::First));
    // The second card button is anchored at (42, 32).
    click(&mut state, Point { x: 50, y: 34 });
    assert_eq!(state.turn, Turn::SelectedCard(PairIndex::Second));
}

#[test]
fn selected_card_with_no_moves_forces_exchange() {
    let mut state = new_state(2);
    state.player_cards = (Card::Tiger, Card::Boar);
    state.cpu_cards = (Card::Crab, Card::Ox);
    state.center_card = Card::Cobra;
    // Blue has no pieces at all, so no legal moves exist.
    state.board = [None; 25];
    state.board[2] = Some(Piece::RedMaster);
    state.turn = Turn::SelectedCard(PairIndex::First);
    assert!(!update_game(&mut state, &no_events(), Point { x: 0, y: 0 }));
    assert_eq!(state.center_card, Card::Tiger);
    assert_eq!(state.player_cards, (Card::Cobra, Card::Boar));
}

#[test]
fn cpu_turn_with_winning_move_ends_the_game() {
    let mut state = new_state(3);
    state.player_cards = (Card::Crab, Card::Ox);
    state.cpu_cards = (Card::Tiger, Card::Boar);
    state.center_card = Card::Cobra;
    state.board = [None; 25];
    state.board[17] = Some(Piece::RedMaster);
    state.board[0] = Some(Piece::BlueMaster);
    state.turn = Turn::CpuTurn;
    cpu_take_turn(&mut state);
    assert_eq!(state.turn, Turn::Over(PieceColour::Red));
    assert_eq!(state.board[22], Some(Piece::RedMaster));
    // Tiger carried the winning move and was exchanged away.
    assert_eq!(state.center_card, Card::Tiger);
    assert_eq!(state.cpu_cards, (Card::Cobra, Card::Boar));
}

#[test]
fn cpu_without_pieces_exchanges_a_card() {
    let mut state = new_state(6);
    state.player_cards = (Card::Crab, Card::Ox);
    state.cpu_cards = (Card::Tiger, Card::Boar);
    state.center_card = Card::Cobra;
    state.board = [None; 25];
    state.board[12] = Some(Piece::BlueMaster);
    state.turn = Turn::CpuTurn;
    cpu_take_turn(&mut state);
    // One of the two CPU cards went to the center.
    assert!(
        (state.center_card == Card::Tiger && state.cpu_cards == (Card::Cobra, Card::Boar))
            || (state.center_card == Card::Boar && state.cpu_cards == (Card::Tiger, Card::Cobra))
    );
    // With no Red master left the evaluator already names Blue.
    assert_eq!(state.turn, Turn::Over(PieceColour::Blue));
}

#[test]
fn game_over_state_ignores_frames() {
    let mut state = new_state(8);
    state.turn = Turn::Over(PieceColour::Blue);
    let board_before = state.board;
    let cards_before = (state.center_card, state.player_cards, state.cpu_cards);
    assert!(!update_game(&mut state, &no_events(), Point { x: 0, y: 0 }));
    // A stray release that fires no button changes nothing either.
    assert!(!update_game(&mut state, &release(), Point { x: 0, y: 0 }));
    assert_eq!(state.turn, Turn::Over(PieceColour::Blue));
    assert_eq!(state.board.to_vec(), board_before.to_vec());
    assert_eq!((state.center_card, state.player_cards, state.cpu_cards), cards_before);
}

#[test]
fn cpu_frame_plays_a_move_despite_stray_release() {
    let mut state = new_state(14);
    state.player_cards = (Card::Crab, Card::Ox);
    state.cpu_cards = (Card::Tiger, Card::Boar);
    state.center_card = Card::Cobra;
    state.board = [None; 25];
    state.board[17] = Some(Piece::RedMaster);
    state.board[0] = Some(Piece::BlueMaster);
    state.turn = Turn::CpuTurn;
    // The release fires no button, yet the opponent's whole turn runs.
    assert!(!update_game(&mut state, &release(), Point { x: 0, y: 0 }));
    assert_eq!(state.turn, Turn::Over(PieceColour::Red));
    assert_eq!(state.board[22], Some(Piece::RedMaster));
    assert_eq!(state.center_card, Card::Tiger);
    assert_eq!(state.cpu_cards, (Card::Cobra, Card::Boar));
}

#[test]
fn forced_exchange_happens_despite_stray_release() {
    let mut state = new_state(16);
    state.player_cards = (Card::Tiger, Card::Boar);
    state.cpu_cards = (Card::Crab, Card::Ox);
    state.center_card = Card::Cobra;
    state.board = [None; 25];
    state.board[2] = Some(Piece::RedMaster);
    state.turn = Turn::SelectedCard(PairIndex::Second);
    assert!(!update_game(&mut state, &release(), Point { x: 0, y: 0 }));
    assert_eq!(state.center_card, Card::Boar);
    assert_eq!(state.player_cards, (Card::Tiger, Card::Cobra));
    assert_eq!(state.turn, Turn::SelectedCard(PairIndex::Second));
}

#[test]
fn quiet_frame_changes_nothing_but_widgets() {
    let mut state = new_state(12);
    state.turn = Turn::SelectedPiece(PairIndex::Second, 21);
    let cards_before = (state.center_card, state.player_cards, state.cpu_cards);
    let board_before = state.board;
    assert!(!update_game(&mut state, &no_events(), Point { x: 38, y: 27 }));
    assert_eq!(state.turn, Turn::SelectedPiece(PairIndex::Second, 21));
    assert_eq!(state.board, board_before);
    assert_eq!((state.center_card, state.player_cards, state.cpu_cards), cards_before);
}

#[test]
fn new_game_button_restarts_with_fresh_deal() {
    let mut state = new_state(21);
    // Lose a piece first so the restart is observable.
    state.board = [None; 25];
    state.board[2] = Some(Piece::RedMaster);
    state.board[22] = Some(Piece::BlueMaster);
    state.turn = Turn::Over(PieceColour::Red);
    // The new-game button spans (2..14) x (10..13).
    click(&mut state, Point { x: 5, y: 11 });
    assert_eq!(state.turn, Turn::Waiting);
    assert_eq!(total_pieces(&state.board), 10);
    assert_eq!(state.board[0], Some(Piece::RedStudent));
    assert_eq!(state.board[24], Some(Piece::BlueStudent));
}
