use pagoda::cpu_choose;
use pagoda::get_moves;
use pagoda::rng_below;
use pagoda::rng_bool;
use pagoda::rng_from_seed;
use pagoda::shuffle_cards;
use pagoda::AllValues;
use pagoda::Board;
use pagoda::Card;
use pagoda::CpuChoice;
use pagoda::Move;
use pagoda::PairIndex;
use pagoda::Piece;
use pagoda::PieceColour;

#[test]
fn unique_winning_move_is_always_chosen() {
    // Red's master at (2, 3) with the Tiger reaches the shrine at
    // (2, 4); no other Red move wins.  Whatever the seed, the
    // strategist plays it.
    let mut board: Board = [None; 25];
    board[17] = Some(Piece::RedMaster);
    board[0] = Some(Piece::BlueMaster);
    let cpu_cards = (Card::Tiger, Card::Boar);
    let player_cards = (Card::Crab, Card::Ox);
    for seed in 0..32u64 {
        let mut rng = rng_from_seed(seed);
        let choice = cpu_choose(&board, &cpu_cards, &player_cards, PieceColour::Red, &mut rng);
        assert_eq!(
            choice,
            CpuChoice::PlayMove(Move { source_index: 17, target_index: 22 }, PairIndex::First)
        );
    }
}

#[test]
fn capture_by_master_wins_whatever_the_seed() {
    // Red's master at (2, 1) can take Blue's master at (2, 0) with
    // the Boar's upward step.
    let mut board: Board = [None; 25];
    board[7] = Some(Piece::RedMaster);
    board[2] = Some(Piece::BlueMaster);
    let cpu_cards = (Card::Crane, Card::Boar);
    let player_cards = (Card::Crab, Card::Ox);
    for seed in 0..32u64 {
        let mut rng = rng_from_seed(seed);
        let choice = cpu_choose(&board, &cpu_cards, &player_cards, PieceColour::Red, &mut rng);
        match choice {
            CpuChoice::PlayMove(m, _) => {
                assert_eq!(m, Move { source_index: 7, target_index: 2 });
            }
            CpuChoice::ExchangeCard(_) => panic!("a winning move exists"),
        }
    }
}

#[test]
fn no_pieces_forces_a_card_exchange() {
    let mut board: Board = [None; 25];
    board[22] = Some(Piece::BlueMaster);
    let cpu_cards = (Card::Tiger, Card::Boar);
    let player_cards = (Card::Crab, Card::Ox);
    let mut rng = rng_from_seed(3);
    let choice = cpu_choose(&board, &cpu_cards, &player_cards, PieceColour::Red, &mut rng);
    assert!(matches!(choice, CpuChoice::ExchangeCard(_)));
}

#[test]
fn chosen_move_is_always_legal() {
    let mut board: Board = [None; 25];
    board[0] = Some(Piece::RedStudent);
    board[1] = Some(Piece::RedMaster);
    board[6] = Some(Piece::RedStudent);
    board[22] = Some(Piece::BlueMaster);
    board[18] = Some(Piece::BlueStudent);
    let cpu_cards = (Card::Goose, Card::Horse);
    let player_cards = (Card::Eel, Card::Rabbit);
    let legal = get_moves(&board, &cpu_cards, PieceColour::Red);
    assert!(!legal.is_empty());
    for seed in 0..32u64 {
        let mut rng = rng_from_seed(seed);
        let choice = cpu_choose(&board, &cpu_cards, &player_cards, PieceColour::Red, &mut rng);
        match choice {
            CpuChoice::PlayMove(m, slot) => assert!(legal.contains(&(m, slot))),
            CpuChoice::ExchangeCard(_) => panic!("moves exist"),
        }
    }
}

#[test]
fn random_index_stays_below_bound() {
    let mut rng = rng_from_seed(11);
    for _ in 0..100 {
        assert!(rng_below(&mut rng, 1) == 0);
        assert!(rng_below(&mut rng, 7) < 7);
    }
}

#[test]
fn random_bool_takes_both_values() {
    let mut rng = rng_from_seed(5);
    let mut saw_true = false;
    let mut saw_false = false;
    for _ in 0..200 {
        if rng_bool(&mut rng) {
            saw_true = true;
        } else {
            saw_false = true;
        }
    }
    assert!(saw_true && saw_false);
}

#[test]
fn shuffle_permutes_the_deck() {
    let mut rng = rng_from_seed(9);
    let mut deck = Card::all_values();
    shuffle_cards(&mut rng, &mut deck);
    assert_eq!(deck.len(), 16);
    // Same sixteen cards, each exactly once.
    for card in Card::all_values() {
        assert_eq!(deck.iter().filter(|c| **c == card).count(), 1);
    }
    // Some seed must actually reorder the catalog; check a fixed one
    // does.
    let mut reordered = false;
    for seed in 0..16u64 {
        let mut r = rng_from_seed(seed);
        let mut d = Card::all_values();
        shuffle_cards(&mut r, &mut d);
        if d != Card::all_values() {
            reordered = true;
        }
    }
    assert!(reordered);
}
