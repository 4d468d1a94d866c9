//! The game state and its turn state machine: card and piece
//! selection, move application, the scripted opponent's turn, and the
//! per-frame update that drives them from distilled input.

use vstd::prelude::*;

use crate::board::Board;
use crate::board::Move;
use crate::board::Piece;
use crate::board::PieceColour;
use crate::board::apply_move;
use crate::board::cell_has_colour;
use crate::board::occupied_count;
use crate::board::winner;
use crate::board::winner_spec;
use crate::board::lemma_apply_move_count_monotone;
use crate::cards::AllValues;
use crate::cards::Card;
use crate::cards::PairIndex;
use crate::cards::card_catalog;
use crate::cards::five_cards_distinct;
use crate::cards::lemma_card_catalog_distinct;
use crate::cards::lemma_swap_preserves_distinct;
use crate::cards::swap_cards;
use crate::cpu::CpuChoice;
use crate::cpu::cpu_choose;
use crate::events::Event;
use crate::events::collect_input;
use crate::events::press_seen;
use crate::events::quit_requested;
use crate::events::release_seen;
use crate::events::reset_requested;
use crate::geometry::Point;
use crate::moves::get_moves;
use crate::moves::lemma_legal_targets_sound;
use crate::moves::lemma_moves_for_sound;
use crate::moves::move_sound;
use crate::moves::moves_for;
use crate::moves::valid_move_locations;
use crate::rng::rng_from_seed;
use crate::rng::shuffle_cards;
use crate::ui::BlankButtonSpec;
use crate::ui::UIContext;
use crate::ui::UiId;
use crate::ui::do_blank_button;
use crate::ui::do_card_button;
use crate::ui::do_piece_button;

verus! {

/// The state of the turn state machine.
#[derive(PartialEq, Eq, Structural, Debug, Copy, Clone)]
pub enum Turn {
    /// Awaiting the player's card choice.
    Waiting,
    /// The player chose the card at this slot.
    SelectedCard(PairIndex),
    /// The player chose a card and one of their pieces, by its cell.
    SelectedPiece(PairIndex, usize),
    /// The scripted opponent moves next.
    CpuTurn,
    /// The game ended with this winner.
    Over(PieceColour),
}

/// The whole game state for one session.
pub struct State {
    /// The seedable random source.
    pub rng: rand::rngs::StdRng,
    /// The board.
    pub board: Board,
    /// The player's card pair.
    pub player_cards: (Card, Card),
    /// The shared center card.
    pub center_card: Card,
    /// The scripted opponent's card pair.
    pub cpu_cards: (Card, Card),
    /// The turn state machine.
    pub turn: Turn,
    /// The widget interaction context.
    pub ui_context: UIContext,
}

impl State {
    /// Well-formedness: the five active cards are pairwise distinct,
    /// and a selected piece lies on the board.
    pub open spec fn wf(self) -> bool {
        &&& five_cards_distinct(self.center_card, self.player_cards, self.cpu_cards)
        &&& match self.turn {
            Turn::SelectedPiece(_, source_index) => source_index < 25,
            _ => true,
        }
    }
}

/// The fixed starting position: Red's row at the top with its master
/// on its shrine cell, Blue's row at the bottom likewise.
pub open spec fn starting_board() -> Seq<Option<Piece>> {
    Seq::new(
        25,
        |i: int|
            {
                if i == 2 {
                    Some(Piece::RedMaster)
                } else if 0 <= i < 5 {
                    Some(Piece::RedStudent)
                } else if i == 22 {
                    Some(Piece::BlueMaster)
                } else if 20 <= i < 25 {
                    Some(Piece::BlueStudent)
                } else {
                    None
                }
            },
    )
}

/// Rebuild the board, deal five fresh cards from a shuffled catalog,
/// and restart the turn machine and the widget context; the random
/// source carries on.
pub fn reset_game(state: &mut State)
    ensures
        final(state).wf(),
        final(state).board@ == starting_board(),
        final(state).turn == Turn::Waiting,
        final(state).ui_context == (UIContext { hot: 0, active: 0, next_hot: 0 }),
        card_catalog().contains(final(state).center_card),
        card_catalog().contains(final(state).player_cards.0),
        card_catalog().contains(final(state).player_cards.1),
        card_catalog().contains(final(state).cpu_cards.0),
        card_catalog().contains(final(state).cpu_cards.1),
{
    let mut board: Board = [None;25];
    board[0] = Some(Piece::RedStudent);
    board[1] = Some(Piece::RedStudent);
    board[2] = Some(Piece::RedMaster);
    board[3] = Some(Piece::RedStudent);
    board[4] = Some(Piece::RedStudent);
    board[20] = Some(Piece::BlueStudent);
    board[21] = Some(Piece::BlueStudent);
    board[22] = Some(Piece::BlueMaster);
    board[23] = Some(Piece::BlueStudent);
    board[24] = Some(Piece::BlueStudent);
    proof {
        assert(board@ =~= starting_board());
    }
    state.board = board;

    let mut deck = Card::all_values();
    shuffle_cards(&mut state.rng, &mut deck);
    proof {
        broadcast use vstd::seq_lib::group_to_multiset_ensures;

        lemma_card_catalog_distinct();
        card_catalog().lemma_multiset_has_no_duplicates();
        deck@.lemma_multiset_has_no_duplicates_conv();
    }
    let ghost dealt = deck@;
    let first = deck.pop().unwrap();
    let second = deck.pop().unwrap();
    let third = deck.pop().unwrap();
    let fourth = deck.pop().unwrap();
    let fifth = deck.pop().unwrap();
    proof {
        broadcast use vstd::seq_lib::group_to_multiset_ensures;

        assert(first == dealt[15] && second == dealt[14] && third == dealt[13] && fourth
            == dealt[12] && fifth == dealt[11]);
        assert(dealt.contains(dealt[15]) && dealt.contains(dealt[14]) && dealt.contains(dealt[13])
            && dealt.contains(dealt[12]) && dealt.contains(dealt[11]));
        assert(card_catalog().contains(first) && card_catalog().contains(second)
            && card_catalog().contains(third) && card_catalog().contains(fourth)
            && card_catalog().contains(fifth));
    }
    state.player_cards = (first, second);
    state.cpu_cards = (third, fourth);
    state.center_card = fifth;
    state.turn = Turn::Waiting;
    state.ui_context = UIContext::new();
}

/// A fresh game state deterministically derived from `seed`.
pub fn new_state(seed: u64) -> (r: State)
    ensures
        r.wf(),
        r.board@ == starting_board(),
        r.turn == Turn::Waiting,
        r.ui_context == (UIContext { hot: 0, active: 0, next_hot: 0 }),
        card_catalog().contains(r.center_card),
        card_catalog().contains(r.player_cards.0),
        card_catalog().contains(r.player_cards.1),
        card_catalog().contains(r.cpu_cards.0),
        card_catalog().contains(r.cpu_cards.1),
{
    let rng = rng_from_seed(seed);
    let mut state = State {
        rng,
        board: [None;25],
        player_cards: (Card::Tiger, Card::Crab),
        center_card: Card::Monkey,
        cpu_cards: (Card::Crane, Card::Dragon),
        turn: Turn::Waiting,
        ui_context: UIContext::new(),
    };
    reset_game(&mut state);
    state
}

/// True of a piece-selection transition produced while `turn` showed a
/// selected card: it keeps that card slot and names an on-board cell
/// holding one of the player's pieces.
pub open spec fn piece_selection_ok(board: Seq<Option<Piece>>, turn: Turn, t: Turn) -> bool {
    match t {
        Turn::SelectedPiece(slot, source_index) => {
            &&& turn == Turn::SelectedCard(slot)
            &&& source_index < 25
            &&& cell_has_colour(board[source_index as int], PieceColour::Blue)
        },
        _ => false,
    }
}

/// The pair slot a card-selection turn state names.
pub open spec fn selected_slot(t: Turn) -> PairIndex
    recommends
        t is SelectedCard,
{
    match t {
        Turn::SelectedCard(slot) => slot,
        Turn::SelectedPiece(slot, _) => slot,
        _ => PairIndex::First,
    }
}

/// The source cell a piece-selection turn state names.
pub open spec fn selected_source(t: Turn) -> usize
    recommends
        t is SelectedPiece,
{
    match t {
        Turn::SelectedPiece(_, source_index) => source_index,
        _ => 0,
    }
}

/// True when `after` is `board` with one legal move of the piece of
/// Blue at `source_index` played under `card`.
pub open spec fn board_moved_from(
    board: Seq<Option<Piece>>,
    card: Card,
    source_index: usize,
    after: Seq<Option<Piece>>,
) -> bool {
    exists|k: int|
        0 <= k < crate::moves::legal_targets(board, card, source_index, PieceColour::Blue).len()
            && after == crate::board::apply_move_spec(
            board,
            Move {
                source_index,
                target_index: crate::moves::target_index_of(
                    #[trigger] crate::moves::legal_targets(
                        board,
                        card,
                        source_index,
                        PieceColour::Blue,
                    )[k],
                ),
            },
        )
}

/// True when the pointer lies over the button of board cell `(x, y)`.
pub open spec fn piece_button_inside(mouse_pos: Point, x: int, y: int) -> bool {
    &&& 36 + x * 8 <= mouse_pos.x < 45 + x * 8
    &&& 10 + y * 4 <= mouse_pos.y < 15 + y * 4
}

/// The widget context and the staged piece selection after evaluating,
/// in cell order, the buttons of the player pieces among the first `n`
/// cells, while the card at `slot` is selected.  The last fired button
/// wins; at most one can fire per frame, since only one widget is ever
/// armed.
pub open spec fn piece_pass_rec(
    board: Seq<Option<Piece>>,
    slot: PairIndex,
    ctx: UIContext,
    id_offset: UiId,
    mouse_pos: Point,
    pressed: bool,
    released: bool,
    n: int,
) -> (UIContext, Option<Turn>)
    decreases n,
{
    if n <= 0 {
        (ctx, None)
    } else {
        let prior = piece_pass_rec(board, slot, ctx, id_offset, mouse_pos, pressed, released, n - 1);
        let i = n - 1;
        if cell_has_colour(board[i], PieceColour::Blue) {
            let inside = piece_button_inside(mouse_pos, i % 5, i / 5);
            let id = (id_offset + i) as UiId;
            let fired = crate::ui::button_fires(prior.0, id, inside, released);
            let stepped = crate::ui::button_step_ctx(prior.0, id, inside, pressed, released);
            (
                stepped,
                if fired {
                    Some(Turn::SelectedPiece(slot, i as usize))
                } else {
                    prior.1
                },
            )
        } else {
            prior
        }
    }
}

/// Evaluate one button per player piece while a card is selected,
/// yielding the piece-selection transition of the last clicked piece,
/// if any; in every other turn state no piece button exists and the
/// context is untouched.
pub fn do_board_piece_buttons(
    context: &mut UIContext,
    board: &Board,
    turn: Turn,
    id_offset: UiId,
    mouse_pos: Point,
    left_mouse_pressed: bool,
    left_mouse_released: bool,
) -> (r: Option<Turn>)
    requires
        0 <= id_offset,
        id_offset + 25 <= i32::MAX,
    ensures
        r matches Some(t) ==> piece_selection_ok(board@, turn, t),
        !(turn is SelectedCard) ==> r is None && *final(context) == *old(context),
        turn is SelectedCard ==> ({
            let folded = piece_pass_rec(
                board@,
                selected_slot(turn),
                *old(context),
                id_offset,
                mouse_pos,
                left_mouse_pressed,
                left_mouse_released,
                25,
            );
            *final(context) == folded.0 && r == folded.1
        }),
{
    let mut result: Option<Turn> = None;
    match turn {
        Turn::SelectedCard(card_slot) => {
            let mut y: i32 = 0;
            while y < 5
                invariant
                    0 <= y <= 5,
                    0 <= id_offset,
                    id_offset + 25 <= i32::MAX,
                    turn == Turn::SelectedCard(card_slot),
                    result matches Some(t) ==> piece_selection_ok(board@, turn, t),
                    ({
                        let folded = piece_pass_rec(
                            board@,
                            card_slot,
                            *old(context),
                            id_offset,
                            mouse_pos,
                            left_mouse_pressed,
                            left_mouse_released,
                            y * 5,
                        );
                        *context == folded.0 && result == folded.1
                    }),
                decreases 5 - y,
            {
                let mut x: i32 = 0;
                while x < 5
                    invariant
                        0 <= x <= 5,
                        0 <= y < 5,
                        0 <= id_offset,
                        id_offset + 25 <= i32::MAX,
                        turn == Turn::SelectedCard(card_slot),
                        result matches Some(t) ==> piece_selection_ok(board@, turn, t),
                        ({
                            let folded = piece_pass_rec(
                                board@,
                                card_slot,
                                *old(context),
                                id_offset,
                                mouse_pos,
                                left_mouse_pressed,
                                left_mouse_released,
                                y * 5 + x,
                            );
                            *context == folded.0 && result == folded.1
                        }),
                    decreases 5 - x,
                {
                    let index = (y as usize) * 5 + (x as usize);
                    proof {
                        assert((y * 5 + x) % 5 == x as int);
                        assert((y * 5 + x) / 5 == y as int);
                    }
                    let is_player_piece = match board[index] {
                        Some(piece) => piece.is_player(),
                        None => false,
                    };
                    if is_player_piece {
                        if do_piece_button(
                            context,
                            x,
                            y,
                            id_offset + index as i32,
                            mouse_pos,
                            left_mouse_pressed,
                            left_mouse_released,
                        ) {
                            result = Some(Turn::SelectedPiece(card_slot, index));
                        }
                    }
                    x = x + 1;
                }
                y = y + 1;
            }
        },
        _ => {},
    }
    result
}

/// Run the scripted opponent's whole turn: choose by the tiered
/// strategy, play the move or exchange a card, and hand the turn to
/// the winner state or back to the player.
pub fn cpu_take_turn(state: &mut State)
    requires
        old(state).wf(),
    ensures
        final(state).wf(),
        occupied_count(final(state).board@) <= occupied_count(old(state).board@),
        occupied_count(old(state).board@) <= occupied_count(final(state).board@) + 1,
        cpu_turn_outcome(*old(state), *final(state)),
        five_cards(*final(state)).to_multiset() == five_cards(*old(state)).to_multiset(),
{
    let choice = cpu_choose(
        &state.board,
        &state.cpu_cards,
        &state.player_cards,
        PieceColour::Red,
        &mut state.rng,
    );
    match choice {
        CpuChoice::PlayMove(m, slot) => {
            proof {
                lemma_moves_for_sound(state.board@, state.cpu_cards, PieceColour::Red);
                let ms = moves_for(state.board@, state.cpu_cards, PieceColour::Red);
                assert(ms.contains((m, slot)));
                let k = choose|k: int| 0 <= k < ms.len() && ms[k] == (m, slot);
                assert(move_sound(state.board@, PieceColour::Red, m));
                lemma_apply_move_count_monotone(state.board@, m);
            }
            state.board = apply_move(&state.board, m);
            proof {
                lemma_swap_preserves_distinct(
                    state.center_card,
                    state.cpu_cards,
                    state.player_cards,
                    slot,
                );
                crate::cards::lemma_exchange_preserves_five_cards(
                    state.center_card,
                    state.cpu_cards,
                    state.player_cards,
                    slot,
                );
            }
            swap_cards(&mut state.center_card, &mut state.cpu_cards, slot);
        },
        CpuChoice::ExchangeCard(slot) => {
            proof {
                lemma_swap_preserves_distinct(
                    state.center_card,
                    state.cpu_cards,
                    state.player_cards,
                    slot,
                );
                crate::cards::lemma_exchange_preserves_five_cards(
                    state.center_card,
                    state.cpu_cards,
                    state.player_cards,
                    slot,
                );
            }
            swap_cards(&mut state.center_card, &mut state.cpu_cards, slot);
        },
    }
    state.turn = match winner(&state.board) {
        Some(c) => Turn::Over(c),
        None => Turn::Waiting,
    };
    proof {
        let before = *old(state);
        let after = *state;
        let ms = moves_for(before.board@, before.cpu_cards, PieceColour::Red);
        let sw = crate::cards::swap_cards_spec(
            before.center_card,
            before.cpu_cards,
            crate::cpu::choice_move(choice).1,
        );
        assert(five_cards(after) =~= seq![
            sw.center_card,
            before.player_cards.0,
            before.player_cards.1,
            sw.pair.0,
            sw.pair.1,
        ]);
        assert(five_cards(before) =~= seq![
            before.center_card,
            before.player_cards.0,
            before.player_cards.1,
            before.cpu_cards.0,
            before.cpu_cards.1,
        ]);
        if choice is PlayMove {
            let pair = crate::cpu::choice_move(choice);
            let k = choose|k: int| 0 <= k < ms.len() && ms[k] == pair;
            assert(0 <= k < ms.len() && ms[k] == pair);
            assert(after.board@ == crate::board::apply_move_spec(before.board@, ms[k].0));
            assert(cpu_cards_exchanged(before, after, ms[k].1));
            assert(crate::cpu::strategist_choice_ok(
                before.board@,
                before.cpu_cards,
                before.player_cards,
                PieceColour::Red,
                ms[k],
            ));
        } else {
            assert(cpu_cards_exchanged(before, after, crate::cpu::choice_move(choice).1));
        }
    }
}

/// Screen anchor of the player's first card button.
pub const FIRST_CARD_BUTTON_X: i32 = 6;

/// Screen anchor of the player's second card button.
pub const SECOND_CARD_BUTTON_X: i32 = 42;

/// Screen row of the player's card buttons.
pub const PLAYER_CARD_BUTTON_Y: i32 = 32;

/// Widget id of the player's first card button.
pub const FIRST_CARD_BUTTON_ID: i32 = 120;

/// Widget id of the player's second card button.
pub const SECOND_CARD_BUTTON_ID: i32 = 121;

/// Widget id of the new-game button.
pub const NEW_GAME_BUTTON_ID: i32 = 5;

/// First widget id of the per-piece buttons.
pub const PIECE_BUTTON_ID_OFFSET: i32 = 400;

/// First widget id of the per-destination buttons.
pub const TARGET_BUTTON_ID_OFFSET: i32 = 450;

/// The five active cards of a state: center, player pair, opponent
/// pair.
pub open spec fn five_cards(s: State) -> Seq<Card> {
    seq![s.center_card, s.player_cards.0, s.player_cards.1, s.cpu_cards.0, s.cpu_cards.1]
}

/// The player card held at `slot`.
pub open spec fn selected_card_of(s: State, slot: PairIndex) -> Card {
    match slot {
        PairIndex::First => s.player_cards.0,
        PairIndex::Second => s.player_cards.1,
    }
}

/// The widget context after the frame-start commit and the first card
/// button.
pub open spec fn frame_ctx_after_first_card(
    s: State,
    mouse_pos: Point,
    pressed: bool,
    released: bool,
) -> UIContext {
    crate::ui::button_step_ctx(
        crate::ui::frame_init_spec(s.ui_context),
        FIRST_CARD_BUTTON_ID,
        crate::geometry::inside_rect_spec(
            mouse_pos,
            FIRST_CARD_BUTTON_X,
            PLAYER_CARD_BUTTON_Y,
            32,
            8,
        ),
        pressed,
        released,
    )
}

/// Whether the player's first card button fires this frame.
pub open spec fn frame_first_card_fires(s: State, mouse_pos: Point, released: bool) -> bool {
    crate::ui::button_fires(
        crate::ui::frame_init_spec(s.ui_context),
        FIRST_CARD_BUTTON_ID,
        crate::geometry::inside_rect_spec(
            mouse_pos,
            FIRST_CARD_BUTTON_X,
            PLAYER_CARD_BUTTON_Y,
            32,
            8,
        ),
        released,
    )
}

/// Whether the player's second card button fires this frame.
pub open spec fn frame_second_card_fires(
    s: State,
    mouse_pos: Point,
    pressed: bool,
    released: bool,
) -> bool {
    crate::ui::button_fires(
        frame_ctx_after_first_card(s, mouse_pos, pressed, released),
        SECOND_CARD_BUTTON_ID,
        crate::geometry::inside_rect_spec(
            mouse_pos,
            SECOND_CARD_BUTTON_X,
            PLAYER_CARD_BUTTON_Y,
            32,
            8,
        ),
        released,
    )
}

/// The widget context after both card buttons.
pub open spec fn frame_ctx_after_cards(
    s: State,
    mouse_pos: Point,
    pressed: bool,
    released: bool,
) -> UIContext {
    crate::ui::button_step_ctx(
        frame_ctx_after_first_card(s, mouse_pos, pressed, released),
        SECOND_CARD_BUTTON_ID,
        crate::geometry::inside_rect_spec(
            mouse_pos,
            SECOND_CARD_BUTTON_X,
            PLAYER_CARD_BUTTON_Y,
            32,
            8,
        ),
        pressed,
        released,
    )
}

/// The widget context and staged piece selection after the per-piece
/// button pass.
pub open spec fn frame_piece_pass(
    s: State,
    mouse_pos: Point,
    pressed: bool,
    released: bool,
) -> (UIContext, Option<Turn>) {
    let ctx = frame_ctx_after_cards(s, mouse_pos, pressed, released);
    if s.turn is SelectedCard {
        piece_pass_rec(
            s.board@,
            selected_slot(s.turn),
            ctx,
            PIECE_BUTTON_ID_OFFSET,
            mouse_pos,
            pressed,
            released,
            25,
        )
    } else {
        (ctx, None)
    }
}

/// The piece-selection transition this frame stages, if any.
pub open spec fn frame_piece_selection(
    s: State,
    mouse_pos: Point,
    pressed: bool,
    released: bool,
) -> Option<Turn> {
    frame_piece_pass(s, mouse_pos, pressed, released).1
}

/// Whether the new-game button fires this frame.
pub open spec fn frame_new_game_fires(
    s: State,
    mouse_pos: Point,
    pressed: bool,
    released: bool,
) -> bool {
    crate::ui::button_fires(
        frame_piece_pass(s, mouse_pos, pressed, released).0,
        NEW_GAME_BUTTON_ID,
        crate::geometry::inside_rect_spec(mouse_pos, 2, 10, 12, 3),
        released,
    )
}

/// The widget context after the new-game button, just before any
/// destination buttons.
pub open spec fn frame_ctx_after_new_game(
    s: State,
    mouse_pos: Point,
    pressed: bool,
    released: bool,
) -> UIContext {
    crate::ui::button_step_ctx(
        frame_piece_pass(s, mouse_pos, pressed, released).0,
        NEW_GAME_BUTTON_ID,
        crate::geometry::inside_rect_spec(mouse_pos, 2, 10, 12, 3),
        pressed,
        released,
    )
}

/// The widget context and the index of the first fired destination
/// button after evaluating, in order, the buttons of the first `n`
/// legal targets.
pub open spec fn target_pass_rec(
    ctx: UIContext,
    targets: Seq<(usize, usize)>,
    mouse_pos: Point,
    pressed: bool,
    released: bool,
    n: int,
) -> (UIContext, Option<int>)
    decreases n,
{
    if n <= 0 {
        (ctx, None)
    } else {
        let prior = target_pass_rec(ctx, targets, mouse_pos, pressed, released, n - 1);
        let t = targets[n - 1];
        let inside = crate::geometry::inside_rect_spec(
            mouse_pos,
            (40 + t.0 * 8 - 4) as i32,
            (12 + t.1 * 4 - 2) as i32,
            9,
            5,
        );
        let id = (TARGET_BUTTON_ID_OFFSET + n - 1) as UiId;
        let fired = crate::ui::button_fires(prior.0, id, inside, released);
        (
            crate::ui::button_step_ctx(prior.0, id, inside, pressed, released),
            if fired && prior.1 is None {
                Some(n - 1)
            } else {
                prior.1
            },
        )
    }
}

/// The legal target whose destination button fires first this frame,
/// as an index into the selected piece's target list; `None` when no
/// destination fires or no piece is selected.
pub open spec fn frame_target_choice(
    s: State,
    mouse_pos: Point,
    pressed: bool,
    released: bool,
) -> Option<int> {
    if s.turn is SelectedPiece {
        let source_index = selected_source(s.turn);
        let card = selected_card_of(s, selected_slot(s.turn));
        let targets = crate::moves::legal_targets(
            s.board@,
            card,
            source_index,
            PieceColour::Blue,
        );
        target_pass_rec(
            frame_ctx_after_new_game(s, mouse_pos, pressed, released),
            targets,
            mouse_pos,
            pressed,
            released,
            targets.len() as int,
        ).1
    } else {
        None
    }
}

/// The opponent's cards after exchanging the card at `slot` with the
/// center.
pub open spec fn cpu_cards_exchanged(before: State, after: State, slot: PairIndex) -> bool {
    let sw = crate::cards::swap_cards_spec(before.center_card, before.cpu_cards, slot);
    after.center_card == sw.center_card && after.cpu_cards == sw.pair
}

/// The player's cards after exchanging the card at `slot` with the
/// center.
pub open spec fn player_cards_exchanged(before: State, after: State, slot: PairIndex) -> bool {
    let sw = crate::cards::swap_cards_spec(before.center_card, before.player_cards, slot);
    after.center_card == sw.center_card && after.player_cards == sw.pair
}

/// Everything one whole opponent turn does to the game: when legal
/// moves exist, one of them — obeying every deterministic tier of the
/// strategist — is applied to the board and its slot is exchanged with
/// the center; when none exists, the board stands and one of the two
/// slots is exchanged; the player's cards are untouched and the turn
/// passes to the winner state or back to the player.
pub open spec fn cpu_turn_outcome(before: State, after: State) -> bool {
    let ms = moves_for(before.board@, before.cpu_cards, PieceColour::Red);
    &&& after.player_cards == before.player_cards
    &&& after.turn == (match winner_spec(after.board@) {
        Some(c) => Turn::Over(c),
        None => Turn::Waiting,
    })
    &&& (ms.len() == 0 ==> after.board@ == before.board@ && (exists|slot: PairIndex|
        cpu_cards_exchanged(before, after, slot)))
    &&& (ms.len() > 0 ==> exists|k: int|
        #![trigger ms[k]]
        {
            &&& 0 <= k < ms.len()
            &&& after.board@ == crate::board::apply_move_spec(before.board@, ms[k].0)
            &&& cpu_cards_exchanged(before, after, ms[k].1)
            &&& crate::cpu::strategist_choice_ok(
                before.board@,
                before.cpu_cards,
                before.player_cards,
                PieceColour::Red,
                ms[k],
            )
        })
}

/// An opponent-turn outcome depends only on the core game fields of
/// the starting state, not on its widget context or random source.
proof fn lemma_cpu_outcome_transfer(b1: State, b2: State, a: State)
    requires
        cpu_turn_outcome(b1, a),
        b2.board@ == b1.board@,
        b2.cpu_cards == b1.cpu_cards,
        b2.player_cards == b1.player_cards,
        b2.center_card == b1.center_card,
    ensures
        cpu_turn_outcome(b2, a),
{
    let ms = moves_for(b1.board@, b1.cpu_cards, PieceColour::Red);
    if ms.len() == 0 {
        let slot = choose|slot: PairIndex| cpu_cards_exchanged(b1, a, slot);
        assert(cpu_cards_exchanged(b2, a, slot));
    } else {
        let k = choose|k: int|
            0 <= k < ms.len() && a.board@ == crate::board::apply_move_spec(b1.board@, ms[k].0)
                && cpu_cards_exchanged(b1, a, ms[k].1) && crate::cpu::strategist_choice_ok(
                b1.board@,
                b1.cpu_cards,
                b1.player_cards,
                PieceColour::Red,
                ms[k],
            );
        assert(0 <= k < ms.len() && a.board@ == crate::board::apply_move_spec(b1.board@, ms[k].0));
        assert(cpu_cards_exchanged(b2, a, ms[k].1));
        assert(crate::cpu::strategist_choice_ok(
            b2.board@,
            b2.cpu_cards,
            b2.player_cards,
            PieceColour::Red,
            ms[k],
        ));
    }
}

/// The turn-transition relation one frame may realise.  A reset (the
/// chord or the new-game button) restarts at `Waiting`, and a card
/// click may then follow in the same frame; otherwise each state steps
/// only to its legitimate successors: card clicks override any
/// selection, a selected card with a clicked piece narrows to that
/// piece with the same slot, an applied move hands over to the
/// opponent or ends the game, and the opponent's turn returns to
/// `Waiting` or ends the game.
pub open spec fn turn_step_ok(before: Turn, after: Turn) -> bool {
    match before {
        Turn::Waiting => after == Turn::Waiting || after is SelectedCard,
        Turn::SelectedCard(slot) => {
            ||| after == Turn::Waiting
            ||| after is SelectedCard
            ||| (after is SelectedPiece && selected_slot(after) == slot)
        },
        Turn::SelectedPiece(_, _) => {
            ||| after == before
            ||| after == Turn::Waiting
            ||| after is SelectedCard
            ||| after is CpuTurn
            ||| after is Over
        },
        Turn::CpuTurn => after == Turn::Waiting || after is SelectedCard || after is Over,
        Turn::Over(_) => after == before || after == Turn::Waiting || after is SelectedCard,
    }
}

/// True when a frame left board, cards and turn of the game alone
/// (the widget context may still have moved).
pub open spec fn core_unchanged(before: State, after: State) -> bool {
    &&& after.board@ == before.board@
    &&& after.player_cards == before.player_cards
    &&& after.cpu_cards == before.cpu_cards
    &&& after.center_card == before.center_card
    &&& after.turn == before.turn
}

/// Advance the game by one frame: distill the events, run the widget
/// pass for the card, piece, new-game and destination buttons, step
/// the turn state machine — applying the player's move, the forced
/// exchange, or the scripted opponent's whole turn — and report
/// whether quitting was requested.
#[verifier::rlimit(100)]
pub fn update_game(state: &mut State, events: &Vec<Event>, mouse_pos: Point) -> (quit: bool)
    requires
        old(state).wf(),
    ensures
        final(state).wf(),
        quit == quit_requested(events@),
        quit ==> *final(state) == *old(state),
        !quit ==> turn_step_ok(old(state).turn, final(state).turn),
        occupied_count(final(state).board@) <= occupied_count(old(state).board@)
            || occupied_count(final(state).board@) <= occupied_count(starting_board()),
        (!quit_requested(events@) && !reset_requested(events@) && old(state).turn is SelectedPiece)
            ==> ({
            let source_index = selected_source(old(state).turn);
            let card = selected_card_of(*old(state), selected_slot(old(state).turn));
            ||| final(state).board@ == old(state).board@
            ||| final(state).board@ == starting_board()
            ||| board_moved_from(old(state).board@, card, source_index, final(state).board@)
        }),
        (!reset_requested(events@) && !frame_new_game_fires(
            *old(state),
            mouse_pos,
            press_seen(events@),
            release_seen(events@),
        )) ==> ({
            // Short of a restart, a frame never adds pieces and
            // captures at most one, and the five active cards only
            // ever trade places.
            &&& occupied_count(final(state).board@) <= occupied_count(old(state).board@)
            &&& occupied_count(old(state).board@) <= occupied_count(final(state).board@) + 1
            &&& five_cards(*final(state)).to_multiset() == five_cards(*old(state)).to_multiset()
        }),
        (!quit_requested(events@) && !reset_requested(events@) && !frame_new_game_fires(
            *old(state),
            mouse_pos,
            press_seen(events@),
            release_seen(events@),
        ) && old(state).turn is Waiting) ==> ({
            &&& final(state).board@ == old(state).board@
            &&& final(state).player_cards == old(state).player_cards
            &&& final(state).cpu_cards == old(state).cpu_cards
            &&& final(state).center_card == old(state).center_card
            &&& final(state).turn == (if frame_first_card_fires(
                *old(state),
                mouse_pos,
                release_seen(events@),
            ) {
                Turn::SelectedCard(PairIndex::First)
            } else if frame_second_card_fires(
                *old(state),
                mouse_pos,
                press_seen(events@),
                release_seen(events@),
            ) {
                Turn::SelectedCard(PairIndex::Second)
            } else {
                Turn::Waiting
            })
        }),
        (!quit_requested(events@) && !reset_requested(events@) && !frame_new_game_fires(
            *old(state),
            mouse_pos,
            press_seen(events@),
            release_seen(events@),
        ) && frame_piece_selection(
            *old(state),
            mouse_pos,
            press_seen(events@),
            release_seen(events@),
        ) is Some) ==> ({
            &&& Some(final(state).turn) == frame_piece_selection(
                *old(state),
                mouse_pos,
                press_seen(events@),
                release_seen(events@),
            )
            &&& final(state).board@ == old(state).board@
            &&& final(state).player_cards == old(state).player_cards
            &&& final(state).cpu_cards == old(state).cpu_cards
            &&& final(state).center_card == old(state).center_card
        }),
        (!quit_requested(events@) && !reset_requested(events@) && !frame_new_game_fires(
            *old(state),
            mouse_pos,
            press_seen(events@),
            release_seen(events@),
        ) && old(state).turn is SelectedCard && frame_piece_selection(
            *old(state),
            mouse_pos,
            press_seen(events@),
            release_seen(events@),
        ) is None) ==> ({
            let slot = selected_slot(old(state).turn);
            &&& final(state).board@ == old(state).board@
            &&& final(state).cpu_cards == old(state).cpu_cards
            &&& final(state).turn == (if frame_first_card_fires(
                *old(state),
                mouse_pos,
                release_seen(events@),
            ) {
                Turn::SelectedCard(PairIndex::First)
            } else if frame_second_card_fires(
                *old(state),
                mouse_pos,
                press_seen(events@),
                release_seen(events@),
            ) {
                Turn::SelectedCard(PairIndex::Second)
            } else {
                old(state).turn
            })
            &&& if moves_for(old(state).board@, old(state).player_cards, PieceColour::Blue).len()
                == 0 {
                // The forced pass: the selected card rotates through
                // the center slot.
                player_cards_exchanged(*old(state), *final(state), slot)
            } else {
                final(state).center_card == old(state).center_card && final(state).player_cards
                    == old(state).player_cards
            }
        }),
        (!quit_requested(events@) && !reset_requested(events@) && !frame_new_game_fires(
            *old(state),
            mouse_pos,
            press_seen(events@),
            release_seen(events@),
        ) && old(state).turn is SelectedPiece && !frame_first_card_fires(
            *old(state),
            mouse_pos,
            release_seen(events@),
        ) && !frame_second_card_fires(
            *old(state),
            mouse_pos,
            press_seen(events@),
            release_seen(events@),
        )) ==> ({
            let source_index = selected_source(old(state).turn);
            let targets = crate::moves::legal_targets(
                old(state).board@,
                selected_card_of(*old(state), selected_slot(old(state).turn)),
                source_index,
                PieceColour::Blue,
            );
            match frame_target_choice(
                *old(state),
                mouse_pos,
                press_seen(events@),
                release_seen(events@),
            ) {
                Some(i) => {
                    &&& 0 <= i < targets.len()
                    &&& final(state).board@ == crate::board::apply_move_spec(
                        old(state).board@,
                        Move {
                            source_index,
                            target_index: crate::moves::target_index_of(targets[i]),
                        },
                    )
                    &&& player_cards_exchanged(
                        *old(state),
                        *final(state),
                        selected_slot(old(state).turn),
                    )
                    &&& final(state).cpu_cards == old(state).cpu_cards
                    &&& final(state).turn == (match winner_spec(final(state).board@) {
                        Some(c) => Turn::Over(c),
                        None => Turn::CpuTurn,
                    })
                },
                None => core_unchanged(*old(state), *final(state)),
            }
        }),
        (!quit_requested(events@) && !reset_requested(events@) && !frame_new_game_fires(
            *old(state),
            mouse_pos,
            press_seen(events@),
            release_seen(events@),
        ) && old(state).turn is CpuTurn) ==> cpu_turn_outcome(*old(state), *final(state)),
        (!quit_requested(events@) && !reset_requested(events@) && !frame_new_game_fires(
            *old(state),
            mouse_pos,
            press_seen(events@),
            release_seen(events@),
        ) && old(state).turn is Over) ==> core_unchanged(*old(state), *final(state)),
{
    let input = collect_input(events);
    if input.quit {
        return true;
    }
    if input.reset {
        reset_game(state);
    }

    state.ui_context.frame_init();

    let first_clicked = do_card_button(
        &mut state.ui_context,
        FIRST_CARD_BUTTON_X,
        PLAYER_CARD_BUTTON_Y,
        FIRST_CARD_BUTTON_ID,
        mouse_pos,
        input.left_mouse_pressed,
        input.left_mouse_released,
    );
    let second_clicked = do_card_button(
        &mut state.ui_context,
        SECOND_CARD_BUTTON_X,
        PLAYER_CARD_BUTTON_Y,
        SECOND_CARD_BUTTON_ID,
        mouse_pos,
        input.left_mouse_pressed,
        input.left_mouse_released,
    );

    let possible_board_input = do_board_piece_buttons(
        &mut state.ui_context,
        &state.board,
        state.turn,
        PIECE_BUTTON_ID_OFFSET,
        mouse_pos,
        input.left_mouse_pressed,
        input.left_mouse_released,
    );

    let new_game_clicked = do_blank_button(
        &mut state.ui_context,
        &BlankButtonSpec { x: 2, y: 10, w: 12, h: 3, id: NEW_GAME_BUTTON_ID },
        mouse_pos,
        input.left_mouse_pressed,
        input.left_mouse_released,
    );
    proof {
        if !input.reset {
            assert(first_clicked == frame_first_card_fires(
                *old(state),
                mouse_pos,
                input.left_mouse_released,
            ));
            assert(second_clicked == frame_second_card_fires(
                *old(state),
                mouse_pos,
                input.left_mouse_pressed,
                input.left_mouse_released,
            ));
            assert(possible_board_input == frame_piece_selection(
                *old(state),
                mouse_pos,
                input.left_mouse_pressed,
                input.left_mouse_released,
            ));
            assert(new_game_clicked == frame_new_game_fires(
                *old(state),
                mouse_pos,
                input.left_mouse_pressed,
                input.left_mouse_released,
            ));
            assert(state.ui_context == frame_ctx_after_new_game(
                *old(state),
                mouse_pos,
                input.left_mouse_pressed,
                input.left_mouse_released,
            ));
        }
    }
    if new_game_clicked {
        reset_game(state);
    }
    if let Some(board_input) = possible_board_input {
        state.turn = board_input;
    } else {
        match state.turn {
            Turn::Waiting => {
                if first_clicked {
                    state.turn = Turn::SelectedCard(PairIndex::First);
                } else if second_clicked {
                    state.turn = Turn::SelectedCard(PairIndex::Second);
                }
            },
            Turn::SelectedCard(pair_index) => {
                if first_clicked {
                    state.turn = Turn::SelectedCard(PairIndex::First);
                } else if second_clicked {
                    state.turn = Turn::SelectedCard(PairIndex::Second);
                }
                let player_moves = get_moves(
                    &state.board,
                    &state.player_cards,
                    PieceColour::Blue,
                );
                if player_moves.len() == 0 {
                    // Forced pass: exchange the selected card for the
                    // center card at no move cost.
                    proof {
                        lemma_swap_preserves_distinct(
                            state.center_card,
                            state.player_cards,
                            state.cpu_cards,
                            pair_index,
                        );
                        crate::cards::lemma_exchange_preserves_five_cards(
                            state.center_card,
                            state.player_cards,
                            state.cpu_cards,
                            pair_index,
                        );
                    }
                    swap_cards(&mut state.center_card, &mut state.player_cards, pair_index);
                }
            },
            Turn::SelectedPiece(pair_index, source_index) => {
                if first_clicked {
                    state.turn = Turn::SelectedCard(PairIndex::First);
                } else if second_clicked {
                    state.turn = Turn::SelectedCard(PairIndex::Second);
                }
                let card = match pair_index {
                    PairIndex::First => state.player_cards.0,
                    PairIndex::Second => state.player_cards.1,
                };
                let targets = valid_move_locations(
                    &state.board,
                    &card,
                    source_index,
                    PieceColour::Blue,
                );
                proof {
                    crate::moves::lemma_legal_targets_len(
                        state.board@,
                        card,
                        source_index,
                        PieceColour::Blue,
                    );
                    lemma_legal_targets_sound(state.board@, card, source_index, PieceColour::Blue);
                }
                let ghost ctx_targets = state.ui_context;
                let ghost entry_turn = state.turn;
                let mut have_not_moved = true;
                let mut counter: usize = 0;
                while counter < targets.len()
                    invariant
                        targets@.len() <= 4,
                        counter <= targets@.len(),
                        source_index < 25,
                        forall|k: int|
                            0 <= k < targets@.len() ==> (#[trigger] targets@[k]).0 < 5
                                && targets@[k].1 < 5,
                        state.wf(),
                        old(state).turn == Turn::SelectedPiece(pair_index, source_index),
                        turn_step_ok(old(state).turn, state.turn),
                        card == selected_card_of(*old(state), pair_index),
                        targets@ == crate::moves::legal_targets(
                            old(state).board@,
                            card,
                            source_index,
                            PieceColour::Blue,
                        ),
                        occupied_count(state.board@) <= occupied_count(old(state).board@),
                        occupied_count(old(state).board@) <= occupied_count(state.board@) + 1,
                        seq![
                            state.center_card,
                            state.player_cards.0,
                            state.player_cards.1,
                            state.cpu_cards.0,
                            state.cpu_cards.1,
                        ].to_multiset() == five_cards(*old(state)).to_multiset(),
                        ({
                            let fold = target_pass_rec(
                                ctx_targets,
                                targets@,
                                mouse_pos,
                                input.left_mouse_pressed,
                                input.left_mouse_released,
                                counter as int,
                            );
                            &&& state.ui_context == fold.0
                            &&& (have_not_moved <==> fold.1 is None)
                            &&& (fold.1 matches Some(i) ==> {
                                &&& 0 <= i < counter
                                &&& state.board@ == crate::board::apply_move_spec(
                                    old(state).board@,
                                    Move {
                                        source_index,
                                        target_index: crate::moves::target_index_of(targets@[i]),
                                    },
                                )
                                &&& player_cards_exchanged(*old(state), *state, pair_index)
                                &&& state.cpu_cards == old(state).cpu_cards
                                &&& state.turn == (match winner_spec(state.board@) {
                                    Some(c) => Turn::Over(c),
                                    None => Turn::CpuTurn,
                                })
                            })
                        }),
                        have_not_moved ==> (state.board@ == old(state).board@
                            && state.player_cards == old(state).player_cards && state.cpu_cards
                            == old(state).cpu_cards && state.center_card == old(
                            state,
                        ).center_card && state.turn == entry_turn),
                    decreases targets@.len() - counter,
                {
                    let (tx, ty) = targets[counter];
                    proof {
                        let t = targets@[counter as int];
                        assert(40 + (tx as i32) * 8 - 4 == (40 + t.0 * 8 - 4) as i32);
                        assert(12 + (ty as i32) * 4 - 2 == (12 + t.1 * 4 - 2) as i32);
                    }
                    let fired = do_blank_button(
                        &mut state.ui_context,
                        &BlankButtonSpec {
                            x: 40 + (tx as i32) * 8 - 4,
                            y: 12 + (ty as i32) * 4 - 2,
                            w: 9,
                            h: 5,
                            id: TARGET_BUTTON_ID_OFFSET + counter as i32,
                        },
                        mouse_pos,
                        input.left_mouse_pressed,
                        input.left_mouse_released,
                    );
                    if fired && have_not_moved {
                        let target_index = ty * 5 + tx;
                        let m = Move { source_index, target_index };
                        proof {
                            lemma_apply_move_count_monotone(state.board@, m);
                        }
                        state.board = apply_move(&state.board, m);
                        proof {
                            assert(targets@[counter as int] == (tx, ty));
                            assert(crate::moves::target_index_of(targets@[counter as int])
                                == target_index);
                            assert(board_moved_from(
                                old(state).board@,
                                card,
                                source_index,
                                state.board@,
                            ));
                        }
                        proof {
                            lemma_swap_preserves_distinct(
                                state.center_card,
                                state.player_cards,
                                state.cpu_cards,
                                pair_index,
                            );
                            crate::cards::lemma_exchange_preserves_five_cards(
                                state.center_card,
                                state.player_cards,
                                state.cpu_cards,
                                pair_index,
                            );
                        }
                        swap_cards(&mut state.center_card, &mut state.player_cards, pair_index);
                        state.turn = match winner(&state.board) {
                            Some(c) => Turn::Over(c),
                            None => Turn::CpuTurn,
                        };
                        have_not_moved = false;
                    }
                    counter = counter + 1;
                }
            },
            Turn::CpuTurn => {
                let ghost before_cpu = *state;
                cpu_take_turn(state);
                proof {
                    assert(five_cards(before_cpu) =~= five_cards(*old(state)));
                    lemma_cpu_outcome_transfer(before_cpu, *old(state), *state);
                }
            },
            Turn::Over(_) => {},
        }
    }
    false
}

} // verus!
