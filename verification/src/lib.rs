//! Engine for a two-player abstract strategy game on a 5x5 board.
//!
//! Each side holds two movement cards and a fifth card sits in a shared
//! center slot; a move carries a piece along one of the active card's
//! offsets, and the used card is exchanged with the center card.  A side
//! wins by capturing the opposing master or by walking its own master
//! onto the opposing shrine cell.
//!
//! The modules follow the data: board geometry, the card catalog, the
//! board model and win evaluator, the move generator, the scripted
//! opponent, the immediate-mode widget protocol, input events, the
//! random source, and the turn state machine that ties them together.

mod board;
mod cards;
mod cpu;
mod events;
mod geometry;
mod moves;
mod rng;
mod state;
mod ui;

pub use board::BOTTOM_PAGODA_INDEX;
pub use board::Board;
pub use board::Move;
pub use board::Piece;
pub use board::PieceColour;
pub use board::TOP_PAGODA_INDEX;
pub use board::apply_move;
pub use board::apply_move_spec;
pub use board::blue_wins;
pub use board::blue_wins_spec;
pub use board::cell_has_colour;
pub use board::colour_count;
pub use board::colour_of;
pub use board::get_master_index;
pub use board::has_master;
pub use board::lemma_apply_move_colour_count;
pub use board::lemma_apply_move_count;
pub use board::lemma_apply_move_count_monotone;
pub use board::lemma_win_conditions;
pub use board::master_of;
pub use board::occupied_count;
pub use board::other_colour;
pub use board::piece_char;
pub use board::piece_char_spec;
pub use board::piece_count_of_colour;
pub use board::red_wins;
pub use board::red_wins_spec;
pub use board::winner;
pub use board::winner_spec;
pub use board::wins_spec;

pub use cards::AllValues;
pub use cards::Card;
pub use cards::PairIndex;
pub use cards::SwapCards;
pub use cards::card_catalog;
pub use cards::card_offsets;
pub use cards::card_symbol;
pub use cards::five_cards_distinct;
pub use cards::get_offsets;
pub use cards::get_swap_cards_result;
pub use cards::lemma_card_catalog_distinct;
pub use cards::lemma_card_in_catalog;
pub use cards::lemma_card_offsets_small;
pub use cards::lemma_exchange_preserves_five_cards;
pub use cards::lemma_swap_preserves_distinct;
pub use cards::swap_cards;
pub use cards::swap_cards_spec;

pub use cpu::CpuChoice;
pub use cpu::capturing_choices;
pub use cpu::capturing_move_spec;
pub use cpu::choice_move;
pub use cpu::cpu_choose;
pub use cpu::has_winning_choice;
pub use cpu::is_first_winning_choice;
pub use cpu::opponent_captures_after;
pub use cpu::opponent_wins_after;
pub use cpu::safe_choices;
pub use cpu::strategist_choice_ok;
pub use cpu::safe_move_spec;
pub use cpu::undefended_choices;
pub use cpu::viable_choices;
pub use cpu::viable_move_spec;
pub use cpu::winning_move_spec;

pub use events::Color;
pub use events::Event;
pub use events::FrameInput;
pub use events::KeyCode;
pub use events::collect_input;
pub use events::is_left_press_event;
pub use events::is_left_release_event;
pub use events::is_quit_event;
pub use events::is_reset_event;
pub use events::press_seen;
pub use events::quit_requested;
pub use events::release_seen;
pub use events::reset_requested;
pub use events::some_event;

pub use geometry::Point;
pub use geometry::Rect;
pub use geometry::Size;
pub use geometry::get_board_index;
pub use geometry::get_board_xy;
pub use geometry::inside_rect;
pub use geometry::inside_rect_spec;
pub use geometry::is_index_on_board;
pub use geometry::lemma_index_to_xy_round_trip;
pub use geometry::lemma_xy_to_index_round_trip;
pub use geometry::piece_x;
pub use geometry::piece_y;

pub use moves::get_moves;
pub use moves::get_piece_indices;
pub use moves::legal_targets;
pub use moves::lemma_generated_move_capture_count;
pub use moves::lemma_legal_targets_len;
pub use moves::lemma_legal_targets_sound;
pub use moves::lemma_moves_for_sound;
pub use moves::move_sound;
pub use moves::moves_for;
pub use moves::piece_indices;
pub use moves::valid_move_locations;

pub use rng::rng_below;
pub use rng::rng_bool;
pub use rng::rng_from_seed;
pub use rng::shuffle_cards;

pub use state::State;
pub use state::Turn;
pub use state::board_moved_from;
pub use state::core_unchanged;
pub use state::cpu_cards_exchanged;
pub use state::cpu_turn_outcome;
pub use state::five_cards;
pub use state::frame_ctx_after_cards;
pub use state::frame_ctx_after_first_card;
pub use state::frame_ctx_after_new_game;
pub use state::frame_first_card_fires;
pub use state::frame_new_game_fires;
pub use state::frame_piece_pass;
pub use state::frame_piece_selection;
pub use state::frame_second_card_fires;
pub use state::frame_target_choice;
pub use state::player_cards_exchanged;
pub use state::selected_card_of;
pub use state::target_pass_rec;
pub use state::cpu_take_turn;
pub use state::do_board_piece_buttons;
pub use state::new_state;
pub use state::piece_button_inside;
pub use state::piece_pass_rec;
pub use state::piece_selection_ok;
pub use state::reset_game;
pub use state::selected_slot;
pub use state::selected_source;
pub use state::starting_board;
pub use state::turn_step_ok;
pub use state::update_game;

pub use ui::BlankButtonSpec;
pub use ui::ButtonSpec;
pub use ui::UIContext;
pub use ui::UiId;
pub use ui::button_fires;
pub use ui::button_step_ctx;
pub use ui::do_blank_button;
pub use ui::do_button;
pub use ui::do_card_button;
pub use ui::do_piece_button;
pub use ui::frame_init_spec;
pub use ui::lemma_click_swallowed;
pub use ui::lemma_press_release_cycle;
