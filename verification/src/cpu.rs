//! The scripted opponent: scores the full legal-move set by look-ahead
//! tiers — immediate win, undefended capture, capture or safety by
//! mood, any viable move — and picks one, or falls back to a card
//! exchange when no move exists.

use vstd::prelude::*;

use crate::board::Board;
use crate::board::Move;
use crate::board::Piece;
use crate::board::PieceColour;
use crate::board::apply_move;
use crate::board::apply_move_spec;
use crate::board::blue_wins;
use crate::board::colour_count;
use crate::board::other_colour;
use crate::board::piece_count_of_colour;
use crate::board::red_wins;
use crate::board::wins_spec;
use crate::cards::Card;
use crate::cards::PairIndex;
use crate::moves::get_moves;
use crate::moves::lemma_moves_for_sound;
use crate::moves::move_sound;
use crate::moves::moves_for;
use crate::rng::rng_below;
use crate::rng::rng_bool;

verus! {

/// What the strategist decided: play a tagged move, or exchange the
/// card at the given slot with the center card because no move exists.
#[derive(Debug, Copy, Clone, PartialEq, Eq, Structural)]
pub enum CpuChoice {
    PlayMove(Move, PairIndex),
    ExchangeCard(PairIndex),
}

/// The tagged move a `PlayMove` choice carries.
pub open spec fn choice_move(r: CpuChoice) -> (Move, PairIndex)
    recommends
        r is PlayMove,
{
    match r {
        CpuChoice::PlayMove(m, s) => (m, s),
        CpuChoice::ExchangeCard(s) => (Move { source_index: 0, target_index: 0 }, s),
    }
}

/// A sequence with one element is its element filtered.
proof fn lemma_filter_singleton<A>(x: A, pred: spec_fn(A) -> bool)
    ensures
        seq![x].filter(pred) == if pred(x) {
            seq![x]
        } else {
            Seq::<A>::empty()
        },
{
    reveal(Seq::filter);
    assert(seq![x].drop_last() =~= Seq::<A>::empty());
    assert(Seq::<A>::empty().filter(pred) =~= Seq::<A>::empty());
    if pred(x) {
        assert(Seq::<A>::empty().push(x) =~= seq![x]);
    }
}

/// Appending one element extends the filtered sequence by that element
/// exactly when it satisfies the predicate.
proof fn lemma_filter_push<A>(s: Seq<A>, x: A, pred: spec_fn(A) -> bool)
    ensures
        s.push(x).filter(pred) == if pred(x) {
            s.filter(pred).push(x)
        } else {
            s.filter(pred)
        },
{
    assert(s.push(x) =~= s + seq![x]);
    lemma_filter_singleton(x, pred);
    assert((s + seq![x]).filter(pred) == s.filter(pred) + seq![x].filter(pred));
    if pred(x) {
        assert(s.filter(pred) + seq![x] =~= s.filter(pred).push(x));
    } else {
        assert(s.filter(pred) + Seq::<A>::empty() =~= s.filter(pred));
    }
}

/// Every element of a filtered sequence occurs in the original.
proof fn lemma_filter_subset<A>(s: Seq<A>, pred: spec_fn(A) -> bool)
    ensures
        forall|i: int|
            0 <= i < s.filter(pred).len() ==> s.contains(#[trigger] s.filter(pred)[i]),
    decreases s.len(),
{
    reveal(Seq::filter);
    if s.len() > 0 {
        lemma_filter_subset(s.drop_last(), pred);
        let f = s.filter(pred);
        let fd = s.drop_last().filter(pred);
        assert forall|i: int| 0 <= i < f.len() implies s.contains(#[trigger] f[i]) by {
            if i < fd.len() {
                assert(f[i] == fd[i]);
                assert(s.drop_last().contains(fd[i]));
                let j = choose|j: int| 0 <= j < s.drop_last().len() && s.drop_last()[j] == fd[i];
                assert(s[j] == fd[i]);
            } else {
                assert(f[i] == s.last());
                assert(s[s.len() - 1] == s.last());
            }
        }
    }
}

/// True when playing `m` makes `colour` win outright.
pub open spec fn winning_move_spec(
    board: Seq<Option<Piece>>,
    colour: PieceColour,
    m: Move,
) -> bool {
    wins_spec(apply_move_spec(board, m), colour)
}

/// True when on `board_after` the side `opp`, holding `opp_cards`, has
/// some legal move that wins outright.
pub open spec fn opponent_wins_after(
    board_after: Seq<Option<Piece>>,
    opp_cards: (Card, Card),
    opp: PieceColour,
) -> bool {
    exists|j: int|
        0 <= j < moves_for(board_after, opp_cards, opp).len() && winning_move_spec(
            board_after,
            opp,
            (#[trigger] moves_for(board_after, opp_cards, opp)[j]).0,
        )
}

/// True when on `board_after` the side `opp`, holding `opp_cards`, has
/// some legal move that captures a piece of `colour`.
pub open spec fn opponent_captures_after(
    board_after: Seq<Option<Piece>>,
    opp_cards: (Card, Card),
    opp: PieceColour,
    colour: PieceColour,
) -> bool {
    exists|j: int|
        0 <= j < moves_for(board_after, opp_cards, opp).len() && colour_count(
            apply_move_spec(
                board_after,
                (#[trigger] moves_for(board_after, opp_cards, opp)[j]).0,
            ),
            colour,
        ) < colour_count(board_after, colour)
}

/// A viable candidate for `colour`: after playing it, the opponent has
/// no immediate winning reply.
pub open spec fn viable_move_spec(
    board: Seq<Option<Piece>>,
    opp_cards: (Card, Card),
    colour: PieceColour,
    m: Move,
) -> bool {
    !opponent_wins_after(apply_move_spec(board, m), opp_cards, other_colour(colour))
}

/// A capturing candidate for `colour`: playing it removes an opposing
/// piece.
pub open spec fn capturing_move_spec(
    board: Seq<Option<Piece>>,
    colour: PieceColour,
    m: Move,
) -> bool {
    colour_count(apply_move_spec(board, m), other_colour(colour)) < colour_count(
        board,
        other_colour(colour),
    )
}

/// A safe candidate for `colour`: after playing it, no opponent reply
/// captures any piece of `colour`.
pub open spec fn safe_move_spec(
    board: Seq<Option<Piece>>,
    opp_cards: (Card, Card),
    colour: PieceColour,
    m: Move,
) -> bool {
    !opponent_captures_after(apply_move_spec(board, m), opp_cards, other_colour(colour), colour)
}

/// Filter predicate selecting the viable candidates.
pub open spec fn viable_pred(
    board: Seq<Option<Piece>>,
    opp_cards: (Card, Card),
    colour: PieceColour,
) -> spec_fn((Move, PairIndex)) -> bool {
    |mp: (Move, PairIndex)| viable_move_spec(board, opp_cards, colour, mp.0)
}

/// Filter predicate selecting the viable capturing candidates.
pub open spec fn capturing_pred(
    board: Seq<Option<Piece>>,
    opp_cards: (Card, Card),
    colour: PieceColour,
) -> spec_fn((Move, PairIndex)) -> bool {
    |mp: (Move, PairIndex)|
        viable_move_spec(board, opp_cards, colour, mp.0) && capturing_move_spec(
            board,
            colour,
            mp.0,
        )
}

/// Filter predicate selecting the viable safe candidates.
pub open spec fn safe_pred(
    board: Seq<Option<Piece>>,
    opp_cards: (Card, Card),
    colour: PieceColour,
) -> spec_fn((Move, PairIndex)) -> bool {
    |mp: (Move, PairIndex)|
        viable_move_spec(board, opp_cards, colour, mp.0) && safe_move_spec(
            board,
            opp_cards,
            colour,
            mp.0,
        )
}

/// Filter predicate selecting the viable undefended-capturing
/// candidates.
pub open spec fn undefended_pred(
    board: Seq<Option<Piece>>,
    opp_cards: (Card, Card),
    colour: PieceColour,
) -> spec_fn((Move, PairIndex)) -> bool {
    |mp: (Move, PairIndex)|
        viable_move_spec(board, opp_cards, colour, mp.0) && capturing_move_spec(
            board,
            colour,
            mp.0,
        ) && safe_move_spec(board, opp_cards, colour, mp.0)
}

/// The viable candidates among `colour`'s legal moves, in generation
/// order.
pub open spec fn viable_choices(
    board: Seq<Option<Piece>>,
    cpu_cards: (Card, Card),
    opp_cards: (Card, Card),
    colour: PieceColour,
) -> Seq<(Move, PairIndex)> {
    moves_for(board, cpu_cards, colour).filter(viable_pred(board, opp_cards, colour))
}

/// The viable capturing candidates, in generation order.
pub open spec fn capturing_choices(
    board: Seq<Option<Piece>>,
    cpu_cards: (Card, Card),
    opp_cards: (Card, Card),
    colour: PieceColour,
) -> Seq<(Move, PairIndex)> {
    moves_for(board, cpu_cards, colour).filter(capturing_pred(board, opp_cards, colour))
}

/// The viable safe candidates, in generation order.
pub open spec fn safe_choices(
    board: Seq<Option<Piece>>,
    cpu_cards: (Card, Card),
    opp_cards: (Card, Card),
    colour: PieceColour,
) -> Seq<(Move, PairIndex)> {
    moves_for(board, cpu_cards, colour).filter(safe_pred(board, opp_cards, colour))
}

/// The undefended-capturing candidates, in generation order.
pub open spec fn undefended_choices(
    board: Seq<Option<Piece>>,
    cpu_cards: (Card, Card),
    opp_cards: (Card, Card),
    colour: PieceColour,
) -> Seq<(Move, PairIndex)> {
    moves_for(board, cpu_cards, colour).filter(undefended_pred(board, opp_cards, colour))
}

/// True when some move of `ms` wins outright for `colour`.
pub open spec fn has_winning_choice(
    board: Seq<Option<Piece>>,
    ms: Seq<(Move, PairIndex)>,
    colour: PieceColour,
) -> bool {
    exists|k: int|
        0 <= k < ms.len() && winning_move_spec(board, colour, (#[trigger] ms[k]).0)
}

/// Everything the tiered selection promises of a chosen tagged move,
/// wherever randomness does not decide: the first winning move when
/// one exists; otherwise an undefended capture when one exists;
/// otherwise a viable capture or a safe move when either exists;
/// otherwise any viable move when one exists.
pub open spec fn strategist_choice_ok(
    board: Seq<Option<Piece>>,
    cpu_cards: (Card, Card),
    opp_cards: (Card, Card),
    colour: PieceColour,
    choice: (Move, PairIndex),
) -> bool {
    let ms = moves_for(board, cpu_cards, colour);
    let undefended = undefended_choices(board, cpu_cards, opp_cards, colour);
    let capturing = capturing_choices(board, cpu_cards, opp_cards, colour);
    let safe = safe_choices(board, cpu_cards, opp_cards, colour);
    let viable = viable_choices(board, cpu_cards, opp_cards, colour);
    &&& ms.contains(choice)
    &&& (has_winning_choice(board, ms, colour) ==> is_first_winning_choice(
        board,
        ms,
        colour,
        choice,
    ))
    &&& (!has_winning_choice(board, ms, colour) && undefended.len() > 0 ==> undefended.contains(
        choice,
    ))
    &&& (!has_winning_choice(board, ms, colour) && undefended.len() == 0 && (capturing.len() > 0
        || safe.len() > 0) ==> capturing.contains(choice) || safe.contains(choice))
    &&& (!has_winning_choice(board, ms, colour) && undefended.len() == 0 && capturing.len() == 0
        && safe.len() == 0 && viable.len() > 0 ==> viable.contains(choice))
}

/// True when `choice` is the first move of `ms` (in generation order)
/// that wins outright for `colour`.
pub open spec fn is_first_winning_choice(
    board: Seq<Option<Piece>>,
    ms: Seq<(Move, PairIndex)>,
    colour: PieceColour,
    choice: (Move, PairIndex),
) -> bool {
    exists|k: int|
        #![trigger ms[k]]
        {
            &&& 0 <= k < ms.len()
            &&& choice == ms[k]
            &&& winning_move_spec(board, colour, ms[k].0)
            &&& forall|j: int|
                0 <= j < k ==> !winning_move_spec(board, colour, (#[trigger] ms[j]).0)
        }
}

/// True when `colour` has won on `board`.
fn wins(board: &Board, colour: PieceColour) -> (r: bool)
    ensures
        r == wins_spec(board@, colour),
{
    match colour {
        PieceColour::Blue => blue_wins(board),
        PieceColour::Red => red_wins(board),
    }
}

/// True when playing `m` makes `colour` win outright.
fn is_winning_move(board: &Board, m: Move, colour: PieceColour) -> (r: bool)
    requires
        m.source_index < 25,
        m.target_index < 25,
    ensures
        r == winning_move_spec(board@, colour, m),
{
    let after = apply_move(board, m);
    wins(&after, colour)
}

/// True when `opp`, holding `opp_cards`, has a winning reply on
/// `board`.
fn opponent_has_winning_reply(board: &Board, opp_cards: &(Card, Card), opp: PieceColour) -> (r:
    bool)
    ensures
        r == opponent_wins_after(board@, *opp_cards, opp),
{
    let replies = get_moves(board, opp_cards, opp);
    proof {
        lemma_moves_for_sound(board@, *opp_cards, opp);
    }
    let mut j: usize = 0;
    while j < replies.len()
        invariant
            board@.len() == 25,
            replies@ == moves_for(board@, *opp_cards, opp),
            j <= replies@.len(),
            forall|k: int|
                0 <= k < replies@.len() ==> move_sound(board@, opp, (#[trigger] replies@[k]).0),
            forall|k: int|
                0 <= k < j ==> !winning_move_spec(board@, opp, (#[trigger] replies@[k]).0),
        decreases replies@.len() - j,
    {
        let (m, _) = replies[j];
        if is_winning_move(board, m, opp) {
            return true;
        }
        j = j + 1;
    }
    false
}

/// True when `opp`, holding `opp_cards`, has a reply on `board` that
/// captures a piece of `colour`.
fn opponent_has_capturing_reply(
    board: &Board,
    opp_cards: &(Card, Card),
    opp: PieceColour,
    colour: PieceColour,
) -> (r: bool)
    ensures
        r == opponent_captures_after(board@, *opp_cards, opp, colour),
{
    let replies = get_moves(board, opp_cards, opp);
    proof {
        lemma_moves_for_sound(board@, *opp_cards, opp);
    }
    let count_before = piece_count_of_colour(board, colour);
    let mut j: usize = 0;
    while j < replies.len()
        invariant
            board@.len() == 25,
            replies@ == moves_for(board@, *opp_cards, opp),
            j <= replies@.len(),
            count_before == colour_count(board@, colour),
            forall|k: int|
                0 <= k < replies@.len() ==> move_sound(board@, opp, (#[trigger] replies@[k]).0),
            forall|k: int|
                0 <= k < j ==> colour_count(
                    apply_move_spec(board@, (#[trigger] replies@[k]).0),
                    colour,
                ) >= colour_count(board@, colour),
        decreases replies@.len() - j,
    {
        let (m, _) = replies[j];
        let after = apply_move(board, m);
        let count_after = piece_count_of_colour(&after, colour);
        if count_after < count_before {
            return true;
        }
        j = j + 1;
    }
    false
}

/// Pick a uniformly random element of a non-empty candidate list.
fn pick_random(
    candidates: &Vec<(Move, PairIndex)>,
    rng: &mut rand::rngs::StdRng,
) -> (r: (Move, PairIndex))
    requires
        candidates@.len() > 0,
    ensures
        exists|k: int| 0 <= k < candidates@.len() && candidates@[k] == r,
{
    let k = rng_below(rng, candidates.len());
    let p = candidates[k];
    proof {
        assert(candidates@[k as int] == p);
    }
    p
}

/// Choose the scripted side's action for one turn.
///
/// Tier order: the first immediately winning move; else a random
/// undefended capture; else, by a random aggressive mood, a random
/// viable capture or a random safe move (whichever the mood prefers,
/// falling back to the other); else any viable move; else any legal
/// move at all; and a random-slot card exchange when no move exists.
pub fn cpu_choose(
    board: &Board,
    cpu_cards: &(Card, Card),
    opp_cards: &(Card, Card),
    colour: PieceColour,
    rng: &mut rand::rngs::StdRng,
) -> (r: CpuChoice)
    ensures
        ({
            let ms = moves_for(board@, *cpu_cards, colour);
            &&& (ms.len() == 0) <==> (r is ExchangeCard)
            &&& (r is PlayMove ==> strategist_choice_ok(
                board@,
                *cpu_cards,
                *opp_cards,
                colour,
                choice_move(r),
            ))
        }),
{
    let ghost ms = moves_for(board@, *cpu_cards, colour);
    let moves = get_moves(board, cpu_cards, colour);
    proof {
        lemma_moves_for_sound(board@, *cpu_cards, colour);
    }
    if moves.len() == 0 {
        let first_slot = rng_bool(rng);
        let slot = if first_slot {
            PairIndex::First
        } else {
            PairIndex::Second
        };
        return CpuChoice::ExchangeCard(slot);
    }
    // Tier 1: the first move that wins outright.
    let mut i: usize = 0;
    while i < moves.len()
        invariant
            board@.len() == 25,
            moves@ == ms,
            ms == moves_for(board@, *cpu_cards, colour),
            i <= ms.len(),
            forall|k: int| 0 <= k < ms.len() ==> move_sound(board@, colour, (#[trigger] ms[k]).0),
            forall|k: int|
                0 <= k < i ==> !winning_move_spec(board@, colour, (#[trigger] ms[k]).0),
        decreases ms.len() - i,
    {
        let (m, s) = moves[i];
        if is_winning_move(board, m, colour) {
            proof {
                assert(ms[i as int] == (m, s));
            }
            return CpuChoice::PlayMove(m, s);
        }
        i = i + 1;
    }
    // Classify every candidate by look-ahead against the opponent's
    // replies.
    let opp = colour.other();
    let count_opp_before = piece_count_of_colour(board, opp);
    let mut viable_v: Vec<(Move, PairIndex)> = Vec::new();
    let mut capturing_v: Vec<(Move, PairIndex)> = Vec::new();
    let mut safe_v: Vec<(Move, PairIndex)> = Vec::new();
    let mut undefended_v: Vec<(Move, PairIndex)> = Vec::new();
    let mut i2: usize = 0;
    while i2 < moves.len()
        invariant
            board@.len() == 25,
            moves@ == ms,
            ms == moves_for(board@, *cpu_cards, colour),
            i2 <= ms.len(),
            opp == other_colour(colour),
            count_opp_before == colour_count(board@, opp),
            forall|k: int| 0 <= k < ms.len() ==> move_sound(board@, colour, (#[trigger] ms[k]).0),
            viable_v@ == ms.take(i2 as int).filter(viable_pred(board@, *opp_cards, colour)),
            capturing_v@ == ms.take(i2 as int).filter(capturing_pred(board@, *opp_cards, colour)),
            safe_v@ == ms.take(i2 as int).filter(safe_pred(board@, *opp_cards, colour)),
            undefended_v@ == ms.take(i2 as int).filter(
                undefended_pred(board@, *opp_cards, colour),
            ),
        decreases ms.len() - i2,
    {
        let (m, s) = moves[i2];
        let after = apply_move(board, m);
        let opponent_wins = opponent_has_winning_reply(&after, opp_cards, opp);
        proof {
            assert(ms.take(i2 + 1) =~= ms.take(i2 as int).push(ms[i2 as int]));
            lemma_filter_push(ms.take(i2 as int), ms[i2 as int], viable_pred(board@, *opp_cards, colour));
            lemma_filter_push(
                ms.take(i2 as int),
                ms[i2 as int],
                capturing_pred(board@, *opp_cards, colour),
            );
            lemma_filter_push(ms.take(i2 as int), ms[i2 as int], safe_pred(board@, *opp_cards, colour));
            lemma_filter_push(
                ms.take(i2 as int),
                ms[i2 as int],
                undefended_pred(board@, *opp_cards, colour),
            );
        }
        if !opponent_wins {
            viable_v.push((m, s));
            let captures = piece_count_of_colour(&after, opp) < count_opp_before;
            let safe = !opponent_has_capturing_reply(&after, opp_cards, opp, colour);
            if captures {
                capturing_v.push((m, s));
            }
            if safe {
                safe_v.push((m, s));
            }
            if captures && safe {
                undefended_v.push((m, s));
            }
        }
        i2 = i2 + 1;
    }
    proof {
        assert(ms.take(ms.len() as int) =~= ms);
        lemma_filter_subset(ms, viable_pred(board@, *opp_cards, colour));
        lemma_filter_subset(ms, capturing_pred(board@, *opp_cards, colour));
        lemma_filter_subset(ms, safe_pred(board@, *opp_cards, colour));
        lemma_filter_subset(ms, undefended_pred(board@, *opp_cards, colour));
    }
    // Tier 2: a capture the opponent cannot answer.
    if undefended_v.len() > 0 {
        let (m, s) = pick_random(&undefended_v, rng);
        return CpuChoice::PlayMove(m, s);
    }
    // Tier 3: by mood, prefer capturing or prefer safety.
    let aggressive = rng_bool(rng);
    let (first_choice, second_choice) = if aggressive {
        (capturing_v, safe_v)
    } else {
        (safe_v, capturing_v)
    };
    if first_choice.len() > 0 {
        let (m, s) = pick_random(&first_choice, rng);
        return CpuChoice::PlayMove(m, s);
    }
    if second_choice.len() > 0 {
        let (m, s) = pick_random(&second_choice, rng);
        return CpuChoice::PlayMove(m, s);
    }
    // Tier 4: any move the opponent cannot answer with a win.
    if viable_v.len() > 0 {
        let (m, s) = pick_random(&viable_v, rng);
        return CpuChoice::PlayMove(m, s);
    }
    // Tier 5: every move loses to some reply; play any legal move.
    let (m, s) = pick_random(&moves, rng);
    CpuChoice::PlayMove(m, s)
}

} // verus!
