//! The move generator: applying a card's offsets to a source cell
//! yields the legal destination cells — on the board and not occupied
//! by a same-colour piece — in the card's fixed offset order.

use vstd::prelude::*;

use crate::board::Board;
use crate::board::Move;
use crate::board::Piece;
use crate::board::PieceColour;
use crate::board::cell_has_colour;
use crate::cards::Card;
use crate::cards::PairIndex;
use crate::cards::card_offsets;
use crate::cards::get_offsets;
use crate::cards::lemma_card_offsets_small;

verus! {

/// True when `(x, y)` lies on the 5x5 board.
pub open spec fn on_board_xy(x: int, y: int) -> bool {
    0 <= x < 5 && 0 <= y < 5
}

/// The cell reached from `src` by `off`, as (x, y) integers that may
/// lie off the board.
pub open spec fn offset_target(src: usize, off: (isize, isize)) -> (int, int) {
    ((src as int % 5) + off.0, (src as int / 5) + off.1)
}

/// True when stepping from `src` by `off` lands on the board, on a cell
/// not occupied by a piece of `colour`.
pub open spec fn offset_allowed(
    board: Seq<Option<Piece>>,
    src: usize,
    colour: PieceColour,
    off: (isize, isize),
) -> bool {
    let t = offset_target(src, off);
    on_board_xy(t.0, t.1) && !cell_has_colour(board[t.1 * 5 + t.0], colour)
}

/// The legal destination cells reached from `src` by the offsets of
/// `offs`, in order.
pub open spec fn targets_rec(
    board: Seq<Option<Piece>>,
    src: usize,
    colour: PieceColour,
    offs: Seq<(isize, isize)>,
) -> Seq<(usize, usize)>
    decreases offs.len(),
{
    if offs.len() == 0 {
        Seq::empty()
    } else {
        let rest = targets_rec(board, src, colour, offs.drop_last());
        let off = offs.last();
        if offset_allowed(board, src, colour, off) {
            let t = offset_target(src, off);
            rest.push((t.0 as usize, t.1 as usize))
        } else {
            rest
        }
    }
}

/// The legal destination cells for a piece of `colour` at `src` moving
/// by `card`, in the card's offset order; empty off the board.
pub open spec fn legal_targets(
    board: Seq<Option<Piece>>,
    card: Card,
    src: usize,
    colour: PieceColour,
) -> Seq<(usize, usize)> {
    if src < 25 {
        targets_rec(board, src, colour, card_offsets(card))
    } else {
        Seq::empty()
    }
}

/// Every cell in `targets_rec` is on the board, differs from the source
/// cell, and does not hold a piece of the moving colour.
proof fn lemma_targets_rec_sound(
    board: Seq<Option<Piece>>,
    src: usize,
    colour: PieceColour,
    offs: Seq<(isize, isize)>,
)
    requires
        board.len() == 25,
        src < 25,
        forall|k: int|
            0 <= k < offs.len() ==> !((#[trigger] offs[k]).0 == 0 && offs[k].1 == 0),
    ensures
        forall|k: int|
            0 <= k < targets_rec(board, src, colour, offs).len() ==> {
                let t = #[trigger] targets_rec(board, src, colour, offs)[k];
                &&& t.0 < 5
                &&& t.1 < 5
                &&& t.1 * 5 + t.0 != src as int
                &&& !cell_has_colour(board[t.1 * 5 + t.0], colour)
            },
    decreases offs.len(),
{
    if offs.len() > 0 {
        assert(forall|k: int|
            0 <= k < offs.drop_last().len() ==> !((#[trigger] offs.drop_last()[k]).0 == 0
                && offs.drop_last()[k].1 == 0));
        lemma_targets_rec_sound(board, src, colour, offs.drop_last());
        let s = targets_rec(board, src, colour, offs);
        let rest = targets_rec(board, src, colour, offs.drop_last());
        let off = offs.last();
        if offset_allowed(board, src, colour, off) {
            let t = offset_target(src, off);
            assert(!(off.0 == 0 && off.1 == 0));
            assert(t.1 * 5 + t.0 != src as int) by {
                if t.1 == src as int / 5 {
                    assert(off.1 == 0);
                    assert(off.0 != 0);
                    assert(t.0 != src as int % 5);
                }
            }
            assert forall|k: int| 0 <= k < s.len() implies {
                let u = #[trigger] s[k];
                &&& u.0 < 5
                &&& u.1 < 5
                &&& u.1 * 5 + u.0 != src as int
                &&& !cell_has_colour(board[u.1 * 5 + u.0], colour)
            } by {
                if k < rest.len() {
                    assert(s[k] == rest[k]);
                } else {
                    assert(s[k] == (t.0 as usize, t.1 as usize));
                }
            }
        } else {
            assert forall|k: int| 0 <= k < s.len() implies {
                let u = #[trigger] s[k];
                &&& u.0 < 5
                &&& u.1 < 5
                &&& u.1 * 5 + u.0 != src as int
                &&& !cell_has_colour(board[u.1 * 5 + u.0], colour)
            } by {
                assert(s[k] == rest[k]);
            }
        }
    }
}

/// Move-generation soundness: every target returned for `card` from
/// `src` is on the board, is not the source cell itself, and does not
/// hold a same-colour piece.
pub proof fn lemma_legal_targets_sound(
    board: Seq<Option<Piece>>,
    card: Card,
    src: usize,
    colour: PieceColour,
)
    requires
        board.len() == 25,
    ensures
        forall|k: int|
            0 <= k < legal_targets(board, card, src, colour).len() ==> {
                let t = #[trigger] legal_targets(board, card, src, colour)[k];
                &&& t.0 < 5
                &&& t.1 < 5
                &&& t.1 * 5 + t.0 != src as int
                &&& !cell_has_colour(board[t.1 * 5 + t.0], colour)
            },
{
    if src < 25 {
        lemma_card_offsets_small(card);
        lemma_targets_rec_sound(board, src, colour, card_offsets(card));
    }
}

/// At most one target per offset.
proof fn lemma_targets_rec_len(
    board: Seq<Option<Piece>>,
    src: usize,
    colour: PieceColour,
    offs: Seq<(isize, isize)>,
)
    ensures
        targets_rec(board, src, colour, offs).len() <= offs.len(),
    decreases offs.len(),
{
    if offs.len() > 0 {
        lemma_targets_rec_len(board, src, colour, offs.drop_last());
    }
}

/// No card has more than four offsets, so no piece has more than four
/// targets under one card.
pub proof fn lemma_legal_targets_len(
    board: Seq<Option<Piece>>,
    card: Card,
    src: usize,
    colour: PieceColour,
)
    ensures
        legal_targets(board, card, src, colour).len() <= 4,
{
    if src < 25 {
        lemma_targets_rec_len(board, src, colour, card_offsets(card));
        assert(card_offsets(card).len() <= 4) by {
            match card {
                Card::Tiger => {},
                Card::Crab => {},
                Card::Monkey => {},
                Card::Crane => {},
                Card::Dragon => {},
                Card::Elephant => {},
                Card::Mantis => {},
                Card::Boar => {},
                Card::Frog => {},
                Card::Goose => {},
                Card::Horse => {},
                Card::Eel => {},
                Card::Rabbit => {},
                Card::Rooster => {},
                Card::Ox => {},
                Card::Cobra => {},
            }
        }
    }
}

/// The legal destinations of the piece of `piece_colour` at
/// `piece_index` moving by `card`, as (x, y) pairs in the card's offset
/// order; empty when the index is off the board.
pub fn valid_move_locations(
    board: &Board,
    card: &Card,
    piece_index: usize,
    piece_colour: PieceColour,
) -> (r: Vec<(usize, usize)>)
    ensures
        r@ == legal_targets(board@, *card, piece_index, piece_colour),
{
    let mut result: Vec<(usize, usize)> = Vec::new();
    if piece_index < 25 {
        let x = piece_index % 5;
        let y = piece_index / 5;
        let offsets = get_offsets(card);
        let mut k: usize = 0;
        while k < offsets.len()
            invariant
                piece_index < 25,
                x == piece_index as int % 5,
                y == piece_index as int / 5,
                offsets@ == card_offsets(*card),
                k <= offsets@.len(),
                result@ == targets_rec(board@, piece_index, piece_colour, offsets@.take(k as int)),
            decreases offsets@.len() - k,
        {
            proof {
                lemma_card_offsets_small(*card);
                assert(offsets@.take(k + 1).drop_last() =~= offsets@.take(k as int));
            }
            let (dx, dy) = offsets[k];
            let cx = x as isize + dx;
            let cy = y as isize + dy;
            if 0 <= cx && cx < 5 && 0 <= cy && cy < 5 {
                let ux = cx as usize;
                let uy = cy as usize;
                let target_index = uy * 5 + ux;
                let same_colour = match board[target_index] {
                    Some(p) => p.piece_colour() == piece_colour,
                    None => false,
                };
                if !same_colour {
                    result.push((ux, uy));
                }
            }
            k = k + 1;
        }
        proof {
            assert(offsets@.take(offsets@.len() as int) =~= offsets@);
        }
    }
    result
}

/// The cell indices of the first `n` cells holding a piece of
/// `colour`, ascending.
pub open spec fn piece_indices_to(board: Seq<Option<Piece>>, colour: PieceColour, n: int) -> Seq<
    usize,
>
    decreases n,
{
    if n <= 0 {
        Seq::empty()
    } else {
        piece_indices_to(board, colour, n - 1) + if cell_has_colour(board[n - 1], colour) {
            seq![(n - 1) as usize]
        } else {
            Seq::empty()
        }
    }
}

/// The cell indices holding a piece of `colour`, ascending.
pub open spec fn piece_indices(board: Seq<Option<Piece>>, colour: PieceColour) -> Seq<usize> {
    piece_indices_to(board, colour, 25)
}

/// Every listed index addresses a board cell holding a piece of
/// `colour`.
pub proof fn lemma_piece_indices_sound(board: Seq<Option<Piece>>, colour: PieceColour, n: int)
    requires
        n <= 25,
    ensures
        forall|k: int|
            0 <= k < piece_indices_to(board, colour, n).len() ==> {
                let i = #[trigger] piece_indices_to(board, colour, n)[k];
                i < 25 && cell_has_colour(board[i as int], colour)
            },
    decreases n,
{
    if n > 0 {
        lemma_piece_indices_sound(board, colour, n - 1);
        let s = piece_indices_to(board, colour, n);
        let rest = piece_indices_to(board, colour, n - 1);
        assert forall|k: int| 0 <= k < s.len() implies {
            let i = #[trigger] s[k];
            i < 25 && cell_has_colour(board[i as int], colour)
        } by {
            if k < rest.len() {
                assert(s[k] == rest[k]);
            } else {
                assert(cell_has_colour(board[n - 1], colour));
                assert(s[k] == (n - 1) as usize);
            }
        }
    }
}

/// The indices of the cells holding pieces of `colour`, ascending.
pub fn get_piece_indices(board: &Board, colour: PieceColour) -> (r: Vec<usize>)
    ensures
        r@ == piece_indices(board@, colour),
{
    let mut result: Vec<usize> = Vec::new();
    let mut i: usize = 0;
    while i < 25
        invariant
            i <= 25,
            result@ == piece_indices_to(board@, colour, i as int),
        decreases 25 - i,
    {
        let owned = match board[i] {
            Some(p) => p.piece_colour() == colour,
            None => false,
        };
        if owned {
            result.push(i);
        }
        proof {
            if cell_has_colour(board@[i as int], colour) {
                assert(result@ =~= piece_indices_to(board@, colour, i as int) + seq![i]);
            } else {
                assert(result@ =~= piece_indices_to(board@, colour, i as int) + Seq::<
                    usize,
                >::empty());
            }
        }
        i = i + 1;
    }
    result
}

/// The linear cell index of target `t`.
pub open spec fn target_index_of(t: (usize, usize)) -> usize {
    (t.1 * 5 + t.0) as usize
}

/// The tagged moves a single piece at `src` contributes: its legal
/// targets under the first card, then under the second.
pub open spec fn moves_of_piece(
    board: Seq<Option<Piece>>,
    cards: (Card, Card),
    colour: PieceColour,
    src: usize,
) -> Seq<(Move, PairIndex)> {
    legal_targets(board, cards.0, src, colour).map_values(
        |t: (usize, usize)|
            (Move { source_index: src, target_index: target_index_of(t) }, PairIndex::First),
    ) + legal_targets(board, cards.1, src, colour).map_values(
        |t: (usize, usize)|
            (Move { source_index: src, target_index: target_index_of(t) }, PairIndex::Second),
    )
}

/// The tagged moves contributed by the pieces at `pieces`, in order.
pub open spec fn moves_rec(
    board: Seq<Option<Piece>>,
    cards: (Card, Card),
    colour: PieceColour,
    pieces: Seq<usize>,
) -> Seq<(Move, PairIndex)>
    decreases pieces.len(),
{
    if pieces.len() == 0 {
        Seq::empty()
    } else {
        moves_rec(board, cards, colour, pieces.drop_last()) + moves_of_piece(
            board,
            cards,
            colour,
            pieces.last(),
        )
    }
}

/// Every legal move of `colour` on `board` under the card pair
/// `cards`, tagged with the pair slot that produced it: pieces in
/// ascending cell order, each contributing first-card targets then
/// second-card targets, each in card offset order.
pub open spec fn moves_for(
    board: Seq<Option<Piece>>,
    cards: (Card, Card),
    colour: PieceColour,
) -> Seq<(Move, PairIndex)> {
    moves_rec(board, cards, colour, piece_indices(board, colour))
}

/// Every move in `moves_rec` over sound piece indices is sound: source
/// on board and owned by `colour`, target on board, distinct from the
/// source, and not owned by `colour`.
proof fn lemma_moves_rec_sound(
    board: Seq<Option<Piece>>,
    cards: (Card, Card),
    colour: PieceColour,
    pieces: Seq<usize>,
)
    requires
        board.len() == 25,
        forall|k: int|
            0 <= k < pieces.len() ==> (#[trigger] pieces[k]) < 25 && cell_has_colour(
                board[pieces[k] as int],
                colour,
            ),
    ensures
        forall|k: int|
            0 <= k < moves_rec(board, cards, colour, pieces).len() ==> move_sound(
                board,
                colour,
                #[trigger] moves_rec(board, cards, colour, pieces)[k].0,
            ),
    decreases pieces.len(),
{
    if pieces.len() > 0 {
        assert(forall|k: int|
            0 <= k < pieces.drop_last().len() ==> (#[trigger] pieces.drop_last()[k]) < 25
                && cell_has_colour(board[pieces.drop_last()[k] as int], colour));
        lemma_moves_rec_sound(board, cards, colour, pieces.drop_last());
        let src = pieces.last();
        lemma_legal_targets_sound(board, cards.0, src, colour);
        lemma_legal_targets_sound(board, cards.1, src, colour);
        let s = moves_rec(board, cards, colour, pieces);
        let rest = moves_rec(board, cards, colour, pieces.drop_last());
        let lt0 = legal_targets(board, cards.0, src, colour);
        let lt1 = legal_targets(board, cards.1, src, colour);
        assert forall|k: int| 0 <= k < s.len() implies move_sound(board, colour, (#[trigger] s[k]).0)
        by {
            if k < rest.len() {
                assert(s[k] == rest[k]);
            } else if k < rest.len() + lt0.len() {
                let t = lt0[k - rest.len()];
                assert(s[k].0 == Move { source_index: src, target_index: target_index_of(t) });
                assert(t.1 * 5 + t.0 < 25);
            } else {
                let t = lt1[k - rest.len() - lt0.len()];
                assert(s[k].0 == Move { source_index: src, target_index: target_index_of(t) });
                assert(t.1 * 5 + t.0 < 25);
            }
        }
    }
}

/// Soundness of one generated move for `colour`: both cells are on the
/// board and distinct, the source holds a piece of `colour`, and the
/// target does not.
pub open spec fn move_sound(
    board: Seq<Option<Piece>>,
    colour: PieceColour,
    m: Move,
) -> bool {
    &&& m.source_index < 25
    &&& m.target_index < 25
    &&& m.source_index != m.target_index
    &&& cell_has_colour(board[m.source_index as int], colour)
    &&& !cell_has_colour(board[m.target_index as int], colour)
}

/// Move-generation soundness over a whole board: every move the
/// generator yields for `colour` is sound.
pub proof fn lemma_moves_for_sound(
    board: Seq<Option<Piece>>,
    cards: (Card, Card),
    colour: PieceColour,
)
    requires
        board.len() == 25,
    ensures
        forall|k: int|
            0 <= k < moves_for(board, cards, colour).len() ==> move_sound(
                board,
                colour,
                #[trigger] moves_for(board, cards, colour)[k].0,
            ),
{
    lemma_piece_indices_sound(board, colour, 25);
    lemma_moves_rec_sound(board, cards, colour, piece_indices(board, colour));
}

/// Capture-count law over generated moves: playing any generated move
/// lowers the occupied-cell count by exactly one when the target cell
/// held an opposing piece, and leaves it unchanged otherwise.
pub proof fn lemma_generated_move_capture_count(
    board: Seq<Option<Piece>>,
    cards: (Card, Card),
    colour: PieceColour,
    k: int,
)
    requires
        board.len() == 25,
        0 <= k < moves_for(board, cards, colour).len(),
    ensures
        ({
            let m = moves_for(board, cards, colour)[k].0;
            crate::board::occupied_count(crate::board::apply_move_spec(board, m)) + (
            if board[m.target_index as int] is Some {
                1nat
            } else {
                0nat
            }) == crate::board::occupied_count(board)
        }),
{
    lemma_moves_for_sound(board, cards, colour);
    let m = moves_for(board, cards, colour)[k].0;
    crate::board::lemma_apply_move_count(board, m);
}

/// The union of legal moves of every piece of `colour`, each tagged
/// with the pair slot whose card produced it.
pub fn get_moves(board: &Board, cards: &(Card, Card), colour: PieceColour) -> (r: Vec<
    (Move, PairIndex),
>)
    ensures
        r@ == moves_for(board@, *cards, colour),
{
    let pieces = get_piece_indices(board, colour);
    let mut result: Vec<(Move, PairIndex)> = Vec::new();
    let mut i: usize = 0;
    while i < pieces.len()
        invariant
            board@.len() == 25,
            pieces@ == piece_indices(board@, colour),
            i <= pieces@.len(),
            result@ == moves_rec(board@, *cards, colour, pieces@.take(i as int)),
        decreases pieces@.len() - i,
    {
        let src = pieces[i];
        proof {
            lemma_piece_indices_sound(board@, colour, 25);
            assert(pieces@.take(i + 1).drop_last() =~= pieces@.take(i as int));
        }
        let first_targets = valid_move_locations(board, &cards.0, src, colour);
        let mut j: usize = 0;
        while j < first_targets.len()
            invariant
                board@.len() == 25,
                src < 25,
                first_targets@ == legal_targets(board@, cards.0, src, colour),
                j <= first_targets@.len(),
                result@ == moves_rec(board@, *cards, colour, pieces@.take(i as int)) + legal_targets(
                    board@,
                    cards.0,
                    src,
                    colour,
                ).take(j as int).map_values(
                    |t: (usize, usize)|
                        (
                            Move { source_index: src, target_index: target_index_of(t) },
                            PairIndex::First,
                        ),
                ),
            decreases first_targets@.len() - j,
        {
            let (tx, ty) = first_targets[j];
            proof {
                lemma_legal_targets_sound(board@, cards.0, src, colour);
            }
            let target_index = ty * 5 + tx;
            result.push((Move { source_index: src, target_index }, PairIndex::First));
            proof {
                let f = |t: (usize, usize)|
                    (
                        Move { source_index: src, target_index: target_index_of(t) },
                        PairIndex::First,
                    );
                let lt = legal_targets(board@, cards.0, src, colour);
                assert(lt.take(j + 1).map_values(f) =~= lt.take(j as int).map_values(f).push(
                    f(lt[j as int]),
                ));
            }
            j = j + 1;
        }
        let second_targets = valid_move_locations(board, &cards.1, src, colour);
        let mut j2: usize = 0;
        while j2 < second_targets.len()
            invariant
                board@.len() == 25,
                src < 25,
                second_targets@ == legal_targets(board@, cards.1, src, colour),
                j2 <= second_targets@.len(),
                result@ == moves_rec(board@, *cards, colour, pieces@.take(i as int)) + legal_targets(
                    board@,
                    cards.0,
                    src,
                    colour,
                ).map_values(
                    |t: (usize, usize)|
                        (
                            Move { source_index: src, target_index: target_index_of(t) },
                            PairIndex::First,
                        ),
                ) + legal_targets(board@, cards.1, src, colour).take(j2 as int).map_values(
                    |t: (usize, usize)|
                        (
                            Move { source_index: src, target_index: target_index_of(t) },
                            PairIndex::Second,
                        ),
                ),
            decreases second_targets@.len() - j2,
        {
            let (tx, ty) = second_targets[j2];
            proof {
                lemma_legal_targets_sound(board@, cards.1, src, colour);
            }
            let target_index = ty * 5 + tx;
            result.push((Move { source_index: src, target_index }, PairIndex::Second));
            proof {
                let f = |t: (usize, usize)|
                    (
                        Move { source_index: src, target_index: target_index_of(t) },
                        PairIndex::Second,
                    );
                let lt = legal_targets(board@, cards.1, src, colour);
                assert(lt.take(j2 + 1).map_values(f) =~= lt.take(j2 as int).map_values(f).push(
                    f(lt[j2 as int]),
                ));
            }
            j2 = j2 + 1;
        }
        proof {
            let lt0 = legal_targets(board@, cards.0, src, colour);
            let lt1 = legal_targets(board@, cards.1, src, colour);
            assert(lt0.take(lt0.len() as int) =~= lt0);
            assert(lt1.take(lt1.len() as int) =~= lt1);
            assert(result@ =~= moves_rec(board@, *cards, colour, pieces@.take(i + 1)));
        }
        i = i + 1;
    }
    proof {
        assert(pieces@.take(pieces@.len() as int) =~= pieces@);
    }
    result
}

} // verus!
