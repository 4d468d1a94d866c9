//! The fixed catalog of sixteen movement cards, each with a hard-coded
//! ordered list of relative (dx, dy) offsets, and the exchange that
//! rotates a just-used card through the shared center slot.

use vstd::prelude::*;

verus! {

use vstd::multiset::Multiset;

/// One of the sixteen movement cards.
#[derive(Debug, Copy, Clone, PartialEq, Eq, Structural)]
pub enum Card {
    Tiger,
    Crab,
    Monkey,
    Crane,
    Dragon,
    Elephant,
    Mantis,
    Boar,
    Frog,
    Goose,
    Horse,
    Eel,
    Rabbit,
    Rooster,
    Ox,
    Cobra,
}

/// Positional identifier of one of the two cards a side holds; carries
/// no gameplay meaning beyond selection identity.
#[derive(Debug, Copy, Clone, PartialEq, Eq, Structural)]
pub enum PairIndex {
    First,
    Second,
}

/// Types with a canonical list of every value.
pub trait AllValues where Self: core::marker::Sized {
    fn all_values() -> Vec<Self>;
}

/// The catalog order of the sixteen cards.
pub open spec fn card_catalog() -> Seq<Card> {
    seq![
        Card::Tiger,
        Card::Crab,
        Card::Monkey,
        Card::Crane,
        Card::Dragon,
        Card::Elephant,
        Card::Mantis,
        Card::Boar,
        Card::Frog,
        Card::Goose,
        Card::Horse,
        Card::Eel,
        Card::Rabbit,
        Card::Rooster,
        Card::Ox,
        Card::Cobra,
    ]
}

/// Every card value is a member of the fixed catalog.
pub proof fn lemma_card_in_catalog(c: Card)
    ensures
        card_catalog().contains(c),
{
    match c {
        Card::Tiger => assert(card_catalog()[0] == c),
        Card::Crab => assert(card_catalog()[1] == c),
        Card::Monkey => assert(card_catalog()[2] == c),
        Card::Crane => assert(card_catalog()[3] == c),
        Card::Dragon => assert(card_catalog()[4] == c),
        Card::Elephant => assert(card_catalog()[5] == c),
        Card::Mantis => assert(card_catalog()[6] == c),
        Card::Boar => assert(card_catalog()[7] == c),
        Card::Frog => assert(card_catalog()[8] == c),
        Card::Goose => assert(card_catalog()[9] == c),
        Card::Horse => assert(card_catalog()[10] == c),
        Card::Eel => assert(card_catalog()[11] == c),
        Card::Rabbit => assert(card_catalog()[12] == c),
        Card::Rooster => assert(card_catalog()[13] == c),
        Card::Ox => assert(card_catalog()[14] == c),
        Card::Cobra => assert(card_catalog()[15] == c),
    }
}

/// The catalog lists each card exactly once.
pub proof fn lemma_card_catalog_distinct()
    ensures
        card_catalog().no_duplicates(),
{
    assert forall|i: int, j: int| 0 <= i < 16 && 0 <= j < 16 && i != j
        implies card_catalog()[i] != card_catalog()[j] by {}
}

impl AllValues for Card {
    /// The sixteen cards in catalog order.
    fn all_values() -> (r: Vec<Card>)
        ensures
            r@ == card_catalog(),
    {
        let mut v: Vec<Card> = Vec::new();
        v.push(Card::Tiger);
        v.push(Card::Crab);
        v.push(Card::Monkey);
        v.push(Card::Crane);
        v.push(Card::Dragon);
        v.push(Card::Elephant);
        v.push(Card::Mantis);
        v.push(Card::Boar);
        v.push(Card::Frog);
        v.push(Card::Goose);
        v.push(Card::Horse);
        v.push(Card::Eel);
        v.push(Card::Rabbit);
        v.push(Card::Rooster);
        v.push(Card::Ox);
        v.push(Card::Cobra);
        proof {
            assert(v@ =~= card_catalog());
        }
        v
    }
}

/// The fixed, ordered offset list of `card`, as (dx, dy) steps relative
/// to the moving piece.  Offsets are applied identically for both
/// colours.
pub open spec fn card_offsets(card: Card) -> Seq<(isize, isize)> {
    match card {
        Card::Tiger => seq![(0isize, -2isize), (0isize, 1isize)],
        Card::Crab => seq![(-2isize, 0isize), (2isize, 0isize), (0isize, -1isize)],
        Card::Monkey => seq![
            (-1isize, -1isize),
            (-1isize, 1isize),
            (1isize, -1isize),
            (1isize, 1isize),
        ],
        Card::Crane => seq![(-1isize, 1isize), (1isize, 1isize), (0isize, -1isize)],
        Card::Dragon => seq![
            (-1isize, 1isize),
            (1isize, 1isize),
            (-2isize, -1isize),
            (2isize, -1isize),
        ],
        Card::Elephant => seq![
            (-1isize, 0isize),
            (1isize, 0isize),
            (-1isize, -1isize),
            (1isize, -1isize),
        ],
        Card::Mantis => seq![(-1isize, -1isize), (-1isize, 1isize), (0isize, 1isize)],
        Card::Boar => seq![(-1isize, 0isize), (1isize, 0isize), (0isize, -1isize)],
        Card::Frog => seq![(-2isize, 0isize), (-1isize, -1isize), (1isize, 1isize)],
        Card::Goose => seq![
            (-1isize, 0isize),
            (-1isize, -1isize),
            (1isize, 0isize),
            (1isize, 1isize),
        ],
        Card::Horse => seq![(-1isize, 0isize), (0isize, -1isize), (0isize, 1isize)],
        Card::Eel => seq![(1isize, 0isize), (-1isize, -1isize), (-1isize, 1isize)],
        Card::Rabbit => seq![(2isize, 0isize), (1isize, -1isize), (-1isize, 1isize)],
        Card::Rooster => seq![
            (1isize, 0isize),
            (1isize, -1isize),
            (-1isize, 0isize),
            (-1isize, 1isize),
        ],
        Card::Ox => seq![(1isize, 0isize), (0isize, -1isize), (0isize, 1isize)],
        Card::Cobra => seq![(-1isize, 0isize), (1isize, -1isize), (1isize, 1isize)],
    }
}

/// Every catalog offset is a small step: at most two cells on either
/// axis, and never (0, 0).
pub proof fn lemma_card_offsets_small(card: Card)
    ensures
        forall|k: int|
            0 <= k < card_offsets(card).len() ==> {
                let off = #[trigger] card_offsets(card)[k];
                -2 <= off.0 <= 2 && -2 <= off.1 <= 2 && !(off.0 == 0 && off.1 == 0)
            },
{
}

/// The offset list of `card`, in the card's fixed order.
pub fn get_offsets(card: &Card) -> (r: Vec<(isize, isize)>)
    ensures
        r@ == card_offsets(*card),
{
    let mut v: Vec<(isize, isize)> = Vec::new();
    match *card {
        Card::Tiger => {
            v.push((0, -2));
            v.push((0, 1));
        },
        Card::Crab => {
            v.push((-2, 0));
            v.push((2, 0));
            v.push((0, -1));
        },
        Card::Monkey => {
            v.push((-1, -1));
            v.push((-1, 1));
            v.push((1, -1));
            v.push((1, 1));
        },
        Card::Crane => {
            v.push((-1, 1));
            v.push((1, 1));
            v.push((0, -1));
        },
        Card::Dragon => {
            v.push((-1, 1));
            v.push((1, 1));
            v.push((-2, -1));
            v.push((2, -1));
        },
        Card::Elephant => {
            v.push((-1, 0));
            v.push((1, 0));
            v.push((-1, -1));
            v.push((1, -1));
        },
        Card::Mantis => {
            v.push((-1, -1));
            v.push((-1, 1));
            v.push((0, 1));
        },
        Card::Boar => {
            v.push((-1, 0));
            v.push((1, 0));
            v.push((0, -1));
        },
        Card::Frog => {
            v.push((-2, 0));
            v.push((-1, -1));
            v.push((1, 1));
        },
        Card::Goose => {
            v.push((-1, 0));
            v.push((-1, -1));
            v.push((1, 0));
            v.push((1, 1));
        },
        Card::Horse => {
            v.push((-1, 0));
            v.push((0, -1));
            v.push((0, 1));
        },
        Card::Eel => {
            v.push((1, 0));
            v.push((-1, -1));
            v.push((-1, 1));
        },
        Card::Rabbit => {
            v.push((2, 0));
            v.push((1, -1));
            v.push((-1, 1));
        },
        Card::Rooster => {
            v.push((1, 0));
            v.push((1, -1));
            v.push((-1, 0));
            v.push((-1, 1));
        },
        Card::Ox => {
            v.push((1, 0));
            v.push((0, -1));
            v.push((0, 1));
        },
        Card::Cobra => {
            v.push((-1, 0));
            v.push((1, -1));
            v.push((1, 1));
        },
    }
    proof {
        assert(v@ =~= card_offsets(*card));
    }
    v
}

/// The glyph naming `card` in the game's display font.
pub open spec fn card_symbol(card: Card) -> Seq<char> {
    match card {
        Card::Tiger => seq!['\u{E0C0}'],
        Card::Crab => seq!['\u{E0C1}'],
        Card::Monkey => seq!['\u{E0C2}'],
        Card::Crane => seq!['\u{E0C3}'],
        Card::Dragon => seq!['\u{E0C4}'],
        Card::Elephant => seq!['\u{E0C5}'],
        Card::Mantis => seq!['\u{E0C6}'],
        Card::Boar => seq!['\u{E0C7}'],
        Card::Frog => seq!['\u{E0C8}'],
        Card::Goose => seq!['\u{E0C9}'],
        Card::Horse => seq!['\u{E0CA}'],
        Card::Eel => seq!['\u{E0CB}'],
        Card::Rabbit => seq!['\u{E0CC}'],
        Card::Rooster => seq!['\u{E0CD}'],
        Card::Ox => seq!['\u{E0CE}'],
        Card::Cobra => seq!['\u{E0CF}'],
    }
}

impl Card {
    /// The one-character display string of this card.
    pub fn as_str(&self) -> (r: &'static str)
        ensures
            r@ == card_symbol(*self),
    {
        match *self {
            Card::Tiger => {
                proof { reveal_strlit("\u{E0C0}"); }
                "\u{E0C0}"
            },
            Card::Crab => {
                proof { reveal_strlit("\u{E0C1}"); }
                "\u{E0C1}"
            },
            Card::Monkey => {
                proof { reveal_strlit("\u{E0C2}"); }
                "\u{E0C2}"
            },
            Card::Crane => {
                proof { reveal_strlit("\u{E0C3}"); }
                "\u{E0C3}"
            },
            Card::Dragon => {
                proof { reveal_strlit("\u{E0C4}"); }
                "\u{E0C4}"
            },
            Card::Elephant => {
                proof { reveal_strlit("\u{E0C5}"); }
                "\u{E0C5}"
            },
            Card::Mantis => {
                proof { reveal_strlit("\u{E0C6}"); }
                "\u{E0C6}"
            },
            Card::Boar => {
                proof { reveal_strlit("\u{E0C7}"); }
                "\u{E0C7}"
            },
            Card::Frog => {
                proof { reveal_strlit("\u{E0C8}"); }
                "\u{E0C8}"
            },
            Card::Goose => {
                proof { reveal_strlit("\u{E0C9}"); }
                "\u{E0C9}"
            },
            Card::Horse => {
                proof { reveal_strlit("\u{E0CA}"); }
                "\u{E0CA}"
            },
            Card::Eel => {
                proof { reveal_strlit("\u{E0CB}"); }
                "\u{E0CB}"
            },
            Card::Rabbit => {
                proof { reveal_strlit("\u{E0CC}"); }
                "\u{E0CC}"
            },
            Card::Rooster => {
                proof { reveal_strlit("\u{E0CD}"); }
                "\u{E0CD}"
            },
            Card::Ox => {
                proof { reveal_strlit("\u{E0CE}"); }
                "\u{E0CE}"
            },
            Card::Cobra => {
                proof { reveal_strlit("\u{E0CF}"); }
                "\u{E0CF}"
            },
        }
    }
}

/// Outcome of exchanging one card of a pair with the center card.
#[derive(Debug, Copy, Clone, PartialEq, Eq)]
pub struct SwapCards {
    pub center_card: Card,
    pub pair: (Card, Card),
}

/// What the exchange produces: the selected pair card moves to the
/// center slot and the previous center card takes its place.
pub open spec fn swap_cards_spec(center_card: Card, cards: (Card, Card), pair_index: PairIndex)
    -> SwapCards {
    match pair_index {
        PairIndex::First => SwapCards { center_card: cards.0, pair: (center_card, cards.1) },
        PairIndex::Second => SwapCards { center_card: cards.1, pair: (cards.0, center_card) },
    }
}

/// Exchange outcome for `pair_index`, without mutating anything.
pub fn get_swap_cards_result(center_card: Card, cards: (Card, Card), pair_index: PairIndex) -> (r:
    SwapCards)
    ensures
        r == swap_cards_spec(center_card, cards, pair_index),
{
    match pair_index {
        PairIndex::First => SwapCards { center_card: cards.0, pair: (center_card, cards.1) },
        PairIndex::Second => SwapCards { center_card: cards.1, pair: (cards.0, center_card) },
    }
}

/// Exchange the pair card at `pair_index` with the center card, in
/// place.
pub fn swap_cards(center_card: &mut Card, cards: &mut (Card, Card), pair_index: PairIndex)
    ensures
        ({
            let sw = swap_cards_spec(*old(center_card), *old(cards), pair_index);
            *final(center_card) == sw.center_card && *final(cards) == sw.pair
        }),
{
    let swapped = get_swap_cards_result(*center_card, *cards, pair_index);
    *center_card = swapped.center_card;
    *cards = swapped.pair;
}

/// The five active cards: one side's pair, the other side's pair, and
/// the shared center card, pairwise distinct.
pub open spec fn five_cards_distinct(center: Card, pair: (Card, Card), other: (Card, Card))
    -> bool {
    &&& center != pair.0
    &&& center != pair.1
    &&& center != other.0
    &&& center != other.1
    &&& pair.0 != pair.1
    &&& pair.0 != other.0
    &&& pair.0 != other.1
    &&& pair.1 != other.0
    &&& pair.1 != other.1
    &&& other.0 != other.1
}

/// Card multiset law: a card exchange permutes the mover's pair and the
/// center card, so the five active cards keep the same multiset and
/// stay pairwise distinct; every card is from the fixed catalog.
pub proof fn lemma_swap_preserves_distinct(
    center: Card,
    pair: (Card, Card),
    other: (Card, Card),
    pair_index: PairIndex,
)
    requires
        five_cards_distinct(center, pair, other),
    ensures
        ({
            let sw = swap_cards_spec(center, pair, pair_index);
            &&& five_cards_distinct(sw.center_card, sw.pair, other)
            &&& seq![sw.center_card, sw.pair.0, sw.pair.1].to_multiset() == seq![
                center,
                pair.0,
                pair.1,
            ].to_multiset()
            &&& card_catalog().contains(sw.center_card)
            &&& card_catalog().contains(sw.pair.0)
            &&& card_catalog().contains(sw.pair.1)
        }),
{
    let sw = swap_cards_spec(center, pair, pair_index);
    lemma_card_in_catalog(sw.center_card);
    lemma_card_in_catalog(sw.pair.0);
    lemma_card_in_catalog(sw.pair.1);
    match pair_index {
        PairIndex::First => {
            assert(seq![sw.center_card, sw.pair.0, sw.pair.1].to_multiset() =~= seq![
                center,
                pair.0,
                pair.1,
            ].to_multiset()) by {
                broadcast use vstd::seq_lib::group_to_multiset_ensures;

                assert(seq![pair.0, center, pair.1] =~= seq![pair.0].push(center).push(pair.1));
                assert(seq![center, pair.0, pair.1] =~= seq![center].push(pair.0).push(pair.1));
                assert(seq![pair.0].to_multiset() =~= Multiset::empty().insert(pair.0));
                assert(seq![center].to_multiset() =~= Multiset::empty().insert(center));
            }
        },
        PairIndex::Second => {
            assert(seq![sw.center_card, sw.pair.0, sw.pair.1].to_multiset() =~= seq![
                center,
                pair.0,
                pair.1,
            ].to_multiset()) by {
                broadcast use vstd::seq_lib::group_to_multiset_ensures;

                assert(seq![pair.1, pair.0, center] =~= seq![pair.1].push(pair.0).push(center));
                assert(seq![center, pair.0, pair.1] =~= seq![center].push(pair.0).push(pair.1));
                assert(seq![pair.1].to_multiset() =~= Multiset::empty().insert(pair.1));
                assert(seq![center].to_multiset() =~= Multiset::empty().insert(center));
            }
        },
    }
}

/// Card multiset law over all five slots: an exchange leaves the
/// multiset of the five active cards — mover's pair, opponent's pair
/// and center — unchanged.
pub proof fn lemma_exchange_preserves_five_cards(
    center: Card,
    pair: (Card, Card),
    other: (Card, Card),
    pair_index: PairIndex,
)
    requires
        five_cards_distinct(center, pair, other),
    ensures
        ({
            let sw = swap_cards_spec(center, pair, pair_index);
            &&& seq![sw.center_card, sw.pair.0, sw.pair.1, other.0, other.1].to_multiset() == seq![
                center,
                pair.0,
                pair.1,
                other.0,
                other.1,
            ].to_multiset()
            &&& seq![sw.center_card, other.0, other.1, sw.pair.0, sw.pair.1].to_multiset() == seq![
                center,
                other.0,
                other.1,
                pair.0,
                pair.1,
            ].to_multiset()
        }),
{
    lemma_swap_preserves_distinct(center, pair, other, pair_index);
    let sw = swap_cards_spec(center, pair, pair_index);
    lemma_multiset_of_five(sw.center_card, sw.pair.0, sw.pair.1, other.0, other.1);
    lemma_multiset_of_five(center, pair.0, pair.1, other.0, other.1);
    lemma_multiset_of_five(sw.center_card, other.0, other.1, sw.pair.0, sw.pair.1);
    lemma_multiset_of_five(center, other.0, other.1, pair.0, pair.1);
    match pair_index {
        PairIndex::First => {
            assert(Multiset::empty().insert(sw.center_card).insert(sw.pair.0).insert(
                sw.pair.1,
            ).insert(other.0).insert(other.1) =~= Multiset::empty().insert(center).insert(
                pair.0,
            ).insert(pair.1).insert(other.0).insert(other.1));
            assert(Multiset::empty().insert(sw.center_card).insert(other.0).insert(other.1).insert(
                sw.pair.0,
            ).insert(sw.pair.1) =~= Multiset::empty().insert(center).insert(other.0).insert(
                other.1,
            ).insert(pair.0).insert(pair.1));
        },
        PairIndex::Second => {
            assert(Multiset::empty().insert(sw.center_card).insert(sw.pair.0).insert(
                sw.pair.1,
            ).insert(other.0).insert(other.1) =~= Multiset::empty().insert(center).insert(
                pair.0,
            ).insert(pair.1).insert(other.0).insert(other.1));
            assert(Multiset::empty().insert(sw.center_card).insert(other.0).insert(other.1).insert(
                sw.pair.0,
            ).insert(sw.pair.1) =~= Multiset::empty().insert(center).insert(other.0).insert(
                other.1,
            ).insert(pair.0).insert(pair.1));
        },
    }
}

/// The multiset of a five-element sequence, as an insertion chain.
proof fn lemma_multiset_of_five(a: Card, b: Card, c: Card, d: Card, e: Card)
    ensures
        seq![a, b, c, d, e].to_multiset() == Multiset::empty().insert(a).insert(b).insert(c).insert(
            d,
        ).insert(e),
{
    broadcast use vstd::seq_lib::group_to_multiset_ensures;

    assert(seq![a, b, c, d, e] =~= Seq::empty().push(a).push(b).push(c).push(d).push(e));
    assert(Seq::<Card>::empty().to_multiset() =~= Multiset::empty()) by {
        assert(Seq::<Card>::empty().to_multiset().len() == 0);
    }
    assert(seq![a, b, c, d, e].to_multiset() =~= Multiset::empty().insert(a).insert(b).insert(
        c,
    ).insert(d).insert(e));
}

} // verus!
