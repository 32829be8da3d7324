//! The deal: which face values go into a new deck, and how the deck is laid
//! out.

use crate::protocol::{Card, CardStatusCardFace};
use crate::random::{gen_range_usize, shuffle_usize};
use vstd::prelude::*;

verus! {

broadcast use vstd::seq_lib::group_to_multiset_ensures, vstd::multiset::group_multiset_properties;

/// How many times face value `v` occurs in a deck dealt from `names` face
/// values, with `multiple` full rounds over all of them and one extra pair of
/// each value in `extras`.
pub open spec fn deal_count(v: usize, extras: Seq<usize>, names: nat, multiple: nat) -> nat {
    (if 1 <= v <= names { 2 * multiple } else { 0 }) + (if extras.contains(v) { 2nat } else { 0nat })
}

/// The face values of a deck, without the reserved card at position 0.
pub open spec fn deck_values(cards: Seq<Card>) -> Seq<usize>
    recommends
        cards.len() >= 1,
{
    cards.subrange(1, cards.len() as int).map_values(|c: Card| c.card_number_and_img_src)
}

/// The reserved card at position 0: face down, never dealt.
pub open spec fn sentinel_card() -> Card {
    Card { status: CardStatusCardFace::Down, card_number_and_img_src: 0, card_index_and_id: 0 }
}

/// A deck whose card 0 is the reserved card and whose every card lies face
/// down at its own position.
pub open spec fn fresh_deck(cards: Seq<Card>) -> bool {
    &&& cards.len() >= 1
    &&& cards[0] == sentinel_card()
    &&& forall|i: int|
        1 <= i < cards.len() ==> (#[trigger] cards[i]).status == CardStatusCardFace::Down
            && cards[i].card_index_and_id == i
}

/// The list of face values to deal, before shuffling: each value of `extras`
/// twice, then `multiple` rounds over the values `1..=names`, each value twice
/// in a round.
pub fn face_values_for_deal(extras: &Vec<usize>, names: usize, multiple: usize) -> (r: Vec<usize>)
    requires
        extras@.no_duplicates(),
        2 * extras.len() + 2 * (names * multiple) <= usize::MAX,
    ensures
        r@.len() == 2 * extras.len() + 2 * (names * multiple),
        forall|v: usize| #[trigger]
            r@.to_multiset().count(v) == deal_count(v, extras@, names as nat, multiple as nat),
{
    let mut r: Vec<usize> = Vec::new();
    let mut i: usize = 0;
    while i < extras.len()
        invariant
            i <= extras.len(),
            extras@.no_duplicates(),
            r@.len() == 2 * i,
            forall|v: usize| #[trigger]
                r@.to_multiset().count(v) == (if extras@.subrange(0, i as int).contains(v) {
                    2nat
                } else {
                    0nat
                }),
        decreases extras.len() - i,
    {
        let x = extras[i];
        proof {
            assert(extras@.subrange(0, i + 1) =~= extras@.subrange(0, i as int).push(x));
            assert(!extras@.subrange(0, i as int).contains(x)) by {
                if extras@.subrange(0, i as int).contains(x) {
                    let j = choose|j: int|
                        0 <= j < i && #[trigger] extras@.subrange(0, i as int)[j] == x;
                    assert(extras@[j] == extras@[i as int]);
                }
            }
        }
        let ghost old_r = r@;
        r.push(x);
        r.push(x);
        proof {
            assert(r@ == old_r.push(x).push(x));
            assert forall|v: usize|
                extras@.subrange(0, i + 1).contains(v) <==> (extras@.subrange(0, i as int).contains(v)
                    || v == x) by {
                let s0 = extras@.subrange(0, i as int);
                let s1 = extras@.subrange(0, i + 1);
                if s1.contains(v) && v != x {
                    let j = choose|j: int| 0 <= j < s1.len() && s1[j] == v;
                    assert(j < i);
                    assert(s0[j] == v);
                }
                if s0.contains(v) {
                    let j = choose|j: int| 0 <= j < s0.len() && s0[j] == v;
                    assert(s1[j] == v);
                }
                if v == x {
                    assert(s1[i as int] == v);
                }
            }
        }
        i = i + 1;
    }
    assert(extras@.subrange(0, extras.len() as int) =~= extras@);
    assert(names * multiple >= 0) by (nonlinear_arith);
    let mut m: usize = 0;
    while m < multiple
        invariant
            m <= multiple,
            2 * extras.len() + 2 * (names * multiple) <= usize::MAX,
            r@.len() == 2 * extras.len() + 2 * (names * m),
            forall|v: usize| #[trigger]
                r@.to_multiset().count(v) == deal_count(v, extras@, names as nat, m as nat),
        decreases multiple - m,
    {
        assert(names * m + names <= names * multiple) by (nonlinear_arith)
            requires
                m < multiple,
        ;
        let mut k: usize = 0;
        while k < names
            invariant
                k <= names,
                m < multiple,
                names * m + names <= names * multiple,
                2 * extras.len() + 2 * (names * multiple) <= usize::MAX,
                r@.len() == 2 * extras.len() + 2 * (names * m) + 2 * k,
                forall|v: usize| #[trigger]
                    r@.to_multiset().count(v) == deal_count(v, extras@, names as nat, m as nat)
                        + (if 1 <= v <= k { 2nat } else { 0nat }),
            decreases names - k,
        {
            let ghost old_r = r@;
            r.push(k + 1);
            r.push(k + 1);
            assert(r@ == old_r.push((k + 1) as usize).push((k + 1) as usize));
            k = k + 1;
        }
        assert(names * (m + 1) == names * m + names) by (nonlinear_arith);
        m = m + 1;
    }
    r
}

/// Draws `rest` distinct face values from `1..=names`.
pub(crate) fn pick_extra_values(rng: &mut rand::rngs::SmallRng, rest: usize, names: usize) -> (r: Vec<usize>)
    requires
        rest <= names,
    ensures
        r@.len() == rest,
        r@.no_duplicates(),
        forall|i: int| 0 <= i < r@.len() ==> 1 <= #[trigger] r@[i] <= names,
{
    let mut pool: Vec<usize> = Vec::new();
    let mut k: usize = 0;
    while k < names
        invariant
            k <= names,
            pool@.len() == k,
            forall|j: int| 0 <= j < pool@.len() ==> #[trigger] pool@[j] == j + 1,
        decreases names - k,
    {
        pool.push(k + 1);
        k = k + 1;
    }
    let mut picked: Vec<usize> = Vec::new();
    while picked.len() < rest
        invariant
            rest <= names,
            picked@.len() <= rest,
            pool@.len() + picked@.len() == names,
            pool@.no_duplicates(),
            picked@.no_duplicates(),
            forall|j: int| 0 <= j < pool@.len() ==> 1 <= #[trigger] pool@[j] <= names,
            forall|j: int| 0 <= j < picked@.len() ==> 1 <= #[trigger] picked@[j] <= names,
            forall|j: int| 0 <= j < picked@.len() ==> !pool@.contains(#[trigger] picked@[j]),
        decreases rest - picked.len(),
    {
        let idx = gen_range_usize(rng, 0, pool.len());
        let ghost old_pool = pool@;
        let v = pool.remove(idx);
        proof {
            assert(pool@ =~= old_pool.remove(idx as int));
            assert forall|j: int| 0 <= j < pool@.len() implies #[trigger] pool@[j] != v by {
                if j < idx {
                    assert(old_pool[j] != old_pool[idx as int]);
                } else {
                    assert(old_pool[j + 1] != old_pool[idx as int]);
                }
            }
            assert forall|a: int, b: int|
                0 <= a < pool@.len() && 0 <= b < pool@.len() && a != b implies pool@[a]
                != pool@[b] by {
                let oa = if a < idx { a } else { a + 1 };
                let ob = if b < idx { b } else { b + 1 };
                assert(old_pool[oa] != old_pool[ob]);
            }
            assert forall|x: usize| pool@.contains(x) implies old_pool.contains(x) by {
                let j = choose|j: int| 0 <= j < pool@.len() && pool@[j] == x;
                if j < idx {
                    assert(old_pool[j] == x);
                } else {
                    assert(old_pool[j + 1] == x);
                }
            }
        }
        let ghost old_picked = picked@;
        picked.push(v);
        proof {
            assert forall|j: int| 0 <= j < picked@.len() implies !pool@.contains(
                #[trigger] picked@[j],
            ) by {
                if j < old_picked.len() {
                    assert(picked@[j] == old_picked[j]);
                    assert(!old_pool.contains(old_picked[j]));
                } else {
                    if pool@.contains(v) {
                        let q = choose|q: int| 0 <= q < pool@.len() && pool@[q] == v;
                        assert(pool@[q] != v);
                    }
                }
            }
            assert forall|a: int, b: int|
                0 <= a < picked@.len() && 0 <= b < picked@.len() && a != b implies picked@[a]
                != picked@[b] by {
                if a < old_picked.len() && b < old_picked.len() {
                    assert(old_picked[a] != old_picked[b]);
                } else if a < old_picked.len() {
                    assert(!pool@.contains(picked@[a]));
                    assert(old_pool.contains(v));
                    assert(!old_pool.contains(old_picked[a]));
                } else if b < old_picked.len() {
                    assert(old_pool.contains(v));
                    assert(!old_pool.contains(old_picked[b]));
                }
            }
        }
    }
    picked
}

/// Lays a list of face values out as a deck: the reserved card at position
/// 0, then one face-down card per value, at positions from 1 on.
pub fn cards_from_values(values: &Vec<usize>) -> (r: Vec<Card>)
    requires
        values.len() < usize::MAX,
    ensures
        r@.len() == values@.len() + 1,
        fresh_deck(r@),
        deck_values(r@) == values@,
{
    let mut r: Vec<Card> = Vec::new();
    r.push(Card { status: CardStatusCardFace::Down, card_number_and_img_src: 0, card_index_and_id: 0 });
    let mut i: usize = 0;
    while i < values.len()
        invariant
            i <= values.len(),
            values.len() < usize::MAX,
            r@.len() == i + 1,
            r@[0] == sentinel_card(),
            forall|j: int|
                1 <= j <= i ==> #[trigger] r@[j] == (Card {
                    status: CardStatusCardFace::Down,
                    card_number_and_img_src: values@[j - 1],
                    card_index_and_id: j as usize,
                }),
        decreases values.len() - i,
    {
        r.push(Card { status: CardStatusCardFace::Down, card_number_and_img_src: values[i], card_index_and_id: i + 1 });
        i = i + 1;
    }
    assert(deck_values(r@) =~= values@);
    r
}

/// Deals a shuffled deck for `player_count` players from `names` face values
/// (the names of a content set, without the face-down image): eight pairs per
/// player, each value used in as many full rounds as fit, the rest filled with
/// pairs of distinct values drawn at random.
pub fn deal_deck(player_count: usize, names: usize) -> (r: Vec<Card>)
    requires
        names >= 1,
        player_count * 16 < usize::MAX,
    ensures
        r@.len() == 1 + 16 * player_count,
        fresh_deck(r@),
        forall|v: usize| {
            let c = #[trigger] deck_values(r@).to_multiset().count(v);
            let multiple = (8 * player_count) / (names as int);
            &&& (1 <= v <= names ==> c == 2 * multiple || c == 2 * multiple + 2)
            &&& (!(1 <= v <= names) ==> c == 0)
        },
        8 * player_count <= names ==> forall|v: usize|
            #[trigger] deck_values(r@).to_multiset().count(v) == 0
                || deck_values(r@).to_multiset().count(v) == 2,
{
    let cards_count = player_count * 16;
    let random_count = cards_count / 2;
    let multiple: usize = random_count / names;
    assert(names * multiple <= random_count) by (nonlinear_arith)
        requires
            multiple == random_count / names,
            names >= 1,
    ;
    let rest = random_count - names * multiple;
    assert(rest < names) by (nonlinear_arith)
        requires
            multiple == random_count / names,
            rest == random_count - names * multiple,
            names >= 1,
    ;
    let mut rng = crate::random::new_small_rng();
    let extras = pick_extra_values(&mut rng, rest, names);
    assert(2 * extras.len() + 2 * (names * multiple) == 16 * player_count) by (nonlinear_arith)
        requires
            extras.len() == rest,
            rest == random_count - names * multiple,
            random_count == cards_count / 2,
            cards_count == player_count * 16,
    ;
    let mut values = face_values_for_deal(&extras, names, multiple);
    let ghost before = values@;
    shuffle_usize(&mut values, &mut rng);
    proof {
        assert(values@.len() == before.len()) by {
            assert(values@.to_multiset().len() == before.to_multiset().len());
        }
    }
    let r = cards_from_values(&values);
    proof {
        assert forall|v: usize| 1 <= v <= names implies !(#[trigger] extras@.contains(v))
            || rest > 0 by {
            if extras@.contains(v) {
                let j = choose|j: int| 0 <= j < extras@.len() && extras@[j] == v;
            }
        }
        assert forall|v: usize| !(1 <= v <= names) implies !(#[trigger] extras@.contains(v)) by {
            if extras@.contains(v) {
                let j = choose|j: int| 0 <= j < extras@.len() && extras@[j] == v;
                assert(1 <= extras@[j] <= names);
            }
        }
        if 8 * player_count <= names {
            if multiple >= 1 {
                assert(rest == 0) by (nonlinear_arith)
                    requires
                        rest == random_count - names * multiple,
                        multiple >= 1,
                        random_count <= names,
                        names * multiple <= random_count,
                ;
                assert(extras@.len() == 0);
                assert(multiple == 1) by (nonlinear_arith)
                    requires
                        multiple >= 1,
                        random_count <= names,
                        names * multiple <= random_count,
                        names >= 1,
                ;
            }
        }
    }
    r
}

} // verus!
