//! The collection of all cards: bringing newly read cards into it, picking
//! the cards to print, and finding names that more than one card carries.
use vstd::prelude::*;

use crate::text::{lines, lines_of, seqs, strs, to_chars, trim, trim_chars};
use crate::serialize::chars_equal;
use crate::{card_views, Card, CardView};

verus! {

/// Two cards stand for the same card of the collection when they have the
/// same name and are both commanders or both not.
pub open spec fn same_card(a: CardView, b: CardView) -> bool {
    a.name == b.name && a.commander == b.commander
}

/// The first position of `cards` that holds the same card as `c`, or -1.
pub open spec fn find_card(cards: Seq<CardView>, c: CardView) -> int
    decreases cards.len(),
{
    if cards.len() == 0 {
        -1
    } else {
        let r = find_card(cards.drop_last(), c);
        if r >= 0 {
            r
        } else if same_card(cards.last(), c) {
            cards.len() - 1
        } else {
            -1
        }
    }
}

/// `c` brought into the collection: it takes the place of the first card
/// that is the same card, or else goes at the end.
pub open spec fn merge_one(cards: Seq<CardView>, c: CardView) -> Seq<CardView> {
    let i = find_card(cards, c);
    if i >= 0 {
        cards.update(i, c)
    } else {
        cards.push(c)
    }
}

/// The cards of `new` brought into the collection one after another.
pub open spec fn merged(cards: Seq<CardView>, new: Seq<CardView>) -> Seq<CardView>
    decreases new.len(),
{
    if new.len() == 0 {
        cards
    } else {
        merge_one(merged(cards, new.drop_last()), new.last())
    }
}

/// `find_card` is the first position whose card is the same card as `c`.
pub proof fn lemma_find_card(cards: Seq<CardView>, c: CardView)
    ensures
        -1 <= find_card(cards, c) < cards.len(),
        find_card(cards, c) >= 0 ==> same_card(cards[find_card(cards, c)], c),
        forall|j: int|
            0 <= j < cards.len() && (find_card(cards, c) < 0 || j < find_card(cards, c))
                ==> !same_card(#[trigger] cards[j], c),
    decreases cards.len(),
{
    if cards.len() > 0 {
        lemma_find_card(cards.drop_last(), c);
        assert forall|j: int|
            0 <= j < cards.len() && (find_card(cards, c) < 0 || j < find_card(cards, c))
                implies !same_card(#[trigger] cards[j], c) by {
            if j < cards.len() - 1 {
                assert(cards[j] == cards.drop_last()[j]);
            }
        }
    }
}

/// Brings `c` into the collection.
fn merge_card(cards: &mut Vec<Card>, c: Card)
    ensures
        card_views(final(cards)@) == merge_one(card_views(old(cards)@), c@),
{
    let ghost before = card_views(cards@);
    proof {
        lemma_find_card(before, c@);
    }
    let mut i: usize = 0;
    while i < cards.len()
        invariant
            before == card_views(cards@),
            before == card_views(old(cards)@),
            i <= cards.len(),
            forall|j: int| 0 <= j < i ==> !same_card(#[trigger] before[j], c@),
            -1 <= find_card(before, c@) < before.len(),
            find_card(before, c@) >= 0 ==> same_card(before[find_card(before, c@)], c@),
            forall|j: int|
                0 <= j < before.len() && (find_card(before, c@) < 0 || j < find_card(before, c@))
                    ==> !same_card(#[trigger] before[j], c@),
        decreases cards.len() - i,
    {
        if cards[i].name == c.name && cards[i].commander == c.commander {
            assert(same_card(before[i as int], c@));
            assert(find_card(before, c@) == i);
            cards.set(i, c);
            assert(card_views(cards@) =~= before.update(i as int, c@));
            return;
        }
        assert(!same_card(before[i as int], c@));
        i += 1;
    }
    assert(find_card(before, c@) < 0);
    cards.push(c);
    assert(card_views(cards@) =~= before.push(c@));
}

/// Brings the newly read cards into the collection, in their order: each
/// takes the place of the first card with its name and commander flag, or
/// else goes at the end.
pub fn merge_cards(cards: &mut Vec<Card>, new_cards: Vec<Card>)
    ensures
        card_views(final(cards)@) == merged(card_views(old(cards)@), card_views(new_cards@)),
{
    let ghost start = card_views(cards@);
    let ghost all = card_views(new_cards@);
    let n: usize = new_cards.len();
    let mut rest = new_cards;
    let mut k: usize = 0;
    assert(all.take(0) =~= Seq::<CardView>::empty());
    while rest.len() > 0
        invariant
            all.len() == n,
            k <= all.len(),
            rest.len() == all.len() - k,
            card_views(rest@) == all.skip(k as int),
            card_views(cards@) == merged(start, all.take(k as int)),
        decreases rest.len(),
    {
        let ghost old_rest = rest@;
        let c = rest.remove(0);
        assert(card_views(old_rest)[0] == all.skip(k as int)[0]);
        assert(c@ == all[k as int]);
        assert(rest@ =~= old_rest.subrange(1, old_rest.len() as int));
        assert forall|j: int| 0 <= j < rest.len() implies #[trigger] card_views(rest@)[j]
            == all.skip(k + 1)[j] by {
            assert(rest@[j] == old_rest[j + 1]);
            assert(card_views(old_rest)[j + 1] == all.skip(k as int)[j + 1]);
        }
        assert(card_views(rest@) =~= all.skip(k + 1));
        merge_card(cards, c);
        assert(all.take(k + 1).drop_last() =~= all.take(k as int));
        k += 1;
    }
    assert(all.take(k as int) =~= all);
}

/// After the newly read cards are brought in, the collection holds each of
/// them, and every card of the collection that none of them is the same card
/// as stays where it was.
pub proof fn lemma_merged_holds_new(cards: Seq<CardView>, new: Seq<CardView>)
    ensures
        forall|k: int|
            #![trigger new[k]]
            0 <= k < new.len() ==> exists|i: int|
                0 <= i < merged(cards, new).len() && same_card(
                    #[trigger] merged(cards, new)[i],
                    new[k],
                ),
        merged(cards, new).len() >= cards.len(),
        forall|i: int|
            0 <= i < cards.len() && (forall|k: int|
                0 <= k < new.len() ==> !same_card(cards[i], #[trigger] new[k]))
                ==> merged(cards, new)[i] == cards[i],
    decreases new.len(),
{
    if new.len() > 0 {
        let init = new.drop_last();
        let m = merged(cards, init);
        let c = new.last();
        lemma_merged_holds_new(cards, init);
        lemma_find_card(m, c);
        let f = find_card(m, c);
        let r = merge_one(m, c);
        assert(r == merged(cards, new));
        assert forall|k: int| #![trigger new[k]] 0 <= k < new.len() implies exists|i: int|
            0 <= i < r.len() && same_card(#[trigger] r[i], new[k]) by {
            if k == new.len() - 1 {
                if f >= 0 {
                    assert(same_card(r[f], new[k]));
                } else {
                    assert(same_card(r[m.len() as int], new[k]));
                }
            } else {
                assert(new[k] == init[k]);
                let i = choose|i: int| 0 <= i < m.len() && same_card(#[trigger] m[i], init[k]);
                if i == f {
                    assert(same_card(r[i], new[k]));
                } else {
                    assert(r[i] == m[i]);
                }
            }
        }
        assert forall|i: int|
            0 <= i < cards.len() && (forall|k: int|
                0 <= k < new.len() ==> !same_card(cards[i], #[trigger] new[k]))
                implies r[i] == cards[i] by {
            assert forall|k: int| 0 <= k < init.len() implies !same_card(
                cards[i],
                #[trigger] init[k],
            ) by {
                assert(init[k] == new[k]);
            }
            assert(!same_card(cards[i], new[new.len() - 1]));
            assert(m[i] == cards[i]);
        }
    }
}

/// The cards of `cards` whose trimmed name is one of the lines of `list`,
/// in their order.
pub open spec fn printed(cards: Seq<CardView>, list: Seq<Seq<char>>) -> Seq<CardView>
    decreases cards.len(),
{
    if cards.len() == 0 {
        Seq::empty()
    } else {
        let r = printed(cards.drop_last(), list);
        if list.contains(trim(cards.last().name)) {
            r.push(cards.last())
        } else {
            r
        }
    }
}

/// Whether one of `list` equals `name`.
fn listed(list: &Vec<Vec<char>>, name: &[char]) -> (b: bool)
    ensures
        b == seqs(list@).contains(name@),
{
    let mut i: usize = 0;
    while i < list.len()
        invariant
            i <= list.len(),
            forall|j: int| 0 <= j < i ==> seqs(list@)[j] != name@,
        decreases list.len() - i,
    {
        if chars_equal(list[i].as_slice(), name) {
            assert(seqs(list@)[i as int] == name@);
            return true;
        }
        i += 1;
    }
    false
}

/// The cards to print: those whose trimmed name is one of the lines of
/// `print_list`, in their order.
pub fn cards_to_print(cards: Vec<Card>, print_list: &str) -> (r: Vec<Card>)
    ensures
        card_views(r@) == printed(card_views(cards@), lines(print_list@)),
{
    let list_chars = to_chars(print_list);
    let list = lines_of(list_chars.as_slice());
    let ghost all = card_views(cards@);
    let n: usize = cards.len();
    let mut rest = cards;
    let mut r: Vec<Card> = Vec::new();
    let mut k: usize = 0;
    assert(all.take(0) =~= Seq::<CardView>::empty());
    while rest.len() > 0
        invariant
            seqs(list@) == lines(print_list@),
            all.len() == n,
            k <= all.len(),
            rest.len() == all.len() - k,
            card_views(rest@) == all.skip(k as int),
            card_views(r@) == printed(all.take(k as int), lines(print_list@)),
        decreases rest.len(),
    {
        let ghost old_rest = rest@;
        let c = rest.remove(0);
        assert(card_views(old_rest)[0] == all.skip(k as int)[0]);
        assert(c@ == all[k as int]);
        assert(rest@ =~= old_rest.subrange(1, old_rest.len() as int));
        assert forall|j: int| 0 <= j < rest.len() implies #[trigger] card_views(rest@)[j]
            == all.skip(k + 1)[j] by {
            assert(rest@[j] == old_rest[j + 1]);
            assert(card_views(old_rest)[j + 1] == all.skip(k as int)[j + 1]);
        }
        assert(card_views(rest@) =~= all.skip(k + 1));
        let name = to_chars(c.name.as_str());
        let trimmed = trim_chars(name.as_slice());
        assert(all.take(k + 1).drop_last() =~= all.take(k as int));
        assert(all.take(k + 1).last() == c@);
        if listed(&list, trimmed.as_slice()) {
            let ghost before = card_views(r@);
            r.push(c);
            assert(card_views(r@) =~= before.push(c@));
        }
        k += 1;
    }
    assert(all.take(k as int) =~= all);
    r
}

/// The names of the cards.
pub open spec fn card_names(cards: Seq<CardView>) -> Seq<Seq<char>> {
    cards.map_values(|c: CardView| c.name)
}

/// Each name of `names` that an earlier name equals, in their order.
pub open spec fn repeated_names(names: Seq<Seq<char>>) -> Seq<Seq<char>>
    decreases names.len(),
{
    if names.len() == 0 {
        Seq::empty()
    } else {
        let r = repeated_names(names.drop_last());
        if names.drop_last().contains(names.last()) {
            r.push(names.last())
        } else {
            r
        }
    }
}

/// The name of each card that an earlier card already carries, in their
/// order: the names to warn about.
pub fn duplicate_names(cards: &Vec<Card>) -> (r: Vec<String>)
    ensures
        strs(r@) == repeated_names(card_names(card_views(cards@))),
{
    let ghost names = card_names(card_views(cards@));
    let mut r: Vec<String> = Vec::new();
    let mut i: usize = 0;
    assert(names.take(0) =~= Seq::<Seq<char>>::empty());
    while i < cards.len()
        invariant
            names == card_names(card_views(cards@)),
            i <= cards.len(),
            strs(r@) == repeated_names(names.take(i as int)),
        decreases cards.len() - i,
    {
        let mut j: usize = 0;
        let mut seen = false;
        while j < i
            invariant
                names == card_names(card_views(cards@)),
                j <= i < cards.len(),
                seen == (exists|m: int| 0 <= m < j && names[m] == names[i as int]),
            decreases i - j,
        {
            if cards[j].name == cards[i].name {
                assert(names[j as int] == names[i as int]);
                seen = true;
            }
            j += 1;
        }
        let ghost prefix = names.take(i as int);
        assert(names.take(i + 1).drop_last() =~= prefix);
        assert(names.take(i + 1).last() == names[i as int]);
        assert(seen == prefix.contains(names[i as int])) by {
            if seen {
                let m = choose|m: int| 0 <= m < i && names[m] == names[i as int];
                assert(prefix[m] == names[i as int]);
            }
            if prefix.contains(names[i as int]) {
                let m = choose|m: int| 0 <= m < prefix.len() && prefix[m] == names[i as int];
                assert(names[m] == names[i as int]);
            }
        }
        if seen {
            let ghost before = strs(r@);
            r.push(cards[i].name.clone());
            assert(strs(r@) =~= before.push(names[i as int]));
        }
        i += 1;
    }
    assert(names.take(i as int) =~= names);
    r
}

} // verus!
