//! Sorting: stable order by descending key, tallies of labels, and distinct values.

use crate::text;
use vstd::prelude::*;

verus! {

// ---------------------------------------------------------------------------
// Stable order by descending key
// ---------------------------------------------------------------------------

/// Whether index `a` comes before index `b`: by larger key, and by position among equal keys.
pub open spec fn comes_first(keys: Seq<u128>, a: int, b: int) -> bool {
    keys[a] > keys[b] || (keys[a] == keys[b] && a < b)
}

/// Whether `order` lists the indices of `keys` by descending key, equal keys in their order.
pub open spec fn is_descending_order(order: Seq<usize>, keys: Seq<u128>) -> bool {
    &&& order.len() == keys.len()
    &&& forall|i: int| 0 <= i < order.len() ==> #[trigger] order[i] < keys.len()
    &&& forall|i: int, j: int|
        0 <= i < j < order.len() ==> comes_first(keys, #[trigger] order[i] as int, #[trigger] order[j] as int)
    &&& forall|x: int| 0 <= x < keys.len() ==> #[trigger] lists(order, x)
}

/// Whether `order` lists the index `x`.
pub open spec fn lists(order: Seq<usize>, x: int) -> bool {
    exists|i: int| 0 <= i < order.len() && #[trigger] order[i] == x
}

/// Putting the index of the last key behind all keys that are not smaller keeps the order.
proof fn lemma_order_insert(before: Seq<usize>, keys: Seq<u128>, at: int)
    requires
        0 < keys.len() <= usize::MAX,
        is_descending_order(before, keys.drop_last()),
        0 <= at <= before.len(),
        forall|i: int| 0 <= i < at ==> keys[(#[trigger] before[i]) as int] >= keys.last(),
        at < before.len() ==> keys[before[at] as int] < keys.last(),
    ensures
        is_descending_order(before.insert(at, (keys.len() - 1) as usize), keys),
{
    let k = keys.len() - 1;
    let known = keys.drop_last();
    let order = before.insert(at, k as usize);
    assert forall|i: int| 0 <= i < order.len() implies #[trigger] order[i] < keys.len() by {
        if i < at {
            assert(order[i] == before[i]);
        } else if i > at {
            assert(order[i] == before[i - 1]);
        }
    }
    assert forall|i: int, j: int| 0 <= i < j < order.len() implies comes_first(
        keys,
        #[trigger] order[i] as int,
        #[trigger] order[j] as int,
    ) by {
        let a = if i < at { i } else { i - 1 };
        let b = if j < at { j } else { j - 1 };
        if i == at {
            assert(order[j] == before[b]);
            assert(before[b] < known.len());
            if b > at {
                assert(comes_first(known, before[at] as int, before[b] as int));
            }
            assert(known[before[at] as int] < keys[k]);
            assert(known[before[b] as int] <= known[before[at] as int]);
        } else if j == at {
            assert(order[i] == before[a]);
            assert(keys[before[a] as int] >= keys[k]);
        } else {
            assert(order[i] == before[a]);
            assert(order[j] == before[b]);
            assert(comes_first(known, before[a] as int, before[b] as int));
        }
    }
    assert forall|x: int| 0 <= x < keys.len() implies #[trigger] lists(order, x) by {
        if x == k {
            assert(order[at] == k);
        } else {
            assert(lists(before, x));
            let i = choose|i: int| 0 <= i < before.len() && #[trigger] before[i] == x;
            if i < at {
                assert(order[i] == x);
            } else {
                assert(order[i + 1] == x);
            }
        }
    }
}

/// Lists the indices of `keys` by descending key; equal keys keep their order.
pub fn descending_order(keys: &Vec<u128>) -> (order: Vec<usize>)
    ensures
        is_descending_order(order@, keys@),
{
    let mut order: Vec<usize> = Vec::new();
    let mut k: usize = 0;
    while k < keys.len()
        invariant
            k <= keys@.len(),
            is_descending_order(order@, keys@.take(k as int)),
        decreases keys@.len() - k,
    {
        let ghost known = keys@.take(k as int);
        let ghost wider = keys@.take(k + 1);
        let mut at: usize = 0;
        while at < order.len() && keys[order[at]] >= keys[k]
            invariant
                k < keys@.len(),
                at <= order@.len(),
                known == keys@.take(k as int),
                is_descending_order(order@, known),
                forall|i: int| 0 <= i < at ==> keys@[(#[trigger] order@[i]) as int] >= keys@[k as int],
            decreases order@.len() - at,
        {
            at = at + 1;
        }
        proof {
            assert(wider.drop_last() =~= known);
            lemma_order_insert(order@, wider, at as int);
        }
        order.insert(at, k);
        k = k + 1;
    }
    assert(keys@.take(k as int) =~= keys@);
    order
}

/// The order by descending key is unique: two listings of the same keys agree.
pub proof fn descending_order_unique(a: Seq<usize>, b: Seq<usize>, keys: Seq<u128>)
    requires
        is_descending_order(a, keys),
        is_descending_order(b, keys),
    ensures
        a == b,
{
    if a != b {
        assert(exists|i: int| 0 <= i < a.len() && #[trigger] a[i] != b[i]) by {
            if forall|i: int| 0 <= i < a.len() ==> #[trigger] a[i] == b[i] {
                assert(a =~= b);
            }
        }
        let some = choose|i: int| 0 <= i < a.len() && #[trigger] a[i] != b[i];
        let k = lemma_first_difference(a, b, some);
        // The element that `a` lists at `k` stands later in `b`, and the other way round.
        assert(lists(b, a[k] as int));
        let i = choose|i: int| 0 <= i < b.len() && #[trigger] b[i] == a[k] as int;
        assert(lists(a, b[k] as int));
        let j = choose|j: int| 0 <= j < a.len() && #[trigger] a[j] == b[k] as int;
        if i < k {
            assert(a[i] == b[i]);
            assert(comes_first(keys, a[i] as int, a[k] as int));
        } else if j < k {
            assert(a[j] == b[j]);
            assert(comes_first(keys, b[j] as int, b[k] as int));
        } else {
            assert(comes_first(keys, b[k] as int, b[i] as int));
            assert(comes_first(keys, a[k] as int, a[j] as int));
        }
        assert(false);
    }
}

/// Finds the first position at which two sequences differ.
proof fn lemma_first_difference(a: Seq<usize>, b: Seq<usize>, at: int) -> (k: int)
    requires
        0 <= at < a.len(),
        a.len() == b.len(),
        a[at] != b[at],
    ensures
        0 <= k < a.len(),
        a[k] != b[k],
        forall|i: int| 0 <= i < k ==> #[trigger] a[i] == b[i],
    decreases at,
{
    if forall|i: int| 0 <= i < at ==> #[trigger] a[i] == b[i] {
        at
    } else {
        let i = choose|i: int| 0 <= i < at && #[trigger] a[i] != b[i];
        lemma_first_difference(a, b, i)
    }
}

/// There is an order by descending key for any keys.
pub proof fn descending_order_exists(keys: Seq<u128>)
    requires
        keys.len() <= usize::MAX,
    ensures
        exists|order: Seq<usize>| is_descending_order(order, keys),
    decreases keys.len(),
{
    if keys.len() == 0 {
        assert(is_descending_order(Seq::empty(), keys));
    } else {
        descending_order_exists(keys.drop_last());
        let before = choose|order: Seq<usize>| is_descending_order(order, keys.drop_last());
        let at = lemma_place(before, keys, 0);
        lemma_order_insert(before, keys, at);
    }
}

/// Finds where the index of the last key belongs.
proof fn lemma_place(before: Seq<usize>, keys: Seq<u128>, from: int) -> (at: int)
    requires
        0 <= from <= before.len(),
        forall|i: int| 0 <= i < from ==> keys[(#[trigger] before[i]) as int] >= keys.last(),
    ensures
        0 <= at <= before.len(),
        forall|i: int| 0 <= i < at ==> keys[(#[trigger] before[i]) as int] >= keys.last(),
        at < before.len() ==> keys[before[at] as int] < keys.last(),
    decreases before.len() - from,
{
    if from < before.len() && keys[before[from] as int] >= keys.last() {
        lemma_place(before, keys, from + 1)
    } else {
        from
    }
}

/// The items of `s` in the order of `order`.
pub open spec fn rearranged<A>(s: Seq<A>, order: Seq<usize>) -> Seq<A> {
    Seq::new(order.len(), |i: int| s[order[i] as int])
}

/// Whether `order` lists each index below `n` exactly once.
pub open spec fn lists_once(order: Seq<usize>, n: nat) -> bool {
    &&& order.len() == n
    &&& forall|i: int| 0 <= i < n ==> #[trigger] order[i] < n
    &&& forall|i: int, j: int| 0 <= i < j < n ==> #[trigger] order[i] != #[trigger] order[j]
    &&& forall|x: int| 0 <= x < n ==> #[trigger] lists(order, x)
}

/// Listing each index once keeps every item, as often as it occurs.
proof fn lemma_lists_once<A>(s: Seq<A>, order: Seq<usize>)
    requires
        lists_once(order, s.len()),
    ensures
        rearranged(s, order).to_multiset() == s.to_multiset(),
    decreases s.len(),
{
    broadcast use vstd::seq_lib::group_to_multiset_ensures;

    let n = s.len();
    if n == 0 {
        assert(rearranged(s, order) =~= s);
    } else {
        assert(lists(order, n - 1));
        let at = choose|i: int| 0 <= i < order.len() && #[trigger] order[i] == n - 1;
        let rest = order.remove(at);
        let shorter = s.drop_last();
        assert forall|i: int| 0 <= i < n - 1 implies #[trigger] rest[i] < n - 1 by {
            let a = if i < at { i } else { i + 1 };
            assert(rest[i] == order[a]);
            assert(order[a] != order[at]);
        }
        assert forall|i: int, j: int| 0 <= i < j < n - 1 implies #[trigger] rest[i]
            != #[trigger] rest[j] by {
            let a = if i < at { i } else { i + 1 };
            let b = if j < at { j } else { j + 1 };
            assert(rest[i] == order[a]);
            assert(rest[j] == order[b]);
        }
        assert forall|x: int| 0 <= x < n - 1 implies #[trigger] lists(rest, x) by {
            assert(lists(order, x));
            let i = choose|i: int| 0 <= i < order.len() && #[trigger] order[i] == x;
            assert(rest[if i < at { i } else { i - 1 }] == x);
        }
        lemma_lists_once(shorter, rest);
        assert(rearranged(s, order) =~= rearranged(shorter, rest).insert(at, s.last()));
        assert(s =~= shorter.push(s.last()));
    }
}

/// Sorting keeps every item, as often as it occurs.
pub proof fn sorting_keeps_items<A>(s: Seq<A>, order: Seq<usize>, keys: Seq<u128>)
    requires
        is_descending_order(order, keys),
        keys.len() == s.len(),
    ensures
        rearranged(s, order).to_multiset() == s.to_multiset(),
{
    assert forall|i: int, j: int| 0 <= i < j < s.len() implies #[trigger] order[i]
        != #[trigger] order[j] by {
        assert(comes_first(keys, order[i] as int, order[j] as int));
    }
    lemma_lists_once(s, order);
}

// ---------------------------------------------------------------------------
// Tallies
// ---------------------------------------------------------------------------

/// A label, how often it occurs, and where it occurs first.
#[derive(Debug, Clone)]
pub struct LabelCount {
    pub label: String,
    pub count: usize,
    pub first: usize,
}

/// How often `label` occurs in `labels`.
pub open spec fn occurrences(labels: Seq<Seq<char>>, label: Seq<char>) -> nat
    decreases labels.len(),
{
    if labels.len() == 0 {
        0
    } else {
        occurrences(labels.drop_last(), label) + if labels.last() == label {
            1nat
        } else {
            0nat
        }
    }
}

/// Whether `first` is where `label` occurs first.
pub open spec fn is_first(labels: Seq<Seq<char>>, label: Seq<char>, first: int) -> bool {
    0 <= first < labels.len() && labels[first] == label && forall|i: int|
        0 <= i < first ==> #[trigger] labels[i] != label
}

/// Whether `table` has an entry for `label`.
pub open spec fn has_entry(table: Seq<LabelCount>, label: Seq<char>) -> bool {
    exists|i: int| 0 <= i < table.len() && (#[trigger] table[i]).label@ == label
}

/// Whether `table` counts `labels`: one entry per label that occurs, in the order of texts.
pub open spec fn is_tally(table: Seq<LabelCount>, labels: Seq<Seq<char>>) -> bool {
    &&& forall|i: int, j: int|
        0 <= i < j < table.len() ==> text::text_before(
            (#[trigger] table[i]).label@,
            (#[trigger] table[j]).label@,
        )
    &&& forall|i: int|
        0 <= i < table.len() ==> {
            &&& (#[trigger] table[i]).count == occurrences(labels, table[i].label@)
            &&& is_first(labels, table[i].label@, table[i].first as int)
        }
    &&& forall|k: int| 0 <= k < labels.len() ==> has_entry(table, #[trigger] labels[k])
}

/// A label that does not occur is counted zero times.
proof fn lemma_no_occurrence(labels: Seq<Seq<char>>, label: Seq<char>)
    requires
        forall|i: int| 0 <= i < labels.len() ==> #[trigger] labels[i] != label,
    ensures
        occurrences(labels, label) == 0,
    decreases labels.len(),
{
    if labels.len() > 0 {
        lemma_no_occurrence(labels.drop_last(), label);
    }
}

/// No label occurs more often than there are labels.
proof fn lemma_occurrences_bound(labels: Seq<Seq<char>>, label: Seq<char>)
    ensures
        occurrences(labels, label) <= labels.len(),
    decreases labels.len(),
{
    if labels.len() > 0 {
        lemma_occurrences_bound(labels.drop_last(), label);
    }
}

/// Adds one more label to a tally.
fn count_label(table: &mut Vec<LabelCount>, label: &String, position: usize, seen: Ghost<Seq<Seq<char>>>)
    requires
        is_tally(old(table)@, seen@),
        seen@.len() == position,
        position < usize::MAX,
    ensures
        is_tally(final(table)@, seen@.push(label@)),
{
    let ghost labels = seen@;
    let ghost wider = labels.push(label@);
    assert(wider.drop_last() =~= labels);
    let mut at: usize = 0;
    while at < table.len() && text::stands_before(table[at].label.as_str(), label.as_str())
        invariant
            at <= table@.len(),
            table@ == old(table)@,
            forall|i: int|
                0 <= i < at ==> text::text_before((#[trigger] table@[i]).label@, label@),
        decreases table@.len() - at,
    {
        at = at + 1;
    }
    let ghost before = table@;
    if at < table.len() && text::same_text(table[at].label.as_str(), label.as_str()) {
        proof {
            lemma_occurrences_bound(labels, label@);
        }
        let entry: LabelCount = LabelCount {
            label: table[at].label.clone(),
            count: table[at].count + 1,
            first: table[at].first,
        };
        table.set(at, entry);
        proof {
            assert forall|i: int, j: int| 0 <= i < j < table@.len() implies text::text_before(
                (#[trigger] table@[i]).label@,
                (#[trigger] table@[j]).label@,
            ) by {
                assert(table@[i].label@ == before[i].label@);
                assert(table@[j].label@ == before[j].label@);
            }
            assert forall|i: int| 0 <= i < table@.len() implies (#[trigger] table@[i]).count
                == occurrences(wider, table@[i].label@) && is_first(
                wider,
                table@[i].label@,
                table@[i].first as int,
            ) by {
                assert(table@[i].label@ == before[i].label@);
                if i != at {
                    if i < at {
                        text::lemma_text_order_strict(before[i].label@, label@);
                    } else {
                        assert(text::text_before(before[at as int].label@, before[i].label@));
                        text::lemma_text_order_strict(before[at as int].label@, before[i].label@);
                    }
                }
                assert(is_first(labels, before[i].label@, before[i].first as int));
                let f = before[i].first as int;
                assert(wider[f] == labels[f]);
                assert forall|k: int| 0 <= k < f implies #[trigger] wider[k] != before[i].label@ by {
                    assert(wider[k] == labels[k]);
                }
            }
            assert forall|k: int| 0 <= k < wider.len() implies has_entry(
                table@,
                #[trigger] wider[k],
            ) by {
                if k < labels.len() {
                    assert(wider[k] == labels[k]);
                    assert(has_entry(before, labels[k]));
                    let i = choose|i: int|
                        0 <= i < before.len() && (#[trigger] before[i]).label@ == labels[k];
                    assert(table@[i].label@ == labels[k]);
                } else {
                    assert(table@[at as int].label@ == wider[k]);
                }
            }
        }
    } else {
        proof {
            if at < before.len() {
                text::lemma_text_order_total(before[at as int].label@, label@);
            }
            assert forall|i: int| at <= i < before.len() implies text::text_before(
                label@,
                (#[trigger] before[i]).label@,
            ) by {
                if i > at {
                    text::lemma_text_order_transitive(
                        label@,
                        before[at as int].label@,
                        before[i].label@,
                    );
                }
            }
            assert forall|i: int| 0 <= i < before.len() implies (#[trigger] before[i]).label@
                != label@ by {
                if i < at {
                    text::lemma_text_order_strict(before[i].label@, label@);
                } else {
                    text::lemma_text_order_strict(label@, before[i].label@);
                }
            }
            assert forall|k: int| 0 <= k < labels.len() implies #[trigger] labels[k] != label@ by {
                assert(has_entry(before, labels[k]));
            }
            lemma_no_occurrence(labels, label@);
        }
        table.insert(at, LabelCount { label: label.clone(), count: 1, first: position });
        proof {
            assert forall|i: int, j: int| 0 <= i < j < table@.len() implies text::text_before(
                (#[trigger] table@[i]).label@,
                (#[trigger] table@[j]).label@,
            ) by {
                let a = if i < at { i } else { i - 1 };
                let b = if j < at { j } else { j - 1 };
                if i != at {
                    assert(table@[i] == before[a]);
                }
                if j != at {
                    assert(table@[j] == before[b]);
                }
            }
            assert forall|i: int| 0 <= i < table@.len() implies (#[trigger] table@[i]).count
                == occurrences(wider, table@[i].label@) && is_first(
                wider,
                table@[i].label@,
                table@[i].first as int,
            ) by {
                if i != at {
                    let a = if i < at { i } else { i - 1 };
                    assert(table@[i] == before[a]);
                    let f = before[a].first as int;
                    assert(is_first(labels, before[a].label@, f));
                    assert(wider[f] == labels[f]);
                    assert forall|k: int| 0 <= k < f implies #[trigger] wider[k]
                        != before[a].label@ by {
                        assert(wider[k] == labels[k]);
                    }
                } else {
                    assert forall|k: int| 0 <= k < position implies #[trigger] wider[k] != label@ by {
                        assert(wider[k] == labels[k]);
                    }
                }
            }
            assert forall|k: int| 0 <= k < wider.len() implies has_entry(
                table@,
                #[trigger] wider[k],
            ) by {
                if k < labels.len() {
                    assert(wider[k] == labels[k]);
                    assert(has_entry(before, labels[k]));
                    let i = choose|i: int|
                        0 <= i < before.len() && (#[trigger] before[i]).label@ == labels[k];
                    if i < at {
                        assert(table@[i] == before[i]);
                    } else {
                        assert(table@[i + 1] == before[i]);
                    }
                } else {
                    assert(table@[at as int].label@ == wider[k]);
                }
            }
        }
    }
}

/// Counts labels: one entry per label that occurs, in the order of texts.
pub fn tally(labels: &Vec<String>) -> (table: Vec<LabelCount>)
    ensures
        is_tally(table@, text::views(labels@)),
{
    let mut table: Vec<LabelCount> = Vec::new();
    let ghost all = text::views(labels@);
    let n: usize = labels.len();
    let mut k: usize = 0;
    while k < n
        invariant
            k <= n,
            n == labels@.len(),
            all == text::views(labels@),
            is_tally(table@, all.take(k as int)),
        decreases n - k,
    {
        assert(all.take(k as int).push(labels@[k as int]@) =~= all.take(k + 1));
        count_label(&mut table, &labels[k], k, Ghost(all.take(k as int)));
        k = k + 1;
    }
    assert(all.take(k as int) =~= all);
    table
}

/// A tally is unique: two tallies of the same labels have the same entries.
pub proof fn tally_unique(a: Seq<LabelCount>, b: Seq<LabelCount>, labels: Seq<Seq<char>>)
    requires
        is_tally(a, labels),
        is_tally(b, labels),
    ensures
        a.len() == b.len(),
        forall|i: int|
            0 <= i < a.len() ==> (#[trigger] a[i]).label@ == b[i].label@ && a[i].count
                == b[i].count && a[i].first == b[i].first,
{
    lemma_tally_agrees(a, b, labels, a.len() as int);
    lemma_tally_agrees(b, a, labels, b.len() as int);
    assert forall|i: int| 0 <= i < a.len() implies (#[trigger] a[i]).label@ == b[i].label@
        && a[i].count == b[i].count && a[i].first == b[i].first by {
        lemma_tally_agrees(a, b, labels, i + 1);
        assert(is_first(labels, a[i].label@, a[i].first as int));
        assert(is_first(labels, b[i].label@, b[i].first as int));
        if a[i].first < b[i].first {
            assert(labels[a[i].first as int] != b[i].label@);
        } else if b[i].first < a[i].first {
            assert(labels[b[i].first as int] != a[i].label@);
        }
    }
}

/// Two tallies of the same labels have the same labels in their first `k` entries.
proof fn lemma_tally_agrees(
    a: Seq<LabelCount>,
    b: Seq<LabelCount>,
    labels: Seq<Seq<char>>,
    k: int,
)
    requires
        is_tally(a, labels),
        is_tally(b, labels),
        0 <= k <= a.len(),
    ensures
        k <= b.len(),
        forall|i: int| 0 <= i < k ==> (#[trigger] a[i]).label@ == b[i].label@,
    decreases k,
{
    if k > 0 {
        lemma_tally_agrees(a, b, labels, k - 1);
        let label = a[k - 1].label@;
        // The label occurs, so `b` has it; it cannot stand among the earlier entries.
        assert(is_first(labels, label, a[k - 1].first as int));
        assert(has_entry(b, labels[a[k - 1].first as int]));
        let j = choose|j: int| 0 <= j < b.len() && (#[trigger] b[j]).label@ == label;
        if j < k - 1 {
            assert(a[j].label@ == label);
            assert(text::text_before(a[j].label@, a[k - 1].label@));
            text::lemma_text_order_strict(label, label);
        }
        // The entry of `b` at this place occurs in `a`, and not before this place either.
        let other = b[k - 1].label@;
        assert(is_first(labels, other, b[k - 1].first as int));
        assert(has_entry(a, labels[b[k - 1].first as int]));
        let m = choose|m: int| 0 <= m < a.len() && (#[trigger] a[m]).label@ == other;
        if m < k - 1 {
            assert(b[m].label@ == other);
            assert(text::text_before(b[m].label@, b[k - 1].label@));
            text::lemma_text_order_strict(other, other);
        }
        if j > k - 1 && m > k - 1 {
            assert(text::text_before(b[k - 1].label@, b[j].label@));
            assert(text::text_before(a[k - 1].label@, a[m].label@));
            text::lemma_text_order_strict(other, label);
        }
    }
}

/// The tally of labels.
pub open spec fn tally_of(labels: Seq<Seq<char>>) -> Seq<LabelCount> {
    choose|table: Seq<LabelCount>| is_tally(table, labels)
}

/// The labels of a tally.
pub open spec fn table_labels(table: Seq<LabelCount>) -> Seq<Seq<char>> {
    table.map_values(|entry: LabelCount| entry.label@)
}

/// The distinct texts among `labels`, in the order of texts.
pub open spec fn sorted_distinct(labels: Seq<Seq<char>>) -> Seq<Seq<char>> {
    table_labels(tally_of(labels))
}

/// Collects the distinct texts among `labels`, in the order of texts.
pub fn distinct_texts(labels: &Vec<String>) -> (r: Vec<String>)
    ensures
        text::views(r@) == sorted_distinct(text::views(labels@)),
{
    let table: Vec<LabelCount> = tally(labels);
    let mut r: Vec<String> = Vec::with_capacity(table.len());
    let mut i: usize = 0;
    while i < table.len()
        invariant
            i <= table@.len(),
            text::views(r@) == table_labels(table@.take(i as int)),
        decreases table@.len() - i,
    {
        let ghost before = r@;
        r.push(table[i].label.clone());
        proof {
            let label = table@[i as int].label@;
            assert(text::views(r@) =~= text::views(before).push(label));
            assert(table_labels(table@.take(i + 1)) =~= table_labels(
                table@.take(i as int),
            ).push(label));
        }
        i = i + 1;
    }
    proof {
        assert(table@.take(i as int) =~= table@);
        let all = text::views(labels@);
        tally_unique(table@, tally_of(all), all);
        assert(table_labels(table@) =~= table_labels(tally_of(all)));
    }
    r
}

// ---------------------------------------------------------------------------
// Distinct numbers
// ---------------------------------------------------------------------------

/// Whether `r` holds the numbers of `values`, each once, in ascending order.
pub open spec fn is_distinct_ascending(r: Seq<u32>, values: Seq<u32>) -> bool {
    &&& forall|i: int, j: int| 0 <= i < j < r.len() ==> #[trigger] r[i] < #[trigger] r[j]
    &&& forall|v: u32| #[trigger] r.contains(v) <==> values.contains(v)
}

/// Collects the distinct numbers of `values` in ascending order.
pub fn distinct_ascending(values: &Vec<u32>) -> (r: Vec<u32>)
    ensures
        is_distinct_ascending(r@, values@),
        r@ == ascending(values@),
{
    let mut r: Vec<u32> = Vec::new();
    let mut k: usize = 0;
    while k < values.len()
        invariant
            k <= values@.len(),
            is_distinct_ascending(r@, values@.take(k as int)),
        decreases values@.len() - k,
    {
        let v: u32 = values[k];
        let ghost known = values@.take(k as int);
        let ghost wider = values@.take(k + 1);
        assert(wider =~= known.push(v));
        let mut at: usize = 0;
        while at < r.len() && r[at] < v
            invariant
                at <= r@.len(),
                forall|i: int| 0 <= i < at ==> #[trigger] r@[i] < v,
            decreases r@.len() - at,
        {
            at = at + 1;
        }
        let ghost before = r@;
        if at == r.len() || r[at] != v {
            r.insert(at, v);
            assert forall|i: int, j: int| 0 <= i < j < r@.len() implies #[trigger] r@[i]
                < #[trigger] r@[j] by {
                let a = if i < at { i } else { i - 1 };
                let b = if j < at { j } else { j - 1 };
                if i != at {
                    assert(r@[i] == before[a]);
                }
                if j != at {
                    assert(r@[j] == before[b]);
                }
                if i == at && b > at {
                    assert(before[at as int] < before[b]);
                }
            }
            assert forall|w: u32| #[trigger] r@.contains(w) <==> wider.contains(w) by {
                if r@.contains(w) {
                    let i = choose|i: int| 0 <= i < r@.len() && r@[i] == w;
                    if i == at {
                        assert(wider[k as int] == w);
                    } else {
                        assert(before[if i < at { i } else { i - 1 }] == w);
                        assert(before.contains(w));
                        let m = choose|m: int| 0 <= m < known.len() && known[m] == w;
                        assert(wider[m] == w);
                    }
                }
                if wider.contains(w) {
                    let m = choose|m: int| 0 <= m < wider.len() && wider[m] == w;
                    if m == k {
                        assert(r@[at as int] == w);
                    } else {
                        assert(known[m] == w);
                        assert(known.contains(w));
                        assert(before.contains(w));
                        let i = choose|i: int| 0 <= i < before.len() && before[i] == w;
                        assert(r@[if i < at { i } else { i + 1 }] == w);
                    }
                }
            }
        } else {
            assert forall|w: u32| #[trigger] r@.contains(w) <==> wider.contains(w) by {
                if r@.contains(w) {
                    let m = choose|m: int| 0 <= m < known.len() && known[m] == w;
                    assert(wider[m] == w);
                }
                if wider.contains(w) {
                    let m = choose|m: int| 0 <= m < wider.len() && wider[m] == w;
                    if m == k {
                        assert(r@[at as int] == w);
                    } else {
                        assert(known[m] == w);
                        assert(known.contains(w));
                    }
                }
            }
        }
        k = k + 1;
    }
    assert(values@.take(k as int) =~= values@);
    proof {
        distinct_ascending_unique(r@, ascending(values@), values@);
    }
    r
}

/// The distinct numbers in ascending order are unique.
pub proof fn distinct_ascending_unique(a: Seq<u32>, b: Seq<u32>, values: Seq<u32>)
    requires
        is_distinct_ascending(a, values),
        is_distinct_ascending(b, values),
    ensures
        a == b,
{
    lemma_ascending_agrees(a, b, values, a.len() as int);
    lemma_ascending_agrees(b, a, values, b.len() as int);
    assert(a =~= b);
}

/// Two ascending listings of the same numbers agree in their first `k` numbers.
proof fn lemma_ascending_agrees(a: Seq<u32>, b: Seq<u32>, values: Seq<u32>, k: int)
    requires
        is_distinct_ascending(a, values),
        is_distinct_ascending(b, values),
        0 <= k <= a.len(),
    ensures
        k <= b.len(),
        forall|i: int| 0 <= i < k ==> #[trigger] a[i] == b[i],
    decreases k,
{
    if k > 0 {
        lemma_ascending_agrees(a, b, values, k - 1);
        assert(a.contains(a[k - 1]));
        assert(b.contains(a[k - 1]));
        let j = choose|j: int| 0 <= j < b.len() && b[j] == a[k - 1];
        if j < k - 1 {
            assert(a[j] == b[j]);
        }
        assert(b.contains(b[k - 1]));
        assert(a.contains(b[k - 1]));
        let m = choose|m: int| 0 <= m < a.len() && a[m] == b[k - 1];
        if m < k - 1 {
            assert(a[m] == b[m]);
        }
    }
}

/// The distinct numbers among `values`, in ascending order.
pub open spec fn ascending(values: Seq<u32>) -> Seq<u32> {
    choose|r: Seq<u32>| is_distinct_ascending(r, values)
}

/// The number of occurrences goes up with each occurrence, and with nothing else.
pub proof fn occurrences_are_counted(labels: Seq<Seq<char>>, next: Seq<char>, label: Seq<char>)
    ensures
        occurrences(Seq::empty(), label) == 0,
        next == label ==> occurrences(labels.push(next), label) == occurrences(labels, label) + 1,
        next != label ==> occurrences(labels.push(next), label) == occurrences(labels, label),
{
    assert(labels.push(next).drop_last() =~= labels);
}

/// A tally has an entry for every label that occurs and for no other, with its count, and its
/// entries stand in the order of texts.
pub proof fn tallies_count_every_label(table: Seq<LabelCount>, labels: Seq<Seq<char>>, i: int, k: int)
    requires
        is_tally(table, labels),
        0 <= i < table.len(),
        0 <= k < labels.len(),
    ensures
        table[i].count == occurrences(labels, table[i].label@),
        labels.contains(table[i].label@),
        exists|j: int| 0 <= j < table.len() && (#[trigger] table[j]).label@ == labels[k],
        i + 1 < table.len() ==> text::text_before(table[i].label@, table[i + 1].label@),
{
    assert(has_entry(table, labels[k]));
    assert(labels[table[i].first as int] == table[i].label@);
}

/// An order by descending key has no key before a larger one, and keeps equal ones in place.
pub proof fn descending_orders_descend(order: Seq<usize>, keys: Seq<u128>, i: int, j: int)
    requires
        is_descending_order(order, keys),
        0 <= i < j < order.len(),
    ensures
        order.len() == keys.len(),
        keys[order[i] as int] >= keys[order[j] as int],
        keys[order[i] as int] == keys[order[j] as int] ==> order[i] < order[j],
        order[i] != order[j],
{
    assert(comes_first(keys, order[i] as int, order[j] as int));
}

} // verus!
