//! Ordering of picker entries and the stable sort that applies it.

use vstd::prelude::*;
use crate::order::{rank_lt, str_lt, lemma_rank_lt_irreflexive, lemma_rank_lt_asymmetric, lemma_rank_lt_transitive, lemma_rank_not_lt_transitive};
use crate::picker::PickerItem;

verus! {

/// How regular picker entries are ordered.
#[derive(Clone, Copy, Debug, PartialEq, Eq, Structural)]
pub enum ItemOrder {
    /// By label, A to Z.
    LabelAsc,
    /// By label, Z to A.
    LabelDesc,
    /// Entries with a sort key first, newest key first; the others by label,
    /// Z to A.
    KeyDesc,
}

/// Whether the order compares ranks descending.
pub open spec fn order_desc(o: ItemOrder) -> bool {
    o != ItemOrder::LabelAsc
}

/// The rank of an entry under an order.
pub open spec fn item_rank(o: ItemOrder, it: PickerItem) -> (int, Seq<char>) {
    match o {
        ItemOrder::KeyDesc => match it.sort_key {
            Some(k) => (0, k@),
            None => (1, it.label@),
        },
        _ => (0, it.label@),
    }
}

/// `a` comes strictly before `b` under `o`.
pub open spec fn item_lt(o: ItemOrder, a: PickerItem, b: PickerItem) -> bool {
    rank_lt(order_desc(o), item_rank(o, a), item_rank(o, b))
}

/// `output` is `input` stably sorted under `o`, `perm` telling for each
/// output position which input position it came from.
pub open spec fn is_stable_sort(
    o: ItemOrder,
    input: Seq<PickerItem>,
    output: Seq<PickerItem>,
    perm: Seq<int>,
) -> bool {
    &&& perm.len() == input.len()
    &&& output.len() == input.len()
    &&& forall|i: int|
        0 <= i < perm.len() ==> 0 <= #[trigger] perm[i] < input.len() && output[i] == input[perm[i]]
    &&& forall|i: int, j: int| 0 <= i < j < perm.len() ==> #[trigger] perm[i] != #[trigger] perm[j]
    &&& forall|i: int, j: int|
        0 <= i < j < output.len() ==> !item_lt(o, #[trigger] output[j], #[trigger] output[i])
    &&& forall|i: int, j: int|
        0 <= i < j < output.len() && !item_lt(o, #[trigger] output[i], #[trigger] output[j])
            ==> perm[i] < perm[j]
}

/// `output` is `input` sorted by `o`, entries of equal rank keeping their
/// relative order (what a stable `sort_by` produces).
pub open spec fn stably_sorted(o: ItemOrder, input: Seq<PickerItem>, output: Seq<PickerItem>) -> bool {
    exists|perm: Seq<int>| is_stable_sort(o, input, output, perm)
}

proof fn lemma_item_lt_facts(o: ItemOrder, a: PickerItem, b: PickerItem, c: PickerItem)
    ensures
        !item_lt(o, a, a),
        !(item_lt(o, a, b) && item_lt(o, b, a)),
        item_lt(o, a, b) && item_lt(o, b, c) ==> item_lt(o, a, c),
        !item_lt(o, a, b) && !item_lt(o, b, c) ==> !item_lt(o, a, c),
{
    let d = order_desc(o);
    lemma_rank_lt_irreflexive(d, item_rank(o, a));
    lemma_rank_lt_asymmetric(d, item_rank(o, a), item_rank(o, b));
    if item_lt(o, a, b) && item_lt(o, b, c) {
        lemma_rank_lt_transitive(d, item_rank(o, a), item_rank(o, b), item_rank(o, c));
    }
    if !item_lt(o, a, b) && !item_lt(o, b, c) {
        lemma_rank_not_lt_transitive(d, item_rank(o, a), item_rank(o, b), item_rank(o, c));
    }
}

/// Whether `a` comes strictly before `b` under `o`.
pub fn item_lt_exec(o: ItemOrder, a: &PickerItem, b: &PickerItem) -> (r: bool)
    ensures
        r == item_lt(o, *a, *b),
{
    match o {
        ItemOrder::LabelAsc => str_lt(a.label.as_str(), b.label.as_str()),
        ItemOrder::LabelDesc => str_lt(b.label.as_str(), a.label.as_str()),
        ItemOrder::KeyDesc => match (&a.sort_key, &b.sort_key) {
            (Some(ka), Some(kb)) => str_lt(kb.as_str(), ka.as_str()),
            (Some(_), None) => true,
            (None, Some(_)) => false,
            (None, None) => str_lt(b.label.as_str(), a.label.as_str()),
        },
    }
}

/// First position in `out` whose entry `x` must precede.
fn insertion_point(o: ItemOrder, out: &Vec<PickerItem>, x: &PickerItem) -> (j: usize)
    ensures
        j <= out@.len(),
        forall|k: int| 0 <= k < j ==> !item_lt(o, *x, #[trigger] out@[k]),
        j < out@.len() ==> item_lt(o, *x, out@[j as int]),
{
    let mut j: usize = 0;
    while j < out.len()
        invariant
            j <= out@.len(),
            forall|k: int| 0 <= k < j ==> !item_lt(o, *x, #[trigger] out@[k]),
        decreases out.len() - j,
    {
        if item_lt_exec(o, x, &out[j]) {
            return j;
        }
        j = j + 1;
    }
    j
}

/// `items` stably sorted under `o`.
pub fn stable_sort(o: ItemOrder, items: Vec<PickerItem>) -> (r: Vec<PickerItem>)
    ensures
        stably_sorted(o, items@, r@),
{
    let mut out: Vec<PickerItem> = Vec::new();
    let ghost mut perm: Seq<int> = Seq::empty();
    let mut rest = items;
    let ghost input = rest@;
    let n = rest.len();
    let mut i: usize = 0;
    assert(input.take(0) =~= Seq::<PickerItem>::empty());
    assert(input.subrange(0, n as int) =~= input);
    while i < n
        invariant
            n == input.len(),
            i <= n,
            rest@ =~= input.subrange(i as int, n as int),
            is_stable_sort(o, input.take(i as int), out@, perm),
        decreases n - i,
    {
        let x = rest.remove(0);
        assert(x == input[i as int]);
        assert(rest@ =~= input.subrange(i + 1, n as int));
        let j = insertion_point(o, &out, &x);
        let ghost old_out = out@;
        let ghost old_perm = perm;
        out.insert(j, x);
        proof {
            perm = old_perm.insert(j as int, i as int);
            lemma_insert_keeps_stable_sort(o, input, i as int, old_out, old_perm, j as int, out@, perm);
        }
        i = i + 1;
    }
    assert(input.take(n as int) =~= input);
    out
}

proof fn lemma_insert_keeps_stable_sort(
    o: ItemOrder,
    input: Seq<PickerItem>,
    i: int,
    old_out: Seq<PickerItem>,
    old_perm: Seq<int>,
    j: int,
    out: Seq<PickerItem>,
    perm: Seq<int>,
)
    requires
        0 <= i < input.len(),
        is_stable_sort(o, input.take(i), old_out, old_perm),
        0 <= j <= old_out.len(),
        forall|k: int| 0 <= k < j ==> !item_lt(o, input[i], #[trigger] old_out[k]),
        j < old_out.len() ==> item_lt(o, input[i], old_out[j]),
        out == old_out.insert(j, input[i]),
        perm == old_perm.insert(j, i),
    ensures
        is_stable_sort(o, input.take(i + 1), out, perm),
{
    let x = input[i];
    let inp = input.take(i + 1);
    let old_inp = input.take(i);
    assert(perm.len() == inp.len());
    assert forall|a: int| 0 <= a < perm.len() implies 0 <= #[trigger] perm[a] < inp.len() && out[a]
        == inp[perm[a]] by {
        if a < j {
            assert(perm[a] == old_perm[a]);
            assert(out[a] == old_out[a]);
        } else if a == j {
        } else {
            assert(perm[a] == old_perm[a - 1]);
            assert(out[a] == old_out[a - 1]);
        }
    }
    assert forall|a: int, b: int| 0 <= a < b < perm.len() implies #[trigger] perm[a]
        != #[trigger] perm[b] by {
        let pa = if a < j { a } else if a == j { -1 } else { a - 1 };
        let pb = if b < j { b } else if b == j { -1 } else { b - 1 };
        if a != j && b != j {
            assert(perm[a] == old_perm[pa]);
            assert(perm[b] == old_perm[pb]);
            assert(old_perm[pa] != old_perm[pb]);
        } else if a == j {
            assert(perm[b] == old_perm[pb]);
            assert(old_perm[pb] < i);
        } else {
            assert(perm[a] == old_perm[pa]);
            assert(old_perm[pa] < i);
        }
    }
    assert forall|a: int, b: int| 0 <= a < b < out.len() implies !item_lt(
        o,
        #[trigger] out[b],
        #[trigger] out[a],
    ) by {
        let pa = if a < j { a } else { a - 1 };
        let pb = if b < j { b } else { b - 1 };
        if a != j && b != j {
            assert(out[a] == old_out[pa]);
            assert(out[b] == old_out[pb]);
            assert(pa < pb);
        } else if a == j {
            // x before old_out[pb], pb >= j
            assert(out[b] == old_out[pb]);
            assert(pb >= j);
            lemma_item_lt_facts(o, old_out[pb], x, old_out[j]);
            lemma_item_lt_facts(o, old_out[pb], old_out[j], x);
            if pb > j {
                assert(!item_lt(o, old_out[pb], old_out[j]));
            }
        } else {
            assert(out[a] == old_out[pa]);
            assert(pa < j);
        }
    }
    assert forall|a: int, b: int| 0 <= a < b < out.len() && !item_lt(
        o,
        #[trigger] out[a],
        #[trigger] out[b],
    ) implies perm[a] < perm[b] by {
        let pa = if a < j { a } else { a - 1 };
        let pb = if b < j { b } else { b - 1 };
        if a != j && b != j {
            assert(out[a] == old_out[pa]);
            assert(out[b] == old_out[pb]);
            assert(perm[a] == old_perm[pa]);
            assert(perm[b] == old_perm[pb]);
        } else if a == j {
            // x strictly before everything from j on
            assert(out[b] == old_out[pb]);
            assert(pb >= j);
            assert(out[a] == x);
            if pb > j {
                assert(!item_lt(o, old_out[pb], old_out[j]));
                lemma_item_lt_facts(o, x, old_out[pb], old_out[j]);
            }
        } else {
            assert(perm[b] == i);
            assert(perm[a] == old_perm[pa]);
            assert(old_perm[pa] < i);
        }
    }
}

} // verus!
