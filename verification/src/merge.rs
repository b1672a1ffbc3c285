//! The merged stream's correctness statement, over mathematical sequences.
//!
//! A complete drain of the merged stream is an interleaving of the item
//! sequences the individual sources forwarded: some assignment of stream
//! positions to sources explains every received item. The laws below state
//! what that leaves fixed for the reader: nothing arrives when there is no
//! source, every source's items arrive exactly as often as they were
//! emitted, and each source's items arrive in that source's own emission
//! order. No law relates items of different sources: their interleaving is
//! a race, and these laws are everything the race cannot change.

use vstd::prelude::*;

verus! {

/// What source `j` contributed to a merged stream, under the assignment
/// `owner` of stream positions to sources: the items of `merged` at the
/// positions assigned to `j`, in stream order.
pub open spec fn contribution<T>(merged: Seq<T>, owner: Seq<int>, j: int) -> Seq<T>
    decreases merged.len(),
{
    if merged.len() == 0 {
        Seq::empty()
    } else if owner[0] == j {
        seq![merged[0]] + contribution(merged.skip(1), owner.skip(1), j)
    } else {
        contribution(merged.skip(1), owner.skip(1), j)
    }
}

/// `owner` explains `merged` as an interleaving of `parts`: it assigns every
/// stream position to one source, and what each source contributed under it
/// is exactly that source's own item sequence.
pub open spec fn merge_witness<T>(merged: Seq<T>, parts: Seq<Seq<T>>, owner: Seq<int>) -> bool {
    &&& owner.len() == merged.len()
    &&& (forall|i: int| #![trigger owner[i]] 0 <= i < owner.len() ==> owner[i] >= 0 && owner[i] < parts.len())
    &&& (forall|j: int| 0 <= j < parts.len() ==> #[trigger] parts[j] == contribution(merged, owner, j))
}

/// `merged` is an interleaving of `parts`: some assignment of stream
/// positions to sources explains it.
pub open spec fn is_merge_of<T>(merged: Seq<T>, parts: Seq<Seq<T>>) -> bool {
    exists|owner: Seq<int>| merge_witness(merged, parts, owner)
}

/// `s` occurs inside `t` in order: erasing some items of `t` leaves `s`.
pub open spec fn is_subsequence_of<T>(s: Seq<T>, t: Seq<T>) -> bool
    decreases t.len(),
{
    if s.len() == 0 {
        true
    } else if t.len() == 0 {
        false
    } else if s[0] == t[0] {
        is_subsequence_of(s.skip(1), t.skip(1))
    } else {
        is_subsequence_of(s, t.skip(1))
    }
}

/// How many positions of `s` hold `x`.
pub open spec fn count_of<T>(s: Seq<T>, x: T) -> nat
    decreases s.len(),
{
    if s.len() == 0 {
        0
    } else {
        (if s[0] == x { 1nat } else { 0nat }) + count_of(s.skip(1), x)
    }
}

/// How many positions of all the `parts` together hold `x`.
pub open spec fn total_count_of<T>(parts: Seq<Seq<T>>, x: T) -> nat
    decreases parts.len(),
{
    if parts.len() == 0 {
        0
    } else {
        count_of(parts[0], x) + total_count_of(parts.skip(1), x)
    }
}

/// Law: a merge of no sources yields no item — the merged stream of an
/// empty source collection reports exhaustion without ever holding anything.
pub proof fn lemma_merge_of_none_is_empty<T>(merged: Seq<T>, parts: Seq<Seq<T>>)
    requires
        is_merge_of(merged, parts),
        parts.len() == 0,
    ensures
        merged.len() == 0,
{
    let owner = choose|owner: Seq<int>| merge_witness(merged, parts, owner);
    if merged.len() > 0 {
        lemma_witness_bounds(merged, parts, owner, 0);
    }
}

/// Law: a merged stream loses nothing and duplicates nothing — every value
/// occurs in it exactly as often as it occurs across all sources together.
pub proof fn lemma_merge_is_exact<T>(merged: Seq<T>, parts: Seq<Seq<T>>, x: T)
    requires
        is_merge_of(merged, parts),
    ensures
        count_of(merged, x) == total_count_of(parts, x),
{
    let owner = choose|owner: Seq<int>| merge_witness(merged, parts, owner);
    lemma_exact_from_witness(merged, parts, owner, x);
}

/// Law: a merged stream keeps each source's own order — every source's item
/// sequence occurs in the merged stream exactly as that source emitted it.
pub proof fn lemma_merge_keeps_source_order<T>(merged: Seq<T>, parts: Seq<Seq<T>>, j: int)
    requires
        is_merge_of(merged, parts),
        0 <= j < parts.len(),
    ensures
        is_subsequence_of(parts[j], merged),
{
    let owner = choose|owner: Seq<int>| merge_witness(merged, parts, owner);
    lemma_order_from_witness(merged, parts, owner, j);
}

/// Law: a source that contributed nothing — one whose native side was closed
/// from the start, or that failed before emitting — leaves the merged stream
/// exactly as it would be without that source.
pub proof fn lemma_merge_ignores_empty_source<T>(merged: Seq<T>, parts: Seq<Seq<T>>)
    ensures
        is_merge_of(merged, parts.push(Seq::empty())) <==> is_merge_of(merged, parts),
{
    if is_merge_of(merged, parts.push(Seq::empty())) {
        let owner = choose|owner: Seq<int>| merge_witness(merged, parts.push(Seq::<T>::empty()), owner);
        lemma_witness_drops_empty_source(merged, parts, owner);
    }
    if is_merge_of(merged, parts) {
        let owner = choose|owner: Seq<int>| merge_witness(merged, parts, owner);
        lemma_witness_takes_empty_source(merged, parts, owner);
    }
}

proof fn lemma_witness_takes_empty_source<T>(merged: Seq<T>, parts: Seq<Seq<T>>, owner: Seq<int>)
    requires
        merge_witness(merged, parts, owner),
    ensures
        merge_witness(merged, parts.push(Seq::empty()), owner),
{
    let k = parts.len() as int;
    let grown = parts.push(Seq::<T>::empty());
    lemma_contribution_unassigned(merged, owner, k);
    assert(contribution(merged, owner, k) =~= Seq::<T>::empty());
    assert forall|j: int| 0 <= j < grown.len() implies #[trigger] grown[j] == contribution(merged, owner, j) by {
        if j < k {
            assert(parts[j] == contribution(merged, owner, j));
        }
    }
}

proof fn lemma_witness_drops_empty_source<T>(merged: Seq<T>, parts: Seq<Seq<T>>, owner: Seq<int>)
    requires
        merge_witness(merged, parts.push(Seq::empty()), owner),
    ensures
        merge_witness(merged, parts, owner),
{
    let k = parts.len() as int;
    let grown = parts.push(Seq::<T>::empty());
    assert forall|i: int| 0 <= i < owner.len() implies #[trigger] owner[i] != k by {
        if owner[i] == k {
            lemma_contribution_assigned(merged, owner, k, i);
            assert(grown[k] == contribution(merged, owner, k));
        }
    }
    assert forall|j: int| 0 <= j < parts.len() implies #[trigger] parts[j] == contribution(merged, owner, j) by {
        assert(grown[j] == contribution(merged, owner, j));
    }
}

/// A source no stream position is assigned to contributed nothing.
proof fn lemma_contribution_unassigned<T>(merged: Seq<T>, owner: Seq<int>, j: int)
    requires
        owner.len() == merged.len(),
        forall|i: int| #![trigger owner[i]] 0 <= i < owner.len() ==> owner[i] != j,
    ensures
        contribution(merged, owner, j).len() == 0,
    decreases merged.len(),
{
    if merged.len() > 0 {
        assert(owner[0] != j);
        let ow1 = owner.skip(1);
        assert(forall|i: int| #![trigger ow1[i]] 0 <= i < ow1.len() ==> ow1[i] != j);
        lemma_contribution_unassigned(merged.skip(1), ow1, j);
    }
}

/// A source some stream position is assigned to contributed something.
proof fn lemma_contribution_assigned<T>(merged: Seq<T>, owner: Seq<int>, j: int, i: int)
    requires
        owner.len() == merged.len(),
        0 <= i < owner.len(),
        owner[i] == j,
    ensures
        contribution(merged, owner, j).len() > 0,
    decreases merged.len(),
{
    if owner[0] != j {
        lemma_contribution_assigned(merged.skip(1), owner.skip(1), j, i - 1);
    }
}

/// Every stream position is assigned to one of the sources.
proof fn lemma_witness_bounds<T>(merged: Seq<T>, parts: Seq<Seq<T>>, owner: Seq<int>, i: int)
    requires
        merge_witness(merged, parts, owner),
        0 <= i < merged.len(),
    ensures
        0 <= owner[i] < parts.len(),
{
}

proof fn lemma_order_from_witness<T>(merged: Seq<T>, parts: Seq<Seq<T>>, owner: Seq<int>, j: int)
    requires
        merge_witness(merged, parts, owner),
        0 <= j < parts.len(),
    ensures
        is_subsequence_of(parts[j], merged),
{
    lemma_contribution_in_order(merged, owner, j);
}

/// What any source contributed occurs in the merged stream in order.
proof fn lemma_contribution_in_order<T>(merged: Seq<T>, owner: Seq<int>, j: int)
    ensures
        is_subsequence_of(contribution(merged, owner, j), merged),
    decreases merged.len(),
{
    if merged.len() == 0 {
    } else {
        lemma_contribution_in_order(merged.skip(1), owner.skip(1), j);
        let c = contribution(merged, owner, j);
        if owner[0] == j {
            assert(c.skip(1) =~= contribution(merged.skip(1), owner.skip(1), j));
            assert(c[0] == merged[0]);
        } else {
            lemma_subsequence_prepend(c, merged);
        }
    }
}

/// Extending the stream in front keeps an occurring sequence occurring.
proof fn lemma_subsequence_prepend<T>(s: Seq<T>, t: Seq<T>)
    requires
        t.len() > 0,
        is_subsequence_of(s, t.skip(1)),
    ensures
        is_subsequence_of(s, t),
    decreases t.len(), 0int,
{
    if s.len() == 0 {
    } else if s[0] == t[0] {
        lemma_subsequence_skip_first(s, t.skip(1));
    }
}

/// Dropping the first item of an occurring sequence keeps the rest occurring.
proof fn lemma_subsequence_skip_first<T>(s: Seq<T>, t: Seq<T>)
    requires
        s.len() > 0,
        is_subsequence_of(s, t),
    ensures
        is_subsequence_of(s.skip(1), t),
    decreases t.len(), 1int,
{
    if t.len() == 0 {
    } else if s[0] == t[0] {
        lemma_subsequence_prepend(s.skip(1), t);
    } else {
        lemma_subsequence_skip_first(s, t.skip(1));
        lemma_subsequence_prepend(s.skip(1), t);
    }
}

/// The contributions of the first `k` sources, as a part collection.
spec fn contributions<T>(merged: Seq<T>, owner: Seq<int>, k: int) -> Seq<Seq<T>> {
    Seq::new(k as nat, |j: int| contribution(merged, owner, j))
}

proof fn lemma_exact_from_witness<T>(merged: Seq<T>, parts: Seq<Seq<T>>, owner: Seq<int>, x: T)
    requires
        merge_witness(merged, parts, owner),
    ensures
        count_of(merged, x) == total_count_of(parts, x),
{
    lemma_count_from_witness(merged, owner, parts.len() as int, x);
    assert(contributions(merged, owner, parts.len() as int) =~= parts);
}

/// Counting the stream equals summing the counts of all contributions.
proof fn lemma_count_from_witness<T>(merged: Seq<T>, owner: Seq<int>, k: int, x: T)
    requires
        owner.len() == merged.len(),
        k >= 0,
        forall|i: int| #![trigger owner[i]] 0 <= i < owner.len() ==> owner[i] >= 0 && owner[i] < k,
    ensures
        count_of(merged, x) == total_count_of(contributions(merged, owner, k), x),
    decreases merged.len(),
{
    let p1 = contributions(merged, owner, k);
    if merged.len() == 0 {
        assert(forall|j: int| 0 <= j < p1.len() ==> #[trigger] p1[j].len() == 0);
        lemma_total_count_empty(p1, x);
    } else {
        let o = owner[0];
        let m1 = merged.skip(1);
        let ow1 = owner.skip(1);
        assert(forall|i: int| #![trigger ow1[i]] 0 <= i < ow1.len() ==> ow1[i] >= 0 && ow1[i] < k);
        lemma_count_from_witness(m1, ow1, k, x);
        let p2 = contributions(m1, ow1, k);
        assert(p1[o] == seq![merged[0]] + p2[o]);
        assert(forall|j: int| 0 <= j < p1.len() && j != o ==> #[trigger] p1[j] == p2[j]);
        lemma_total_count_cons_at(p1, p2, o, merged[0], x);
    }
}

/// A collection of empty parts holds nothing.
proof fn lemma_total_count_empty<T>(parts: Seq<Seq<T>>, x: T)
    requires
        forall|j: int| 0 <= j < parts.len() ==> #[trigger] parts[j].len() == 0,
    ensures
        total_count_of(parts, x) == 0,
    decreases parts.len(),
{
    if parts.len() > 0 {
        assert(parts[0].len() == 0);
        assert(forall|j: int| 0 <= j < parts.skip(1).len() ==> #[trigger] parts.skip(1)[j].len() == 0);
        lemma_total_count_empty(parts.skip(1), x);
    }
}

/// Counting distributes over placing one item in front.
proof fn lemma_count_cons<T>(e: T, s: Seq<T>, x: T)
    ensures
        count_of(seq![e] + s, x) == (if e == x { 1nat } else { 0nat }) + count_of(s, x),
{
    let c = seq![e] + s;
    assert(c[0] == e);
    assert(c.skip(1) =~= s);
}

/// Two part collections that agree everywhere except at position `o`, where
/// the first has one extra item `e` in front, differ in total count exactly
/// by that item.
proof fn lemma_total_count_cons_at<T>(parts1: Seq<Seq<T>>, parts2: Seq<Seq<T>>, o: int, e: T, x: T)
    requires
        parts1.len() == parts2.len(),
        0 <= o < parts1.len(),
        parts1[o] == seq![e] + parts2[o],
        forall|j: int| 0 <= j < parts1.len() && j != o ==> #[trigger] parts1[j] == parts2[j],
    ensures
        total_count_of(parts1, x) == (if e == x { 1nat } else { 0nat }) + total_count_of(parts2, x),
    decreases parts1.len(),
{
    if o == 0 {
        lemma_count_cons(e, parts2[0], x);
        assert(parts1.skip(1) =~= parts2.skip(1));
    } else {
        assert(parts1[0] == parts2[0]);
        let t1 = parts1.skip(1);
        let t2 = parts2.skip(1);
        assert(t1[o - 1] == seq![e] + t2[o - 1]);
        assert(forall|j: int| 0 <= j < t1.len() && j != o - 1 ==> #[trigger] t1[j] == t2[j]);
        lemma_total_count_cons_at(t1, t2, o - 1, e, x);
    }
}

} // verus!
