//! Deterministic, stable reordering of a [`StringGroup`] by a locale priority
//! list: entries whose locale equals the first priority tag come first, then
//! entries matching the second tag, and so on; entries matching no tag follow,
//! ordered by their locale tags; entries that compare as ties keep their
//! original relative order. Collation never discards or invents entries.

use vstd::prelude::*;
use vstd::seq_lib::group_to_multiset_ensures;

use crate::localized_strings::{LocalizedString, LocalizedStringView, StringGroup};
use crate::order::{
    entry_after, entry_gt, entry_le, lemma_entry_le_total, lemma_entry_le_transitive, rank,
};

verus! {

/// Insertion of one entry into an already collated sequence: it passes over
/// every entry that must stand strictly after it, and stands behind all ties,
/// which keeps the sort stable.
pub open spec fn insert_sorted(
    e: LocalizedStringView,
    s: Seq<LocalizedStringView>,
    priority: Seq<Seq<char>>,
) -> Seq<LocalizedStringView>
    decreases s.len(),
{
    if s.len() == 0 {
        seq![e]
    } else if entry_gt(s.last(), e, priority) {
        insert_sorted(e, s.drop_last(), priority).push(s.last())
    } else {
        s.push(e)
    }
}

/// What collation returns: each entry of `g`, in order, inserted into the
/// collated front of the sequence.
pub open spec fn collate_spec(
    g: Seq<LocalizedStringView>,
    priority: Seq<Seq<char>>,
) -> Seq<LocalizedStringView>
    decreases g.len(),
{
    if g.len() == 0 {
        Seq::<LocalizedStringView>::empty()
    } else {
        insert_sorted(g.last(), collate_spec(g.drop_last(), priority), priority)
    }
}

/// The sequence is in collation order.
pub open spec fn sorted_by_priority(s: Seq<LocalizedStringView>, priority: Seq<Seq<char>>) -> bool {
    forall|i: int, j: int| 0 <= i < j < s.len() ==> entry_le(s[i], s[j], priority)
}

/// Inserting adds exactly one entry to the multiset of entries.
proof fn lemma_insert_sorted_multiset(
    e: LocalizedStringView,
    s: Seq<LocalizedStringView>,
    priority: Seq<Seq<char>>,
)
    ensures
        insert_sorted(e, s, priority).to_multiset() == s.to_multiset().insert(e),
    decreases s.len(),
{
    broadcast use group_to_multiset_ensures;

    if s.len() == 0 {
        assert(seq![e] =~= s.push(e));
    } else if entry_gt(s.last(), e, priority) {
        let dl = s.drop_last();
        lemma_insert_sorted_multiset(e, dl, priority);
        assert(s =~= dl.push(s.last()));
        assert(insert_sorted(e, s, priority).to_multiset() =~= dl.to_multiset().insert(e).insert(
            s.last(),
        ));
        assert(dl.to_multiset().insert(e).insert(s.last()) =~= dl.to_multiset().insert(
            s.last(),
        ).insert(e));
    }
}

/// Inserting into a collated sequence keeps it collated.
proof fn lemma_insert_sorted_sorted(
    e: LocalizedStringView,
    s: Seq<LocalizedStringView>,
    priority: Seq<Seq<char>>,
)
    requires
        sorted_by_priority(s, priority),
    ensures
        sorted_by_priority(insert_sorted(e, s, priority), priority),
    decreases s.len(),
{
    broadcast use group_to_multiset_ensures;

    if s.len() == 0 {
    } else if entry_gt(s.last(), e, priority) {
        let dl = s.drop_last();
        assert(sorted_by_priority(dl, priority));
        lemma_insert_sorted_sorted(e, dl, priority);
        lemma_insert_sorted_multiset(e, dl, priority);
        let r0 = insert_sorted(e, dl, priority);
        let r = insert_sorted(e, s, priority);
        assert(r == r0.push(s.last()));
        lemma_entry_le_total(s.last(), e, priority);
        assert forall|i: int, j: int| 0 <= i < j < r.len() implies entry_le(
            r[i],
            r[j],
            priority,
        ) by {
            if j < r.len() - 1 {
                assert(entry_le(r0[i], r0[j], priority));
            } else {
                let x = r0[i];
                assert(r0.contains(x));
                assert(r0.to_multiset().count(x) > 0);
                if x == e {
                    assert(entry_le(x, s.last(), priority));
                } else {
                    assert(dl.to_multiset().count(x) > 0);
                    assert(dl.contains(x));
                    let m = choose|m: int| 0 <= m < dl.len() && dl[m] == x;
                    assert(s[m] == x);
                    assert(entry_le(s[m], s.last(), priority));
                }
            }
        }
    } else {
        let r = s.push(e);
        assert forall|i: int, j: int| 0 <= i < j < r.len() implies entry_le(
            r[i],
            r[j],
            priority,
        ) by {
            if j == r.len() - 1 {
                if i < s.len() - 1 {
                    assert(entry_le(s[i], s.last(), priority));
                    lemma_entry_le_transitive(s[i], s.last(), e, priority);
                }
            }
        }
    }
}

/// Collation is a permutation: the multiset of entries is unchanged.
pub proof fn lemma_collate_permutation(g: Seq<LocalizedStringView>, priority: Seq<Seq<char>>)
    ensures
        collate_spec(g, priority).to_multiset() == g.to_multiset(),
    decreases g.len(),
{
    broadcast use group_to_multiset_ensures;

    if g.len() > 0 {
        let dl = g.drop_last();
        lemma_collate_permutation(dl, priority);
        lemma_insert_sorted_multiset(g.last(), collate_spec(dl, priority), priority);
        assert(g =~= dl.push(g.last()));
    }
}

/// Collation sorts: the result is in collation order.
pub proof fn lemma_collate_sorted(g: Seq<LocalizedStringView>, priority: Seq<Seq<char>>)
    ensures
        sorted_by_priority(collate_spec(g, priority), priority),
    decreases g.len(),
{
    if g.len() > 0 {
        let dl = g.drop_last();
        lemma_collate_sorted(dl, priority);
        lemma_insert_sorted_sorted(g.last(), collate_spec(dl, priority), priority);
    }
}

/// A sequence already in collation order collates to itself.
pub proof fn lemma_collate_sorted_identity(g: Seq<LocalizedStringView>, priority: Seq<Seq<char>>)
    requires
        sorted_by_priority(g, priority),
    ensures
        collate_spec(g, priority) == g,
    decreases g.len(),
{
    if g.len() == 0 {
        assert(collate_spec(g, priority) =~= g);
    } else {
        let dl = g.drop_last();
        assert(sorted_by_priority(dl, priority));
        lemma_collate_sorted_identity(dl, priority);
        if dl.len() == 0 {
            assert(collate_spec(g, priority) =~= g);
        } else {
            assert(entry_le(dl.last(), g.last(), priority));
            assert(collate_spec(g, priority) == dl.push(g.last()));
            assert(dl.push(g.last()) =~= g);
        }
    }
}

/// Collating a collated group changes nothing: collation is idempotent.
pub proof fn lemma_collate_idempotent(g: Seq<LocalizedStringView>, priority: Seq<Seq<char>>)
    ensures
        collate_spec(collate_spec(g, priority), priority) == collate_spec(g, priority),
{
    lemma_collate_sorted(g, priority);
    lemma_collate_sorted_identity(collate_spec(g, priority), priority);
}

/// In a collated group, every entry carrying the first priority tag stands
/// before every entry carrying the second, whenever the two tags differ.
pub proof fn lemma_collate_priority_precedence(
    g: Seq<LocalizedStringView>,
    priority: Seq<Seq<char>>,
)
    requires
        priority.len() >= 2,
        priority[0] != priority[1],
    ensures
        forall|i: int, j: int|
            {
                &&& 0 <= i < collate_spec(g, priority).len()
                &&& 0 <= j < collate_spec(g, priority).len()
                &&& collate_spec(g, priority)[i].locale == priority[0]
                &&& collate_spec(g, priority)[j].locale == priority[1]
            } ==> i < j,
{
    lemma_collate_sorted(g, priority);
    let out = collate_spec(g, priority);
    assert forall|i: int, j: int|
        {
            &&& 0 <= i < out.len()
            &&& 0 <= j < out.len()
            &&& out[i].locale == priority[0]
            &&& out[j].locale == priority[1]
        } implies i < j by {
        assert(rank(out[i].locale, priority) == 0);
        assert(priority.drop_first()[0] == priority[1]);
        assert(rank(out[j].locale, priority.drop_first()) == 0);
        assert(rank(out[j].locale, priority) == 1);
        if j < i {
            assert(entry_le(out[j], out[i], priority));
        }
    }
}

/// Where an entry lands: with everything from position `k` on strictly after
/// `e` and nothing before `k` strictly after it, inserting `e` splits the
/// sequence at `k`.
proof fn lemma_insert_sorted_split(
    e: LocalizedStringView,
    s: Seq<LocalizedStringView>,
    priority: Seq<Seq<char>>,
    k: int,
)
    requires
        0 <= k <= s.len(),
        forall|m: int| k <= m < s.len() ==> entry_gt(s[m], e, priority),
        k == 0 || !entry_gt(s[k - 1], e, priority),
    ensures
        insert_sorted(e, s, priority) == s.subrange(0, k).push(e) + s.subrange(k, s.len() as int),
    decreases s.len(),
{
    if s.len() == 0 {
        assert(insert_sorted(e, s, priority) =~= s.subrange(0, k).push(e) + s.subrange(
            k,
            s.len() as int,
        ));
    } else if k == s.len() {
        assert(!entry_gt(s.last(), e, priority));
        assert(s.push(e) =~= s.subrange(0, k).push(e) + s.subrange(k, s.len() as int));
    } else {
        assert(entry_gt(s.last(), e, priority));
        let dl = s.drop_last();
        lemma_insert_sorted_split(e, dl, priority, k);
        assert(dl.subrange(0, k) =~= s.subrange(0, k));
        assert(insert_sorted(e, s, priority) == (dl.subrange(0, k).push(e) + dl.subrange(
            k,
            dl.len() as int,
        )).push(s.last()));
        assert((s.subrange(0, k).push(e) + dl.subrange(k, dl.len() as int)).push(s.last()) =~= s
            .subrange(0, k).push(e) + s.subrange(k, s.len() as int));
    }
}

/// Collates a group by the given priority list: a stable reordering, never
/// discarding or adding entries. The result is `collate_spec` of the input,
/// hence a permutation of it (same multiset of entries) in collation order.
pub fn collate(group: &StringGroup, priority: &Vec<String>) -> (r: StringGroup)
    ensures
        r@ == collate_spec(group@, priority.deep_view()),
        r@.to_multiset() == group@.to_multiset(),
        sorted_by_priority(r@, priority.deep_view()),
{
    let ghost pv = priority.deep_view();
    let mut out: Vec<LocalizedString> = Vec::new();
    let mut i: usize = 0;
    proof {
        assert(out.deep_view() =~= collate_spec(group@.take(0), pv));
    }
    while i < group.entries.len()
        invariant
            i <= group.entries.len(),
            group@.len() == group.entries.len(),
            pv == priority.deep_view(),
            out.deep_view() == collate_spec(group@.take(i as int), pv),
        decreases group.entries.len() - i,
    {
        let e = group.entries[i].clone();
        proof {
            assert(e@ == group@[i as int]);
            lemma_collate_sorted(group@.take(i as int), pv);
        }
        let ghost before = out.deep_view();
        let mut k: usize = out.len();
        while k > 0 && entry_after(&out[k - 1], &e, priority)
            invariant
                k <= out.len(),
                pv == priority.deep_view(),
                out.deep_view() == before,
                before.len() == out.len(),
                forall|m: int| k <= m < before.len() ==> entry_gt(before[m], e@, pv),
            decreases k,
        {
            proof {
                assert(out.deep_view()[k - 1] == out@[k - 1]@);
            }
            k = k - 1;
        }
        proof {
            assert(k == 0 || !entry_gt(before[k - 1], e@, pv));
            lemma_insert_sorted_split(e@, before, pv, k as int);
        }
        out.insert(k, e);
        proof {
            assert(out.deep_view() =~= before.subrange(0, k as int).push(e@) + before.subrange(
                k as int,
                before.len() as int,
            ));
            assert(group@.take(i + 1).drop_last() =~= group@.take(i as int));
            assert(group@.take(i + 1).last() == group@[i as int]);
        }
        i = i + 1;
    }
    proof {
        assert(group@.take(group@.len() as int) =~= group@);
        lemma_collate_permutation(group@, pv);
        lemma_collate_sorted(group@, pv);
    }
    StringGroup { entries: out }
}

} // verus!
