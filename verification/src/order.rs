//! The collation order on localized strings: entries whose locale tag stands
//! earlier in a caller-supplied priority list come first; entries matching no
//! priority tag follow, ordered by ordinal lexicographic comparison of their
//! locale tags. Ties (equal rank among prioritized entries, equal tags among
//! the rest) are left to the stable sort in [`crate::collate`].

use vstd::prelude::*;

use crate::localized_strings::{LocalizedString, LocalizedStringView};
use crate::text::{lemma_lex_le_total, lemma_lex_le_transitive, lex_le, str_eq, str_lex_le};

verus! {

/// The position of the first priority tag equal to `locale`, or
/// `priority.len()` when no priority tag matches.
pub open spec fn rank(locale: Seq<char>, priority: Seq<Seq<char>>) -> int
    decreases priority.len(),
{
    if priority.len() == 0 {
        0
    } else if priority[0] == locale {
        0
    } else {
        1 + rank(locale, priority.drop_first())
    }
}

/// `rank` is a valid index or `priority.len()`; where it is an index, it is
/// the least index whose tag equals `locale`.
pub proof fn lemma_rank_properties(locale: Seq<char>, priority: Seq<Seq<char>>)
    ensures
        0 <= rank(locale, priority) <= priority.len(),
        rank(locale, priority) < priority.len() ==> priority[rank(locale, priority)] == locale,
        forall|k: int| 0 <= k < rank(locale, priority) ==> priority[k] != locale,
    decreases priority.len(),
{
    if priority.len() == 0 {
    } else if priority[0] == locale {
    } else {
        lemma_rank_properties(locale, priority.drop_first());
        assert forall|k: int| 0 <= k < rank(locale, priority) implies priority[k] != locale by {
            if k > 0 {
                assert(priority.drop_first()[k - 1] == priority[k]);
            }
        }
    }
}

/// The collation order itself: `a` may stand at or before `b`. Lower rank
/// first; among entries beyond the priority list, lexicographically lesser
/// locale tags first; entries of one rank within the list are tied.
pub open spec fn entry_le(
    a: LocalizedStringView,
    b: LocalizedStringView,
    priority: Seq<Seq<char>>,
) -> bool {
    let ra = rank(a.locale, priority);
    let rb = rank(b.locale, priority);
    ||| ra < rb
    ||| (ra == rb && (ra < priority.len() || lex_le(a.locale, b.locale)))
}

/// Strictly after: `a` must stand after `b`.
pub open spec fn entry_gt(
    a: LocalizedStringView,
    b: LocalizedStringView,
    priority: Seq<Seq<char>>,
) -> bool {
    !entry_le(a, b, priority)
}

/// `entry_le` is total: any two entries are comparable.
pub proof fn lemma_entry_le_total(
    a: LocalizedStringView,
    b: LocalizedStringView,
    priority: Seq<Seq<char>>,
)
    ensures
        entry_le(a, b, priority) || entry_le(b, a, priority),
{
    lemma_rank_properties(a.locale, priority);
    lemma_rank_properties(b.locale, priority);
    lemma_lex_le_total(a.locale, b.locale);
}

/// `entry_le` is transitive.
pub proof fn lemma_entry_le_transitive(
    a: LocalizedStringView,
    b: LocalizedStringView,
    c: LocalizedStringView,
    priority: Seq<Seq<char>>,
)
    requires
        entry_le(a, b, priority),
        entry_le(b, c, priority),
    ensures
        entry_le(a, c, priority),
{
    if rank(a.locale, priority) == rank(b.locale, priority) && rank(b.locale, priority) == rank(
        c.locale,
        priority,
    ) && rank(a.locale, priority) >= priority.len() {
        lemma_lex_le_transitive(a.locale, b.locale, c.locale);
    }
}

/// Computes [`rank`]: how early `locale` stands in the priority list.
pub fn rank_of(locale: &String, priority: &Vec<String>) -> (r: usize)
    ensures
        r as int == rank(locale@, priority.deep_view()),
{
    let ghost pv = priority.deep_view();
    let mut i: usize = 0;
    proof {
        assert(pv.skip(0) =~= pv);
    }
    while i < priority.len()
        invariant
            i <= priority.len(),
            pv == priority.deep_view(),
            pv.len() == priority.len(),
            rank(locale@, pv) == i + rank(locale@, pv.skip(i as int)),
        decreases priority.len() - i,
    {
        proof {
            assert(pv.skip(i as int)[0] == pv[i as int]);
        }
        if str_eq(priority[i].as_str(), locale.as_str()) {
            return i;
        }
        proof {
            assert(pv.skip(i as int).drop_first() =~= pv.skip(i + 1));
        }
        i = i + 1;
    }
    proof {
        assert(pv.skip(priority.len() as int).len() == 0);
    }
    i
}

/// Decides [`entry_gt`]: must `a` stand strictly after `b` under `priority`?
pub fn entry_after(a: &LocalizedString, b: &LocalizedString, priority: &Vec<String>) -> (r: bool)
    ensures
        r == entry_gt(a@, b@, priority.deep_view()),
{
    let ra = rank_of(&a.locale, priority);
    let rb = rank_of(&b.locale, priority);
    if ra != rb {
        return ra > rb;
    }
    if ra < priority.len() {
        return false;
    }
    !str_lex_le(a.locale.as_str(), b.locale.as_str())
}

} // verus!
