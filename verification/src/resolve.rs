//! Reduction of a [`StringGroup`] to the single best display string under a
//! locale fallback chain: each chain tag is tried in order, and the first tag
//! carried by any entry wins, resolved to the text of the group's first entry
//! with that tag. When no tag matches, the text of the group's first entry in
//! original order is the answer; an empty group resolves to the empty string.
//! Resolution never fails: a missing locale is a normal negative result.

use vstd::prelude::*;

use crate::localized_strings::{LocalizedStringView, StringGroup};

verus! {

/// Whether any entry of `g` carries the locale tag `tag`.
pub open spec fn group_has_tag(g: Seq<LocalizedStringView>, tag: Seq<char>) -> bool {
    exists|i: int| 0 <= i < g.len() && g[i].locale == tag
}

/// The least index of an entry carrying `tag`, or `g.len()` when none does.
pub open spec fn first_match(g: Seq<LocalizedStringView>, tag: Seq<char>) -> int
    decreases g.len(),
{
    if g.len() == 0 {
        0
    } else if g[0].locale == tag {
        0
    } else {
        1 + first_match(g.drop_first(), tag)
    }
}

/// `first_match` is a valid index exactly when the tag occurs, and is then
/// the least index carrying it.
pub proof fn lemma_first_match_properties(g: Seq<LocalizedStringView>, tag: Seq<char>)
    ensures
        0 <= first_match(g, tag) <= g.len(),
        first_match(g, tag) < g.len() <==> group_has_tag(g, tag),
        first_match(g, tag) < g.len() ==> g[first_match(g, tag)].locale == tag,
        forall|k: int| 0 <= k < first_match(g, tag) ==> g[k].locale != tag,
    decreases g.len(),
{
    if g.len() == 0 {
    } else if g[0].locale == tag {
    } else {
        let dl = g.drop_first();
        lemma_first_match_properties(dl, tag);
        assert forall|k: int| 0 <= k < first_match(g, tag) implies g[k].locale != tag by {
            if k > 0 {
                assert(dl[k - 1] == g[k]);
            }
        }
        if group_has_tag(g, tag) {
            let i = choose|i: int| 0 <= i < g.len() && g[i].locale == tag;
            assert(dl[i - 1] == g[i]);
            assert(group_has_tag(dl, tag));
        }
        if group_has_tag(dl, tag) {
            let i = choose|i: int| 0 <= i < dl.len() && dl[i].locale == tag;
            assert(g[i + 1] == dl[i]);
        }
    }
}

/// What resolution returns: the text of the first entry carrying the first
/// chain tag carried by any entry; failing every tag, the text of the entry
/// at index zero; for an empty group, the empty string.
pub open spec fn resolve_spec(g: Seq<LocalizedStringView>, chain: Seq<Seq<char>>) -> Seq<char>
    decreases chain.len(),
{
    if chain.len() == 0 {
        if g.len() == 0 {
            Seq::<char>::empty()
        } else {
            g[0].string
        }
    } else if group_has_tag(g, chain[0]) {
        g[first_match(g, chain[0])].string
    } else {
        resolve_spec(g, chain.drop_first())
    }
}

/// An empty group resolves to the empty string, whatever the chain.
pub proof fn lemma_resolve_empty(chain: Seq<Seq<char>>)
    ensures
        resolve_spec(Seq::<LocalizedStringView>::empty(), chain) == Seq::<char>::empty(),
    decreases chain.len(),
{
    if chain.len() > 0 {
        lemma_resolve_empty(chain.drop_first());
    }
}

/// When no chain tag is carried by any entry of a non-empty group, resolution
/// falls back to the text of the group's first entry, in original order.
pub proof fn lemma_resolve_no_match(g: Seq<LocalizedStringView>, chain: Seq<Seq<char>>)
    requires
        g.len() > 0,
        forall|k: int| 0 <= k < chain.len() ==> !group_has_tag(g, chain[k]),
    ensures
        resolve_spec(g, chain) == g[0].string,
    decreases chain.len(),
{
    if chain.len() > 0 {
        assert forall|k: int| 0 <= k < chain.drop_first().len() implies !group_has_tag(
            g,
            chain.drop_first()[k],
        ) by {
            assert(chain.drop_first()[k] == chain[k + 1]);
        }
        lemma_resolve_no_match(g, chain.drop_first());
    }
}

/// Resolution picks the first chain tag that has any match, and among the
/// entries carrying that tag, the first in the group's original order — even
/// when several entries share the tag.
pub proof fn lemma_resolve_first_match(
    g: Seq<LocalizedStringView>,
    chain: Seq<Seq<char>>,
    k: int,
)
    requires
        0 <= k < chain.len(),
        group_has_tag(g, chain[k]),
        forall|j: int| 0 <= j < k ==> !group_has_tag(g, chain[j]),
    ensures
        resolve_spec(g, chain) == g[first_match(g, chain[k])].string,
        0 <= first_match(g, chain[k]) < g.len(),
        g[first_match(g, chain[k])].locale == chain[k],
        forall|m: int| 0 <= m < first_match(g, chain[k]) ==> g[m].locale != chain[k],
    decreases k,
{
    lemma_first_match_properties(g, chain[k]);
    if k == 0 {
    } else {
        assert(!group_has_tag(g, chain[0]));
        assert forall|j: int| 0 <= j < k - 1 implies !group_has_tag(
            g,
            chain.drop_first()[j],
        ) by {
            assert(chain.drop_first()[j] == chain[j + 1]);
        }
        assert(chain.drop_first()[k - 1] == chain[k]);
        lemma_resolve_first_match(g, chain.drop_first(), k - 1);
    }
}

/// Resolves a group to its best display string under the fallback chain.
/// Never fails: a chain tag missing from the group is a normal negative
/// result, and even an empty group resolves (to the empty string).
pub fn resolve(group: &StringGroup, chain: &Vec<String>) -> (r: String)
    ensures
        r@ == resolve_spec(group@, chain.deep_view()),
{
    let ghost cv = chain.deep_view();
    let mut i: usize = 0;
    proof {
        assert(cv.skip(0) =~= cv);
    }
    while i < chain.len()
        invariant
            i <= chain.len(),
            cv == chain.deep_view(),
            cv.len() == chain.len(),
            resolve_spec(group@, cv) == resolve_spec(group@, cv.skip(i as int)),
        decreases chain.len() - i,
    {
        proof {
            assert(cv.skip(i as int)[0] == cv[i as int]);
        }
        match group.get(chain[i].as_str()) {
            Some(s) => {
                proof {
                    let m = choose|m: int|
                        {
                            &&& 0 <= m < group@.len()
                            &&& group@[m].locale == cv[i as int]
                            &&& s@ == group@[m].string
                            &&& forall|k: int| 0 <= k < m ==> group@[k].locale != cv[i as int]
                        };
                    lemma_first_match_properties(group@, cv[i as int]);
                    assert(group_has_tag(group@, cv[i as int]));
                    let f = first_match(group@, cv[i as int]);
                    assert(group@[f].locale == cv[i as int]);
                    assert(f <= m);
                    assert(m <= f);
                }
                return s;
            },
            None => {
                proof {
                    assert(!group_has_tag(group@, cv[i as int]));
                    assert(cv.skip(i as int).drop_first() =~= cv.skip(i + 1));
                }
            },
        }
        i = i + 1;
    }
    proof {
        assert(cv.skip(chain.len() as int).len() == 0);
    }
    if group.get_count() > 0 {
        group.get_string(0).clone()
    } else {
        String::new()
    }
}

/// The locale priority used throughout this crate where a caller supplies
/// none: Japanese first, then American English.
pub open spec fn default_priority_spec() -> Seq<Seq<char>> {
    seq!["ja-jp"@, "en-us"@]
}

/// Builds the default two-tag locale priority list, usable both as a
/// collation priority and as a resolution fallback chain.
pub fn default_locale_priority() -> (r: Vec<String>)
    ensures
        r.deep_view() == default_priority_spec(),
{
    let mut r: Vec<String> = Vec::new();
    r.push("ja-jp".to_owned());
    r.push("en-us".to_owned());
    proof {
        assert(r.deep_view() =~= default_priority_spec());
    }
    r
}

} // verus!
