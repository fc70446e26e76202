//! Building one flat record per enumerated item. A materialized snapshot of
//! an item maps each category the source supplied to the outcome of fetching
//! its group: present, absent, or failed in transport. The aggregator
//! resolves every requested category against the snapshot with the default
//! fallback chain; absence yields an empty string and a transport failure is
//! substituted by a sentinel entry (locale `"Error"`, text the description)
//! and resolved like any group, so that one bad font never aborts a pass.

use vstd::prelude::*;

use crate::attributes::ScalarAttributes;
use crate::category::NamedCategory;
use crate::localized_strings::{LocalizedString, LocalizedStringView, StringGroup};
use crate::resolve::{
    default_locale_priority, default_priority_spec, lemma_resolve_no_match, resolve, resolve_spec,
};

verus! {

/// The mathematical value of a [`GroupFetch`].
pub ghost enum GroupFetchView {
    Absent,
    Present(Seq<LocalizedStringView>),
    Failure(Seq<char>),
}

/// The outcome of fetching one category's string group from the upstream
/// source: the category is supported and a group came back; the category is
/// not supported by the item (a normal outcome, not an error); or the
/// platform call itself failed, with a description of the failure.
pub enum GroupFetch {
    Present(StringGroup),
    Absent,
    Failure(String),
}

impl View for GroupFetch {
    type V = GroupFetchView;

    open spec fn view(&self) -> GroupFetchView {
        match self {
            GroupFetch::Present(g) => GroupFetchView::Present(g@),
            GroupFetch::Absent => GroupFetchView::Absent,
            GroupFetch::Failure(m) => GroupFetchView::Failure(m@),
        }
    }
}

/// A materialized snapshot of one enumerated item: what fetching each
/// supplied category returned, together with the item's scalar attributes
/// and its backing file path where the source could give one.
pub struct ItemSource {
    pub groups: Vec<(NamedCategory, GroupFetch)>,
    pub attributes: ScalarAttributes,
    pub filepath: Option<String>,
}

/// The outcome the snapshot holds for a category: that of its first entry
/// for the category, or absence when no entry mentions it.
pub open spec fn lookup_spec(
    entries: Seq<(NamedCategory, GroupFetch)>,
    category: NamedCategory,
) -> GroupFetchView
    decreases entries.len(),
{
    if entries.len() == 0 {
        GroupFetchView::Absent
    } else if entries[0].0 == category {
        entries[0].1@
    } else {
        lookup_spec(entries.drop_first(), category)
    }
}

/// The string a record holds for a category: the resolved group where one
/// came back, the empty string where the category is absent, and the failure
/// description where transport failed.
pub open spec fn resolved_name_spec(
    entries: Seq<(NamedCategory, GroupFetch)>,
    category: NamedCategory,
) -> Seq<char> {
    match lookup_spec(entries, category) {
        GroupFetchView::Absent => Seq::<char>::empty(),
        GroupFetchView::Present(g) => resolve_spec(g, default_priority_spec()),
        GroupFetchView::Failure(m) => m,
    }
}

impl ItemSource {
    /// The fetch outcome this snapshot holds for `category`: `None` when no
    /// entry mentions the category, which reads as absence.
    pub fn get_group(&self, category: NamedCategory) -> (r: Option<&GroupFetch>)
        ensures
            match r {
                Some(f) => f@ == lookup_spec(self.groups@, category),
                None => lookup_spec(self.groups@, category) == GroupFetchView::Absent,
            },
    {
        let ghost entries = self.groups@;
        let mut i: usize = 0;
        proof {
            assert(entries.skip(0) =~= entries);
        }
        while i < self.groups.len()
            invariant
                i <= self.groups.len(),
                entries == self.groups@,
                lookup_spec(entries, category) == lookup_spec(entries.skip(i as int), category),
            decreases self.groups.len() - i,
        {
            proof {
                assert(entries.skip(i as int)[0] == entries[i as int]);
            }
            if self.groups[i].0 == category {
                return Some(&self.groups[i].1);
            }
            proof {
                assert(entries.skip(i as int).drop_first() =~= entries.skip(i + 1));
            }
            i = i + 1;
        }
        proof {
            assert(entries.skip(self.groups.len() as int).len() == 0);
        }
        None
    }
}

/// One flattened, exportable row for one enumerated item: exactly one
/// resolved string per requested category, in the requested order, plus the
/// item's non-localized attributes and file path.
pub struct ResolvedRecord {
    pub names: Vec<(NamedCategory, String)>,
    pub attributes: ScalarAttributes,
    pub filepath: Option<String>,
}

impl ResolvedRecord {
    /// The resolved string this record holds for `category`: that of the
    /// first matching entry, or `None` when the category was not requested.
    pub fn get(&self, category: NamedCategory) -> (r: Option<&String>)
        ensures
            match r {
                Some(s) => exists|i: int|
                    {
                        &&& 0 <= i < self.names@.len()
                        &&& (#[trigger] self.names@[i]).0 == category
                        &&& s == &self.names@[i].1
                        &&& forall|k: int| 0 <= k < i ==> self.names@[k].0 != category
                    },
                None => forall|k: int|
                    0 <= k < self.names@.len() ==> (#[trigger] self.names@[k]).0 != category,
            },
    {
        let mut i: usize = 0;
        while i < self.names.len()
            invariant
                i <= self.names.len(),
                forall|k: int| 0 <= k < i ==> (#[trigger] self.names@[k]).0 != category,
            decreases self.names.len() - i,
        {
            if self.names[i].0 == category {
                return Some(&self.names[i].1);
            }
            i = i + 1;
        }
        None
    }
}

/// Builds the record for one item: every requested category appears in the
/// output exactly once, in the requested order, whatever the snapshot holds —
/// resolved with the default fallback chain where a group came back, the
/// empty string where the category is absent, and the transport failure's
/// description (via the sentinel `"Error"` entry) where the fetch failed.
pub fn aggregate(source: &ItemSource, categories: &Vec<NamedCategory>) -> (r: ResolvedRecord)
    ensures
        r.names@.len() == categories@.len(),
        forall|i: int|
            0 <= i < categories@.len() ==> (#[trigger] r.names@[i]).0 == categories@[i],
        forall|i: int|
            0 <= i < categories@.len() ==> (#[trigger] r.names@[i]).1@ == resolved_name_spec(
                source.groups@,
                categories@[i],
            ),
        r.attributes == source.attributes,
        r.filepath == source.filepath,
{
    let chain = default_locale_priority();
    let mut names: Vec<(NamedCategory, String)> = Vec::new();
    let mut i: usize = 0;
    while i < categories.len()
        invariant
            i <= categories.len(),
            chain.deep_view() == default_priority_spec(),
            names@.len() == i as int,
            forall|k: int| 0 <= k < i ==> (#[trigger] names@[k]).0 == categories@[k],
            forall|k: int|
                0 <= k < i ==> (#[trigger] names@[k]).1@ == resolved_name_spec(
                    source.groups@,
                    categories@[k],
                ),
        decreases categories.len() - i,
    {
        let category = categories[i];
        let value: String = match source.get_group(category) {
            None => String::new(),
            Some(fetch) => match fetch {
                GroupFetch::Absent => String::new(),
                GroupFetch::Present(group) => resolve(group, &chain),
                GroupFetch::Failure(message) => {
                    let mut sentinel = StringGroup::new();
                    sentinel.push(LocalizedString::new(message.clone(), "Error".to_owned()));
                    let resolved = resolve(&sentinel, &chain);
                    proof {
                        reveal_strlit("Error");
                        reveal_strlit("ja-jp");
                        reveal_strlit("en-us");
                        assert(sentinel@.len() == 1);
                        assert(sentinel@[0].locale == "Error"@);
                        assert("Error"@[0] != "ja-jp"@[0]);
                        assert("Error"@[0] != "en-us"@[0]);
                        assert(forall|k: int|
                            0 <= k < default_priority_spec().len()
                                ==> !crate::resolve::group_has_tag(
                                sentinel@,
                                default_priority_spec()[k],
                            ));
                        lemma_resolve_no_match(sentinel@, default_priority_spec());
                    }
                    resolved
                },
            },
        };
        names.push((category, value));
        i = i + 1;
    }
    let filepath: Option<String> = match &source.filepath {
        Some(p) => Some(p.clone()),
        None => None,
    };
    ResolvedRecord { names, attributes: source.attributes, filepath }
}

} // verus!
