//! The value types: one localized spelling of a name, and a group of them.

use vstd::prelude::*;

use crate::text::str_eq;

verus! {

/// The mathematical value of a [`LocalizedString`]: the two character
/// sequences its fields view to.
pub ghost struct LocalizedStringView {
    pub string: Seq<char>,
    pub locale: Seq<char>,
}

/// One localized spelling of a name: a text and the BCP-47-like locale tag it
/// is written for, such as `"en-us"` or `"ja-jp"`. The tag may also be an
/// implementation-defined sentinel such as `"Error"`, carrying a failure
/// description in `string` (see [`crate::aggregate`]).
///
/// A plain immutable value; a group may hold several entries with the same
/// locale tag, and nothing here forbids that.
pub struct LocalizedString {
    pub string: String,
    pub locale: String,
}

impl View for LocalizedString {
    type V = LocalizedStringView;

    open spec fn view(&self) -> LocalizedStringView {
        LocalizedStringView { string: self.string@, locale: self.locale@ }
    }
}

impl DeepView for LocalizedString {
    type V = LocalizedStringView;

    open spec fn deep_view(&self) -> LocalizedStringView {
        self.view()
    }
}

impl Clone for LocalizedString {
    fn clone(&self) -> (r: Self)
        ensures
            r == *self,
    {
        LocalizedString { string: self.string.clone(), locale: self.locale.clone() }
    }
}

impl LocalizedString {
    /// Builds an entry from its two parts.
    pub fn new(string: String, locale: String) -> (r: Self)
        ensures
            r@.string == string@,
            r@.locale == locale@,
    {
        LocalizedString { string, locale }
    }
}

/// All localized spellings of one semantic name for one item, in the order
/// the upstream source yielded them. The order is not assumed sorted until
/// the group is passed through [`crate::collate::collate`].
pub struct StringGroup {
    pub entries: Vec<LocalizedString>,
}

impl View for StringGroup {
    type V = Seq<LocalizedStringView>;

    open spec fn view(&self) -> Seq<LocalizedStringView> {
        self.entries.deep_view()
    }
}

impl Clone for StringGroup {
    fn clone(&self) -> (r: Self)
        ensures
            r@ == self@,
    {
        let mut entries: Vec<LocalizedString> = Vec::new();
        let mut i: usize = 0;
        while i < self.entries.len()
            invariant
                i <= self.entries.len(),
                entries@.len() == i as int,
                forall|k: int| 0 <= k < i ==> entries@[k] == self.entries@[k],
            decreases self.entries.len() - i,
        {
            entries.push(self.entries[i].clone());
            i = i + 1;
        }
        proof {
            assert(entries@ =~= self.entries@);
        }
        StringGroup { entries }
    }
}

impl StringGroup {
    /// The empty group.
    pub fn new() -> (r: Self)
        ensures
            r@ == Seq::<LocalizedStringView>::empty(),
    {
        let entries: Vec<LocalizedString> = Vec::new();
        proof {
            assert(entries.deep_view() =~= Seq::<LocalizedStringView>::empty());
        }
        StringGroup { entries }
    }

    /// Builds a group from entries, keeping their order.
    pub fn from_entries(entries: Vec<LocalizedString>) -> (r: Self)
        ensures
            r@ == entries.deep_view(),
    {
        StringGroup { entries }
    }

    /// Appends one entry at the end.
    pub fn push(&mut self, entry: LocalizedString)
        ensures
            final(self)@ == old(self)@.push(entry@),
    {
        self.entries.push(entry);
        proof {
            assert(self.entries.deep_view() =~= old(self).entries.deep_view().push(
                self.entries@.last().deep_view(),
            ));
        }
    }

    /// How many entries the group holds.
    pub fn get_count(&self) -> (n: usize)
        ensures
            n == self@.len(),
    {
        self.entries.len()
    }

    /// The text of the entry at `index`.
    pub fn get_string(&self, index: usize) -> (s: &String)
        requires
            index < self@.len(),
        ensures
            s@ == self@[index as int].string,
    {
        &self.entries[index].string
    }

    /// The locale tag of the entry at `index`.
    pub fn get_locale_name(&self, index: usize) -> (s: &String)
        requires
            index < self@.len(),
        ensures
            s@ == self@[index as int].locale,
    {
        &self.entries[index].locale
    }

    /// The index of the first entry whose locale tag equals `locale` exactly
    /// (case-sensitive), or `None` when no entry carries that tag.
    pub fn find_locale_name(&self, locale: &str) -> (r: Option<usize>)
        ensures
            match r {
                Some(i) => {
                    &&& i < self@.len()
                    &&& self@[i as int].locale == locale@
                    &&& forall|k: int| 0 <= k < i ==> self@[k].locale != locale@
                },
                None => forall|k: int| 0 <= k < self@.len() ==> self@[k].locale != locale@,
            },
    {
        let mut i: usize = 0;
        while i < self.entries.len()
            invariant
                i <= self@.len(),
                self@.len() == self.entries.len(),
                forall|k: int| 0 <= k < i ==> self@[k].locale != locale@,
            decreases self@.len() - i,
        {
            if str_eq(self.entries[i].locale.as_str(), locale) {
                return Some(i);
            }
            i = i + 1;
        }
        None
    }

    /// The text of the first entry with the given locale tag, or `None` when
    /// the group has no entry for that tag. A missing tag is a normal
    /// negative result, not an error.
    pub fn get(&self, locale: &str) -> (r: Option<String>)
        ensures
            match r {
                Some(s) => exists|i: int|
                    {
                        &&& 0 <= i < self@.len()
                        &&& self@[i].locale == locale@
                        &&& s@ == self@[i].string
                        &&& forall|k: int| 0 <= k < i ==> self@[k].locale != locale@
                    },
                None => forall|k: int| 0 <= k < self@.len() ==> self@[k].locale != locale@,
            },
    {
        match self.find_locale_name(locale) {
            Some(index) => Some(self.entries[index].string.clone()),
            None => None,
        }
    }
}

} // verus!
