//! The closed vocabulary of semantic name categories: which name of a font a
//! [`crate::localized_strings::StringGroup`] spells. Family and face names
//! come from their own platform calls; every other category is one of the
//! platform's informational-string kinds.

use vstd::prelude::*;

verus! {

/// The platform's informational-string kinds: the per-font metadata strings
/// a font source can be asked for, each optional per font.
#[derive(Debug, Clone, Copy, PartialEq, Eq, Hash, Structural)]
pub enum InformationalStringId {
    Unspecified,
    CopyrightNotice,
    VersionStrings,
    Trademark,
    Manufacturer,
    Designer,
    DesignerUrl,
    Description,
    FontVendorUrl,
    LicenseDescription,
    LicenseInfoUrl,
    Win32FamilyNames,
    Win32SubfamilyNames,
    TypographicFamilyNames,
    TypographicSubfamilyNames,
    SampleText,
    FullName,
    PostscriptName,
    PostscriptCidName,
    WeightStretchStyleFamilyName,
    DesignScriptLanguageTag,
    SupportedScriptLanguageTag,
    PreferredFamilyNames,
    PreferredSubfamilyNames,
    WwsFamilyName,
}

/// One semantic name of an enumerated item: the key under which a resolved
/// string stands in a record. The family and face names stand on their own;
/// the rest mirror the informational-string kinds one for one.
#[derive(Debug, Clone, Copy, PartialEq, Eq, Hash, Structural)]
pub enum NamedCategory {
    FamilyName,
    FaceName,
    CopyrightNotice,
    VersionStrings,
    Trademark,
    Manufacturer,
    Designer,
    DesignerUrl,
    Description,
    FontVendorUrl,
    LicenseDescription,
    LicenseInfoUrl,
    Win32FamilyNames,
    Win32SubfamilyNames,
    TypographicFamilyNames,
    TypographicSubfamilyNames,
    SampleText,
    FullName,
    PostscriptName,
    PostscriptCidName,
    WeightStretchStyleFamilyName,
    DesignScriptLanguageTag,
    SupportedScriptLanguageTag,
    PreferredFamilyNames,
    PreferredSubfamilyNames,
    WwsFamilyName,
}

/// The informational-string kind a category is fetched through, where it has
/// one: the family and face names are fetched through calls of their own.
pub open spec fn informational_id_spec(category: NamedCategory) -> Option<InformationalStringId> {
    match category {
        NamedCategory::FamilyName => None,
        NamedCategory::FaceName => None,
        NamedCategory::CopyrightNotice => Some(InformationalStringId::CopyrightNotice),
        NamedCategory::VersionStrings => Some(InformationalStringId::VersionStrings),
        NamedCategory::Trademark => Some(InformationalStringId::Trademark),
        NamedCategory::Manufacturer => Some(InformationalStringId::Manufacturer),
        NamedCategory::Designer => Some(InformationalStringId::Designer),
        NamedCategory::DesignerUrl => Some(InformationalStringId::DesignerUrl),
        NamedCategory::Description => Some(InformationalStringId::Description),
        NamedCategory::FontVendorUrl => Some(InformationalStringId::FontVendorUrl),
        NamedCategory::LicenseDescription => Some(InformationalStringId::LicenseDescription),
        NamedCategory::LicenseInfoUrl => Some(InformationalStringId::LicenseInfoUrl),
        NamedCategory::Win32FamilyNames => Some(InformationalStringId::Win32FamilyNames),
        NamedCategory::Win32SubfamilyNames => Some(InformationalStringId::Win32SubfamilyNames),
        NamedCategory::TypographicFamilyNames => Some(
            InformationalStringId::TypographicFamilyNames,
        ),
        NamedCategory::TypographicSubfamilyNames => Some(
            InformationalStringId::TypographicSubfamilyNames,
        ),
        NamedCategory::SampleText => Some(InformationalStringId::SampleText),
        NamedCategory::FullName => Some(InformationalStringId::FullName),
        NamedCategory::PostscriptName => Some(InformationalStringId::PostscriptName),
        NamedCategory::PostscriptCidName => Some(InformationalStringId::PostscriptCidName),
        NamedCategory::WeightStretchStyleFamilyName => Some(
            InformationalStringId::WeightStretchStyleFamilyName,
        ),
        NamedCategory::DesignScriptLanguageTag => Some(
            InformationalStringId::DesignScriptLanguageTag,
        ),
        NamedCategory::SupportedScriptLanguageTag => Some(
            InformationalStringId::SupportedScriptLanguageTag,
        ),
        NamedCategory::PreferredFamilyNames => Some(InformationalStringId::PreferredFamilyNames),
        NamedCategory::PreferredSubfamilyNames => Some(
            InformationalStringId::PreferredSubfamilyNames,
        ),
        NamedCategory::WwsFamilyName => Some(InformationalStringId::WwsFamilyName),
    }
}

impl NamedCategory {
    /// The informational-string kind this category is fetched through, or
    /// `None` for the family and face names, which have calls of their own.
    pub fn informational_id(&self) -> (r: Option<InformationalStringId>)
        ensures
            r == informational_id_spec(*self),
    {
        match self {
            NamedCategory::FamilyName => None,
            NamedCategory::FaceName => None,
            NamedCategory::CopyrightNotice => Some(InformationalStringId::CopyrightNotice),
            NamedCategory::VersionStrings => Some(InformationalStringId::VersionStrings),
            NamedCategory::Trademark => Some(InformationalStringId::Trademark),
            NamedCategory::Manufacturer => Some(InformationalStringId::Manufacturer),
            NamedCategory::Designer => Some(InformationalStringId::Designer),
            NamedCategory::DesignerUrl => Some(InformationalStringId::DesignerUrl),
            NamedCategory::Description => Some(InformationalStringId::Description),
            NamedCategory::FontVendorUrl => Some(InformationalStringId::FontVendorUrl),
            NamedCategory::LicenseDescription => Some(InformationalStringId::LicenseDescription),
            NamedCategory::LicenseInfoUrl => Some(InformationalStringId::LicenseInfoUrl),
            NamedCategory::Win32FamilyNames => Some(InformationalStringId::Win32FamilyNames),
            NamedCategory::Win32SubfamilyNames => Some(InformationalStringId::Win32SubfamilyNames),
            NamedCategory::TypographicFamilyNames => Some(
                InformationalStringId::TypographicFamilyNames,
            ),
            NamedCategory::TypographicSubfamilyNames => Some(
                InformationalStringId::TypographicSubfamilyNames,
            ),
            NamedCategory::SampleText => Some(InformationalStringId::SampleText),
            NamedCategory::FullName => Some(InformationalStringId::FullName),
            NamedCategory::PostscriptName => Some(InformationalStringId::PostscriptName),
            NamedCategory::PostscriptCidName => Some(InformationalStringId::PostscriptCidName),
            NamedCategory::WeightStretchStyleFamilyName => Some(
                InformationalStringId::WeightStretchStyleFamilyName,
            ),
            NamedCategory::DesignScriptLanguageTag => Some(
                InformationalStringId::DesignScriptLanguageTag,
            ),
            NamedCategory::SupportedScriptLanguageTag => Some(
                InformationalStringId::SupportedScriptLanguageTag,
            ),
            NamedCategory::PreferredFamilyNames => Some(
                InformationalStringId::PreferredFamilyNames,
            ),
            NamedCategory::PreferredSubfamilyNames => Some(
                InformationalStringId::PreferredSubfamilyNames,
            ),
            NamedCategory::WwsFamilyName => Some(InformationalStringId::WwsFamilyName),
        }
    }
}

} // verus!
