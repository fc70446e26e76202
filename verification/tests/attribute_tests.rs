use locale_resolver::attributes::{Simulations, Stretch, Style, Weight};
use locale_resolver::category::{InformationalStringId, NamedCategory};

#[test]
fn conventional_weight_names() {
    assert_eq!(Weight(100).name(), "Thin");
    assert_eq!(Weight(200).name(), "ExtraLight");
    assert_eq!(Weight(300).name(), "Light");
    assert_eq!(Weight(350).name(), "SemiLight");
    assert_eq!(Weight(400).name(), "Regular");
    assert_eq!(Weight(500).name(), "Medium");
    assert_eq!(Weight(600).name(), "SemiBold");
    assert_eq!(Weight(700).name(), "Bold");
    assert_eq!(Weight(800).name(), "ExtraBold");
    assert_eq!(Weight(900).name(), "Black");
    assert_eq!(Weight(950).name(), "ExtraBlack");
}

#[test]
fn unconventional_weights_fall_back_to_numerals() {
    assert_eq!(Weight(0).name(), "0");
    assert_eq!(Weight(1).name(), "1");
    assert_eq!(Weight(450).name(), "450");
    assert_eq!(Weight(999).name(), "999");
    assert_eq!(Weight(1000).name(), "1000");
    assert_eq!(Weight(-5).name(), "-5");
    assert_eq!(Weight(i32::MAX).name(), "2147483647");
    assert_eq!(Weight(i32::MIN).name(), "-2147483648");
}

#[test]
fn style_codes_round_trip() {
    assert_eq!(Style::from_code(0), Some(Style::Normal));
    assert_eq!(Style::from_code(1), Some(Style::Oblique));
    assert_eq!(Style::from_code(2), Some(Style::Italic));
    assert_eq!(Style::from_code(3), None);
    for style in [Style::Normal, Style::Oblique, Style::Italic] {
        assert_eq!(Style::from_code(style.code()), Some(style));
    }
}

#[test]
fn style_names() {
    assert_eq!(Style::Normal.name(), "Normal");
    assert_eq!(Style::Oblique.name(), "Oblique");
    assert_eq!(Style::Italic.name(), "Italic");
}

#[test]
fn stretch_codes_round_trip() {
    let all = [
        Stretch::Undefined,
        Stretch::UltraCondensed,
        Stretch::ExtraCondensed,
        Stretch::Condensed,
        Stretch::SemiCondensed,
        Stretch::Normal,
        Stretch::SemiExpanded,
        Stretch::Expanded,
        Stretch::ExtraExpanded,
        Stretch::UltraExpanded,
    ];
    for (i, stretch) in all.iter().enumerate() {
        assert_eq!(stretch.code(), i as u32);
        assert_eq!(Stretch::from_code(i as u32), Some(*stretch));
    }
    assert_eq!(Stretch::from_code(10), None);
}

#[test]
fn stretch_names() {
    assert_eq!(Stretch::Undefined.name(), "Undefined");
    assert_eq!(Stretch::UltraCondensed.name(), "UltraCondensed");
    assert_eq!(Stretch::Normal.name(), "Normal");
    assert_eq!(Stretch::UltraExpanded.name(), "UltraExpanded");
}

#[test]
fn simulation_bits() {
    assert!(Simulations::none().is_none());
    assert_eq!(Simulations::none().bits(), 0);
    let bold = Simulations::from_bits(1);
    assert!(bold.bold && !bold.oblique && !bold.is_none());
    let oblique = Simulations::from_bits(2);
    assert!(!oblique.bold && oblique.oblique);
    let both = Simulations::from_bits(3);
    assert!(both.bold && both.oblique);
    assert_eq!(both.bits(), 3);
    assert_eq!(bold.bits(), 1);
    assert_eq!(oblique.bits(), 2);
    // Higher bits are not simulation flags.
    assert!(Simulations::from_bits(4).is_none());
}

#[test]
fn family_and_face_names_have_no_informational_id() {
    assert_eq!(NamedCategory::FamilyName.informational_id(), None);
    assert_eq!(NamedCategory::FaceName.informational_id(), None);
}

#[test]
fn informational_categories_map_one_for_one() {
    assert_eq!(
        NamedCategory::FullName.informational_id(),
        Some(InformationalStringId::FullName)
    );
    assert_eq!(
        NamedCategory::Win32FamilyNames.informational_id(),
        Some(InformationalStringId::Win32FamilyNames)
    );
    assert_eq!(
        NamedCategory::PreferredSubfamilyNames.informational_id(),
        Some(InformationalStringId::PreferredSubfamilyNames)
    );
    assert_eq!(
        NamedCategory::CopyrightNotice.informational_id(),
        Some(InformationalStringId::CopyrightNotice)
    );
    assert_eq!(
        NamedCategory::SampleText.informational_id(),
        Some(InformationalStringId::SampleText)
    );
}
