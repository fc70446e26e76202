use locale_resolver::aggregate::{aggregate, GroupFetch, ItemSource};
use locale_resolver::attributes::{ScalarAttributes, Simulations, Stretch, Style, Weight};
use locale_resolver::category::NamedCategory;
use locale_resolver::localized_strings::{LocalizedString, StringGroup};

fn entry(text: &str, locale: &str) -> LocalizedString {
    LocalizedString { string: text.to_string(), locale: locale.to_string() }
}

fn group(entries: Vec<LocalizedString>) -> StringGroup {
    StringGroup { entries }
}

fn attrs() -> ScalarAttributes {
    ScalarAttributes {
        weight: Weight(400),
        style: Style::Normal,
        stretch: Stretch::Normal,
        simulations: Simulations::none(),
        is_variable: false,
    }
}

fn item(groups: Vec<(NamedCategory, GroupFetch)>) -> ItemSource {
    ItemSource { groups, attributes: attrs(), filepath: Some("C:\\fonts\\a.ttf".to_string()) }
}

#[test]
fn one_entry_per_requested_category() {
    let source = item(vec![
        (
            NamedCategory::FamilyName,
            GroupFetch::Present(group(vec![entry("Meiryo", "ja-jp"), entry("Meiryo", "en-us")])),
        ),
        (NamedCategory::Designer, GroupFetch::Absent),
    ]);
    let categories = vec![
        NamedCategory::FamilyName,
        NamedCategory::FaceName,
        NamedCategory::Designer,
        NamedCategory::FullName,
    ];
    let record = aggregate(&source, &categories);
    assert_eq!(record.names.len(), categories.len());
    for (i, category) in categories.iter().enumerate() {
        assert!(record.names[i].0 == *category);
    }
    assert_eq!(record.names[0].1, "Meiryo");
    assert_eq!(record.names[1].1, ""); // never fetched: absent
    assert_eq!(record.names[2].1, ""); // fetched, category unsupported
    assert_eq!(record.names[3].1, ""); // not in the snapshot at all
}

#[test]
fn transport_failure_becomes_sentinel_description() {
    let mut items: Vec<ItemSource> = Vec::new();
    for i in 0..10 {
        let name = format!("Font{}", i);
        let full = if i == 3 {
            GroupFetch::Failure("access denied".to_string())
        } else {
            GroupFetch::Present(group(vec![entry(&format!("{} Full", name), "en-us")]))
        };
        items.push(item(vec![
            (
                NamedCategory::FamilyName,
                GroupFetch::Present(group(vec![entry(&name, "en-us")])),
            ),
            (NamedCategory::FullName, full),
        ]));
    }
    let categories = vec![NamedCategory::FamilyName, NamedCategory::FullName];
    let mut records = Vec::new();
    for source in &items {
        records.push(aggregate(source, &categories));
    }
    assert_eq!(records.len(), 10);
    for (i, record) in records.iter().enumerate() {
        assert_eq!(record.names[0].1, format!("Font{}", i));
        if i == 3 {
            assert_eq!(record.names[1].1, "access denied");
        } else {
            assert_eq!(record.names[1].1, format!("Font{} Full", i));
        }
    }
}

#[test]
fn resolution_inside_aggregate_uses_default_chain() {
    let source = item(vec![(
        NamedCategory::FamilyName,
        GroupFetch::Present(group(vec![
            entry("english", "en-us"),
            entry("japanese", "ja-jp"),
        ])),
    )]);
    let record = aggregate(&source, &vec![NamedCategory::FamilyName]);
    assert_eq!(record.names[0].1, "japanese");
}

#[test]
fn attributes_and_filepath_carry_over() {
    let source = item(vec![]);
    let record = aggregate(&source, &vec![]);
    assert!(record.attributes == attrs());
    assert_eq!(record.filepath, Some("C:\\fonts\\a.ttf".to_string()));
    assert_eq!(record.names.len(), 0);
}

#[test]
fn duplicate_snapshot_entries_use_first() {
    let source = item(vec![
        (
            NamedCategory::FamilyName,
            GroupFetch::Present(group(vec![entry("first", "en-us")])),
        ),
        (
            NamedCategory::FamilyName,
            GroupFetch::Present(group(vec![entry("second", "en-us")])),
        ),
    ]);
    let record = aggregate(&source, &vec![NamedCategory::FamilyName]);
    assert_eq!(record.names[0].1, "first");
}

#[test]
fn record_get_finds_requested_category() {
    let source = item(vec![(
        NamedCategory::FaceName,
        GroupFetch::Present(group(vec![entry("Bold", "en-us")])),
    )]);
    let record = aggregate(&source, &vec![NamedCategory::FaceName]);
    assert_eq!(record.get(NamedCategory::FaceName), Some(&"Bold".to_string()));
    assert_eq!(record.get(NamedCategory::Designer), None);
}

#[test]
fn failure_sentinel_not_masked_by_chain() {
    // The sentinel's locale tag "Error" matches no default chain tag, so the
    // description itself comes out even when other entries never could.
    let source = item(vec![(
        NamedCategory::FullName,
        GroupFetch::Failure("broken font file".to_string()),
    )]);
    let record = aggregate(&source, &vec![NamedCategory::FullName]);
    assert_eq!(record.names[0].1, "broken font file");
}
