use locale_resolver::collate::collate;
use locale_resolver::localized_strings::{LocalizedString, StringGroup};
use locale_resolver::resolve::default_locale_priority;

fn entry(text: &str, locale: &str) -> LocalizedString {
    LocalizedString { string: text.to_string(), locale: locale.to_string() }
}

fn group(entries: Vec<LocalizedString>) -> StringGroup {
    StringGroup { entries }
}

fn pairs(g: &StringGroup) -> Vec<(String, String)> {
    g.entries.iter().map(|e| (e.string.clone(), e.locale.clone())).collect()
}

#[test]
fn priority_tags_come_first() {
    let g = group(vec![
        entry("d", "de-de"),
        entry("e", "en-us"),
        entry("j", "ja-jp"),
        entry("f", "fr-fr"),
    ]);
    let r = collate(&g, &default_locale_priority());
    assert_eq!(
        pairs(&r),
        vec![
            ("j".to_string(), "ja-jp".to_string()),
            ("e".to_string(), "en-us".to_string()),
            ("d".to_string(), "de-de".to_string()),
            ("f".to_string(), "fr-fr".to_string()),
        ]
    );
}

#[test]
fn remaining_tags_sort_lexicographically() {
    let g = group(vec![
        entry("z", "zh-cn"),
        entry("f", "fr-fr"),
        entry("d", "de-de"),
    ]);
    let r = collate(&g, &default_locale_priority());
    assert_eq!(
        pairs(&r),
        vec![
            ("d".to_string(), "de-de".to_string()),
            ("f".to_string(), "fr-fr".to_string()),
            ("z".to_string(), "zh-cn".to_string()),
        ]
    );
}

#[test]
fn collate_is_a_permutation() {
    let g = group(vec![
        entry("a", "sv-se"),
        entry("b", "en-us"),
        entry("c", "sv-se"),
        entry("d", "ja-jp"),
    ]);
    let r = collate(&g, &default_locale_priority());
    let mut before = pairs(&g);
    let mut after = pairs(&r);
    before.sort();
    after.sort();
    assert_eq!(before, after);
    assert_eq!(r.get_count(), 4);
}

#[test]
fn ties_keep_original_order() {
    let g = group(vec![
        entry("first", "en-us"),
        entry("x", "ja-jp"),
        entry("second", "en-us"),
        entry("third", "en-us"),
    ]);
    let r = collate(&g, &default_locale_priority());
    assert_eq!(
        pairs(&r),
        vec![
            ("x".to_string(), "ja-jp".to_string()),
            ("first".to_string(), "en-us".to_string()),
            ("second".to_string(), "en-us".to_string()),
            ("third".to_string(), "en-us".to_string()),
        ]
    );
}

#[test]
fn collate_is_idempotent() {
    let priority = default_locale_priority();
    let g = group(vec![
        entry("a", "zh-cn"),
        entry("b", "en-us"),
        entry("c", "de-de"),
        entry("d", "en-us"),
        entry("e", "ja-jp"),
    ]);
    let once = collate(&g, &priority);
    let twice = collate(&once, &priority);
    assert_eq!(pairs(&once), pairs(&twice));
}

#[test]
fn empty_group_collates_to_empty() {
    let g = group(vec![]);
    let r = collate(&g, &default_locale_priority());
    assert_eq!(r.get_count(), 0);
}

#[test]
fn all_identical_tags_stay_put() {
    let g = group(vec![
        entry("one", "en-us"),
        entry("two", "en-us"),
        entry("three", "en-us"),
    ]);
    let r = collate(&g, &default_locale_priority());
    assert_eq!(pairs(&r), pairs(&g));
}

#[test]
fn custom_priority_list_is_honored() {
    let priority: Vec<String> = vec!["de-de".to_string(), "fr-fr".to_string()];
    let g = group(vec![
        entry("e", "en-us"),
        entry("f", "fr-fr"),
        entry("d", "de-de"),
    ]);
    let r = collate(&g, &priority);
    assert_eq!(
        pairs(&r),
        vec![
            ("d".to_string(), "de-de".to_string()),
            ("f".to_string(), "fr-fr".to_string()),
            ("e".to_string(), "en-us".to_string()),
        ]
    );
}
