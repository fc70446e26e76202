use locale_resolver::localized_strings::{LocalizedString, StringGroup};
use locale_resolver::resolve::{default_locale_priority, resolve};

fn entry(text: &str, locale: &str) -> LocalizedString {
    LocalizedString { string: text.to_string(), locale: locale.to_string() }
}

fn group(entries: Vec<LocalizedString>) -> StringGroup {
    StringGroup { entries }
}

fn chain(tags: &[&str]) -> Vec<String> {
    tags.iter().map(|t| t.to_string()).collect()
}

#[test]
fn meiryo_ja_jp_match() {
    let g = group(vec![entry("Meiryo", "ja-jp"), entry("Meiryo", "en-us")]);
    let r = resolve(&g, &chain(&["ja-jp", "en-us"]));
    assert_eq!(r, "Meiryo");
}

#[test]
fn arial_en_us_fallback() {
    let g = group(vec![entry("Arial", "en-us"), entry("Arial", "de-de")]);
    let r = resolve(&g, &chain(&["ja-jp", "en-us"]));
    assert_eq!(r, "Arial");
}

#[test]
fn courier_index_zero_fallback() {
    let g = group(vec![entry("Courier", "fr-fr")]);
    let r = resolve(&g, &chain(&["ja-jp", "en-us"]));
    assert_eq!(r, "Courier");
}

#[test]
fn empty_group_resolves_empty() {
    let g = group(vec![]);
    assert_eq!(resolve(&g, &chain(&["ja-jp", "en-us"])), "");
    assert_eq!(resolve(&g, &chain(&[])), "");
    assert_eq!(resolve(&g, &chain(&["zh-cn"])), "");
}

#[test]
fn first_entry_of_duplicate_tags_wins() {
    let g = group(vec![
        entry("first", "en-us"),
        entry("second", "en-us"),
        entry("third", "en-us"),
    ]);
    let r = resolve(&g, &chain(&["ja-jp", "en-us"]));
    assert_eq!(r, "first");
}

#[test]
fn first_chain_tag_with_any_match_wins() {
    // The second chain tag matches even though a later entry carries a tag
    // that stands earlier in the group.
    let g = group(vec![entry("german", "de-de"), entry("english", "en-us")]);
    let r = resolve(&g, &chain(&["ja-jp", "en-us"]));
    assert_eq!(r, "english");
}

#[test]
fn match_is_case_sensitive() {
    let g = group(vec![entry("upper", "EN-US"), entry("lower", "en-us")]);
    let r = resolve(&g, &chain(&["en-us"]));
    assert_eq!(r, "lower");
}

#[test]
fn default_priority_is_ja_then_en() {
    let p = default_locale_priority();
    assert_eq!(p.len(), 2);
    assert_eq!(p[0], "ja-jp");
    assert_eq!(p[1], "en-us");
}

#[test]
fn group_get_finds_first_match() {
    let g = group(vec![
        entry("alpha", "de-de"),
        entry("beta", "en-us"),
        entry("gamma", "en-us"),
    ]);
    assert_eq!(g.get("en-us"), Some("beta".to_string()));
    assert_eq!(g.get("de-de"), Some("alpha".to_string()));
    assert_eq!(g.get("fr-fr"), None);
}

#[test]
fn group_find_locale_name_gives_least_index() {
    let g = group(vec![
        entry("alpha", "de-de"),
        entry("beta", "en-us"),
        entry("gamma", "en-us"),
    ]);
    assert_eq!(g.find_locale_name("en-us"), Some(1));
    assert_eq!(g.find_locale_name("de-de"), Some(0));
    assert_eq!(g.find_locale_name("ja-jp"), None);
    assert_eq!(g.get_count(), 3);
    assert_eq!(g.get_string(1).as_str(), "beta");
    assert_eq!(g.get_locale_name(2).as_str(), "en-us");
}
