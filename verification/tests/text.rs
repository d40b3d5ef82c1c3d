use mandalaya_startup::text::{chars_of, ends_with, starts_with};

#[test]
fn characters_come_out_in_order() {
    assert_eq!(chars_of("a/é"), vec!['a', '/', 'é']);
    assert_eq!(chars_of(""), Vec::<char>::new());
    assert_eq!(chars_of("日本語").len(), 3);
}

#[test]
fn prefix_is_found_at_the_front_only() {
    let text = chars_of("file://x");
    assert!(starts_with(&text, &chars_of("file://")));
    assert!(starts_with(&text, &chars_of("")));
    assert!(starts_with(&text, &text));
    assert!(!starts_with(&text, &chars_of("file:///")));
    assert!(!starts_with(&text, &chars_of("ile://")));
    assert!(!starts_with(&text, &chars_of("file://x/")));
    assert!(!starts_with(&chars_of(""), &chars_of("f")));
}

#[test]
fn suffix_is_found_at_the_end_only() {
    let text = chars_of("map.mandalaya");
    assert!(ends_with(&text, &chars_of(".mandalaya")));
    assert!(ends_with(&text, &chars_of("")));
    assert!(ends_with(&text, &text));
    assert!(!ends_with(&text, &chars_of(".mandalay")));
    assert!(!ends_with(&text, &chars_of("map")));
    assert!(!ends_with(&text, &chars_of("a map.mandalaya")));
    assert!(!ends_with(&chars_of("mandalaya"), &chars_of(".mandalaya")));
    assert!(!ends_with(&chars_of(""), &chars_of("a")));
}
