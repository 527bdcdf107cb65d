use jsonapi_client::text::{decimal_text, strip_backslashes, tidy_text};

#[test]
fn decimal_text_writes_digits() {
    assert_eq!(decimal_text(0), "0");
    assert_eq!(decimal_text(7), "7");
    assert_eq!(decimal_text(404), "404");
    assert_eq!(decimal_text(65535), "65535");
}

#[test]
fn tidy_text_trims_whitespace_then_full_stops() {
    assert_eq!(tidy_text(""), "");
    assert_eq!(tidy_text("\t. a.b .\n"), " a.b ");
    assert_eq!(tidy_text("\u{3000}done.\u{a0}"), "done");
    assert_eq!(tidy_text("...."), "");
}

#[test]
fn strip_backslashes_removes_each() {
    assert_eq!(strip_backslashes(r#"a\"b\\c"#), r#"a"bc"#);
    assert_eq!(strip_backslashes(""), "");
}
