use rusty_vinnie::markdown::clean_text;

#[test]
fn tabs_are_removed_everywhere() {
    assert_eq!(clean_text("a\tb"), "ab");
    assert_eq!(clean_text("\t\ta\t"), "a");
}

#[test]
fn lines_are_trimmed_and_blank_lines_dropped() {
    assert_eq!(clean_text("  hello  \n\n   world   "), "hello\nworld");
    assert_eq!(clean_text("\n\n\n"), "");
    assert_eq!(clean_text(""), "");
}

#[test]
fn windows_line_endings_leave_no_stray_carriage_returns() {
    assert_eq!(clean_text("a\r\nb"), "a\nb");
}

#[test]
fn interior_spacing_is_kept() {
    assert_eq!(clean_text("  keep  interior   spaces  "), "keep  interior   spaces");
    assert_eq!(
        clean_text(" line one \n line two \n\n line three "),
        "line one\nline two\nline three"
    );
}

#[test]
fn unicode_text_survives_cleanup() {
    assert_eq!(
        clean_text("\tТизеры Path of Exile 2\n\n  🦀 rust  "),
        "Тизеры Path of Exile 2\n🦀 rust"
    );
}
