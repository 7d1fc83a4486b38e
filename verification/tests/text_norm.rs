use unified_clipboard::text::normalize_clip_text;
use unified_clipboard::text::normalize_wire_text;

#[test]
fn wire_text_loses_quotes_escapes_and_padding() {
    assert_eq!(normalize_wire_text("\"hello\"\u{0}"), Some("hello".to_string()));
    assert_eq!(normalize_wire_text("\\\"hi there\\\" "), Some("hi there".to_string()));
    assert_eq!(normalize_wire_text("plain"), Some("plain".to_string()));
    assert_eq!(normalize_wire_text("  spaced out  "), Some("spaced out".to_string()));
}

#[test]
fn inner_characters_are_kept() {
    assert_eq!(
        normalize_wire_text("\"a \"quoted\" word\""),
        Some("a \"quoted\" word".to_string())
    );
    assert_eq!(normalize_wire_text("tab\tand space"), Some("tab\tand space".to_string()));
}

#[test]
fn empty_wire_text_is_nothing() {
    assert_eq!(normalize_wire_text(""), None);
    assert_eq!(normalize_wire_text("\u{0}"), None);
    assert_eq!(normalize_wire_text(" \"\" \\ "), None);
    assert_eq!(normalize_wire_text("\t\r\n"), None);
}

#[test]
fn clip_text_loses_only_padding() {
    assert_eq!(normalize_clip_text("\u{0}copied text \u{0}"), Some("copied text".to_string()));
    assert_eq!(normalize_clip_text("\"quoted\""), Some("\"quoted\"".to_string()));
    assert_eq!(normalize_clip_text("   "), None);
    assert_eq!(normalize_clip_text("\u{0}\u{0}"), None);
}

#[test]
fn multibyte_text_survives_trimming() {
    assert_eq!(normalize_wire_text(" \"caf\u{e9}\" "), Some("caf\u{e9}".to_string()));
    assert_eq!(normalize_clip_text("\u{0} \u{3053}\u{3093} "), Some("\u{3053}\u{3093}".to_string()));
}
