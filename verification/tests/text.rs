use j2534_bridge::text::{c_string, c_string_bytes, str_equals, to_ascii_lowercase, trim_text};

#[test]
fn trimming_follows_unicode_whitespace() {
    assert_eq!(trim_text("  a b \t\n"), "a b");
    assert_eq!(trim_text("\u{3000}x\u{00A0}"), "x");
    assert_eq!(trim_text("   "), "");
    for s in ["", " x ", "\u{2028}y\u{85}", "z"] {
        assert_eq!(trim_text(s), s.trim());
    }
}

#[test]
fn c_strings_stop_at_nul() {
    let buf = [b'O' as i8, b'K' as i8, 0, b'x' as i8];
    assert_eq!(c_string_bytes(&buf), vec![b'O', b'K']);
    assert_eq!(c_string(&buf), "OK");
    let full = [b'a' as i8, b'b' as i8];
    assert_eq!(c_string(&full), "ab");
    let latin = [0xE9u8 as i8, 0];
    assert_eq!(c_string(&latin), "\u{FFFD}");
}

#[test]
fn lowercase_and_equality() {
    assert_eq!(to_ascii_lowercase("PaSS É"), "pass É");
    assert!(str_equals("flow", "flow"));
    assert!(!str_equals("flow", "flows"));
}
