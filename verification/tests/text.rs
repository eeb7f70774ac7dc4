use vapor_sdk_core::root::{decimal_text, vdf_escape};
use vapor_sdk_core::text::{char_is_whitespace, enclosed, prefixed, text_eq, text_is_blank};

#[test]
fn char_is_whitespace_matches_std_for_every_char() {
    for code in 0u32..=0x10FFFF {
        if let Some(c) = char::from_u32(code) {
            assert_eq!(char_is_whitespace(c), c.is_whitespace(), "U+{code:04X}");
        }
    }
}

#[test]
fn text_is_blank_matches_trim() {
    for sample in ["", " ", "\t\n", "\u{3000}", "a", " a ", "\u{200B}", "\u{85}"] {
        assert_eq!(text_is_blank(sample), sample.trim().is_empty(), "{sample:?}");
    }
}

#[test]
fn text_eq_compares_exactly() {
    assert!(text_eq("sdk", "sdk"));
    assert!(!text_eq("sdk", "sdk "));
    assert!(!text_eq("sdk", "SDK"));
    assert!(text_eq("", ""));
}

#[test]
fn decimal_text_matches_to_string() {
    for n in [0u32, 7, 9, 10, 99, 100, 2_122_620, 2_122_621, u32::MAX] {
        assert_eq!(decimal_text(n), n.to_string());
    }
}

#[test]
fn vdf_escape_matches_replace() {
    for sample in ["", "plain", "with \"quotes\"", "back\\slash", "\\\"", "line\nbreak"] {
        let expected = sample.replace('\\', "\\\\").replace('"', "\\\"");
        assert_eq!(vdf_escape(sample), expected);
    }
}

fn vdf_unescape(text: &str) -> String {
    let mut out = String::new();
    let mut chars = text.chars();
    while let Some(c) = chars.next() {
        if c == '\\' {
            if let Some(next) = chars.next() {
                out.push(next);
                continue;
            }
        }
        out.push(c);
    }
    out
}

#[test]
fn vdf_escape_round_trips() {
    for sample in ["a\"b", "\\", "\\\\\"", "Vapor \"beta\" build"] {
        assert_eq!(vdf_unescape(&vdf_escape(sample)), sample);
    }
}

#[test]
fn prefixed_and_enclosed_concatenate() {
    assert_eq!(prefixed("a: ", "b"), "a: b");
    assert_eq!(enclosed("`", "x", "`"), "`x`");
}
