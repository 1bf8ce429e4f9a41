use sendspin_vst3::text::{
    contains_char, contains_text, decimal_text, joined, same_text, signed_decimal_text,
    starts_with, strip_leading, strip_suffix, text_at_most, trim, white_space,
};

#[test]
fn white_space_is_that_of_unicode() {
    for code in 0..=0x10_ffff_u32 {
        if let Some(c) = char::from_u32(code) {
            assert_eq!(white_space(c), c.is_whitespace(), "{:x}", code);
        }
    }
}

#[test]
fn trimming_follows_std() {
    for text in ["", " ", "a", " a ", "\u{a0}a b\u{2029}", "\t\u{85}x\u{200b} ", "\u{feff} y"] {
        assert_eq!(trim(text), text.trim());
        assert_eq!(trim(trim(text)), trim(text));
    }
}

#[test]
fn searching_follows_std() {
    for text in ["", "/", "://", "a://b", "a:/b", "::/://", "a:\u{e9}//"] {
        for pattern in ["", ":", "://", "b", "\u{e9}/"] {
            assert_eq!(contains_text(text, pattern), text.contains(pattern));
            assert_eq!(starts_with(text, pattern), text.starts_with(pattern));
            assert_eq!(strip_suffix(text, pattern), text.strip_suffix(pattern));
            assert_eq!(same_text(text, pattern), text == pattern);
            assert_eq!(text_at_most(text, pattern), text <= pattern);
            assert_eq!(joined(text, pattern), format!("{text}{pattern}"));
            if !pattern.is_empty() {
                assert_eq!(strip_leading(text, pattern), text.trim_start_matches(pattern));
            }
        }
        assert_eq!(contains_char(text, ':'), text.contains(':'));
    }
}

#[test]
fn order_is_that_of_scalar_values() {
    let texts = ["", "B", "a", "ab", "b", "\u{e9}", "\u{ffff}", "\u{1f600}"];
    for a in texts {
        for b in texts {
            assert_eq!(text_at_most(a, b), a <= b);
        }
    }
}

#[test]
fn numbers_are_written_in_decimal() {
    for n in [0, 9, 10, 8927, 65535, u64::MAX] {
        assert_eq!(decimal_text(n), n.to_string());
    }
    for n in [0, 7, -1, -100, 200, i32::MIN, i32::MAX] {
        assert_eq!(signed_decimal_text(n), n.to_string());
    }
}
