use clip_relay::text::{char_index_at, chars_of, has_substring, slice_utf16};

fn reference_slice(text: &str, offset: usize, length: usize) -> Option<String> {
    let units: Vec<u16> = text.encode_utf16().collect();
    if offset + length > units.len() {
        return None;
    }
    let head = String::from_utf16(&units[..offset]).ok()?;
    let part = String::from_utf16(&units[offset..offset + length]).ok()?;
    if !text.starts_with(&head) || !text[head.len()..].starts_with(&part) {
        return None;
    }
    Some(part)
}

#[test]
fn chars_of_keeps_every_character_in_order() {
    assert_eq!(chars_of(""), Vec::<char>::new());
    assert_eq!(chars_of("abc"), vec!['a', 'b', 'c']);
    assert_eq!(chars_of("h\u{e9}\u{1F600}!"), vec!['h', '\u{e9}', '\u{1F600}', '!']);
}

#[test]
fn slice_of_plain_text_counts_characters() {
    assert_eq!(slice_utf16("say https://x.y now", 4, 11), Some("https://x.y".to_string()));
    assert_eq!(slice_utf16("abc", 0, 3), Some("abc".to_string()));
    assert_eq!(slice_utf16("abc", 1, 1), Some("b".to_string()));
}

#[test]
fn slice_counts_code_units_not_bytes() {
    // The accented letter takes two bytes and one code unit.
    let text = "\u{e9} https://vm.tiktok.com/ZM6e3Yxy6";
    assert_eq!(
        slice_utf16(text, 2, 31),
        Some("https://vm.tiktok.com/ZM6e3Yxy6".to_string())
    );
}

#[test]
fn slice_counts_code_units_not_characters() {
    // The emoji is one character, four bytes and two code units.
    let text = "\u{1F600} https://vm.tiktok.com/ZM6e3Yxy6 \u{1F600}";
    assert_eq!(
        slice_utf16(text, 3, 31),
        Some("https://vm.tiktok.com/ZM6e3Yxy6".to_string())
    );
    assert_eq!(slice_utf16(text, 0, 2), Some("\u{1F600}".to_string()));
    assert_eq!(slice_utf16(text, 35, 2), Some("\u{1F600}".to_string()));
}

#[test]
fn slice_of_length_zero_is_empty() {
    assert_eq!(slice_utf16("abc", 0, 0), Some(String::new()));
    assert_eq!(slice_utf16("abc", 3, 0), Some(String::new()));
    assert_eq!(slice_utf16("", 0, 0), Some(String::new()));
}

#[test]
fn slice_behind_the_end_is_refused() {
    assert_eq!(slice_utf16("abc", 2, 5), None);
    assert_eq!(slice_utf16("abc", 4, 0), None);
    assert_eq!(slice_utf16("", 0, 1), None);
    assert_eq!(slice_utf16("abc", u32::MAX, u32::MAX), None);
}

#[test]
fn slice_that_splits_a_surrogate_pair_is_refused() {
    assert_eq!(slice_utf16("\u{1F600}a", 1, 1), None);
    assert_eq!(slice_utf16("\u{1F600}a", 0, 1), None);
    assert_eq!(slice_utf16("\u{1F600}a", 1, 2), None);
    assert_eq!(slice_utf16("\u{1F600}a", 2, 1), Some("a".to_string()));
}

#[test]
fn slice_agrees_with_the_utf16_encoding_on_every_span() {
    let texts = ["", "abc", "\u{e9}\u{1F600}x", "\u{1F600}\u{1F601}", "a\u{10000}b\u{ffff}c"];
    for text in texts {
        let units = text.encode_utf16().count();
        for offset in 0..units + 2 {
            for length in 0..units + 2 {
                assert_eq!(
                    slice_utf16(text, offset as u32, length as u32),
                    reference_slice(text, offset, length)
                );
            }
        }
    }
}

#[test]
fn char_index_at_finds_boundaries_only() {
    let chars = chars_of("a\u{1F600}b");
    assert_eq!(char_index_at(&chars, 0), Some(0));
    assert_eq!(char_index_at(&chars, 1), Some(1));
    assert_eq!(char_index_at(&chars, 2), None);
    assert_eq!(char_index_at(&chars, 3), Some(2));
    assert_eq!(char_index_at(&chars, 4), Some(3));
    assert_eq!(char_index_at(&chars, 5), None);
    assert_eq!(char_index_at(&chars, u64::MAX), None);
}

#[test]
fn has_substring_finds_a_needle_anywhere() {
    assert!(has_substring("ERROR: login required to view", "login required"));
    assert!(has_substring("login required", "login required"));
    assert!(has_substring("x login required", "login required"));
    assert!(has_substring("login required x", "login required"));
    assert!(has_substring("aaab", "aab"));
}

#[test]
fn has_substring_misses_what_is_not_there() {
    assert!(!has_substring("login require", "login required"));
    assert!(!has_substring("Login Required", "login required"));
    assert!(!has_substring("", "a"));
    assert!(!has_substring("ab", "abc"));
    assert!(!has_substring("abab", "aba "));
}

#[test]
fn has_substring_finds_the_empty_needle_everywhere() {
    assert!(has_substring("", ""));
    assert!(has_substring("abc", ""));
}

#[test]
fn has_substring_agrees_with_std() {
    let texts = ["", "a", "ab", "aab", "abab", "\u{1F600}a\u{1F600}", "/air", "x/airy"];
    for haystack in texts {
        for needle in texts {
            assert_eq!(has_substring(haystack, needle), haystack.contains(needle));
        }
    }
}
