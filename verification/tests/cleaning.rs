use tts_gui::text::{ascii_alphanumeric, clean, kept, whitespace};

fn reference_clean(prompt: &str) -> String {
    prompt
        .replace(|c: char| c.is_whitespace(), " ")
        .chars()
        .filter(|c| {
            c.is_ascii_digit()
                || c.is_ascii_alphabetic()
                || c.is_whitespace()
                || [',', '.', '!', '?', '$', '\''].contains(c)
        })
        .collect::<String>()
}

fn samples() -> Vec<&'static str> {
    vec![
        "",
        "A test message",
        "Hello, world!",
        "a\tb\nc\rd\x0Ce",
        "a\x0Bb",
        "h\u{e9}llo w\u{f6}rld",
        "no\u{a0}break",
        "a\u{2003}b\u{3000}c\u{200b}d",
        "\"quoted\" <tag> a-b_c",
        "It's $5.00? Yes!",
        "a  b   c",
        "  lead and trail  ",
        "@#%^&*()[]{};:/\\|`~+=",
        "\u{4f60}\u{597d} 123",
        "tab\there, line\nthere.",
    ]
}

#[test]
fn clean_keeps_a_clean_text() {
    assert_eq!(clean("Hello, world!"), "Hello, world!");
    assert_eq!(clean("It's $5.00? Yes!"), "It's $5.00? Yes!");
    assert_eq!(clean("A test message"), "A test message");
}

#[test]
fn clean_turns_white_space_into_spaces() {
    assert_eq!(clean("a\tb\nc\rd\x0Ce"), "a b c d e");
}

#[test]
fn clean_does_not_merge_spaces() {
    assert_eq!(clean("a  b \t c"), "a  b   c");
    assert_eq!(clean("  x  "), "  x  ");
}

#[test]
fn clean_removes_what_is_not_allowed() {
    assert_eq!(clean("\"quoted\" <tag> a-b_c"), "quoted tag abc");
    assert_eq!(clean("h\u{e9}llo"), "hllo");
    assert_eq!(clean("@#%^&*()[]{};:/\\|`~+="), "");
}

#[test]
fn clean_turns_white_space_outside_ascii_into_spaces() {
    assert_eq!(clean("a\u{a0}b"), "a b");
    assert_eq!(clean("a\x0Bb"), "a b");
    assert_eq!(clean("no\u{a0}break"), "no break");
    assert_eq!(clean("a\u{2003}b\u{3000}c"), "a b c");
    assert_eq!(clean("a\u{85}b\u{1680}c\u{2028}d\u{2029}e\u{202f}f\u{205f}g"), "a b c d e f g");
}

#[test]
fn clean_removes_what_only_looks_like_white_space() {
    assert_eq!(clean("a\u{200b}b"), "ab");
    assert_eq!(clean("a\u{feff}b"), "ab");
    assert_eq!(clean("a\u{180e}b"), "ab");
}

#[test]
fn clean_of_nothing_is_nothing() {
    assert_eq!(clean(""), "");
}

#[test]
fn clean_output_holds_allowed_characters_only() {
    for sample in samples() {
        let cleaned = clean(sample);
        for c in cleaned.chars() {
            assert!(
                c.is_ascii_alphabetic()
                    || c.is_ascii_digit()
                    || c == ' '
                    || [',', '.', '!', '?', '$', '\''].contains(&c),
                "{:?} in {:?}",
                c,
                cleaned
            );
        }
    }
}

#[test]
fn clean_twice_is_clean_once() {
    for sample in samples() {
        let once = clean(sample);
        let twice = clean(&once);
        assert_eq!(once, twice);
    }
}

#[test]
fn clean_agrees_with_the_standard_library() {
    for sample in samples() {
        assert_eq!(clean(sample), reference_clean(sample));
    }
}

#[test]
fn clean_agrees_with_the_standard_library_on_every_small_character() {
    let mut all = String::new();
    for code in 0u32..0x3100 {
        if let Some(c) = char::from_u32(code) {
            all.push(c);
        }
    }
    assert_eq!(clean(&all), reference_clean(&all));
}

#[test]
fn character_classes_agree_with_the_standard_library() {
    for code in 0u32..0x3100 {
        if let Some(c) = char::from_u32(code) {
            assert_eq!(whitespace(c), c.is_whitespace());
            assert_eq!(ascii_alphanumeric(c), c.is_ascii_alphanumeric());
            let allowed = c.is_ascii_alphanumeric()
                || c.is_whitespace()
                || [',', '.', '!', '?', '$', '\''].contains(&c);
            assert_eq!(kept(c), allowed);
        }
    }
}
