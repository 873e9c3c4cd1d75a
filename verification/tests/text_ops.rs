use tg_ai_bot_rust::text::{
    chars_of, contains, is_white_space_char, replace, starts_with, take_chars, trim,
    trim_start_matches,
};

const SAMPLES: &[&str] = &[
    "",
    " ",
    "abc",
    "  hello world  ",
    "\t\n x \r\u{a0}",
    "\u{3000}wide\u{2003}",
    "/ask",
    "/ask/ask what?",
    "/ask  /ask x",
    "@bot hi @bot",
    "@@bot",
    "héllo wörld ✓",
    "\u{85}next line\u{2028}",
    "aaaa",
];

#[test]
fn white_space_matches_std_for_every_char() {
    for u in 0u32..=0x10FFFF {
        if let Some(c) = char::from_u32(u) {
            assert_eq!(is_white_space_char(c), c.is_whitespace(), "U+{:04X}", u);
        }
    }
}

#[test]
fn trim_matches_std() {
    for s in SAMPLES {
        assert_eq!(trim(s), s.trim(), "{:?}", s);
    }
}

#[test]
fn trim_examples() {
    assert_eq!(trim("  hello world  "), "hello world");
    assert_eq!(trim("   "), "");
    assert_eq!(trim("\u{3000}x\u{a0}"), "x");
}

#[test]
fn starts_with_matches_std() {
    for s in SAMPLES {
        for p in SAMPLES {
            assert_eq!(starts_with(s, p), s.starts_with(p), "{:?} {:?}", s, p);
        }
    }
}

#[test]
fn contains_matches_std() {
    for s in SAMPLES {
        for p in SAMPLES {
            assert_eq!(contains(s, p), s.contains(p), "{:?} {:?}", s, p);
        }
    }
}

#[test]
fn trim_start_matches_matches_std() {
    for s in SAMPLES {
        for p in SAMPLES {
            assert_eq!(trim_start_matches(s, p), s.trim_start_matches(p), "{:?} {:?}", s, p);
        }
    }
    assert_eq!(trim_start_matches("/ask/ask what?", "/ask"), " what?");
}

#[test]
fn replace_matches_std() {
    for s in SAMPLES {
        for p in SAMPLES.iter().filter(|p| !p.is_empty()) {
            for w in ["", "X", "@bot"] {
                assert_eq!(replace(s, p, w), s.replace(p, w), "{:?} {:?} {:?}", s, p, w);
            }
        }
    }
    assert_eq!(replace("aaaa", "aa", "b"), "bb");
    assert_eq!(replace("@@bot", "@bot", ""), "@");
}

#[test]
fn take_chars_counts_characters() {
    assert_eq!(take_chars("héllo", 2), "hé");
    assert_eq!(take_chars("abc", 10), "abc");
    assert_eq!(take_chars("abc", 0), "");
    for s in SAMPLES {
        for n in 0..6 {
            assert_eq!(take_chars(s, n), s.chars().take(n).collect::<String>());
        }
    }
}

#[test]
fn chars_of_lists_characters() {
    assert_eq!(chars_of("hé✓"), vec!['h', 'é', '✓']);
    assert!(chars_of("").is_empty());
}
