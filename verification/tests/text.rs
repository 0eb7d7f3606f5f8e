use calculator::text::{chars_of, is_whitespace, same, split_whitespace, trim};

const SAMPLES: [&str; 24] = [
    "",
    " ",
    "\t\n\r ",
    "a",
    " a",
    "a ",
    "  a  ",
    "+ 3 4",
    "  +   3\t4\n",
    "/ 10 0",
    "* 2",
    "a b c d e",
    "ab  cd",
    "\u{a0}x\u{a0}",
    "\u{2003}12\u{3000}34\u{2028}",
    "\u{85}\u{1680}y\u{202f}\u{205f}\u{2029}",
    "\u{b}\u{c}z",
    "žába",
    " 東京 / 京都 ",
    "1\u{200b}2",
    "1\u{feff}2",
    "\u{180e}q\u{180e}",
    "x\u{2000}\u{2001}\u{2002}\u{2004}\u{2005}\u{2006}\u{2007}\u{2008}\u{2009}\u{200a}y",
    "   ",
];

#[test]
fn whitespace_is_what_the_standard_library_says() {
    let mut code: u32 = 0;
    while code <= 0x10ffff {
        if let Some(c) = char::from_u32(code) {
            assert_eq!(is_whitespace(c), c.is_whitespace(), "U+{:04X}", code);
        }
        code += 1;
    }
}

#[test]
fn whitespace_has_twenty_five_characters() {
    let mut count = 0;
    let mut code: u32 = 0;
    while code <= 0x10ffff {
        if let Some(c) = char::from_u32(code) {
            if is_whitespace(c) {
                count += 1;
            }
        }
        code += 1;
    }
    assert_eq!(count, 25);
}

#[test]
fn zero_width_characters_are_no_whitespace() {
    assert!(!is_whitespace('\u{200b}'));
    assert!(!is_whitespace('\u{feff}'));
    assert!(!is_whitespace('\u{180e}'));
    assert!(!is_whitespace('0'));
    assert!(!is_whitespace('+'));
}

#[test]
fn chars_of_gives_the_characters_in_order() {
    assert_eq!(chars_of(""), Vec::<char>::new());
    assert_eq!(chars_of("a+ž"), vec!['a', '+', 'ž']);
    for sample in SAMPLES {
        assert_eq!(chars_of(sample), sample.chars().collect::<Vec<char>>());
    }
}

#[test]
fn trim_removes_whitespace_at_both_ends() {
    assert_eq!(trim(""), "");
    assert_eq!(trim("   "), "");
    assert_eq!(trim("a"), "a");
    assert_eq!(trim("  a b  "), "a b");
    assert_eq!(trim("\t+\n"), "+");
    assert_eq!(trim("\u{3000}m\u{a0}"), "m");
    assert_eq!(trim("\u{200b}m"), "\u{200b}m");
}

#[test]
fn trim_is_what_the_standard_library_does() {
    for sample in SAMPLES {
        assert_eq!(trim(sample), sample.trim(), "{:?}", sample);
    }
}

#[test]
fn trim_twice_is_trim_once() {
    for sample in SAMPLES {
        assert_eq!(trim(trim(sample)), trim(sample), "{:?}", sample);
    }
}

#[test]
fn split_whitespace_gives_the_tokens() {
    assert_eq!(split_whitespace(""), Vec::<&str>::new());
    assert_eq!(split_whitespace(" \t "), Vec::<&str>::new());
    assert_eq!(split_whitespace("+ 3 4"), vec!["+", "3", "4"]);
    assert_eq!(split_whitespace("  /\t10 \n 0  "), vec!["/", "10", "0"]);
    assert_eq!(split_whitespace("* 2"), vec!["*", "2"]);
    assert_eq!(split_whitespace("abc"), vec!["abc"]);
    assert_eq!(split_whitespace("1\u{2003}2\u{3000}3"), vec!["1", "2", "3"]);
}

#[test]
fn split_whitespace_is_what_the_standard_library_does() {
    for sample in SAMPLES {
        let expected: Vec<&str> = sample.split_whitespace().collect();
        assert_eq!(split_whitespace(sample), expected, "{:?}", sample);
    }
}

#[test]
fn split_whitespace_ignores_whitespace_around_the_text() {
    for sample in SAMPLES {
        assert_eq!(split_whitespace(trim(sample)), split_whitespace(sample), "{:?}", sample);
    }
}

#[test]
fn tokens_are_words() {
    for sample in SAMPLES {
        for token in split_whitespace(sample) {
            assert!(!token.is_empty());
            assert!(token.chars().all(|c| !is_whitespace(c)));
            assert_eq!(trim(token), token);
        }
    }
}

#[test]
fn same_compares_character_by_character() {
    assert!(same("", ""));
    assert!(same("no", "no"));
    assert!(!same("no", "No"));
    assert!(!same("no", "n"));
    assert!(!same("n", "no"));
    assert!(!same("no", "on"));
    assert!(same("žába", "žába"));
    for a in SAMPLES {
        for b in SAMPLES {
            assert_eq!(same(a, b), a == b);
        }
    }
}
