use player_core::text::{
    append, append_decimal, chars_of, contains, is_whitespace_char, join, lines, occurs_at,
    parse_u64, replace, slice_of, split, starts_with, string_of, to_decimal, trim,
};

fn chars(s: &str) -> Vec<char> {
    s.chars().collect()
}

fn strings(parts: &Vec<Vec<char>>) -> Vec<String> {
    parts.iter().map(|p| p.iter().collect::<String>()).collect()
}

const SAMPLES: [&str; 24] = [
    "",
    " ",
    "a",
    "abc",
    "  abc  ",
    "\t\n abc def \r\n",
    "\n",
    "\n\n",
    "\n\n\n",
    "a\nb",
    "a\n\nb",
    "a\n\n\nb",
    "a\n\n\n\nb\n\n",
    "a\r\nb\r\n",
    "a\r",
    "a\n\r",
    "\r\n\r\n",
    "a-->b",
    "a--->b-->",
    "-->-->",
    "1:2:3",
    "::",
    "\u{3000}x\u{a0}",
    "h\u{e9}llo w\u{f6}rld \u{1F600}",
];

#[test]
fn test_whitespace_agrees_with_the_standard_library() {
    for code in 0..=0x10FFFFu32 {
        if let Some(c) = char::from_u32(code) {
            assert_eq!(is_whitespace_char(c), c.is_whitespace(), "U+{:04X}", code);
        }
    }
}

#[test]
fn test_whitespace_characters() {
    for c in [' ', '\t', '\n', '\r', '\u{0B}', '\u{0C}', '\u{85}', '\u{A0}', '\u{2028}', '\u{3000}'] {
        assert!(is_whitespace_char(c));
    }
    for c in ['a', '0', '\u{08}', '\u{0E}', '\u{1F}', '!', '\u{200B}', '\u{180E}', '\u{FEFF}'] {
        assert!(!is_whitespace_char(c));
    }
}

#[test]
fn test_chars_and_strings_convert_both_ways() {
    for sample in SAMPLES {
        assert_eq!(chars_of(sample), chars(sample));
        assert_eq!(string_of(&chars(sample)), sample);
    }
}

#[test]
fn test_trim_agrees_with_the_standard_library() {
    for sample in SAMPLES {
        assert_eq!(string_of(&trim(&chars(sample))), sample.trim(), "{:?}", sample);
    }
    assert_eq!(string_of(&trim(&chars("  a b  "))), "a b");
    assert_eq!(string_of(&trim(&chars(" \t\r\n"))), "");
}

#[test]
fn test_split_agrees_with_the_standard_library() {
    for sample in SAMPLES {
        for pat in ["\n\n", "-->", ":", ".", "\n", "ab", "a"] {
            let expected: Vec<String> = sample.split(pat).map(|p| p.to_string()).collect();
            assert_eq!(
                strings(&split(&chars(sample), &chars(pat))),
                expected,
                "{:?} by {:?}",
                sample,
                pat
            );
        }
    }
}

#[test]
fn test_split_examples() {
    assert_eq!(strings(&split(&chars("a,b,c"), &chars(","))), vec!["a", "b", "c"]);
    assert_eq!(strings(&split(&chars(""), &chars(","))), vec![""]);
    assert_eq!(strings(&split(&chars(","), &chars(","))), vec!["", ""]);
    assert_eq!(strings(&split(&chars("aaa"), &chars("aa"))), vec!["", "a"]);
    assert_eq!(strings(&split(&chars("a\n\n\nb"), &chars("\n\n"))), vec!["a", "\nb"]);
    assert_eq!(strings(&split(&chars("abc"), &chars("abcd"))), vec!["abc"]);
    assert_eq!(strings(&split(&chars("abc"), &chars(""))), vec!["abc"]);
}

#[test]
fn test_lines_agree_with_the_standard_library() {
    for sample in SAMPLES {
        let expected: Vec<String> = sample.lines().map(|p| p.to_string()).collect();
        assert_eq!(strings(&lines(&chars(sample))), expected, "{:?}", sample);
    }
}

#[test]
fn test_lines_examples() {
    assert_eq!(strings(&lines(&chars("a\nb"))), vec!["a", "b"]);
    assert_eq!(strings(&lines(&chars("a\r\nb\n"))), vec!["a", "b"]);
    assert_eq!(strings(&lines(&chars("a\n\nb"))), vec!["a", "", "b"]);
    assert_eq!(strings(&lines(&chars("a\r"))), vec!["a\r"]);
    assert_eq!(strings(&lines(&chars("a\r\r\n"))), vec!["a\r"]);
    assert!(lines(&chars("")).is_empty());
    assert_eq!(strings(&lines(&chars("\n"))), vec![""]);
}

#[test]
fn test_join_agrees_with_the_standard_library() {
    let parts: Vec<Vec<char>> = ["a", "", "bc", "d"].iter().map(|p| chars(p)).collect();
    let names = ["a", "", "bc", "d"];
    for from in 0..=4 {
        for sep in ["\n", "", ", "] {
            assert_eq!(string_of(&join(&parts, from, &chars(sep))), names[from..].join(sep));
        }
    }
    assert_eq!(string_of(&join(&parts, 0, &chars("\n"))), "a\n\nbc\nd");
    assert_eq!(string_of(&join(&parts, 2, &chars("-"))), "bc-d");
    assert_eq!(string_of(&join(&parts, 3, &chars("-"))), "d");
    assert_eq!(string_of(&join(&parts, 4, &chars("-"))), "");
}

#[test]
fn test_replace_agrees_with_the_standard_library() {
    for sample in SAMPLES {
        assert_eq!(string_of(&replace(&chars(sample), ':', '.')), sample.replace(':', "."));
    }
    assert_eq!(string_of(&replace(&chars("1,5,,"), ',', '.')), "1.5..");
    assert_eq!(string_of(&replace(&chars("abc"), 'x', 'y')), "abc");
}

#[test]
fn test_parse_u64_agrees_with_the_standard_library() {
    for sample in [
        "",
        "0",
        "7",
        "007",
        "42",
        "+",
        "+5",
        "++5",
        "-5",
        "-0",
        "5+",
        " 5",
        "5 ",
        "1_000",
        "0x10",
        "1e3",
        "12a",
        "a12",
        "\u{FF11}",
        "\u{0661}",
        "18446744073709551615",
        "18446744073709551616",
        "+18446744073709551615",
        "99999999999999999999",
        "000000000000000000000000000001",
        "184467440737095516150",
    ] {
        assert_eq!(parse_u64(&chars(sample)), sample.parse::<u64>().ok(), "{:?}", sample);
    }
    assert_eq!(parse_u64(&chars("123")), Some(123));
    assert_eq!(parse_u64(&chars("18446744073709551615")), Some(u64::MAX));
    assert_eq!(parse_u64(&chars("18446744073709551616")), None);
}

#[test]
fn test_decimal_agrees_with_the_standard_library() {
    for n in [0usize, 1, 9, 10, 11, 99, 100, 101, 12345, 1_000_000, usize::MAX - 1, usize::MAX] {
        assert_eq!(string_of(&to_decimal(n)), format!("{}", n));
    }
    let mut out = chars("n=");
    append_decimal(&mut out, 307);
    assert_eq!(string_of(&out), "n=307");
}

#[test]
fn test_prefix_and_infix() {
    let text = chars("WEBVTT file");
    assert!(starts_with(&text, &chars("WEBVTT")));
    assert!(starts_with(&text, &chars("")));
    assert!(starts_with(&text, &chars("WEBVTT file")));
    assert!(!starts_with(&text, &chars("WEBVTT file!")));
    assert!(!starts_with(&text, &chars("EBVTT")));
    assert!(contains(&text, &chars("EBVTT")));
    assert!(contains(&text, &chars("file")));
    assert!(contains(&text, &chars("")));
    assert!(contains(&chars(""), &chars("")));
    assert!(!contains(&text, &chars("files")));
    assert!(!contains(&chars(""), &chars("a")));
    assert!(occurs_at(&text, 7, &chars("file")));
    assert!(occurs_at(&text, 11, &chars("")));
    assert!(!occurs_at(&text, 12, &chars("")));
    assert!(!occurs_at(&text, 8, &chars("file")));
    assert!(!occurs_at(&text, usize::MAX, &chars("f")));
    for sample in SAMPLES {
        for pat in ["\n\n", "-->", "a", "", "b\r"] {
            assert_eq!(contains(&chars(sample), &chars(pat)), sample.contains(pat));
            assert_eq!(starts_with(&chars(sample), &chars(pat)), sample.starts_with(pat));
        }
    }
}

#[test]
fn test_slice_and_append() {
    let text = chars("hello world");
    assert_eq!(string_of(&slice_of(&text, 0, 5)), "hello");
    assert_eq!(string_of(&slice_of(&text, 6, 11)), "world");
    assert_eq!(string_of(&slice_of(&text, 3, 3)), "");
    let mut out = chars("ab");
    append(&mut out, &chars("cd"));
    append(&mut out, &chars(""));
    assert_eq!(string_of(&out), "abcd");
}
