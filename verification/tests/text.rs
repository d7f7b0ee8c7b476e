use klipdot::paths::expand_with;
use klipdot::paths::join;
use klipdot::paths::path_extension;
use klipdot::paths::path_file_name;
use klipdot::text::char_is_whitespace;
use klipdot::text::decimal_string;
use klipdot::text::find;
use klipdot::text::from_chars;
use klipdot::text::parse_number;
use klipdot::text::replace;
use klipdot::text::split_lines;
use klipdot::text::split_on;
use klipdot::text::split_whitespace;
use klipdot::text::str_contains;
use klipdot::text::str_eq;
use klipdot::text::to_chars;
use klipdot::text::to_lower;
use klipdot::text::trim;
use klipdot::text::ParseFailure;
use klipdot::tools::choose_available;

fn chars(s: &str) -> Vec<char> {
    s.chars().collect()
}

fn text(v: &[char]) -> String {
    v.iter().collect()
}

fn texts(v: Vec<Vec<char>>) -> Vec<String> {
    v.iter().map(|r| r.iter().collect()).collect()
}

const SAMPLES: [&str; 14] = [
    "",
    " ",
    "a",
    " a b ",
    "\t\u{a0}x\u{2003}y\u{3000}\n",
    "one\ntwo\r\nthree\n\n",
    "tail\r",
    "\n",
    "\r\n",
    "a,b,,c,",
    "ÄÖÜ straße ǅ İ K",
    "  mixed \u{85} white\u{1680}space\u{2028}\u{2029}\u{202f}\u{205f} ",
    "x\u{200b}y \u{feff}z",
    "+12 -3 0042",
];

#[test]
fn characters_round_trip() {
    for s in SAMPLES {
        assert_eq!(to_chars(s), chars(s));
        assert_eq!(from_chars(&chars(s)), s);
    }
}

#[test]
fn white_space_is_that_of_the_standard_library() {
    for code in 0..=0x10FFFFu32 {
        if let Some(c) = char::from_u32(code) {
            assert_eq!(char_is_whitespace(c), c.is_whitespace(), "U+{:04X}", code);
        }
    }
}

#[test]
fn lower_case_is_ascii_lower_case() {
    for s in SAMPLES {
        assert_eq!(text(&to_lower(&chars(s))), s.to_ascii_lowercase());
    }
    assert_eq!(text(&to_lower(&chars("AZ az @[ `{"))), "az az @[ `{");
}

#[test]
fn trimming_and_splitting_agree_with_the_standard_library() {
    for s in SAMPLES {
        assert_eq!(text(&trim(&chars(s))), s.trim(), "{:?}", s);
        let expected_words: Vec<String> = s.split_whitespace().map(|w| w.to_string()).collect();
        assert_eq!(texts(split_whitespace(&chars(s))), expected_words, "{:?}", s);
        let expected_lines: Vec<String> = s.lines().map(|l| l.to_string()).collect();
        assert_eq!(texts(split_lines(&chars(s))), expected_lines, "{:?}", s);
        let expected_fields: Vec<String> = s.split(',').map(|f| f.to_string()).collect();
        assert_eq!(texts(split_on(&chars(s), ',')), expected_fields, "{:?}", s);
    }
}

#[test]
fn searching_and_replacing_agree_with_the_standard_library() {
    let needles = ["", "a", " ", "b,", "\n", "two", "ß", "aa", "zzz"];
    for s in SAMPLES.iter().chain(["aaa", "aaaa", "abab", "zz"].iter()) {
        for n in needles {
            assert_eq!(str_contains(s, n), s.contains(n), "{:?} {:?}", s, n);
            let byte_index = s.find(n).map(|i| s[..i].chars().count());
            assert_eq!(find(&chars(s), &chars(n)), byte_index, "{:?} {:?}", s, n);
            if !n.is_empty() {
                assert_eq!(text(&replace(&chars(s), &chars(n), &chars("<>"))), s.replace(n, "<>"));
                assert_eq!(text(&replace(&chars(s), &chars(n), &[])), s.replace(n, ""));
            }
        }
        assert_eq!(text(&replace(&chars(s), &[], &chars("x"))), *s);
    }
    assert!(str_eq("abc", "abc"));
    assert!(!str_eq("abc", "abd"));
    assert!(!str_eq("abc", "ab"));
    assert!(str_eq("", ""));
}

#[test]
fn numbers_agree_with_the_standard_library() {
    let inputs = [
        "", "0", "7", "+7", "-7", "++7", "+", "-", "007", "4294967295", "4294967296", "18446744073709551615",
        "18446744073709551616", "99999999999999999999999", "12a", "a12", " 12", "12 ", "1_000", "١٢", "0x10",
    ];
    for s in inputs {
        assert_eq!(parse_number(&chars(s), u64::MAX).ok(), s.parse::<u64>().ok(), "{:?}", s);
        assert_eq!(parse_number(&chars(s), u32::MAX as u64).ok(), s.parse::<u32>().ok().map(|n| n as u64), "{:?}", s);
    }
    assert_eq!(parse_number(&chars(""), 10), Err(ParseFailure::Empty));
    assert_eq!(parse_number(&chars("+"), 10), Err(ParseFailure::InvalidDigit));
    assert_eq!(parse_number(&chars("1x"), 0), Err(ParseFailure::InvalidDigit));
    assert_eq!(parse_number(&chars("11"), 10), Err(ParseFailure::TooLarge));
    assert_eq!(parse_number(&chars("10"), 10), Ok(10));
    assert_eq!(parse_number(&chars("99999999999999999999x"), 10), Err(ParseFailure::InvalidDigit));
    for n in [0u128, 1, 9, 10, 99, 100, 12345, u64::MAX as u128, u128::MAX] {
        assert_eq!(decimal_string(n), n.to_string());
    }
}

#[test]
fn path_parts() {
    let cases = [
        ("/tmp/a.png", "a.png", Some("png")),
        ("a.tar.gz", "a.tar.gz", Some("gz")),
        ("/tmp/.hidden", ".hidden", None),
        ("/tmp/.hidden.png", ".hidden.png", Some("png")),
        ("/tmp.d/file", "file", None),
        ("file.", "file.", Some("")),
        ("", "", None),
        ("/", "", None),
        ("dir/", "", None),
        ("C:\\x\\y.png", "C:\\x\\y.png", Some("png")),
    ];
    for (path, name, ext) in cases {
        assert_eq!(text(&path_file_name(&chars(path))), name, "{:?}", path);
        assert_eq!(path_extension(&chars(path)).map(|e| text(&e)).as_deref(), ext, "{:?}", path);
    }
}

#[test]
fn joining_and_expanding_paths() {
    assert_eq!(join("/a", "b"), "/a/b");
    assert_eq!(join("/a/", "b"), "/a/b");
    assert_eq!(join("a", "b/c"), "a/b/c");
    assert_eq!(join("", "b"), "b");
    assert_eq!(join("/a", ""), "/a/");
    assert_eq!(join("/a", "/b"), "/b");
    assert_eq!(join("/", "b"), "/b");
    assert_eq!(text(&expand_with(&chars("~/x.png"), Some("/home/u"))), "/home/u/x.png");
    assert_eq!(text(&expand_with(&chars("~"), Some("/home/u"))), "/home/u");
    assert_eq!(text(&expand_with(&chars("~other/x"), Some("/home/u"))), "/home/uother/x");
    assert_eq!(text(&expand_with(&chars("~/x.png"), None)), "~/x.png");
    assert_eq!(text(&expand_with(&chars("/a/~/b"), Some("/home/u"))), "/a/~/b");
    assert_eq!(text(&expand_with(&chars(""), Some("/home/u"))), "");
}

#[test]
fn available_tools_are_chosen_in_order() {
    let candidates: Vec<String> = ["a", "b", "c", "d"].iter().map(|s| s.to_string()).collect();
    assert_eq!(choose_available(&candidates, &[true, false, true, true]), vec!["a", "c", "d"]);
    assert!(choose_available(&candidates, &[false, false, false, false]).is_empty());
    assert_eq!(choose_available(&candidates, &[true, true, true, true]), candidates);
    assert!(choose_available(&[], &[]).is_empty());
    assert_eq!(choose_available(&candidates, &[false, true]), vec!["b"]);
    assert_eq!(choose_available(&candidates, &[true, false, false, false, true, true]), vec!["a"]);
}
