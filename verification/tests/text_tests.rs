use toolbox::process::{ProcessItem, ProcessSortConfig, select_processes};
use toolbox::text::{
    chars_of, chars_equal, contains_chars, decimal_chars, decimal_string, parse_u32_decimal, string_from_chars,
    text_less_exec, trim_white_space,
};

fn chars(s: &str) -> Vec<char> {
    s.chars().collect()
}

#[test]
fn chars_and_strings_convert() {
    assert_eq!(chars_of("a\u{e9}b"), vec!['a', '\u{e9}', 'b']);
    assert_eq!(string_from_chars(&vec!['x', 'y']), "xy");
    assert!(chars_equal(&chars("abc"), &chars("abc")));
    assert!(!chars_equal(&chars("abc"), &chars("abd")));
    assert!(!chars_equal(&chars("ab"), &chars("abc")));
}

#[test]
fn trims_unicode_whitespace() {
    assert_eq!(trim_white_space(&chars("  explorer \t\n")), chars("explorer"));
    assert_eq!(trim_white_space(&chars("\u{3000}a b\u{a0}")), chars("a b"));
    assert_eq!(trim_white_space(&chars("   ")), chars(""));
    assert_eq!(trim_white_space(&chars("")), chars(""));
    for s in ["  x ", "x", " \u{2003}y\u{2003} ", "a  b"] {
        assert_eq!(trim_white_space(&chars(s)), chars(s.trim()));
    }
}

#[test]
fn lowercases_like_std() {
    let snapshot = vec![
        ProcessItem { process_id: 1, process_name: "Explorer.EXE".to_string() },
        ProcessItem { process_id: 2, process_name: "\u{130}stanbul".to_string() },
    ];
    let found = select_processes(&snapshot, &chars("explorer.exe"), ProcessSortConfig::default());
    assert_eq!(found, vec![snapshot[0].clone()]);
    let folded_dotted_i: String = "\u{130}".to_lowercase();
    let found = select_processes(&snapshot, &chars(&folded_dotted_i), ProcessSortConfig::default());
    assert_eq!(found, vec![snapshot[1].clone()]);
}

#[test]
fn finds_substrings() {
    assert!(contains_chars(&chars("explorer.exe"), &chars("plor")));
    assert!(contains_chars(&chars("explorer.exe"), &chars("")));
    assert!(contains_chars(&chars("abc"), &chars("abc")));
    assert!(!contains_chars(&chars("abc"), &chars("abcd")));
    assert!(!contains_chars(&chars("abc"), &chars("ac")));
}

#[test]
fn formats_decimal() {
    assert_eq!(decimal_chars(0), chars("0"));
    assert_eq!(decimal_string(404), "404");
    assert_eq!(decimal_string(1145140), "1145140");
    assert_eq!(decimal_string(u32::MAX), u32::MAX.to_string());
}

#[test]
fn parses_like_std() {
    for s in ["0", "42", "+7", "007", "4294967295", "4294967296", "", "+", "-1", "1a", " 1", "99999999999"] {
        assert_eq!(parse_u32_decimal(&chars(s)), s.parse::<u32>().ok(), "input {:?}", s);
    }
}

#[test]
fn decimal_reads_back() {
    for n in [0u32, 9, 10, 12345, u32::MAX] {
        assert_eq!(parse_u32_decimal(&decimal_chars(n)), Some(n));
    }
}

#[test]
fn orders_like_string_comparison() {
    let words = ["", "a", "ab", "b", "\u{e9}", "Z", "explorer.exe", "explorer"];
    for a in words {
        for b in words {
            assert_eq!(text_less_exec(&chars(a), &chars(b)), a < b, "{:?} < {:?}", a, b);
        }
    }
}

#[test]
fn whitespace_is_the_unicode_white_space_set() {
    let set: Vec<u32> = vec![
        0x09, 0x0a, 0x0b, 0x0c, 0x0d, 0x20, 0x85, 0xa0, 0x1680, 0x2000, 0x2001, 0x2002, 0x2003, 0x2004, 0x2005,
        0x2006, 0x2007, 0x2008, 0x2009, 0x200a, 0x2028, 0x2029, 0x202f, 0x205f, 0x3000,
    ];
    for code in (0u32..0x3100).chain([0x180e, 0x200b, 0xfeff, 0x10ffff]) {
        if let Some(c) = char::from_u32(code) {
            let trimmed = trim_white_space(&vec![c]).is_empty();
            assert_eq!(trimmed, set.contains(&code), "U+{code:04X}");
            assert_eq!(trimmed, c.is_whitespace(), "U+{code:04X}");
        }
    }
}
