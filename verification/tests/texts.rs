use ozymem::text::{
    begins_with, comes_first, decimal_i128, decimal_i64, decimal_u128, decimal_u64, finishes_with,
    has_char, has_text, is_blank, is_white_space, join, lines, pad, parse_i64, parse_unsigned,
    replace, same_ignoring_ascii_case, sort, split, to_ascii_lowercase, trim, trim_end_char,
    trim_start, without_prefix,
};
use ozymem::fs_utils::is_ignored_by_patterns;
use ozymem::parser::is_binary_file;
use ozymem::tree::{render_tree_node, TreeNode};

const TEXTS: [&str; 14] = [
    "", " ", "a", " a ", "a b", "\ta\n", "a\nb", "a\r\nb\r\n", "\n", "\n\n", "áé ü", "\u{2003}x\u{a0}",
    "a,b,,c", "aaa",
];

#[test]
fn white_space_is_that_of_unicode() {
    for code in 0..=0x10FFFFu32 {
        if let Some(c) = char::from_u32(code) {
            assert_eq!(is_white_space(c), c.is_whitespace(), "{:?}", c);
        }
    }
}

#[test]
fn texts_are_cut_as_std_cuts_them() {
    for text in TEXTS {
        assert_eq!(trim(text), text.trim());
        assert_eq!(trim_start(text), text.trim_start());
        assert_eq!(trim_end_char(text, 'a'), text.trim_end_matches('a'));
        assert_eq!(is_blank(text), text.trim().is_empty());
        assert_eq!(lines(text), text.lines().collect::<Vec<_>>());
        for part in ["a", ",", "aa", "b\n", " "] {
            assert_eq!(split(text, part), text.split(part).collect::<Vec<_>>());
            assert_eq!(replace(text, part, "-"), text.replace(part, "-"));
            assert_eq!(has_text(text, part), text.contains(part));
            assert_eq!(begins_with(text, part), text.starts_with(part));
            assert_eq!(finishes_with(text, part), text.ends_with(part));
            assert_eq!(
                without_prefix(text, part),
                text.strip_prefix(part).map(|rest| rest.to_string())
            );
        }
        assert_eq!(has_char(text, 'a'), text.contains('a'));
    }
}

#[test]
fn splitting_and_joining_gives_the_text_back() {
    for text in TEXTS {
        assert_eq!(join(&split(text, ","), ","), text);
    }
}

#[test]
fn numbers_are_written_and_read_back() {
    for n in [0i64, 1, -1, 42, i64::MAX, i64::MIN] {
        assert_eq!(decimal_i64(n), n.to_string());
        assert_eq!(parse_i64(&decimal_i64(n)), Some(n));
    }
    assert_eq!(decimal_u64(u64::MAX), u64::MAX.to_string());
    assert_eq!(decimal_u128(u128::MAX), u128::MAX.to_string());
    assert_eq!(decimal_i128(-5), "-5");
    for text in ["", "+", "-", "+7", "-7", "007", "7x", " 7", "18446744073709551615", "18446744073709551616"] {
        assert_eq!(parse_unsigned(text, u64::MAX), text.parse::<u64>().ok(), "{:?}", text);
        assert_eq!(parse_i64(text), text.parse::<i64>().ok(), "{:?}", text);
    }
    assert_eq!(parse_unsigned("256", 255), None);
    assert_eq!(parse_unsigned("255", 255), Some(255));
}

#[test]
fn texts_are_ordered_as_std_orders_them() {
    let mut texts: Vec<String> = TEXTS.iter().map(|t| t.to_string()).collect();
    let sorted = sort(&texts);
    texts.sort();
    assert_eq!(sorted, texts);
    for a in TEXTS {
        for b in TEXTS {
            assert_eq!(comes_first(a, b), a <= b, "{:?} {:?}", a, b);
        }
    }
}

#[test]
fn ascii_letters_are_compared_without_case() {
    assert_eq!(to_ascii_lowercase("AbÉ"), "abÉ");
    assert!(same_ignoring_ascii_case("TARGET", "target"));
    assert!(!same_ignoring_ascii_case("É", "é"));
    assert_eq!(pad("áb", 4), format!("{:<4}", "áb"));
    assert_eq!(pad("abcdef", 4), "abcdef");
}

#[test]
fn letters_of_other_scripts_have_cases_too() {
    assert!(is_binary_file("PHOTO.PNG"));
    assert!(is_ignored_by_patterns("/p/ÉCOLE", &["école".to_string()], "/p"));
    let node = TreeNode {
        path: "ñ.rs".to_string(),
        context: None,
        functions: Vec::new(),
        dependencies: Vec::new(),
        truncated: false,
        cyclic: false,
    };
    assert!(!render_tree_node(&node, "", true, true).is_empty());
}
