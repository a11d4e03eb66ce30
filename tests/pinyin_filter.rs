use yazi_brand::filter::FilterCase;
use yazi_brand::pinyin_utils::{has_cjk, initial_letter, is_cjk_char, to_pinyin_initials};

#[test]
fn chinese_characters_become_initials() {
    assert_eq!(to_pinyin_initials("中文abc"), "zwabc");
    assert_eq!(to_pinyin_initials("拼音.txt"), "py.txt");
}

#[test]
fn other_characters_stay() {
    assert_eq!(to_pinyin_initials(""), "");
    assert_eq!(to_pinyin_initials("readme.md"), "readme.md");
    assert_eq!(to_pinyin_initials("ñ-é"), "ñ-é");
}

#[test]
fn initial_from_reading() {
    assert_eq!(initial_letter('中', &Some("zhong".to_string())), 'z');
    assert_eq!(initial_letter('中', &None), 'x');
    assert_eq!(initial_letter('中', &Some(String::new())), 'x');
    assert_eq!(initial_letter('a', &Some("zhong".to_string())), 'a');
}

#[test]
fn cjk_block_bounds() {
    assert!(is_cjk_char('\u{4E00}'));
    assert!(is_cjk_char('\u{9FFF}'));
    assert!(!is_cjk_char('\u{4DFF}'));
    assert!(!is_cjk_char('\u{A000}'));
    assert!(has_cjk("file中.txt"));
    assert!(!has_cjk("file.txt"));
    assert!(!has_cjk(""));
}

#[test]
fn filter_case_from_flags() {
    assert_eq!(FilterCase::from_flags(true, true), FilterCase::Smart);
    assert_eq!(FilterCase::from_flags(true, false), FilterCase::Smart);
    assert_eq!(FilterCase::from_flags(false, true), FilterCase::Insensitive);
    assert_eq!(FilterCase::from_flags(false, false), FilterCase::Sensitive);
    assert_eq!(FilterCase::default(), FilterCase::Sensitive);
}

#[test]
fn filter_case_rule() {
    assert!(FilterCase::Smart.ignores_case(false));
    assert!(!FilterCase::Smart.ignores_case(true));
    assert!(!FilterCase::Sensitive.ignores_case(false));
    assert!(FilterCase::Insensitive.ignores_case(true));
}

use yazi_brand::filter::{has_upper, Filter, FilterError};

#[test]
fn invalid_pattern_is_rejected() {
    assert!(matches!(Filter::new("(", FilterCase::Sensitive), Err(FilterError::Pattern(_))));
    assert!(Filter::new("[a-", FilterCase::Smart).is_err());
}

#[test]
fn sensitive_filter_keeps_case() {
    let f = Filter::new("abc", FilterCase::Sensitive).unwrap();
    assert!(f.matches(b"xabcx"));
    assert!(!f.matches(b"ABC"));
    assert_eq!(f.as_str(), "abc");
}

#[test]
fn insensitive_filter_folds_case() {
    let f = Filter::new("abc", FilterCase::Insensitive).unwrap();
    assert!(f.matches(b"ABC.txt"));
}

#[test]
fn smart_filter_depends_on_upper_case() {
    let lower = Filter::new("readme", FilterCase::Smart).unwrap();
    assert!(lower.matches(b"README.md"));
    let upper = Filter::new("Readme", FilterCase::Smart).unwrap();
    assert!(!upper.matches(b"README.md"));
    assert!(upper.matches(b"Readme.md"));
    assert!(has_upper("aBc"));
    assert!(!has_upper("abc1"));
}

#[test]
fn chinese_name_matches_by_initials() {
    let f = Filter::new("^zw", FilterCase::Sensitive).unwrap();
    assert!(f.matches("中文.txt".as_bytes()));
    assert!(!f.matches("英文.txt".as_bytes()));
    assert!(!f.matches(b"zebra"));
}

#[test]
fn initials_are_not_tried_for_other_names() {
    let f = Filter::new("^x", FilterCase::Sensitive).unwrap();
    assert!(!f.matches(&[0xff, 0xfe]));
    assert!(!f.matches(b"abc"));
}

#[test]
fn highlighted_ranges() {
    let f = Filter::new("b+", FilterCase::Sensitive).unwrap();
    assert_eq!(f.highlighted(b"abbbc"), Some(vec![1..4]));
    assert_eq!(f.highlighted(b"ac"), None);
    let name = "中文";
    assert_eq!(f.highlighted(name.as_bytes()), Some(vec![0..name.len()]));
}

#[test]
fn filters_compare_by_pattern() {
    let a = Filter::new("abc", FilterCase::Sensitive).unwrap();
    let b = Filter::new("abc", FilterCase::Insensitive).unwrap();
    let c = Filter::new("abd", FilterCase::Sensitive).unwrap();
    assert!(a == b);
    assert!(a != c);
}
