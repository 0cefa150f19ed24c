use cuc::ratio::Ratio;
use cuc::sorted::{chars_lt, insert_into_sorted};
use cuc::string_map::StringMap;
use cuc::text::{
    chars_of, decimal_string, find_chars, split_chars, split_words, str_contains, str_eq,
    str_starts_with, str_trim, string_of,
};

fn v(s: &str) -> Vec<char> {
    s.chars().collect()
}

fn strings(parts: Vec<Vec<char>>) -> Vec<String> {
    parts.iter().map(|p| p.iter().collect()).collect()
}

#[test]
fn strings_and_characters_convert_both_ways() {
    for s in ["", "abc", "äöü €😀", " a\tb\n"] {
        assert_eq!(chars_of(s), v(s));
        assert_eq!(string_of(&v(s)), s);
    }
}

#[test]
fn substrings_are_found_from_the_left() {
    assert!(str_contains("hello world", "lo w"));
    assert!(str_contains("hello", ""));
    assert!(str_contains("", ""));
    assert!(!str_contains("", "a"));
    assert!(!str_contains("hello", "hello!"));
    assert!(!str_contains("Hello", "hello"));
    assert_eq!(find_chars(&v("abcabc"), &v("bc"), 0), Some(1));
    assert_eq!(find_chars(&v("abcabc"), &v("bc"), 2), Some(4));
    assert_eq!(find_chars(&v("abcabc"), &v("bc"), 5), None);
    assert_eq!(find_chars(&v("abc"), &v(""), 3), Some(3));
    assert_eq!(find_chars(&v("abc"), &v(""), 4), None);
    assert_eq!(find_chars(&v("aaa"), &v("aa"), 1), Some(1));
    assert!(str_starts_with("ibmcloud login", "ibmcloud"));
    assert!(!str_starts_with("ibm", "ibmcloud"));
    assert!(str_eq("é", "é"));
    assert!(!str_eq("a", "ab"));
}

#[test]
fn trimming_and_words_follow_unicode_whitespace() {
    assert_eq!(str_trim("  a b \n"), "a b");
    assert_eq!(str_trim("\u{a0}x\u{3000}"), "x");
    assert_eq!(str_trim(" \t\r\n"), "");
    assert_eq!(str_trim(""), "");
    for s in ["  one two\tthree\n", "", "   ", "a", "a\u{2003}b", " x  y "] {
        let expected: Vec<String> = s.split_whitespace().map(|w| w.to_string()).collect();
        assert_eq!(strings(split_words(&v(s))), expected);
        assert_eq!(str_trim(s), s.trim());
    }
}

#[test]
fn splitting_takes_separators_from_the_left_without_overlap() {
    for s in ["a\n\nb", "a\n\n\nb", "\n\n", "", "a", "a\n\n", "\n\n\n\n", "a\nb\n\n\n\nc"] {
        let expected: Vec<String> = s.split("\n\n").map(|p| p.to_string()).collect();
        assert_eq!(strings(split_chars(&v(s), &v("\n\n"))), expected);
    }
    assert_eq!(strings(split_chars(&v("aXXXb"), &v("XX"))), vec!["a", "Xb"]);
}

#[test]
fn numbers_are_written_in_decimal() {
    assert_eq!(decimal_string(0), "0");
    assert_eq!(decimal_string(7), "7");
    assert_eq!(decimal_string(10), "10");
    assert_eq!(decimal_string(1234567890), "1234567890");
    assert_eq!(decimal_string(usize::MAX), usize::MAX.to_string());
}

#[test]
fn texts_are_ordered_by_code_point() {
    let words = ["", "a", "B", "ab", "b", "é", "z", "aa", "😀"];
    for a in words {
        for b in words {
            assert_eq!(chars_lt(&v(a), &v(b)), a < b, "{:?} < {:?}", a, b);
        }
    }
    let mut list: Vec<Vec<char>> = Vec::new();
    for w in ["m", "b", "z", "b", "a", "m", ""] {
        insert_into_sorted(&mut list, v(w));
    }
    assert_eq!(strings(list), vec!["", "a", "b", "m", "z"]);
}

#[test]
fn ratios_compare_exactly() {
    assert!(Ratio::new(1, 3).at_least(&Ratio::new(2, 6)));
    assert!(Ratio::new(1, 3).same_value(&Ratio::new(2, 6)));
    assert!(!Ratio::new(1, 3).exceeds(&Ratio::new(2, 6)));
    assert!(Ratio::new(3, 10).exceeds(&Ratio::new(299, 1000)));
    assert!(!Ratio::new(3, 10).at_least(&Ratio::new(301, 1000)));
    assert!(Ratio::new(u64::MAX, 1).exceeds(&Ratio::new(u64::MAX - 1, 1)));
    assert!(Ratio::new(u64::MAX, u64::MAX).same_value(&Ratio::one()));
    assert_eq!(Ratio::checked(1, 0), None);
    assert_eq!(Ratio::checked(1, 2), Some(Ratio::new(1, 2)));
    assert_eq!(Ratio::new(7, 5).at_most_one(), Ratio::one());
    assert_eq!(Ratio::new(2, 5).at_most_one(), Ratio::new(2, 5));
    assert_eq!(Ratio::zero(), Ratio::new(0, 1));
    assert_eq!(Ratio::percent(30), Ratio::new(30, 100));
}

#[test]
fn string_maps_keep_insertion_order() {
    let mut m: StringMap<u64> = StringMap::new();
    assert!(m.is_empty());
    m.insert("b".to_string(), 2);
    m.insert("a".to_string(), 1);
    m.insert("b".to_string(), 3);
    assert_eq!(m.len(), 2);
    assert_eq!(m.find("a"), Some(1));
    assert_eq!(m.find("c"), None);
    assert!(m.contains_key("b"));
    assert_eq!(m.get("b"), Some(&3));
    assert_eq!(m.key_at(0), "b");
    assert_eq!(*m.value_at(1), 1);
    let mut texts: StringMap<String> = StringMap::new();
    texts.set("k", "v");
    let copy = texts.duplicate();
    texts.set("k", "w");
    assert_eq!(copy.get_text("k"), Some(&"v".to_string()));
    assert_eq!(texts.get_text("k"), Some(&"w".to_string()));
}
