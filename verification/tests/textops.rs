//! The character-level utilities underneath the evaluator.

use vocabulearn::text::{find_char, normalize, str_eq, trim_exec};

#[test]
fn trim_removes_surrounding_whitespace_only() {
    assert_eq!(trim_exec("  a b  "), "a b");
    assert_eq!(trim_exec("cat"), "cat");
    assert_eq!(trim_exec("\t cat \n"), "cat");
    assert_eq!(trim_exec("   "), "");
    assert_eq!(trim_exec(""), "");
}

#[test]
fn normalize_trims_and_upper_cases() {
    assert_eq!(normalize("  cat "), "CAT");
    assert_eq!(normalize("Dog (m)"), "DOG (M)");
    assert_eq!(normalize(""), "");
}

#[test]
fn find_char_returns_the_first_occurrence() {
    assert_eq!(find_char("cat/kitten", '/'), Some(3));
    assert_eq!(find_char("a/b/c", '/'), Some(1));
    assert_eq!(find_char("cat", '/'), None);
    assert_eq!(find_char("", '('), None);
}

#[test]
fn str_eq_compares_characters() {
    assert!(str_eq("gato", "gato"));
    assert!(!str_eq("gato", "gata"));
    assert!(!str_eq("gato", "gat"));
    assert!(str_eq("", ""));
}
