use vite_app_core::text::{begins_with, decimal_string, finishes_with, same_text};

#[test]
fn decimal_of_small_numbers() {
    assert_eq!(decimal_string(0), "0");
    assert_eq!(decimal_string(7), "7");
    assert_eq!(decimal_string(9), "9");
    assert_eq!(decimal_string(10), "10");
    assert_eq!(decimal_string(99), "99");
    assert_eq!(decimal_string(100), "100");
    assert_eq!(decimal_string(101), "101");
}

#[test]
fn decimal_of_large_numbers() {
    assert_eq!(decimal_string(1234567890), "1234567890");
    assert_eq!(decimal_string(4294967295), "4294967295");
    assert_eq!(decimal_string(usize::MAX), format!("{}", usize::MAX));
}

#[test]
fn decimal_agrees_with_the_standard_library() {
    let mut n: usize = 0;
    while n < 2000 {
        assert_eq!(decimal_string(n), format!("{}", n));
        n += 1;
    }
}

#[test]
fn same_text_compares_characters() {
    assert!(same_text("", ""));
    assert!(same_text("abc", "abc"));
    assert!(!same_text("abc", "abd"));
    assert!(!same_text("abc", "ab"));
    assert!(!same_text("abc", "ABC"));
    assert!(same_text("页面", "页面"));
}

#[test]
fn begins_with_looks_at_the_first_character() {
    assert!(begins_with("/", '/'));
    assert!(begins_with("/app", '/'));
    assert!(!begins_with("", '/'));
    assert!(!begins_with("app/", '/'));
    assert!(begins_with("é/", 'é'));
    assert!(!begins_with("é/", '/'));
}

#[test]
fn finishes_with_looks_at_the_last_character() {
    assert!(finishes_with("/", '/'));
    assert!(finishes_with("app/", '/'));
    assert!(!finishes_with("", '/'));
    assert!(!finishes_with("/app", '/'));
    assert!(finishes_with("/é", 'é'));
    assert!(!finishes_with("/é", '/'));
    assert!(finishes_with("é/", '/'));
}
