use spotify_mcp::text::{
    comes_before, copy_strings, decimal_string, join, push_decimal, push_joined,
};

fn strings(list: &[&str]) -> Vec<String> {
    list.iter().map(|s| s.to_string()).collect()
}

#[test]
fn decimal_string_writes_plain_numerals() {
    assert_eq!(decimal_string(0), "0");
    assert_eq!(decimal_string(7), "7");
    assert_eq!(decimal_string(10), "10");
    assert_eq!(decimal_string(1234), "1234");
    assert_eq!(decimal_string(1000000), "1000000");
    assert_eq!(decimal_string(u32::MAX), "4294967295");
}

#[test]
fn decimal_string_agrees_with_the_standard_rendering() {
    for n in (0..100000u32).step_by(7) {
        assert_eq!(decimal_string(n), n.to_string());
    }
}

#[test]
fn push_decimal_appends_to_what_is_there() {
    let mut out = "n=".to_string();
    push_decimal(&mut out, 90);
    push_decimal(&mut out, 0);
    assert_eq!(out, "n=900");
}

#[test]
fn join_puts_the_separator_between_neighbours() {
    assert_eq!(join(&strings(&[]), ","), "");
    assert_eq!(join(&strings(&["a"]), ","), "a");
    assert_eq!(join(&strings(&["a", "b", "c"]), ","), "a,b,c");
    assert_eq!(join(&strings(&["", ""]), ", "), ", ");
    assert_eq!(join(&strings(&["x", "y"]), ""), "xy");
}

#[test]
fn join_agrees_with_the_standard_join() {
    let parts = strings(&["rock", "", "j-pop", "ジャズ"]);
    assert_eq!(join(&parts, ","), parts.join(","));
}

#[test]
fn push_joined_appends_to_what_is_there() {
    let mut out = "ids: ".to_string();
    push_joined(&mut out, &strings(&["1", "2"]), "+");
    assert_eq!(out, "ids: 1+2");
}

#[test]
fn copy_strings_copies_in_order() {
    assert_eq!(copy_strings(&strings(&["b", "a", "b"])), strings(&["b", "a", "b"]));
    assert_eq!(copy_strings(&strings(&[])), strings(&[]));
}

#[test]
fn comes_before_is_the_order_of_the_bytes() {
    assert!(comes_before("a", "b"));
    assert!(!comes_before("b", "a"));
    assert!(!comes_before("a", "a"));
    assert!(comes_before("", "a"));
    assert!(!comes_before("a", ""));
    assert!(!comes_before("", ""));
    assert!(comes_before("ab", "abc"));
    assert!(!comes_before("abc", "ab"));
    assert!(comes_before("B", "a"));
    assert!(comes_before("z", "é"));
    assert!(comes_before("10", "9"));
}

#[test]
fn comes_before_agrees_with_the_standard_order_of_strings() {
    let texts = ["", "a", "A", "ab", "abc", "b", "ジャズ", "é", "z", "0", "10", "9", "a\u{0}"];
    for first in texts {
        for second in texts {
            assert_eq!(comes_before(first, second), first < second);
        }
    }
}
