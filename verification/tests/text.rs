use maw_grok::text::{decimal_i32, decimal_u64, join2, join3, join4, same_text};

#[test]
fn decimals_print_like_display() {
    for n in [0u64, 7, 10, 42, 1000, 1725029869, u64::MAX] {
        assert_eq!(decimal_u64(n), n.to_string());
    }
    for n in [0i32, -1, -7, 9, -10, 2147483647, i32::MIN] {
        assert_eq!(decimal_i32(n), n.to_string());
    }
}

#[test]
fn decimal_exact_values() {
    assert_eq!(decimal_u64(60), "60");
    assert_eq!(decimal_i32(-42), "-42");
}

#[test]
fn decimal_reads_back() {
    for n in [0u64, 5, 19, 100, 98765] {
        assert_eq!(decimal_u64(n).parse::<u64>().unwrap(), n);
    }
}

#[test]
fn joins_and_comparisons() {
    assert_eq!(join2("a", "b"), "ab");
    assert_eq!(join3("a", "", "c"), "ac");
    assert_eq!(join4("w", "x", "y", "z"), "wxyz");
    assert!(same_text("gen", "gen"));
    assert!(!same_text("gen", "ge"));
    assert!(!same_text("gen", "gem"));
    assert!(same_text("", ""));
}
