use dscp_qos::text::{trim, u32_to_decimal};

#[test]
fn decimal_of_zero_is_a_single_zero() {
    assert_eq!(u32_to_decimal(0), "0");
}

#[test]
fn decimal_has_no_leading_zero() {
    assert_eq!(u32_to_decimal(10038), "10038");
    assert_eq!(u32_to_decimal(7), "7");
    assert_eq!(u32_to_decimal(u32::MAX), "4294967295");
}

#[test]
fn trim_strips_both_ends() {
    assert_eq!(trim("  a b\r\n"), "a b");
}

#[test]
fn trim_of_all_whitespace_is_empty() {
    assert_eq!(trim(" \t\r\n\u{00A0}"), "");
}

#[test]
fn trim_leaves_a_clean_string_alone() {
    assert_eq!(trim("done"), "done");
}
