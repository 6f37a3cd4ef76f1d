use rusty_api::text::{created_text, deleted_text, not_found_text, push_decimal, render_decimal};

#[test]
fn decimal_of_single_digits() {
    for (n, s) in [(0u64, "0"), (1, "1"), (2, "2"), (3, "3"), (4, "4"), (5, "5"), (6, "6"),
        (7, "7"), (8, "8"), (9, "9")]
    {
        assert_eq!(render_decimal(n), s);
    }
}

#[test]
fn decimal_of_longer_numbers() {
    assert_eq!(render_decimal(10), "10");
    assert_eq!(render_decimal(99), "99");
    assert_eq!(render_decimal(100), "100");
    assert_eq!(render_decimal(1203), "1203");
    assert_eq!(render_decimal(9876543210), "9876543210");
    assert_eq!(render_decimal(u64::MAX), "18446744073709551615");
}

#[test]
fn decimal_agrees_with_the_standard_formatting() {
    let mut n: u64 = 1;
    for _ in 0..64 {
        assert_eq!(render_decimal(n), format!("{}", n));
        assert_eq!(render_decimal(n - 1), format!("{}", n - 1));
        n = n.wrapping_mul(3).wrapping_add(7);
    }
}

#[test]
fn push_decimal_appends() {
    let mut s = String::from("id=");
    push_decimal(&mut s, 42);
    push_decimal(&mut s, 0);
    assert_eq!(s, "id=420");
}

#[test]
fn created_text_embeds_the_id() {
    assert_eq!(created_text(1), "User 1 created successfully!");
    assert_eq!(created_text(305), "User 305 created successfully!");
}

#[test]
fn deleted_text_embeds_the_id() {
    assert_eq!(deleted_text(1), "User 1 deleted.");
    assert_eq!(deleted_text(18446744073709551615), "User 18446744073709551615 deleted.");
}

#[test]
fn not_found_text_embeds_the_id() {
    assert_eq!(not_found_text(1), "User 1 not found.");
    assert_eq!(not_found_text(0), "User 0 not found.");
}
