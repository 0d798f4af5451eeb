use restaurant_pos::dates::{range_bounds, range_days, CalendarDay};
use restaurant_pos::db::millis_to_secs;
use restaurant_pos::error::PosError;
use restaurant_pos::state::clock_secs;
use restaurant_pos::text::{
    check_id, copy_opt_text, decimal_text, money_text, push_bytes, push_decimal, push_digits,
    push_money, push_padded_left, push_padded_right, push_spaces, push_zero_padded, same_text,
};
use restaurant_pos::users::{is_duplicate_key, user_store_failure};

#[test]
fn whole_numbers_in_decimal() {
    assert_eq!(decimal_text(0), "0");
    assert_eq!(decimal_text(7), "7");
    assert_eq!(decimal_text(10), "10");
    assert_eq!(decimal_text(1234567890), "1234567890");
    assert_eq!(decimal_text(-1), "-1");
    assert_eq!(decimal_text(-120), "-120");
    assert_eq!(decimal_text(i64::MAX as i128), "9223372036854775807");
    assert_eq!(decimal_text(i64::MIN as i128), "-9223372036854775808");
    assert_eq!(decimal_text(i128::MIN), i128::MIN.to_string());
    assert_eq!(decimal_text(i128::MAX), i128::MAX.to_string());
    let mut s = "n=".to_string();
    push_decimal(&mut s, 42);
    push_digits(&mut s, 0);
    assert_eq!(s, "n=420");
}

#[test]
fn money_has_two_decimals() {
    assert_eq!(money_text(0), "0.00");
    assert_eq!(money_text(5), "0.05");
    assert_eq!(money_text(50), "0.50");
    assert_eq!(money_text(100), "1.00");
    assert_eq!(money_text(1234), "12.34");
    assert_eq!(money_text(-5), "-0.05");
    assert_eq!(money_text(-1234), "-12.34");
    assert_eq!(money_text(i64::MAX as i128), "92233720368547758.07");
    assert_eq!(money_text(i64::MIN as i128), "-92233720368547758.08");
    let mut s = "$".to_string();
    push_money(&mut s, 199);
    assert_eq!(s, "$1.99");
}

#[test]
fn padding_counts_characters() {
    let mut s = String::new();
    push_padded_left(&mut s, "ab", 5);
    s.push('|');
    push_padded_right(&mut s, "ab", 5);
    s.push('|');
    push_padded_left(&mut s, "abcdef", 3);
    s.push('|');
    push_padded_right(&mut s, "ñandú", 6);
    s.push('|');
    push_spaces(&mut s, 2);
    s.push('|');
    assert_eq!(s, "ab   |   ab|abcdef| ñandú|  |");
    assert_eq!(s, format!("{:<5}|{:>5}|{:<3}|{:>6}|  |", "ab", "ab", "abcdef", "ñandú"));
}

#[test]
fn zero_padding_counts_the_sign() {
    let cases: [(i64, usize); 9] =
        [(0, 4), (7, 2), (12, 2), (123, 2), (2025, 4), (-1, 4), (-12345, 4), (99999, 4), (5, 0)];
    for (n, w) in cases {
        let mut s = String::new();
        push_zero_padded(&mut s, n, w);
        assert_eq!(s, format!("{:0w$}", n, w = w));
    }
    let mut s = String::new();
    push_zero_padded(&mut s, -1, 4);
    assert_eq!(s, "-001");
}

#[test]
fn identifiers_are_twenty_four_hex_digits() {
    assert_eq!(check_id("65a0000000000000000000b1"), Ok(()));
    assert_eq!(check_id("65A0000000000000000000B1"), Ok(()));
    assert_eq!(check_id("ffffffffffffffffffffffff"), Ok(()));
    assert_eq!(check_id("0123456789abcdefABCDEF00"), Ok(()));
    for bad in [
        "",
        "65a0000000000000000000b",
        "65a0000000000000000000b12",
        "65a0000000000000000000bg",
        "65a0000000000000000000 1",
        "ñ5a0000000000000000000b",
        "65a0000000000000000000b\u{661}",
    ] {
        assert_eq!(check_id(bad), Err(PosError::InvalidId));
    }
}

#[test]
fn texts_are_compared_and_searched() {
    assert!(same_text("abc", "abc"));
    assert!(!same_text("abc", "abC"));
    assert!(same_text("", ""));
    assert!(is_duplicate_key("E11000 duplicate key"));
    assert!(is_duplicate_key("write error: E11000"));
    assert!(is_duplicate_key("xE11000x"));
    assert!(!is_duplicate_key("E1100"));
    assert!(!is_duplicate_key("E1100 0"));
    assert!(!is_duplicate_key(""));
    assert_eq!(user_store_failure("E11000"), PosError::UsernameTaken);
    assert_eq!(user_store_failure("e11000"), PosError::Store);
    assert_eq!(copy_opt_text(&Some("a".to_string())), Some("a".to_string()));
    assert_eq!(copy_opt_text(&None), None);
    let mut out = vec![1u8];
    push_bytes(&mut out, &[2, 3]);
    push_bytes(&mut out, &[]);
    assert_eq!(out, vec![1, 2, 3]);
}

#[test]
fn days_are_read_as_year_month_day() {
    let day = |y, m, d| CalendarDay { year: y, month: m, day: d };
    assert_eq!(range_bounds("2025-03-09", "2024-02-29"), Ok((day(2025, 3, 9), day(2024, 2, 29))));
    for bad in ["2025-02-29", "2025-13-01", "09/03/2025", "", "2025-03-09x", "2025-00-10", "2025-04-31"] {
        assert_eq!(range_bounds(bad, "2025-01-01"), Err(PosError::InvalidFromDate));
        assert_eq!(range_bounds("2025-01-01", bad), Err(PosError::InvalidToDate));
    }
}

#[test]
fn a_range_needs_both_days() {
    let a = CalendarDay { year: 2025, month: 1, day: 1 };
    let b = CalendarDay { year: 2025, month: 1, day: 31 };
    assert_eq!(range_bounds("2025-01-01", "2025-01-31"), Ok((a, b)));
    assert_eq!(range_bounds("x", "2025-01-31"), Err(PosError::InvalidFromDate));
    assert_eq!(range_bounds("2025-01-01", "x"), Err(PosError::InvalidToDate));
    assert_eq!(range_bounds("x", "y"), Err(PosError::InvalidFromDate));
    assert_eq!(range_bounds("2025-01-31", "2025-01-01"), Ok((b, a)));
    assert_eq!(range_days(Some(a), Some(b)), Ok((a, b)));
    assert_eq!(range_days(None, Some(b)), Err(PosError::InvalidFromDate));
    assert_eq!(range_days(Some(a), None), Err(PosError::InvalidToDate));
    assert_eq!(PosError::InvalidFromDate.message(), "from_date inválido");
    assert_eq!(PosError::InvalidToDate.message(), "to_date inválido");
}

#[test]
fn milliseconds_round_towards_the_past() {
    assert_eq!(millis_to_secs(0), 0);
    assert_eq!(millis_to_secs(999), 0);
    assert_eq!(millis_to_secs(1_000), 1);
    assert_eq!(millis_to_secs(12_345), 12);
    assert_eq!(millis_to_secs(-1), -1);
    assert_eq!(millis_to_secs(-1_000), -1);
    assert_eq!(millis_to_secs(-1_001), -2);
    assert_eq!(millis_to_secs(i64::MIN), i64::MIN.div_euclid(1000));
    assert_eq!(millis_to_secs(i64::MAX), i64::MAX / 1000);
    assert_eq!(clock_secs(-5), 0);
    assert_eq!(clock_secs(0), 0);
    assert_eq!(clock_secs(1_999), 1);
    assert_eq!(clock_secs(43_200_000), 43_200);
}
