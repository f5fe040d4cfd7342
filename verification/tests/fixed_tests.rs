use sprite_engine::fixed::{saturating, scale, UNIT};
use sprite_engine::text::same_text;

#[test]
fn scale_rounds_towards_zero() {
    assert_eq!(scale(3, 7, 2), 10);
    assert_eq!(scale(-3, 7, 2), -10);
    assert_eq!(scale(5_000_000, 100_000, UNIT as u64), 500_000);
    assert_eq!(scale(-5_000_000, 100_000, UNIT as u64), -500_000);
    assert_eq!(scale(1, 999_999, UNIT as u64), 0);
    assert_eq!(scale(-1, 999_999, UNIT as u64), 0);
    assert_eq!(scale(0, u64::MAX, 1), 0);
    assert_eq!(scale(-7, 0, 3), 0);
}

#[test]
fn scale_is_exact_on_the_largest_operands() {
    assert_eq!(scale(i64::MAX, u64::MAX, 1), (i64::MAX as i128) * (u64::MAX as i128));
    assert_eq!(scale(i64::MIN, u64::MAX, 1), (i64::MIN as i128) * (u64::MAX as i128));
    assert_eq!(scale(i64::MIN, u64::MAX, u64::MAX), i64::MIN as i128);
    assert_eq!(scale(i64::MAX, u64::MAX, 2), (i64::MAX as i128) * (u64::MAX as i128) / 2);
}

#[test]
fn saturating_holds_values_in_range() {
    assert_eq!(saturating(0), 0);
    assert_eq!(saturating(-42), -42);
    assert_eq!(saturating(i64::MAX as i128), i64::MAX);
    assert_eq!(saturating(i64::MAX as i128 + 1), i64::MAX);
    assert_eq!(saturating(i64::MIN as i128), i64::MIN);
    assert_eq!(saturating(i64::MIN as i128 - 1), i64::MIN);
    assert_eq!(saturating(i128::MAX), i64::MAX);
    assert_eq!(saturating(i128::MIN), i64::MIN);
}

#[test]
fn same_text_compares_characters() {
    assert!(same_text("", ""));
    assert!(same_text("idle_right", "idle_right"));
    assert!(!same_text("idle_right", "idle_left"));
    assert!(!same_text("idle", "idle_right"));
    assert!(!same_text("idle_right", "idle"));
    assert!(!same_text("a", "A"));
    assert!(same_text("gr\u{00fc}n \u{1f600}", "gr\u{00fc}n \u{1f600}"));
    assert!(!same_text("gr\u{00fc}n", "grun"));
    assert!(!same_text("\u{00e9}", "e\u{0301}"));
}
