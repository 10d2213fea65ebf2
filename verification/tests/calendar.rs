use sovereign_cli::calendar::{midnight_seconds, Date};

fn date(year: i32, month: u32, day: u32) -> Date {
    Date { year, month, day }
}

#[test]
fn midnight_counts_days_from_the_epoch_in_both_directions() {
    assert_eq!(midnight_seconds(date(1970, 1, 1)), 0);
    assert_eq!(midnight_seconds(date(1970, 1, 2)), 86_400);
    assert_eq!(midnight_seconds(date(1969, 12, 31)), -86_400);
    assert_eq!(midnight_seconds(date(2026, 9, 10)), 1_788_998_400);
    assert_eq!(midnight_seconds(date(2000, 3, 1)), 951_868_800);
}

#[test]
fn midnight_is_right_for_years_before_zero() {
    // 0000-01-01 is 719528 days before the epoch; -0002-06-01 is 720107.
    assert_eq!(midnight_seconds(date(0, 1, 1)), -719_528 * 86_400);
    assert_eq!(midnight_seconds(date(-2, 6, 1)), -720_107 * 86_400);
    assert_eq!(midnight_seconds(date(-1, 12, 31)), -719_529 * 86_400);
}
