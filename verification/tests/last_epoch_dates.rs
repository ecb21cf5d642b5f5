use chrono::{Datelike, NaiveDate};
use rusty_vinnie::last_epoch;

#[test]
fn analyze_dates() {
    let test_group = |expected: Vec<bool>, date_strs: Vec<&str>| {
        let parse_naive_date =
            |date_str| NaiveDate::parse_from_str(date_str, "%B %d, %Y").unwrap();
        let dates: Vec<i64> = date_strs
            .into_iter()
            .map(|s| parse_naive_date(s).num_days_from_ce() as i64)
            .collect();

        assert_eq!(expected, last_epoch::analyze_dates(dates));
    };

    test_group(
        vec![true, true, false, false],
        vec![
            "March 7, 2022",
            "March 7, 2022",
            "May 7, 2025",
            "April 8, 2025",
        ],
    );

    test_group(
        vec![true, false, false],
        vec!["August 26, 2021", "May 15, 2025", "May 14, 2025"],
    );
}

#[test]
fn fully_descending_list_marks_only_the_first_entry() {
    // Newest-first all the way down: only position zero is taken as pinned.
    assert_eq!(
        last_epoch::analyze_dates(vec![100, 90, 80]),
        vec![true, false, false]
    );
}
