use pomodoro::quotes::{Quote, QuotesManager};

#[test]
fn empty_list_gives_the_fallback_line() {
    let q = QuotesManager::new(Vec::new());
    assert_eq!(q.get_random_quote(), "行动是治愈恐惧的良药。");
}

#[test]
fn single_quote_is_formatted_exactly() {
    let q = QuotesManager::new(vec![Quote {
        text: "Action is the antidote to fear".to_string(),
        author: "Anonymous".to_string(),
    }]);
    assert_eq!(
        q.get_random_quote(),
        "\"Action is the antidote to fear\" —— Anonymous"
    );
}

#[test]
fn random_quote_is_always_one_of_the_list() {
    let q = QuotesManager::new(vec![
        Quote { text: "one".to_string(), author: "a".to_string() },
        Quote { text: "two".to_string(), author: "b".to_string() },
        Quote { text: "three".to_string(), author: "c".to_string() },
    ]);
    let expected = ["\"one\" —— a", "\"two\" —— b", "\"three\" —— c"];
    for _ in 0..50 {
        let line = q.get_random_quote();
        assert!(expected.contains(&line.as_str()));
    }
}

#[test]
fn stats_use_the_leap_year_rule() {
    let q = QuotesManager::new(Vec::new());
    assert_eq!(q.time_spent_stats_at(2024, 60, 0, 0, 0).days_in_year, 366);
    assert_eq!(q.time_spent_stats_at(2023, 60, 0, 0, 0).days_in_year, 365);
    assert_eq!(q.time_spent_stats_at(1900, 60, 0, 0, 0).days_in_year, 365);
    assert_eq!(q.time_spent_stats_at(2000, 60, 0, 0, 0).days_in_year, 366);
}

#[test]
fn stats_count_seconds_and_work_days() {
    let q = QuotesManager::new(Vec::new());
    let s = q.time_spent_stats_at(2025, 123, 1, 2, 3);
    assert_eq!(s.age, 25);
    assert_eq!(s.day_of_year, 123);
    assert_eq!(s.days_in_year, 365);
    assert_eq!(s.seconds_passed_today, 3723);
    assert_eq!(s.seconds_in_day, 86400);
    // (80 - 25) years of 250 work days each.
    assert_eq!(s.remaining_work_days, 13750);
}

#[test]
fn stats_percentages_match_hand_computed_values() {
    let q = QuotesManager::new(Vec::new());
    let s = q.time_spent_stats_at(2025, 73, 12, 0, 0);
    let life = s.age as f64 / q.average_life_expectancy as f64 * 100.0;
    let year = s.day_of_year as f64 / s.days_in_year as f64 * 100.0;
    let day = s.seconds_passed_today as f64 / s.seconds_in_day as f64 * 100.0;
    assert_eq!(life, 31.25);
    assert_eq!(year, 20.0);
    assert_eq!(day, 50.0);
}

#[test]
fn wall_clock_stats_are_in_range() {
    let q = QuotesManager::new(Vec::new());
    let s = q.get_time_spent_stats();
    assert!(s.day_of_year >= 1 && s.day_of_year <= 366);
    assert!(s.days_in_year == 365 || s.days_in_year == 366);
    assert!(s.day_of_year <= s.days_in_year);
    assert!(s.seconds_passed_today < 86400);
    assert_eq!(s.age, 25);
}
