use zenith::dates::{format_date, parse_date};
use zenith::models::{Date, TaskPriority, TaskStatus, UserProfile};
use zenith::text::{
    chars_string, collapse_newlines, contains_chars, decimal_chars, parse_xp, str_chars,
    trim_chars,
};

fn chars(s: &str) -> Vec<char> {
    s.chars().collect()
}

#[test]
fn status_cycle_returns_after_three_toggles() {
    for start in [TaskStatus::Todo, TaskStatus::Doing, TaskStatus::Done] {
        let once = start.next();
        let twice = once.next();
        let thrice = twice.next();
        assert_eq!(thrice, start);
    }
    assert_eq!(TaskStatus::Todo.next(), TaskStatus::Doing);
    assert_eq!(TaskStatus::Doing.next(), TaskStatus::Done);
    assert_eq!(TaskStatus::Done.next(), TaskStatus::Todo);
}

#[test]
fn xp_award_single_level_up() {
    let mut p = UserProfile::default();
    assert_eq!((p.level, p.current_xp, p.next_level_xp), (1, 0, 100));
    p.add_xp(100);
    assert_eq!((p.level, p.current_xp, p.next_level_xp), (2, 0, 150));
}

#[test]
fn xp_award_cascades_two_levels() {
    let mut p = UserProfile::default();
    p.add_xp(250);
    // 250 crosses 100 (leaving 150) and then 150 (leaving 0)
    assert_eq!((p.level, p.current_xp, p.next_level_xp), (3, 0, 225));
}

#[test]
fn xp_award_below_threshold_keeps_level() {
    let mut p = UserProfile::default();
    p.add_xp(99);
    assert_eq!((p.level, p.current_xp, p.next_level_xp), (1, 99, 100));
    p.add_xp(1);
    assert_eq!((p.level, p.current_xp, p.next_level_xp), (2, 0, 150));
}

#[test]
fn xp_threshold_truncates_on_odd_values() {
    let mut p = UserProfile::default();
    p.add_xp(100); // threshold 150
    p.add_xp(150); // threshold 225
    p.add_xp(225); // threshold 225 + 112 = 337
    assert_eq!((p.level, p.current_xp, p.next_level_xp), (4, 0, 337));
}

#[test]
fn parse_date_accepts_strict_shape() {
    assert_eq!(
        parse_date(&chars("2025-03-15")),
        Some(Date { year: 2025, month: 3, day: 15 })
    );
    assert_eq!(
        parse_date(&chars("0001-01-01")),
        Some(Date { year: 1, month: 1, day: 1 })
    );
}

#[test]
fn parse_date_rejects_malformed_text() {
    assert_eq!(parse_date(&chars("2025-3-15")), None);
    assert_eq!(parse_date(&chars("2025/03/15")), None);
    assert_eq!(parse_date(&chars("25-03-15")), None);
    assert_eq!(parse_date(&chars("2025-13-01")), None);
    assert_eq!(parse_date(&chars("2025-00-10")), None);
    assert_eq!(parse_date(&chars("2025-04-31")), None);
    assert_eq!(parse_date(&chars("")), None);
    assert_eq!(parse_date(&chars("2025-03-15 ")), None);
}

#[test]
fn parse_date_knows_leap_years() {
    assert_eq!(
        parse_date(&chars("2024-02-29")),
        Some(Date { year: 2024, month: 2, day: 29 })
    );
    assert_eq!(parse_date(&chars("2023-02-29")), None);
    assert_eq!(parse_date(&chars("1900-02-29")), None);
    assert_eq!(
        parse_date(&chars("2000-02-29")),
        Some(Date { year: 2000, month: 2, day: 29 })
    );
}

#[test]
fn format_date_round_trips() {
    let d = Date { year: 7, month: 12, day: 9 };
    let text = format_date(&d);
    assert_eq!(text, chars("0007-12-09"));
    assert_eq!(parse_date(&text), Some(d));
}

#[test]
fn parse_xp_defaults_and_values() {
    assert_eq!(parse_xp(&chars("25")), 25);
    assert_eq!(parse_xp(&chars("007")), 7);
    assert_eq!(parse_xp(&chars("0")), 0);
    assert_eq!(parse_xp(&chars("")), 10);
    assert_eq!(parse_xp(&chars("12a")), 10);
    assert_eq!(parse_xp(&chars("2147483647")), 2147483647);
    assert_eq!(parse_xp(&chars("2147483648")), 10);
    assert_eq!(parse_xp(&chars("99999999999999999999")), 10);
}

#[test]
fn decimal_renders_plain_numbers() {
    assert_eq!(decimal_chars(0), chars("0"));
    assert_eq!(decimal_chars(10), chars("10"));
    assert_eq!(decimal_chars(90210), chars("90210"));
    assert_eq!(decimal_chars(2147483647), chars("2147483647"));
}

#[test]
fn trim_and_collapse_shape_titles() {
    assert_eq!(trim_chars(&chars("  hi there\t\n")), chars("hi there"));
    assert_eq!(trim_chars(&chars("   \t ")), chars(""));
    assert_eq!(collapse_newlines(&chars("a\nb\nc")), chars("a b c"));
    let joined = chars_string(&trim_chars(&collapse_newlines(&chars(" line1\nline2 "))));
    assert_eq!(joined, "line1 line2");
}

#[test]
fn contains_finds_substrings() {
    assert!(contains_chars(&chars("buy milk"), &chars("milk")));
    assert!(contains_chars(&chars("buy milk"), &chars("")));
    assert!(!contains_chars(&chars("buy milk"), &chars("dog")));
    assert!(!contains_chars(&chars("mi"), &chars("milk")));
}

#[test]
fn string_char_conversions_round_trip() {
    let v = str_chars("café ∞");
    assert_eq!(chars_string(&v), "café ∞");
}

#[test]
fn dates_order_chronologically() {
    let a = Date { year: 2024, month: 12, day: 31 };
    let b = Date { year: 2025, month: 1, day: 1 };
    let c = Date { year: 2025, month: 1, day: 2 };
    assert!(a.lt(&b));
    assert!(b.lt(&c));
    assert!(!c.lt(&a));
    assert!(!a.lt(&a));
}

#[test]
fn priority_default_is_medium() {
    let form = zenith::form::TaskForm::default();
    assert_eq!(form.priority, TaskPriority::Medium);
    assert_eq!(form.xp, chars("10"));
    assert!(form.title.is_empty());
}
