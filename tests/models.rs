use std::cmp::Ordering;

use guis::counter::CounterModel;
use guis::flight::{DateInput, FlightKind};
use guis::history::CircleDrawerHistory;
use guis::number_text::{input_number, NumberText, TemperatureConverterModel};

fn text(t: &NumberText) -> &str {
    std::str::from_utf8(t.as_bytes()).unwrap()
}

#[test]
fn input_number_filters() {
    let mut out = Vec::new();
    input_number(&mut out, "-12a3");
    assert_eq!(out, b"-123".to_vec());
    let mut out = Vec::new();
    input_number(&mut out, "x+5-");
    assert_eq!(out, b"5".to_vec());
    let mut out = b"9".to_vec();
    input_number(&mut out, "");
    assert_eq!(out, b"9".to_vec());
}

#[test]
fn insert_into_empty_takes_sign() {
    let mut t = NumberText::new();
    assert_eq!(t.insert_text("-4x2", 0), 3);
    assert_eq!(text(&t), "-42");
}

#[test]
fn insert_appends_digits_only() {
    let mut t = NumberText::new();
    t.replace("12");
    assert_eq!(t.insert_text("3-4", 2), 2);
    assert_eq!(text(&t), "1234");
    assert_eq!(t.insert_text("9", 1), 1);
    assert_eq!(text(&t), "19234");
}

#[test]
fn insert_at_front_replaces_sign() {
    let mut t = NumberText::new();
    t.replace("-5");
    assert_eq!(t.insert_text("+7", 0), 1);
    assert_eq!(text(&t), "+75");
    let mut u = NumberText::new();
    u.replace("5");
    assert_eq!(u.insert_text("-3", 0), 2);
    assert_eq!(text(&u), "-35");
    assert_eq!(u.insert_text("abc", 0), 0);
    assert_eq!(text(&u), "-35");
}

#[test]
fn delete_clear_and_take() {
    let mut t = NumberText::new();
    t.replace("123456");
    t.delete_char_range(1, 3);
    assert_eq!(text(&t), "1456");
    t.delete_char_range(2, 2);
    assert_eq!(text(&t), "1456");
    assert_eq!(t.take(), b"1456".to_vec());
    assert_eq!(t.len(), 0);
    t.replace("7");
    t.clear();
    assert_eq!(t.len(), 0);
}

#[test]
fn converter_starts_empty() {
    let m = TemperatureConverterModel::new();
    assert_eq!(m.celsius.len(), 0);
    assert_eq!(m.fahrenheit.len(), 0);
}

#[test]
fn counter_counts() {
    let mut c = CounterModel::new();
    c.increment();
    c.increment();
    assert_eq!(c.count(), 2);
}

#[test]
fn flight_kind_labels() {
    assert_eq!(FlightKind::OneWay.as_str(), "one-way flight");
    assert_eq!(FlightKind::Return.as_str(), "return flight");
    assert_eq!(FlightKind::default(), FlightKind::OneWay);
}

#[test]
fn dates_compare_lexicographically() {
    let a = DateInput::new(2024, 3, 10);
    assert_eq!(a.cmp(&DateInput::new(2024, 3, 11)), Ordering::Less);
    assert_eq!(a.cmp(&DateInput::new(2023, 12, 31)), Ordering::Greater);
    assert_eq!(a.cmp(&DateInput::new(2024, 3, 10)), Ordering::Equal);
    assert_eq!(a.cmp(&DateInput::new(2024, 4, 1)), Ordering::Less);
}

#[test]
fn month_lengths_follow_calendar() {
    assert_eq!(DateInput::new(2024, 2, 1).days_in_month(), 29);
    assert_eq!(DateInput::new(2023, 2, 1).days_in_month(), 28);
    assert_eq!(DateInput::new(2100, 2, 1).days_in_month(), 28);
    assert_eq!(DateInput::new(2000, 2, 1).days_in_month(), 29);
    assert_eq!(DateInput::new(2023, 4, 1).days_in_month(), 30);
    assert_eq!(DateInput::new(2023, 12, 1).days_in_month(), 31);
}

#[test]
fn date_is_constrained_to_earliest() {
    let min = DateInput::new(2024, 5, 20);
    let mut d = DateInput::new(2024, 5, 3);
    assert!(d.constrain_to(&min));
    assert_eq!(d, min);
    let mut e = DateInput::new(2025, 2, 31);
    assert!(e.constrain_to(&min));
    assert_eq!(e, DateInput::new(2025, 2, 28));
    let mut f = DateInput::new(2024, 6, 1);
    assert!(!f.constrain_to(&min));
    assert_eq!(f, DateInput::new(2024, 6, 1));
    assert_eq!(f.first_allowed_month(&min), 5);
    assert_eq!(f.allowed_days(&min), (1, 30));
    assert_eq!(min.allowed_days(&min), (20, 31));
}

#[test]
fn history_undo_redo() {
    let mut h: CircleDrawerHistory<u32> = CircleDrawerHistory::new();
    assert!(h.is_empty());
    assert!(h.is_full());
    h.create(1);
    h.update(2);
    h.push(3);
    assert_eq!(h.applied_count(), 3);
    assert_eq!(h.undo(), Some(&3));
    assert_eq!(h.undo(), Some(&2));
    assert!(!h.is_full());
    assert_eq!(h.redo(), Some(&2));
    h.push(4);
    assert!(h.is_full());
    assert_eq!(h.get(2), &4);
    assert_eq!(h.redo(), None);
    assert_eq!(h.undo(), Some(&4));
    assert_eq!(h.undo(), Some(&2));
    assert_eq!(h.undo(), Some(&1));
    assert_eq!(h.undo(), None);
    assert!(h.is_empty());
}
