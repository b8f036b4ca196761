use jade::get_time;
use jade::TimeNow;

fn two_digits(s: &str) -> bool {
    s.len() == 2 && s.chars().all(|c| c.is_ascii_digit())
}

#[test]
fn render_joins_the_parts() {
    let t = TimeNow {
        year: String::from("2024"),
        month: String::from("01"),
        day: String::from("02"),
        hours: String::from("03"),
        minutes: String::from("04"),
        seconds: String::from("05"),
    };
    assert_eq!(t.render(), "2024-01-02/03:04:05");
}

#[test]
fn render_of_empty_parts_is_the_separators() {
    let t = TimeNow {
        year: String::new(),
        month: String::new(),
        day: String::new(),
        hours: String::new(),
        minutes: String::new(),
        seconds: String::new(),
    };
    assert_eq!(t.render(), "--/::");
}

#[test]
fn now_has_two_digit_fields() {
    let t = TimeNow::new();
    assert!(t.year.len() >= 4);
    assert!(two_digits(&t.month));
    assert!(two_digits(&t.day));
    assert!(two_digits(&t.hours));
    assert!(two_digits(&t.minutes));
    assert!(two_digits(&t.seconds));
    let month: u32 = t.month.parse().unwrap();
    assert!((1..=12).contains(&month));
    let day: u32 = t.day.parse().unwrap();
    assert!((1..=31).contains(&day));
    let hours: u32 = t.hours.parse().unwrap();
    assert!(hours <= 23);
    let minutes: u32 = t.minutes.parse().unwrap();
    assert!(minutes <= 59);
    let seconds: u32 = t.seconds.parse().unwrap();
    assert!(seconds <= 60);
}

#[test]
fn get_time_has_the_stamp_shape() {
    let stamp = get_time();
    let (date, time) = stamp.split_once('/').unwrap();
    let date_parts: Vec<&str> = date.rsplitn(3, '-').collect();
    assert_eq!(date_parts.len(), 3);
    assert!(two_digits(date_parts[0]));
    assert!(two_digits(date_parts[1]));
    assert!(date_parts[2].len() >= 4);
    let time_parts: Vec<&str> = time.split(':').collect();
    assert_eq!(time_parts.len(), 3);
    assert!(time_parts.iter().all(|p| two_digits(p)));
}
