use chipin::clock::{current_year, now_rfc3339, Timestamp};

#[test]
fn clock_readings() {
    let t = Timestamp::now();
    assert!(t.seconds > 1_600_000_000);
    assert!(t.nanos < 1_000_000_000);
    let text = now_rfc3339();
    assert!(text.ends_with("+00:00"));
    assert_eq!(&text[4..5], "-");
    assert_eq!(&text[10..11], "T");
    let year = current_year();
    assert!(year >= 2024);
    assert_eq!(text[0..4].parse::<i32>().unwrap(), year);
}
