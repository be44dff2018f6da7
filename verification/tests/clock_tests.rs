use obsyncgit::clock::{current_timestamp, text_of_reading, timestamp_text};

fn has_the_fixed_form(text: &str) -> bool {
    let bytes = text.as_bytes();
    bytes.len() == 20
        && bytes.iter().enumerate().all(|(i, b)| match i {
            4 | 7 => *b == b'-',
            10 => *b == b'T',
            13 | 16 => *b == b':',
            19 => *b == b'Z',
            _ => b.is_ascii_digit(),
        })
}

#[test]
fn times_are_written_in_utc_with_whole_seconds() {
    assert_eq!(timestamp_text(0), Some("1970-01-01T00:00:00Z".to_string()));
    assert_eq!(timestamp_text(1_714_558_830), Some("2024-05-01T10:20:30Z".to_string()));
    assert_eq!(timestamp_text(-1), Some("1969-12-31T23:59:59Z".to_string()));
    assert_eq!(timestamp_text(951_782_400), Some("2000-02-29T00:00:00Z".to_string()));
}

#[test]
fn the_years_zero_to_9999_have_the_fixed_form() {
    assert_eq!(timestamp_text(-62_167_219_200), Some("0000-01-01T00:00:00Z".to_string()));
    assert_eq!(timestamp_text(253_402_300_799), Some("9999-12-31T23:59:59Z".to_string()));
    for seconds in [-62_167_219_200i64, -62_135_596_800, -1, 0, 59, 86_399, 4_102_444_800, 253_402_300_799] {
        let text = timestamp_text(seconds).unwrap();
        assert!(has_the_fixed_form(&text), "{text}");
    }
    // outside of them the year is written with a sign
    assert_eq!(timestamp_text(-62_167_219_201), Some("-0001-12-31T23:59:59Z".to_string()));
    assert_eq!(timestamp_text(253_402_300_800), Some("+10000-01-01T00:00:00Z".to_string()));
}

#[test]
fn times_that_cannot_be_held_have_no_text() {
    assert_eq!(timestamp_text(i64::MAX), None);
    assert_eq!(timestamp_text(i64::MIN), None);
    assert_eq!(text_of_reading(None), None);
    assert_eq!(text_of_reading(Some(u64::MAX)), None);
    assert_eq!(text_of_reading(Some(i64::MAX as u64 + 1)), None);
    assert_eq!(text_of_reading(Some(i64::MAX as u64)), None);
    assert_eq!(text_of_reading(Some(0)), Some("1970-01-01T00:00:00Z".to_string()));
    assert_eq!(text_of_reading(Some(1_714_558_830)), Some("2024-05-01T10:20:30Z".to_string()));
}

#[test]
fn the_current_time_has_the_fixed_form() {
    let now = current_timestamp().unwrap();
    assert!(has_the_fixed_form(&now), "{now}");
    assert!(now[0..4].parse::<u32>().unwrap() >= 2024);
}
