use time_counter::codec::{
    display_line, format_time, time_digits, CLOCK_WIDTH, LEFT_MARGIN, LINE_WIDTH,
    MAX_TWO_DIGIT_COUNT,
};
use time_counter::line::{LineBuffer, LINE_CAPACITY};

fn padded(clock: &str) -> String {
    format!("    {}{}", clock, " ".repeat(52))
}

#[test]
fn new_line_is_empty() {
    let line = LineBuffer::new();
    assert_eq!(line.as_str(), "");
    assert_eq!(line.as_str().len(), 0);
}

#[test]
fn time_digits_of_zero() {
    assert_eq!(time_digits(0), (0, 0, 0));
}

#[test]
fn time_digits_of_3661() {
    assert_eq!(time_digits(3661), (1, 1, 1));
}

#[test]
fn time_digits_at_field_boundaries() {
    assert_eq!(time_digits(59), (0, 0, 59));
    assert_eq!(time_digits(60), (0, 1, 0));
    assert_eq!(time_digits(3599), (0, 59, 59));
    assert_eq!(time_digits(3600), (1, 0, 0));
    assert_eq!(time_digits(7325), (2, 2, 5));
    assert_eq!(time_digits(65535), (18, 12, 15));
}

#[test]
fn time_digits_follow_the_formula_for_every_count() {
    for count in 0..=u16::MAX {
        let (hours, minutes, seconds) = time_digits(count);
        assert_eq!(u16::from(hours), count / 3600);
        assert_eq!(u16::from(minutes), (count / 60) % 60);
        assert_eq!(u16::from(seconds), count % 60);
        assert!(minutes < 60);
        assert!(seconds < 60);
        assert_eq!(
            u32::from(hours) * 3600 + u32::from(minutes) * 60 + u32::from(seconds),
            u32::from(count)
        );
    }
}

#[test]
fn hours_keep_counting_past_twelve() {
    assert_eq!(time_digits(43200), (12, 0, 0));
    assert_eq!(time_digits(64800), (18, 0, 0));
}

#[test]
fn counter_zero_text() {
    let line = display_line(0);
    assert_eq!(line.as_str(), padded("00:00:00"));
    assert!(line.as_str().starts_with("    00:00:00"));
}

#[test]
fn counter_3661_text() {
    let line = display_line(3661);
    assert_eq!(line.as_str(), padded("01:01:01"));
    assert!(line.as_str().starts_with("    01:01:01"));
}

#[test]
fn text_of_the_largest_counter() {
    assert_eq!(display_line(u16::MAX).as_str(), padded("18:12:15"));
}

#[test]
fn text_has_two_digits_per_field() {
    assert_eq!(display_line(9).as_str(), padded("00:00:09"));
    assert_eq!(display_line(10).as_str(), padded("00:00:10"));
    assert_eq!(display_line(600).as_str(), padded("00:10:00"));
    assert_eq!(display_line(36000).as_str(), padded("10:00:00"));
    assert_eq!(display_line(45296).as_str(), padded("12:34:56"));
}

#[test]
fn every_line_is_full_width() {
    for count in 0..=u16::MAX {
        let line = display_line(count);
        let text = line.as_str();
        assert_eq!(text.len(), LINE_WIDTH);
        let bytes = text.as_bytes();
        assert_eq!(bytes[6], b':');
        assert_eq!(bytes[9], b':');
        assert!(bytes[..LEFT_MARGIN].iter().all(|b| *b == b' '));
        assert!(bytes[12..].iter().all(|b| *b == b' '));
    }
}

#[test]
fn line_matches_plain_formatting_for_every_count() {
    for count in 0..=u16::MAX {
        let clock = format!(
            "{:02}:{:02}:{:02}",
            count / 3600,
            (count / 60) % 60,
            count % 60
        );
        assert_eq!(display_line(count).as_str(), padded(&clock));
    }
}

#[test]
fn format_time_fills_an_empty_buffer() {
    let mut line = LineBuffer::new();
    format_time(&mut line, 125);
    assert_eq!(line.as_str(), padded("00:02:05"));
    assert_eq!(line.as_str().len(), LINE_CAPACITY);
}

#[test]
fn formatting_twice_gives_identical_bytes() {
    for count in [0u16, 1, 59, 60, 3661, 40000, u16::MAX] {
        let first = display_line(count);
        let second = display_line(count);
        assert_eq!(first.as_str().as_bytes(), second.as_str().as_bytes());
    }
}

#[test]
fn distinct_counts_give_distinct_lines() {
    let mut previous = String::from(display_line(0).as_str());
    for count in 1..=u16::MAX {
        let current = String::from(display_line(count).as_str());
        assert_ne!(previous, current);
        previous = current;
    }
}

#[test]
fn codec_constants() {
    assert_eq!(LEFT_MARGIN, 4);
    assert_eq!(CLOCK_WIDTH, 8);
    assert_eq!(LINE_WIDTH, 64);
    assert_eq!(LINE_CAPACITY, 64);
    assert_eq!(MAX_TWO_DIGIT_COUNT, 99 * 3600 + 59 * 60 + 59);
}
