use ps1::duration::{format_duration, Duration};

#[test]
fn format_duration_sample_tests() {
    assert_eq!(format_duration(Duration::from_nanos(42)), "42ns");
    assert_eq!(format_duration(Duration::from_micros(420)), "420µs");
    assert_eq!(format_duration(Duration::from_millis(230)), "230ms");
    assert_eq!(format_duration(Duration::from_millis(42230)), "42.23s");
    assert_eq!(format_duration(Duration::from_millis(422300)), "7:02min");
    assert_eq!(format_duration(Duration::from_secs(4223)), "70:23min");
    assert_eq!(format_duration(Duration::from_secs(42230)), "11:43:50h");
    assert_eq!(format_duration(Duration::from_secs(42 * 3600)), "42:00:00h");
}

#[test]
fn zero_is_written_in_nanoseconds() {
    assert_eq!(format_duration(Duration::from_nanos(0)), "0ns");
    assert_eq!(format_duration(Duration::from_secs(0)), "0ns");
}

#[test]
fn nanoseconds_end_at_a_thousand() {
    assert_eq!(format_duration(Duration::from_nanos(999)), "999ns");
    assert_eq!(format_duration(Duration::from_nanos(1000)), "1µs");
    assert_eq!(format_duration(Duration::from_nanos(1001)), "1µs");
}

#[test]
fn microseconds_are_cut_off_and_end_at_a_thousand() {
    assert_eq!(format_duration(Duration::from_nanos(1_999)), "1µs");
    assert_eq!(format_duration(Duration::from_nanos(999_999)), "999µs");
    assert_eq!(format_duration(Duration::from_nanos(1_000_000)), "1ms");
    assert_eq!(format_duration(Duration::from_micros(1_000)), "1ms");
}

#[test]
fn milliseconds_are_cut_off_and_end_at_a_thousand() {
    assert_eq!(format_duration(Duration::from_nanos(1_999_999)), "1ms");
    assert_eq!(format_duration(Duration::from_nanos(999_999_999)), "999ms");
    assert_eq!(format_duration(Duration::from_millis(999)), "999ms");
    assert_eq!(format_duration(Duration::from_millis(1_000)), "1.00s");
}

#[test]
fn seconds_end_at_two_minutes() {
    assert_eq!(format_duration(Duration::from_secs(1)), "1.00s");
    assert_eq!(format_duration(Duration::from_secs(119)), "119.00s");
    assert_eq!(format_duration(Duration::from_millis(119_990)), "119.99s");
    assert_eq!(format_duration(Duration::from_secs(120)), "2:00min");
    assert_eq!(format_duration(Duration::from_millis(120_999)), "2:00min");
}

#[test]
fn minutes_end_at_two_hours() {
    assert_eq!(format_duration(Duration::from_secs(121)), "2:01min");
    assert_eq!(format_duration(Duration::from_secs(7199)), "119:59min");
    assert_eq!(format_duration(Duration::from_millis(7_199_999)), "119:59min");
    assert_eq!(format_duration(Duration::from_secs(7200)), "2:00:00h");
    assert_eq!(format_duration(Duration::from_secs(7201)), "2:00:01h");
}

#[test]
fn hours_keep_two_digits_for_minutes_and_seconds() {
    assert_eq!(format_duration(Duration::from_secs(3 * 3600 + 4 * 60 + 5)), "3:04:05h");
    assert_eq!(format_duration(Duration::from_secs(100 * 3600 + 59 * 60 + 59)), "100:59:59h");
    assert_eq!(
        format_duration(Duration::from_secs(u64::MAX)),
        "5124095576030431:00:15h"
    );
}

#[test]
fn seconds_show_the_nearest_hundredth_of_the_single_precision_value() {
    // As a float, 1.005 s is a little less than 1.005, and 2.005 s a little more.
    assert_eq!(format_duration(Duration::from_millis(1_005)), "1.00s");
    assert_eq!(format_duration(Duration::from_millis(2_005)), "2.01s");
    assert_eq!(format_duration(Duration::from_millis(1_999)), "2.00s");
    assert_eq!(format_duration(Duration::from_millis(1_994)), "1.99s");
    // An exact half goes to the even hundredth.
    assert_eq!(format_duration(Duration::from_millis(1_125)), "1.12s");
    assert_eq!(format_duration(Duration::from_millis(1_375)), "1.38s");
    // The float nearest to 119.999999999 is 120.
    assert_eq!(format_duration(Duration::from_nanos(119_999_999_999)), "120.00s");
}

fn float_seconds(secs: u64, nanos: u32) -> String {
    format!("{:.2}s", std::time::Duration::new(secs, nanos).as_secs_f32())
}

#[test]
fn seconds_agree_with_float_formatting_on_every_millisecond() {
    for millis in 1_000u64..120_000 {
        let secs = millis / 1_000;
        let nanos = ((millis % 1_000) * 1_000_000) as u32;
        assert_eq!(
            format_duration(Duration::from_millis(millis)),
            float_seconds(secs, nanos),
            "at {} ms",
            millis
        );
    }
}

#[test]
fn seconds_agree_with_float_formatting_on_scattered_nanoseconds() {
    let mut state: u64 = 0x2545_f491_4f6c_dd1d;
    for _ in 0..200_000 {
        state ^= state << 13;
        state ^= state >> 7;
        state ^= state << 17;
        let total = 1_000_000_000 + state % 119_000_000_000;
        let secs = total / 1_000_000_000;
        let nanos = (total % 1_000_000_000) as u32;
        assert_eq!(
            format_duration(Duration::from_nanos(total)),
            float_seconds(secs, nanos),
            "at {} ns",
            total
        );
    }
}

#[test]
fn seconds_agree_with_float_formatting_around_every_hundredth() {
    for secs in 1u64..120 {
        for hundredth in 0u64..100 {
            for offset in [0u64, 1, 4_999_999, 5_000_000, 5_000_001, 9_999_999] {
                let nanos = hundredth * 10_000_000 + offset;
                let total = secs * 1_000_000_000 + nanos;
                assert_eq!(
                    format_duration(Duration::from_nanos(total)),
                    float_seconds(secs, nanos as u32),
                    "at {} ns",
                    total
                );
            }
        }
    }
}

fn is_numeral(s: &str) -> bool {
    !s.is_empty() && s.chars().all(|c| c.is_ascii_digit())
}

fn two_digits(s: &str) -> bool {
    s.len() == 2 && is_numeral(s)
}

fn forms_of(text: &str) -> Vec<&'static str> {
    let mut forms = Vec::new();
    if let Some(n) = text.strip_suffix("ns") {
        if is_numeral(n) {
            forms.push("ns");
        }
    }
    if let Some(n) = text.strip_suffix("µs") {
        if is_numeral(n) {
            forms.push("µs");
        }
    }
    if let Some(n) = text.strip_suffix("ms") {
        if is_numeral(n) {
            forms.push("ms");
        }
    }
    if let Some(n) = text.strip_suffix('s') {
        let parts: Vec<&str> = n.split('.').collect();
        if parts.len() == 2 && is_numeral(parts[0]) && two_digits(parts[1]) {
            forms.push("s");
        }
    }
    if let Some(n) = text.strip_suffix("min") {
        let parts: Vec<&str> = n.split(':').collect();
        if parts.len() == 2 && is_numeral(parts[0]) && two_digits(parts[1]) {
            forms.push("min");
        }
    }
    if let Some(n) = text.strip_suffix('h') {
        let parts: Vec<&str> = n.split(':').collect();
        if parts.len() == 3 && is_numeral(parts[0]) && two_digits(parts[1]) && two_digits(parts[2])
        {
            forms.push("h");
        }
    }
    forms
}

#[test]
fn every_span_has_exactly_the_form_of_its_unit() {
    let cases: [(u64, &str); 14] = [
        (0, "ns"),
        (999, "ns"),
        (1_000, "µs"),
        (999_999, "µs"),
        (1_000_000, "ms"),
        (999_999_999, "ms"),
        (1_000_000_000, "s"),
        (59_500_000_000, "s"),
        (119_999_999_999, "s"),
        (120_000_000_000, "min"),
        (7_199_999_999_999, "min"),
        (7_200_000_000_000, "h"),
        (86_400_000_000_000, "h"),
        (u64::MAX, "h"),
    ];
    for (nanos, unit) in cases {
        let text = format_duration(Duration::from_nanos(nanos));
        assert_eq!(forms_of(&text), vec![unit], "{} ns reads {}", nanos, text);
    }
}

#[test]
fn spans_are_the_same_whatever_unit_they_are_given_in() {
    assert_eq!(Duration::from_secs(3), Duration::from_millis(3_000));
    assert_eq!(Duration::from_millis(7), Duration::from_micros(7_000));
    assert_eq!(Duration::from_micros(9), Duration::from_nanos(9_000));
    assert_ne!(Duration::from_micros(9), Duration::from_nanos(9_001));
}

#[test]
fn a_span_splits_into_seconds_and_nanoseconds() {
    let d = Duration::from_millis(42_230);
    assert_eq!(d.as_secs(), 42);
    assert_eq!(d.subsec_nanos(), 230_000_000);
    let d = Duration::from_nanos(1_999_999_999);
    assert_eq!(d.as_secs(), 1);
    assert_eq!(d.subsec_nanos(), 999_999_999);
    let d = Duration::from_micros(u64::MAX);
    assert_eq!(d.as_secs(), 18_446_744_073_709);
    assert_eq!(d.subsec_nanos(), 551_615_000);
}

#[test]
fn seconds_shown_are_those_of_the_span_or_a_hundredth_more() {
    for millis in 1_000u64..120_000 {
        let text = format_duration(Duration::from_millis(millis));
        let number = text.strip_suffix('s').unwrap();
        let (whole, hundredths) = number.split_once('.').unwrap();
        let shown = whole.parse::<u64>().unwrap() * 100 + hundredths.parse::<u64>().unwrap();
        let cut_off = millis / 10;
        assert!(shown == cut_off || shown == cut_off + 1, "{} ms reads {}", millis, text);
    }
}
