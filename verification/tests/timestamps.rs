//! Tests of the creation-timestamp rendering and of the diagnostics
//! messages for the three failure kinds.

use fp_extension::errors::IngestError;
use fp_extension::timestamp::{created_at_now, format_created_at, UtcParts};

fn parts(year: i32, month: u32, day: u32, hour: u32, minute: u32, second: u32, nanos: u32) -> UtcParts {
    UtcParts { year, month, day, hour, minute, second, nanos }
}

#[test]
fn iso_rendering() {
    let p = parts(2024, 1, 2, 3, 4, 5, 6_000_000);
    assert_eq!(format_created_at(&p), "2024-01-02T03:04:05.006Z");
}

#[test]
fn iso_rendering_wide_fields() {
    let p = parts(999, 12, 31, 23, 59, 59, 999_999_999);
    assert_eq!(format_created_at(&p), "0999-12-31T23:59:59.999Z");
}

#[test]
fn leap_second_keeps_three_digits() {
    // nanoseconds of one billion and above stand for a leap second; the
    // millisecond field saturates rather than overflowing its width
    let p = parts(2016, 12, 31, 23, 59, 59, 1_500_000_000);
    assert_eq!(format_created_at(&p), "2016-12-31T23:59:59.999Z");
}

#[test]
fn years_outside_four_digits_are_clamped() {
    let before = parts(-44, 3, 15, 12, 0, 0, 0);
    assert_eq!(format_created_at(&before), "0000-03-15T12:00:00.000Z");
    let after = parts(123456, 3, 15, 12, 0, 0, 0);
    assert_eq!(format_created_at(&after), "9999-03-15T12:00:00.000Z");
}

#[test]
fn now_has_the_iso_shape() {
    let s = created_at_now();
    let b = s.as_bytes();
    assert_eq!(b.len(), 24);
    for (i, c) in b.iter().enumerate() {
        match i {
            4 | 7 => assert_eq!(*c, b'-'),
            10 => assert_eq!(*c, b'T'),
            13 | 16 => assert_eq!(*c, b':'),
            19 => assert_eq!(*c, b'.'),
            23 => assert_eq!(*c, b'Z'),
            _ => assert!(c.is_ascii_digit(), "position {} of {}", i, s),
        }
    }
}

#[test]
fn diagnostics_messages() {
    assert_eq!(
        IngestError::Config("invalid scheme".to_string()).message(),
        "Error parsing DB URL: invalid scheme"
    );
    assert_eq!(
        IngestError::Connect("handshake refused".to_string()).message(),
        "Error connecting to DB: handshake refused"
    );
    assert_eq!(
        IngestError::Write("broken pipe".to_string()).message(),
        "Error writing log: broken pipe"
    );
}
