//! Tests for the ISO-8601 offset formatter and its option derivation.

use codepointtrie::iso8601::FieldLength;
use codepointtrie::iso8601::Iso8601Format;
use codepointtrie::iso8601::Minutes;
use codepointtrie::iso8601::Seconds;
use codepointtrie::iso8601::UtcOffset;

fn offset(seconds: i32) -> UtcOffset {
    UtcOffset::try_from_seconds(seconds).expect("within eighteen hours")
}

#[test]
fn with_z_selects_options_by_length() {
    assert_eq!(
        Iso8601Format::with_z(FieldLength::One),
        Iso8601Format { extended: false, z: true, minutes: Minutes::Optional, seconds: Seconds::Never }
    );
    assert_eq!(
        Iso8601Format::with_z(FieldLength::Two),
        Iso8601Format { extended: false, z: true, minutes: Minutes::Required, seconds: Seconds::Never }
    );
    assert_eq!(
        Iso8601Format::with_z(FieldLength::Three),
        Iso8601Format { extended: true, z: true, minutes: Minutes::Required, seconds: Seconds::Never }
    );
    assert_eq!(
        Iso8601Format::with_z(FieldLength::Four),
        Iso8601Format { extended: false, z: true, minutes: Minutes::Required, seconds: Seconds::Optional }
    );
    assert_eq!(
        Iso8601Format::with_z(FieldLength::Five),
        Iso8601Format { extended: true, z: true, minutes: Minutes::Required, seconds: Seconds::Optional }
    );
}

#[test]
fn without_z_selects_options_by_length() {
    assert_eq!(
        Iso8601Format::without_z(FieldLength::One),
        Iso8601Format { extended: false, z: false, minutes: Minutes::Optional, seconds: Seconds::Never }
    );
    assert_eq!(
        Iso8601Format::without_z(FieldLength::Six),
        Iso8601Format { extended: true, z: false, minutes: Minutes::Required, seconds: Seconds::Optional }
    );
}

#[test]
fn formats_basic_and_extended() {
    let two = Iso8601Format::with_z(FieldLength::Two);
    let three = Iso8601Format::with_z(FieldLength::Three);
    assert_eq!(two.format_infallible(&offset(8 * 3600)), "+0800");
    assert_eq!(three.format_infallible(&offset(8 * 3600)), "+08:00");
    assert_eq!(two.format_infallible(&offset(-5 * 3600 - 30 * 60)), "-0530");
    assert_eq!(three.format_infallible(&offset(-5 * 3600 - 30 * 60)), "-05:30");
}

#[test]
fn formats_zero_offset() {
    let with_z = Iso8601Format::with_z(FieldLength::Two);
    let without_z = Iso8601Format::without_z(FieldLength::Two);
    let short = Iso8601Format::without_z(FieldLength::One);
    assert_eq!(with_z.format_infallible(&offset(0)), "Z");
    assert_eq!(without_z.format_infallible(&offset(0)), "+0000");
    // With optional minutes and no z, the zero offset is just the hours.
    assert_eq!(short.format_infallible(&offset(0)), "+00");
}

#[test]
fn formats_optional_fields() {
    let one = Iso8601Format::with_z(FieldLength::One);
    // Optional minutes appear only when non-zero.
    assert_eq!(one.format_infallible(&offset(2 * 3600)), "+02");
    assert_eq!(one.format_infallible(&offset(2 * 3600 + 1800)), "+0230");
    // Optional seconds appear only when non-zero.
    let five = Iso8601Format::with_z(FieldLength::Five);
    assert_eq!(five.format_infallible(&offset(3600 + 120 + 3)), "+01:02:03");
    assert_eq!(five.format_infallible(&offset(3600 + 120)), "+01:02");
}

#[test]
fn sign_follows_truncated_hour() {
    // An offset within the first negative hour has hour part zero, whose
    // always-on sign display is the plus sign.
    let two = Iso8601Format::without_z(FieldLength::Two);
    assert_eq!(two.format_infallible(&offset(-1800)), "+0030");
    assert_eq!(two.format_infallible(&offset(-3600)), "-0100");
}

#[test]
fn format_writes_placeholder_for_missing_offset() {
    let three = Iso8601Format::with_z(FieldLength::Three);
    assert_eq!(three.format(None), "+?");
    assert_eq!(three.format(Some(offset(3600))), "+01:00");
}

#[test]
fn offset_parts() {
    let o = offset(-5 * 3600 - 30 * 60 - 7);
    assert_eq!(o.to_seconds(), -19807);
    assert_eq!(o.hours_part(), -5);
    assert_eq!(o.minutes_part(), 30);
    assert_eq!(o.seconds_part(), 7);
    assert!(!o.is_zero());
    assert!(offset(0).is_zero());
    assert_eq!(UtcOffset::try_from_seconds(64801), None);
    assert_eq!(UtcOffset::try_from_seconds(-64801), None);
    assert!(UtcOffset::try_from_seconds(64800).is_some());
}
