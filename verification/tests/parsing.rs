//! Timestamp parsing and numeric-as-string coercion.

use siri_gtfs_rt::numeric::numeric_code;
use siri_gtfs_rt::siri::Extensions;
use siri_gtfs_rt::siri::FramedVehicleJourneyRef;
use siri_gtfs_rt::siri::MonitoredVehicleJourney;
use siri_gtfs_rt::siri::VehicleLocation;
use siri_gtfs_rt::timestamp::Timestamp;

fn journey_with_refs(origin: &str, destination: &str, course: &str, vehicle: &str) -> MonitoredVehicleJourney {
    MonitoredVehicleJourney {
        extensions: Extensions { last_gps_fix: Timestamp::invalid() },
        line_ref: String::from("830"),
        framed_vehicle_journey_ref: FramedVehicleJourneyRef {
            data_frame_ref: String::from("2024-04-29"),
            dated_vehicle_journey_ref: String::from("1234"),
        },
        published_line_name: vec![String::from("830X")],
        direction_name: Vec::new(),
        origin_ref: String::from(origin),
        destination_ref: String::from(destination),
        destination_name: Vec::new(),
        monitored: true,
        vehicle_location: VehicleLocation { latitude_bits: 0, longitude_bits: 0 },
        bearing_bits: 0,
        progress_status: Vec::new(),
        course_of_journey_ref: String::from(course),
        vehicle_ref: String::from(vehicle),
    }
}

#[test]
fn rfc3339_with_offset_converts_to_posix_seconds() {
    let t = Timestamp::parse("2024-04-29T21:40:18.063479-06:00");
    assert_eq!(t.epoch_seconds, Some(1714448418));
}

#[test]
fn rfc3339_epoch_is_zero() {
    let t = Timestamp::parse("1970-01-01T00:00:00+00:00");
    assert_eq!(t.epoch_seconds, Some(0));
}

#[test]
fn rfc3339_offset_is_honoured() {
    // One o'clock at a one-hour offset is midnight UTC.
    let t = Timestamp::parse("1970-01-01T01:00:00+01:00");
    assert_eq!(t.epoch_seconds, Some(0));
}

#[test]
fn rfc3339_before_epoch_is_negative() {
    let t = Timestamp::parse("1969-12-31T23:59:59+00:00");
    assert_eq!(t.epoch_seconds, Some(-1));
}

#[test]
fn rfc3339_garbage_does_not_parse() {
    let t = Timestamp::parse("not a timestamp");
    assert_eq!(t.epoch_seconds, None);
    assert!(!t.is_valid());
}

#[test]
fn rfc3339_without_offset_does_not_parse() {
    let t = Timestamp::parse("2024-04-29T21:40:18");
    assert_eq!(t.epoch_seconds, None);
}

#[test]
fn feed_seconds_of_valid_timestamp() {
    assert_eq!(Timestamp::from_epoch(1714449618).feed_seconds(), 1714449618u64);
}

#[test]
fn feed_seconds_of_invalid_timestamp_is_epoch() {
    assert_eq!(Timestamp::invalid().feed_seconds(), 0u64);
}

#[test]
fn feed_seconds_of_negative_epoch_wraps() {
    let expected = (-1i64) as u64;
    assert_eq!(Timestamp::from_epoch(-1).feed_seconds(), expected);
}

#[test]
fn numeric_code_reads_decimal() {
    assert_eq!(numeric_code("830298"), 830298);
}

#[test]
fn numeric_code_defaults_placeholder_to_zero() {
    assert_eq!(numeric_code("N/A"), 0);
}

#[test]
fn numeric_code_empty_is_zero() {
    assert_eq!(numeric_code(""), 0);
}

#[test]
fn numeric_code_leading_zeroes() {
    assert_eq!(numeric_code("0042"), 42);
}

#[test]
fn numeric_code_largest_value() {
    assert_eq!(numeric_code("4294967295"), u32::MAX);
}

#[test]
fn numeric_code_overflow_is_zero() {
    assert_eq!(numeric_code("4294967296"), 0);
    assert_eq!(numeric_code("99999999999999999999"), 0);
}

#[test]
fn numeric_code_mixed_text_is_zero() {
    assert_eq!(numeric_code("12a3"), 0);
    assert_eq!(numeric_code("-5"), 0);
    assert_eq!(numeric_code(" 7"), 0);
}

#[test]
fn journey_reference_codes_coerce() {
    let j = journey_with_refs("830298", "830113", "4003", "23109");
    assert_eq!(j.origin_code(), 830298);
    assert_eq!(j.destination_code(), 830113);
    assert_eq!(j.course_code(), 4003);
    assert_eq!(j.vehicle_code(), 23109);
}

#[test]
fn journey_reference_codes_default_to_zero() {
    let j = journey_with_refs("N/A", "", "none", "23109");
    assert_eq!(j.origin_code(), 0);
    assert_eq!(j.destination_code(), 0);
    assert_eq!(j.course_code(), 0);
}
