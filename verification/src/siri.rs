//! The typed SIRI vehicle-monitoring snapshot that the conversion consumes.
//!
//! A caller parses the raw payload (JSON or XML, depending on the agency)
//! into these types before conversion; timestamp-shaped fields arrive here
//! already parsed as [`Timestamp`] values, and numeric-as-string reference
//! fields stay strings, coerced on demand by the journey's accessors.
//! Geographic coordinates and bearings are carried as raw IEEE 754
//! single-precision bit patterns, copied through to the output verbatim.

use vstd::prelude::*;

use crate::numeric::numeric_code;
use crate::numeric::spec_numeric_code;
use crate::timestamp::Timestamp;

verus! {

/// Failure of the top-level payload parse: the raw text could not be read as
/// a vehicle-monitoring delivery. Per-vehicle problems are never an error;
/// they degrade only the entity concerned.
#[derive(Clone, Debug, PartialEq, Eq)]
pub struct MalformedFeed {
    /// The underlying syntax or schema violation, as text.
    pub detail: String,
}

/// Agency extensions of the journey; only the GPS fix time is read.
#[derive(Clone, Copy, Debug, PartialEq, Eq)]
pub struct Extensions {
    /// Moment the reported position was physically measured.
    pub last_gps_fix: Timestamp,
}

/// The frame that dates a vehicle journey and names the scheduled trip.
#[derive(Clone, Debug, PartialEq, Eq)]
pub struct FramedVehicleJourneyRef {
    /// The service date of the journey.
    pub data_frame_ref: String,
    /// The sole join key against the static schedule.
    pub dated_vehicle_journey_ref: String,
}

/// A reported location, as raw IEEE 754 single-precision bit patterns of
/// WGS-84 degrees.
#[derive(Clone, Copy, Debug, PartialEq, Eq)]
pub struct VehicleLocation {
    pub latitude_bits: u32,
    pub longitude_bits: u32,
}

/// Journey and position detail for one vehicle.
#[derive(Clone, Debug, PartialEq, Eq)]
pub struct MonitoredVehicleJourney {
    pub extensions: Extensions,
    /// External identifier of the route.
    pub line_ref: String,
    pub framed_vehicle_journey_ref: FramedVehicleJourneyRef,
    /// Human-facing line labels; the first element is canonical.
    pub published_line_name: Vec<String>,
    pub direction_name: Vec<String>,
    /// Origin station code, numeric but transmitted as a string.
    pub origin_ref: String,
    /// Destination station code, numeric but transmitted as a string.
    pub destination_ref: String,
    pub destination_name: Vec<String>,
    /// Liveness flag of the report.
    pub monitored: bool,
    pub vehicle_location: VehicleLocation,
    /// Degrees clockwise from north, as a raw single-precision bit pattern.
    pub bearing_bits: u32,
    /// Free-text status tokens.
    pub progress_status: Vec<String>,
    /// Block or course identifier, numeric but transmitted as a string.
    pub course_of_journey_ref: String,
    /// Vehicle identifier, reused as both id and label in the output.
    pub vehicle_ref: String,
}

impl MonitoredVehicleJourney {
    /// The origin station code coerced to a number, zero where the field
    /// holds a placeholder.
    pub fn origin_code(&self) -> (r: u32)
        ensures
            r == spec_numeric_code(self.origin_ref@),
    {
        numeric_code(self.origin_ref.as_str())
    }

    /// The destination station code coerced to a number, zero where the
    /// field holds a placeholder.
    pub fn destination_code(&self) -> (r: u32)
        ensures
            r == spec_numeric_code(self.destination_ref@),
    {
        numeric_code(self.destination_ref.as_str())
    }

    /// The course identifier coerced to a number, zero where the field holds
    /// a placeholder.
    pub fn course_code(&self) -> (r: u32)
        ensures
            r == spec_numeric_code(self.course_of_journey_ref@),
    {
        numeric_code(self.course_of_journey_ref.as_str())
    }

    /// The vehicle reference coerced to a number, zero where the field holds
    /// a placeholder.
    pub fn vehicle_code(&self) -> (r: u32)
        ensures
            r == spec_numeric_code(self.vehicle_ref@),
    {
        numeric_code(self.vehicle_ref.as_str())
    }
}

/// One reported vehicle's journey snapshot. Transient: constructed per feed
/// poll and discarded after conversion; no identity persists across polls.
#[derive(Clone, Debug, PartialEq, Eq)]
pub struct VehicleActivity {
    /// Moment of the reporting event, not necessarily the GPS fix time.
    pub recorded_at_time: Timestamp,
    pub monitored_vehicle_journey: MonitoredVehicleJourney,
}

/// The root of a parsed feed snapshot.
#[derive(Clone, Debug, PartialEq, Eq)]
pub struct VehicleMonitoringDelivery {
    /// The reported vehicles, in feed order; an absent list in the source is
    /// an empty sequence here, not an error.
    pub vehicle_activities: Vec<VehicleActivity>,
    /// Feed-level production timestamp.
    pub response_timestamp: Timestamp,
    /// Feed-level expiry timestamp.
    pub valid_until: Timestamp,
}

impl VehicleMonitoringDelivery {
    /// Whether both feed-level timestamps parsed and the expiry does not
    /// precede production. Producers do not guarantee this; a violation does
    /// not invalidate the feed, and conversion never consults it. It is for
    /// callers that filter for freshness.
    pub open spec fn spec_timestamps_consistent(self) -> bool {
        match (self.response_timestamp.epoch_seconds, self.valid_until.epoch_seconds) {
            (Some(r), Some(v)) => v >= r,
            _ => false,
        }
    }

    /// Checks the feed-level timestamp invariant: both timestamps valid and
    /// `valid_until` at or after `response_timestamp`.
    pub fn timestamps_consistent(&self) -> (r: bool)
        ensures
            r == self.spec_timestamps_consistent(),
    {
        match (self.response_timestamp.epoch_seconds, self.valid_until.epoch_seconds) {
            (Some(rs), Some(v)) => v >= rs,
            _ => false,
        }
    }
}

} // verus!
