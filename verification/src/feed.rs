//! The GTFS-realtime feed message that the conversion builds.
//!
//! The types mirror the GTFS-realtime schema as far as this conversion
//! populates it. Every optional field of the schema that the conversion can
//! populate is an explicit `Option`, so that an absent value is never
//! confused with a meaningful zero. Schema fields that this conversion never
//! populates (trip updates, alerts, occupancy, odometer, speed, and the like)
//! are left to the caller that encodes the message for the wire.
//!
//! Geographic coordinates and bearings are IEEE 754 single-precision degrees
//! on the wire; here they are carried as their raw bit patterns, copied
//! verbatim from the input, so that the conversion itself involves no
//! floating-point arithmetic.

use vstd::prelude::*;

verus! {

/// Whether a feed carries a full dataset or an incremental update.
#[derive(Clone, Copy, Debug, PartialEq, Eq)]
pub enum Incrementality {
    FullDataset,
    Differential,
}

/// Wheelchair accessibility of a reported vehicle.
#[derive(Clone, Copy, Debug, PartialEq, Eq)]
pub enum WheelchairAccessibility {
    Accessible,
    Inaccessible,
}

/// The feed-level header.
#[derive(Clone, Debug, PartialEq, Eq)]
pub struct FeedHeader {
    /// Version of the GTFS-realtime schema the message follows.
    pub gtfs_realtime_version: String,
    /// How the feed relates to earlier feeds; always a full dataset here.
    pub incrementality: Option<Incrementality>,
    /// Moment the feed snapshot was produced, in POSIX seconds.
    pub timestamp: Option<u64>,
}

/// The mathematical value of a [`FeedHeader`].
pub ghost struct FeedHeaderView {
    pub gtfs_realtime_version: Seq<char>,
    pub incrementality: Option<Incrementality>,
    pub timestamp: Option<u64>,
}

impl View for FeedHeader {
    type V = FeedHeaderView;

    open spec fn view(&self) -> FeedHeaderView {
        FeedHeaderView {
            gtfs_realtime_version: self.gtfs_realtime_version@,
            incrementality: self.incrementality,
            timestamp: self.timestamp,
        }
    }
}

/// A trip descriptor: which scheduled trip a vehicle is serving.
#[derive(Clone, Debug, PartialEq, Eq)]
pub struct TripDescriptor {
    pub trip_id: Option<String>,
    pub route_id: Option<String>,
    /// Zero for outbound travel, one for inbound travel.
    pub direction_id: Option<u32>,
}

/// The mathematical value of a [`TripDescriptor`].
pub ghost struct TripDescriptorView {
    pub trip_id: Option<Seq<char>>,
    pub route_id: Option<Seq<char>>,
    pub direction_id: Option<u32>,
}

impl View for TripDescriptor {
    type V = TripDescriptorView;

    open spec fn view(&self) -> TripDescriptorView {
        TripDescriptorView {
            trip_id: match self.trip_id {
                Some(ref s) => Some(s@),
                None => None,
            },
            route_id: match self.route_id {
                Some(ref s) => Some(s@),
                None => None,
            },
            direction_id: self.direction_id,
        }
    }
}

/// A vehicle descriptor: how the vehicle itself is identified.
#[derive(Clone, Debug, PartialEq, Eq)]
pub struct VehicleDescriptor {
    pub id: Option<String>,
    pub label: Option<String>,
    pub wheelchair_accessible: Option<WheelchairAccessibility>,
}

/// The mathematical value of a [`VehicleDescriptor`].
pub ghost struct VehicleDescriptorView {
    pub id: Option<Seq<char>>,
    pub label: Option<Seq<char>>,
    pub wheelchair_accessible: Option<WheelchairAccessibility>,
}

impl View for VehicleDescriptor {
    type V = VehicleDescriptorView;

    open spec fn view(&self) -> VehicleDescriptorView {
        VehicleDescriptorView {
            id: match self.id {
                Some(ref s) => Some(s@),
                None => None,
            },
            label: match self.label {
                Some(ref s) => Some(s@),
                None => None,
            },
            wheelchair_accessible: self.wheelchair_accessible,
        }
    }
}

/// A geographic position, in WGS-84 degrees carried as raw IEEE 754
/// single-precision bit patterns.
#[derive(Clone, Copy, Debug, PartialEq, Eq)]
pub struct Position {
    pub latitude_bits: u32,
    pub longitude_bits: u32,
    /// Degrees clockwise from north.
    pub bearing_bits: Option<u32>,
}

/// One carriage of a vehicle's consist. The source feed never reports true
/// multi-carriage detail, so exactly one of these is synthesized per vehicle.
#[derive(Clone, Debug, PartialEq, Eq)]
pub struct CarriageDetails {
    pub id: Option<String>,
    pub label: Option<String>,
    pub carriage_sequence: Option<u32>,
}

/// The mathematical value of a [`CarriageDetails`].
pub ghost struct CarriageDetailsView {
    pub id: Option<Seq<char>>,
    pub label: Option<Seq<char>>,
    pub carriage_sequence: Option<u32>,
}

impl View for CarriageDetails {
    type V = CarriageDetailsView;

    open spec fn view(&self) -> CarriageDetailsView {
        CarriageDetailsView {
            id: match self.id {
                Some(ref s) => Some(s@),
                None => None,
            },
            label: match self.label {
                Some(ref s) => Some(s@),
                None => None,
            },
            carriage_sequence: self.carriage_sequence,
        }
    }
}

/// Everything reported about one vehicle: trip, identity, position, the
/// moment of the position fix, and the synthesized carriage list.
#[derive(Clone, Debug, PartialEq, Eq)]
pub struct VehiclePosition {
    pub trip: Option<TripDescriptor>,
    pub vehicle: Option<VehicleDescriptor>,
    pub position: Option<Position>,
    /// Moment the position was measured, in POSIX seconds.
    pub timestamp: Option<u64>,
    pub multi_carriage_details: Vec<CarriageDetails>,
}

/// The mathematical value of a [`VehiclePosition`].
pub ghost struct VehiclePositionView {
    pub trip: Option<TripDescriptorView>,
    pub vehicle: Option<VehicleDescriptorView>,
    pub position: Option<Position>,
    pub timestamp: Option<u64>,
    pub multi_carriage_details: Seq<CarriageDetailsView>,
}

impl View for VehiclePosition {
    type V = VehiclePositionView;

    open spec fn view(&self) -> VehiclePositionView {
        VehiclePositionView {
            trip: match self.trip {
                Some(ref t) => Some(t@),
                None => None,
            },
            vehicle: match self.vehicle {
                Some(ref v) => Some(v@),
                None => None,
            },
            position: self.position,
            timestamp: self.timestamp,
            multi_carriage_details: self.multi_carriage_details@.map_values(
                |c: CarriageDetails| c@,
            ),
        }
    }
}

/// One entity of the feed: a vehicle position keyed by its trip identifier.
#[derive(Clone, Debug, PartialEq, Eq)]
pub struct FeedEntity {
    pub id: String,
    pub is_deleted: Option<bool>,
    pub vehicle: Option<VehiclePosition>,
}

/// The mathematical value of a [`FeedEntity`].
pub ghost struct FeedEntityView {
    pub id: Seq<char>,
    pub is_deleted: Option<bool>,
    pub vehicle: Option<VehiclePositionView>,
}

impl View for FeedEntity {
    type V = FeedEntityView;

    open spec fn view(&self) -> FeedEntityView {
        FeedEntityView {
            id: self.id@,
            is_deleted: self.is_deleted,
            vehicle: match self.vehicle {
                Some(ref v) => Some(v@),
                None => None,
            },
        }
    }
}

/// A complete feed message: one header and the entities of this snapshot.
#[derive(Clone, Debug, PartialEq, Eq)]
pub struct FeedMessage {
    pub header: FeedHeader,
    pub entity: Vec<FeedEntity>,
}

/// The mathematical value of a [`FeedMessage`].
pub ghost struct FeedMessageView {
    pub header: FeedHeaderView,
    pub entity: Seq<FeedEntityView>,
}

impl View for FeedMessage {
    type V = FeedMessageView;

    open spec fn view(&self) -> FeedMessageView {
        FeedMessageView {
            header: self.header@,
            entity: self.entity@.map_values(|e: FeedEntity| e@),
        }
    }
}

} // verus!
