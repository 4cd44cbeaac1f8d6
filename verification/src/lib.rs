//! Conversion of a SIRI vehicle-monitoring feed into a GTFS-realtime feed
//! message.
//!
//! The crate parses nothing off the wire itself: callers hand it a typed
//! [`siri::VehicleMonitoringDelivery`] snapshot, and it joins each reported
//! vehicle against a static schedule and builds the corresponding
//! [`feed::FeedMessage`], dropping activities whose trip reference cannot be
//! resolved.

pub mod feed;
pub mod gtfs;
pub mod mapper;
pub mod numeric;
pub mod schedule;
pub mod siri;
pub mod timestamp;
