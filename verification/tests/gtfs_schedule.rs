//! The conversion pass against a schedule loaded as `gtfs_structures::Gtfs`.

use std::collections::HashMap;

use gtfs_structures::Availability;
use gtfs_structures::DirectionType;
use gtfs_structures::Gtfs;

use siri_gtfs_rt::feed::WheelchairAccessibility;
use siri_gtfs_rt::gtfs::lookup_trip_in_gtfs;
use siri_gtfs_rt::schedule::Direction;
use siri_gtfs_rt::siri::Extensions;
use siri_gtfs_rt::siri::FramedVehicleJourneyRef;
use siri_gtfs_rt::siri::MonitoredVehicleJourney;
use siri_gtfs_rt::siri::VehicleActivity;
use siri_gtfs_rt::siri::VehicleLocation;
use siri_gtfs_rt::siri::VehicleMonitoringDelivery;
use siri_gtfs_rt::timestamp::Timestamp;

fn gtfs_trip(
    id: &str,
    route: &str,
    direction: Option<DirectionType>,
    wheelchair: Availability,
) -> gtfs_structures::Trip {
    gtfs_structures::Trip {
        id: String::from(id),
        route_id: String::from(route),
        direction_id: direction,
        wheelchair_accessible: wheelchair,
        ..Default::default()
    }
}

fn loaded_schedule() -> Gtfs {
    let mut trips = HashMap::new();
    trips.insert(
        String::from("1234"),
        gtfs_trip("1234", "830X", Some(DirectionType::Outbound), Availability::Available),
    );
    trips.insert(
        String::from("5678"),
        gtfs_trip("5678", "831", Some(DirectionType::Inbound), Availability::NotAvailable),
    );
    trips.insert(
        String::from("9999"),
        gtfs_trip("9999", "832", None, Availability::InformationNotAvailable),
    );
    Gtfs { trips, ..Default::default() }
}

fn gtfs_activity(dated_ref: &str, vehicle_ref: &str) -> VehicleActivity {
    VehicleActivity {
        recorded_at_time: Timestamp::from_epoch(1714449700),
        monitored_vehicle_journey: MonitoredVehicleJourney {
            extensions: Extensions { last_gps_fix: Timestamp::from_epoch(1714449618) },
            line_ref: String::from("830"),
            framed_vehicle_journey_ref: FramedVehicleJourneyRef {
                data_frame_ref: String::from("2024-04-29"),
                dated_vehicle_journey_ref: String::from(dated_ref),
            },
            published_line_name: vec![String::from("830X")],
            direction_name: Vec::new(),
            origin_ref: String::from("830298"),
            destination_ref: String::from("830113"),
            destination_name: Vec::new(),
            monitored: true,
            vehicle_location: VehicleLocation {
                latitude_bits: 40.214482f32.to_bits(),
                longitude_bits: (-111.658097f32).to_bits(),
            },
            bearing_bits: 135.0f32.to_bits(),
            progress_status: Vec::new(),
            course_of_journey_ref: String::from("4003"),
            vehicle_ref: String::from(vehicle_ref),
        },
    }
}

fn gtfs_delivery(activities: Vec<VehicleActivity>) -> VehicleMonitoringDelivery {
    VehicleMonitoringDelivery {
        vehicle_activities: activities,
        response_timestamp: Timestamp::from_epoch(1714449800),
        valid_until: Timestamp::from_epoch(1714449860),
    }
}

#[test]
fn gtfs_lookup_maps_trip_fields() {
    let gtfs = loaded_schedule();
    let t = lookup_trip_in_gtfs(&gtfs, "1234").unwrap();
    assert_eq!(t.id, "1234");
    assert_eq!(t.route_id, "830X");
    assert_eq!(t.direction, Some(Direction::Outbound));
    assert!(lookup_trip_in_gtfs(&gtfs, "0000").is_none());
}

#[test]
fn gtfs_feed_entity_for_resolvable_activity() {
    let gtfs = loaded_schedule();
    let a = gtfs_activity("5678", "23109");
    let e = a.get_feed_entity(&gtfs).unwrap();
    assert_eq!(e.id, "5678");
    let vehicle = e.vehicle.as_ref().unwrap();
    let descriptor = vehicle.trip.as_ref().unwrap();
    assert_eq!(descriptor.route_id.as_deref(), Some("831"));
    assert_eq!(descriptor.direction_id, Some(1));
    assert_eq!(
        vehicle.vehicle.as_ref().unwrap().wheelchair_accessible,
        Some(WheelchairAccessibility::Inaccessible)
    );
}

#[test]
fn gtfs_feed_entity_skips_missing_and_directionless_trips() {
    let gtfs = loaded_schedule();
    assert!(gtfs_activity("0000", "23109").get_feed_entity(&gtfs).is_none());
    assert!(gtfs_activity("9999", "23109").get_feed_entity(&gtfs).is_none());
}

#[test]
fn gtfs_feed_message_converts_in_feed_order() {
    let gtfs = loaded_schedule();
    let d = gtfs_delivery(vec![
        gtfs_activity("5678", "23109"),
        gtfs_activity("0000", "23110"),
        gtfs_activity("1234", "23111"),
    ]);
    let m = d.get_feed_message(&gtfs);
    assert_eq!(m.header.gtfs_realtime_version, "2.0");
    assert_eq!(m.header.timestamp, Some(1714449800));
    assert_eq!(m.entity.len(), 2);
    assert_eq!(m.entity[0].id, "5678");
    assert_eq!(m.entity[1].id, "1234");
    assert_eq!(m.entity[0].vehicle.as_ref().unwrap().timestamp, Some(1714449618));
}

#[test]
fn gtfs_feed_entities_empty_delivery() {
    let gtfs = loaded_schedule();
    let d = gtfs_delivery(Vec::new());
    let m = d.get_feed_message(&gtfs);
    assert_eq!(m.entity.len(), 0);
}
