//! The static schedule as loaded by the `gtfs_structures` crate.
//!
//! A loaded [`Gtfs`] dataset is opaque here; all the conversion reads of it
//! is its trip table, through one lookup call. The table's contents are
//! named by [`gtfs_trip_table`], and everything built on top of the lookup
//! is verified against that name.

use vstd::prelude::*;

use gtfs_structures::Gtfs;

use crate::schedule::Accessibility;
use crate::schedule::Direction;
use crate::schedule::Trip;
use crate::schedule::TripView;

verus! {

#[verifier::external_type_specification]
#[verifier::external_body]
pub struct ExGtfs(Gtfs);

/// What the trip table of a loaded schedule holds, keyed by the identifier
/// that lookups use: each record carries the trip's own identifier, its
/// route, its direction (`true` for inbound, `None` where the schedule
/// leaves it open), and its wheelchair accessibility (`None` where the
/// schedule gives no information).
pub uninterp spec fn gtfs_trip_table(g: &Gtfs) -> Map<
    Seq<char>,
    (Seq<char>, Seq<char>, Option<bool>, Option<bool>),
>;

/// The trip that a trip-table record stands for.
pub open spec fn trip_of_record(r: (Seq<char>, Seq<char>, Option<bool>, Option<bool>)) -> TripView {
    TripView {
        id: r.0,
        route_id: r.1,
        direction: match r.2 {
            Some(true) => Some(Direction::Inbound),
            Some(false) => Some(Direction::Outbound),
            None => None,
        },
        wheelchair_accessible: match r.3 {
            Some(true) => Accessibility::Available,
            Some(false) => Accessibility::NotAvailable,
            None => Accessibility::Unspecified,
        },
    }
}

/// The lookup that a loaded schedule provides: the trip-table record for an
/// identifier, or nothing where the table has no such trip.
pub open spec fn spec_gtfs_lookup(g: &Gtfs, id: Seq<char>) -> Option<TripView> {
    if gtfs_trip_table(g).dom().contains(id) {
        Some(trip_of_record(gtfs_trip_table(g)[id]))
    } else {
        None
    }
}

/// Relies on `gtfs_structures::Gtfs::get_trip`, which looks the identifier
/// up in the schedule's trip table and fails with a reference error where no
/// trip has that identifier. The call reads the table only and never panics.
#[verifier::external_body]
fn gtfs_trip_record(g: &Gtfs, id: &str) -> (r: Option<(String, String, Option<bool>, Option<bool>)>)
    ensures
        match r {
            Some(rec) => gtfs_trip_table(g).dom().contains(id@) && (rec.0@, rec.1@, rec.2, rec.3)
                == gtfs_trip_table(g)[id@],
            None => !gtfs_trip_table(g).dom().contains(id@),
        },
{
    match g.get_trip(id) {
        Ok(t) => Some((t.id.clone(), t.route_id.clone(),
            match t.direction_id {
                Some(gtfs_structures::DirectionType::Outbound) => Some(false),
                Some(gtfs_structures::DirectionType::Inbound) => Some(true),
                None => None,
            },
            match t.wheelchair_accessible {
                gtfs_structures::Availability::Available => Some(true),
                gtfs_structures::Availability::NotAvailable => Some(false),
                _ => None,
            })),
        Err(_) => None,
    }
}

/// The library trip that a looked-up record yields.
fn trip_from_record(rec: (String, String, Option<bool>, Option<bool>)) -> (t: Trip)
    ensures
        t@ == trip_of_record((rec.0@, rec.1@, rec.2, rec.3)),
{
    let (id, route_id, direction, wheelchair) = rec;
    Trip {
        id,
        route_id,
        direction: match direction {
            Some(true) => Some(Direction::Inbound),
            Some(false) => Some(Direction::Outbound),
            None => None,
        },
        wheelchair_accessible: match wheelchair {
            Some(true) => Accessibility::Available,
            Some(false) => Accessibility::NotAvailable,
            None => Accessibility::Unspecified,
        },
    }
}

/// Looks a trip identifier up in a loaded schedule.
pub fn lookup_trip_in_gtfs(g: &Gtfs, id: &str) -> (r: Option<Trip>)
    ensures
        match r {
            Some(t) => spec_gtfs_lookup(g, id@) == Some(t@),
            None => spec_gtfs_lookup(g, id@) is None,
        },
{
    match gtfs_trip_record(g, id) {
        Some(rec) => Some(trip_from_record(rec)),
        None => None,
    }
}

} // verus!
