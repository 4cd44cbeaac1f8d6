//! The conversion pass: from a SIRI snapshot to a GTFS-realtime message.
//!
//! For each vehicle activity, in feed order, the mapper resolves the dated
//! vehicle journey reference against the schedule. An activity whose
//! reference resolves to a trip with a known direction yields one entity;
//! any other activity yields nothing, silently — an expected, frequent
//! condition for vehicles on unscheduled trips. The whole pass is stated by
//! [`spec_convert`], and the laws at the end of the module relate the output
//! to the input order and count.

use vstd::prelude::*;

use gtfs_structures::Gtfs;

use crate::feed::CarriageDetails;
use crate::feed::CarriageDetailsView;
use crate::feed::FeedEntity;
use crate::feed::FeedEntityView;
use crate::feed::FeedHeader;
use crate::feed::FeedHeaderView;
use crate::feed::FeedMessage;
use crate::feed::FeedMessageView;
use crate::feed::Incrementality;
use crate::feed::Position;
use crate::feed::TripDescriptor;
use crate::feed::TripDescriptorView;
use crate::feed::VehicleDescriptor;
use crate::feed::VehicleDescriptorView;
use crate::feed::VehiclePosition;
use crate::feed::VehiclePositionView;
use crate::feed::WheelchairAccessibility;
use crate::gtfs::lookup_trip_in_gtfs;
use crate::gtfs::spec_gtfs_lookup;
use crate::schedule::Accessibility;
use crate::schedule::Direction;
use crate::schedule::ScheduleIndex;
use crate::schedule::Trip;
use crate::schedule::TripView;
use crate::schedule::spec_lookup;
use crate::siri::VehicleActivity;
use crate::siri::VehicleMonitoringDelivery;

verus! {

/// The view of an optional value, where present.
pub open spec fn opt_view<T: View>(o: Option<T>) -> Option<T::V> {
    match o {
        Some(t) => Some(t@),
        None => None,
    }
}

/// The GTFS-realtime code of a direction of travel.
pub open spec fn spec_direction_code(d: Direction) -> u32 {
    match d {
        Direction::Outbound => 0,
        Direction::Inbound => 1,
    }
}

/// The output accessibility of a trip's accessibility: available and
/// unavailable translate, anything else is omitted rather than defaulted.
pub open spec fn spec_wheelchair(a: Accessibility) -> Option<WheelchairAccessibility> {
    match a {
        Accessibility::Available => Some(WheelchairAccessibility::Accessible),
        Accessibility::NotAvailable => Some(WheelchairAccessibility::Inaccessible),
        Accessibility::Unspecified => None,
    }
}

/// The trip reference under which an activity is joined to the schedule.
pub open spec fn spec_journey_ref(a: VehicleActivity) -> Seq<char> {
    a.monitored_vehicle_journey.framed_vehicle_journey_ref.dated_vehicle_journey_ref@
}

/// The trip descriptor a resolved trip yields: none at all where the trip's
/// direction is unspecified.
pub open spec fn spec_trip_descriptor(t: TripView) -> Option<TripDescriptorView> {
    match t.direction {
        Some(d) => Some(
            TripDescriptorView {
                trip_id: Some(t.id),
                route_id: Some(t.route_id),
                direction_id: Some(spec_direction_code(d)),
            },
        ),
        None => None,
    }
}

/// The vehicle descriptor of an activity: the vehicle reference serves as
/// both id and label, since the source feed does not distinguish them.
pub open spec fn spec_vehicle_descriptor(a: VehicleActivity, t: TripView) -> VehicleDescriptorView {
    VehicleDescriptorView {
        id: Some(a.monitored_vehicle_journey.vehicle_ref@),
        label: Some(a.monitored_vehicle_journey.vehicle_ref@),
        wheelchair_accessible: spec_wheelchair(t.wheelchair_accessible),
    }
}

/// The position of an activity: coordinates and bearing copied verbatim.
pub open spec fn spec_position(a: VehicleActivity) -> Position {
    Position {
        latitude_bits: a.monitored_vehicle_journey.vehicle_location.latitude_bits,
        longitude_bits: a.monitored_vehicle_journey.vehicle_location.longitude_bits,
        bearing_bits: Some(a.monitored_vehicle_journey.bearing_bits),
    }
}

/// The single synthesized carriage of an activity's vehicle.
pub open spec fn spec_carriage_details(a: VehicleActivity) -> CarriageDetailsView {
    CarriageDetailsView {
        id: Some(a.monitored_vehicle_journey.vehicle_ref@),
        label: Some(a.monitored_vehicle_journey.vehicle_ref@),
        carriage_sequence: Some(1u32),
    }
}

/// The vehicle position of an activity joined to its trip. Its timestamp is
/// the parsed GPS fix time of the activity's extensions — not the recording
/// time — degraded to the epoch where the fix time did not parse.
pub open spec fn spec_vehicle_position(a: VehicleActivity, t: TripView) -> VehiclePositionView {
    VehiclePositionView {
        trip: spec_trip_descriptor(t),
        vehicle: Some(spec_vehicle_descriptor(a, t)),
        position: Some(spec_position(a)),
        timestamp: Some(a.monitored_vehicle_journey.extensions.last_gps_fix.spec_feed_seconds()),
        multi_carriage_details: seq![spec_carriage_details(a)],
    }
}

/// The entity of an activity joined to its trip, keyed by the trip id.
pub open spec fn spec_feed_entity(a: VehicleActivity, t: TripView) -> FeedEntityView {
    FeedEntityView {
        id: t.id,
        is_deleted: Some(false),
        vehicle: Some(spec_vehicle_position(a, t)),
    }
}

/// Whether a lookup result lets an activity produce an entity: the trip must
/// exist and its direction must be known.
pub open spec fn spec_resolves(found: Option<TripView>) -> bool {
    found is Some && found->0.direction is Some
}

/// The entity an activity yields for a given lookup result, if any.
pub open spec fn spec_entity_for(a: VehicleActivity, found: Option<TripView>) -> Option<
    FeedEntityView,
> {
    if spec_resolves(found) {
        Some(spec_feed_entity(a, found->0))
    } else {
        None
    }
}

/// The per-activity step of the conversion, under a given trip lookup.
pub open spec fn spec_entity_fn(lookup: spec_fn(Seq<char>) -> Option<TripView>) -> spec_fn(
    VehicleActivity,
) -> Option<FeedEntityView> {
    |a: VehicleActivity| spec_entity_for(a, lookup(spec_journey_ref(a)))
}

/// The entities a sequence of activities yields under a given trip lookup,
/// in feed order.
pub open spec fn spec_entities(
    acts: Seq<VehicleActivity>,
    lookup: spec_fn(Seq<char>) -> Option<TripView>,
) -> Seq<FeedEntityView> {
    acts.filter_map(spec_entity_fn(lookup))
}

/// The lookup of a schedule index.
pub open spec fn index_lookup(s: Seq<TripView>) -> spec_fn(Seq<char>) -> Option<TripView> {
    |id: Seq<char>| spec_lookup(s, id)
}

/// The lookup of a schedule loaded by `gtfs_structures`.
pub open spec fn gtfs_lookup(g: &Gtfs) -> spec_fn(Seq<char>) -> Option<TripView> {
    |id: Seq<char>| spec_gtfs_lookup(g, id)
}

/// The header of every converted feed: schema version `2.0`, always a full
/// dataset, stamped with the feed-level response timestamp (the epoch where
/// that timestamp did not parse).
pub open spec fn spec_feed_header(d: VehicleMonitoringDelivery) -> FeedHeaderView {
    FeedHeaderView {
        gtfs_realtime_version: "2.0"@,
        incrementality: Some(Incrementality::FullDataset),
        timestamp: Some(d.response_timestamp.spec_feed_seconds()),
    }
}

/// The whole conversion against a schedule index.
pub open spec fn spec_convert(d: VehicleMonitoringDelivery, s: Seq<TripView>) -> FeedMessageView {
    FeedMessageView {
        header: spec_feed_header(d),
        entity: spec_entities(d.vehicle_activities@, index_lookup(s)),
    }
}

/// The whole conversion against a loaded schedule.
pub open spec fn spec_convert_gtfs(d: VehicleMonitoringDelivery, g: &Gtfs) -> FeedMessageView {
    FeedMessageView {
        header: spec_feed_header(d),
        entity: spec_entities(d.vehicle_activities@, gtfs_lookup(g)),
    }
}

impl VehicleActivity {
    /// Builds the trip descriptor for a resolved trip; a trip with an
    /// unspecified direction yields none.
    pub fn get_trip_descriptor(&self, trip: &Trip) -> (r: Option<TripDescriptor>)
        ensures
            opt_view(r) == spec_trip_descriptor(trip@),
    {
        let direction_id: u32 = match trip.direction {
            Some(Direction::Outbound) => 0,
            Some(Direction::Inbound) => 1,
            None => {
                return None;
            },
        };
        Some(
            TripDescriptor {
                trip_id: Some(trip.id.clone()),
                route_id: Some(trip.route_id.clone()),
                direction_id: Some(direction_id),
            },
        )
    }

    /// Builds the vehicle descriptor: the vehicle reference as both id and
    /// label, and the trip's accessibility where it is known.
    pub fn get_vehicle_descriptor(&self, trip: &Trip) -> (r: Option<VehicleDescriptor>)
        ensures
            opt_view(r) == Some(spec_vehicle_descriptor(*self, trip@)),
    {
        let wheelchair_accessible = match trip.wheelchair_accessible {
            Accessibility::Available => Some(WheelchairAccessibility::Accessible),
            Accessibility::NotAvailable => Some(WheelchairAccessibility::Inaccessible),
            Accessibility::Unspecified => None,
        };
        Some(
            VehicleDescriptor {
                id: Some(self.monitored_vehicle_journey.vehicle_ref.clone()),
                label: Some(self.monitored_vehicle_journey.vehicle_ref.clone()),
                wheelchair_accessible,
            },
        )
    }

    /// Builds the position: coordinates and bearing copied verbatim;
    /// odometer and speed are never populated.
    pub fn get_position(&self) -> (r: Option<Position>)
        ensures
            r == Some(spec_position(*self)),
    {
        Some(
            Position {
                latitude_bits: self.monitored_vehicle_journey.vehicle_location.latitude_bits,
                longitude_bits: self.monitored_vehicle_journey.vehicle_location.longitude_bits,
                bearing_bits: Some(self.monitored_vehicle_journey.bearing_bits),
            },
        )
    }

    /// Builds the single synthesized carriage entry, with the same id and
    /// label as the vehicle descriptor and occupancy omitted.
    pub fn get_carriage_details(&self) -> (r: CarriageDetails)
        ensures
            r@ == spec_carriage_details(*self),
    {
        CarriageDetails {
            id: Some(self.monitored_vehicle_journey.vehicle_ref.clone()),
            label: Some(self.monitored_vehicle_journey.vehicle_ref.clone()),
            carriage_sequence: Some(1),
        }
    }

    /// Builds the vehicle position for this activity joined to its trip; its
    /// timestamp is the parsed GPS fix time, never the recording time.
    pub fn get_vehicle_position(&self, trip: &Trip) -> (r: VehiclePosition)
        ensures
            r@ == spec_vehicle_position(*self, trip@),
    {
        let r = VehiclePosition {
            trip: self.get_trip_descriptor(trip),
            vehicle: self.get_vehicle_descriptor(trip),
            position: self.get_position(),
            timestamp: Some(self.monitored_vehicle_journey.extensions.last_gps_fix.feed_seconds()),
            multi_carriage_details: vec![self.get_carriage_details()],
        };
        proof {
            assert(r@.multi_carriage_details =~= seq![spec_carriage_details(*self)]);
        }
        r
    }

    /// The entity this activity yields for a lookup result: one entity where
    /// the trip was found with a known direction, nothing otherwise.
    pub fn feed_entity_for(&self, found: Option<&Trip>) -> (r: Option<FeedEntity>)
        ensures
            opt_view(r) == spec_entity_for(*self, opt_view(found)),
    {
        let trip = match found {
            Some(t) => t,
            None => {
                return None;
            },
        };
        if trip.direction.is_none() {
            return None;
        }
        Some(
            FeedEntity {
                id: trip.id.clone(),
                is_deleted: Some(false),
                vehicle: Some(self.get_vehicle_position(trip)),
            },
        )
    }

    /// Resolves this activity against a loaded schedule and builds its
    /// entity, if the trip reference resolves to a trip with a known
    /// direction.
    pub fn get_feed_entity(&self, gtfs: &Gtfs) -> (r: Option<FeedEntity>)
        ensures
            opt_view(r) == spec_entity_for(*self, spec_gtfs_lookup(gtfs, spec_journey_ref(*self))),
    {
        let found = lookup_trip_in_gtfs(
            gtfs,
            self.monitored_vehicle_journey.framed_vehicle_journey_ref.dated_vehicle_journey_ref.as_str(),
        );
        self.feed_entity_for(found.as_ref())
    }
}

impl VehicleMonitoringDelivery {
    /// The feed-level production timestamp.
    pub fn get_response_timestamp(&self) -> (r: crate::timestamp::Timestamp)
        ensures
            r == self.response_timestamp,
    {
        self.response_timestamp
    }

    /// The feed-level expiry timestamp.
    pub fn get_valid_until(&self) -> (r: crate::timestamp::Timestamp)
        ensures
            r == self.valid_until,
    {
        self.valid_until
    }

    /// Builds the feed header for this snapshot.
    pub fn get_feed_header(&self) -> (r: FeedHeader)
        ensures
            r@ == spec_feed_header(*self),
    {
        FeedHeader {
            gtfs_realtime_version: String::from_str("2.0"),
            incrementality: Some(Incrementality::FullDataset),
            timestamp: Some(self.response_timestamp.feed_seconds()),
        }
    }

    /// Builds one entity per resolvable activity, in feed order, against a
    /// loaded schedule.
    pub fn get_feed_entities(&self, gtfs: &Gtfs) -> (r: Vec<FeedEntity>)
        ensures
            r@.map_values(|e: FeedEntity| e@) == spec_entities(
                self.vehicle_activities@,
                gtfs_lookup(gtfs),
            ),
    {
        let ghost f = spec_entity_fn(gtfs_lookup(gtfs));
        let n = self.vehicle_activities.len();
        let mut entities: Vec<FeedEntity> = Vec::new();
        proof {
            assert(self.vehicle_activities@.take(0).filter_map(f) =~= Seq::<
                FeedEntityView,
            >::empty());
            assert(entities@.map_values(|e: FeedEntity| e@) =~= Seq::<FeedEntityView>::empty());
        }
        for i in 0..n
            invariant
                n == self.vehicle_activities@.len(),
                f == spec_entity_fn(gtfs_lookup(gtfs)),
                entities@.map_values(|e: FeedEntity| e@) == self.vehicle_activities@.take(
                    i as int,
                ).filter_map(f),
        {
            let a = &self.vehicle_activities[i];
            match a.get_feed_entity(gtfs) {
                Some(e) => entities.push(e),
                None => (),
            }
            proof {
                self.vehicle_activities@.lemma_filter_map_take_succ(f, i as int);
                assert(f(self.vehicle_activities@[i as int]) == spec_entity_for(
                    *a,
                    spec_gtfs_lookup(gtfs, spec_journey_ref(*a)),
                ));
                assert(entities@.map_values(|e: FeedEntity| e@) =~= self.vehicle_activities@.take(
                    i + 1,
                ).filter_map(f));
            }
        }
        proof {
            assert(self.vehicle_activities@.take(n as int) == self.vehicle_activities@);
        }
        entities
    }

    /// Converts this snapshot against a loaded schedule into a complete
    /// feed message.
    pub fn get_feed_message(&self, gtfs: &Gtfs) -> (r: FeedMessage)
        ensures
            r@ == spec_convert_gtfs(*self, gtfs),
    {
        FeedMessage { header: self.get_feed_header(), entity: self.get_feed_entities(gtfs) }
    }
}

/// Converts one parsed snapshot against a schedule index into a complete
/// feed message: the header of [`spec_feed_header`] plus one entity per
/// activity whose trip reference resolves to a trip with a known direction,
/// in feed order.
pub fn convert(delivery: &VehicleMonitoringDelivery, schedule: &ScheduleIndex) -> (r: FeedMessage)
    ensures
        r@ == spec_convert(*delivery, schedule@),
{
    let ghost f = spec_entity_fn(index_lookup(schedule@));
    let n = delivery.vehicle_activities.len();
    let mut entities: Vec<FeedEntity> = Vec::new();
    proof {
        assert(delivery.vehicle_activities@.take(0).filter_map(f) =~= Seq::<
            FeedEntityView,
        >::empty());
        assert(entities@.map_values(|e: FeedEntity| e@) =~= Seq::<FeedEntityView>::empty());
    }
    for i in 0..n
        invariant
            n == delivery.vehicle_activities@.len(),
            f == spec_entity_fn(index_lookup(schedule@)),
            entities@.map_values(|e: FeedEntity| e@) == delivery.vehicle_activities@.take(
                i as int,
            ).filter_map(f),
    {
        let a = &delivery.vehicle_activities[i];
        let found = schedule.lookup_trip(
            a.monitored_vehicle_journey.framed_vehicle_journey_ref.dated_vehicle_journey_ref.as_str(),
        );
        match a.feed_entity_for(found) {
            Some(e) => entities.push(e),
            None => (),
        }
        proof {
            delivery.vehicle_activities@.lemma_filter_map_take_succ(f, i as int);
            assert(f(delivery.vehicle_activities@[i as int]) == spec_entity_for(
                *a,
                spec_lookup(schedule@, spec_journey_ref(*a)),
            ));
            assert(entities@.map_values(|e: FeedEntity| e@) =~= delivery.vehicle_activities@.take(
                i + 1,
            ).filter_map(f));
        }
    }
    proof {
        assert(delivery.vehicle_activities@.take(n as int) == delivery.vehicle_activities@);
    }
    FeedMessage { header: delivery.get_feed_header(), entity: entities }
}

/// The conversion yields at most one entity per activity, with equality
/// exactly when every activity's trip reference resolves to a trip with a
/// known direction.
pub proof fn lemma_entity_count(
    acts: Seq<VehicleActivity>,
    lookup: spec_fn(Seq<char>) -> Option<TripView>,
)
    ensures
        spec_entities(acts, lookup).len() <= acts.len(),
        (spec_entities(acts, lookup).len() == acts.len()) <==> (forall|i: int|
            0 <= i < acts.len() ==> spec_resolves(lookup(spec_journey_ref(#[trigger] acts[i])))),
    decreases acts.len(),
{
    let f = spec_entity_fn(lookup);
    if acts.len() == 0 {
    } else {
        let rest = acts.drop_last();
        lemma_entity_count(rest, lookup);
        assert(forall|i: int| 0 <= i < rest.len() ==> rest[i] == acts[i]);
        if spec_entities(acts, lookup).len() == acts.len() {
            assert(f(acts.last()) is Some);
            assert(spec_entities(rest, lookup).len() == rest.len());
        }
        if forall|i: int|
            0 <= i < acts.len() ==> spec_resolves(lookup(spec_journey_ref(#[trigger] acts[i]))) {
            assert(spec_resolves(lookup(spec_journey_ref(acts.last()))));
        }
    }
}

/// Entity order is stable: the output is exactly the source activity order
/// restricted to resolving activities, each mapped to its entity — no
/// reordering, no duplication.
pub proof fn lemma_entity_order(
    acts: Seq<VehicleActivity>,
    lookup: spec_fn(Seq<char>) -> Option<TripView>,
)
    ensures
        spec_entities(acts, lookup) == acts.filter(
            |a: VehicleActivity| spec_resolves(lookup(spec_journey_ref(a))),
        ).map_values(|a: VehicleActivity| spec_feed_entity(a, lookup(spec_journey_ref(a))->0)),
    decreases acts.len(),
{
    reveal(Seq::filter);
    let p = |a: VehicleActivity| spec_resolves(lookup(spec_journey_ref(a)));
    let g = |a: VehicleActivity| spec_feed_entity(a, lookup(spec_journey_ref(a))->0);
    if acts.len() == 0 {
        assert(spec_entities(acts, lookup) =~= acts.filter(p).map_values(g));
    } else {
        let rest = acts.drop_last();
        lemma_entity_order(rest, lookup);
        if p(acts.last()) {
            assert(acts.filter(p) == rest.filter(p).push(acts.last()));
            assert(acts.filter(p).map_values(g) =~= rest.filter(p).map_values(g).push(
                g(acts.last()),
            ));
            assert(spec_entities(acts, lookup) =~= rest.filter(p).map_values(g).push(
                g(acts.last()),
            ));
        } else {
            assert(acts.filter(p) == rest.filter(p));
        }
    }
}

/// An activity whose trip reference does not resolve contributes nothing:
/// removing it from the input leaves the output unchanged.
pub proof fn lemma_unresolved_activity_dropped(
    acts: Seq<VehicleActivity>,
    lookup: spec_fn(Seq<char>) -> Option<TripView>,
    i: int,
)
    requires
        0 <= i < acts.len(),
        !spec_resolves(lookup(spec_journey_ref(acts[i]))),
    ensures
        spec_entities(acts, lookup) == spec_entities(acts.remove(i), lookup),
    decreases acts.len(),
{
    let f = spec_entity_fn(lookup);
    if i == acts.len() - 1 {
        assert(acts.remove(i) =~= acts.drop_last());
    } else {
        let rest = acts.drop_last();
        lemma_unresolved_activity_dropped(rest, lookup, i);
        assert(acts.remove(i).drop_last() =~= rest.remove(i));
        assert(acts.remove(i).last() == acts.last());
    }
}

/// A built vehicle position is stamped with the parsed GPS fix time of the
/// activity's extensions, never with the recording time: whenever the two
/// differ, the output timestamp differs from the recording time.
pub proof fn lemma_position_timestamp_is_gps_fix(a: VehicleActivity, t: TripView)
    ensures
        spec_vehicle_position(a, t).timestamp == Some(
            a.monitored_vehicle_journey.extensions.last_gps_fix.spec_feed_seconds(),
        ),
        a.recorded_at_time.spec_feed_seconds()
            != a.monitored_vehicle_journey.extensions.last_gps_fix.spec_feed_seconds()
            ==> spec_vehicle_position(a, t).timestamp != Some(
            a.recorded_at_time.spec_feed_seconds(),
        ),
{
}

/// An empty activity list yields a message with a valid header and no
/// entities — never an error.
pub proof fn lemma_empty_delivery(d: VehicleMonitoringDelivery, s: Seq<TripView>)
    requires
        d.vehicle_activities@.len() == 0,
    ensures
        spec_convert(d, s).entity.len() == 0,
        spec_convert(d, s).header == spec_feed_header(d),
{
}

} // verus!
