//! The static schedule as the mapper sees it: a read-only lookup from a trip
//! identifier to the trip's route, direction and accessibility.

use vstd::prelude::*;

verus! {

/// The direction of travel of a scheduled trip.
#[derive(Clone, Copy, Debug, PartialEq, Eq)]
pub enum Direction {
    Outbound,
    Inbound,
}

/// Whether a scheduled trip is wheelchair accessible.
#[derive(Clone, Copy, Debug, PartialEq, Eq)]
pub enum Accessibility {
    Available,
    NotAvailable,
    Unspecified,
}

/// One scheduled trip, as far as the mapper reads it.
#[derive(Clone, Debug, PartialEq, Eq)]
pub struct Trip {
    /// The trip identifier that vehicle activities are joined against.
    pub id: String,
    /// The route the trip runs on.
    pub route_id: String,
    /// The direction of travel; `None` where the schedule leaves it open.
    pub direction: Option<Direction>,
    /// Wheelchair accessibility of the trip's vehicle.
    pub wheelchair_accessible: Accessibility,
}

/// The mathematical value of a [`Trip`].
pub ghost struct TripView {
    pub id: Seq<char>,
    pub route_id: Seq<char>,
    pub direction: Option<Direction>,
    pub wheelchair_accessible: Accessibility,
}

impl View for Trip {
    type V = TripView;

    open spec fn view(&self) -> TripView {
        TripView {
            id: self.id@,
            route_id: self.route_id@,
            direction: self.direction,
            wheelchair_accessible: self.wheelchair_accessible,
        }
    }
}

/// The trip that a sequence of schedule entries yields for `id`: the first
/// entry whose identifier equals `id`, if any.
pub open spec fn spec_lookup(trips: Seq<TripView>, id: Seq<char>) -> Option<TripView>
    decreases trips.len(),
{
    if trips.len() == 0 {
        None
    } else if trips.first().id == id {
        Some(trips.first())
    } else {
        spec_lookup(trips.drop_first(), id)
    }
}

/// A static schedule index: trips keyed by their identifier.
///
/// Identifiers are expected to be unique; where an identifier repeats, the
/// entry added first wins.
#[derive(Clone, Debug)]
pub struct ScheduleIndex {
    trips: Vec<Trip>,
}

impl View for ScheduleIndex {
    type V = Seq<TripView>;

    closed spec fn view(&self) -> Seq<TripView> {
        self.trips@.map_values(|t: Trip| t@)
    }
}

/// Whether two strings hold the same characters.
fn str_eq(a: &str, b: &str) -> (r: bool)
    ensures
        r == (a@ == b@),
{
    let n = a.unicode_len();
    if n != b.unicode_len() {
        return false;
    }
    let mut i: usize = 0;
    while i < n
        invariant
            n == a@.len(),
            n == b@.len(),
            0 <= i <= n,
            forall|j: int| 0 <= j < i ==> a@[j] == b@[j],
        decreases n - i,
    {
        if a.get_char(i) != b.get_char(i) {
            return false;
        }
        i = i + 1;
    }
    proof {
        assert(a@ =~= b@);
    }
    true
}

impl ScheduleIndex {
    /// An index with no trips.
    pub fn new() -> (s: ScheduleIndex)
        ensures
            s@ == Seq::<TripView>::empty(),
    {
        ScheduleIndex { trips: Vec::new() }
    }

    /// Adds one trip to the index.
    pub fn add_trip(&mut self, trip: Trip)
        ensures
            final(self)@ == old(self)@.push(trip@),
    {
        self.trips.push(trip);
        proof {
            assert(final(self)@ =~= old(self)@.push(trip@));
        }
    }

    /// Looks a trip identifier up, returning the first trip with that
    /// identifier or `None` where the index holds no such trip.
    pub fn lookup_trip(&self, id: &str) -> (r: Option<&Trip>)
        ensures
            match r {
                Some(t) => spec_lookup(self@, id@) == Some(t@),
                None => spec_lookup(self@, id@) is None,
            },
    {
        let n = self.trips.len();
        let mut i: usize = 0;
        proof {
            assert(self@.skip(0) =~= self@);
        }
        while i < n
            invariant
                n == self.trips.len(),
                0 <= i <= n,
                spec_lookup(self@, id@) == spec_lookup(self@.skip(i as int), id@),
            decreases n - i,
        {
            if str_eq(self.trips[i].id.as_str(), id) {
                proof {
                    assert(self@.skip(i as int).first() == self@[i as int]);
                }
                return Some(&self.trips[i]);
            }
            proof {
                assert(self@.skip(i as int).drop_first() =~= self@.skip(i + 1));
                assert(self@.skip(i as int).first() == self@[i as int]);
            }
            i = i + 1;
        }
        proof {
            assert(self@.skip(n as int) =~= Seq::<TripView>::empty());
        }
        None
    }
}

} // verus!
