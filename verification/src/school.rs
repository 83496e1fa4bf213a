use vstd::prelude::*;
use crate::uid::Uid;
use bells::BellTime;
use link::Link;
use notice::Notice;

/// Bell-related data.
pub mod bells;
/// Link-related data.
pub mod link;
/// Notice-related data.
pub mod notice;

verus! {

/// A day of the week, containing bell times for each period.
pub type Day = Vec<BellTime>;

/// An angle in degrees, held as the bit pattern of an IEEE 754
/// double-precision value. The schedule logic never interprets it; it is
/// carried through load and save.
#[derive(Clone, Copy, Debug, PartialEq, Eq, Hash, Structural, Default)]
pub struct Degrees {
    /// Bit pattern of the angle.
    pub bits: u64,
}

/// A week variant of a timetable.
///
/// A school rotates through its week variants by calendar week; each variant
/// holds one bell list per weekday, Monday through Friday.
#[derive(Debug, Clone, PartialEq, Eq, Hash)]
pub struct Week {
    /// Unique identifier of the week variant.
    pub id: Uid,
    /// Name of the week variant.
    pub name: String,
    /// Days of the week, Monday through Friday.
    pub days: Vec<Day>,
    /// Whether the week variant is included in the automatic cycle.
    pub cyclical: bool,
}

/// The week variant reached from `current` after advancing through `p`
/// positions of a day stream that lays the variants' days end to end,
/// cycling through all `variants` variants.
pub open spec fn spec_stream_variant(current: int, p: int, variants: int) -> int
    recommends
        variants >= 1,
{
    (current + p / 5) % variants
}

/// The weekday index at position `p` of the day stream.
pub open spec fn spec_stream_day(p: int) -> int {
    p % 5
}

/// School data, including notices, links, and bell times.
#[derive(Debug, Clone, PartialEq)]
pub struct School {
    /// Name of the school.
    pub name: String,
    /// Notices associated with the school.
    pub notices: Vec<Notice>,
    /// Links associated with the school.
    pub links: Vec<Link>,
    /// Whether the user created the school.
    pub user_created: bool,
    /// Bell times for each week variant, in rotation order.
    pub bell_times: Vec<Week>,
    /// Latitude of the school in degrees.
    pub latitude: Degrees,
    /// Longitude of the school in degrees.
    pub longitude: Degrees,
    /// Location of the school, normally a suburb and state.
    pub location: String,
    /// Tags associated with the school; nicknames, abbreviations, etc.
    pub tags: Vec<String>,
    /// Version of the school data.
    pub version: String,
}

impl School {
    /// Every week variant has exactly one day list per weekday, Monday
    /// through Friday.
    pub open spec fn spec_five_day_weeks(self) -> bool {
        forall|k: int| 0 <= k < self.bell_times@.len() ==> self.bell_times@[k].days@.len() == 5
    }

    /// Whether the day at position `p` of the day stream starting at variant
    /// `current` has no bells.
    pub open spec fn spec_stream_day_empty(self, current: int, p: int) -> bool {
        self.bell_times@[spec_stream_variant(current, p, self.bell_times@.len() as int)].days@[
            spec_stream_day(p)]@.len() == 0
    }

    /// Find the next day with at least one bell, walking the cyclically
    /// repeated week variants day by day from variant `current`, starting
    /// `start` days into it. Returns the variant and weekday indices of the
    /// first non-empty day, or [`None`] when every weekday of every variant
    /// is empty.
    #[verifier::loop_isolation(false)]
    pub fn next_day_with_bells(&self, current: usize, start: usize) -> (r: Option<(usize, usize)>)
        requires
            self.bell_times@.len() >= 1,
            current < self.bell_times@.len(),
            start <= 6,
            self.spec_five_day_weeks(),
        ensures
            ({
                let window = 5 * self.bell_times@.len() as int;
                &&& (r is Some <==> exists|p: int|
                    start <= p < start + window && !self.spec_stream_day_empty(current as int, p))
                &&& (r matches Some(found) ==> exists|p: int|
                    start <= p < start + window && !self.spec_stream_day_empty(current as int, p)
                        && found.0 == spec_stream_variant(current as int, p,
                        self.bell_times@.len() as int) && found.1 == spec_stream_day(p) && (forall|
                        q: int,
                    |
                        start <= q < p ==> self.spec_stream_day_empty(current as int, q)))
                &&& (r matches Some(found) ==> found.0 < self.bell_times@.len() && found.1 < 5
                    && self.bell_times@[found.0 as int].days@[found.1 as int]@.len() > 0)
            }),
    {
        let variants = self.bell_times.len();
        let bound: u128 = 5u128 * (variants as u128);
        let mut j: u128 = 0;
        while j < bound
            invariant
                j <= bound,
                forall|q: int|
                    start <= q < start + j ==> self.spec_stream_day_empty(current as int, q),
            decreases bound - j,
        {
            let p: u128 = start as u128 + j;
            let v_wide: u128 = ((current as u128) + p / 5) % (variants as u128);
            let v: usize = v_wide as usize;
            let d: usize = (p % 5) as usize;
            proof {
                vstd::arithmetic::div_mod::lemma_mod_bound((current as u128 + p / 5) as int,
                    variants as int);
                vstd::arithmetic::div_mod::lemma_mod_bound(p as int, 5);
                assert(v as int == spec_stream_variant(current as int, p as int, variants as int));
                assert(d as int == spec_stream_day(p as int));
            }
            if self.bell_times[v].days[d].len() > 0 {
                proof {
                    assert(!self.spec_stream_day_empty(current as int, p as int));
                }
                return Some((v, d));
            }
            j = j + 1;
        }
        None
    }
}

} // verus!
