use std::collections::BTreeSet;

use vstd::prelude::*;
use vstd::string::StringExecFns;

use crate::collection::{Id, Idx};
use crate::common_format::Availability;

verus! {

/// Codes and properties attached to an object: pairs of a key and a value.
pub type KeysValues = BTreeSet<(String, String)>;

/// The identifiers of the comments attached to an object.
pub type CommentLinksT = BTreeSet<String>;

/// The earliest year a calendar date can carry.
pub const MIN_YEAR: i32 = -262143;

/// The latest year a calendar date can carry.
pub const MAX_YEAR: i32 = 262142;

/// Leap years of the proleptic Gregorian calendar.
pub open spec fn is_leap_year(y: int) -> bool {
    (y % 4 == 0 && y % 100 != 0) || y % 400 == 0
}

/// The number of days of month `m` of year `y`.
pub open spec fn days_in_month(y: int, m: int) -> int {
    if m == 2 {
        if is_leap_year(y) {
            29
        } else {
            28
        }
    } else if m == 4 || m == 6 || m == 9 || m == 11 {
        30
    } else {
        31
    }
}

/// Year `y`, month `m`, day `d` name a day of the calendar that dates can hold.
pub open spec fn is_valid_ymd(y: int, m: int, d: int) -> bool {
    &&& MIN_YEAR <= y <= MAX_YEAR
    &&& 1 <= m <= 12
    &&& 1 <= d <= days_in_month(y, m)
}

/// A day of the proleptic Gregorian calendar.
#[derive(Clone, Copy, Debug, PartialEq, Eq, Structural)]
pub struct Date {
    pub year: i32,
    pub month: u32,
    pub day: u32,
}

impl Date {
    /// The date names an existing day.
    pub open spec fn is_valid(&self) -> bool {
        is_valid_ymd(self.year as int, self.month as int, self.day as int)
    }

    /// Whether the date names an existing day.
    pub fn is_valid_date(&self) -> (r: bool)
        ensures
            r == self.is_valid(),
    {
        if self.year < MIN_YEAR || self.year > MAX_YEAR || self.month < 1 || self.month > 12
            || self.day < 1 {
            return false;
        }
        // A multiple of 400 years later, the calendar repeats and the year is positive.
        let y: u32 = (self.year + 400000) as u32;
        let leap = (y % 4 == 0 && y % 100 != 0) || y % 400 == 0;
        assert(leap == is_leap_year(self.year as int));
        let days: u32 = if self.month == 2 {
            if leap {
                29
            } else {
                28
            }
        } else if self.month == 4 || self.month == 6 || self.month == 9 || self.month == 11 {
            30
        } else {
            31
        };
        self.day <= days
    }

    /// The year, month and day, as numbers.
    pub open spec fn fields(&self) -> (int, int, int) {
        (self.year as int, self.month as int, self.day as int)
    }
}

/// A time of day, as a number of seconds since midnight.
#[derive(Clone, Copy, Debug, PartialEq, Eq, Structural)]
pub struct Time(u32);

impl View for Time {
    type V = nat;

    closed spec fn view(&self) -> nat {
        self.0 as nat
    }
}

impl Time {
    /// The time `h` hours, `m` minutes and `s` seconds after midnight.
    pub fn new(h: u32, m: u32, s: u32) -> (r: Time)
        requires
            h * 3600 + m * 60 + s <= u32::MAX,
        ensures
            r@ == h * 3600 + m * 60 + s,
    {
        Time(h * 60 * 60 + m * 60 + s)
    }

    /// The number of seconds since midnight.
    pub fn total_seconds(&self) -> (r: u32)
        ensures
            r == self@,
    {
        self.0
    }
}

/// A position on Earth. Each coordinate is held as the bit pattern of the 64-bit IEEE 754
/// number of degrees, so that it passes through unchanged.
#[derive(Clone, Copy, Debug, PartialEq, Eq, Structural)]
pub struct Coord {
    pub lon: u64,
    pub lat: u64,
}

/// Who may ride a vehicle journey.
#[derive(Clone, Copy, Debug, PartialEq, Eq, Structural)]
pub enum TransportType {
    Regular,
    ExclusiveSchool,
    RegularAndSchool,
}

/// An object whose identifiers can be made distinct from those of another data set by a
/// prefix. Whatever else it changes, adding a prefix puts the prefix in front of the object's
/// identifier.
pub trait AddPrefix: Id + Sized {
    /// `self` is `old` with `prefix` added.
    spec fn is_prefixed(&self, old: Self, prefix: Seq<char>) -> bool;

    /// Adds `prefix`; the identifier becomes `prefix` followed by the old identifier.
    fn add_prefix(&mut self, prefix: &str)
        ensures
            final(self).is_prefixed(*old(self), prefix@),
            final(self).spec_id() == prefix@ + old(self).spec_id(),
    ;
}

/// `prefix` followed by `s`, as a new string.
pub fn prefixed(prefix: &str, s: &String) -> (r: String)
    ensures
        r@ == prefix@ + s@,
{
    let mut r: String = prefix.to_owned();
    r.append(s.as_str());
    r
}

/// A network of transit lines, run under one brand.
#[derive(Clone, Debug, PartialEq)]
pub struct Network {
    pub id: String,
    pub name: String,
    pub url: Option<String>,
    pub timezone: Option<String>,
    pub lang: Option<String>,
    pub phone: Option<String>,
    pub address: Option<String>,
    pub sort_order: Option<u32>,
    pub codes: KeysValues,
}

impl Id for Network {
    open spec fn spec_id(&self) -> Seq<char> {
        self.id@
    }

    fn id(&self) -> (r: &str) {
        self.id.as_str()
    }
}

impl AddPrefix for Network {
    open spec fn is_prefixed(&self, old: Self, prefix: Seq<char>) -> bool {
        &&& self.id@ == prefix + old.id@
        &&& *self == (Network { id: self.id, ..old })
    }

    fn add_prefix(&mut self, prefix: &str) {
        self.id = prefixed(prefix, &self.id);
    }
}

/// A group of stop points that travellers see as one place.
#[derive(Clone, Debug, PartialEq)]
pub struct StopArea {
    pub id: String,
    pub name: String,
    pub codes: KeysValues,
    pub object_properties: KeysValues,
    pub comment_links: CommentLinksT,
    pub visible: bool,
    pub coord: Coord,
    pub timezone: Option<String>,
    pub geometry_id: Option<String>,
    pub equipment_id: Option<String>,
}

impl Id for StopArea {
    open spec fn spec_id(&self) -> Seq<char> {
        self.id@
    }

    fn id(&self) -> (r: &str) {
        self.id.as_str()
    }
}

impl AddPrefix for StopArea {
    open spec fn is_prefixed(&self, old: Self, prefix: Seq<char>) -> bool {
        &&& self.id@ == prefix + old.id@
        &&& *self == (StopArea { id: self.id, ..old })
    }

    fn add_prefix(&mut self, prefix: &str) {
        self.id = prefixed(prefix, &self.id);
    }
}

/// A place where vehicles stop, inside a stop area.
#[derive(Clone, Debug, PartialEq)]
pub struct StopPoint {
    pub id: String,
    pub name: String,
    pub codes: KeysValues,
    pub object_properties: KeysValues,
    pub comment_links: CommentLinksT,
    pub visible: bool,
    pub coord: Coord,
    pub stop_area_id: String,
    pub timezone: Option<String>,
    pub geometry_id: Option<String>,
    pub equipment_id: Option<String>,
    pub fare_zone_id: Option<String>,
}

impl Id for StopPoint {
    open spec fn spec_id(&self) -> Seq<char> {
        self.id@
    }

    fn id(&self) -> (r: &str) {
        self.id.as_str()
    }
}

impl AddPrefix for StopPoint {
    open spec fn is_prefixed(&self, old: Self, prefix: Seq<char>) -> bool {
        &&& self.id@ == prefix + old.id@
        &&& self.stop_area_id@ == prefix + old.stop_area_id@
        &&& *self == (StopPoint { id: self.id, stop_area_id: self.stop_area_id, ..old })
    }

    fn add_prefix(&mut self, prefix: &str) {
        self.id = prefixed(prefix, &self.id);
        self.stop_area_id = prefixed(prefix, &self.stop_area_id);
    }
}

/// One direction of a line.
#[derive(Clone, Debug, PartialEq)]
pub struct Route {
    pub id: String,
    pub name: String,
    pub direction_type: Option<String>,
    pub codes: KeysValues,
    pub object_properties: KeysValues,
    pub comment_links: CommentLinksT,
    pub line_id: String,
    pub geometry_id: Option<String>,
    pub destination_id: Option<String>,
}

impl Id for Route {
    open spec fn spec_id(&self) -> Seq<char> {
        self.id@
    }

    fn id(&self) -> (r: &str) {
        self.id.as_str()
    }
}

/// The services offered on board the vehicle journeys that refer to it.
#[derive(Clone, Debug, PartialEq)]
pub struct TripProperty {
    pub id: String,
    pub wheelchair_accessible: Availability,
    pub bike_accepted: Availability,
    pub air_conditioned: Availability,
    pub visual_announcement: Availability,
    pub audible_announcement: Availability,
    pub appropriate_escort: Availability,
    pub appropriate_signage: Availability,
    pub school_vehicle_type: TransportType,
}

impl Id for TripProperty {
    open spec fn spec_id(&self) -> Seq<char> {
        self.id@
    }

    fn id(&self) -> (r: &str) {
        self.id.as_str()
    }
}

/// A call of a vehicle journey at a stop point.
#[derive(Clone, Debug, PartialEq)]
pub struct StopTime {
    pub stop_point_idx: Idx,
    pub sequence: u32,
    pub arrival_time: Time,
    pub departure_time: Time,
    pub boarding_duration: u16,
    pub alighting_duration: u16,
    pub pickup_type: u8,
    pub drop_off_type: u8,
    pub datetime_estimated: bool,
    pub local_zone_id: Option<u16>,
}

/// One run of a vehicle along a route.
#[derive(Clone, Debug, PartialEq)]
pub struct VehicleJourney {
    pub id: String,
    pub codes: KeysValues,
    pub object_properties: KeysValues,
    pub comment_links: CommentLinksT,
    pub route_id: String,
    pub physical_mode_id: String,
    pub dataset_id: String,
    pub service_id: String,
    pub headsign: Option<String>,
    pub block_id: Option<String>,
    pub company_id: String,
    pub trip_property_id: Option<String>,
    pub geometry_id: Option<String>,
    pub stop_times: Vec<StopTime>,
}

impl Id for VehicleJourney {
    open spec fn spec_id(&self) -> Seq<char> {
        self.id@
    }

    fn id(&self) -> (r: &str) {
        self.id.as_str()
    }
}

} // verus!
