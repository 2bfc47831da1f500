use vstd::pervasive::arbitrary;
use vstd::prelude::*;

use crate::common_format::Availability;
use crate::objects::{Network, StopArea, StopPoint};

pub mod write;

verus! {

/// The url an agency is given when its network has none.
pub open spec fn default_agency_url() -> Seq<char> {
    "http://www.navitia.io/"@
}

/// The timezone an agency is given when its network has none.
pub open spec fn default_agency_timezone() -> Seq<char> {
    "Europe/Paris"@
}

/// A row of the GTFS file `agency.txt`.
#[derive(Clone, Debug, PartialEq)]
pub struct Agency {
    pub id: Option<String>,
    pub name: String,
    pub url: String,
    pub timezone: String,
    pub lang: Option<String>,
    pub phone: Option<String>,
    pub email: Option<String>,
}

/// `a` is the agency row written for network `n`.
pub open spec fn is_agency_of(a: Agency, n: Network) -> bool {
    &&& a.id == Some(n.id)
    &&& a.name == n.name
    &&& match n.url {
        Some(u) => a.url == u,
        None => a.url@ == default_agency_url(),
    }
    &&& match n.timezone {
        Some(t) => a.timezone == t,
        None => a.timezone@ == default_agency_timezone(),
    }
    &&& a.lang == n.lang
    &&& a.phone == n.phone
    &&& a.email is None
}

/// An agency row carries its network's identifier, name, language and phone, and no email.
/// Its url is the network's, or `http://www.navitia.io/` when the network has none; its
/// timezone is the network's, or `Europe/Paris` when the network has none, whatever its url.
pub proof fn law_agency_of(a: Agency, n: Network)
    requires
        is_agency_of(a, n),
    ensures
        a.id == Some(n.id),
        a.name == n.name,
        n.url is Some ==> a.url == n.url.unwrap(),
        n.url is None ==> a.url@ == "http://www.navitia.io/"@,
        n.timezone is Some ==> a.timezone == n.timezone.unwrap(),
        n.timezone is None ==> a.timezone@ == "Europe/Paris"@,
        a.lang == n.lang,
        a.phone == n.phone,
        a.email is None,
{
}

/// Two agency rows written for networks with the same timezone have the same timezone text,
/// whatever their urls.
pub proof fn law_agency_timezone_alone(a1: Agency, n1: Network, a2: Agency, n2: Network)
    requires
        is_agency_of(a1, n1),
        is_agency_of(a2, n2),
        n1.timezone == n2.timezone,
    ensures
        a1.timezone@ == a2.timezone@,
{
}

/// A stop row for a stop point carries the point's identifier, name, coordinates, fare zone
/// and timezone, is a stop point whose parent station is the point's stop area, and has no
/// code, no description text, no wheelchair boarding and no url.
pub proof fn law_stop_of_point(st: Stop, p: StopPoint)
    requires
        is_stop_of_point(st, p),
    ensures
        st.id == p.id,
        st.name == p.name,
        st.lat == p.coord.lat,
        st.lon == p.coord.lon,
        st.fare_zone_id == p.fare_zone_id,
        st.location_type == StopLocationType::StopPoint,
        st.parent_station == Some(p.stop_area_id),
        st.timezone == p.timezone,
        st.code is None,
        st.desc@.len() == 0,
        st.wheelchair_boarding is None,
        st.url is None,
{
}

/// A stop row for a stop area carries the area's identifier, name, coordinates and timezone,
/// is a stop area with no parent station and no fare zone, and has no code, no description
/// text, no wheelchair boarding and no url.
pub proof fn law_stop_of_area(st: Stop, a: StopArea)
    requires
        is_stop_of_area(st, a),
    ensures
        st.id == a.id,
        st.name == a.name,
        st.lat == a.coord.lat,
        st.lon == a.coord.lon,
        st.fare_zone_id is None,
        st.location_type == StopLocationType::StopArea,
        st.parent_station is None,
        st.timezone == a.timezone,
        st.code is None,
        st.desc@.len() == 0,
        st.wheelchair_boarding is None,
        st.url is None,
{
}

/// A copy of an optional text.
pub fn clone_opt_string(s: &Option<String>) -> (r: Option<String>)
    ensures
        r == *s,
{
    match s {
        Some(x) => Some(x.clone()),
        None => None,
    }
}

impl<'a> From<&'a Network> for Agency {
    /// The agency row written for network `n`: its identifier, name, language and phone, and
    /// its url and timezone or, when it has none, the defaults.
    fn from(n: &'a Network) -> (r: Agency)
        ensures
            is_agency_of(r, *n),
            r.id == Some(n.id),
            r.name == n.name,
            n.url is Some ==> r.url == n.url.unwrap(),
            n.url is None ==> r.url@ == "http://www.navitia.io/"@,
            n.timezone is Some ==> r.timezone == n.timezone.unwrap(),
            n.timezone is None ==> r.timezone@ == "Europe/Paris"@,
            r.lang == n.lang,
            r.phone == n.phone,
            r.email is None,
    {
        let url = match &n.url {
            Some(u) => u.clone(),
            None => "http://www.navitia.io/".to_owned(),
        };
        let timezone = match &n.timezone {
            Some(t) => t.clone(),
            None => "Europe/Paris".to_owned(),
        };
        Agency {
            id: Some(n.id.clone()),
            name: n.name.clone(),
            url,
            timezone,
            lang: clone_opt_string(&n.lang),
            phone: clone_opt_string(&n.phone),
            email: None,
        }
    }
}

/// What a row of `stops.txt` stands for.
#[derive(Clone, Copy, Debug, PartialEq, Eq, Structural)]
pub enum StopLocationType {
    StopPoint,
    StopArea,
    StopEntrace,
}

impl StopLocationType {
    /// The number that stands for the location type in `stops.txt`.
    pub fn code(&self) -> (r: u8)
        ensures
            r == match *self {
                StopLocationType::StopPoint => 0u8,
                StopLocationType::StopArea => 1u8,
                StopLocationType::StopEntrace => 2u8,
            },
    {
        match self {
            StopLocationType::StopPoint => 0,
            StopLocationType::StopArea => 1,
            StopLocationType::StopEntrace => 2,
        }
    }
}

/// A row of the GTFS file `stops.txt`. The coordinates are bit patterns of 64-bit IEEE 754
/// numbers of degrees.
#[derive(Clone, Debug, PartialEq)]
pub struct Stop {
    pub id: String,
    pub name: String,
    pub lat: u64,
    pub lon: u64,
    pub fare_zone_id: Option<String>,
    pub location_type: StopLocationType,
    pub parent_station: Option<String>,
    pub code: Option<String>,
    pub desc: String,
    pub wheelchair_boarding: Option<String>,
    pub url: Option<String>,
    pub timezone: Option<String>,
}

/// The fields of a stop row that do not come from the object it is written for.
pub open spec fn has_blank_stop_fields(s: Stop) -> bool {
    &&& s.code is None
    &&& s.desc@ == Seq::<char>::empty()
    &&& s.wheelchair_boarding is None
    &&& s.url is None
}

/// `s` is the stop row written for stop point `p`.
pub open spec fn is_stop_of_point(s: Stop, p: StopPoint) -> bool {
    &&& s.id == p.id
    &&& s.name == p.name
    &&& s.lat == p.coord.lat
    &&& s.lon == p.coord.lon
    &&& s.fare_zone_id == p.fare_zone_id
    &&& s.location_type == StopLocationType::StopPoint
    &&& s.parent_station == Some(p.stop_area_id)
    &&& s.timezone == p.timezone
    &&& has_blank_stop_fields(s)
}

/// `s` is the stop row written for stop area `a`.
pub open spec fn is_stop_of_area(s: Stop, a: StopArea) -> bool {
    &&& s.id == a.id
    &&& s.name == a.name
    &&& s.lat == a.coord.lat
    &&& s.lon == a.coord.lon
    &&& s.fare_zone_id is None
    &&& s.location_type == StopLocationType::StopArea
    &&& s.parent_station is None
    &&& s.timezone == a.timezone
    &&& has_blank_stop_fields(s)
}

impl<'a> From<&'a StopPoint> for Stop {
    /// The stop row written for stop point `p`: a stop whose parent station is `p`'s stop area.
    fn from(p: &'a StopPoint) -> (r: Stop)
        ensures
            is_stop_of_point(r, *p),
            r.id == p.id,
            r.name == p.name,
            r.lat == p.coord.lat,
            r.lon == p.coord.lon,
            r.fare_zone_id == p.fare_zone_id,
            r.location_type == StopLocationType::StopPoint,
            r.parent_station == Some(p.stop_area_id),
            r.timezone == p.timezone,
            r.code is None,
            r.desc@.len() == 0,
            r.wheelchair_boarding is None,
            r.url is None,
    {
        Stop {
            id: p.id.clone(),
            name: p.name.clone(),
            lat: p.coord.lat,
            lon: p.coord.lon,
            fare_zone_id: clone_opt_string(&p.fare_zone_id),
            location_type: StopLocationType::StopPoint,
            parent_station: Some(p.stop_area_id.clone()),
            code: None,
            desc: String::new(),
            wheelchair_boarding: None,
            url: None,
            timezone: clone_opt_string(&p.timezone),
        }
    }

}

impl<'a> From<&'a StopArea> for Stop {
    /// The stop row written for stop area `a`: a station with no parent and no fare zone.
    fn from(a: &'a StopArea) -> (r: Stop)
        ensures
            is_stop_of_area(r, *a),
            r.id == a.id,
            r.name == a.name,
            r.lat == a.coord.lat,
            r.lon == a.coord.lon,
            r.fare_zone_id is None,
            r.location_type == StopLocationType::StopArea,
            r.parent_station is None,
            r.timezone == a.timezone,
            r.code is None,
            r.desc@.len() == 0,
            r.wheelchair_boarding is None,
            r.url is None,
    {
        Stop {
            id: a.id.clone(),
            name: a.name.clone(),
            lat: a.coord.lat,
            lon: a.coord.lon,
            fare_zone_id: None,
            location_type: StopLocationType::StopArea,
            parent_station: None,
            code: None,
            desc: String::new(),
            wheelchair_boarding: None,
            url: None,
            timezone: clone_opt_string(&a.timezone),
        }
    }
}

/// The direction of a trip, as GTFS writes it.
#[derive(Clone, Copy, Debug, PartialEq, Eq, Structural)]
pub enum DirectionType {
    Forward,
    Backward,
}

impl DirectionType {
    /// The number that stands for the direction in `trips.txt`.
    pub fn code(&self) -> (r: u8)
        ensures
            r == match *self {
                DirectionType::Forward => 0u8,
                DirectionType::Backward => 1u8,
            },
    {
        match self {
            DirectionType::Forward => 0,
            DirectionType::Backward => 1,
        }
    }
}

/// A row of the GTFS file `trips.txt`.
#[derive(Clone, Debug, PartialEq)]
pub struct Trip {
    pub route_id: String,
    pub service_id: String,
    pub id: String,
    pub headsign: Option<String>,
    pub short_name: Option<String>,
    pub direction: DirectionType,
    pub block_id: Option<String>,
    pub shape_id: Option<String>,
    pub wheelchair_accessible: Availability,
    pub bikes_allowed: Availability,
}

// The rows hold texts made by the conversions (such as a default url), which no spec function
// can name, so the conversions state a relation in their own `ensures` in place of `from_spec`.
impl<'a> vstd::std_specs::convert::FromSpecImpl<&'a Network> for Agency {
    open spec fn obeys_from_spec() -> bool {
        false
    }

    open spec fn from_spec(v: &'a Network) -> Agency {
        arbitrary()
    }
}

impl<'a> vstd::std_specs::convert::FromSpecImpl<&'a StopPoint> for Stop {
    open spec fn obeys_from_spec() -> bool {
        false
    }

    open spec fn from_spec(v: &'a StopPoint) -> Stop {
        arbitrary()
    }
}

impl<'a> vstd::std_specs::convert::FromSpecImpl<&'a StopArea> for Stop {
    open spec fn obeys_from_spec() -> bool {
        false
    }

    open spec fn from_spec(v: &'a StopArea) -> Stop {
        arbitrary()
    }
}

} // verus!
