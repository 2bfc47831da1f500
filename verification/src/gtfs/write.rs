use vstd::prelude::*;

use crate::collection::{
    find_by_id, ids_distinct, is_first_with_id, lemma_find_by_id_distinct, position_of_id,
    same_text, CollectionWithId, Id,
};
use crate::common_format::Availability;
use crate::gtfs::{
    clone_opt_string, is_agency_of, is_stop_of_area, is_stop_of_point, Agency, DirectionType,
    Stop, Trip,
};
use crate::objects::{Network, Route, StopArea, StopPoint, StopTime, TripProperty, VehicleJourney};

verus! {

/// The physical modes whose trips are given a short name: the trains and the metro.
pub open spec fn is_train_mode(mode: Seq<char>) -> bool {
    ||| mode == "LocalTrain"@
    ||| mode == "LongDistanceTrain"@
    ||| mode == "Metro"@
    ||| mode == "RapidTransit"@
    ||| mode == "Train"@
}

/// Position `i` holds the last call of `sts`: the greatest sequence number, and the last one
/// among calls that share it.
pub open spec fn is_last_call(sts: Seq<StopTime>, i: int) -> bool {
    &&& 0 <= i < sts.len()
    &&& forall|j: int| 0 <= j < sts.len() ==> #[trigger] sts[j].sequence <= sts[i].sequence
    &&& forall|j: int| i < j < sts.len() ==> #[trigger] sts[j].sequence < sts[i].sequence
}

/// The position of the last call of `sts` (meaningful when `sts` is not empty).
pub open spec fn last_call(sts: Seq<StopTime>) -> int {
    choose|i: int| is_last_call(sts, i)
}

/// A sequence of calls that is not empty has exactly one last call.
pub proof fn lemma_last_call(sts: Seq<StopTime>)
    requires
        sts.len() > 0,
    ensures
        is_last_call(sts, last_call(sts)),
        forall|i: int| #[trigger] is_last_call(sts, i) ==> i == last_call(sts),
{
    let w = last_call_witness(sts);
    assert forall|i: int| #[trigger] is_last_call(sts, i) implies i == w by {
        lemma_last_call_unique(sts, i, w);
    }
    lemma_last_call_unique(sts, last_call(sts), w);
}

proof fn lemma_last_call_unique(sts: Seq<StopTime>, i: int, k: int)
    requires
        is_last_call(sts, i),
        is_last_call(sts, k),
    ensures
        i == k,
{
    if i < k {
        assert(sts[k].sequence < sts[i].sequence);
        assert(sts[k].sequence >= sts[i].sequence);
    } else if k < i {
        assert(sts[i].sequence < sts[k].sequence);
        assert(sts[i].sequence >= sts[k].sequence);
    }
}

proof fn last_call_witness(sts: Seq<StopTime>) -> (w: int)
    requires
        sts.len() > 0,
    ensures
        is_last_call(sts, w),
    decreases sts.len(),
{
    if sts.len() == 1 {
        0
    } else {
        let init = sts.drop_last();
        let k = last_call_witness(init);
        let n = sts.len() - 1;
        assert(init[k] == sts[k]);
        if sts[n].sequence >= sts[k].sequence {
            assert forall|j: int| 0 <= j < sts.len() implies #[trigger] sts[j].sequence
                <= sts[n].sequence by {
                if j < n {
                    assert(init[j] == sts[j]);
                }
            }
            n
        } else {
            assert forall|j: int| 0 <= j < sts.len() implies #[trigger] sts[j].sequence
                <= sts[k].sequence by {
                if j < n {
                    assert(init[j] == sts[j]);
                }
            }
            assert forall|j: int| k < j < sts.len() implies #[trigger] sts[j].sequence
                < sts[k].sequence by {
                if j < n {
                    assert(init[j] == sts[j]);
                }
            }
            k
        }
    }
}

/// The stop point of the last call of `vj` is one of `sps`.
pub open spec fn last_stop_is_known(vj: VehicleJourney, sps: Seq<StopPoint>) -> bool {
    vj.stop_times@.len() > 0 ==> vj.stop_times@[last_call(vj.stop_times@)].stop_point_idx@
        < sps.len()
}

/// The name of the stop point of the last call of `vj`, if it has calls.
pub open spec fn last_stop_name(vj: VehicleJourney, sps: Seq<StopPoint>) -> Option<String> {
    if vj.stop_times@.len() == 0 {
        None
    } else {
        Some(sps[vj.stop_times@[last_call(vj.stop_times@)].stop_point_idx@ as int].name)
    }
}

/// The short name and the headsign of the trip written for `vj`. A train keeps its headsign
/// and is named after its last stop; any other journey has no short name, and its headsign,
/// or else the name of its last stop, is the trip's headsign.
pub open spec fn gtfs_short_name_and_headsign(vj: VehicleJourney, sps: Seq<StopPoint>) -> (
    Option<String>,
    Option<String>,
) {
    if is_train_mode(vj.physical_mode_id@) {
        (vj.headsign, last_stop_name(vj, sps))
    } else {
        (
            None,
            match vj.headsign {
                Some(h) => Some(h),
                None => last_stop_name(vj, sps),
            },
        )
    }
}

/// The name of the last stop of `vj` is looked up when its trip is written.
pub open spec fn needs_last_stop(vj: VehicleJourney) -> bool {
    is_train_mode(vj.physical_mode_id@) || vj.headsign is None
}

/// The position of the last call of `sts`, if it has calls: the greatest sequence number, the
/// last one among calls that share it.
pub fn last_call_index(sts: &Vec<StopTime>) -> (r: Option<usize>)
    ensures
        r is None <==> sts@.len() == 0,
        r matches Some(i) ==> i as int == last_call(sts@) && is_last_call(sts@, i as int),
{
    let n = sts.len();
    if n == 0 {
        return None;
    }
    let mut best: usize = 0;
    let mut j: usize = 1;
    while j < n
        invariant
            n == sts@.len(),
            1 <= j <= n,
            is_last_call(sts@.take(j as int), best as int),
        decreases n - j,
    {
        let ghost t = sts@.take(j as int);
        let ghost t1 = sts@.take(j as int + 1);
        assert(forall|x: int| 0 <= x < j ==> t[x] == sts@[x] && t1[x] == sts@[x]);
        if sts[j].sequence >= sts[best].sequence {
            assert forall|x: int| 0 <= x < t1.len() implies #[trigger] t1[x].sequence
                <= t1[j as int].sequence by {
                if x < j {
                    assert(t[x].sequence <= t[best as int].sequence);
                }
            }
            best = j;
        } else {
            assert forall|x: int| 0 <= x < t1.len() implies #[trigger] t1[x].sequence
                <= t1[best as int].sequence by {
                if x < j {
                    assert(t[x].sequence <= t[best as int].sequence);
                }
            }
            assert forall|x: int| best < x < t1.len() implies #[trigger] t1[x].sequence
                < t1[best as int].sequence by {
                if x < j {
                    assert(t[x].sequence < t[best as int].sequence);
                }
            }
        }
        j = j + 1;
    }
    proof {
        assert(sts@.take(n as int) == sts@);
        lemma_last_call(sts@);
    }
    Some(best)
}

/// The name of the last stop of `vj`.
pub fn get_last_stop_name(vj: &VehicleJourney, sps: &CollectionWithId<StopPoint>) -> (r: Option<
    String,
>)
    requires
        last_stop_is_known(*vj, sps@),
    ensures
        r == last_stop_name(*vj, sps@),
{
    match last_call_index(&vj.stop_times) {
        Some(i) => Some(sps.at(vj.stop_times[i].stop_point_idx).name.clone()),
        None => None,
    }
}

/// Whether a trip can be written for `vj`: its route is known and so is its last stop when
/// the name of that stop is needed.
pub fn trip_can_be_made(
    vj: &VehicleJourney,
    sps: &CollectionWithId<StopPoint>,
    routes: &CollectionWithId<Route>,
) -> (r: bool)
    ensures
        r == can_make_trip(*vj, sps@, routes@),
{
    if routes.get(vj.route_id.as_str()).is_none() {
        return false;
    }
    let mode = vj.physical_mode_id.as_str();
    let needs = is_train(mode) || vj.headsign.is_none();
    if !needs {
        return true;
    }
    match last_call_index(&vj.stop_times) {
        Some(i) => vj.stop_times[i].stop_point_idx.get() < sps.len(),
        None => true,
    }
}

/// Whether `mode` is one of the physical modes whose trips are given a short name.
fn is_train(mode: &str) -> (r: bool)
    ensures
        r == is_train_mode(mode@),
        r <==> (mode@ == "LocalTrain"@ || mode@ == "LongDistanceTrain"@ || mode@ == "Metro"@
            || mode@ == "RapidTransit"@ || mode@ == "Train"@),
{
    same_text(mode, "LocalTrain") || same_text(mode, "LongDistanceTrain") || same_text(
        mode,
        "Metro",
    ) || same_text(mode, "RapidTransit") || same_text(mode, "Train")
}

/// The short name and the headsign of the GTFS trip written for vehicle journey `vj`.
pub fn get_gtfs_trip_shortname_and_headsign_from_ntfs_vj(
    vj: &VehicleJourney,
    sps: &CollectionWithId<StopPoint>,
) -> (r: (Option<String>, Option<String>))
    requires
        needs_last_stop(*vj) ==> last_stop_is_known(*vj, sps@),
    ensures
        r == gtfs_short_name_and_headsign(*vj, sps@),
        !(vj.physical_mode_id@ == "LocalTrain"@ || vj.physical_mode_id@ == "LongDistanceTrain"@
            || vj.physical_mode_id@ == "Metro"@ || vj.physical_mode_id@ == "RapidTransit"@
            || vj.physical_mode_id@ == "Train"@) ==> r.0 is None && (vj.headsign is Some ==> r.1
            == vj.headsign),
        (vj.physical_mode_id@ == "LocalTrain"@ || vj.physical_mode_id@ == "LongDistanceTrain"@
            || vj.physical_mode_id@ == "Metro"@ || vj.physical_mode_id@ == "RapidTransit"@
            || vj.physical_mode_id@ == "Train"@) ==> r.0 == vj.headsign,
{
    proof {
        law_short_name_and_headsign(*vj, sps@);
    }
    if is_train(vj.physical_mode_id.as_str()) {
        (clone_opt_string(&vj.headsign), get_last_stop_name(vj, sps))
    } else {
        let headsign = match &vj.headsign {
            Some(h) => Some(h.clone()),
            None => get_last_stop_name(vj, sps),
        };
        (None, headsign)
    }
}

/// The route direction types whose trips run backward.
pub open spec fn is_backward_direction(direction_type: Seq<char>) -> bool {
    ||| direction_type == "foward"@
    ||| direction_type == "clockwise"@
    ||| direction_type == "inbound"@
}

/// The direction of the trips of `route`.
pub open spec fn gtfs_direction(route: Route) -> DirectionType {
    if route.direction_type matches Some(d) && is_backward_direction(d@) {
        DirectionType::Backward
    } else {
        DirectionType::Forward
    }
}

/// The route of `vj` is one of `routes`.
pub open spec fn route_is_known(vj: VehicleJourney, routes: Seq<Route>) -> bool {
    find_by_id(routes, vj.route_id@) is Some
}

/// The direction of the GTFS trip written for vehicle journey `vj`: that of its route.
pub fn get_gtfs_direction_id_from_ntfs_vj(
    vj: &VehicleJourney,
    routes: &CollectionWithId<Route>,
) -> (r: DirectionType)
    requires
        route_is_known(*vj, routes@),
    ensures
        r == gtfs_direction(find_by_id(routes@, vj.route_id@).unwrap()),
        forall|i: int|
            0 <= i < routes@.len() && #[trigger] routes@[i].id@ == vj.route_id@ ==> (r
                == DirectionType::Backward <==> routes@[i].direction_type is Some && (
            routes@[i].direction_type.unwrap()@ == "foward"@
                || routes@[i].direction_type.unwrap()@ == "clockwise"@
                || routes@[i].direction_type.unwrap()@ == "inbound"@)),
{
    routes.ids_are_distinct();
    proof {
        assert forall|i: int|
            0 <= i < routes@.len() && #[trigger] routes@[i].id@ == vj.route_id@ implies
            find_by_id(routes@, vj.route_id@).unwrap() == routes@[i] by {
            lemma_find_by_id_distinct(routes@, vj.route_id@, i);
        }
    }
    let route = routes.get(vj.route_id.as_str()).unwrap();
    match &route.direction_type {
        Some(d) => {
            let s = d.as_str();
            if same_text(s, "foward") || same_text(s, "clockwise") || same_text(s, "inbound") {
                DirectionType::Backward
            } else {
                DirectionType::Forward
            }
        },
        None => DirectionType::Forward,
    }
}

/// The wheelchair and bike availabilities of the trip written for `vj`: those of its trip
/// property when it names a known one, else the default ones.
pub open spec fn gtfs_availabilities(vj: VehicleJourney, tps: Seq<TripProperty>) -> (
    Availability,
    Availability,
) {
    if vj.trip_property_id matches Some(tp_id) && find_by_id(tps, tp_id@) is Some {
        let tp = find_by_id(tps, vj.trip_property_id.unwrap()@).unwrap();
        (tp.wheelchair_accessible, tp.bike_accepted)
    } else {
        (Availability::InformationNotAvailable, Availability::InformationNotAvailable)
    }
}

/// The GTFS trip written for vehicle journey `vj`.
pub open spec fn gtfs_trip(
    vj: VehicleJourney,
    sps: Seq<StopPoint>,
    routes: Seq<Route>,
    tps: Seq<TripProperty>,
) -> Trip {
    let names = gtfs_short_name_and_headsign(vj, sps);
    let availabilities = gtfs_availabilities(vj, tps);
    Trip {
        route_id: vj.route_id,
        service_id: vj.service_id,
        id: vj.id,
        headsign: names.1,
        short_name: names.0,
        direction: gtfs_direction(find_by_id(routes, vj.route_id@).unwrap()),
        block_id: vj.block_id,
        shape_id: vj.geometry_id,
        wheelchair_accessible: availabilities.0,
        bikes_allowed: availabilities.1,
    }
}

/// A trip can be written for `vj`: its route is known and so is its last stop when its name
/// is needed.
pub open spec fn can_make_trip(vj: VehicleJourney, sps: Seq<StopPoint>, routes: Seq<Route>) -> bool {
    &&& route_is_known(vj, routes)
    &&& needs_last_stop(vj) ==> last_stop_is_known(vj, sps)
}

/// The GTFS trip written for vehicle journey `vj`.
pub fn make_gtfs_trip_from_ntfs_vj(
    vj: &VehicleJourney,
    sps: &CollectionWithId<StopPoint>,
    routes: &CollectionWithId<Route>,
    tps: &CollectionWithId<TripProperty>,
) -> (r: Trip)
    requires
        can_make_trip(*vj, sps@, routes@),
    ensures
        r == gtfs_trip(*vj, sps@, routes@, tps@),
        vj.trip_property_id is None ==> r.wheelchair_accessible
            == Availability::InformationNotAvailable && r.bikes_allowed
            == Availability::InformationNotAvailable,
        vj.trip_property_id is Some && (forall|i: int|
            0 <= i < tps@.len() ==> #[trigger] tps@[i].id@ != vj.trip_property_id.unwrap()@)
            ==> r.wheelchair_accessible == Availability::InformationNotAvailable
            && r.bikes_allowed == Availability::InformationNotAvailable,
        forall|i: int|
            0 <= i < tps@.len() && vj.trip_property_id is Some && #[trigger] tps@[i].id@
                == vj.trip_property_id.unwrap()@ ==> r.wheelchair_accessible
                == tps@[i].wheelchair_accessible && r.bikes_allowed == tps@[i].bike_accepted,
{
    tps.ids_are_distinct();
    proof {
        law_trip_availabilities(*vj, sps@, routes@, tps@);
    }
    let (short_name, headsign) = get_gtfs_trip_shortname_and_headsign_from_ntfs_vj(vj, sps);
    let mut wheelchair_and_bike = (Availability::default(), Availability::default());
    if let Some(tp_id) = &vj.trip_property_id {
        if let Some(tp) = tps.get(tp_id.as_str()) {
            wheelchair_and_bike = (tp.wheelchair_accessible, tp.bike_accepted);
        }
    }
    Trip {
        route_id: vj.route_id.clone(),
        service_id: vj.service_id.clone(),
        id: vj.id.clone(),
        headsign,
        short_name,
        direction: get_gtfs_direction_id_from_ntfs_vj(vj, routes),
        block_id: clone_opt_string(&vj.block_id),
        shape_id: clone_opt_string(&vj.geometry_id),
        wheelchair_accessible: wheelchair_and_bike.0,
        bikes_allowed: wheelchair_and_bike.1,
    }
}

/// The availabilities of a trip come from the journey's trip property alone: with no trip
/// property, or one that the collection does not hold, both are the default
/// (`InformationNotAvailable`); else they are the property's wheelchair and bike
/// availabilities.
pub proof fn law_trip_availabilities(
    vj: VehicleJourney,
    sps: Seq<StopPoint>,
    routes: Seq<Route>,
    tps: Seq<TripProperty>,
)
    requires
        ids_distinct(tps),
    ensures
        vj.trip_property_id is None ==> gtfs_trip(vj, sps, routes, tps).wheelchair_accessible
            == Availability::InformationNotAvailable && gtfs_trip(vj, sps, routes, tps).bikes_allowed
            == Availability::InformationNotAvailable,
        vj.trip_property_id is Some && (forall|i: int|
            0 <= i < tps.len() ==> #[trigger] tps[i].id@ != vj.trip_property_id.unwrap()@)
            ==> gtfs_trip(vj, sps, routes, tps).wheelchair_accessible
            == Availability::InformationNotAvailable && gtfs_trip(vj, sps, routes, tps).bikes_allowed
            == Availability::InformationNotAvailable,
        forall|i: int|
            0 <= i < tps.len() && vj.trip_property_id is Some && #[trigger] tps[i].id@
                == vj.trip_property_id.unwrap()@ ==> gtfs_trip(vj, sps, routes, tps).wheelchair_accessible
                == tps[i].wheelchair_accessible && gtfs_trip(vj, sps, routes, tps).bikes_allowed
                == tps[i].bike_accepted,
{
    if vj.trip_property_id is Some {
        let id = vj.trip_property_id.unwrap()@;
        assert forall|i: int|
            0 <= i < tps.len() && #[trigger] tps[i].id@ == id implies find_by_id(tps, id) == Some(
                tps[i],
            ) by {
            lemma_find_by_id_distinct(tps, id, i);
        }
        if forall|i: int| 0 <= i < tps.len() ==> #[trigger] tps[i].id@ != id {
            if exists|k: int| is_first_with_id(tps, id, k) {
                let k = choose|k: int| is_first_with_id(tps, id, k);
                assert(tps[k].id@ == id);
            }
            assert(position_of_id(tps, id) is None);
        }
    }
}

/// Only the modes `LocalTrain`, `LongDistanceTrain`, `Metro`, `RapidTransit` and `Train` give
/// a trip a short name, which is the journey's headsign; their headsign is the name of the
/// last stop. For any other mode there is no short name, and the headsign is the journey's
/// own when it has one, else the name of the last stop.
pub proof fn law_short_name_and_headsign(vj: VehicleJourney, sps: Seq<StopPoint>)
    ensures
        !(vj.physical_mode_id@ == "LocalTrain"@ || vj.physical_mode_id@ == "LongDistanceTrain"@
            || vj.physical_mode_id@ == "Metro"@ || vj.physical_mode_id@ == "RapidTransit"@
            || vj.physical_mode_id@ == "Train"@) ==> {
            &&& gtfs_short_name_and_headsign(vj, sps).0 is None
            &&& vj.headsign is Some ==> gtfs_short_name_and_headsign(vj, sps).1 == vj.headsign
            &&& vj.headsign is None ==> gtfs_short_name_and_headsign(vj, sps).1 == last_stop_name(
                vj,
                sps,
            )
        },
        (vj.physical_mode_id@ == "LocalTrain"@ || vj.physical_mode_id@ == "LongDistanceTrain"@
            || vj.physical_mode_id@ == "Metro"@ || vj.physical_mode_id@ == "RapidTransit"@
            || vj.physical_mode_id@ == "Train"@) ==> {
            &&& gtfs_short_name_and_headsign(vj, sps).0 == vj.headsign
            &&& gtfs_short_name_and_headsign(vj, sps).1 == last_stop_name(vj, sps)
        },
{
}

/// The last stop of a journey is the stop point of its call with the greatest sequence number,
/// the last such call when several share it; a journey with no call has none.
pub proof fn law_last_stop_name(vj: VehicleJourney, sps: Seq<StopPoint>)
    ensures
        vj.stop_times@.len() == 0 ==> last_stop_name(vj, sps) is None,
        forall|i: int|
            0 <= i < vj.stop_times@.len() && (forall|j: int|
                0 <= j < vj.stop_times@.len() ==> #[trigger] vj.stop_times@[j].sequence
                    <= vj.stop_times@[i].sequence) && (forall|j: int|
                i < j < vj.stop_times@.len() ==> #[trigger] vj.stop_times@[j].sequence
                    < vj.stop_times@[i].sequence) ==> #[trigger] last_stop_name(vj, sps) == Some(
                sps[vj.stop_times@[i].stop_point_idx@ as int].name,
            ),
{
    let sts = vj.stop_times@;
    if sts.len() > 0 {
        lemma_last_call(sts);
        assert forall|i: int|
            0 <= i < sts.len() && (forall|j: int|
                0 <= j < sts.len() ==> #[trigger] sts[j].sequence <= sts[i].sequence) && (forall|
                j: int,
            |
                i < j < sts.len() ==> #[trigger] sts[j].sequence < sts[i].sequence) implies #[trigger] last_stop_name(vj, sps)
            == Some(sps[sts[i].stop_point_idx@ as int].name) by {
            assert(is_last_call(sts, i));
        }
    }
}

/// A trip runs backward exactly when its route's direction type is `foward`, `clockwise` or
/// `inbound`; any other direction type, or none, gives forward.
pub proof fn law_direction(route: Route)
    ensures
        gtfs_direction(route) == DirectionType::Backward <==> route.direction_type is Some && (
        route.direction_type.unwrap()@ == "foward"@ || route.direction_type.unwrap()@
            == "clockwise"@ || route.direction_type.unwrap()@ == "inbound"@),
        gtfs_direction(route) != DirectionType::Backward ==> gtfs_direction(route)
            == DirectionType::Forward,
{
}

/// A trip copies the identifiers of its journey: its route, service, own identifier, block and
/// shape (the journey's geometry); its direction is that of the journey's route.
pub proof fn law_trip_fields(
    vj: VehicleJourney,
    sps: Seq<StopPoint>,
    routes: Seq<Route>,
    tps: Seq<TripProperty>,
)
    requires
        ids_distinct(routes),
    ensures
        gtfs_trip(vj, sps, routes, tps).route_id == vj.route_id,
        gtfs_trip(vj, sps, routes, tps).service_id == vj.service_id,
        gtfs_trip(vj, sps, routes, tps).id == vj.id,
        gtfs_trip(vj, sps, routes, tps).block_id == vj.block_id,
        gtfs_trip(vj, sps, routes, tps).shape_id == vj.geometry_id,
        forall|i: int|
            0 <= i < routes.len() && #[trigger] routes[i].id@ == vj.route_id@ ==> (gtfs_trip(
                vj,
                sps,
                routes,
                tps,
            ).direction == DirectionType::Backward <==> routes[i].direction_type is Some && (
            routes[i].direction_type.unwrap()@ == "foward"@
                || routes[i].direction_type.unwrap()@ == "clockwise"@
                || routes[i].direction_type.unwrap()@ == "inbound"@)),
{
    assert forall|i: int|
        0 <= i < routes.len() && #[trigger] routes[i].id@ == vj.route_id@ implies find_by_id(
            routes,
            vj.route_id@,
        ) == Some(routes[i]) by {
        lemma_find_by_id_distinct(routes, vj.route_id@, i);
    }
}

/// The rows of `agency.txt`: one per network, in order.
pub fn gtfs_agencies(networks: &CollectionWithId<Network>) -> (r: Vec<Agency>)
    ensures
        r@.len() == networks@.len(),
        forall|i: int| 0 <= i < r@.len() ==> is_agency_of(#[trigger] r@[i], networks@[i]),
{
    let ns = networks.values();
    let mut r: Vec<Agency> = Vec::new();
    for i in 0..ns.len()
        invariant
            ns@ == networks@,
            r@.len() == i,
            forall|k: int| 0 <= k < i ==> is_agency_of(#[trigger] r@[k], networks@[k]),
    {
        r.push(Agency::from(&ns[i]));
    }
    r
}

/// The rows of `stops.txt`: one per stop point, in order, then one per stop area, in order.
pub fn gtfs_stops(
    stop_points: &CollectionWithId<StopPoint>,
    stop_areas: &CollectionWithId<StopArea>,
) -> (r: Vec<Stop>)
    ensures
        r@.len() == stop_points@.len() + stop_areas@.len(),
        forall|i: int| 0 <= i < stop_points@.len() ==> is_stop_of_point(#[trigger] r@[i], stop_points@[i]),
        forall|i: int|
            0 <= i < stop_areas@.len() ==> is_stop_of_area(
                #[trigger] r@[stop_points@.len() + i],
                stop_areas@[i],
            ),
{
    let sps = stop_points.values();
    let sas = stop_areas.values();
    let mut r: Vec<Stop> = Vec::new();
    for i in 0..sps.len()
        invariant
            sps@ == stop_points@,
            r@.len() == i,
            forall|k: int| 0 <= k < i ==> is_stop_of_point(#[trigger] r@[k], stop_points@[k]),
    {
        r.push(Stop::from(&sps[i]));
    }
    let np = sps.len();
    for i in 0..sas.len()
        invariant
            sas@ == stop_areas@,
            np == stop_points@.len(),
            r@.len() == np + i,
            forall|k: int| 0 <= k < np ==> is_stop_of_point(#[trigger] r@[k], stop_points@[k]),
            forall|k: int| 0 <= k < i ==> is_stop_of_area(#[trigger] r@[np + k], stop_areas@[k]),
    {
        r.push(Stop::from(&sas[i]));
        assert(r@[np + i as int] == r@.last());
    }
    r
}

/// The rows of `trips.txt`: one per vehicle journey, in order.
pub fn gtfs_trips(
    vjs: &CollectionWithId<VehicleJourney>,
    sps: &CollectionWithId<StopPoint>,
    routes: &CollectionWithId<Route>,
    tps: &CollectionWithId<TripProperty>,
) -> (r: Vec<Trip>)
    requires
        forall|i: int| 0 <= i < vjs@.len() ==> can_make_trip(#[trigger] vjs@[i], sps@, routes@),
    ensures
        r@.len() == vjs@.len(),
        forall|i: int|
            0 <= i < r@.len() ==> #[trigger] r@[i] == gtfs_trip(vjs@[i], sps@, routes@, tps@),
{
    let vs = vjs.values();
    let mut r: Vec<Trip> = Vec::new();
    for i in 0..vs.len()
        invariant
            vs@ == vjs@,
            forall|k: int| 0 <= k < vjs@.len() ==> can_make_trip(#[trigger] vjs@[k], sps@, routes@),
            r@.len() == i,
            forall|k: int| 0 <= k < i ==> #[trigger] r@[k] == gtfs_trip(vjs@[k], sps@, routes@, tps@),
    {
        r.push(make_gtfs_trip_from_ntfs_vj(&vs[i], sps, routes, tps));
    }
    r
}

} // verus!
