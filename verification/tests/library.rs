use std::collections::BTreeSet;

use navitia_model::collection::{Collection, CollectionWithId};
use navitia_model::common_format::Availability;
use navitia_model::error::Error;
use navitia_model::gtfs::write::{
    get_gtfs_direction_id_from_ntfs_vj, get_gtfs_trip_shortname_and_headsign_from_ntfs_vj,
    get_last_stop_name, gtfs_agencies, gtfs_stops, gtfs_trips, make_gtfs_trip_from_ntfs_vj,
    trip_can_be_made,
};
use navitia_model::gtfs::{DirectionType, StopLocationType};
use navitia_model::objects::{
    Coord, Date, Network, Route, StopArea, StopPoint, StopTime, Time, TripProperty,
    VehicleJourney,
};
use navitia_model::utils::{
    add_prefix_to_collection, add_prefix_to_collection_with_id, de_from_date_string, de_from_u8,
    de_with_empty_default, de_with_empty_or_invalid_default, de_with_invalid_option,
    make_collection, make_collection_with_id, make_opt_collection, make_opt_collection_with_id,
    ser_from_bool, ser_from_naive_date,
};

fn network(id: &str) -> Network {
    Network {
        id: id.to_string(),
        name: format!("name of {}", id),
        url: None,
        timezone: None,
        lang: None,
        phone: None,
        address: None,
        sort_order: None,
        codes: BTreeSet::default(),
    }
}

fn stop_point(id: &str, name: &str, area: &str) -> StopPoint {
    StopPoint {
        id: id.to_string(),
        name: name.to_string(),
        codes: BTreeSet::default(),
        object_properties: BTreeSet::default(),
        comment_links: BTreeSet::default(),
        visible: true,
        coord: Coord { lon: 1.5f64.to_bits(), lat: 45.25f64.to_bits() },
        stop_area_id: area.to_string(),
        timezone: None,
        geometry_id: None,
        equipment_id: None,
        fare_zone_id: None,
    }
}

fn stop_area(id: &str) -> StopArea {
    StopArea {
        id: id.to_string(),
        name: format!("area {}", id),
        codes: BTreeSet::default(),
        object_properties: BTreeSet::default(),
        comment_links: BTreeSet::default(),
        visible: true,
        coord: Coord { lon: 3.0f64.to_bits(), lat: 44.0f64.to_bits() },
        timezone: Some("Europe/Paris".to_string()),
        geometry_id: None,
        equipment_id: None,
    }
}

fn route(id: &str, direction_type: Option<&str>) -> Route {
    Route {
        id: id.to_string(),
        name: "route".to_string(),
        direction_type: direction_type.map(|d| d.to_string()),
        codes: BTreeSet::default(),
        object_properties: BTreeSet::default(),
        comment_links: BTreeSet::default(),
        line_id: "line".to_string(),
        geometry_id: None,
        destination_id: None,
    }
}

fn stop_time(sps: &CollectionWithId<StopPoint>, sp: &str, sequence: u32) -> StopTime {
    StopTime {
        stop_point_idx: sps.get_idx(sp).unwrap(),
        sequence,
        arrival_time: Time::new(8, 0, sequence),
        departure_time: Time::new(8, 0, sequence),
        boarding_duration: 0,
        alighting_duration: 0,
        pickup_type: 0,
        drop_off_type: 0,
        datetime_estimated: false,
        local_zone_id: None,
    }
}

fn journey(mode: &str, headsign: Option<&str>, stop_times: Vec<StopTime>) -> VehicleJourney {
    VehicleJourney {
        id: "vj".to_string(),
        codes: BTreeSet::default(),
        object_properties: BTreeSet::default(),
        comment_links: BTreeSet::default(),
        route_id: "r1".to_string(),
        physical_mode_id: mode.to_string(),
        dataset_id: "ds".to_string(),
        service_id: "s".to_string(),
        headsign: headsign.map(|h| h.to_string()),
        block_id: None,
        company_id: "c".to_string(),
        trip_property_id: None,
        geometry_id: None,
        stop_times,
    }
}

fn three_stop_points() -> CollectionWithId<StopPoint> {
    CollectionWithId::new(vec![
        stop_point("a", "Alpha", "A"),
        stop_point("b", "Bravo", "B"),
        stop_point("c", "Charlie", "C"),
    ])
    .unwrap()
}

#[test]
fn collection_with_id_refuses_first_repeated_identifier() {
    let r = CollectionWithId::new(vec![network("x"), network("y"), network("y"), network("x")]);
    match r {
        Err(Error::IdentifierAlreadyExists(id)) => assert_eq!(id, "y"),
        _ => panic!("a repeated identifier must be refused"),
    }
}

#[test]
fn collection_with_id_lookups() {
    let c = CollectionWithId::new(vec![network("x"), network("y"), network("z")]).unwrap();
    assert_eq!(c.len(), 3);
    assert_eq!(c.get_idx("y").unwrap().get(), 1);
    assert_eq!(c.get("z").unwrap().id, "z");
    assert_eq!(c.at(c.get_idx("x").unwrap()).id, "x");
    assert!(c.get("w").is_none());
    assert!(c.get_idx("").is_none());
    let ids: Vec<&str> = c.values().iter().map(|n| n.id.as_str()).collect();
    assert_eq!(ids, vec!["x", "y", "z"]);
}

#[test]
fn collection_with_id_take_empties_it() {
    let mut c = CollectionWithId::new(vec![network("x"), network("y")]).unwrap();
    let v = c.take();
    assert_eq!(v.len(), 2);
    assert_eq!(v[1].id, "y");
    assert_eq!(c.len(), 0);
    assert!(c.get("x").is_none());
    let e: CollectionWithId<Network> = CollectionWithId::default();
    assert_eq!(e.len(), 0);
}

#[test]
fn collection_keeps_order_and_repeats() {
    let mut c = Collection::new(vec![network("x"), network("x")]);
    assert_eq!(c.len(), 2);
    assert_eq!(c.values()[0].id, "x");
    let v = c.take();
    assert_eq!(v.len(), 2);
    assert_eq!(c.len(), 0);
    assert_eq!(Collection::<Network>::default().len(), 0);
}

#[test]
fn bool_fields_round_trip() {
    assert_eq!(ser_from_bool(&true), 1);
    assert_eq!(ser_from_bool(&false), 0);
    assert!(!de_from_u8(0));
    assert!(de_from_u8(1));
    assert!(de_from_u8(7));
    assert!(de_from_u8(ser_from_bool(&true)));
    assert!(!de_from_u8(ser_from_bool(&false)));
}

#[test]
fn dates_are_read_as_year_month_day() {
    assert_eq!(de_from_date_string("20180101").unwrap(), Date { year: 2018, month: 1, day: 1 });
    assert_eq!(de_from_date_string("20200229").unwrap(), Date { year: 2020, month: 2, day: 29 });
    assert_eq!(de_from_date_string("00050315").unwrap(), Date { year: 5, month: 3, day: 15 });
}

#[test]
fn invalid_dates_are_refused() {
    for s in ["20190229", "20181301", "20180100", "2018-01-01", "201801011", ""] {
        match de_from_date_string(s) {
            Err(Error::InvalidDate(_)) => {}
            other => panic!("{:?} must be refused, got {:?}", s, other),
        }
    }
}

#[test]
fn dates_are_written_as_eight_digits() {
    assert_eq!(ser_from_naive_date(&Date { year: 2018, month: 1, day: 1 }), "20180101");
    assert_eq!(ser_from_naive_date(&Date { year: 999, month: 12, day: 31 }), "09991231");
    assert_eq!(ser_from_naive_date(&Date { year: 0, month: 2, day: 29 }), "00000229");
    assert_eq!(ser_from_naive_date(&Date { year: 12345, month: 11, day: 5 }), "+123451105");
    assert_eq!(ser_from_naive_date(&Date { year: -1, month: 1, day: 1 }), "-00010101");
    assert_eq!(ser_from_naive_date(&Date { year: -12345, month: 1, day: 10 }), "-123450110");
}

#[test]
fn dates_round_trip() {
    for d in [
        Date { year: 2018, month: 6, day: 30 },
        Date { year: 1900, month: 2, day: 28 },
        Date { year: 2000, month: 2, day: 29 },
        Date { year: 9999, month: 12, day: 31 },
        Date { year: 0, month: 1, day: 1 },
    ] {
        assert_eq!(de_from_date_string(&ser_from_naive_date(&d)).unwrap(), d);
    }
}

#[test]
fn dates_after_year_9999_do_not_round_trip() {
    let d = Date { year: 10000, month: 1, day: 1 };
    let s = ser_from_naive_date(&d);
    assert_eq!(s, "+100000101");
    assert!(de_from_date_string(&s).is_err());
}

#[test]
fn missing_or_invalid_fields_get_defaults() {
    assert_eq!(de_with_empty_default(Some(5u32)), 5);
    assert_eq!(de_with_empty_default::<u32>(None), 0);
    assert_eq!(de_with_empty_default::<String>(None), "");
    assert_eq!(de_with_invalid_option::<u8, &str>(Ok(Some(3))), Ok(Some(3)));
    assert_eq!(de_with_invalid_option::<u8, &str>(Ok(None)), Ok(None));
    assert_eq!(de_with_invalid_option::<u8, &str>(Err("bad")), Ok(None));
    assert_eq!(de_with_empty_or_invalid_default::<u8, &str>(Ok(Some(3))), Ok(3));
    assert_eq!(de_with_empty_or_invalid_default::<u8, &str>(Ok(None)), Ok(0));
    assert_eq!(de_with_empty_or_invalid_default::<u8, &str>(Err("bad")), Ok(0));
    assert_eq!(
        de_with_empty_or_invalid_default::<Availability, &str>(Err("bad")),
        Ok(Availability::InformationNotAvailable)
    );
}

#[test]
fn prefix_is_added_to_collection_with_id() {
    let mut c = CollectionWithId::new(vec![
        stop_point("a", "Alpha", "A"),
        stop_point("b", "Bravo", "A"),
    ])
    .unwrap();
    add_prefix_to_collection_with_id(&mut c, "pre:").unwrap();
    assert_eq!(c.len(), 2);
    assert_eq!(c.values()[0].id, "pre:a");
    assert_eq!(c.values()[0].stop_area_id, "pre:A");
    assert_eq!(c.values()[1].id, "pre:b");
    assert_eq!(c.values()[1].name, "Bravo");
    assert!(c.get("pre:b").is_some());
    assert!(c.get("b").is_none());
}

#[test]
fn prefix_is_added_to_collection() {
    let mut c = Collection::new(vec![stop_area("x"), stop_area("x"), stop_area("y")]);
    add_prefix_to_collection(&mut c, "p_");
    let ids: Vec<&str> = c.values().iter().map(|a| a.id.as_str()).collect();
    assert_eq!(ids, vec!["p_x", "p_x", "p_y"]);
}

#[test]
fn time_counts_seconds() {
    assert_eq!(Time::new(14, 40, 0).total_seconds(), 52800);
    assert_eq!(Time::new(0, 0, 59).total_seconds(), 59);
    assert_eq!(Time::new(25, 0, 0).total_seconds(), 90000);
}

#[test]
fn last_stop_is_the_last_greatest_sequence() {
    let sps = three_stop_points();
    let vj = journey(
        "Bus",
        None,
        vec![stop_time(&sps, "a", 3), stop_time(&sps, "b", 7), stop_time(&sps, "c", 7)],
    );
    assert_eq!(get_last_stop_name(&vj, &sps), Some("Charlie".to_string()));
    let vj = journey(
        "Bus",
        None,
        vec![stop_time(&sps, "c", 2), stop_time(&sps, "a", 9), stop_time(&sps, "b", 1)],
    );
    assert_eq!(get_last_stop_name(&vj, &sps), Some("Alpha".to_string()));
    let vj = journey("Bus", None, vec![]);
    assert_eq!(get_last_stop_name(&vj, &sps), None);
}

#[test]
fn trains_are_named_after_their_headsign() {
    let sps = three_stop_points();
    for mode in ["LocalTrain", "LongDistanceTrain", "Metro", "RapidTransit", "Train"] {
        let vj = journey(mode, Some("123"), vec![stop_time(&sps, "a", 0), stop_time(&sps, "b", 1)]);
        assert_eq!(
            get_gtfs_trip_shortname_and_headsign_from_ntfs_vj(&vj, &sps),
            (Some("123".to_string()), Some("Bravo".to_string()))
        );
    }
    let vj = journey("Train", None, vec![stop_time(&sps, "a", 0)]);
    assert_eq!(
        get_gtfs_trip_shortname_and_headsign_from_ntfs_vj(&vj, &sps),
        (None, Some("Alpha".to_string()))
    );
}

#[test]
fn other_modes_have_no_short_name() {
    let sps = three_stop_points();
    let vj = journey("Bus", Some("123"), vec![stop_time(&sps, "a", 0), stop_time(&sps, "b", 1)]);
    assert_eq!(
        get_gtfs_trip_shortname_and_headsign_from_ntfs_vj(&vj, &sps),
        (None, Some("123".to_string()))
    );
    let vj = journey("train", None, vec![stop_time(&sps, "a", 0), stop_time(&sps, "c", 1)]);
    assert_eq!(
        get_gtfs_trip_shortname_and_headsign_from_ntfs_vj(&vj, &sps),
        (None, Some("Charlie".to_string()))
    );
    let vj = journey("Tramway", None, vec![]);
    assert_eq!(get_gtfs_trip_shortname_and_headsign_from_ntfs_vj(&vj, &sps), (None, None));
}

#[test]
fn direction_follows_the_route() {
    let vj = journey("Bus", None, vec![]);
    for (d, expected) in [
        (Some("foward"), DirectionType::Backward),
        (Some("clockwise"), DirectionType::Backward),
        (Some("inbound"), DirectionType::Backward),
        (Some("forward"), DirectionType::Forward),
        (Some("outbound"), DirectionType::Forward),
        (None, DirectionType::Forward),
    ] {
        let routes = CollectionWithId::new(vec![route("r0", Some("inbound")), route("r1", d)]).unwrap();
        assert_eq!(get_gtfs_direction_id_from_ntfs_vj(&vj, &routes), expected);
    }
}

#[test]
fn unknown_trip_property_gives_default_availabilities() {
    let sps = three_stop_points();
    let routes = CollectionWithId::new(vec![route("r1", None)]).unwrap();
    let tps = CollectionWithId::new(vec![TripProperty {
        id: "tp".to_string(),
        wheelchair_accessible: Availability::Available,
        bike_accepted: Availability::Available,
        air_conditioned: Availability::Available,
        visual_announcement: Availability::Available,
        audible_announcement: Availability::Available,
        appropriate_escort: Availability::Available,
        appropriate_signage: Availability::Available,
        school_vehicle_type: navitia_model::objects::TransportType::Regular,
    }])
    .unwrap();
    let mut vj = journey("Bus", Some("h"), vec![]);
    vj.trip_property_id = Some("missing".to_string());
    let trip = make_gtfs_trip_from_ntfs_vj(&vj, &sps, &routes, &tps);
    assert_eq!(trip.wheelchair_accessible, Availability::InformationNotAvailable);
    assert_eq!(trip.bikes_allowed, Availability::InformationNotAvailable);
    assert_eq!(trip.direction, DirectionType::Forward);
    vj.trip_property_id = Some("tp".to_string());
    let trip = make_gtfs_trip_from_ntfs_vj(&vj, &sps, &routes, &tps);
    assert_eq!(trip.wheelchair_accessible, Availability::Available);
    assert_eq!(trip.bikes_allowed, Availability::Available);
}

#[test]
fn rows_are_written_in_order() {
    let networks = CollectionWithId::new(vec![network("n1"), network("n2")]).unwrap();
    let agencies = gtfs_agencies(&networks);
    assert_eq!(agencies.len(), 2);
    assert_eq!(agencies[1].id, Some("n2".to_string()));
    assert_eq!(agencies[1].timezone, "Europe/Paris");

    let sps = three_stop_points();
    let sas = CollectionWithId::new(vec![stop_area("A")]).unwrap();
    let stops = gtfs_stops(&sps, &sas);
    assert_eq!(stops.len(), 4);
    assert_eq!(stops[0].id, "a");
    assert_eq!(stops[2].parent_station, Some("C".to_string()));
    assert_eq!(stops[3].id, "A");
    assert_eq!(stops[3].location_type, StopLocationType::StopArea);
    assert_eq!(stops[3].lat, 44.0f64.to_bits());

    let routes = CollectionWithId::new(vec![route("r1", Some("clockwise"))]).unwrap();
    let tps: CollectionWithId<TripProperty> = CollectionWithId::default();
    let mut vj2 = journey("Metro", Some("7"), vec![stop_time(&sps, "c", 1)]);
    vj2.id = "vj2".to_string();
    let vjs = CollectionWithId::new(vec![journey("Bus", None, vec![stop_time(&sps, "b", 1)]), vj2])
        .unwrap();
    let trips = gtfs_trips(&vjs, &sps, &routes, &tps);
    assert_eq!(trips.len(), 2);
    assert_eq!(trips[0].headsign, Some("Bravo".to_string()));
    assert_eq!(trips[0].short_name, None);
    assert_eq!(trips[1].id, "vj2");
    assert_eq!(trips[1].short_name, Some("7".to_string()));
    assert_eq!(trips[1].headsign, Some("Charlie".to_string()));
    assert_eq!(trips[1].direction, DirectionType::Backward);
}

#[test]
fn chrono_refusals_become_invalid_date_errors() {
    let e = chrono::NaiveDate::parse_from_str("x", "%Y").unwrap_err();
    match navitia_model::utils::date_from_chrono(Err(e)) {
        Err(Error::InvalidDate(got)) => assert_eq!(got, e),
        other => panic!("unexpected {:?}", other),
    }
    let d = Date { year: 2021, month: 7, day: 14 };
    assert_eq!(navitia_model::utils::date_from_chrono(Ok(d)).unwrap(), d);
}

#[test]
fn date_validity() {
    assert!(Date { year: 2020, month: 2, day: 29 }.is_valid_date());
    assert!(!Date { year: 2019, month: 2, day: 29 }.is_valid_date());
    assert!(!Date { year: 1900, month: 2, day: 29 }.is_valid_date());
    assert!(Date { year: -400, month: 2, day: 29 }.is_valid_date());
    assert!(!Date { year: 2018, month: 4, day: 31 }.is_valid_date());
    assert!(!Date { year: 2018, month: 0, day: 1 }.is_valid_date());
    assert!(!Date { year: 262143, month: 1, day: 1 }.is_valid_date());
    assert!(Date { year: -262143, month: 1, day: 1 }.is_valid_date());
}

#[test]
fn gtfs_codes() {
    assert_eq!(Availability::InformationNotAvailable.code(), 0);
    assert_eq!(Availability::Available.code(), 1);
    assert_eq!(Availability::NotAvailable.code(), 2);
    assert_eq!(Availability::default(), Availability::InformationNotAvailable);
    assert_eq!(DirectionType::Forward.code(), 0);
    assert_eq!(DirectionType::Backward.code(), 1);
    assert_eq!(StopLocationType::StopPoint.code(), 0);
    assert_eq!(StopLocationType::StopArea.code(), 1);
    assert_eq!(StopLocationType::StopEntrace.code(), 2);
}

#[test]
fn trips_need_a_known_route_and_last_stop() {
    let sps = three_stop_points();
    let routes = CollectionWithId::new(vec![route("r1", None)]).unwrap();
    let vj = journey("Bus", None, vec![stop_time(&sps, "b", 1)]);
    assert!(trip_can_be_made(&vj, &sps, &routes));
    let other_routes = CollectionWithId::new(vec![route("r2", None)]).unwrap();
    assert!(!trip_can_be_made(&vj, &sps, &other_routes));
    let few = CollectionWithId::new(vec![stop_point("a", "Alpha", "A")]).unwrap();
    assert!(!trip_can_be_made(&vj, &few, &routes));
    let vj = journey("Bus", Some("h"), vec![stop_time(&sps, "c", 1)]);
    assert!(trip_can_be_made(&vj, &few, &routes));
}

#[test]
fn collections_read_from_files() {
    let c = make_opt_collection_with_id::<Network>(None).unwrap();
    assert_eq!(c.len(), 0);
    let c = make_opt_collection_with_id(Some(vec![network("a"), network("b")])).unwrap();
    assert_eq!(c.get("b").unwrap().id, "b");
    match make_collection_with_id(vec![network("a"), network("a")]) {
        Err(Error::IdentifierAlreadyExists(id)) => assert_eq!(id, "a"),
        _ => panic!("a repeated identifier must be refused"),
    }
    match make_opt_collection_with_id(Some(vec![network("c"), network("d"), network("c")])) {
        Err(Error::IdentifierAlreadyExists(id)) => assert_eq!(id, "c"),
        _ => panic!("a repeated identifier must be refused"),
    }
    assert_eq!(make_opt_collection::<Network>(None).len(), 0);
    assert_eq!(make_opt_collection(Some(vec![network("a"), network("a")])).len(), 2);
    assert_eq!(make_collection(vec![network("z")]).values()[0].id, "z");
}
