use pubroulette::geo::{is_within_cone, normalize_angle, CONE_WIDTH};
use pubroulette::osm::{
    filter_by_bearing, find_tag, normalize_element, normalize_elements, resolve_location, Element,
    Location, LocationData, Names, RawElement,
};
use pubroulette::roulette::{
    get_random_crawl, get_random_pub, pick_n_distinct, pick_one, to_pub_response, to_pub_responses,
    AppError, GetCrawlParams, GetPubParams,
};

fn deg(x: f64) -> i64 {
    (x * 1_000_000.0).round() as i64
}

fn create_mock_element(id: i64, lat: f64, lon: f64) -> Element {
    Element {
        elem_type: "node".to_string(),
        id,
        location: Location { latitude: deg(lat), longitude: deg(lon) },
        names: Names { name: "Test Pub".to_string(), alt_name: None, old_name: None },
        tags: Vec::new(),
    }
}

fn named_element(id: i64, name: &str) -> Element {
    let mut e = create_mock_element(id, 0.0, 0.0);
    e.names.name = name.to_string();
    e
}

fn tags(pairs: &[(&str, &str)]) -> Vec<(String, String)> {
    pairs.iter().map(|(k, v)| (k.to_string(), v.to_string())).collect()
}

fn raw(id: i64, tag_pairs: Option<&[(&str, &str)]>, data: Option<LocationData>) -> RawElement {
    RawElement {
        elem_type: "node".to_string(),
        id,
        tags: tag_pairs.map(tags),
        location_data: data,
    }
}

#[test]
fn test_is_within_cone() {
    let cone_width = deg(70.0);

    let target_90 = deg(90.0);
    assert!(is_within_cone(deg(90.0), target_90, cone_width));
    assert!(is_within_cone(deg(55.0), target_90, cone_width));
    assert!(is_within_cone(deg(125.0), target_90, cone_width));
    assert!(!is_within_cone(deg(54.9), target_90, cone_width));
    assert!(!is_within_cone(deg(125.1), target_90, cone_width));

    let target_0 = deg(0.0);
    assert!(is_within_cone(deg(0.0), target_0, cone_width));
    assert!(is_within_cone(deg(360.0), target_0, cone_width));
    assert!(is_within_cone(deg(35.0), target_0, cone_width));
    assert!(is_within_cone(deg(325.0), target_0, cone_width));
    assert!(is_within_cone(deg(325.0), deg(360.0), cone_width));
    assert!(!is_within_cone(deg(35.1), target_0, cone_width));
    assert!(!is_within_cone(deg(324.9), target_0, cone_width));

    let target_350 = deg(350.0);

    assert!(is_within_cone(deg(340.0), target_350, cone_width));
    assert!(is_within_cone(deg(10.0), target_350, cone_width));
    assert!(is_within_cone(deg(25.0), target_350, cone_width));
    assert!(is_within_cone(deg(315.0), target_350, cone_width));
    assert!(!is_within_cone(deg(25.1), target_350, cone_width));
    assert!(!is_within_cone(deg(314.9), target_350, cone_width));
}

#[test]
fn test_filter_by_bearing() {
    let el_north = create_mock_element(1, 1.0, 0.0);
    let el_east = create_mock_element(2, 0.0, 1.0);
    let el_south = create_mock_element(3, -1.0, 0.0);
    let el_west = create_mock_element(4, 0.0, -1.0);

    let elements = vec![el_north, el_east, el_south, el_west];
    // Bearings from the origin to each candidate, in the same order.
    let bearings = vec![deg(0.0), deg(90.0), deg(180.0), deg(270.0)];

    let filtered_north = filter_by_bearing(elements.clone(), &bearings, deg(0.0));
    assert_eq!(filtered_north.len(), 1);
    assert_eq!(filtered_north[0].id, 1);

    let filtered_east = filter_by_bearing(elements.clone(), &bearings, deg(90.0));
    assert_eq!(filtered_east.len(), 1);
    assert_eq!(filtered_east[0].id, 2);

    let filtered_ne = filter_by_bearing(elements.clone(), &bearings, deg(45.0));

    assert_eq!(filtered_ne.len(), 0);
}

#[test]
fn cone_uses_the_default_width_and_wraps() {
    assert_eq!(CONE_WIDTH, deg(70.0));
    assert!(is_within_cone(deg(355.0), deg(5.0), CONE_WIDTH));
    assert!(is_within_cone(deg(-10.0), deg(0.0), CONE_WIDTH));
    assert!(is_within_cone(deg(720.0 + 20.0), deg(0.0), CONE_WIDTH));
    assert!(!is_within_cone(deg(180.0), deg(0.0), CONE_WIDTH));
    // Symmetric around the target.
    assert_eq!(
        is_within_cone(deg(100.0 + 34.0), deg(100.0), CONE_WIDTH),
        is_within_cone(deg(100.0 - 34.0), deg(100.0), CONE_WIDTH)
    );
}

#[test]
fn angles_are_brought_into_one_turn() {
    assert_eq!(normalize_angle(deg(360.0)), 0);
    assert_eq!(normalize_angle(deg(-90.0)), deg(270.0));
    assert_eq!(normalize_angle(deg(725.5)), deg(5.5));
}

#[test]
fn record_without_name_is_excluded() {
    let r = raw(
        1,
        Some(&[("amenity", "pub")]),
        Some(LocationData::Direct(Location { latitude: 1, longitude: 2 })),
    );
    assert!(normalize_element(r).is_none());
}

#[test]
fn record_with_empty_name_or_missing_parts_is_excluded() {
    let loc = LocationData::Direct(Location { latitude: 1, longitude: 2 });
    assert!(normalize_element(raw(1, Some(&[("name", "")]), Some(loc))).is_none());
    assert!(normalize_element(raw(2, None, Some(loc))).is_none());
    assert!(normalize_element(raw(3, Some(&[("name", "The Crown")]), None)).is_none());
}

#[test]
fn alias_equal_to_name_is_cleared() {
    let r = raw(
        7,
        Some(&[("name", "The Crown"), ("alt_name", "The Crown"), ("old_name", "Crown Inn")]),
        Some(LocationData::Direct(Location { latitude: 10, longitude: 20 })),
    );
    let e = normalize_element(r).unwrap();
    assert_eq!(e.id, 7);
    assert_eq!(e.names.name, "The Crown");
    assert_eq!(e.names.alt_name, None);
    assert_eq!(e.names.old_name, Some("Crown Inn".to_string()));
    assert_eq!(e.tags.len(), 3);
}

#[test]
fn nested_centroid_gives_the_coordinates() {
    let c = Location { latitude: deg(51.5), longitude: deg(-0.1) };
    let r = raw(9, Some(&[("name", "The Anchor")]), Some(LocationData::Nested(c)));
    let e = normalize_element(r).unwrap();
    assert_eq!(e.location, c);
    assert_eq!(resolve_location(LocationData::Nested(c)), c);
    assert_eq!(resolve_location(LocationData::Direct(c)), c);
}

#[test]
fn normalization_keeps_order_and_drops_incomplete() {
    let loc = Some(LocationData::Direct(Location { latitude: 0, longitude: 0 }));
    let raws = vec![
        raw(1, Some(&[("name", "A")]), loc),
        raw(2, Some(&[("amenity", "pub")]), loc),
        raw(3, Some(&[("name", "C")]), loc),
    ];
    let out = normalize_elements(raws);
    let ids: Vec<i64> = out.iter().map(|e| e.id).collect();
    assert_eq!(ids, vec![1, 3]);
    assert!(normalize_elements(Vec::new()).is_empty());
}

#[test]
fn find_tag_takes_the_value_for_the_key() {
    let t = tags(&[("name", "A"), ("opening_hours", "12-23")]);
    assert_eq!(find_tag(&t, &"opening_hours".to_string()), Some("12-23".to_string()));
    assert_eq!(find_tag(&t, &"website".to_string()), None);
}

#[test]
fn crawl_of_three_from_five_has_distinct_ids() {
    for _ in 0..50 {
        let elements: Vec<Element> = (1..=5).map(|i| create_mock_element(i, 0.0, 0.0)).collect();
        let picked = pick_n_distinct(elements, 3).ok().unwrap();
        assert_eq!(picked.len(), 3);
        let mut ids: Vec<i64> = picked.iter().map(|e| e.id).collect();
        ids.sort();
        ids.dedup();
        assert_eq!(ids.len(), 3);
        assert!(ids.iter().all(|i| (1..=5).contains(i)));
    }
}

#[test]
fn crawl_of_all_keeps_every_element() {
    let elements: Vec<Element> = (1..=5).map(|i| create_mock_element(i, 0.0, 0.0)).collect();
    let picked = pick_n_distinct(elements, 5).ok().unwrap();
    let mut ids: Vec<i64> = picked.iter().map(|e| e.id).collect();
    ids.sort();
    assert_eq!(ids, vec![1, 2, 3, 4, 5]);
}

#[test]
fn crawl_larger_than_supply_fails() {
    let elements = vec![create_mock_element(1, 0.0, 0.0), create_mock_element(2, 0.0, 0.0)];
    match pick_n_distinct(elements, 3) {
        Err(AppError::NotEnoughPubsFound { requested, found }) => {
            assert_eq!(requested, 3);
            assert_eq!(found, 2);
        }
        _ => panic!("expected NotEnoughPubsFound"),
    }
}

#[test]
fn crawl_from_nothing_fails() {
    assert!(matches!(pick_n_distinct(Vec::new(), 2), Err(AppError::NoPubsFound)));
    assert!(matches!(get_random_crawl(Vec::new(), 0), Err(AppError::NoPubsFound)));
}

#[test]
fn crawl_of_zero_is_empty() {
    let elements = vec![create_mock_element(1, 0.0, 0.0)];
    assert!(pick_n_distinct(elements.clone(), 0).ok().unwrap().is_empty());
    assert!(get_random_crawl(elements, 0).ok().unwrap().is_empty());
}

#[test]
fn crawl_responses_carry_names_and_positions() {
    let elements = vec![named_element(1, "A"), named_element(2, "B")];
    let mut names: Vec<String> = get_random_crawl(elements, 2)
        .ok()
        .unwrap()
        .into_iter()
        .map(|r| r.name)
        .collect();
    names.sort();
    assert_eq!(names, vec!["A".to_string(), "B".to_string()]);
}

#[test]
fn pick_one_from_nothing_fails() {
    assert!(matches!(pick_one(&Vec::new()), Err(AppError::NoPubsFound)));
    assert!(matches!(get_random_pub(&Vec::new()), Err(AppError::NoPubsFound)));
}

#[test]
fn pick_one_returns_a_member() {
    let elements: Vec<Element> = (1..=4).map(|i| named_element(i, "X")).collect();
    for _ in 0..20 {
        let e = pick_one(&elements).ok().unwrap();
        assert!((1..=4).contains(&e.id));
    }
    let single = vec![named_element(8, "Only")];
    assert_eq!(pick_one(&single).ok().unwrap().id, 8);
}

#[test]
fn single_pick_in_a_direction_is_deterministic() {
    let loc_north = Location { latitude: deg(0.001), longitude: 0 };
    let loc_east = Location { latitude: 0, longitude: deg(0.001) };
    let raws = vec![
        raw(1, Some(&[("name", "North Arms")]), Some(LocationData::Direct(loc_north))),
        raw(2, Some(&[("name", "East Tavern")]), Some(LocationData::Nested(loc_east))),
    ];
    let elements = normalize_elements(raws);
    assert_eq!(elements.len(), 2);
    // Bearings from the centre (0, 0): due north and due east.
    let bearings = vec![deg(0.0), deg(90.0)];
    let kept = filter_by_bearing(elements, &bearings, deg(0.0));
    for _ in 0..20 {
        let r = get_random_pub(&kept).ok().unwrap();
        assert_eq!(r.name, "North Arms");
        assert_eq!(r.latitude, deg(0.001));
        assert_eq!(r.longitude, 0);
    }
}

#[test]
fn response_is_a_projection() {
    let mut e = create_mock_element(3, 51.5, -0.1);
    e.names.alt_name = Some("Other".to_string());
    let r = to_pub_response(&e);
    assert_eq!(r.name, "Test Pub");
    assert_eq!(r.latitude, 51_500_000);
    assert_eq!(r.longitude, -100_000);
    let rs = to_pub_responses(&vec![named_element(1, "A"), named_element(2, "B")]);
    assert_eq!(rs.iter().map(|r| r.name.as_str()).collect::<Vec<_>>(), vec!["A", "B"]);
}

#[test]
fn pub_params_are_validated() {
    let ok = GetPubParams { latitude: deg(51.5), longitude: deg(-0.1), radius: 500, bearing: None };
    assert!(ok.validate().is_ok());
    let edge = GetPubParams { latitude: deg(90.0), longitude: deg(-180.0), radius: 1000, bearing: Some(deg(359.0)) };
    assert!(edge.validate().is_ok());
    let cases = [
        (GetPubParams { latitude: deg(90.1), ..ok }, "latitude"),
        (GetPubParams { longitude: deg(180.5), ..ok }, "longitude"),
        (GetPubParams { radius: 0, ..ok }, "radius"),
        (GetPubParams { radius: 1001, ..ok }, "radius"),
        (GetPubParams { bearing: Some(deg(359.5)), ..ok }, "bearing"),
        (GetPubParams { bearing: Some(-1), ..ok }, "bearing"),
        (GetPubParams { latitude: deg(-91.0), radius: 0, ..ok }, "latitude"),
    ];
    for (p, field) in cases {
        match p.validate() {
            Err(AppError::Validation(f)) => assert_eq!(f, field),
            _ => panic!("expected a validation error"),
        }
    }
}

#[test]
fn crawl_params_are_validated() {
    let ok = GetCrawlParams { latitude: 0, longitude: 0, radius: 1, bearing: Some(0), num_pubs: 4 };
    assert!(ok.validate().is_ok());
    assert!(GetCrawlParams { num_pubs: 0, ..ok }.validate().is_ok());
    match (GetCrawlParams { num_pubs: 5, ..ok }).validate() {
        Err(AppError::Validation(f)) => assert_eq!(f, "num_pubs"),
        _ => panic!("expected a validation error"),
    }
    match (GetCrawlParams { num_pubs: -1, radius: 2000, ..ok }).validate() {
        Err(AppError::Validation(f)) => assert_eq!(f, "radius"),
        _ => panic!("expected a validation error"),
    }
}

#[test]
fn errors_map_to_status_and_message() {
    let (s, m) = AppError::NotEnoughPubsFound { requested: 3, found: 2 }.to_response();
    assert_eq!(s, 404);
    assert_eq!(m, "Not enough pubs found. Request 3, but only 2 found.");
    let (s, m) = AppError::NotEnoughPubsFound { requested: 4, found: 123 }.to_response();
    assert_eq!(s, 404);
    assert_eq!(m, "Not enough pubs found. Request 4, but only 123 found.");
    let (s, m) = AppError::NoPubsFound.to_response();
    assert_eq!(s, 404);
    assert_eq!(m, "No pubs found within the specified radius.");
    let (s, m) = AppError::OsmError("connection refused".to_string()).to_response();
    assert_eq!(s, 500);
    assert_eq!(m, "An internal service error occurred.");
    let (s, m) = AppError::Validation("radius".to_string()).to_response();
    assert_eq!(s, 400);
    assert_eq!(m, "Input validation failed: radius");
    let (s, m) = AppError::ParseError("bad".to_string()).to_response();
    assert_eq!(s, 400);
    assert_eq!(m, "Could not parse the request parameters.");
}
