use aws_region_nearby::find_region_from_list;
use aws_region_nearby::first_min_index;
use aws_region_nearby::AwsRegion;
use aws_region_nearby::Coordinate;
use geoutils::Location;

fn location_of(c: Coordinate) -> Location {
    Location::new(f64::from_bits(c.lat_bits), f64::from_bits(c.lon_bits))
}

fn haversine_meters(a: &Location, b: &Location) -> f64 {
    a.haversine_distance_to(b).meters()
}

#[test]
fn test_first_min_index_picks_minimum() {
    assert_eq!(first_min_index(&[7]), 0);
    assert_eq!(first_min_index(&[3, 1, 2, 1]), 1);
    assert_eq!(first_min_index(&[0, 1, 2, 3]), 0);
    assert_eq!(first_min_index(&[3, 2, 1, 0]), 3);
}

#[test]
fn test_first_min_index_ties_go_to_first() {
    assert_eq!(first_min_index(&[5, 5]), 0);
    assert_eq!(first_min_index(&[9, 4, 4, 9]), 1);
}

#[test]
fn test_tie_break_follows_candidate_order() {
    // UsEast1 and UsGovEast1 share the same baked coordinate, so their
    // distances to any query are exactly equal: the first candidate in the
    // list must win, in either order.
    assert_eq!(AwsRegion::UsEast1.location(), AwsRegion::UsGovEast1.location());
    let query = Location::new(40.7128, -74.0060);
    let forward = [AwsRegion::UsEast1, AwsRegion::UsGovEast1];
    let backward = [AwsRegion::UsGovEast1, AwsRegion::UsEast1];

    let keys_of = |regions: &[AwsRegion]| -> Vec<u64> {
        regions
            .iter()
            .map(|r| haversine_meters(&location_of(r.location()), &query).to_bits())
            .collect()
    };

    let forward_keys = keys_of(&forward);
    assert_eq!(forward_keys[0], forward_keys[1]);
    assert_eq!(find_region_from_list(&forward, &forward_keys), AwsRegion::UsEast1);

    let backward_keys = keys_of(&backward);
    assert_eq!(find_region_from_list(&backward, &backward_keys), AwsRegion::UsGovEast1);
}

#[test]
fn test_nearest_result_minimizes_distance() {
    let query = Location::new(48.2082, 16.3738);
    let regions = AwsRegion::iter();
    let keys: Vec<u64> = regions
        .iter()
        .map(|r| haversine_meters(&location_of(r.location()), &query).to_bits())
        .collect();
    let nearest = find_region_from_list(&regions, &keys);
    let nearest_distance = haversine_meters(&location_of(nearest.location()), &query);
    for region in regions.iter() {
        let distance = haversine_meters(&location_of(region.location()), &query);
        assert!(nearest_distance <= distance);
    }
}

#[test]
fn test_distance_to_self_is_zero() {
    for region in AwsRegion::iter() {
        let location = location_of(region.location());
        assert_eq!(haversine_meters(&location, &location), 0.0);
    }
}

#[test]
fn test_distance_is_symmetric() {
    let regions = AwsRegion::iter();
    for a in regions.iter() {
        for b in regions.iter() {
            let la = location_of(a.location());
            let lb = location_of(b.location());
            assert_eq!(haversine_meters(&la, &lb), haversine_meters(&lb, &la));
        }
    }
}

#[test]
fn test_enumeration_order_is_stable() {
    assert_eq!(AwsRegion::iter(), AwsRegion::iter());
    assert_eq!(
        aws_region_nearby::DenoRegion::iter(),
        aws_region_nearby::DenoRegion::iter()
    );
}
