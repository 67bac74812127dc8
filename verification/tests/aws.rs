use core::str::FromStr;

use aws_region_nearby::find_region;
use aws_region_nearby::find_region_from_list;
use aws_region_nearby::try_find_region_from_list;
use aws_region_nearby::AwsRegion;
use aws_region_nearby::Coordinate;
use aws_region_nearby::Error;
use geoutils::Location;

fn location_of(c: Coordinate) -> Location {
    Location::new(f64::from_bits(c.lat_bits), f64::from_bits(c.lon_bits))
}

fn distance_to(region: AwsRegion, to: &Location) -> f64 {
    location_of(region.location()).haversine_distance_to(to).meters()
}

fn distance_keys(to: &Location, regions: &[AwsRegion]) -> Vec<u64> {
    regions.iter().map(|r| distance_to(*r, to).to_bits()).collect()
}

fn nearest(latitude: f64, longitude: f64) -> AwsRegion {
    let location = Location::new(latitude, longitude);
    let regions = AwsRegion::iter();
    let keys = distance_keys(&location, &regions);
    find_region(&keys)
}

fn nearest_from_list(latitude: f64, longitude: f64, regions: &[AwsRegion]) -> AwsRegion {
    let location = Location::new(latitude, longitude);
    let keys = distance_keys(&location, regions);
    find_region_from_list(regions, &keys)
}

#[test]
fn aws_test_region_name() {
    assert_eq!(AwsRegion::EuCentral1.name(), "eu-central-1");
    assert_eq!(AwsRegion::CnNorthwest1.name(), "cn-northwest-1");
}

#[test]
fn aws_test_region_to_string() {
    assert_eq!(AwsRegion::EuCentral1.to_string(), "eu-central-1");
    assert_eq!(AwsRegion::CnNorthwest1.to_string(), "cn-northwest-1");
}

#[test]
fn aws_test_region_from_str() {
    assert_eq!(AwsRegion::from_str("eu-central-1"), Ok(AwsRegion::EuCentral1));
    assert_eq!("EU-CENTRAL-1".parse(), Ok(AwsRegion::EuCentral1));
    assert_eq!(AwsRegion::parse("eu-central-1"), Ok(AwsRegion::EuCentral1));

    assert_eq!(AwsRegion::from_str("some-fake-region"), Err(Error::InvalidAwsRegion));
}

#[test]
fn aws_test_region_location() {
    let location = location_of(AwsRegion::AfSouth1.location());
    assert_eq!(location, Location::new(-33.9648017883, 18.6016998291));
    assert_eq!(location.latitude(), -33.9648017883);
    assert_eq!(location.longitude(), 18.6016998291);
    assert_eq!(
        AwsRegion::AfSouth1.location(),
        Coordinate::new((-33.9648017883f64).to_bits(), (18.6016998291f64).to_bits())
    );
}

#[test]
fn aws_test_region_distance_to() {
    let region = AwsRegion::EuWest1;
    assert_eq!(distance_to(region, &location_of(region.location())), 0.0);
    assert_eq!(distance_to(region, &location_of(AwsRegion::EuWest2.location())), 448_890.249);
    assert_eq!(distance_to(region, &location_of(AwsRegion::EuWest3.location())), 784_967.795);
}

#[test]
fn aws_test_region_iter() {
    assert_eq!(AwsRegion::iter().first().unwrap().name(), "af-south-1");
    assert_eq!(AwsRegion::iter().last().unwrap().name(), "us-gov-west-1");
    assert_eq!(AwsRegion::iter().len(), 26);
}

#[test]
fn test_find_region() {
    struct Test {
        city: &'static str,
        latitude: f64,
        longitude: f64,
        region: AwsRegion,
    }

    let tests = vec![
        Test {
            city: "Hamburg",
            latitude: 53.5511,
            longitude: 9.9937,
            region: AwsRegion::EuCentral1,
        },
        Test {
            city: "Manchester",
            latitude: 53.4808,
            longitude: -2.2426,
            region: AwsRegion::EuWest2,
        },
        Test {
            city: "Las Vegas",
            latitude: 36.1699,
            longitude: -115.1398,
            region: AwsRegion::UsWest1,
        },
        Test {
            city: "Boston",
            latitude: 42.3601,
            longitude: -71.0589,
            region: AwsRegion::CaCentral1,
        },
        Test {
            city: "Kyoto",
            latitude: 35.0116,
            longitude: 135.7681,
            region: AwsRegion::ApNortheast3,
        },
        Test {
            city: "Cairo",
            latitude: 30.0444,
            longitude: 31.2357,
            region: AwsRegion::MeSouth1,
        },
    ];

    for t in tests.iter() {
        let region = nearest(t.latitude, t.longitude);
        assert_eq!(region, t.region, "{}", t.city);
    }
}

#[test]
fn aws_test_find_region_from_list() {
    struct Test {
        city: &'static str,
        latitude: f64,
        longitude: f64,
        list: Vec<AwsRegion>,
        region: AwsRegion,
    }

    let tests = vec![
        Test {
            city: "Hamburg",
            latitude: 53.5511,
            longitude: 9.9937,
            list: vec![AwsRegion::EuWest1, AwsRegion::EuCentral1, AwsRegion::EuSouth1],
            region: AwsRegion::EuCentral1,
        },
        Test {
            city: "Manchester",
            latitude: 53.4808,
            longitude: -2.2426,
            list: vec![AwsRegion::UsEast1, AwsRegion::UsWest1],
            region: AwsRegion::UsEast1,
        },
        Test {
            city: "Las Vegas",
            latitude: 36.1699,
            longitude: -115.1398,
            list: vec![AwsRegion::UsGovEast1, AwsRegion::UsGovWest1],
            region: AwsRegion::UsGovWest1,
        },
        Test {
            city: "Boston",
            latitude: 42.3601,
            longitude: -71.0589,
            list: vec![AwsRegion::CaCentral1, AwsRegion::CaCentral1],
            region: AwsRegion::CaCentral1,
        },
        Test {
            city: "Kyoto",
            latitude: 35.0116,
            longitude: 135.7681,
            list: vec![AwsRegion::ApEast1, AwsRegion::ApNortheast3],
            region: AwsRegion::ApNortheast3,
        },
        Test {
            city: "Cairo",
            latitude: 30.0444,
            longitude: 31.2357,
            list: vec![AwsRegion::EuWest2, AwsRegion::EuWest3],
            region: AwsRegion::EuWest3,
        },
    ];

    for t in tests.iter() {
        let region = nearest_from_list(t.latitude, t.longitude, &t.list);
        assert_eq!(region, t.region, "{}", t.city);
    }
}

#[test]
fn test_find_region_from_empty_list_is_none() {
    assert_eq!(try_find_region_from_list(&[], &[]), None);
}

#[test]
fn test_round_trip_all_aws_regions() {
    for region in AwsRegion::iter() {
        let name = region.name();
        assert_eq!(AwsRegion::parse(name), Ok(region));
        assert_eq!(AwsRegion::parse(&name.to_uppercase()), Ok(region));
    }
}

#[test]
fn test_aws_names_pairwise_distinct() {
    let regions = AwsRegion::iter();
    for a in regions.iter() {
        for b in regions.iter() {
            if a != b {
                assert_ne!(a.name(), b.name());
            }
        }
    }
}

#[test]
fn test_aws_coordinates_in_range() {
    for region in AwsRegion::iter() {
        let location = location_of(region.location());
        assert!(location.latitude() >= -90.0 && location.latitude() <= 90.0);
        assert!(location.longitude() >= -180.0 && location.longitude() <= 180.0);
    }
}

#[test]
fn test_error_messages() {
    assert_eq!(Error::InvalidRegion.message(), "invalid AWS region");
    assert_eq!(Error::InvalidAwsRegion.message(), "invalid AWS region");
    assert_eq!(Error::InvalidDenoRegion.message(), "invalid Deno Deploy region");
}
