use core::str::FromStr;

use aws_region_nearby::AwsRegion;
use aws_region_nearby::Coordinate;
use aws_region_nearby::DenoRegion;
use aws_region_nearby::Error;
use geoutils::Location;

fn location_of(c: Coordinate) -> Location {
    Location::new(f64::from_bits(c.lat_bits), f64::from_bits(c.lon_bits))
}

fn deno_distance_to(region: DenoRegion, to: &Location) -> f64 {
    location_of(region.location()).haversine_distance_to(to).meters()
}

fn deno_nearest_from_list(region: DenoRegion, regions: &[AwsRegion]) -> AwsRegion {
    let location = location_of(region.location());
    let keys: Vec<u64> = regions
        .iter()
        .map(|r| {
            location_of(r.location())
                .haversine_distance_to(&location)
                .meters()
                .to_bits()
        })
        .collect();
    region.find_region_from_list(regions, &keys)
}

#[test]
fn deno_test_region_name() {
    assert_eq!(DenoRegion::EuropeCentral2.name(), "europe-central2");
    assert_eq!(DenoRegion::UsSouth1.name(), "us-south1");
}

#[test]
fn deno_test_region_to_string() {
    assert_eq!(DenoRegion::EuropeCentral2.to_string(), "europe-central2");
    assert_eq!(DenoRegion::UsSouth1.to_string(), "us-south1");
}

#[test]
fn deno_test_region_from_str() {
    assert_eq!(DenoRegion::from_str("europe-central2"), Ok(DenoRegion::EuropeCentral2));
    assert_eq!("EUROPE-CENTRAL2".parse(), Ok(DenoRegion::EuropeCentral2));
    assert_eq!(DenoRegion::parse("europe-central2"), Ok(DenoRegion::EuropeCentral2));

    assert_eq!(DenoRegion::from_str("some-fake-region"), Err(Error::InvalidDenoRegion));
}

#[test]
fn deno_test_region_location() {
    let location = location_of(DenoRegion::AsiaNortheast2.location());
    assert_eq!(location, Location::new(34.7520, 135.4582));
    assert_eq!(location.latitude(), 34.7520);
    assert_eq!(location.longitude(), 135.4582);
}

#[test]
fn deno_test_region_distance_to() {
    let region = DenoRegion::EuropeNorth1;
    assert_eq!(deno_distance_to(region, &location_of(region.location())), 0.0);
    assert_eq!(
        deno_distance_to(region, &location_of(AwsRegion::EuWest2.location())),
        1_840_385.671
    );
    assert_eq!(
        deno_distance_to(region, &location_of(AwsRegion::EuWest3.location())),
        1_886_010.429
    );
}

#[test]
fn deno_test_region_iter() {
    assert_eq!(DenoRegion::iter().first().unwrap().name(), "asia-east1");
    assert_eq!(DenoRegion::iter().last().unwrap().name(), "us-west4");
    assert_eq!(DenoRegion::iter().len(), 34);
}

#[test]
fn deno_test_to_aws_region() {
    let region: AwsRegion = DenoRegion::AsiaEast1.into();
    assert_eq!(region, AwsRegion::ApEast1);

    assert_eq!(AwsRegion::from(DenoRegion::AsiaEast1), AwsRegion::ApEast1);

    assert_eq!(Into::<AwsRegion>::into(DenoRegion::AsiaEast1), AwsRegion::ApEast1);
}

#[test]
fn deno_test_find_region_from_list() {
    struct Test {
        deno_region: DenoRegion,
        list: Vec<AwsRegion>,
        aws_region: AwsRegion,
    }

    let tests = vec![
        Test {
            deno_region: DenoRegion::EuropeWest3,
            list: vec![AwsRegion::EuWest1, AwsRegion::EuCentral1, AwsRegion::EuSouth1],
            aws_region: AwsRegion::EuCentral1,
        },
        Test {
            deno_region: DenoRegion::EuropeWest2,
            list: vec![AwsRegion::UsEast1, AwsRegion::UsWest1],
            aws_region: AwsRegion::UsEast1,
        },
        Test {
            deno_region: DenoRegion::UsWest4,
            list: vec![AwsRegion::UsGovEast1, AwsRegion::UsGovWest1],
            aws_region: AwsRegion::UsGovWest1,
        },
        Test {
            deno_region: DenoRegion::UsEast4,
            list: vec![AwsRegion::CaCentral1, AwsRegion::CaCentral1],
            aws_region: AwsRegion::CaCentral1,
        },
        Test {
            deno_region: DenoRegion::AsiaNortheast1,
            list: vec![AwsRegion::ApEast1, AwsRegion::ApNortheast3],
            aws_region: AwsRegion::ApNortheast3,
        },
    ];

    for t in tests {
        assert_eq!(deno_nearest_from_list(t.deno_region, &t.list), t.aws_region);
    }
}

#[test]
fn test_round_trip_all_deno_regions() {
    for region in DenoRegion::iter() {
        let name = region.name();
        assert_eq!(DenoRegion::parse(name), Ok(region));
        assert_eq!(DenoRegion::parse(&name.to_uppercase()), Ok(region));
    }
}

#[test]
fn test_deno_coordinates_in_range() {
    for region in DenoRegion::iter() {
        let location = location_of(region.location());
        assert!(location.latitude() >= -90.0 && location.latitude() <= 90.0);
        assert!(location.longitude() >= -180.0 && location.longitude() <= 180.0);
    }
}

#[test]
fn test_every_deno_region_maps_to_an_aws_region() {
    for region in DenoRegion::iter() {
        let mapped = AwsRegion::from(region);
        assert!(AwsRegion::iter().contains(&mapped));
    }
}
