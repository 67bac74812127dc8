use crate::aws::find_region_from_list;
use crate::aws::AwsRegion;
use crate::coord::Coordinate;
use crate::error::Error;
use crate::names::is_ascii_upper;
use crate::names::lemma_ci_match_unique;
use crate::names::seq_eq_ci;
use crate::names::str_eq_ci;
use crate::nearest::is_first_min;
use vstd::prelude::*;

verus! {

/// A Deno Deploy region.
#[derive(Debug, Copy, Clone, PartialEq, Eq, Structural)]
pub enum DenoRegion {
    /// Taiwan
    AsiaEast1,
    /// Hong Kong
    AsiaEast2,
    /// Tokyo
    AsiaNortheast1,
    /// Osaka
    AsiaNortheast2,
    /// Seoul
    AsiaNortheast3,
    /// Mumbai
    AsiaSouth1,
    /// Delhi
    AsiaSouth2,
    /// Singapore
    AsiaSoutheast1,
    /// Jakarta
    AsiaSoutheast2,
    /// Sydney
    AustraliaSoutheast1,
    /// Melbourne
    AustraliaSoutheast2,
    /// Warsaw
    EuropeCentral2,
    /// Finland
    EuropeNorth1,
    /// Belgium
    EuropeWest1,
    /// London
    EuropeWest2,
    /// Frankfurt
    EuropeWest3,
    /// Netherlands
    EuropeWest4,
    /// Zurich
    EuropeWest6,
    /// Milan
    EuropeWest8,
    /// Paris
    EuropeWest9,
    /// Madrid
    EuropeSouthwest1,
    /// Montreal
    NorthamericaNortheast1,
    /// Toronto
    NorthamericaNortheast2,
    /// Sao Paulo
    SouthamericaEast1,
    /// Chile
    SouthamericaWest1,
    /// Iowa
    UsCentral1,
    /// South Carolina
    UsEast1,
    /// North Virginia
    UsEast4,
    /// Ohio
    UsEast5,
    /// Texas
    UsSouth1,
    /// Oregon
    UsWest1,
    /// California
    UsWest2,
    /// Utah
    UsWest3,
    /// Nevada
    UsWest4,
}

impl DenoRegion {
    /// The canonical lowercase name of the region.
    pub open spec fn spec_name(self) -> Seq<char> {
        match self {
            DenoRegion::AsiaEast1 => "asia-east1"@,
            DenoRegion::AsiaEast2 => "asia-east2"@,
            DenoRegion::AsiaNortheast1 => "asia-northeast1"@,
            DenoRegion::AsiaNortheast2 => "asia-northeast2"@,
            DenoRegion::AsiaNortheast3 => "asia-northeast3"@,
            DenoRegion::AsiaSouth1 => "asia-south1"@,
            DenoRegion::AsiaSouth2 => "asia-south2"@,
            DenoRegion::AsiaSoutheast1 => "asia-southeast1"@,
            DenoRegion::AsiaSoutheast2 => "asia-southeast2"@,
            DenoRegion::AustraliaSoutheast1 => "australia-southeast1"@,
            DenoRegion::AustraliaSoutheast2 => "australia-southeast2"@,
            DenoRegion::EuropeCentral2 => "europe-central2"@,
            DenoRegion::EuropeNorth1 => "europe-north1"@,
            DenoRegion::EuropeWest1 => "europe-west1"@,
            DenoRegion::EuropeWest2 => "europe-west2"@,
            DenoRegion::EuropeWest3 => "europe-west3"@,
            DenoRegion::EuropeWest4 => "europe-west4"@,
            DenoRegion::EuropeWest6 => "europe-west6"@,
            DenoRegion::EuropeWest8 => "europe-west8"@,
            DenoRegion::EuropeWest9 => "europe-west9"@,
            DenoRegion::EuropeSouthwest1 => "europe-southwest1"@,
            DenoRegion::NorthamericaNortheast1 => "northamerica-northeast1"@,
            DenoRegion::NorthamericaNortheast2 => "northamerica-northeast2"@,
            DenoRegion::SouthamericaEast1 => "southamerica-east1"@,
            DenoRegion::SouthamericaWest1 => "southamerica-west1"@,
            DenoRegion::UsCentral1 => "us-central1"@,
            DenoRegion::UsEast1 => "us-east1"@,
            DenoRegion::UsEast4 => "us-east4"@,
            DenoRegion::UsEast5 => "us-east5"@,
            DenoRegion::UsSouth1 => "us-south1"@,
            DenoRegion::UsWest1 => "us-west1"@,
            DenoRegion::UsWest2 => "us-west2"@,
            DenoRegion::UsWest3 => "us-west3"@,
            DenoRegion::UsWest4 => "us-west4"@,
        }
    }

    /// The fixed coordinate of the region, as IEEE 754 bit patterns of
    /// the latitude and longitude in decimal degrees.
    pub open spec fn spec_location(self) -> Coordinate {
        match self {
            DenoRegion::AsiaEast1 => (Coordinate { lat_bits: 0x40390C3C9EECBFB1, lon_bits: 0x405E620AA64C2F83 }),
            DenoRegion::AsiaEast2 => (Coordinate { lat_bits: 0x40364E90FF972474, lon_bits: 0x405C8BB7E90FF972 }),
            DenoRegion::AsiaNortheast1 => (Coordinate { lat_bits: 0x4041D78A0902DE01, lon_bits: 0x406178C7E28240B8 }),
            DenoRegion::AsiaNortheast2 => (Coordinate { lat_bits: 0x4041604189374BC7, lon_bits: 0x4060EEA9930BE0DF }),
            DenoRegion::AsiaNortheast3 => (Coordinate { lat_bits: 0x4042C7AE147AE148, lon_bits: 0x405FBF5C28F5C28F }),
            DenoRegion::AsiaSouth1 => (Coordinate { lat_bits: 0x40331367A0F9096C, lon_bits: 0x40523828F5C28F5C }),
            DenoRegion::AsiaSouth2 => (Coordinate { lat_bits: 0x403CAAACD9E83E42, lon_bits: 0x40534DDE69AD42C4 }),
            DenoRegion::AsiaSoutheast1 => (Coordinate { lat_bits: 0x3FF4CCCCCCCCCCCD, lon_bits: 0x4059F33333333333 }),
            DenoRegion::AsiaSoutheast2 => (Coordinate { lat_bits: 0xC018DBC01A36E2EB, lon_bits: 0x405AB6161E4F7660 }),
            DenoRegion::AustraliaSoutheast1 => (Coordinate { lat_bits: 0xC040EEB851EB851F, lon_bits: 0x4062E6B367A0F909 }),
            DenoRegion::AustraliaSoutheast2 => (Coordinate { lat_bits: 0xC042E8240B780347, lon_bits: 0x40621ED0E5604189 }),
            DenoRegion::EuropeCentral2 => (Coordinate { lat_bits: 0x404A1D70A3D70A3D, lon_bits: 0x403502D77318FC50 }),
            DenoRegion::EuropeNorth1 => (Coordinate { lat_bits: 0x404E167A0F9096BC, lon_bits: 0x4038EF27BB2FEC57 }),
            DenoRegion::EuropeWest1 => (Coordinate { lat_bits: 0x40496AEB1C432CA5, lon_bits: 0x4011535A858793DE }),
            DenoRegion::EuropeWest2 => (Coordinate { lat_bits: 0x4049C0EBEDFA43FE, lon_bits: 0xBFC051EB851EB852 }),
            DenoRegion::EuropeWest3 => (Coordinate { lat_bits: 0x40490E8A71DE69AD, lon_bits: 0x40215C01A36E2EB2 }),
            DenoRegion::EuropeWest4 => (Coordinate { lat_bits: 0x404A2EF0068DB8BB, lon_bits: 0x4013887FCB923A2A }),
            DenoRegion::EuropeWest6 => (Coordinate { lat_bits: 0x4047AFEC56D5CFAB, lon_bits: 0x4021150B0F27BB30 }),
            DenoRegion::EuropeWest8 => (Coordinate { lat_bits: 0x4046BBC36113404F, lon_bits: 0x40226147AE147AE1 }),
            DenoRegion::EuropeWest9 => (Coordinate { lat_bits: 0x40486DA5119CE076, lon_bits: 0x4002D14E3BCD35A8 }),
            DenoRegion::EuropeSouthwest1 => (Coordinate { lat_bits: 0x404435566CF41F21, lon_bits: 0xC00DBBCD35A85879 }),
            DenoRegion::NorthamericaNortheast1 => (Coordinate { lat_bits: 0x4046C123A29C779A, lon_bits: 0xC05263F2E48E8A72 }),
            DenoRegion::NorthamericaNortheast2 => (Coordinate { lat_bits: 0x4045DEF0068DB8BB, lon_bits: 0xC053D7E425AEE632 }),
            DenoRegion::SouthamericaEast1 => (Coordinate { lat_bits: 0xC0378CE703AFB7E9, lon_bits: 0xC0475123A29C779A }),
            DenoRegion::SouthamericaWest1 => (Coordinate { lat_bits: 0xC040B9999999999A, lon_bits: 0xC051AAAB367A0F91 }),
            DenoRegion::UsCentral1 => (Coordinate { lat_bits: 0x4044C947AE147AE1, lon_bits: 0xC05767126E978D50 }),
            DenoRegion::UsEast1 => (Coordinate { lat_bits: 0x404104D013A92A30, lon_bits: 0xC05439D63886594B }),
            DenoRegion::UsEast4 => (Coordinate { lat_bits: 0x404383D70A3D70A4, lon_bits: 0xC0535E26809D4952 }),
            DenoRegion::UsEast5 => (Coordinate { lat_bits: 0x4043FE3BCD35A858, lon_bits: 0xC054BF0A3D70A3D7 }),
            DenoRegion::UsSouth1 => (Coordinate { lat_bits: 0x403E4CE703AFB7E9, lon_bits: 0xC05870240B780347 }),
            DenoRegion::UsWest1 => (Coordinate { lat_bits: 0x4046C37B4A2339C1, lon_bits: 0xC05EBBE90FF97247 }),
            DenoRegion::UsWest2 => (Coordinate { lat_bits: 0x4042E0CB295E9E1B, lon_bits: 0xC05E9C5A1CAC0831 }),
            DenoRegion::UsWest3 => (Coordinate { lat_bits: 0x4044638BAC710CB3, lon_bits: 0xC05BFB8EF34D6A16 }),
            DenoRegion::UsWest4 => (Coordinate { lat_bits: 0x4043935A858793DE, lon_bits: 0xC05DEFD566CF41F2 }),
        }
    }

    /// The AWS region that the catalog pairs with this region. This is
    /// the curated static table of the catalog, chosen editorially for
    /// practical proximity; it is baked in, not computed from coordinates.
    pub open spec fn spec_to_primary(self) -> AwsRegion {
        match self {
            DenoRegion::AsiaEast1 => AwsRegion::ApEast1,  // assuming Taipei City
            DenoRegion::AsiaEast2 => AwsRegion::ApEast1,
            DenoRegion::AsiaNortheast1 => AwsRegion::ApNortheast1,
            DenoRegion::AsiaNortheast2 => AwsRegion::ApNortheast3,
            DenoRegion::AsiaNortheast3 => AwsRegion::ApNortheast2,
            DenoRegion::AsiaSouth1 => AwsRegion::ApSouth1,
            DenoRegion::AsiaSouth2 => AwsRegion::ApSouth1,
            DenoRegion::AsiaSoutheast1 => AwsRegion::ApSoutheast1,
            DenoRegion::AsiaSoutheast2 => AwsRegion::ApSoutheast3,
            DenoRegion::AustraliaSoutheast1 => AwsRegion::ApSoutheast2,
            DenoRegion::AustraliaSoutheast2 => AwsRegion::ApSoutheast2,
            DenoRegion::EuropeCentral2 => AwsRegion::EuNorth1,
            DenoRegion::EuropeNorth1 => AwsRegion::EuNorth1,  // assuming Helsinki
            DenoRegion::EuropeWest1 => AwsRegion::EuWest3,  // assuming Brussels
            DenoRegion::EuropeWest2 => AwsRegion::EuWest2,
            DenoRegion::EuropeWest3 => AwsRegion::EuCentral1,
            DenoRegion::EuropeWest4 => AwsRegion::EuCentral1,  // assuming Amsterdam
            DenoRegion::EuropeWest6 => AwsRegion::EuSouth1,
            DenoRegion::EuropeWest8 => AwsRegion::EuSouth1,
            DenoRegion::EuropeWest9 => AwsRegion::EuWest3,
            DenoRegion::EuropeSouthwest1 => AwsRegion::EuSouth1,
            DenoRegion::NorthamericaNortheast1 => AwsRegion::CaCentral1,
            DenoRegion::NorthamericaNortheast2 => AwsRegion::CaCentral1,
            DenoRegion::SouthamericaEast1 => AwsRegion::SaEast1,
            DenoRegion::SouthamericaWest1 => AwsRegion::SaEast1,  // assuming Santiago
            DenoRegion::UsCentral1 => AwsRegion::UsEast2,  // assuming Des Moines, IA
            DenoRegion::UsEast1 => AwsRegion::UsEast1,  // assuming Columbia, SC
            DenoRegion::UsEast4 => AwsRegion::UsEast1,
            DenoRegion::UsEast5 => AwsRegion::UsEast2,
            DenoRegion::UsSouth1 => AwsRegion::UsEast2,  // assuming Austin, TX
            DenoRegion::UsWest1 => AwsRegion::UsWest2,
            DenoRegion::UsWest2 => AwsRegion::UsWest1,
            DenoRegion::UsWest3 => AwsRegion::UsWest1,  // assuming Salt Lake City, UT
            DenoRegion::UsWest4 => AwsRegion::UsWest1,  // assuming Carson City, NV
        }
    }

    /// Every region, in the fixed declaration order of the catalog.
    pub open spec fn spec_all_regions() -> Seq<DenoRegion> {
        seq![
            DenoRegion::AsiaEast1,
            DenoRegion::AsiaEast2,
            DenoRegion::AsiaNortheast1,
            DenoRegion::AsiaNortheast2,
            DenoRegion::AsiaNortheast3,
            DenoRegion::AsiaSouth1,
            DenoRegion::AsiaSouth2,
            DenoRegion::AsiaSoutheast1,
            DenoRegion::AsiaSoutheast2,
            DenoRegion::AustraliaSoutheast1,
            DenoRegion::AustraliaSoutheast2,
            DenoRegion::EuropeCentral2,
            DenoRegion::EuropeNorth1,
            DenoRegion::EuropeWest1,
            DenoRegion::EuropeWest2,
            DenoRegion::EuropeWest3,
            DenoRegion::EuropeWest4,
            DenoRegion::EuropeWest6,
            DenoRegion::EuropeWest8,
            DenoRegion::EuropeWest9,
            DenoRegion::EuropeSouthwest1,
            DenoRegion::NorthamericaNortheast1,
            DenoRegion::NorthamericaNortheast2,
            DenoRegion::SouthamericaEast1,
            DenoRegion::SouthamericaWest1,
            DenoRegion::UsCentral1,
            DenoRegion::UsEast1,
            DenoRegion::UsEast4,
            DenoRegion::UsEast5,
            DenoRegion::UsSouth1,
            DenoRegion::UsWest1,
            DenoRegion::UsWest2,
            DenoRegion::UsWest3,
            DenoRegion::UsWest4,
        ]
    }

    /// Returns every region, always in the same fixed catalog order.
    pub fn iter() -> (regions: Vec<DenoRegion>)
        ensures
            regions@ == DenoRegion::spec_all_regions(),
    {
        let mut regions: Vec<DenoRegion> = Vec::new();
        regions.push(DenoRegion::AsiaEast1);
        regions.push(DenoRegion::AsiaEast2);
        regions.push(DenoRegion::AsiaNortheast1);
        regions.push(DenoRegion::AsiaNortheast2);
        regions.push(DenoRegion::AsiaNortheast3);
        regions.push(DenoRegion::AsiaSouth1);
        regions.push(DenoRegion::AsiaSouth2);
        regions.push(DenoRegion::AsiaSoutheast1);
        regions.push(DenoRegion::AsiaSoutheast2);
        regions.push(DenoRegion::AustraliaSoutheast1);
        regions.push(DenoRegion::AustraliaSoutheast2);
        regions.push(DenoRegion::EuropeCentral2);
        regions.push(DenoRegion::EuropeNorth1);
        regions.push(DenoRegion::EuropeWest1);
        regions.push(DenoRegion::EuropeWest2);
        regions.push(DenoRegion::EuropeWest3);
        regions.push(DenoRegion::EuropeWest4);
        regions.push(DenoRegion::EuropeWest6);
        regions.push(DenoRegion::EuropeWest8);
        regions.push(DenoRegion::EuropeWest9);
        regions.push(DenoRegion::EuropeSouthwest1);
        regions.push(DenoRegion::NorthamericaNortheast1);
        regions.push(DenoRegion::NorthamericaNortheast2);
        regions.push(DenoRegion::SouthamericaEast1);
        regions.push(DenoRegion::SouthamericaWest1);
        regions.push(DenoRegion::UsCentral1);
        regions.push(DenoRegion::UsEast1);
        regions.push(DenoRegion::UsEast4);
        regions.push(DenoRegion::UsEast5);
        regions.push(DenoRegion::UsSouth1);
        regions.push(DenoRegion::UsWest1);
        regions.push(DenoRegion::UsWest2);
        regions.push(DenoRegion::UsWest3);
        regions.push(DenoRegion::UsWest4);
        proof {
            assert(regions@ =~= DenoRegion::spec_all_regions());
        }
        regions
    }

    /// Returns the name of the region.
    pub fn name(&self) -> (r: &'static str)
        ensures
            r@ == self.spec_name(),
    {
        match *self {
            DenoRegion::AsiaEast1 => "asia-east1",
            DenoRegion::AsiaEast2 => "asia-east2",
            DenoRegion::AsiaNortheast1 => "asia-northeast1",
            DenoRegion::AsiaNortheast2 => "asia-northeast2",
            DenoRegion::AsiaNortheast3 => "asia-northeast3",
            DenoRegion::AsiaSouth1 => "asia-south1",
            DenoRegion::AsiaSouth2 => "asia-south2",
            DenoRegion::AsiaSoutheast1 => "asia-southeast1",
            DenoRegion::AsiaSoutheast2 => "asia-southeast2",
            DenoRegion::AustraliaSoutheast1 => "australia-southeast1",
            DenoRegion::AustraliaSoutheast2 => "australia-southeast2",
            DenoRegion::EuropeCentral2 => "europe-central2",
            DenoRegion::EuropeNorth1 => "europe-north1",
            DenoRegion::EuropeWest1 => "europe-west1",
            DenoRegion::EuropeWest2 => "europe-west2",
            DenoRegion::EuropeWest3 => "europe-west3",
            DenoRegion::EuropeWest4 => "europe-west4",
            DenoRegion::EuropeWest6 => "europe-west6",
            DenoRegion::EuropeWest8 => "europe-west8",
            DenoRegion::EuropeWest9 => "europe-west9",
            DenoRegion::EuropeSouthwest1 => "europe-southwest1",
            DenoRegion::NorthamericaNortheast1 => "northamerica-northeast1",
            DenoRegion::NorthamericaNortheast2 => "northamerica-northeast2",
            DenoRegion::SouthamericaEast1 => "southamerica-east1",
            DenoRegion::SouthamericaWest1 => "southamerica-west1",
            DenoRegion::UsCentral1 => "us-central1",
            DenoRegion::UsEast1 => "us-east1",
            DenoRegion::UsEast4 => "us-east4",
            DenoRegion::UsEast5 => "us-east5",
            DenoRegion::UsSouth1 => "us-south1",
            DenoRegion::UsWest1 => "us-west1",
            DenoRegion::UsWest2 => "us-west2",
            DenoRegion::UsWest3 => "us-west3",
            DenoRegion::UsWest4 => "us-west4",
        }
    }

    /// Returns the name of the region as an owned string.
    pub fn to_string(&self) -> (r: String)
        ensures
            r@ == self.spec_name(),
    {
        self.name().to_owned()
    }

    /// Returns the location of the region.
    pub fn location(&self) -> (c: Coordinate)
        ensures
            c == self.spec_location(),
    {
        match *self {
            DenoRegion::AsiaEast1 => (Coordinate { lat_bits: 0x40390C3C9EECBFB1, lon_bits: 0x405E620AA64C2F83 }),  // Taipei, Taiwan (25.0478, 121.5319)
            DenoRegion::AsiaEast2 => (Coordinate { lat_bits: 0x40364E90FF972474, lon_bits: 0x405C8BB7E90FF972 }),  // Hong Kong, China (22.3069, 114.1831)
            DenoRegion::AsiaNortheast1 => (Coordinate { lat_bits: 0x4041D78A0902DE01, lon_bits: 0x406178C7E28240B8 }),  // Tokyo, Japan (35.6839, 139.7744)
            DenoRegion::AsiaNortheast2 => (Coordinate { lat_bits: 0x4041604189374BC7, lon_bits: 0x4060EEA9930BE0DF }),  // Osaka, Japan (34.752, 135.4582)
            DenoRegion::AsiaNortheast3 => (Coordinate { lat_bits: 0x4042C7AE147AE148, lon_bits: 0x405FBF5C28F5C28F }),  // Seoul, South Korea (37.56, 126.99)
            DenoRegion::AsiaSouth1 => (Coordinate { lat_bits: 0x40331367A0F9096C, lon_bits: 0x40523828F5C28F5C }),  // Mumbai, India (19.0758, 72.8775)
            DenoRegion::AsiaSouth2 => (Coordinate { lat_bits: 0x403CAAACD9E83E42, lon_bits: 0x40534DDE69AD42C4 }),  // Delhi, India (28.6667, 77.2167)
            DenoRegion::AsiaSoutheast1 => (Coordinate { lat_bits: 0x3FF4CCCCCCCCCCCD, lon_bits: 0x4059F33333333333 }),  // Singapore (1.3, 103.8)
            DenoRegion::AsiaSoutheast2 => (Coordinate { lat_bits: 0xC018DBC01A36E2EB, lon_bits: 0x405AB6161E4F7660 }),  // Jakarta, Indonesia (-6.2146, 106.8451)
            DenoRegion::AustraliaSoutheast1 => (Coordinate { lat_bits: 0xC040EEB851EB851F, lon_bits: 0x4062E6B367A0F909 }),  // Sydney, Australia (-33.865, 151.2094)
            DenoRegion::AustraliaSoutheast2 => (Coordinate { lat_bits: 0xC042E8240B780347, lon_bits: 0x40621ED0E5604189 }),  // Melbourne, Australia (-37.8136, 144.963)
            DenoRegion::EuropeCentral2 => (Coordinate { lat_bits: 0x404A1D70A3D70A3D, lon_bits: 0x403502D77318FC50 }),  // Warsaw, Poland (52.23, 21.0111)
            DenoRegion::EuropeNorth1 => (Coordinate { lat_bits: 0x404E167A0F9096BC, lon_bits: 0x4038EF27BB2FEC57 }),  // Helsinki, Finland (60.1756, 24.9342)
            DenoRegion::EuropeWest1 => (Coordinate { lat_bits: 0x40496AEB1C432CA5, lon_bits: 0x4011535A858793DE }),  // Brussels, Belgium (50.8353, 4.3314)
            DenoRegion::EuropeWest2 => (Coordinate { lat_bits: 0x4049C0EBEDFA43FE, lon_bits: 0xBFC051EB851EB852 }),  // London, United Kingdom (51.5072, -0.1275)
            DenoRegion::EuropeWest3 => (Coordinate { lat_bits: 0x40490E8A71DE69AD, lon_bits: 0x40215C01A36E2EB2 }),  // Frankfurt, Germany (50.1136, 8.6797)
            DenoRegion::EuropeWest4 => (Coordinate { lat_bits: 0x404A2EF0068DB8BB, lon_bits: 0x4013887FCB923A2A }),  // Amsterdam, Netherlands (52.3667, 4.8833)
            DenoRegion::EuropeWest6 => (Coordinate { lat_bits: 0x4047AFEC56D5CFAB, lon_bits: 0x4021150B0F27BB30 }),  // Zurich, Switzerland (47.3744, 8.5411)
            DenoRegion::EuropeWest8 => (Coordinate { lat_bits: 0x4046BBC36113404F, lon_bits: 0x40226147AE147AE1 }),  // Milan, Italy (45.4669, 9.19)
            DenoRegion::EuropeWest9 => (Coordinate { lat_bits: 0x40486DA5119CE076, lon_bits: 0x4002D14E3BCD35A8 }),  // Paris, France (48.8566, 2.3522)
            DenoRegion::EuropeSouthwest1 => (Coordinate { lat_bits: 0x404435566CF41F21, lon_bits: 0xC00DBBCD35A85879 }),  // Madrid, Spain (40.4167, -3.7167)
            DenoRegion::NorthamericaNortheast1 => (Coordinate { lat_bits: 0x4046C123A29C779A, lon_bits: 0xC05263F2E48E8A72 }),  // Montreal, Canada (45.5089, -73.5617)
            DenoRegion::NorthamericaNortheast2 => (Coordinate { lat_bits: 0x4045DEF0068DB8BB, lon_bits: 0xC053D7E425AEE632 }),  // Toronto, Canada (43.7417, -79.3733)
            DenoRegion::SouthamericaEast1 => (Coordinate { lat_bits: 0xC0378CE703AFB7E9, lon_bits: 0xC0475123A29C779A }),  // Sao Paulo, Brazil (-23.5504, -46.6339)
            DenoRegion::SouthamericaWest1 => (Coordinate { lat_bits: 0xC040B9999999999A, lon_bits: 0xC051AAAB367A0F91 }),  // Santiago, Chile (-33.45, -70.6667)
            DenoRegion::UsCentral1 => (Coordinate { lat_bits: 0x4044C947AE147AE1, lon_bits: 0xC05767126E978D50 }),  // Des Moines, Iowa, USA (41.5725, -93.6105)
            DenoRegion::UsEast1 => (Coordinate { lat_bits: 0x404104D013A92A30, lon_bits: 0xC05439D63886594B }),  // Columbia, South Carolina, USA (34.0376, -80.9037)
            DenoRegion::UsEast4 => (Coordinate { lat_bits: 0x404383D70A3D70A4, lon_bits: 0xC0535E26809D4952 }),  // Ashburn, Virginia, USA (39.03, -77.4711)
            DenoRegion::UsEast5 => (Coordinate { lat_bits: 0x4043FE3BCD35A858, lon_bits: 0xC054BF0A3D70A3D7 }),  // Columbus, Ohio, USA (39.9862, -82.985)
            DenoRegion::UsSouth1 => (Coordinate { lat_bits: 0x403E4CE703AFB7E9, lon_bits: 0xC05870240B780347 }),  // Austin, Texas, USA (30.3004, -97.7522)
            DenoRegion::UsWest1 => (Coordinate { lat_bits: 0x4046C37B4A2339C1, lon_bits: 0xC05EBBE90FF97247 }),  // Hillsboro, Oregon, USA (45.5272, -122.9361)
            DenoRegion::UsWest2 => (Coordinate { lat_bits: 0x4042E0CB295E9E1B, lon_bits: 0xC05E9C5A1CAC0831 }),  // San Francisco, California, USA (37.7562, -122.443)
            DenoRegion::UsWest3 => (Coordinate { lat_bits: 0x4044638BAC710CB3, lon_bits: 0xC05BFB8EF34D6A16 }),  // Salt Lake City, Utah, USA (40.7777, -111.9306)
            DenoRegion::UsWest4 => (Coordinate { lat_bits: 0x4043935A858793DE, lon_bits: 0xC05DEFD566CF41F2 }),  // Carson City, Nevada, USA (39.1512, -119.7474)
        }
    }

    /// Finds the nearest AWS region to this region among `regions`, given
    /// one distance key per candidate: `keys[i]` orders the distance from
    /// this region's location to `regions[i]`. The verified core is
    /// float-free, so the caller computes the haversine distances and hands
    /// them in as ordering keys (for non-negative IEEE 754 doubles the bit
    /// pattern is such a key). Returns the candidate with the minimal key;
    /// among equal minimal keys the first in the list wins. The candidate
    /// list must not be empty.
    pub fn find_region_from_list(&self, regions: &[AwsRegion], keys: &[u64]) -> (r: AwsRegion)
        requires
            regions@.len() > 0,
            keys@.len() == regions@.len(),
        ensures
            exists|i: int| #[trigger] is_first_min(keys@, i) && r == regions@[i],
    {
        find_region_from_list(regions, keys)
    }

    /// Parses a region from its canonical name, matched case-insensitively
    /// on ASCII letters. Returns `Ok` exactly when the input matches the
    /// canonical name of some region up to ASCII case, and
    /// `Err(Error::InvalidDenoRegion)` otherwise.
    pub fn parse(s: &str) -> (r: Result<DenoRegion, Error>)
        ensures
            match r {
                Ok(region) => seq_eq_ci(s@, region.spec_name()),
                Err(e) => {
                    &&& e == Error::InvalidDenoRegion
                    &&& forall|region: DenoRegion| !seq_eq_ci(s@, #[trigger] region.spec_name())
                },
            },
    {
        if str_eq_ci(s, "asia-east1") {
            return Ok(DenoRegion::AsiaEast1);
        }
        if str_eq_ci(s, "asia-east2") {
            return Ok(DenoRegion::AsiaEast2);
        }
        if str_eq_ci(s, "asia-northeast1") {
            return Ok(DenoRegion::AsiaNortheast1);
        }
        if str_eq_ci(s, "asia-northeast2") {
            return Ok(DenoRegion::AsiaNortheast2);
        }
        if str_eq_ci(s, "asia-northeast3") {
            return Ok(DenoRegion::AsiaNortheast3);
        }
        if str_eq_ci(s, "asia-south1") {
            return Ok(DenoRegion::AsiaSouth1);
        }
        if str_eq_ci(s, "asia-south2") {
            return Ok(DenoRegion::AsiaSouth2);
        }
        if str_eq_ci(s, "asia-southeast1") {
            return Ok(DenoRegion::AsiaSoutheast1);
        }
        if str_eq_ci(s, "asia-southeast2") {
            return Ok(DenoRegion::AsiaSoutheast2);
        }
        if str_eq_ci(s, "australia-southeast1") {
            return Ok(DenoRegion::AustraliaSoutheast1);
        }
        if str_eq_ci(s, "australia-southeast2") {
            return Ok(DenoRegion::AustraliaSoutheast2);
        }
        if str_eq_ci(s, "europe-central2") {
            return Ok(DenoRegion::EuropeCentral2);
        }
        if str_eq_ci(s, "europe-north1") {
            return Ok(DenoRegion::EuropeNorth1);
        }
        if str_eq_ci(s, "europe-west1") {
            return Ok(DenoRegion::EuropeWest1);
        }
        if str_eq_ci(s, "europe-west2") {
            return Ok(DenoRegion::EuropeWest2);
        }
        if str_eq_ci(s, "europe-west3") {
            return Ok(DenoRegion::EuropeWest3);
        }
        if str_eq_ci(s, "europe-west4") {
            return Ok(DenoRegion::EuropeWest4);
        }
        if str_eq_ci(s, "europe-west6") {
            return Ok(DenoRegion::EuropeWest6);
        }
        if str_eq_ci(s, "europe-west8") {
            return Ok(DenoRegion::EuropeWest8);
        }
        if str_eq_ci(s, "europe-west9") {
            return Ok(DenoRegion::EuropeWest9);
        }
        if str_eq_ci(s, "europe-southwest1") {
            return Ok(DenoRegion::EuropeSouthwest1);
        }
        if str_eq_ci(s, "northamerica-northeast1") {
            return Ok(DenoRegion::NorthamericaNortheast1);
        }
        if str_eq_ci(s, "northamerica-northeast2") {
            return Ok(DenoRegion::NorthamericaNortheast2);
        }
        if str_eq_ci(s, "southamerica-east1") {
            return Ok(DenoRegion::SouthamericaEast1);
        }
        if str_eq_ci(s, "southamerica-west1") {
            return Ok(DenoRegion::SouthamericaWest1);
        }
        if str_eq_ci(s, "us-central1") {
            return Ok(DenoRegion::UsCentral1);
        }
        if str_eq_ci(s, "us-east1") {
            return Ok(DenoRegion::UsEast1);
        }
        if str_eq_ci(s, "us-east4") {
            return Ok(DenoRegion::UsEast4);
        }
        if str_eq_ci(s, "us-east5") {
            return Ok(DenoRegion::UsEast5);
        }
        if str_eq_ci(s, "us-south1") {
            return Ok(DenoRegion::UsSouth1);
        }
        if str_eq_ci(s, "us-west1") {
            return Ok(DenoRegion::UsWest1);
        }
        if str_eq_ci(s, "us-west2") {
            return Ok(DenoRegion::UsWest2);
        }
        if str_eq_ci(s, "us-west3") {
            return Ok(DenoRegion::UsWest3);
        }
        if str_eq_ci(s, "us-west4") {
            return Ok(DenoRegion::UsWest4);
        }
        Err(Error::InvalidDenoRegion)
    }
}

impl core::str::FromStr for DenoRegion {
    type Err = Error;

    fn from_str(s: &str) -> Result<DenoRegion, Error> {
        DenoRegion::parse(s)
    }
}

impl vstd::std_specs::convert::FromSpecImpl<DenoRegion> for AwsRegion {
    open spec fn obeys_from_spec() -> bool {
        true
    }

    open spec fn from_spec(region: DenoRegion) -> AwsRegion {
        region.spec_to_primary()
    }
}

impl From<DenoRegion> for AwsRegion {
    /// Maps a Deno Deploy region to its curated AWS region, the fixed
    /// table of `DenoRegion::spec_to_primary`.
    fn from(region: DenoRegion) -> (r: AwsRegion) {
        match region {
            DenoRegion::AsiaEast1 => AwsRegion::ApEast1,
            DenoRegion::AsiaEast2 => AwsRegion::ApEast1,
            DenoRegion::AsiaNortheast1 => AwsRegion::ApNortheast1,
            DenoRegion::AsiaNortheast2 => AwsRegion::ApNortheast3,
            DenoRegion::AsiaNortheast3 => AwsRegion::ApNortheast2,
            DenoRegion::AsiaSouth1 => AwsRegion::ApSouth1,
            DenoRegion::AsiaSouth2 => AwsRegion::ApSouth1,
            DenoRegion::AsiaSoutheast1 => AwsRegion::ApSoutheast1,
            DenoRegion::AsiaSoutheast2 => AwsRegion::ApSoutheast3,
            DenoRegion::AustraliaSoutheast1 => AwsRegion::ApSoutheast2,
            DenoRegion::AustraliaSoutheast2 => AwsRegion::ApSoutheast2,
            DenoRegion::EuropeCentral2 => AwsRegion::EuNorth1,
            DenoRegion::EuropeNorth1 => AwsRegion::EuNorth1,
            DenoRegion::EuropeWest1 => AwsRegion::EuWest3,
            DenoRegion::EuropeWest2 => AwsRegion::EuWest2,
            DenoRegion::EuropeWest3 => AwsRegion::EuCentral1,
            DenoRegion::EuropeWest4 => AwsRegion::EuCentral1,
            DenoRegion::EuropeWest6 => AwsRegion::EuSouth1,
            DenoRegion::EuropeWest8 => AwsRegion::EuSouth1,
            DenoRegion::EuropeWest9 => AwsRegion::EuWest3,
            DenoRegion::EuropeSouthwest1 => AwsRegion::EuSouth1,
            DenoRegion::NorthamericaNortheast1 => AwsRegion::CaCentral1,
            DenoRegion::NorthamericaNortheast2 => AwsRegion::CaCentral1,
            DenoRegion::SouthamericaEast1 => AwsRegion::SaEast1,
            DenoRegion::SouthamericaWest1 => AwsRegion::SaEast1,
            DenoRegion::UsCentral1 => AwsRegion::UsEast2,
            DenoRegion::UsEast1 => AwsRegion::UsEast1,
            DenoRegion::UsEast4 => AwsRegion::UsEast1,
            DenoRegion::UsEast5 => AwsRegion::UsEast2,
            DenoRegion::UsSouth1 => AwsRegion::UsEast2,
            DenoRegion::UsWest1 => AwsRegion::UsWest2,
            DenoRegion::UsWest2 => AwsRegion::UsWest1,
            DenoRegion::UsWest3 => AwsRegion::UsWest1,
            DenoRegion::UsWest4 => AwsRegion::UsWest1,
        }
    }
}

/// No ASCII uppercase letter occurs in a canonical Deno Deploy region name.
pub proof fn lemma_deno_names_lower(r: DenoRegion)
    ensures
        forall|i: int|
            0 <= i < r.spec_name().len() ==> !is_ascii_upper(#[trigger] r.spec_name()[i]),
{
    reveal_strlit("asia-east1");
    reveal_strlit("asia-east2");
    reveal_strlit("asia-northeast1");
    reveal_strlit("asia-northeast2");
    reveal_strlit("asia-northeast3");
    reveal_strlit("asia-south1");
    reveal_strlit("asia-south2");
    reveal_strlit("asia-southeast1");
    reveal_strlit("asia-southeast2");
    reveal_strlit("australia-southeast1");
    reveal_strlit("australia-southeast2");
    reveal_strlit("europe-central2");
    reveal_strlit("europe-north1");
    reveal_strlit("europe-west1");
    reveal_strlit("europe-west2");
    reveal_strlit("europe-west3");
    reveal_strlit("europe-west4");
    reveal_strlit("europe-west6");
    reveal_strlit("europe-west8");
    reveal_strlit("europe-west9");
    reveal_strlit("europe-southwest1");
    reveal_strlit("northamerica-northeast1");
    reveal_strlit("northamerica-northeast2");
    reveal_strlit("southamerica-east1");
    reveal_strlit("southamerica-west1");
    reveal_strlit("us-central1");
    reveal_strlit("us-east1");
    reveal_strlit("us-east4");
    reveal_strlit("us-east5");
    reveal_strlit("us-south1");
    reveal_strlit("us-west1");
    reveal_strlit("us-west2");
    reveal_strlit("us-west3");
    reveal_strlit("us-west4");
}

/// Distinct Deno Deploy regions have distinct canonical names.
pub proof fn lemma_deno_names_distinct(a: DenoRegion, b: DenoRegion)
    requires
        a != b,
    ensures
        a.spec_name() != b.spec_name(),
{
    reveal_strlit("asia-east1");
    reveal_strlit("asia-east2");
    reveal_strlit("asia-northeast1");
    reveal_strlit("asia-northeast2");
    reveal_strlit("asia-northeast3");
    reveal_strlit("asia-south1");
    reveal_strlit("asia-south2");
    reveal_strlit("asia-southeast1");
    reveal_strlit("asia-southeast2");
    reveal_strlit("australia-southeast1");
    reveal_strlit("australia-southeast2");
    reveal_strlit("europe-central2");
    reveal_strlit("europe-north1");
    reveal_strlit("europe-west1");
    reveal_strlit("europe-west2");
    reveal_strlit("europe-west3");
    reveal_strlit("europe-west4");
    reveal_strlit("europe-west6");
    reveal_strlit("europe-west8");
    reveal_strlit("europe-west9");
    reveal_strlit("europe-southwest1");
    reveal_strlit("northamerica-northeast1");
    reveal_strlit("northamerica-northeast2");
    reveal_strlit("southamerica-east1");
    reveal_strlit("southamerica-west1");
    reveal_strlit("us-central1");
    reveal_strlit("us-east1");
    reveal_strlit("us-east4");
    reveal_strlit("us-east5");
    reveal_strlit("us-south1");
    reveal_strlit("us-west1");
    reveal_strlit("us-west2");
    reveal_strlit("us-west3");
    reveal_strlit("us-west4");
    assert(DenoRegion::AsiaEast1.spec_name().len() == 10);
    assert(DenoRegion::AsiaEast2.spec_name().len() == 10);
    assert(DenoRegion::AsiaNortheast1.spec_name().len() == 15);
    assert(DenoRegion::AsiaNortheast2.spec_name().len() == 15);
    assert(DenoRegion::AsiaNortheast3.spec_name().len() == 15);
    assert(DenoRegion::AsiaSouth1.spec_name().len() == 11);
    assert(DenoRegion::AsiaSouth2.spec_name().len() == 11);
    assert(DenoRegion::AsiaSoutheast1.spec_name().len() == 15);
    assert(DenoRegion::AsiaSoutheast2.spec_name().len() == 15);
    assert(DenoRegion::AustraliaSoutheast1.spec_name().len() == 20);
    assert(DenoRegion::AustraliaSoutheast2.spec_name().len() == 20);
    assert(DenoRegion::EuropeCentral2.spec_name().len() == 15);
    assert(DenoRegion::EuropeNorth1.spec_name().len() == 13);
    assert(DenoRegion::EuropeWest1.spec_name().len() == 12);
    assert(DenoRegion::EuropeWest2.spec_name().len() == 12);
    assert(DenoRegion::EuropeWest3.spec_name().len() == 12);
    assert(DenoRegion::EuropeWest4.spec_name().len() == 12);
    assert(DenoRegion::EuropeWest6.spec_name().len() == 12);
    assert(DenoRegion::EuropeWest8.spec_name().len() == 12);
    assert(DenoRegion::EuropeWest9.spec_name().len() == 12);
    assert(DenoRegion::EuropeSouthwest1.spec_name().len() == 17);
    assert(DenoRegion::NorthamericaNortheast1.spec_name().len() == 23);
    assert(DenoRegion::NorthamericaNortheast2.spec_name().len() == 23);
    assert(DenoRegion::SouthamericaEast1.spec_name().len() == 18);
    assert(DenoRegion::SouthamericaWest1.spec_name().len() == 18);
    assert(DenoRegion::UsCentral1.spec_name().len() == 11);
    assert(DenoRegion::UsEast1.spec_name().len() == 8);
    assert(DenoRegion::UsEast4.spec_name().len() == 8);
    assert(DenoRegion::UsEast5.spec_name().len() == 8);
    assert(DenoRegion::UsSouth1.spec_name().len() == 9);
    assert(DenoRegion::UsWest1.spec_name().len() == 8);
    assert(DenoRegion::UsWest2.spec_name().len() == 8);
    assert(DenoRegion::UsWest3.spec_name().len() == 8);
    assert(DenoRegion::UsWest4.spec_name().len() == 8);
    assert(DenoRegion::AsiaEast1.spec_name()[9] == '1');
    assert(DenoRegion::AsiaEast2.spec_name()[9] == '2');
    assert(DenoRegion::AsiaNortheast1.spec_name()[0] == 'a');
    assert(DenoRegion::AsiaNortheast1.spec_name()[5] == 'n');
    assert(DenoRegion::AsiaNortheast1.spec_name()[14] == '1');
    assert(DenoRegion::AsiaNortheast2.spec_name()[0] == 'a');
    assert(DenoRegion::AsiaNortheast2.spec_name()[5] == 'n');
    assert(DenoRegion::AsiaNortheast2.spec_name()[14] == '2');
    assert(DenoRegion::AsiaNortheast3.spec_name()[0] == 'a');
    assert(DenoRegion::AsiaNortheast3.spec_name()[5] == 'n');
    assert(DenoRegion::AsiaNortheast3.spec_name()[14] == '3');
    assert(DenoRegion::AsiaSouth1.spec_name()[0] == 'a');
    assert(DenoRegion::AsiaSouth1.spec_name()[10] == '1');
    assert(DenoRegion::AsiaSouth2.spec_name()[0] == 'a');
    assert(DenoRegion::AsiaSouth2.spec_name()[10] == '2');
    assert(DenoRegion::AsiaSoutheast1.spec_name()[0] == 'a');
    assert(DenoRegion::AsiaSoutheast1.spec_name()[5] == 's');
    assert(DenoRegion::AsiaSoutheast1.spec_name()[14] == '1');
    assert(DenoRegion::AsiaSoutheast2.spec_name()[0] == 'a');
    assert(DenoRegion::AsiaSoutheast2.spec_name()[5] == 's');
    assert(DenoRegion::AsiaSoutheast2.spec_name()[14] == '2');
    assert(DenoRegion::AustraliaSoutheast1.spec_name()[19] == '1');
    assert(DenoRegion::AustraliaSoutheast2.spec_name()[19] == '2');
    assert(DenoRegion::EuropeCentral2.spec_name()[0] == 'e');
    assert(DenoRegion::EuropeCentral2.spec_name()[5] == 'e');
    assert(DenoRegion::EuropeCentral2.spec_name()[14] == '2');
    assert(DenoRegion::EuropeWest1.spec_name()[11] == '1');
    assert(DenoRegion::EuropeWest2.spec_name()[11] == '2');
    assert(DenoRegion::EuropeWest3.spec_name()[11] == '3');
    assert(DenoRegion::EuropeWest4.spec_name()[11] == '4');
    assert(DenoRegion::EuropeWest6.spec_name()[11] == '6');
    assert(DenoRegion::EuropeWest8.spec_name()[11] == '8');
    assert(DenoRegion::EuropeWest9.spec_name()[11] == '9');
    assert(DenoRegion::NorthamericaNortheast1.spec_name()[22] == '1');
    assert(DenoRegion::NorthamericaNortheast2.spec_name()[22] == '2');
    assert(DenoRegion::SouthamericaEast1.spec_name()[13] == 'e');
    assert(DenoRegion::SouthamericaWest1.spec_name()[13] == 'w');
    assert(DenoRegion::UsCentral1.spec_name()[0] == 'u');
    assert(DenoRegion::UsCentral1.spec_name()[10] == '1');
    assert(DenoRegion::UsEast1.spec_name()[3] == 'e');
    assert(DenoRegion::UsEast1.spec_name()[7] == '1');
    assert(DenoRegion::UsEast4.spec_name()[3] == 'e');
    assert(DenoRegion::UsEast4.spec_name()[7] == '4');
    assert(DenoRegion::UsEast5.spec_name()[3] == 'e');
    assert(DenoRegion::UsEast5.spec_name()[7] == '5');
    assert(DenoRegion::UsWest1.spec_name()[3] == 'w');
    assert(DenoRegion::UsWest1.spec_name()[7] == '1');
    assert(DenoRegion::UsWest2.spec_name()[3] == 'w');
    assert(DenoRegion::UsWest2.spec_name()[7] == '2');
    assert(DenoRegion::UsWest3.spec_name()[3] == 'w');
    assert(DenoRegion::UsWest3.spec_name()[7] == '3');
    assert(DenoRegion::UsWest4.spec_name()[3] == 'w');
    assert(DenoRegion::UsWest4.spec_name()[7] == '4');
}

/// For every region `r`, the canonical name of `r` matches itself up to
/// case, and any string that matches the canonical name of `r` up to ASCII
/// case matches no other region's name: with the contract of `parse`,
/// parsing `name(r)` in any ASCII casing returns `Ok(r)` and nothing else.
pub proof fn lemma_deno_name_round_trip(s: Seq<char>, r: DenoRegion)
    requires
        seq_eq_ci(s, r.spec_name()),
    ensures
        forall|other: DenoRegion| seq_eq_ci(s, #[trigger] other.spec_name()) ==> other == r,
{
    assert forall|other: DenoRegion| seq_eq_ci(s, #[trigger] other.spec_name()) implies other == r by {
        lemma_deno_names_lower(r);
        lemma_deno_names_lower(other);
        lemma_ci_match_unique(s, r.spec_name(), other.spec_name());
        if other != r {
            lemma_deno_names_distinct(r, other);
        }
    }
}

} // verus!
