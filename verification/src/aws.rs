use crate::coord::Coordinate;
use crate::error::Error;
use crate::names::is_ascii_upper;
use crate::names::lemma_ci_match_unique;
use crate::names::seq_eq_ci;
use crate::names::str_eq_ci;
use crate::nearest::first_min_index;
use crate::nearest::is_first_min;
use vstd::prelude::*;

verus! {

/// An AWS region.
#[derive(Debug, Copy, Clone, PartialEq, Eq, Structural)]
pub enum AwsRegion {
    /// Africa (Cape Town)
    AfSouth1,
    /// Asia Pacific (Hong Kong)
    ApEast1,
    /// Asia Pacific (Tokyo)
    ApNortheast1,
    /// Asia Pacific (Seoul)
    ApNortheast2,
    /// Asia Pacific (Osaka)
    ApNortheast3,
    /// Asia Pacific (Mumbai)
    ApSouth1,
    /// Asia Pacific (Singapore)
    ApSoutheast1,
    /// Asia Pacific (Sydney)
    ApSoutheast2,
    /// Asia Pacific (Jakarta)
    ApSoutheast3,
    /// Canada (Central)
    CaCentral1,
    /// AWS China (Beijing)
    CnNorth1,
    /// AWS China (Ningxia)
    CnNorthwest1,
    /// Europe (Frankfurt)
    EuCentral1,
    /// Europe (Stockholm)
    EuNorth1,
    /// Europe (Milan)
    EuSouth1,
    /// Europe (Ireland)
    EuWest1,
    /// Europe (London)
    EuWest2,
    /// Europe (Paris)
    EuWest3,
    /// Middle East (Bahrain)
    MeSouth1,
    /// South America (Sao Paulo)
    SaEast1,
    /// US East (N. Virginia)
    UsEast1,
    /// US East (Ohio)
    UsEast2,
    /// US West (N. California)
    UsWest1,
    /// US West (Oregon)
    UsWest2,
    /// AWS GovCloud (US-East)
    UsGovEast1,
    /// AWS GovCloud (US-West)
    UsGovWest1,
}

impl AwsRegion {
    /// The canonical lowercase name of the region.
    pub open spec fn spec_name(self) -> Seq<char> {
        match self {
            AwsRegion::AfSouth1 => "af-south-1"@,
            AwsRegion::ApEast1 => "ap-east-1"@,
            AwsRegion::ApNortheast1 => "ap-northeast-1"@,
            AwsRegion::ApNortheast2 => "ap-northeast-2"@,
            AwsRegion::ApNortheast3 => "ap-northeast-3"@,
            AwsRegion::ApSouth1 => "ap-south-1"@,
            AwsRegion::ApSoutheast1 => "ap-southeast-1"@,
            AwsRegion::ApSoutheast2 => "ap-southeast-2"@,
            AwsRegion::ApSoutheast3 => "ap-southeast-3"@,
            AwsRegion::CaCentral1 => "ca-central-1"@,
            AwsRegion::CnNorth1 => "cn-north-1"@,
            AwsRegion::CnNorthwest1 => "cn-northwest-1"@,
            AwsRegion::EuCentral1 => "eu-central-1"@,
            AwsRegion::EuNorth1 => "eu-north-1"@,
            AwsRegion::EuSouth1 => "eu-south-1"@,
            AwsRegion::EuWest1 => "eu-west-1"@,
            AwsRegion::EuWest2 => "eu-west-2"@,
            AwsRegion::EuWest3 => "eu-west-3"@,
            AwsRegion::MeSouth1 => "me-south-1"@,
            AwsRegion::SaEast1 => "sa-east-1"@,
            AwsRegion::UsEast1 => "us-east-1"@,
            AwsRegion::UsEast2 => "us-east-2"@,
            AwsRegion::UsWest1 => "us-west-1"@,
            AwsRegion::UsWest2 => "us-west-2"@,
            AwsRegion::UsGovEast1 => "us-gov-east-1"@,
            AwsRegion::UsGovWest1 => "us-gov-west-1"@,
        }
    }

    /// The fixed coordinate of the region, as IEEE 754 bit patterns of
    /// the latitude and longitude in decimal degrees.
    pub open spec fn spec_location(self) -> Coordinate {
        match self {
            AwsRegion::AfSouth1 => (Coordinate { lat_bits: 0xC040FB7E9FFFEF77, lon_bits: 0x40329A08FFFFFE48 }),
            AwsRegion::ApEast1 => (Coordinate { lat_bits: 0x40364F1422CCB3A2, lon_bits: 0x405C7A8F605AB3AB }),
            AwsRegion::ApNortheast1 => (Coordinate { lat_bits: 0x4041E1E1C15097C8, lon_bits: 0x40618C5A20DDC619 }),
            AwsRegion::ApNortheast2 => (Coordinate { lat_bits: 0x4042BC0B80000000, lon_bits: 0x405F9CDD20000000 }),
            AwsRegion::ApNortheast3 => (Coordinate { lat_bits: 0x404136B1C0000000, lon_bits: 0x4060E7CEE0000000 }),
            AwsRegion::ApSouth1 => (Coordinate { lat_bits: 0x403316B4FFFFE9AB, lon_bits: 0x4052378BA000025D }),
            AwsRegion::ApSoutheast1 => (Coordinate { lat_bits: 0x3FF59A60D4562E0A, lon_bits: 0x4059FF9DBEC2480F }),
            AwsRegion::ApSoutheast2 => (Coordinate { lat_bits: 0xC040F919C0000000, lon_bits: 0x4062E5AA00000000 }),
            AwsRegion::ApSoutheast3 => (Coordinate { lat_bits: 0xC0188091C087442C, lon_bits: 0x405AA9F92AF9A8CE }),
            AwsRegion::CaCentral1 => (Coordinate { lat_bits: 0x4046BC3B2DD377E2, lon_bits: 0xC0526F69CED0B30B }),
            AwsRegion::CnNorth1 => (Coordinate { lat_bits: 0x40440A40C0000000, lon_bits: 0x405D2570A0000000 }),
            AwsRegion::CnNorthwest1 => (Coordinate { lat_bits: 0x4043292C625E99E9, lon_bits: 0x405A991EB851EB85 }),
            AwsRegion::EuCentral1 => (Coordinate { lat_bits: 0x4049044441787054, lon_bits: 0x4021241FEA8112BA }),
            AwsRegion::EuNorth1 => (Coordinate { lat_bits: 0x404DD3717FFFFFE6, lon_bits: 0x4031EB295FFFFF7E }),
            AwsRegion::EuSouth1 => (Coordinate { lat_bits: 0x4046D0B780346DC6, lon_bits: 0x402174CAD57BC7F7 }),
            AwsRegion::EuWest1 => (Coordinate { lat_bits: 0x404AB5ED20296B33, lon_bits: 0xC019148D3AE685DB }),
            AwsRegion::EuWest2 => (Coordinate { lat_bits: 0x4049BD1EB851EB85, lon_bits: 0xBFDD8765BA6EFC37 }),
            AwsRegion::EuWest3 => (Coordinate { lat_bits: 0x404881A35D67BA23, lon_bits: 0x4004666666666666 }),
            AwsRegion::MeSouth1 => (Coordinate { lat_bits: 0x403A455320000000, lon_bits: 0x40495119C0000000 }),
            AwsRegion::SaEast1 => (Coordinate { lat_bits: 0xC0376F809917939A, lon_bits: 0xC0473C8D1958969A }),
            AwsRegion::UsEast1 => (Coordinate { lat_bits: 0x404378E560418937, lon_bits: 0xC0535D2BDFED3B01 }),
            AwsRegion::UsEast2 => (Coordinate { lat_bits: 0x4043FAC05068DE03, lon_bits: 0xC054C023E5239C05 }),
            AwsRegion::UsWest1 => (Coordinate { lat_bits: 0x4042CF3B60000000, lon_bits: 0xC05E980000000000 }),
            AwsRegion::UsWest2 => (Coordinate { lat_bits: 0x4046C52BA16E7A31, lon_bits: 0xC05EBCC9EECBFB16 }),
            AwsRegion::UsGovEast1 => (Coordinate { lat_bits: 0x404378E560418937, lon_bits: 0xC0535D2BDFED3B01 }),
            AwsRegion::UsGovWest1 => (Coordinate { lat_bits: 0x4042CF3B60000000, lon_bits: 0xC05E980000000000 }),
        }
    }

    /// Every region, in the fixed declaration order of the catalog.
    pub open spec fn spec_all_regions() -> Seq<AwsRegion> {
        seq![
            AwsRegion::AfSouth1,
            AwsRegion::ApEast1,
            AwsRegion::ApNortheast1,
            AwsRegion::ApNortheast2,
            AwsRegion::ApNortheast3,
            AwsRegion::ApSouth1,
            AwsRegion::ApSoutheast1,
            AwsRegion::ApSoutheast2,
            AwsRegion::ApSoutheast3,
            AwsRegion::CaCentral1,
            AwsRegion::CnNorth1,
            AwsRegion::CnNorthwest1,
            AwsRegion::EuCentral1,
            AwsRegion::EuNorth1,
            AwsRegion::EuSouth1,
            AwsRegion::EuWest1,
            AwsRegion::EuWest2,
            AwsRegion::EuWest3,
            AwsRegion::MeSouth1,
            AwsRegion::SaEast1,
            AwsRegion::UsEast1,
            AwsRegion::UsEast2,
            AwsRegion::UsWest1,
            AwsRegion::UsWest2,
            AwsRegion::UsGovEast1,
            AwsRegion::UsGovWest1,
        ]
    }

    /// Returns every region, always in the same fixed catalog order.
    pub fn iter() -> (regions: Vec<AwsRegion>)
        ensures
            regions@ == AwsRegion::spec_all_regions(),
    {
        let mut regions: Vec<AwsRegion> = Vec::new();
        regions.push(AwsRegion::AfSouth1);
        regions.push(AwsRegion::ApEast1);
        regions.push(AwsRegion::ApNortheast1);
        regions.push(AwsRegion::ApNortheast2);
        regions.push(AwsRegion::ApNortheast3);
        regions.push(AwsRegion::ApSouth1);
        regions.push(AwsRegion::ApSoutheast1);
        regions.push(AwsRegion::ApSoutheast2);
        regions.push(AwsRegion::ApSoutheast3);
        regions.push(AwsRegion::CaCentral1);
        regions.push(AwsRegion::CnNorth1);
        regions.push(AwsRegion::CnNorthwest1);
        regions.push(AwsRegion::EuCentral1);
        regions.push(AwsRegion::EuNorth1);
        regions.push(AwsRegion::EuSouth1);
        regions.push(AwsRegion::EuWest1);
        regions.push(AwsRegion::EuWest2);
        regions.push(AwsRegion::EuWest3);
        regions.push(AwsRegion::MeSouth1);
        regions.push(AwsRegion::SaEast1);
        regions.push(AwsRegion::UsEast1);
        regions.push(AwsRegion::UsEast2);
        regions.push(AwsRegion::UsWest1);
        regions.push(AwsRegion::UsWest2);
        regions.push(AwsRegion::UsGovEast1);
        regions.push(AwsRegion::UsGovWest1);
        proof {
            assert(regions@ =~= AwsRegion::spec_all_regions());
        }
        regions
    }

    /// Returns the name of the region.
    pub fn name(&self) -> (r: &'static str)
        ensures
            r@ == self.spec_name(),
    {
        match *self {
            AwsRegion::AfSouth1 => "af-south-1",
            AwsRegion::ApEast1 => "ap-east-1",
            AwsRegion::ApNortheast1 => "ap-northeast-1",
            AwsRegion::ApNortheast2 => "ap-northeast-2",
            AwsRegion::ApNortheast3 => "ap-northeast-3",
            AwsRegion::ApSouth1 => "ap-south-1",
            AwsRegion::ApSoutheast1 => "ap-southeast-1",
            AwsRegion::ApSoutheast2 => "ap-southeast-2",
            AwsRegion::ApSoutheast3 => "ap-southeast-3",
            AwsRegion::CaCentral1 => "ca-central-1",
            AwsRegion::CnNorth1 => "cn-north-1",
            AwsRegion::CnNorthwest1 => "cn-northwest-1",
            AwsRegion::EuCentral1 => "eu-central-1",
            AwsRegion::EuNorth1 => "eu-north-1",
            AwsRegion::EuSouth1 => "eu-south-1",
            AwsRegion::EuWest1 => "eu-west-1",
            AwsRegion::EuWest2 => "eu-west-2",
            AwsRegion::EuWest3 => "eu-west-3",
            AwsRegion::MeSouth1 => "me-south-1",
            AwsRegion::SaEast1 => "sa-east-1",
            AwsRegion::UsEast1 => "us-east-1",
            AwsRegion::UsEast2 => "us-east-2",
            AwsRegion::UsWest1 => "us-west-1",
            AwsRegion::UsWest2 => "us-west-2",
            AwsRegion::UsGovEast1 => "us-gov-east-1",
            AwsRegion::UsGovWest1 => "us-gov-west-1",
        }
    }

    /// Returns the name of the region as an owned string.
    pub fn to_string(&self) -> (r: String)
        ensures
            r@ == self.spec_name(),
    {
        self.name().to_owned()
    }

    /// Returns the location of the region.
    pub fn location(&self) -> (c: Coordinate)
        ensures
            c == self.spec_location(),
    {
        match *self {
            AwsRegion::AfSouth1 => (Coordinate { lat_bits: 0xC040FB7E9FFFEF77, lon_bits: 0x40329A08FFFFFE48 }),  // Cape Town, South Africa (-33.9648017883, 18.6016998291)
            AwsRegion::ApEast1 => (Coordinate { lat_bits: 0x40364F1422CCB3A2, lon_bits: 0x405C7A8F605AB3AB }),  // Hong Kong, China (22.308901, 113.915001)
            AwsRegion::ApNortheast1 => (Coordinate { lat_bits: 0x4041E1E1C15097C8, lon_bits: 0x40618C5A20DDC619 }),  // Tokyo, Japan (35.764702, 140.386002)
            AwsRegion::ApNortheast2 => (Coordinate { lat_bits: 0x4042BC0B80000000, lon_bits: 0x405F9CDD20000000 }),  // Seoul, South Korea (37.46910095214844, 126.45099639892578)
            AwsRegion::ApNortheast3 => (Coordinate { lat_bits: 0x404136B1C0000000, lon_bits: 0x4060E7CEE0000000 }),  // Osaka, Japan (34.42729949951172, 135.24400329589844)
            AwsRegion::ApSouth1 => (Coordinate { lat_bits: 0x403316B4FFFFE9AB, lon_bits: 0x4052378BA000025D }),  // Mumbai, India (19.0886993408, 72.8678970337)
            AwsRegion::ApSoutheast1 => (Coordinate { lat_bits: 0x3FF59A60D4562E0A, lon_bits: 0x4059FF9DBEC2480F }),  // Singapore (1.35019, 103.994003)
            AwsRegion::ApSoutheast2 => (Coordinate { lat_bits: 0xC040F919C0000000, lon_bits: 0x4062E5AA00000000 }),  // Sydney, Australia (-33.94609832763672, 151.177001953125)
            AwsRegion::ApSoutheast3 => (Coordinate { lat_bits: 0xC0188091C087442C, lon_bits: 0x405AA9F92AF9A8CE }),  // Jakarta, Indonesia (-6.125556, 106.655833)
            AwsRegion::CaCentral1 => (Coordinate { lat_bits: 0x4046BC3B2DD377E2, lon_bits: 0xC0526F69CED0B30B }),  // Montreal, Canada (45.470556, -73.740833)
            AwsRegion::CnNorth1 => (Coordinate { lat_bits: 0x40440A40C0000000, lon_bits: 0x405D2570A0000000 }),  // Beijing, China (40.080101013183594, 116.58499908447266)
            AwsRegion::CnNorthwest1 => (Coordinate { lat_bits: 0x4043292C625E99E9, lon_bits: 0x405A991EB851EB85 }),  // Yinchuan, China (38.321667, 106.3925)
            AwsRegion::EuCentral1 => (Coordinate { lat_bits: 0x4049044441787054, lon_bits: 0x4021241FEA8112BA }),  // Frankfurt, Germany (50.033333, 8.570556)
            AwsRegion::EuNorth1 => (Coordinate { lat_bits: 0x404DD3717FFFFFE6, lon_bits: 0x4031EB295FFFFF7E }),  // Stockholm, Sweden (59.651901245117, 17.918600082397)
            AwsRegion::EuSouth1 => (Coordinate { lat_bits: 0x4046D0B780346DC6, lon_bits: 0x402174CAD57BC7F7 }),  // Milan, Italy (45.6306, 8.72811)
            AwsRegion::EuWest1 => (Coordinate { lat_bits: 0x404AB5ED20296B33, lon_bits: 0xC019148D3AE685DB }),  // Dublin, Ireland (53.421299, -6.27007)
            AwsRegion::EuWest2 => (Coordinate { lat_bits: 0x4049BD1EB851EB85, lon_bits: 0xBFDD8765BA6EFC37 }),  // London, United Kingdom (51.4775, -0.461389)
            AwsRegion::EuWest3 => (Coordinate { lat_bits: 0x404881A35D67BA23, lon_bits: 0x4004666666666666 }),  // Paris, France (49.012798, 2.55)
            AwsRegion::MeSouth1 => (Coordinate { lat_bits: 0x403A455320000000, lon_bits: 0x40495119C0000000 }),  // Manama, Bahrain (26.27079963684082, 50.63359832763672)
            AwsRegion::SaEast1 => (Coordinate { lat_bits: 0xC0376F809917939A, lon_bits: 0xC0473C8D1958969A }),  // Sao Paulo, Brazil (-23.435556, -46.473056)
            AwsRegion::UsEast1 => (Coordinate { lat_bits: 0x404378E560418937, lon_bits: 0xC0535D2BDFED3B01 }),  // Ashburn, Virginia, USA (38.9445, -77.4558029)
            AwsRegion::UsEast2 => (Coordinate { lat_bits: 0x4043FAC05068DE03, lon_bits: 0xC054C023E5239C05 }),  // Columbus, Ohio, USA (39.958993960575775, -83.00219086148725)
            AwsRegion::UsWest1 => (Coordinate { lat_bits: 0x4042CF3B60000000, lon_bits: 0xC05E980000000000 }),  // San Francisco, California, USA (37.61899948120117, -122.375)
            AwsRegion::UsWest2 => (Coordinate { lat_bits: 0x4046C52BA16E7A31, lon_bits: 0xC05EBCC9EECBFB16 }),  // Hillsboro, Oregon, USA (45.540394, -122.949825)
            AwsRegion::UsGovEast1 => (Coordinate { lat_bits: 0x404378E560418937, lon_bits: 0xC0535D2BDFED3B01 }),  // Ashburn, Virginia, USA (38.9445, -77.4558029)
            AwsRegion::UsGovWest1 => (Coordinate { lat_bits: 0x4042CF3B60000000, lon_bits: 0xC05E980000000000 }),  // San Francisco, California, USA (37.61899948120117, -122.375)
        }
    }
}

impl AwsRegion {
    /// Parses a region from its canonical name, matched case-insensitively
    /// on ASCII letters. Returns `Ok` exactly when the input matches the
    /// canonical name of some region up to ASCII case, and
    /// `Err(Error::InvalidAwsRegion)` otherwise.
    pub fn parse(s: &str) -> (r: Result<AwsRegion, Error>)
        ensures
            match r {
                Ok(region) => seq_eq_ci(s@, region.spec_name()),
                Err(e) => {
                    &&& e == Error::InvalidAwsRegion
                    &&& forall|region: AwsRegion| !seq_eq_ci(s@, #[trigger] region.spec_name())
                },
            },
    {
        if str_eq_ci(s, "af-south-1") {
            return Ok(AwsRegion::AfSouth1);
        }
        if str_eq_ci(s, "ap-east-1") {
            return Ok(AwsRegion::ApEast1);
        }
        if str_eq_ci(s, "ap-northeast-1") {
            return Ok(AwsRegion::ApNortheast1);
        }
        if str_eq_ci(s, "ap-northeast-2") {
            return Ok(AwsRegion::ApNortheast2);
        }
        if str_eq_ci(s, "ap-northeast-3") {
            return Ok(AwsRegion::ApNortheast3);
        }
        if str_eq_ci(s, "ap-south-1") {
            return Ok(AwsRegion::ApSouth1);
        }
        if str_eq_ci(s, "ap-southeast-1") {
            return Ok(AwsRegion::ApSoutheast1);
        }
        if str_eq_ci(s, "ap-southeast-2") {
            return Ok(AwsRegion::ApSoutheast2);
        }
        if str_eq_ci(s, "ap-southeast-3") {
            return Ok(AwsRegion::ApSoutheast3);
        }
        if str_eq_ci(s, "ca-central-1") {
            return Ok(AwsRegion::CaCentral1);
        }
        if str_eq_ci(s, "cn-north-1") {
            return Ok(AwsRegion::CnNorth1);
        }
        if str_eq_ci(s, "cn-northwest-1") {
            return Ok(AwsRegion::CnNorthwest1);
        }
        if str_eq_ci(s, "eu-central-1") {
            return Ok(AwsRegion::EuCentral1);
        }
        if str_eq_ci(s, "eu-north-1") {
            return Ok(AwsRegion::EuNorth1);
        }
        if str_eq_ci(s, "eu-south-1") {
            return Ok(AwsRegion::EuSouth1);
        }
        if str_eq_ci(s, "eu-west-1") {
            return Ok(AwsRegion::EuWest1);
        }
        if str_eq_ci(s, "eu-west-2") {
            return Ok(AwsRegion::EuWest2);
        }
        if str_eq_ci(s, "eu-west-3") {
            return Ok(AwsRegion::EuWest3);
        }
        if str_eq_ci(s, "me-south-1") {
            return Ok(AwsRegion::MeSouth1);
        }
        if str_eq_ci(s, "sa-east-1") {
            return Ok(AwsRegion::SaEast1);
        }
        if str_eq_ci(s, "us-east-1") {
            return Ok(AwsRegion::UsEast1);
        }
        if str_eq_ci(s, "us-east-2") {
            return Ok(AwsRegion::UsEast2);
        }
        if str_eq_ci(s, "us-west-1") {
            return Ok(AwsRegion::UsWest1);
        }
        if str_eq_ci(s, "us-west-2") {
            return Ok(AwsRegion::UsWest2);
        }
        if str_eq_ci(s, "us-gov-east-1") {
            return Ok(AwsRegion::UsGovEast1);
        }
        if str_eq_ci(s, "us-gov-west-1") {
            return Ok(AwsRegion::UsGovWest1);
        }
        Err(Error::InvalidAwsRegion)
    }
}

impl core::str::FromStr for AwsRegion {
    type Err = Error;

    fn from_str(s: &str) -> Result<AwsRegion, Error> {
        AwsRegion::parse(s)
    }
}

/// No ASCII uppercase letter occurs in a canonical AWS region name.
pub proof fn lemma_aws_names_lower(r: AwsRegion)
    ensures
        forall|i: int|
            0 <= i < r.spec_name().len() ==> !is_ascii_upper(#[trigger] r.spec_name()[i]),
{
    reveal_strlit("af-south-1");
    reveal_strlit("ap-east-1");
    reveal_strlit("ap-northeast-1");
    reveal_strlit("ap-northeast-2");
    reveal_strlit("ap-northeast-3");
    reveal_strlit("ap-south-1");
    reveal_strlit("ap-southeast-1");
    reveal_strlit("ap-southeast-2");
    reveal_strlit("ap-southeast-3");
    reveal_strlit("ca-central-1");
    reveal_strlit("cn-north-1");
    reveal_strlit("cn-northwest-1");
    reveal_strlit("eu-central-1");
    reveal_strlit("eu-north-1");
    reveal_strlit("eu-south-1");
    reveal_strlit("eu-west-1");
    reveal_strlit("eu-west-2");
    reveal_strlit("eu-west-3");
    reveal_strlit("me-south-1");
    reveal_strlit("sa-east-1");
    reveal_strlit("us-east-1");
    reveal_strlit("us-east-2");
    reveal_strlit("us-west-1");
    reveal_strlit("us-west-2");
    reveal_strlit("us-gov-east-1");
    reveal_strlit("us-gov-west-1");
}

/// Distinct AWS regions have distinct canonical names.
pub proof fn lemma_aws_names_distinct(a: AwsRegion, b: AwsRegion)
    requires
        a != b,
    ensures
        a.spec_name() != b.spec_name(),
{
    reveal_strlit("af-south-1");
    reveal_strlit("ap-east-1");
    reveal_strlit("ap-northeast-1");
    reveal_strlit("ap-northeast-2");
    reveal_strlit("ap-northeast-3");
    reveal_strlit("ap-south-1");
    reveal_strlit("ap-southeast-1");
    reveal_strlit("ap-southeast-2");
    reveal_strlit("ap-southeast-3");
    reveal_strlit("ca-central-1");
    reveal_strlit("cn-north-1");
    reveal_strlit("cn-northwest-1");
    reveal_strlit("eu-central-1");
    reveal_strlit("eu-north-1");
    reveal_strlit("eu-south-1");
    reveal_strlit("eu-west-1");
    reveal_strlit("eu-west-2");
    reveal_strlit("eu-west-3");
    reveal_strlit("me-south-1");
    reveal_strlit("sa-east-1");
    reveal_strlit("us-east-1");
    reveal_strlit("us-east-2");
    reveal_strlit("us-west-1");
    reveal_strlit("us-west-2");
    reveal_strlit("us-gov-east-1");
    reveal_strlit("us-gov-west-1");
    assert(AwsRegion::AfSouth1.spec_name().len() == 10);
    assert(AwsRegion::ApEast1.spec_name().len() == 9);
    assert(AwsRegion::ApNortheast1.spec_name().len() == 14);
    assert(AwsRegion::ApNortheast2.spec_name().len() == 14);
    assert(AwsRegion::ApNortheast3.spec_name().len() == 14);
    assert(AwsRegion::ApSouth1.spec_name().len() == 10);
    assert(AwsRegion::ApSoutheast1.spec_name().len() == 14);
    assert(AwsRegion::ApSoutheast2.spec_name().len() == 14);
    assert(AwsRegion::ApSoutheast3.spec_name().len() == 14);
    assert(AwsRegion::CaCentral1.spec_name().len() == 12);
    assert(AwsRegion::CnNorth1.spec_name().len() == 10);
    assert(AwsRegion::CnNorthwest1.spec_name().len() == 14);
    assert(AwsRegion::EuCentral1.spec_name().len() == 12);
    assert(AwsRegion::EuNorth1.spec_name().len() == 10);
    assert(AwsRegion::EuSouth1.spec_name().len() == 10);
    assert(AwsRegion::EuWest1.spec_name().len() == 9);
    assert(AwsRegion::EuWest2.spec_name().len() == 9);
    assert(AwsRegion::EuWest3.spec_name().len() == 9);
    assert(AwsRegion::MeSouth1.spec_name().len() == 10);
    assert(AwsRegion::SaEast1.spec_name().len() == 9);
    assert(AwsRegion::UsEast1.spec_name().len() == 9);
    assert(AwsRegion::UsEast2.spec_name().len() == 9);
    assert(AwsRegion::UsWest1.spec_name().len() == 9);
    assert(AwsRegion::UsWest2.spec_name().len() == 9);
    assert(AwsRegion::UsGovEast1.spec_name().len() == 13);
    assert(AwsRegion::UsGovWest1.spec_name().len() == 13);
    assert(AwsRegion::AfSouth1.spec_name()[0] == 'a');
    assert(AwsRegion::AfSouth1.spec_name()[1] == 'f');
    assert(AwsRegion::AfSouth1.spec_name()[3] == 's');
    assert(AwsRegion::ApEast1.spec_name()[0] == 'a');
    assert(AwsRegion::ApEast1.spec_name()[3] == 'e');
    assert(AwsRegion::ApEast1.spec_name()[8] == '1');
    assert(AwsRegion::ApNortheast1.spec_name()[0] == 'a');
    assert(AwsRegion::ApNortheast1.spec_name()[3] == 'n');
    assert(AwsRegion::ApNortheast1.spec_name()[13] == '1');
    assert(AwsRegion::ApNortheast2.spec_name()[0] == 'a');
    assert(AwsRegion::ApNortheast2.spec_name()[3] == 'n');
    assert(AwsRegion::ApNortheast2.spec_name()[13] == '2');
    assert(AwsRegion::ApNortheast3.spec_name()[0] == 'a');
    assert(AwsRegion::ApNortheast3.spec_name()[3] == 'n');
    assert(AwsRegion::ApNortheast3.spec_name()[13] == '3');
    assert(AwsRegion::ApSouth1.spec_name()[0] == 'a');
    assert(AwsRegion::ApSouth1.spec_name()[1] == 'p');
    assert(AwsRegion::ApSouth1.spec_name()[3] == 's');
    assert(AwsRegion::ApSoutheast1.spec_name()[0] == 'a');
    assert(AwsRegion::ApSoutheast1.spec_name()[3] == 's');
    assert(AwsRegion::ApSoutheast1.spec_name()[13] == '1');
    assert(AwsRegion::ApSoutheast2.spec_name()[0] == 'a');
    assert(AwsRegion::ApSoutheast2.spec_name()[3] == 's');
    assert(AwsRegion::ApSoutheast2.spec_name()[13] == '2');
    assert(AwsRegion::ApSoutheast3.spec_name()[0] == 'a');
    assert(AwsRegion::ApSoutheast3.spec_name()[3] == 's');
    assert(AwsRegion::ApSoutheast3.spec_name()[13] == '3');
    assert(AwsRegion::CaCentral1.spec_name()[0] == 'c');
    assert(AwsRegion::CnNorth1.spec_name()[0] == 'c');
    assert(AwsRegion::CnNorth1.spec_name()[1] == 'n');
    assert(AwsRegion::CnNorth1.spec_name()[3] == 'n');
    assert(AwsRegion::CnNorthwest1.spec_name()[0] == 'c');
    assert(AwsRegion::CnNorthwest1.spec_name()[3] == 'n');
    assert(AwsRegion::CnNorthwest1.spec_name()[13] == '1');
    assert(AwsRegion::EuCentral1.spec_name()[0] == 'e');
    assert(AwsRegion::EuNorth1.spec_name()[0] == 'e');
    assert(AwsRegion::EuNorth1.spec_name()[1] == 'u');
    assert(AwsRegion::EuNorth1.spec_name()[3] == 'n');
    assert(AwsRegion::EuSouth1.spec_name()[0] == 'e');
    assert(AwsRegion::EuSouth1.spec_name()[1] == 'u');
    assert(AwsRegion::EuSouth1.spec_name()[3] == 's');
    assert(AwsRegion::EuWest1.spec_name()[0] == 'e');
    assert(AwsRegion::EuWest1.spec_name()[3] == 'w');
    assert(AwsRegion::EuWest1.spec_name()[8] == '1');
    assert(AwsRegion::EuWest2.spec_name()[0] == 'e');
    assert(AwsRegion::EuWest2.spec_name()[3] == 'w');
    assert(AwsRegion::EuWest2.spec_name()[8] == '2');
    assert(AwsRegion::EuWest3.spec_name()[0] == 'e');
    assert(AwsRegion::EuWest3.spec_name()[3] == 'w');
    assert(AwsRegion::EuWest3.spec_name()[8] == '3');
    assert(AwsRegion::MeSouth1.spec_name()[0] == 'm');
    assert(AwsRegion::MeSouth1.spec_name()[1] == 'e');
    assert(AwsRegion::MeSouth1.spec_name()[3] == 's');
    assert(AwsRegion::SaEast1.spec_name()[0] == 's');
    assert(AwsRegion::SaEast1.spec_name()[3] == 'e');
    assert(AwsRegion::SaEast1.spec_name()[8] == '1');
    assert(AwsRegion::UsEast1.spec_name()[0] == 'u');
    assert(AwsRegion::UsEast1.spec_name()[3] == 'e');
    assert(AwsRegion::UsEast1.spec_name()[8] == '1');
    assert(AwsRegion::UsEast2.spec_name()[0] == 'u');
    assert(AwsRegion::UsEast2.spec_name()[3] == 'e');
    assert(AwsRegion::UsEast2.spec_name()[8] == '2');
    assert(AwsRegion::UsWest1.spec_name()[0] == 'u');
    assert(AwsRegion::UsWest1.spec_name()[3] == 'w');
    assert(AwsRegion::UsWest1.spec_name()[8] == '1');
    assert(AwsRegion::UsWest2.spec_name()[0] == 'u');
    assert(AwsRegion::UsWest2.spec_name()[3] == 'w');
    assert(AwsRegion::UsWest2.spec_name()[8] == '2');
    assert(AwsRegion::UsGovEast1.spec_name()[7] == 'e');
    assert(AwsRegion::UsGovWest1.spec_name()[7] == 'w');
}

/// For every region `r`, the canonical name of `r` matches itself up to
/// case, and any string that matches the canonical name of `r` up to ASCII
/// case matches no other region's name: with the contract of `parse`,
/// parsing `name(r)` in any ASCII casing returns `Ok(r)` and nothing else.
pub proof fn lemma_aws_name_round_trip(s: Seq<char>, r: AwsRegion)
    requires
        seq_eq_ci(s, r.spec_name()),
    ensures
        forall|other: AwsRegion| seq_eq_ci(s, #[trigger] other.spec_name()) ==> other == r,
{
    assert forall|other: AwsRegion| seq_eq_ci(s, #[trigger] other.spec_name()) implies other == r by {
        lemma_aws_names_lower(r);
        lemma_aws_names_lower(other);
        lemma_ci_match_unique(s, r.spec_name(), other.spec_name());
        if other != r {
            lemma_aws_names_distinct(r, other);
        }
    }
}

/// Finds the nearest AWS region among `regions`, given one distance key
/// per candidate: `keys[i]` orders the distance from the query point to
/// `regions[i]` (for non-negative IEEE 754 doubles such as haversine
/// distances in meters, the bit pattern is such a key). Returns the
/// candidate with the minimal key; among equal minimal keys the first in
/// the list wins. The candidate list must not be empty.
pub fn find_region_from_list(regions: &[AwsRegion], keys: &[u64]) -> (r: AwsRegion)
    requires
        regions@.len() > 0,
        keys@.len() == regions@.len(),
    ensures
        exists|i: int| #[trigger] is_first_min(keys@, i) && r == regions@[i],
{
    let i = first_min_index(keys);
    regions[i]
}

/// Finds the nearest AWS region among `regions` as `find_region_from_list`
/// does, but signals an empty candidate list with `None` instead of
/// demanding a non-empty list from the caller.
pub fn try_find_region_from_list(regions: &[AwsRegion], keys: &[u64]) -> (r: Option<AwsRegion>)
    requires
        keys@.len() == regions@.len(),
    ensures
        r is None <==> regions@.len() == 0,
        match r {
            Some(region) => exists|i: int| #[trigger] is_first_min(keys@, i) && region == regions@[i],
            None => regions@.len() == 0,
        },
{
    if regions.len() == 0 {
        None
    } else {
        Some(find_region_from_list(regions, keys))
    }
}

/// Finds the nearest AWS region in the full catalog, given one distance
/// key per region of `AwsRegion::spec_all_regions()`, in catalog order.
/// The full catalog is never empty, so this cannot fail.
pub fn find_region(keys: &[u64]) -> (r: AwsRegion)
    requires
        keys@.len() == AwsRegion::spec_all_regions().len(),
    ensures
        exists|i: int| #[trigger] is_first_min(keys@, i) && r == AwsRegion::spec_all_regions()[i],
{
    let regions = AwsRegion::iter();
    find_region_from_list(regions.as_slice(), keys)
}

} // verus!
