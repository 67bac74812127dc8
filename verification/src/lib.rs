//! Find the nearest cloud-provider region to a given location.
//!
//! The crate holds two fixed catalogs of regions: the AWS regions and the
//! Deno Deploy regions. Each region carries a canonical lowercase name and a
//! fixed coordinate. The library offers name formatting and case-insensitive
//! parsing, a stable enumeration of each catalog, a curated mapping from Deno
//! Deploy regions to AWS regions, and a nearest-candidate selection with a
//! deterministic first-minimum tie-break.
//!
//! The verified core is free of floating-point arithmetic. Coordinates are
//! carried as the IEEE 754 bit patterns of their decimal-degree values, and
//! the nearest-candidate selection works on caller-supplied distance keys:
//! unsigned 64-bit values whose order agrees with the order of the distances
//! they stand for. For non-negative IEEE 754 doubles, such as great-circle
//! distances in meters, the bit pattern itself is such a key, so an
//! unverified adapter can compute haversine distances with a geodesy crate
//! and hand their bit patterns to the verified selection.

mod aws;
mod coord;
mod deno;
mod error;
mod names;
mod nearest;

pub use aws::AwsRegion;
pub use aws::find_region;
pub use aws::find_region_from_list;
pub use aws::lemma_aws_name_round_trip;
pub use aws::lemma_aws_names_distinct;
pub use aws::lemma_aws_names_lower;
pub use aws::try_find_region_from_list;
pub use coord::Coordinate;
pub use deno::lemma_deno_name_round_trip;
pub use deno::lemma_deno_names_distinct;
pub use deno::lemma_deno_names_lower;
pub use deno::DenoRegion;
pub use error::Error;
pub use names::char_eq_ci;
pub use names::is_ascii_upper;
pub use names::lemma_ci_match_unique;
pub use names::seq_eq_ci;
pub use nearest::first_min_index;
pub use nearest::is_first_min;
pub use nearest::lemma_first_min_unique;
