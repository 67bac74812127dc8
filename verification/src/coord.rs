use vstd::prelude::*;

verus! {

/// A geographic coordinate: a latitude and a longitude in decimal degrees.
///
/// The verified core is free of floating-point arithmetic, so the two
/// degree values are carried as the bit patterns of their IEEE 754 64-bit
/// representations. That keeps every catalog coordinate exact: a caller
/// that needs the numeric values reinterprets the bits as doubles.
#[derive(Debug, Clone, Copy, PartialEq, Eq, Structural)]
pub struct Coordinate {
    /// IEEE 754 bit pattern of the latitude in decimal degrees.
    pub lat_bits: u64,
    /// IEEE 754 bit pattern of the longitude in decimal degrees.
    pub lon_bits: u64,
}

impl Coordinate {
    /// Builds the coordinate with the given latitude and longitude bit
    /// patterns.
    pub fn new(lat_bits: u64, lon_bits: u64) -> (c: Coordinate)
        ensures
            c == (Coordinate { lat_bits, lon_bits }),
    {
        Coordinate { lat_bits, lon_bits }
    }
}

} // verus!
