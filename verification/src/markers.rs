//! Compile-time tags.
//!
//! A precision marker selects the integer width an entity is built over; a key distribution
//! marker selects how the scalars of a secret key are drawn. Neither has any run-time
//! behaviour: they route a generic operation to the implementation for one concrete type.
use crate::raw::RawUnsignedIntegers;
use vstd::prelude::*;

verus! {

/// A marker for the integer width of an entity.
pub trait IntegerPrecision {
    /// The machine integer that holds one scalar.
    type Raw: RawUnsignedIntegers;
}

/// The 32-bit precision.
pub struct Precision32;

/// The 64-bit precision.
pub struct Precision64;

impl IntegerPrecision for Precision32 {
    type Raw = u32;
}

impl IntegerPrecision for Precision64 {
    type Raw = u64;
}

/// A marker for the distribution the scalars of a secret key are drawn from.
pub trait KeyDistributionMarker {

}

/// Keys whose scalars are uniformly drawn bits.
pub struct BinaryKeyDistribution;

impl KeyDistributionMarker for BinaryKeyDistribution {

}

} // verus!
