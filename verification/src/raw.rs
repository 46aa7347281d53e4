//! Raw unsigned integers: the scalars ciphertext buffers are made of.
use vstd::prelude::*;

verus! {

/// One uniformly drawn 32-bit integer, from `rand::random`. Any value may come back, so
/// nothing is promised of it.
#[verifier::external_body]
fn random_u32() -> u32 {
    rand::random()
}

/// One uniformly drawn 64-bit integer, from `rand::random`. Any value may come back, so
/// nothing is promised of it.
#[verifier::external_body]
fn random_u64() -> u64 {
    rand::random()
}

/// The integers a precision can be built over.
pub trait RawUnsignedIntegers: Copy + Sized {
    /// The integer zero.
    spec fn spec_zero() -> Self;

    /// A uniformly drawn integer. Any integer may come back.
    fn uniform() -> Self;

    /// A vector of `length` uniformly drawn integers.
    fn uniform_vec(length: usize) -> (list: Vec<Self>)
        ensures
            list@.len() == length,
    ;

    /// A vector of `length` zeros.
    fn zero_vec(length: usize) -> (list: Vec<Self>)
        ensures
            list@.len() == length,
            forall|i: int| 0 <= i < length ==> list@[i] == Self::spec_zero(),
    ;

    /// Whether two integers are the same.
    fn equals(&self, other: &Self) -> (same: bool)
        ensures
            same <==> *self == *other,
    ;
}

/// A copy of `source`, scalar by scalar.
pub fn copy_of<T: Copy>(source: &Vec<T>) -> (copy: Vec<T>)
    ensures
        copy@ == source@,
{
    let mut copy: Vec<T> = Vec::new();
    let mut copied: usize = 0;
    while copied < source.len()
        invariant
            copied <= source@.len(),
            copy@ == source@.subrange(0, copied as int),
        decreases source@.len() - copied,
    {
        copy.push(source[copied]);
        copied = copied + 1;
        assert(copy@ =~= source@.subrange(0, copied as int));
    }
    assert(copy@ =~= source@);
    copy
}

impl RawUnsignedIntegers for u32 {
    open spec fn spec_zero() -> u32 {
        0
    }

    fn uniform() -> u32 {
        random_u32()
    }

    fn equals(&self, other: &u32) -> (same: bool) {
        *self == *other
    }

    fn uniform_vec(length: usize) -> (list: Vec<u32>) {
        let mut list: Vec<u32> = Vec::new();
        let mut filled: usize = 0;
        while filled < length
            invariant
                filled <= length,
                list@.len() == filled,
            decreases length - filled,
        {
            list.push(Self::uniform());
            filled = filled + 1;
        }
        list
    }

    fn zero_vec(length: usize) -> (list: Vec<u32>) {
        let mut list: Vec<u32> = Vec::new();
        let mut filled: usize = 0;
        while filled < length
            invariant
                filled <= length,
                list@.len() == filled,
                forall|i: int| 0 <= i < filled ==> list@[i] == 0,
            decreases length - filled,
        {
            list.push(0u32);
            filled = filled + 1;
        }
        list
    }
}

impl RawUnsignedIntegers for u64 {
    open spec fn spec_zero() -> u64 {
        0
    }

    fn uniform() -> u64 {
        random_u64()
    }

    fn equals(&self, other: &u64) -> (same: bool) {
        *self == *other
    }

    fn uniform_vec(length: usize) -> (list: Vec<u64>) {
        let mut list: Vec<u64> = Vec::new();
        let mut filled: usize = 0;
        while filled < length
            invariant
                filled <= length,
                list@.len() == filled,
            decreases length - filled,
        {
            list.push(Self::uniform());
            filled = filled + 1;
        }
        list
    }

    fn zero_vec(length: usize) -> (list: Vec<u64>) {
        let mut list: Vec<u64> = Vec::new();
        let mut filled: usize = 0;
        while filled < length
            invariant
                filled <= length,
                list@.len() == filled,
                forall|i: int| 0 <= i < filled ==> list@[i] == 0,
            decreases length - filled,
        {
            list.push(0u64);
            filled = filled + 1;
        }
        list
    }
}

} // verus!
