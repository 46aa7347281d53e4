//! Prototypes of LWE ciphertext views.
use crate::markers::{
    BinaryKeyDistribution, IntegerPrecision, KeyDistributionMarker, Precision32, Precision64,
};
use vstd::prelude::*;

verus! {

/// What a prototype of a mutable LWE ciphertext view is: the scalars of the ciphertext, for one
/// precision and one key distribution.
pub trait LweCiphertextMutViewPrototype {
    /// The distribution of the key the ciphertext belongs to.
    type KeyDistribution: KeyDistributionMarker;

    /// The precision the ciphertext is represented in.
    type Precision: IntegerPrecision;

    /// The scalars of the ciphertext.
    spec fn raw(&self) -> Seq<<Self::Precision as IntegerPrecision>::Raw>;
}

/// The prototype of a 32-bit binary LWE ciphertext mutable view. It owns its scalars in a
/// vector: the buffer that a view aliases is made from it, and goes back into one.
pub struct ProtoBinaryLweCiphertextMutView32(pub(crate) Vec<u32>);

impl ProtoBinaryLweCiphertextMutView32 {
    /// The prototype with exactly the scalars of `raw`.
    pub(crate) fn from_raw(raw: Vec<u32>) -> (prototype: Self)
        ensures
            prototype.raw() == raw@,
    {
        ProtoBinaryLweCiphertextMutView32(raw)
    }

    /// A copy of the scalars.
    pub(crate) fn to_raw(&self) -> (raw: Vec<u32>)
        ensures
            raw@ == self.raw(),
    {
        let raw = self.0.clone();
        assert(raw@ =~= self.0@);
        raw
    }
}

impl LweCiphertextMutViewPrototype for ProtoBinaryLweCiphertextMutView32 {
    type KeyDistribution = BinaryKeyDistribution;

    type Precision = Precision32;

    closed spec fn raw(&self) -> Seq<u32> {
        self.0@
    }
}

/// The prototype of a 64-bit binary LWE ciphertext mutable view. It owns its scalars in a
/// vector: the buffer that a view aliases is made from it, and goes back into one.
pub struct ProtoBinaryLweCiphertextMutView64(pub(crate) Vec<u64>);

impl ProtoBinaryLweCiphertextMutView64 {
    /// The prototype with exactly the scalars of `raw`.
    pub(crate) fn from_raw(raw: Vec<u64>) -> (prototype: Self)
        ensures
            prototype.raw() == raw@,
    {
        ProtoBinaryLweCiphertextMutView64(raw)
    }

    /// A copy of the scalars.
    pub(crate) fn to_raw(&self) -> (raw: Vec<u64>)
        ensures
            raw@ == self.raw(),
    {
        let raw = self.0.clone();
        assert(raw@ =~= self.0@);
        raw
    }
}

impl LweCiphertextMutViewPrototype for ProtoBinaryLweCiphertextMutView64 {
    type KeyDistribution = BinaryKeyDistribution;

    type Precision = Precision64;

    closed spec fn raw(&self) -> Seq<u64> {
        self.0@
    }
}

/// What a prototype of a read-only LWE ciphertext view is: the scalars of the ciphertext, for
/// one precision and one key distribution.
pub trait LweCiphertextViewPrototype {
    /// The distribution of the key the ciphertext belongs to.
    type KeyDistribution: KeyDistributionMarker;

    /// The precision the ciphertext is represented in.
    type Precision: IntegerPrecision;

    /// The scalars of the ciphertext.
    spec fn raw(&self) -> Seq<<Self::Precision as IntegerPrecision>::Raw>;
}

/// The prototype of a 32-bit binary LWE ciphertext view. It owns its scalars in a vector: the
/// buffer that a view aliases is made from it, and goes back into one.
pub struct ProtoBinaryLweCiphertextView32(pub(crate) Vec<u32>);

impl ProtoBinaryLweCiphertextView32 {
    /// The prototype with exactly the scalars of `raw`.
    pub(crate) fn from_raw(raw: Vec<u32>) -> (prototype: Self)
        ensures
            prototype.raw() == raw@,
    {
        ProtoBinaryLweCiphertextView32(raw)
    }

    /// A copy of the scalars.
    pub(crate) fn to_raw(&self) -> (raw: Vec<u32>)
        ensures
            raw@ == self.raw(),
    {
        let raw = self.0.clone();
        assert(raw@ =~= self.0@);
        raw
    }
}

impl LweCiphertextViewPrototype for ProtoBinaryLweCiphertextView32 {
    type KeyDistribution = BinaryKeyDistribution;

    type Precision = Precision32;

    closed spec fn raw(&self) -> Seq<u32> {
        self.0@
    }
}

/// The prototype of a 64-bit binary LWE ciphertext view. It owns its scalars in a vector: the
/// buffer that a view aliases is made from it, and goes back into one.
pub struct ProtoBinaryLweCiphertextView64(pub(crate) Vec<u64>);

impl ProtoBinaryLweCiphertextView64 {
    /// The prototype with exactly the scalars of `raw`.
    pub(crate) fn from_raw(raw: Vec<u64>) -> (prototype: Self)
        ensures
            prototype.raw() == raw@,
    {
        ProtoBinaryLweCiphertextView64(raw)
    }

    /// A copy of the scalars.
    pub(crate) fn to_raw(&self) -> (raw: Vec<u64>)
        ensures
            raw@ == self.raw(),
    {
        let raw = self.0.clone();
        assert(raw@ =~= self.0@);
        raw
    }
}

impl LweCiphertextViewPrototype for ProtoBinaryLweCiphertextView64 {
    type KeyDistribution = BinaryKeyDistribution;

    type Precision = Precision64;

    closed spec fn raw(&self) -> Seq<u64> {
        self.0@
    }
}

} // verus!
