//! Prototypes of GLWE ciphertext views.
use crate::markers::{
    BinaryKeyDistribution, IntegerPrecision, KeyDistributionMarker, Precision32, Precision64,
};
use concrete_commons::parameters::PolynomialSize;
use vstd::prelude::*;

verus! {

/// What a prototype of a mutable GLWE ciphertext view is: the coefficients of the ciphertext
/// and the size of its polynomials, for one precision and one key distribution.
pub trait GlweCiphertextMutViewPrototype {
    /// The distribution of the key the ciphertext belongs to.
    type KeyDistribution: KeyDistributionMarker;

    /// The precision the ciphertext is represented in.
    type Precision: IntegerPrecision;

    /// The coefficients of the ciphertext.
    spec fn raw(&self) -> Seq<<Self::Precision as IntegerPrecision>::Raw>;

    /// The number of coefficients of each polynomial.
    spec fn polynomial_size(&self) -> PolynomialSize;
}

/// The prototype of a 32-bit binary GLWE ciphertext mutable view. It owns its coefficients in
/// a vector: the buffer that a view aliases is made from it, and goes back into one.
pub struct ProtoBinaryGlweCiphertextMutView32(pub(crate) Vec<u32>, pub(crate) PolynomialSize);

impl ProtoBinaryGlweCiphertextMutView32 {
    /// The prototype with exactly the coefficients of `raw`, in polynomials of
    /// `polynomial_size` coefficients.
    pub(crate) fn from_raw(raw: Vec<u32>, polynomial_size: PolynomialSize) -> (prototype: Self)
        ensures
            prototype.raw() == raw@,
            prototype.polynomial_size() == polynomial_size,
    {
        ProtoBinaryGlweCiphertextMutView32(raw, polynomial_size)
    }

    /// A copy of the coefficients, and the polynomial size.
    pub(crate) fn to_raw(&self) -> (raw: (Vec<u32>, PolynomialSize))
        ensures
            raw.0@ == self.raw(),
            raw.1 == self.polynomial_size(),
    {
        let coefficients = self.0.clone();
        assert(coefficients@ =~= self.0@);
        (coefficients, PolynomialSize(self.1.0))
    }
}

impl GlweCiphertextMutViewPrototype for ProtoBinaryGlweCiphertextMutView32 {
    type KeyDistribution = BinaryKeyDistribution;

    type Precision = Precision32;

    closed spec fn raw(&self) -> Seq<u32> {
        self.0@
    }

    closed spec fn polynomial_size(&self) -> PolynomialSize {
        self.1
    }
}

/// The prototype of a 64-bit binary GLWE ciphertext mutable view. It owns its coefficients in
/// a vector: the buffer that a view aliases is made from it, and goes back into one.
pub struct ProtoBinaryGlweCiphertextMutView64(pub(crate) Vec<u64>, pub(crate) PolynomialSize);

impl ProtoBinaryGlweCiphertextMutView64 {
    /// The prototype with exactly the coefficients of `raw`, in polynomials of
    /// `polynomial_size` coefficients.
    pub(crate) fn from_raw(raw: Vec<u64>, polynomial_size: PolynomialSize) -> (prototype: Self)
        ensures
            prototype.raw() == raw@,
            prototype.polynomial_size() == polynomial_size,
    {
        ProtoBinaryGlweCiphertextMutView64(raw, polynomial_size)
    }

    /// A copy of the coefficients, and the polynomial size.
    pub(crate) fn to_raw(&self) -> (raw: (Vec<u64>, PolynomialSize))
        ensures
            raw.0@ == self.raw(),
            raw.1 == self.polynomial_size(),
    {
        let coefficients = self.0.clone();
        assert(coefficients@ =~= self.0@);
        (coefficients, PolynomialSize(self.1.0))
    }
}

impl GlweCiphertextMutViewPrototype for ProtoBinaryGlweCiphertextMutView64 {
    type KeyDistribution = BinaryKeyDistribution;

    type Precision = Precision64;

    closed spec fn raw(&self) -> Seq<u64> {
        self.0@
    }

    closed spec fn polynomial_size(&self) -> PolynomialSize {
        self.1
    }
}

/// What a prototype of a read-only GLWE ciphertext view is: the coefficients of the ciphertext
/// and the size of its polynomials, for one precision and one key distribution.
pub trait GlweCiphertextViewPrototype {
    /// The distribution of the key the ciphertext belongs to.
    type KeyDistribution: KeyDistributionMarker;

    /// The precision the ciphertext is represented in.
    type Precision: IntegerPrecision;

    /// The coefficients of the ciphertext.
    spec fn raw(&self) -> Seq<<Self::Precision as IntegerPrecision>::Raw>;

    /// The number of coefficients of each polynomial.
    spec fn polynomial_size(&self) -> PolynomialSize;
}

/// The prototype of a 32-bit binary GLWE ciphertext view. It owns its coefficients in a
/// vector: the buffer that a view aliases is made from it, and goes back into one.
pub struct ProtoBinaryGlweCiphertextView32(pub(crate) Vec<u32>, pub(crate) PolynomialSize);

impl ProtoBinaryGlweCiphertextView32 {
    /// The prototype with exactly the coefficients of `raw`, in polynomials of
    /// `polynomial_size` coefficients.
    pub(crate) fn from_raw(raw: Vec<u32>, polynomial_size: PolynomialSize) -> (prototype: Self)
        ensures
            prototype.raw() == raw@,
            prototype.polynomial_size() == polynomial_size,
    {
        ProtoBinaryGlweCiphertextView32(raw, polynomial_size)
    }

    /// A copy of the coefficients, and the polynomial size.
    pub(crate) fn to_raw(&self) -> (raw: (Vec<u32>, PolynomialSize))
        ensures
            raw.0@ == self.raw(),
            raw.1 == self.polynomial_size(),
    {
        let coefficients = self.0.clone();
        assert(coefficients@ =~= self.0@);
        (coefficients, PolynomialSize(self.1.0))
    }
}

impl GlweCiphertextViewPrototype for ProtoBinaryGlweCiphertextView32 {
    type KeyDistribution = BinaryKeyDistribution;

    type Precision = Precision32;

    closed spec fn raw(&self) -> Seq<u32> {
        self.0@
    }

    closed spec fn polynomial_size(&self) -> PolynomialSize {
        self.1
    }
}

/// The prototype of a 64-bit binary GLWE ciphertext view. It owns its coefficients in a
/// vector: the buffer that a view aliases is made from it, and goes back into one.
pub struct ProtoBinaryGlweCiphertextView64(pub(crate) Vec<u64>, pub(crate) PolynomialSize);

impl ProtoBinaryGlweCiphertextView64 {
    /// The prototype with exactly the coefficients of `raw`, in polynomials of
    /// `polynomial_size` coefficients.
    pub(crate) fn from_raw(raw: Vec<u64>, polynomial_size: PolynomialSize) -> (prototype: Self)
        ensures
            prototype.raw() == raw@,
            prototype.polynomial_size() == polynomial_size,
    {
        ProtoBinaryGlweCiphertextView64(raw, polynomial_size)
    }

    /// A copy of the coefficients, and the polynomial size.
    pub(crate) fn to_raw(&self) -> (raw: (Vec<u64>, PolynomialSize))
        ensures
            raw.0@ == self.raw(),
            raw.1 == self.polynomial_size(),
    {
        let coefficients = self.0.clone();
        assert(coefficients@ =~= self.0@);
        (coefficients, PolynomialSize(self.1.0))
    }
}

impl GlweCiphertextViewPrototype for ProtoBinaryGlweCiphertextView64 {
    type KeyDistribution = BinaryKeyDistribution;

    type Precision = Precision64;

    closed spec fn raw(&self) -> Seq<u64> {
        self.0@
    }

    closed spec fn polynomial_size(&self) -> PolynomialSize {
        self.1
    }
}

} // verus!
