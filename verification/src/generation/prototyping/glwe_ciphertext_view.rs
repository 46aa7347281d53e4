//! Making prototypes of GLWE ciphertext views.
use crate::generation::prototypes::glwe_ciphertext_view::{
    GlweCiphertextMutViewPrototype, GlweCiphertextViewPrototype, ProtoBinaryGlweCiphertextMutView32,
    ProtoBinaryGlweCiphertextMutView64, ProtoBinaryGlweCiphertextView32,
    ProtoBinaryGlweCiphertextView64,
};
use crate::generation::Maker;
use crate::markers::{IntegerPrecision, Precision32, Precision64};
use concrete_commons::parameters::PolynomialSize;
use vstd::prelude::*;

verus! {

/// Makers that handle prototypes of read-only GLWE ciphertext views.
pub trait PrototypesGlweCiphertextView<Precision: IntegerPrecision>: Sized {
    /// The prototype that stands for a read-only view of this precision.
    type GlweCiphertextViewProto: GlweCiphertextViewPrototype<Precision = Precision>;

    /// Wraps `raw` as the prototype of a view with exactly these coefficients, in polynomials
    /// of `polynomial_size` coefficients. The maker is left as it was.
    fn transform_raw_to_ciphertext_view(
        &mut self,
        raw: Vec<Precision::Raw>,
        polynomial_size: PolynomialSize,
    ) -> (prototype: Self::GlweCiphertextViewProto)
        ensures
            prototype.raw() == raw@,
            prototype.polynomial_size() == polynomial_size,
            *final(self) == *old(self),
    ;

    /// Copies the coefficients of a prototype out, with its polynomial size. The maker is left
    /// as it was.
    fn transform_ciphertext_view_to_raw(
        &mut self,
        ciphertext_view: &Self::GlweCiphertextViewProto,
    ) -> (raw: (Vec<Precision::Raw>, PolynomialSize))
        ensures
            raw.0@ == ciphertext_view.raw(),
            raw.1 == ciphertext_view.polynomial_size(),
            *final(self) == *old(self),
    ;
}

impl<B> PrototypesGlweCiphertextView<Precision32> for Maker<B> {
    type GlweCiphertextViewProto = ProtoBinaryGlweCiphertextView32;

    fn transform_raw_to_ciphertext_view(
        &mut self,
        raw: Vec<u32>,
        polynomial_size: PolynomialSize,
    ) -> (prototype: ProtoBinaryGlweCiphertextView32) {
        ProtoBinaryGlweCiphertextView32::from_raw(raw, polynomial_size)
    }

    fn transform_ciphertext_view_to_raw(
        &mut self,
        ciphertext_view: &ProtoBinaryGlweCiphertextView32,
    ) -> (raw: (Vec<u32>, PolynomialSize)) {
        ciphertext_view.to_raw()
    }
}

impl<B> PrototypesGlweCiphertextView<Precision64> for Maker<B> {
    type GlweCiphertextViewProto = ProtoBinaryGlweCiphertextView64;

    fn transform_raw_to_ciphertext_view(
        &mut self,
        raw: Vec<u64>,
        polynomial_size: PolynomialSize,
    ) -> (prototype: ProtoBinaryGlweCiphertextView64) {
        ProtoBinaryGlweCiphertextView64::from_raw(raw, polynomial_size)
    }

    fn transform_ciphertext_view_to_raw(
        &mut self,
        ciphertext_view: &ProtoBinaryGlweCiphertextView64,
    ) -> (raw: (Vec<u64>, PolynomialSize)) {
        ciphertext_view.to_raw()
    }
}

/// Makers that handle prototypes of mutable GLWE ciphertext views.
pub trait PrototypesGlweCiphertextMutView<Precision: IntegerPrecision>: Sized {
    /// The prototype that stands for a mutable view of this precision.
    type GlweCiphertextMutViewProto: GlweCiphertextMutViewPrototype<Precision = Precision>;

    /// Wraps `raw` as the prototype of a view with exactly these coefficients, in polynomials
    /// of `polynomial_size` coefficients. The maker is left as it was.
    fn transform_raw_to_ciphertext_mut_view(
        &mut self,
        raw: Vec<Precision::Raw>,
        polynomial_size: PolynomialSize,
    ) -> (prototype: Self::GlweCiphertextMutViewProto)
        ensures
            prototype.raw() == raw@,
            prototype.polynomial_size() == polynomial_size,
            *final(self) == *old(self),
    ;

    /// Copies the coefficients of a prototype out, with its polynomial size. The maker is left
    /// as it was.
    fn transform_ciphertext_mut_view_to_raw(
        &mut self,
        ciphertext_view: &Self::GlweCiphertextMutViewProto,
    ) -> (raw: (Vec<Precision::Raw>, PolynomialSize))
        ensures
            raw.0@ == ciphertext_view.raw(),
            raw.1 == ciphertext_view.polynomial_size(),
            *final(self) == *old(self),
    ;
}

impl<B> PrototypesGlweCiphertextMutView<Precision32> for Maker<B> {
    type GlweCiphertextMutViewProto = ProtoBinaryGlweCiphertextMutView32;

    fn transform_raw_to_ciphertext_mut_view(
        &mut self,
        raw: Vec<u32>,
        polynomial_size: PolynomialSize,
    ) -> (prototype: ProtoBinaryGlweCiphertextMutView32) {
        ProtoBinaryGlweCiphertextMutView32::from_raw(raw, polynomial_size)
    }

    fn transform_ciphertext_mut_view_to_raw(
        &mut self,
        ciphertext_view: &ProtoBinaryGlweCiphertextMutView32,
    ) -> (raw: (Vec<u32>, PolynomialSize)) {
        ciphertext_view.to_raw()
    }
}

impl<B> PrototypesGlweCiphertextMutView<Precision64> for Maker<B> {
    type GlweCiphertextMutViewProto = ProtoBinaryGlweCiphertextMutView64;

    fn transform_raw_to_ciphertext_mut_view(
        &mut self,
        raw: Vec<u64>,
        polynomial_size: PolynomialSize,
    ) -> (prototype: ProtoBinaryGlweCiphertextMutView64) {
        ProtoBinaryGlweCiphertextMutView64::from_raw(raw, polynomial_size)
    }

    fn transform_ciphertext_mut_view_to_raw(
        &mut self,
        ciphertext_view: &ProtoBinaryGlweCiphertextMutView64,
    ) -> (raw: (Vec<u64>, PolynomialSize)) {
        ciphertext_view.to_raw()
    }
}

} // verus!
