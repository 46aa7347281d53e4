//! Making prototypes of LWE ciphertext views.
use crate::generation::prototypes::lwe_ciphertext_view::{
    LweCiphertextMutViewPrototype, LweCiphertextViewPrototype, ProtoBinaryLweCiphertextMutView32,
    ProtoBinaryLweCiphertextMutView64, ProtoBinaryLweCiphertextView32,
    ProtoBinaryLweCiphertextView64,
};
use crate::generation::Maker;
use crate::markers::{IntegerPrecision, Precision32, Precision64};
use vstd::prelude::*;

verus! {

/// Makers that handle prototypes of read-only LWE ciphertext views.
pub trait PrototypesLweCiphertextView<Precision: IntegerPrecision>: Sized {
    /// The prototype that stands for a read-only view of this precision.
    type LweCiphertextViewProto: LweCiphertextViewPrototype<Precision = Precision>;

    /// Wraps `raw` as the prototype of a view with exactly these scalars. The maker is left
    /// as it was.
    fn transform_raw_to_ciphertext_view(&mut self, raw: Vec<Precision::Raw>) -> (prototype:
        Self::LweCiphertextViewProto)
        ensures
            prototype.raw() == raw@,
            *final(self) == *old(self),
    ;

    /// Copies the scalars of a prototype out. The maker is left as it was.
    fn transform_ciphertext_view_to_raw(
        &mut self,
        ciphertext_view: &Self::LweCiphertextViewProto,
    ) -> (raw: Vec<Precision::Raw>)
        ensures
            raw@ == ciphertext_view.raw(),
            *final(self) == *old(self),
    ;
}

impl<B> PrototypesLweCiphertextView<Precision32> for Maker<B> {
    type LweCiphertextViewProto = ProtoBinaryLweCiphertextView32;

    fn transform_raw_to_ciphertext_view(&mut self, raw: Vec<u32>) -> (prototype:
        ProtoBinaryLweCiphertextView32) {
        ProtoBinaryLweCiphertextView32::from_raw(raw)
    }

    fn transform_ciphertext_view_to_raw(
        &mut self,
        ciphertext_view: &ProtoBinaryLweCiphertextView32,
    ) -> (raw: Vec<u32>) {
        ciphertext_view.to_raw()
    }
}

impl<B> PrototypesLweCiphertextView<Precision64> for Maker<B> {
    type LweCiphertextViewProto = ProtoBinaryLweCiphertextView64;

    fn transform_raw_to_ciphertext_view(&mut self, raw: Vec<u64>) -> (prototype:
        ProtoBinaryLweCiphertextView64) {
        ProtoBinaryLweCiphertextView64::from_raw(raw)
    }

    fn transform_ciphertext_view_to_raw(
        &mut self,
        ciphertext_view: &ProtoBinaryLweCiphertextView64,
    ) -> (raw: Vec<u64>) {
        ciphertext_view.to_raw()
    }
}

/// Makers that handle prototypes of mutable LWE ciphertext views.
pub trait PrototypesLweCiphertextMutView<Precision: IntegerPrecision>: Sized {
    /// The prototype that stands for a mutable view of this precision.
    type LweCiphertextMutViewProto: LweCiphertextMutViewPrototype<Precision = Precision>;

    /// Wraps `raw` as the prototype of a view with exactly these scalars. The maker is left
    /// as it was.
    fn transform_raw_to_ciphertext_mut_view(&mut self, raw: Vec<Precision::Raw>) -> (prototype:
        Self::LweCiphertextMutViewProto)
        ensures
            prototype.raw() == raw@,
            *final(self) == *old(self),
    ;

    /// Copies the scalars of a prototype out. The maker is left as it was.
    fn transform_ciphertext_mut_view_to_raw(
        &mut self,
        ciphertext_view: &Self::LweCiphertextMutViewProto,
    ) -> (raw: Vec<Precision::Raw>)
        ensures
            raw@ == ciphertext_view.raw(),
            *final(self) == *old(self),
    ;
}

impl<B> PrototypesLweCiphertextMutView<Precision32> for Maker<B> {
    type LweCiphertextMutViewProto = ProtoBinaryLweCiphertextMutView32;

    fn transform_raw_to_ciphertext_mut_view(&mut self, raw: Vec<u32>) -> (prototype:
        ProtoBinaryLweCiphertextMutView32) {
        ProtoBinaryLweCiphertextMutView32::from_raw(raw)
    }

    fn transform_ciphertext_mut_view_to_raw(
        &mut self,
        ciphertext_view: &ProtoBinaryLweCiphertextMutView32,
    ) -> (raw: Vec<u32>) {
        ciphertext_view.to_raw()
    }
}

impl<B> PrototypesLweCiphertextMutView<Precision64> for Maker<B> {
    type LweCiphertextMutViewProto = ProtoBinaryLweCiphertextMutView64;

    fn transform_raw_to_ciphertext_mut_view(&mut self, raw: Vec<u64>) -> (prototype:
        ProtoBinaryLweCiphertextMutView64) {
        ProtoBinaryLweCiphertextMutView64::from_raw(raw)
    }

    fn transform_ciphertext_mut_view_to_raw(
        &mut self,
        ciphertext_view: &ProtoBinaryLweCiphertextMutView64,
    ) -> (raw: Vec<u64>) {
        ciphertext_view.to_raw()
    }
}

} // verus!
