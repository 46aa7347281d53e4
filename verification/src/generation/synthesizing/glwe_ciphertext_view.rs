//! Synthesizing GLWE ciphertext views.
//!
//! Every operation here works on the memory of one precision. What the maker holds besides,
//! its engine and the memory of the other precision, is never touched.
use crate::generation::prototypes::glwe_ciphertext_view::{
    GlweCiphertextMutViewPrototype, GlweCiphertextViewPrototype, ProtoBinaryGlweCiphertextMutView32,
    ProtoBinaryGlweCiphertextMutView64, ProtoBinaryGlweCiphertextView32,
    ProtoBinaryGlweCiphertextView64,
};
use crate::generation::prototyping::glwe_ciphertext_view::{
    PrototypesGlweCiphertextMutView, PrototypesGlweCiphertextView,
};
use crate::generation::{Maker, OwnsMemory};
use crate::implementation::entities::is_glwe_shaped;
use crate::implementation::views::{
    GlweCiphertextMutView32, GlweCiphertextMutView64, GlweCiphertextView32, GlweCiphertextView64,
};
use crate::markers::{IntegerPrecision, Precision32, Precision64};
use crate::memory::{BufferMut, BufferRef};
use crate::specification::engines::destruction::{DestructionEngine, DestructionError};
use crate::specification::engines::glwe_ciphertext_creation::{
    GlweCiphertextCreationEngine, GlweCiphertextCreationError,
};
use crate::specification::engines::glwe_ciphertext_retrieval::{
    GlweCiphertextRetrievalEngine, GlweCiphertextRetrievalError,
};
use crate::specification::entities::{ContainerEntity, GlweCiphertextEntity};
use vstd::prelude::*;

verus! {

/// Makers that synthesize read-only GLWE ciphertext views from prototypes.
pub trait SynthesizesGlweCiphertextView<
    Precision: IntegerPrecision,
    GlweCiphertextView,
>: PrototypesGlweCiphertextView<Precision> + OwnsMemory<Precision> where
    GlweCiphertextView: GlweCiphertextEntity + ContainerEntity<BufferRef<Precision::Raw>>,
 {
    /// Copies the coefficients of `prototype` into a fresh region and returns a view over it. Every
    /// other region is left as it was. The prototype holds whole polynomials, and at
    /// least one: any other stands for no ciphertext and is left out.
    fn synthesize_glwe_ciphertext_view(&mut self, prototype: &Self::GlweCiphertextViewProto) -> (entity:
        GlweCiphertextView)
        requires
            is_glwe_shaped(prototype.raw().len(), prototype.polynomial_size().0 as nat),
        ensures
            entity.spec_polynomial_size() == prototype.polynomial_size(),
            entity.spec_container().spec_region() == old(self).spec_memory().allocated(),
            entity.spec_container().spec_len() == prototype.raw().len(),
            !old(self).spec_memory().is_live(entity.spec_container().spec_region()),
            final(self).spec_memory()@ == old(self).spec_memory()@.insert(
                entity.spec_container().spec_region(),
                prototype.raw(),
            ),
            final(self).spec_memory().allocated() == old(self).spec_memory().allocated() + 1,
            final(self).spec_rest() == old(self).spec_rest(),
    ;

    /// Consumes `entity` and reclaims the region it aliases: the buffer goes into the
    /// prototype that comes back, uncopied, and the region is freed. Every other region is
    /// left as it was. The caller guarantees that the region is live, that is, that it has
    /// not been reclaimed before.
    fn unsynthesize_glwe_ciphertext_view(&mut self, entity: GlweCiphertextView) -> (prototype:
        Self::GlweCiphertextViewProto)
        requires
            old(self).spec_memory().holds(&entity.spec_container()),
        ensures
            prototype.raw() == old(self).spec_memory()@[entity.spec_container().spec_region()],
            prototype.polynomial_size() == entity.spec_polynomial_size(),
            final(self).spec_memory()@ == old(self).spec_memory()@.remove(
                entity.spec_container().spec_region(),
            ),
            final(self).spec_memory().allocated() == old(self).spec_memory().allocated(),
            final(self).spec_rest() == old(self).spec_rest(),
    ;

    /// Consumes `entity`. With `drop_underlying_memory` the region it aliases is reclaimed
    /// and freed, that region and no other; without it no region is freed or changed. The
    /// caller sets the flag on the destruction of the last alias of a region and on no other,
    /// and guarantees with it that the region is live.
    fn destroy_glwe_ciphertext_view(&mut self, entity: GlweCiphertextView, drop_underlying_memory: bool)
        requires
            drop_underlying_memory ==> old(self).spec_memory().holds(&entity.spec_container()),
        ensures
            drop_underlying_memory ==> final(self).spec_memory()@ == old(
                self,
            ).spec_memory()@.remove(entity.spec_container().spec_region()),
            !drop_underlying_memory ==> final(self).spec_memory()@ == old(self).spec_memory()@,
            final(self).spec_memory().allocated() == old(self).spec_memory().allocated(),
            final(self).spec_rest() == old(self).spec_rest(),
    ;
}

/// Makers that synthesize mutable GLWE ciphertext views from prototypes.
pub trait SynthesizesGlweCiphertextMutView<
    Precision: IntegerPrecision,
    GlweCiphertextMutView,
>: PrototypesGlweCiphertextMutView<Precision> + OwnsMemory<Precision> where
    GlweCiphertextMutView: GlweCiphertextEntity + ContainerEntity<BufferMut<Precision::Raw>>,
 {
    /// Copies the coefficients of `prototype` into a fresh region and returns a view over it, its
    /// only accessor. Every other region is left as it was. The prototype holds
    /// whole polynomials, and at least one: any other stands for no ciphertext and is left out.
    fn synthesize_glwe_ciphertext_mut_view(
        &mut self,
        prototype: &Self::GlweCiphertextMutViewProto,
    ) -> (entity: GlweCiphertextMutView)
        requires
            is_glwe_shaped(prototype.raw().len(), prototype.polynomial_size().0 as nat),
        ensures
            entity.spec_polynomial_size() == prototype.polynomial_size(),
            entity.spec_container().spec_region() == old(self).spec_memory().allocated(),
            entity.spec_container().spec_len() == prototype.raw().len(),
            !old(self).spec_memory().is_live(entity.spec_container().spec_region()),
            final(self).spec_memory()@ == old(self).spec_memory()@.insert(
                entity.spec_container().spec_region(),
                prototype.raw(),
            ),
            final(self).spec_memory().allocated() == old(self).spec_memory().allocated() + 1,
            final(self).spec_rest() == old(self).spec_rest(),
    ;

    /// Consumes `entity` and reclaims the region it aliases: the buffer goes into the
    /// prototype that comes back, uncopied, and the region is freed. Every other region is
    /// left as it was. The caller guarantees that the region is live.
    fn unsynthesize_glwe_ciphertext_mut_view(&mut self, entity: GlweCiphertextMutView) -> (prototype:
        Self::GlweCiphertextMutViewProto)
        requires
            old(self).spec_memory().holds_mut(&entity.spec_container()),
        ensures
            prototype.raw() == old(self).spec_memory()@[entity.spec_container().spec_region()],
            prototype.polynomial_size() == entity.spec_polynomial_size(),
            final(self).spec_memory()@ == old(self).spec_memory()@.remove(
                entity.spec_container().spec_region(),
            ),
            final(self).spec_memory().allocated() == old(self).spec_memory().allocated(),
            final(self).spec_rest() == old(self).spec_rest(),
    ;

    /// Consumes `entity` and reclaims the region it aliases, which is freed, that region and
    /// no other. A mutable view has no alias, so there is nothing to ask the caller but that
    /// the region is live.
    fn destroy_glwe_ciphertext_mut_view(&mut self, entity: GlweCiphertextMutView)
        requires
            old(self).spec_memory().holds_mut(&entity.spec_container()),
        ensures
            final(self).spec_memory()@ == old(self).spec_memory()@.remove(
                entity.spec_container().spec_region(),
            ),
            final(self).spec_memory().allocated() == old(self).spec_memory().allocated(),
            final(self).spec_rest() == old(self).spec_rest(),
    ;
}

impl<B> SynthesizesGlweCiphertextView<Precision32, GlweCiphertextView32> for Maker<B> {
    fn synthesize_glwe_ciphertext_view(&mut self, prototype: &ProtoBinaryGlweCiphertextView32) -> (entity:
        GlweCiphertextView32) {
        let (raw, polynomial_size) = prototype.to_raw();
        let handle = self.memory_32_mut().leak(raw);
        let created: Result<GlweCiphertextView32, GlweCiphertextCreationError> =
            self.core_engine_mut().create_glwe_ciphertext(handle.share(), polynomial_size);
        created.unwrap()
    }

    fn unsynthesize_glwe_ciphertext_view(&mut self, entity: GlweCiphertextView32) -> (prototype:
        ProtoBinaryGlweCiphertextView32) {
        let polynomial_size = entity.polynomial_size();
        let retrieved: Result<BufferRef<u32>, GlweCiphertextRetrievalError> =
            self.core_engine_mut().retrieve_glwe_ciphertext(entity);
        let slice = retrieved.unwrap();
        ProtoBinaryGlweCiphertextView32::from_raw(
            self.memory_32_mut().reclaim(slice.region()),
            polynomial_size,
        )
    }

    fn destroy_glwe_ciphertext_view(&mut self, entity: GlweCiphertextView32, drop_underlying_memory: bool) {
        if drop_underlying_memory {
            let retrieved: Result<BufferRef<u32>, GlweCiphertextRetrievalError> =
                self.core_engine_mut().retrieve_glwe_ciphertext(entity);
            let slice = retrieved.unwrap();
            let _ = self.memory_32_mut().reclaim(slice.region());
        } else {
            let destroyed: Result<(), DestructionError> = self.core_engine_mut().destroy(entity);
            destroyed.unwrap();
        }
    }
}

impl<B> SynthesizesGlweCiphertextView<Precision64, GlweCiphertextView64> for Maker<B> {
    fn synthesize_glwe_ciphertext_view(&mut self, prototype: &ProtoBinaryGlweCiphertextView64) -> (entity:
        GlweCiphertextView64) {
        let (raw, polynomial_size) = prototype.to_raw();
        let handle = self.memory_64_mut().leak(raw);
        let created: Result<GlweCiphertextView64, GlweCiphertextCreationError> =
            self.core_engine_mut().create_glwe_ciphertext(handle.share(), polynomial_size);
        created.unwrap()
    }

    fn unsynthesize_glwe_ciphertext_view(&mut self, entity: GlweCiphertextView64) -> (prototype:
        ProtoBinaryGlweCiphertextView64) {
        let polynomial_size = entity.polynomial_size();
        let retrieved: Result<BufferRef<u64>, GlweCiphertextRetrievalError> =
            self.core_engine_mut().retrieve_glwe_ciphertext(entity);
        let slice = retrieved.unwrap();
        ProtoBinaryGlweCiphertextView64::from_raw(
            self.memory_64_mut().reclaim(slice.region()),
            polynomial_size,
        )
    }

    fn destroy_glwe_ciphertext_view(&mut self, entity: GlweCiphertextView64, drop_underlying_memory: bool) {
        if drop_underlying_memory {
            let retrieved: Result<BufferRef<u64>, GlweCiphertextRetrievalError> =
                self.core_engine_mut().retrieve_glwe_ciphertext(entity);
            let slice = retrieved.unwrap();
            let _ = self.memory_64_mut().reclaim(slice.region());
        } else {
            let destroyed: Result<(), DestructionError> = self.core_engine_mut().destroy(entity);
            destroyed.unwrap();
        }
    }
}

impl<B> SynthesizesGlweCiphertextMutView<Precision32, GlweCiphertextMutView32> for Maker<B> {
    fn synthesize_glwe_ciphertext_mut_view(
        &mut self,
        prototype: &ProtoBinaryGlweCiphertextMutView32,
    ) -> (entity: GlweCiphertextMutView32) {
        let (raw, polynomial_size) = prototype.to_raw();
        let handle = self.memory_32_mut().leak(raw);
        let created: Result<GlweCiphertextMutView32, GlweCiphertextCreationError> =
            self.core_engine_mut().create_glwe_ciphertext(handle, polynomial_size);
        created.unwrap()
    }

    fn unsynthesize_glwe_ciphertext_mut_view(&mut self, entity: GlweCiphertextMutView32) -> (prototype:
        ProtoBinaryGlweCiphertextMutView32) {
        let polynomial_size = entity.polynomial_size();
        let retrieved: Result<BufferMut<u32>, GlweCiphertextRetrievalError> =
            self.core_engine_mut().retrieve_glwe_ciphertext(entity);
        let slice = retrieved.unwrap();
        ProtoBinaryGlweCiphertextMutView32::from_raw(
            self.memory_32_mut().reclaim(slice.region()),
            polynomial_size,
        )
    }

    fn destroy_glwe_ciphertext_mut_view(&mut self, entity: GlweCiphertextMutView32) {
        let retrieved: Result<BufferMut<u32>, GlweCiphertextRetrievalError> =
            self.core_engine_mut().retrieve_glwe_ciphertext(entity);
        let slice = retrieved.unwrap();
        let _ = self.memory_32_mut().reclaim(slice.region());
    }
}

impl<B> SynthesizesGlweCiphertextMutView<Precision64, GlweCiphertextMutView64> for Maker<B> {
    fn synthesize_glwe_ciphertext_mut_view(
        &mut self,
        prototype: &ProtoBinaryGlweCiphertextMutView64,
    ) -> (entity: GlweCiphertextMutView64) {
        let (raw, polynomial_size) = prototype.to_raw();
        let handle = self.memory_64_mut().leak(raw);
        let created: Result<GlweCiphertextMutView64, GlweCiphertextCreationError> =
            self.core_engine_mut().create_glwe_ciphertext(handle, polynomial_size);
        created.unwrap()
    }

    fn unsynthesize_glwe_ciphertext_mut_view(&mut self, entity: GlweCiphertextMutView64) -> (prototype:
        ProtoBinaryGlweCiphertextMutView64) {
        let polynomial_size = entity.polynomial_size();
        let retrieved: Result<BufferMut<u64>, GlweCiphertextRetrievalError> =
            self.core_engine_mut().retrieve_glwe_ciphertext(entity);
        let slice = retrieved.unwrap();
        ProtoBinaryGlweCiphertextMutView64::from_raw(
            self.memory_64_mut().reclaim(slice.region()),
            polynomial_size,
        )
    }

    fn destroy_glwe_ciphertext_mut_view(&mut self, entity: GlweCiphertextMutView64) {
        let retrieved: Result<BufferMut<u64>, GlweCiphertextRetrievalError> =
            self.core_engine_mut().retrieve_glwe_ciphertext(entity);
        let slice = retrieved.unwrap();
        let _ = self.memory_64_mut().reclaim(slice.region());
    }
}

} // verus!
