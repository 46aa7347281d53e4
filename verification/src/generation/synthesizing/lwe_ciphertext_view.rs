//! Synthesizing LWE ciphertext views.
//!
//! Every operation here works on the memory of one precision. What the maker holds besides,
//! its engine and the memory of the other precision, is never touched.
use crate::generation::prototypes::lwe_ciphertext_view::{
    LweCiphertextMutViewPrototype, LweCiphertextViewPrototype, ProtoBinaryLweCiphertextMutView32,
    ProtoBinaryLweCiphertextMutView64, ProtoBinaryLweCiphertextView32,
    ProtoBinaryLweCiphertextView64,
};
use crate::generation::prototyping::lwe_ciphertext_view::{
    PrototypesLweCiphertextMutView, PrototypesLweCiphertextView,
};
use crate::generation::{Maker, OwnsMemory};
use crate::implementation::views::{
    LweCiphertextMutView32, LweCiphertextMutView64, LweCiphertextView32, LweCiphertextView64,
};
use crate::markers::{IntegerPrecision, Precision32, Precision64};
use crate::memory::{BufferMut, BufferRef};
use crate::specification::engines::destruction::{DestructionEngine, DestructionError};
use crate::specification::engines::lwe_ciphertext_creation::{
    LweCiphertextCreationEngine, LweCiphertextCreationError,
};
use crate::specification::engines::lwe_ciphertext_retrieval::{
    LweCiphertextRetrievalEngine, LweCiphertextRetrievalError,
};
use crate::specification::entities::{ContainerEntity, LweCiphertextEntity};
use vstd::prelude::*;

verus! {

/// Makers that synthesize read-only LWE ciphertext views from prototypes.
pub trait SynthesizesLweCiphertextView<
    Precision: IntegerPrecision,
    LweCiphertextView,
>: PrototypesLweCiphertextView<Precision> + OwnsMemory<Precision> where
    LweCiphertextView: LweCiphertextEntity + ContainerEntity<BufferRef<Precision::Raw>>,
 {
    /// Copies the scalars of `prototype` into a fresh region and returns a view over it. Every
    /// other region is left as it was. A prototype without scalars stands for no ciphertext
    /// and is left out.
    fn synthesize_lwe_ciphertext_view(&mut self, prototype: &Self::LweCiphertextViewProto) -> (entity:
        LweCiphertextView)
        requires
            prototype.raw().len() > 0,
        ensures
            entity.spec_container().spec_region() == old(self).spec_memory().allocated(),
            entity.spec_container().spec_len() == prototype.raw().len(),
            !old(self).spec_memory().is_live(entity.spec_container().spec_region()),
            final(self).spec_memory()@ == old(self).spec_memory()@.insert(
                entity.spec_container().spec_region(),
                prototype.raw(),
            ),
            final(self).spec_memory().allocated() == old(self).spec_memory().allocated() + 1,
            final(self).spec_rest() == old(self).spec_rest(),
    ;

    /// Consumes `entity` and reclaims the region it aliases: the buffer goes into the
    /// prototype that comes back, uncopied, and the region is freed. Every other region is
    /// left as it was. The caller guarantees that the region is live, that is, that it has
    /// not been reclaimed before.
    fn unsynthesize_lwe_ciphertext_view(&mut self, entity: LweCiphertextView) -> (prototype:
        Self::LweCiphertextViewProto)
        requires
            old(self).spec_memory().holds(&entity.spec_container()),
        ensures
            prototype.raw() == old(self).spec_memory()@[entity.spec_container().spec_region()],
            final(self).spec_memory()@ == old(self).spec_memory()@.remove(
                entity.spec_container().spec_region(),
            ),
            final(self).spec_memory().allocated() == old(self).spec_memory().allocated(),
            final(self).spec_rest() == old(self).spec_rest(),
    ;

    /// Consumes `entity`. With `drop_underlying_memory` the region it aliases is reclaimed
    /// and freed, that region and no other; without it no region is freed or changed. The
    /// caller sets the flag on the destruction of the last alias of a region and on no other,
    /// and guarantees with it that the region is live.
    fn destroy_lwe_ciphertext_view(&mut self, entity: LweCiphertextView, drop_underlying_memory: bool)
        requires
            drop_underlying_memory ==> old(self).spec_memory().holds(&entity.spec_container()),
        ensures
            drop_underlying_memory ==> final(self).spec_memory()@ == old(
                self,
            ).spec_memory()@.remove(entity.spec_container().spec_region()),
            !drop_underlying_memory ==> final(self).spec_memory()@ == old(self).spec_memory()@,
            final(self).spec_memory().allocated() == old(self).spec_memory().allocated(),
            final(self).spec_rest() == old(self).spec_rest(),
    ;
}

/// Makers that synthesize mutable LWE ciphertext views from prototypes.
pub trait SynthesizesLweCiphertextMutView<
    Precision: IntegerPrecision,
    LweCiphertextMutView,
>: PrototypesLweCiphertextMutView<Precision> + OwnsMemory<Precision> where
    LweCiphertextMutView: LweCiphertextEntity + ContainerEntity<BufferMut<Precision::Raw>>,
 {
    /// Copies the scalars of `prototype` into a fresh region and returns a view over it, its
    /// only accessor. Every other region is left as it was. A prototype without scalars
    /// stands for no ciphertext and is left out.
    fn synthesize_lwe_ciphertext_mut_view(
        &mut self,
        prototype: &Self::LweCiphertextMutViewProto,
    ) -> (entity: LweCiphertextMutView)
        requires
            prototype.raw().len() > 0,
        ensures
            entity.spec_container().spec_region() == old(self).spec_memory().allocated(),
            entity.spec_container().spec_len() == prototype.raw().len(),
            !old(self).spec_memory().is_live(entity.spec_container().spec_region()),
            final(self).spec_memory()@ == old(self).spec_memory()@.insert(
                entity.spec_container().spec_region(),
                prototype.raw(),
            ),
            final(self).spec_memory().allocated() == old(self).spec_memory().allocated() + 1,
            final(self).spec_rest() == old(self).spec_rest(),
    ;

    /// Consumes `entity` and reclaims the region it aliases: the buffer goes into the
    /// prototype that comes back, uncopied, and the region is freed. Every other region is
    /// left as it was. The caller guarantees that the region is live.
    fn unsynthesize_lwe_ciphertext_mut_view(&mut self, entity: LweCiphertextMutView) -> (prototype:
        Self::LweCiphertextMutViewProto)
        requires
            old(self).spec_memory().holds_mut(&entity.spec_container()),
        ensures
            prototype.raw() == old(self).spec_memory()@[entity.spec_container().spec_region()],
            final(self).spec_memory()@ == old(self).spec_memory()@.remove(
                entity.spec_container().spec_region(),
            ),
            final(self).spec_memory().allocated() == old(self).spec_memory().allocated(),
            final(self).spec_rest() == old(self).spec_rest(),
    ;

    /// Consumes `entity` and reclaims the region it aliases, which is freed, that region and
    /// no other. A mutable view has no alias, so there is nothing to ask the caller but that
    /// the region is live.
    fn destroy_lwe_ciphertext_mut_view(&mut self, entity: LweCiphertextMutView)
        requires
            old(self).spec_memory().holds_mut(&entity.spec_container()),
        ensures
            final(self).spec_memory()@ == old(self).spec_memory()@.remove(
                entity.spec_container().spec_region(),
            ),
            final(self).spec_memory().allocated() == old(self).spec_memory().allocated(),
            final(self).spec_rest() == old(self).spec_rest(),
    ;
}

impl<B> SynthesizesLweCiphertextView<Precision32, LweCiphertextView32> for Maker<B> {
    fn synthesize_lwe_ciphertext_view(&mut self, prototype: &ProtoBinaryLweCiphertextView32) -> (entity:
        LweCiphertextView32) {
        let handle = self.memory_32_mut().leak(prototype.to_raw());
        let created: Result<LweCiphertextView32, LweCiphertextCreationError> =
            self.core_engine_mut().create_lwe_ciphertext(handle.share());
        created.unwrap()
    }

    fn unsynthesize_lwe_ciphertext_view(&mut self, entity: LweCiphertextView32) -> (prototype:
        ProtoBinaryLweCiphertextView32) {
        let retrieved: Result<BufferRef<u32>, LweCiphertextRetrievalError> =
            self.core_engine_mut().retrieve_lwe_ciphertext(entity);
        let slice = retrieved.unwrap();
        ProtoBinaryLweCiphertextView32::from_raw(self.memory_32_mut().reclaim(slice.region()))
    }

    fn destroy_lwe_ciphertext_view(&mut self, entity: LweCiphertextView32, drop_underlying_memory: bool) {
        if drop_underlying_memory {
            let retrieved: Result<BufferRef<u32>, LweCiphertextRetrievalError> =
                self.core_engine_mut().retrieve_lwe_ciphertext(entity);
            let slice = retrieved.unwrap();
            let _ = self.memory_32_mut().reclaim(slice.region());
        } else {
            let destroyed: Result<(), DestructionError> = self.core_engine_mut().destroy(entity);
            destroyed.unwrap();
        }
    }
}

impl<B> SynthesizesLweCiphertextView<Precision64, LweCiphertextView64> for Maker<B> {
    fn synthesize_lwe_ciphertext_view(&mut self, prototype: &ProtoBinaryLweCiphertextView64) -> (entity:
        LweCiphertextView64) {
        let handle = self.memory_64_mut().leak(prototype.to_raw());
        let created: Result<LweCiphertextView64, LweCiphertextCreationError> =
            self.core_engine_mut().create_lwe_ciphertext(handle.share());
        created.unwrap()
    }

    fn unsynthesize_lwe_ciphertext_view(&mut self, entity: LweCiphertextView64) -> (prototype:
        ProtoBinaryLweCiphertextView64) {
        let retrieved: Result<BufferRef<u64>, LweCiphertextRetrievalError> =
            self.core_engine_mut().retrieve_lwe_ciphertext(entity);
        let slice = retrieved.unwrap();
        ProtoBinaryLweCiphertextView64::from_raw(self.memory_64_mut().reclaim(slice.region()))
    }

    fn destroy_lwe_ciphertext_view(&mut self, entity: LweCiphertextView64, drop_underlying_memory: bool) {
        if drop_underlying_memory {
            let retrieved: Result<BufferRef<u64>, LweCiphertextRetrievalError> =
                self.core_engine_mut().retrieve_lwe_ciphertext(entity);
            let slice = retrieved.unwrap();
            let _ = self.memory_64_mut().reclaim(slice.region());
        } else {
            let destroyed: Result<(), DestructionError> = self.core_engine_mut().destroy(entity);
            destroyed.unwrap();
        }
    }
}

impl<B> SynthesizesLweCiphertextMutView<Precision32, LweCiphertextMutView32> for Maker<B> {
    fn synthesize_lwe_ciphertext_mut_view(
        &mut self,
        prototype: &ProtoBinaryLweCiphertextMutView32,
    ) -> (entity: LweCiphertextMutView32) {
        let handle = self.memory_32_mut().leak(prototype.to_raw());
        let created: Result<LweCiphertextMutView32, LweCiphertextCreationError> =
            self.core_engine_mut().create_lwe_ciphertext(handle);
        created.unwrap()
    }

    fn unsynthesize_lwe_ciphertext_mut_view(&mut self, entity: LweCiphertextMutView32) -> (prototype:
        ProtoBinaryLweCiphertextMutView32) {
        let retrieved: Result<BufferMut<u32>, LweCiphertextRetrievalError> =
            self.core_engine_mut().retrieve_lwe_ciphertext(entity);
        let slice = retrieved.unwrap();
        ProtoBinaryLweCiphertextMutView32::from_raw(self.memory_32_mut().reclaim(slice.region()))
    }

    fn destroy_lwe_ciphertext_mut_view(&mut self, entity: LweCiphertextMutView32) {
        let retrieved: Result<BufferMut<u32>, LweCiphertextRetrievalError> =
            self.core_engine_mut().retrieve_lwe_ciphertext(entity);
        let slice = retrieved.unwrap();
        let _ = self.memory_32_mut().reclaim(slice.region());
    }
}

impl<B> SynthesizesLweCiphertextMutView<Precision64, LweCiphertextMutView64> for Maker<B> {
    fn synthesize_lwe_ciphertext_mut_view(
        &mut self,
        prototype: &ProtoBinaryLweCiphertextMutView64,
    ) -> (entity: LweCiphertextMutView64) {
        let handle = self.memory_64_mut().leak(prototype.to_raw());
        let created: Result<LweCiphertextMutView64, LweCiphertextCreationError> =
            self.core_engine_mut().create_lwe_ciphertext(handle);
        created.unwrap()
    }

    fn unsynthesize_lwe_ciphertext_mut_view(&mut self, entity: LweCiphertextMutView64) -> (prototype:
        ProtoBinaryLweCiphertextMutView64) {
        let retrieved: Result<BufferMut<u64>, LweCiphertextRetrievalError> =
            self.core_engine_mut().retrieve_lwe_ciphertext(entity);
        let slice = retrieved.unwrap();
        ProtoBinaryLweCiphertextMutView64::from_raw(self.memory_64_mut().reclaim(slice.region()))
    }

    fn destroy_lwe_ciphertext_mut_view(&mut self, entity: LweCiphertextMutView64) {
        let retrieved: Result<BufferMut<u64>, LweCiphertextRetrievalError> =
            self.core_engine_mut().retrieve_lwe_ciphertext(entity);
        let slice = retrieved.unwrap();
        let _ = self.memory_64_mut().reclaim(slice.region());
    }
}

} // verus!
