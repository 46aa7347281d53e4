//! Destroying ciphertext views.
use crate::implementation::engines::CoreEngine;
use crate::implementation::views::{
    GlweCiphertextMutView, GlweCiphertextView, LweCiphertextMutView, LweCiphertextView,
};
use crate::markers::IntegerPrecision;
use crate::specification::engines::destruction::{DestructionEngine, DestructionError};
use vstd::prelude::*;

verus! {

/// Destroying a read-only LWE view drops the handle. The engine has no access to caller
/// memory, so the region the view aliased is not touched.
impl<P: IntegerPrecision, B> DestructionEngine<LweCiphertextView<P>> for CoreEngine<B> {
    fn destroy(&mut self, entity: LweCiphertextView<P>) -> (r: Result<(), DestructionError>) {
        self.destroy_unchecked(entity);
        Ok(())
    }

    fn destroy_unchecked(&mut self, entity: LweCiphertextView<P>) {
        let _ = entity.into_container();
    }
}

/// Destroying a mutable LWE view drops the handle. The engine has no access to caller memory,
/// so the region the view aliased is not touched.
impl<P: IntegerPrecision, B> DestructionEngine<LweCiphertextMutView<P>> for CoreEngine<B> {
    fn destroy(&mut self, entity: LweCiphertextMutView<P>) -> (r: Result<(), DestructionError>) {
        self.destroy_unchecked(entity);
        Ok(())
    }

    fn destroy_unchecked(&mut self, entity: LweCiphertextMutView<P>) {
        let _ = entity.into_container();
    }
}

/// Destroying a read-only GLWE view drops the handle. The engine has no access to caller
/// memory, so the region the view aliased is not touched.
impl<P: IntegerPrecision, B> DestructionEngine<GlweCiphertextView<P>> for CoreEngine<B> {
    fn destroy(&mut self, entity: GlweCiphertextView<P>) -> (r: Result<(), DestructionError>) {
        self.destroy_unchecked(entity);
        Ok(())
    }

    fn destroy_unchecked(&mut self, entity: GlweCiphertextView<P>) {
        let _ = entity.into_container();
    }
}

/// Destroying a mutable GLWE view drops the handle. The engine has no access to caller
/// memory, so the region the view aliased is not touched.
impl<P: IntegerPrecision, B> DestructionEngine<GlweCiphertextMutView<P>> for CoreEngine<B> {
    fn destroy(&mut self, entity: GlweCiphertextMutView<P>) -> (r: Result<(), DestructionError>) {
        self.destroy_unchecked(entity);
        Ok(())
    }

    fn destroy_unchecked(&mut self, entity: GlweCiphertextMutView<P>) {
        let _ = entity.into_container();
    }
}

} // verus!
