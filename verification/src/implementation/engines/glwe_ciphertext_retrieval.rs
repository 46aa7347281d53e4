//! Retrieving the buffer that a GLWE ciphertext view aliases.
use crate::implementation::engines::CoreEngine;
use crate::implementation::views::{GlweCiphertextMutView, GlweCiphertextView};
use crate::markers::IntegerPrecision;
use crate::memory::{BufferMut, BufferRef};
use crate::specification::engines::glwe_ciphertext_retrieval::{
    GlweCiphertextRetrievalEngine, GlweCiphertextRetrievalError,
};
use vstd::prelude::*;

verus! {

/// A read-only view gives back the shared handle it was created over.
impl<P: IntegerPrecision, B> GlweCiphertextRetrievalEngine<
    GlweCiphertextView<P>,
    BufferRef<P::Raw>,
> for CoreEngine<B> {
    fn retrieve_glwe_ciphertext(&mut self, ciphertext: GlweCiphertextView<P>) -> (r: Result<
        BufferRef<P::Raw>,
        GlweCiphertextRetrievalError,
    >) {
        Ok(self.retrieve_glwe_ciphertext_unchecked(ciphertext))
    }

    fn retrieve_glwe_ciphertext_unchecked(&mut self, ciphertext: GlweCiphertextView<P>) -> (container:
        BufferRef<P::Raw>) {
        ciphertext.into_container()
    }
}

/// A mutable view gives back the exclusive handle it was created over.
impl<P: IntegerPrecision, B> GlweCiphertextRetrievalEngine<
    GlweCiphertextMutView<P>,
    BufferMut<P::Raw>,
> for CoreEngine<B> {
    fn retrieve_glwe_ciphertext(&mut self, ciphertext: GlweCiphertextMutView<P>) -> (r: Result<
        BufferMut<P::Raw>,
        GlweCiphertextRetrievalError,
    >) {
        Ok(self.retrieve_glwe_ciphertext_unchecked(ciphertext))
    }

    fn retrieve_glwe_ciphertext_unchecked(&mut self, ciphertext: GlweCiphertextMutView<P>) -> (container:
        BufferMut<P::Raw>) {
        ciphertext.into_container()
    }
}

} // verus!
