//! Retrieving the buffer that an LWE ciphertext view aliases.
use crate::implementation::engines::CoreEngine;
use crate::implementation::views::{LweCiphertextMutView, LweCiphertextView};
use crate::markers::IntegerPrecision;
use crate::memory::{BufferMut, BufferRef};
use crate::specification::engines::lwe_ciphertext_retrieval::{
    LweCiphertextRetrievalEngine, LweCiphertextRetrievalError,
};
use vstd::prelude::*;

verus! {

/// A read-only view gives back the shared handle it was created over.
impl<P: IntegerPrecision, B> LweCiphertextRetrievalEngine<
    LweCiphertextView<P>,
    BufferRef<P::Raw>,
> for CoreEngine<B> {
    fn retrieve_lwe_ciphertext(&mut self, ciphertext: LweCiphertextView<P>) -> (r: Result<
        BufferRef<P::Raw>,
        LweCiphertextRetrievalError,
    >) {
        Ok(self.retrieve_lwe_ciphertext_unchecked(ciphertext))
    }

    fn retrieve_lwe_ciphertext_unchecked(&mut self, ciphertext: LweCiphertextView<P>) -> (container:
        BufferRef<P::Raw>) {
        ciphertext.into_container()
    }
}

/// A mutable view gives back the exclusive handle it was created over.
impl<P: IntegerPrecision, B> LweCiphertextRetrievalEngine<
    LweCiphertextMutView<P>,
    BufferMut<P::Raw>,
> for CoreEngine<B> {
    fn retrieve_lwe_ciphertext(&mut self, ciphertext: LweCiphertextMutView<P>) -> (r: Result<
        BufferMut<P::Raw>,
        LweCiphertextRetrievalError,
    >) {
        Ok(self.retrieve_lwe_ciphertext_unchecked(ciphertext))
    }

    fn retrieve_lwe_ciphertext_unchecked(&mut self, ciphertext: LweCiphertextMutView<P>) -> (container:
        BufferMut<P::Raw>) {
        ciphertext.into_container()
    }
}

} // verus!
