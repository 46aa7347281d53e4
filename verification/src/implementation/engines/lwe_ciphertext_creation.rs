//! Creating LWE ciphertext views over buffers in caller memory.
use crate::implementation::engines::CoreEngine;
use crate::implementation::views::{LweCiphertextMutView, LweCiphertextView};
use crate::markers::IntegerPrecision;
use crate::memory::{BufferMut, BufferRef};
use crate::specification::engines::lwe_ciphertext_creation::{
    LweCiphertextCreationEngine, LweCiphertextCreationError,
};
use vstd::prelude::*;

verus! {

/// A read-only view is created over a shared buffer. Nothing is copied: the view holds the
/// handle that went in.
impl<P: IntegerPrecision, B> LweCiphertextCreationEngine<
    BufferRef<P::Raw>,
    LweCiphertextView<P>,
> for CoreEngine<B> {
    fn create_lwe_ciphertext(&mut self, container: BufferRef<P::Raw>) -> (r: Result<
        LweCiphertextView<P>,
        LweCiphertextCreationError,
    >) {
        match LweCiphertextCreationError::perform_generic_checks(container.len()) {
            Err(error) => Err(error),
            Ok(()) => Ok(self.create_lwe_ciphertext_unchecked(container)),
        }
    }

    fn create_lwe_ciphertext_unchecked(&mut self, container: BufferRef<P::Raw>) -> (ciphertext:
        LweCiphertextView<P>) {
        LweCiphertextView::from_container(container)
    }
}

/// A mutable view is created over an exclusive buffer. Nothing is copied: the view holds the
/// handle that went in, and with it the exclusivity.
impl<P: IntegerPrecision, B> LweCiphertextCreationEngine<
    BufferMut<P::Raw>,
    LweCiphertextMutView<P>,
> for CoreEngine<B> {
    fn create_lwe_ciphertext(&mut self, container: BufferMut<P::Raw>) -> (r: Result<
        LweCiphertextMutView<P>,
        LweCiphertextCreationError,
    >) {
        match LweCiphertextCreationError::perform_generic_checks(container.len()) {
            Err(error) => Err(error),
            Ok(()) => Ok(self.create_lwe_ciphertext_unchecked(container)),
        }
    }

    fn create_lwe_ciphertext_unchecked(&mut self, container: BufferMut<P::Raw>) -> (ciphertext:
        LweCiphertextMutView<P>) {
        LweCiphertextMutView::from_container(container)
    }
}

} // verus!
