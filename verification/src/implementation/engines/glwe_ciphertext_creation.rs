//! Creating GLWE ciphertext views over buffers in caller memory.
use crate::implementation::engines::CoreEngine;
use crate::implementation::entities::lemma_whole_polynomials;
use crate::implementation::views::{GlweCiphertextMutView, GlweCiphertextView};
use crate::markers::IntegerPrecision;
use crate::memory::{BufferMut, BufferRef};
use crate::specification::engines::glwe_ciphertext_creation::{
    GlweCiphertextCreationEngine, GlweCiphertextCreationError,
};
use concrete_commons::parameters::PolynomialSize;
use vstd::prelude::*;

verus! {

/// A read-only view is created over a shared buffer. Nothing is copied: the view holds the
/// handle that went in.
impl<P: IntegerPrecision, B> GlweCiphertextCreationEngine<
    BufferRef<P::Raw>,
    GlweCiphertextView<P>,
> for CoreEngine<B> {
    fn create_glwe_ciphertext(&mut self, container: BufferRef<P::Raw>, polynomial_size: PolynomialSize) -> (r:
        Result<GlweCiphertextView<P>, GlweCiphertextCreationError>) {
        match GlweCiphertextCreationError::perform_generic_checks(container.len(), polynomial_size) {
            Err(error) => Err(error),
            Ok(()) => Ok(self.create_glwe_ciphertext_unchecked(container, polynomial_size)),
        }
    }

    fn create_glwe_ciphertext_unchecked(
        &mut self,
        container: BufferRef<P::Raw>,
        polynomial_size: PolynomialSize,
    ) -> (ciphertext: GlweCiphertextView<P>) {
        proof {
            lemma_whole_polynomials(container.spec_len() as nat, polynomial_size.0 as nat);
        }
        GlweCiphertextView::from_container(container, polynomial_size)
    }
}

/// A mutable view is created over an exclusive buffer. Nothing is copied: the view holds the
/// handle that went in, and with it the exclusivity.
impl<P: IntegerPrecision, B> GlweCiphertextCreationEngine<
    BufferMut<P::Raw>,
    GlweCiphertextMutView<P>,
> for CoreEngine<B> {
    fn create_glwe_ciphertext(&mut self, container: BufferMut<P::Raw>, polynomial_size: PolynomialSize) -> (r:
        Result<GlweCiphertextMutView<P>, GlweCiphertextCreationError>) {
        match GlweCiphertextCreationError::perform_generic_checks(container.len(), polynomial_size) {
            Err(error) => Err(error),
            Ok(()) => Ok(self.create_glwe_ciphertext_unchecked(container, polynomial_size)),
        }
    }

    fn create_glwe_ciphertext_unchecked(
        &mut self,
        container: BufferMut<P::Raw>,
        polynomial_size: PolynomialSize,
    ) -> (ciphertext: GlweCiphertextMutView<P>) {
        proof {
            lemma_whole_polynomials(container.spec_len() as nat, polynomial_size.0 as nat);
        }
        GlweCiphertextMutView::from_container(container, polynomial_size)
    }
}

} // verus!
