//! Creating a GLWE ciphertext from a container.
use crate::implementation::entities::is_glwe_shaped;
use crate::specification::engines::AbstractEngine;
use crate::specification::entities::{Container, ContainerEntity, GlweCiphertextEntity};
use concrete_commons::parameters::PolynomialSize;
use vstd::prelude::*;

verus! {

/// Why a GLWE ciphertext could not be created.
#[derive(Debug, Clone, Copy, PartialEq, Eq, Structural)]
pub enum GlweCiphertextCreationError {
    /// The container holds no scalar.
    EmptySlice,
    /// The length of the container is not a multiple of the polynomial size.
    InvalidSliceSize,
}

impl GlweCiphertextCreationError {
    /// Validates the length of a container against a polynomial size: the container must not
    /// be empty, and must hold whole polynomials. A non-empty container never holds whole
    /// polynomials of no coefficient.
    pub fn perform_generic_checks(container_length: usize, polynomial_size: PolynomialSize) -> (r:
        Result<(), Self>)
        ensures
            container_length == 0 <==> r == Err::<(), Self>(Self::EmptySlice),
            container_length != 0 && !is_glwe_shaped(
                container_length as nat,
                polynomial_size.0 as nat,
            ) <==> r == Err::<(), Self>(Self::InvalidSliceSize),
            is_glwe_shaped(container_length as nat, polynomial_size.0 as nat) <==> r is Ok,
    {
        if container_length == 0 {
            return Err(Self::EmptySlice);
        }
        if polynomial_size.0 == 0 || container_length % polynomial_size.0 != 0 {
            return Err(Self::InvalidSliceSize);
        }
        Ok(())
    }

    /// The error, in words.
    pub fn message(&self) -> (text: &'static str)
        ensures
            *self == Self::EmptySlice ==> text@ == "The `values` slice is of size 0!"@,
            *self == Self::InvalidSliceSize ==> text@ == "The `values` slice size needs to be a multiple of `polynomial_size`."@,
    {
        match self {
            Self::EmptySlice => "The `values` slice is of size 0!",
            Self::InvalidSliceSize => "The `values` slice size needs to be a multiple of `polynomial_size`.",
        }
    }
}

/// Engines that create a GLWE ciphertext from a container, without copying it.
///
/// The container is any type a GLWE ciphertext can be made of; the ciphertext that comes back
/// is made of exactly the container that went in.
pub trait GlweCiphertextCreationEngine<Buffer, Ciphertext>: AbstractEngine where
    Buffer: Container,
    Ciphertext: GlweCiphertextEntity + ContainerEntity<Buffer>,
 {
    /// Creates a GLWE ciphertext from `container`, or says why it cannot: the container is
    /// empty, or its length is not a multiple of `polynomial_size`. The engine is left as it
    /// was.
    fn create_glwe_ciphertext(&mut self, container: Buffer, polynomial_size: PolynomialSize) -> (r:
        Result<Ciphertext, GlweCiphertextCreationError>)
        ensures
            container.spec_container_len() == 0 <==> r matches Err(
                GlweCiphertextCreationError::EmptySlice,
            ),
            container.spec_container_len() != 0 && !is_glwe_shaped(
                container.spec_container_len(),
                polynomial_size.0 as nat,
            ) <==> r matches Err(GlweCiphertextCreationError::InvalidSliceSize),
            r matches Ok(ciphertext) ==> {
                &&& ciphertext.spec_container() == container
                &&& ciphertext.spec_polynomial_size() == polynomial_size
                &&& ciphertext.spec_glwe_dimension().0 == container.spec_container_len() / (
                polynomial_size.0 as nat) - 1
            },
            *final(self) == *old(self),
    ;

    /// Creates a GLWE ciphertext from `container` without validating anything. The caller
    /// guarantees that the container holds whole polynomials, and at least one.
    fn create_glwe_ciphertext_unchecked(
        &mut self,
        container: Buffer,
        polynomial_size: PolynomialSize,
    ) -> (ciphertext: Ciphertext)
        requires
            is_glwe_shaped(container.spec_container_len(), polynomial_size.0 as nat),
        ensures
            ciphertext.spec_container() == container,
            ciphertext.spec_polynomial_size() == polynomial_size,
            ciphertext.spec_glwe_dimension().0 == container.spec_container_len() / (
            polynomial_size.0 as nat) - 1,
            *final(self) == *old(self),
    ;
}

} // verus!
