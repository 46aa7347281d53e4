//! Creating an LWE ciphertext from a container.
use crate::specification::engines::AbstractEngine;
use crate::specification::entities::{Container, ContainerEntity, LweCiphertextEntity};
use vstd::prelude::*;

verus! {

/// Why an LWE ciphertext could not be created.
#[derive(Debug, Clone, Copy, PartialEq, Eq, Structural)]
pub enum LweCiphertextCreationError {
    /// The container holds no scalar.
    EmptyContainer,
}

impl LweCiphertextCreationError {
    /// Validates the length of a container: it must not be empty. Every other length is the
    /// size of some LWE ciphertext.
    pub fn perform_generic_checks(container_length: usize) -> (r: Result<(), Self>)
        ensures
            container_length == 0 <==> r == Err::<(), Self>(Self::EmptyContainer),
            container_length != 0 <==> r is Ok,
    {
        if container_length == 0 {
            return Err(Self::EmptyContainer);
        }
        Ok(())
    }

    /// The error, in words.
    pub fn message(&self) -> (text: &'static str)
        ensures
            *self == Self::EmptyContainer ==> text@ == "The container used to create the LWE ciphertext is of length 0!"@,
    {
        match self {
            Self::EmptyContainer => "The container used to create the LWE ciphertext is of length 0!",
        }
    }
}

/// Engines that create an LWE ciphertext from a container, without copying it.
///
/// The length of the container is the size of the ciphertext: its mask and its body.
pub trait LweCiphertextCreationEngine<Buffer, Ciphertext>: AbstractEngine where
    Buffer: Container,
    Ciphertext: LweCiphertextEntity + ContainerEntity<Buffer>,
 {
    /// Creates an LWE ciphertext from `container`, or says why it cannot: the container is
    /// empty. The engine is left as it was.
    fn create_lwe_ciphertext(&mut self, container: Buffer) -> (r: Result<
        Ciphertext,
        LweCiphertextCreationError,
    >)
        ensures
            container.spec_container_len() == 0 <==> r matches Err(
                LweCiphertextCreationError::EmptyContainer,
            ),
            r matches Ok(ciphertext) ==> {
                &&& ciphertext.spec_container() == container
                &&& ciphertext.spec_lwe_dimension().0 == container.spec_container_len() - 1
            },
            *final(self) == *old(self),
    ;

    /// Creates an LWE ciphertext from `container` without validating anything. The caller
    /// guarantees that the container is not empty.
    fn create_lwe_ciphertext_unchecked(&mut self, container: Buffer) -> (ciphertext: Ciphertext)
        requires
            container.spec_container_len() > 0,
        ensures
            ciphertext.spec_container() == container,
            ciphertext.spec_lwe_dimension().0 == container.spec_container_len() - 1,
            *final(self) == *old(self),
    ;
}

} // verus!
