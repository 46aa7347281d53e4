//! Retrieving the container of an LWE ciphertext.
use crate::specification::engines::AbstractEngine;
use crate::specification::entities::{ContainerEntity, LweCiphertextEntity};
use vstd::prelude::*;

verus! {

/// Why the container of an LWE ciphertext could not be retrieved. Retrieval validates
/// nothing: the one reason left is a failure of the backend itself.
#[derive(Debug, Clone, Copy, PartialEq, Eq, Structural)]
pub enum LweCiphertextRetrievalError {
    /// The backend failed for a reason of its own.
    Engine,
}

impl LweCiphertextRetrievalError {
    /// The error, in words.
    pub fn message(&self) -> (text: &'static str)
        ensures
            text@ == "Error occurred in the engine."@,
    {
        "Error occurred in the engine."
    }
}

/// Engines that retrieve the container of an LWE ciphertext, consuming the ciphertext and
/// copying nothing.
pub trait LweCiphertextRetrievalEngine<Ciphertext, Buffer>: AbstractEngine where
    Ciphertext: LweCiphertextEntity + ContainerEntity<Buffer>,
 {
    /// Consumes `ciphertext` and returns the container it was made of. The engine is left as
    /// it was.
    fn retrieve_lwe_ciphertext(&mut self, ciphertext: Ciphertext) -> (r: Result<
        Buffer,
        LweCiphertextRetrievalError,
    >)
        ensures
            r == Ok::<Buffer, LweCiphertextRetrievalError>(ciphertext.spec_container()),
            *final(self) == *old(self),
    ;

    /// Consumes `ciphertext` and returns the container it was made of, without validating
    /// anything.
    fn retrieve_lwe_ciphertext_unchecked(&mut self, ciphertext: Ciphertext) -> (container:
        Buffer)
        ensures
            container == ciphertext.spec_container(),
            *final(self) == *old(self),
    ;
}

/// Retrieval undoes creation. Creation makes an LWE ciphertext of the container that goes in,
/// and retrieval gives back the container that a ciphertext is made of: so what is retrieved
/// from a ciphertext is the container that it was created from, the same region of the same
/// length, whatever the engines, the precision and the shape.
pub proof fn lemma_retrieval_undoes_creation<Buffer, Ciphertext>(
    container: Buffer,
    created: Ciphertext,
    retrieved: Result<Buffer, LweCiphertextRetrievalError>,
) where Ciphertext: LweCiphertextEntity + ContainerEntity<Buffer>
    requires
        created.spec_container() == container,
        retrieved == Ok::<Buffer, LweCiphertextRetrievalError>(created.spec_container()),
    ensures
        retrieved == Ok::<Buffer, LweCiphertextRetrievalError>(container),
{
}

} // verus!
