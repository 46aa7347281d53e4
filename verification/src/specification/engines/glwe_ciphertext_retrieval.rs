//! Retrieving the container of a GLWE ciphertext.
use crate::specification::engines::AbstractEngine;
use crate::specification::entities::{ContainerEntity, GlweCiphertextEntity};
use vstd::prelude::*;

verus! {

/// Why the container of a GLWE ciphertext could not be retrieved. Retrieval validates
/// nothing: the one reason left is a failure of the backend itself.
#[derive(Debug, Clone, Copy, PartialEq, Eq, Structural)]
pub enum GlweCiphertextRetrievalError {
    /// The backend failed for a reason of its own.
    Engine,
}

impl GlweCiphertextRetrievalError {
    /// The error, in words.
    pub fn message(&self) -> (text: &'static str)
        ensures
            text@ == "Error occurred in the engine."@,
    {
        "Error occurred in the engine."
    }
}

/// Engines that retrieve the container of a GLWE ciphertext, consuming the ciphertext and
/// copying nothing.
pub trait GlweCiphertextRetrievalEngine<Ciphertext, Buffer>: AbstractEngine where
    Ciphertext: GlweCiphertextEntity + ContainerEntity<Buffer>,
 {
    /// Consumes `ciphertext` and returns the container it was made of. The engine is left as
    /// it was.
    fn retrieve_glwe_ciphertext(&mut self, ciphertext: Ciphertext) -> (r: Result<
        Buffer,
        GlweCiphertextRetrievalError,
    >)
        ensures
            r == Ok::<Buffer, GlweCiphertextRetrievalError>(ciphertext.spec_container()),
            *final(self) == *old(self),
    ;

    /// Consumes `ciphertext` and returns the container it was made of, without validating
    /// anything.
    fn retrieve_glwe_ciphertext_unchecked(&mut self, ciphertext: Ciphertext) -> (container:
        Buffer)
        ensures
            container == ciphertext.spec_container(),
            *final(self) == *old(self),
    ;
}

/// Retrieval undoes creation. Creation makes a GLWE ciphertext of the container that goes in,
/// and retrieval gives back the container that a ciphertext is made of: so what is retrieved
/// from a ciphertext is the container that it was created from, the same region of the same
/// length, whatever the engines, the precision and the shape.
pub proof fn lemma_retrieval_undoes_creation<Buffer, Ciphertext>(
    container: Buffer,
    created: Ciphertext,
    retrieved: Result<Buffer, GlweCiphertextRetrievalError>,
) where Ciphertext: GlweCiphertextEntity + ContainerEntity<Buffer>
    requires
        created.spec_container() == container,
        retrieved == Ok::<Buffer, GlweCiphertextRetrievalError>(created.spec_container()),
    ensures
        retrieved == Ok::<Buffer, GlweCiphertextRetrievalError>(container),
{
}

} // verus!
