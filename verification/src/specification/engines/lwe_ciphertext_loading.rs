//! Loading one LWE ciphertext out of an LWE ciphertext vector.
use crate::specification::engines::AbstractEngine;
use crate::specification::entities::{LweCiphertextEntity, LweCiphertextVectorEntity};
use concrete_commons::parameters::LweCiphertextIndex;
use vstd::prelude::*;

verus! {

/// Why an LWE ciphertext could not be loaded.
#[derive(Debug, Clone, Copy, PartialEq, Eq, Structural)]
pub enum LweCiphertextLoadingError {
    /// The index points past the last ciphertext of the vector.
    IndexTooLarge,
}

impl LweCiphertextLoadingError {
    /// The error, in words.
    pub fn message(&self) -> (text: &'static str)
        ensures
            *self == Self::IndexTooLarge ==> text@ == "The index must not exceed the size of the vector."@,
    {
        match self {
            Self::IndexTooLarge => "The index must not exceed the size of the vector.",
        }
    }
}

/// Engines that load the ciphertext at one position of an LWE ciphertext vector into a
/// ciphertext of its own.
pub trait LweCiphertextLoadingEngine<CiphertextVector, Ciphertext>: AbstractEngine where
    Ciphertext: LweCiphertextEntity,
    CiphertextVector: LweCiphertextVectorEntity<
        KeyFlavor = Ciphertext::KeyFlavor,
        Representation = Ciphertext::Representation,
    >,
 {
    /// Whether `ciphertext` holds the scalars of the ciphertext of `vector` at position `i`.
    spec fn is_ciphertext_at(ciphertext: &Ciphertext, vector: &CiphertextVector, i: nat) -> bool;

    /// Loads the ciphertext of `vector` at position `i`, or says that there is none: the
    /// positions run from zero to the number of ciphertexts, excluded. The engine is left as
    /// it was.
    fn load_lwe_ciphertext(&mut self, vector: &CiphertextVector, i: LweCiphertextIndex) -> (r:
        Result<Ciphertext, LweCiphertextLoadingError>)
        ensures
            i.0 >= vector.spec_lwe_ciphertext_count().0 <==> r matches Err(
                LweCiphertextLoadingError::IndexTooLarge,
            ),
            r matches Ok(ciphertext) ==> {
                &&& ciphertext.spec_lwe_dimension() == vector.spec_lwe_dimension()
                &&& Self::is_ciphertext_at(&ciphertext, vector, i.0 as nat)
            },
            *final(self) == *old(self),
    ;

    /// Loads the ciphertext of `vector` at position `i` without validating anything. The
    /// caller guarantees that the vector has a ciphertext at that position.
    fn load_lwe_ciphertext_unchecked(&mut self, vector: &CiphertextVector, i: LweCiphertextIndex) -> (ciphertext:
        Ciphertext)
        requires
            i.0 < vector.spec_lwe_ciphertext_count().0,
        ensures
            ciphertext.spec_lwe_dimension() == vector.spec_lwe_dimension(),
            Self::is_ciphertext_at(&ciphertext, vector, i.0 as nat),
            *final(self) == *old(self),
    ;
}

} // verus!
