//! Decrypting a GLWE ciphertext into a fresh plaintext vector.
use crate::specification::engines::AbstractEngine;
use crate::specification::entities::{
    GlweCiphertextEntity, GlweSecretKeyEntity, PlaintextVectorEntity,
};
use vstd::prelude::*;

verus! {

/// Why a GLWE ciphertext could not be decrypted.
#[derive(Debug, Clone, Copy, PartialEq, Eq, Structural)]
pub enum GlweCiphertextDecryptionError {
    /// The key and the ciphertext differ in their GLWE dimension.
    GlweDimensionMismatch,
    /// The key and the ciphertext differ in their polynomial size.
    PolynomialSizeMismatch,
}

impl GlweCiphertextDecryptionError {
    /// The error, in words.
    pub fn message(&self) -> (text: &'static str)
        ensures
            *self == Self::GlweDimensionMismatch ==> text@ == "The ciphertext and secret key glwe dimension must be the same."@,
            *self == Self::PolynomialSizeMismatch ==> text@ == "The ciphertext and secret key polynomial size must be the same."@,
    {
        match self {
            Self::GlweDimensionMismatch => "The ciphertext and secret key glwe dimension must be the same.",
            Self::PolynomialSizeMismatch => "The ciphertext and secret key polynomial size must be the same.",
        }
    }
}

/// Engines that decrypt a GLWE ciphertext under a secret key into a plaintext vector.
///
/// The preconditions are validated in a fixed order, and the first that fails is reported:
/// the GLWE dimensions of key and ciphertext, then their polynomial sizes.
pub trait GlweCiphertextDecryptionEngine<SecretKey, Ciphertext, PlaintextVector>: AbstractEngine where
    SecretKey: GlweSecretKeyEntity,
    Ciphertext: GlweCiphertextEntity<
        Representation = SecretKey::Representation,
        KeyFlavor = SecretKey::KeyFlavor,
    >,
    PlaintextVector: PlaintextVectorEntity<Representation = SecretKey::Representation>,
 {
    /// Decrypts `input` under `key`, or says which precondition fails. The plaintext vector
    /// that comes back holds one plaintext per coefficient of a polynomial of the ciphertext.
    /// On an error the engine is not touched.
    fn decrypt_glwe_ciphertext(&mut self, key: &SecretKey, input: &Ciphertext) -> (r: Result<
        PlaintextVector,
        GlweCiphertextDecryptionError,
    >)
        ensures
            key.spec_glwe_dimension() != input.spec_glwe_dimension() <==> r matches Err(
                GlweCiphertextDecryptionError::GlweDimensionMismatch,
            ),
            key.spec_glwe_dimension() == input.spec_glwe_dimension() && key.spec_polynomial_size()
                != input.spec_polynomial_size() <==> r matches Err(
                GlweCiphertextDecryptionError::PolynomialSizeMismatch,
            ),
            r matches Ok(plaintexts) ==> plaintexts.spec_plaintext_count().0
                == input.spec_polynomial_size().0,
            r is Err ==> *final(self) == *old(self),
    ;

    /// Decrypts `input` under `key` without validating anything. The caller guarantees that
    /// key and ciphertext agree in GLWE dimension and polynomial size.
    fn decrypt_glwe_ciphertext_unchecked(&mut self, key: &SecretKey, input: &Ciphertext) -> (plaintexts:
        PlaintextVector)
        requires
            key.spec_glwe_dimension() == input.spec_glwe_dimension(),
            key.spec_polynomial_size() == input.spec_polynomial_size(),
        ensures
            plaintexts.spec_plaintext_count().0 == input.spec_polynomial_size().0,
    ;
}

} // verus!
