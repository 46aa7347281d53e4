//! Decrypting a GLWE ciphertext vector into a fresh plaintext vector.
use crate::specification::engines::AbstractEngine;
use crate::specification::entities::{
    GlweCiphertextVectorEntity, GlweSecretKeyEntity, PlaintextVectorEntity,
};
use vstd::prelude::*;

verus! {

/// Why a GLWE ciphertext vector could not be decrypted.
#[derive(Debug, Clone, Copy, PartialEq, Eq, Structural)]
pub enum GlweCiphertextVectorDecryptionError {
    /// The key and the ciphertexts differ in their GLWE dimension.
    GlweDimensionMismatch,
    /// The key and the ciphertexts differ in their polynomial size.
    PolynomialSizeMismatch,
}

impl GlweCiphertextVectorDecryptionError {
    /// The error, in words.
    pub fn message(&self) -> (text: &'static str)
        ensures
            *self == Self::GlweDimensionMismatch ==> text@ == "The key and input ciphertext glwe dimension must be the same."@,
            *self == Self::PolynomialSizeMismatch ==> text@ == "The key and input ciphertext polynomial size must be the same."@,
    {
        match self {
            Self::GlweDimensionMismatch => "The key and input ciphertext glwe dimension must be the same.",
            Self::PolynomialSizeMismatch => "The key and input ciphertext polynomial size must be the same.",
        }
    }
}

/// Engines that decrypt every ciphertext of a GLWE ciphertext vector under a secret key, into
/// one plaintext vector.
///
/// The preconditions are validated in a fixed order, and the first that fails is reported:
/// the GLWE dimensions of key and ciphertexts, then their polynomial sizes.
pub trait GlweCiphertextVectorDecryptionEngine<
    SecretKey,
    CiphertextVector,
    PlaintextVector,
>: AbstractEngine where
    SecretKey: GlweSecretKeyEntity,
    CiphertextVector: GlweCiphertextVectorEntity<
        Representation = SecretKey::Representation,
        KeyFlavor = SecretKey::KeyFlavor,
    >,
    PlaintextVector: PlaintextVectorEntity<Representation = SecretKey::Representation>,
 {
    /// Decrypts the ciphertexts of `input` under `key`, one after the other, or says which
    /// precondition fails. The plaintext vector that comes back holds, for each ciphertext,
    /// one plaintext per coefficient of a polynomial. On an error the engine is not touched.
    fn decrypt_glwe_ciphertext_vector(&mut self, key: &SecretKey, input: &CiphertextVector) -> (r:
        Result<PlaintextVector, GlweCiphertextVectorDecryptionError>)
        ensures
            key.spec_glwe_dimension() != input.spec_glwe_dimension() <==> r matches Err(
                GlweCiphertextVectorDecryptionError::GlweDimensionMismatch,
            ),
            key.spec_glwe_dimension() == input.spec_glwe_dimension() && key.spec_polynomial_size()
                != input.spec_polynomial_size() <==> r matches Err(
                GlweCiphertextVectorDecryptionError::PolynomialSizeMismatch,
            ),
            r matches Ok(plaintexts) ==> plaintexts.spec_plaintext_count().0
                == input.spec_glwe_ciphertext_count().0 * input.spec_polynomial_size().0,
            r is Err ==> *final(self) == *old(self),
    ;

    /// Decrypts the ciphertexts of `input` under `key` without validating anything. The
    /// caller guarantees that key and ciphertexts agree in GLWE dimension and polynomial size.
    fn decrypt_glwe_ciphertext_vector_unchecked(
        &mut self,
        key: &SecretKey,
        input: &CiphertextVector,
    ) -> (plaintexts: PlaintextVector)
        requires
            key.spec_glwe_dimension() == input.spec_glwe_dimension(),
            key.spec_polynomial_size() == input.spec_polynomial_size(),
        ensures
            plaintexts.spec_plaintext_count().0 == input.spec_glwe_ciphertext_count().0
                * input.spec_polynomial_size().0,
    ;
}

} // verus!
