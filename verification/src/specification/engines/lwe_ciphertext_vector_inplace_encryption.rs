//! Encrypting a plaintext vector into an existing LWE ciphertext vector.
use crate::specification::engines::AbstractEngine;
use crate::specification::entities::{
    LweCiphertextVectorEntity, LweSecretKeyEntity, PlaintextVectorEntity,
};
use concrete_commons::dispersion::Variance;
use vstd::prelude::*;

verus! {

/// Why a plaintext vector could not be encrypted in place.
#[derive(Debug, Clone, Copy, PartialEq, Eq, Structural)]
pub enum LweCiphertextVectorInplaceEncryptionError {
    /// The key and the output differ in their LWE dimension.
    LweDimensionMismatch,
    /// The input does not hold one plaintext per ciphertext of the output.
    PlaintextCountMismatch,
}

impl LweCiphertextVectorInplaceEncryptionError {
    /// The error, in words.
    pub fn message(&self) -> (text: &'static str)
        ensures
            *self == Self::LweDimensionMismatch ==> text@ == "The key and output LWE dimensions must be the same."@,
            *self == Self::PlaintextCountMismatch ==> text@ == "The input plaintext count and the output ciphertext count must be the same."@,
    {
        match self {
            Self::LweDimensionMismatch => "The key and output LWE dimensions must be the same.",
            Self::PlaintextCountMismatch => "The input plaintext count and the output ciphertext count must be the same.",
        }
    }
}

/// Engines that encrypt a plaintext vector under an LWE secret key, overwriting the
/// ciphertexts of an existing vector, each with noise of its own.
///
/// The preconditions are validated in a fixed order, and the first that fails is reported:
/// the LWE dimensions of key and output, then the number of plaintexts against the number of
/// ciphertexts.
pub trait LweCiphertextVectorInplaceEncryptionEngine<
    SecretKey,
    PlaintextVector,
    CiphertextVector,
>: AbstractEngine where
    SecretKey: LweSecretKeyEntity,
    PlaintextVector: PlaintextVectorEntity<Representation = SecretKey::Representation>,
    CiphertextVector: LweCiphertextVectorEntity<
        Representation = SecretKey::Representation,
        KeyFlavor = SecretKey::KeyFlavor,
    >,
 {
    /// Encrypts `input` under `key` into `output` with noise of variance `noise`, or says
    /// which precondition fails. On an error neither the output nor the engine is touched; in
    /// any case the output keeps its shape.
    fn inplace_encrypt_lwe_ciphertext_vector(
        &mut self,
        key: &SecretKey,
        output: &mut CiphertextVector,
        input: &PlaintextVector,
        noise: Variance,
    ) -> (r: Result<(), LweCiphertextVectorInplaceEncryptionError>)
        ensures
            key.spec_lwe_dimension() != old(output).spec_lwe_dimension() <==> r == Err::<
                (),
                LweCiphertextVectorInplaceEncryptionError,
            >(LweCiphertextVectorInplaceEncryptionError::LweDimensionMismatch),
            key.spec_lwe_dimension() == old(output).spec_lwe_dimension()
                && input.spec_plaintext_count().0 != old(output).spec_lwe_ciphertext_count().0
                <==> r == Err::<(), LweCiphertextVectorInplaceEncryptionError>(
                LweCiphertextVectorInplaceEncryptionError::PlaintextCountMismatch,
            ),
            r is Err ==> *final(output) == *old(output) && *final(self) == *old(self),
            final(output).spec_lwe_dimension() == old(output).spec_lwe_dimension(),
            final(output).spec_lwe_ciphertext_count() == old(output).spec_lwe_ciphertext_count(),
    ;

    /// Encrypts `input` under `key` into `output` without validating anything. The caller
    /// guarantees that key and output agree in LWE dimension, and that the input holds one
    /// plaintext per ciphertext of the output.
    fn inplace_encrypt_lwe_ciphertext_vector_unchecked(
        &mut self,
        key: &SecretKey,
        output: &mut CiphertextVector,
        input: &PlaintextVector,
        noise: Variance,
    )
        requires
            key.spec_lwe_dimension() == old(output).spec_lwe_dimension(),
            input.spec_plaintext_count().0 == old(output).spec_lwe_ciphertext_count().0,
        ensures
            final(output).spec_lwe_dimension() == old(output).spec_lwe_dimension(),
            final(output).spec_lwe_ciphertext_count() == old(output).spec_lwe_ciphertext_count(),
    ;
}

} // verus!
