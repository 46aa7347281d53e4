//! Decrypting a GLWE ciphertext into an existing plaintext vector.
use crate::specification::engines::AbstractEngine;
use crate::specification::entities::{
    GlweCiphertextEntity, GlweSecretKeyEntity, PlaintextVectorEntity,
};
use vstd::prelude::*;

verus! {

/// Why a GLWE ciphertext could not be decrypted in place.
#[derive(Debug, Clone, Copy, PartialEq, Eq, Structural)]
pub enum GlweCiphertextInplaceDecryptionError {
    /// The key and the ciphertext differ in their GLWE dimension.
    GlweDimensionMismatch,
    /// The key and the ciphertext differ in their polynomial size.
    PolynomialSizeMismatch,
    /// The output does not hold one plaintext per coefficient of a polynomial.
    PlaintextCountMismatch,
}

impl GlweCiphertextInplaceDecryptionError {
    /// The error, in words.
    pub fn message(&self) -> (text: &'static str)
        ensures
            *self == Self::GlweDimensionMismatch ==> text@ == "The GLWE dimension of the key and ciphertext must be the same."@,
            *self == Self::PolynomialSizeMismatch ==> text@ == "The polynomial size of the key and ciphertext must be the same."@,
            *self == Self::PlaintextCountMismatch ==> text@ == "The size of the output plaintext vector and the input ciphertext polynomial size must be the same."@,
    {
        match self {
            Self::GlweDimensionMismatch => "The GLWE dimension of the key and ciphertext must be the same.",
            Self::PolynomialSizeMismatch => "The polynomial size of the key and ciphertext must be the same.",
            Self::PlaintextCountMismatch => "The size of the output plaintext vector and the input ciphertext polynomial size must be the same.",
        }
    }
}

/// Engines that decrypt a GLWE ciphertext under a secret key, overwriting the plaintexts of an
/// existing vector.
///
/// The preconditions are validated in a fixed order, and the first that fails is reported:
/// the polynomial sizes of key and ciphertext, then their GLWE dimensions, then the number of
/// plaintexts of the output against the polynomial size.
pub trait GlweCiphertextInplaceDecryptionEngine<
    SecretKey,
    Ciphertext,
    PlaintextVector,
>: AbstractEngine where
    SecretKey: GlweSecretKeyEntity,
    Ciphertext: GlweCiphertextEntity<
        Representation = SecretKey::Representation,
        KeyFlavor = SecretKey::KeyFlavor,
    >,
    PlaintextVector: PlaintextVectorEntity<Representation = SecretKey::Representation>,
 {
    /// Decrypts `input` under `key` into `output`, or says which precondition fails. On an
    /// error neither the output nor the engine is touched; in any case the output keeps its
    /// number of plaintexts.
    fn inplace_decrypt_glwe_ciphertext(
        &mut self,
        key: &SecretKey,
        output: &mut PlaintextVector,
        input: &Ciphertext,
    ) -> (r: Result<(), GlweCiphertextInplaceDecryptionError>)
        ensures
            key.spec_polynomial_size() != input.spec_polynomial_size() <==> r == Err::<
                (),
                GlweCiphertextInplaceDecryptionError,
            >(GlweCiphertextInplaceDecryptionError::PolynomialSizeMismatch),
            key.spec_polynomial_size() == input.spec_polynomial_size() && key.spec_glwe_dimension()
                != input.spec_glwe_dimension() <==> r == Err::<
                (),
                GlweCiphertextInplaceDecryptionError,
            >(GlweCiphertextInplaceDecryptionError::GlweDimensionMismatch),
            key.spec_polynomial_size() == input.spec_polynomial_size() && key.spec_glwe_dimension()
                == input.spec_glwe_dimension() && input.spec_polynomial_size().0 != old(
                output,
            ).spec_plaintext_count().0 <==> r == Err::<(), GlweCiphertextInplaceDecryptionError>(
                GlweCiphertextInplaceDecryptionError::PlaintextCountMismatch,
            ),
            r is Err ==> *final(output) == *old(output) && *final(self) == *old(self),
            final(output).spec_plaintext_count() == old(output).spec_plaintext_count(),
    ;

    /// Decrypts `input` under `key` into `output` without validating anything. The caller
    /// guarantees that key and ciphertext agree in polynomial size and GLWE dimension, and
    /// that the output holds one plaintext per coefficient of a polynomial.
    fn inplace_decrypt_glwe_ciphertext_unchecked(
        &mut self,
        key: &SecretKey,
        output: &mut PlaintextVector,
        input: &Ciphertext,
    )
        requires
            key.spec_polynomial_size() == input.spec_polynomial_size(),
            key.spec_glwe_dimension() == input.spec_glwe_dimension(),
            input.spec_polynomial_size().0 == old(output).spec_plaintext_count().0,
        ensures
            final(output).spec_plaintext_count() == old(output).spec_plaintext_count(),
    ;
}

} // verus!
