//! Decrypting GLWE ciphertexts into fresh plaintext vectors.
use crate::implementation::backend::NumericBackend;
use crate::implementation::engines::glwe_ciphertext_inplace_decryption::lemma_ciphertext_is_key_and_body;
use crate::implementation::engines::CoreEngine;
use crate::implementation::entities::{
    lemma_whole_polynomials, GlweCiphertext, GlweSecretKey, PlaintextVector,
};
use crate::markers::IntegerPrecision;
use crate::raw::RawUnsignedIntegers;
use crate::specification::engines::glwe_ciphertext_decryption::{
    GlweCiphertextDecryptionEngine, GlweCiphertextDecryptionError,
};
use crate::specification::entities::{GlweCiphertextEntity, GlweSecretKeyEntity};
use vstd::prelude::*;

verus! {

/// The plaintexts that come back are those that the backend of the engine decrypts the
/// ciphertext to under the key. Decryption draws no noise and leaves the engine as it was.
impl<P: IntegerPrecision, B: NumericBackend<P>> GlweCiphertextDecryptionEngine<
    GlweSecretKey<P>,
    GlweCiphertext<P>,
    PlaintextVector<P>,
> for CoreEngine<B> {
    fn decrypt_glwe_ciphertext(&mut self, key: &GlweSecretKey<P>, input: &GlweCiphertext<P>) -> (r:
        Result<PlaintextVector<P>, GlweCiphertextDecryptionError>)
        ensures
            *final(self) == *old(self),
            r matches Ok(plaintexts) ==> plaintexts@ == old(
                self,
            ).spec_backend().spec_decrypt_glwe(key@, key.spec_polynomial_size(), input@),
    {
        if key.glwe_dimension().0 != input.glwe_dimension().0 {
            return Err(GlweCiphertextDecryptionError::GlweDimensionMismatch);
        }
        if key.polynomial_size().0 != input.polynomial_size().0 {
            return Err(GlweCiphertextDecryptionError::PolynomialSizeMismatch);
        }
        Ok(self.decrypt_glwe_ciphertext_unchecked(key, input))
    }

    fn decrypt_glwe_ciphertext_unchecked(
        &mut self,
        key: &GlweSecretKey<P>,
        input: &GlweCiphertext<P>,
    ) -> (plaintexts: PlaintextVector<P>)
        ensures
            *final(self) == *old(self),
            plaintexts@ == old(self).spec_backend().spec_decrypt_glwe(
                key@,
                key.spec_polynomial_size(),
                input@,
            ),
    {
        let polynomial_size = key.polynomial_size();
        let key_scalars = key.as_slice();
        let input_scalars = input.as_slice();
        proof {
            lemma_whole_polynomials(input@.len(), input.polynomial_len() as nat);
            lemma_ciphertext_is_key_and_body(
                key@.len(),
                input@.len(),
                key.polynomial_len() as nat,
            );
        }
        let mut scalars: Vec<P::Raw> = <P::Raw as RawUnsignedIntegers>::zero_vec(polynomial_size.0);
        self.backend().decrypt_glwe(
            key_scalars,
            polynomial_size,
            scalars.as_mut_slice(),
            input_scalars,
        );
        PlaintextVector::from_container(scalars)
    }
}

} // verus!
