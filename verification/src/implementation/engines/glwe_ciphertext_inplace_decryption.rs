//! Decrypting GLWE ciphertexts into existing plaintext vectors.
use crate::implementation::backend::NumericBackend;
use crate::implementation::engines::CoreEngine;
use crate::implementation::entities::{
    lemma_whole_polynomials, GlweCiphertext, GlweSecretKey, PlaintextVector,
};
use crate::markers::IntegerPrecision;
use crate::specification::engines::glwe_ciphertext_inplace_decryption::{
    GlweCiphertextInplaceDecryptionEngine, GlweCiphertextInplaceDecryptionError,
};
use crate::specification::entities::{
    GlweCiphertextEntity, GlweSecretKeyEntity, PlaintextVectorEntity,
};
use vstd::prelude::*;

verus! {

/// A key of `key_len` scalars and a ciphertext of `input_len` scalars that agree in polynomial
/// size and in GLWE dimension differ by exactly one polynomial: the body of the ciphertext.
pub proof fn lemma_ciphertext_is_key_and_body(key_len: nat, input_len: nat, polynomial_size: nat)
    requires
        polynomial_size > 0,
        key_len % polynomial_size == 0,
        input_len % polynomial_size == 0,
        input_len > 0,
        key_len / polynomial_size == input_len / polynomial_size - 1,
    ensures
        input_len == key_len + polynomial_size,
{
    vstd::arithmetic::div_mod::lemma_fundamental_div_mod(key_len as int, polynomial_size as int);
    vstd::arithmetic::div_mod::lemma_fundamental_div_mod(input_len as int, polynomial_size as int);
    let polynomials = key_len / polynomial_size;
    assert(polynomial_size * (polynomials + 1) == polynomial_size * polynomials + polynomial_size)
        by (nonlinear_arith);
}

/// The plaintexts that a successful decryption leaves in the output are those that the backend
/// of the engine decrypts the ciphertext to under the key. Decryption draws no noise: it reads
/// the backend and leaves the engine as it was, whether it succeeds or not.
impl<P: IntegerPrecision, B: NumericBackend<P>> GlweCiphertextInplaceDecryptionEngine<
    GlweSecretKey<P>,
    GlweCiphertext<P>,
    PlaintextVector<P>,
> for CoreEngine<B> {
    fn inplace_decrypt_glwe_ciphertext(
        &mut self,
        key: &GlweSecretKey<P>,
        output: &mut PlaintextVector<P>,
        input: &GlweCiphertext<P>,
    ) -> (r: Result<(), GlweCiphertextInplaceDecryptionError>)
        ensures
            *final(self) == *old(self),
            r is Ok ==> final(output)@ == old(self).spec_backend().spec_decrypt_glwe(
                key@,
                key.spec_polynomial_size(),
                input@,
            ),
    {
        if key.polynomial_size().0 != input.polynomial_size().0 {
            return Err(GlweCiphertextInplaceDecryptionError::PolynomialSizeMismatch);
        }
        if key.glwe_dimension().0 != input.glwe_dimension().0 {
            return Err(GlweCiphertextInplaceDecryptionError::GlweDimensionMismatch);
        }
        if input.polynomial_size().0 != output.plaintext_count().0 {
            return Err(GlweCiphertextInplaceDecryptionError::PlaintextCountMismatch);
        }
        self.inplace_decrypt_glwe_ciphertext_unchecked(key, output, input);
        Ok(())
    }

    fn inplace_decrypt_glwe_ciphertext_unchecked(
        &mut self,
        key: &GlweSecretKey<P>,
        output: &mut PlaintextVector<P>,
        input: &GlweCiphertext<P>,
    )
        ensures
            *final(self) == *old(self),
            final(output)@ == old(self).spec_backend().spec_decrypt_glwe(
                key@,
                key.spec_polynomial_size(),
                input@,
            ),
    {
        let polynomial_size = key.polynomial_size();
        let key_scalars = key.as_slice();
        let input_scalars = input.as_slice();
        proof {
            lemma_whole_polynomials(input@.len(), input.polynomial_len() as nat);
            lemma_ciphertext_is_key_and_body(
                key@.len(),
                input@.len(),
                key.polynomial_len() as nat,
            );
        }
        let plaintexts = output.tensor_mut();
        proof {
            assert(plaintexts@.len() == plaintexts.len());
        }
        self.backend().decrypt_glwe(
            key_scalars,
            polynomial_size,
            plaintexts.as_mut_slice(),
            input_scalars,
        );
    }
}

} // verus!
