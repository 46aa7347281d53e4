//! Decrypting GLWE ciphertext vectors into fresh plaintext vectors.
use crate::implementation::backend::NumericBackend;
use crate::implementation::engines::lwe_ciphertext_loading::lemma_ciphertext_in_bounds;
use crate::implementation::engines::CoreEngine;
use crate::implementation::entities::{GlweCiphertextVector, GlweSecretKey, PlaintextVector};
use crate::markers::IntegerPrecision;
use crate::raw::RawUnsignedIntegers;
use crate::specification::engines::glwe_ciphertext_vector_decryption::{
    GlweCiphertextVectorDecryptionEngine, GlweCiphertextVectorDecryptionError,
};
use crate::specification::entities::{GlweCiphertextVectorEntity, GlweSecretKeyEntity};
use concrete_commons::parameters::PolynomialSize;
use vstd::prelude::*;
use vstd::slice::slice_subrange;

verus! {

/// A key of as many polynomials as the mask of a ciphertext has, of the same size, holds one
/// polynomial less than the ciphertext: the ciphertext is the key's length and its body.
pub proof fn lemma_vector_ciphertext_is_key_and_body(
    key_len: nat,
    glwe_size: nat,
    polynomial_size: nat,
)
    requires
        polynomial_size > 0,
        glwe_size > 0,
        key_len % polynomial_size == 0,
        key_len / polynomial_size == glwe_size - 1,
    ensures
        glwe_size * polynomial_size == key_len + polynomial_size,
{
    vstd::arithmetic::div_mod::lemma_fundamental_div_mod(key_len as int, polynomial_size as int);
    let polynomials = key_len / polynomial_size;
    assert((polynomials + 1) * polynomial_size == polynomial_size * polynomials + polynomial_size)
        by (nonlinear_arith);
}

/// The plaintexts of the first `count` ciphertexts of `input`, each of `ciphertext_len`
/// scalars: what `backend` decrypts each of them to under `key`, one after the other.
pub open spec fn piecewise_decryption<P: IntegerPrecision, B: NumericBackend<P>>(
    backend: B,
    key: Seq<P::Raw>,
    polynomial_size: PolynomialSize,
    input: Seq<P::Raw>,
    ciphertext_len: nat,
    count: nat,
) -> Seq<P::Raw>
    decreases count,
{
    if count == 0 {
        Seq::empty()
    } else {
        piecewise_decryption::<P, B>(
            backend,
            key,
            polynomial_size,
            input,
            ciphertext_len,
            (count - 1) as nat,
        ) + backend.spec_decrypt_glwe(
            key,
            polynomial_size,
            input.subrange((count - 1) * ciphertext_len, (count * ciphertext_len) as int),
        )
    }
}

/// The plaintexts that come back are the piece-wise decryptions of the ciphertexts of the
/// vector: those that the backend of the engine decrypts each ciphertext to under the key, in
/// the order of the ciphertexts. Decryption draws no noise and leaves the engine as it was.
impl<P: IntegerPrecision, B: NumericBackend<P>> GlweCiphertextVectorDecryptionEngine<
    GlweSecretKey<P>,
    GlweCiphertextVector<P>,
    PlaintextVector<P>,
> for CoreEngine<B> {
    fn decrypt_glwe_ciphertext_vector(
        &mut self,
        key: &GlweSecretKey<P>,
        input: &GlweCiphertextVector<P>,
    ) -> (r: Result<PlaintextVector<P>, GlweCiphertextVectorDecryptionError>)
        ensures
            *final(self) == *old(self),
            r matches Ok(plaintexts) ==> plaintexts@ == piecewise_decryption::<P, B>(
                old(self).spec_backend(),
                key@,
                key.spec_polynomial_size(),
                input@,
                input.ciphertext_len(),
                input.spec_glwe_ciphertext_count().0 as nat,
            ),
    {
        if key.glwe_dimension().0 != input.glwe_dimension().0 {
            return Err(GlweCiphertextVectorDecryptionError::GlweDimensionMismatch);
        }
        if key.polynomial_size().0 != input.polynomial_size().0 {
            return Err(GlweCiphertextVectorDecryptionError::PolynomialSizeMismatch);
        }
        Ok(self.decrypt_glwe_ciphertext_vector_unchecked(key, input))
    }

    fn decrypt_glwe_ciphertext_vector_unchecked(
        &mut self,
        key: &GlweSecretKey<P>,
        input: &GlweCiphertextVector<P>,
    ) -> (plaintexts: PlaintextVector<P>)
        ensures
            *final(self) == *old(self),
            plaintexts@ == piecewise_decryption::<P, B>(
                old(self).spec_backend(),
                key@,
                key.spec_polynomial_size(),
                input@,
                input.ciphertext_len(),
                input.spec_glwe_ciphertext_count().0 as nat,
            ),
    {
        let polynomial_size = key.polynomial_size();
        let key_scalars = key.as_slice();
        let input_scalars = input.as_slice();
        let ciphertext_size: usize = input.ciphertext_size();
        let count: usize = input.glwe_ciphertext_count().0;
        proof {
            lemma_vector_ciphertext_is_key_and_body(
                key@.len(),
                input.glwe_len() as nat,
                key.polynomial_len() as nat,
            );
        }
        let mut scalars: Vec<P::Raw> = Vec::new();
        let mut decrypted: usize = 0;
        while decrypted < count
            invariant
                decrypted <= count,
                count == input@.len() / (ciphertext_size as nat),
                ciphertext_size > 0,
                input@.len() % (ciphertext_size as nat) == 0,
                input@.len() <= usize::MAX,
                input_scalars@ == input@,
                key_scalars@ == key@,
                polynomial_size.0 > 0,
                key@.len() % (polynomial_size.0 as nat) == 0,
                ciphertext_size == key@.len() + polynomial_size.0,
                scalars@.len() == decrypted * polynomial_size.0,
                *self == *old(self),
                scalars@ == piecewise_decryption::<P, B>(
                    self.spec_backend(),
                    key@,
                    polynomial_size,
                    input@,
                    ciphertext_size as nat,
                    decrypted as nat,
                ),
            decreases count - decrypted,
        {
            proof {
                lemma_ciphertext_in_bounds(
                    input@.len(),
                    ciphertext_size as nat,
                    decrypted as nat,
                );
                assert(decrypted * ciphertext_size <= input@.len()) by (nonlinear_arith)
                    requires
                        decrypted * ciphertext_size + ciphertext_size <= input@.len(),
                ;
                assert((decrypted + 1) * polynomial_size.0 == decrypted * polynomial_size.0
                    + polynomial_size.0) by (nonlinear_arith);
                assert((decrypted + 1) * ciphertext_size == decrypted * ciphertext_size
                    + ciphertext_size) by (nonlinear_arith);
            }
            let start: usize = decrypted * ciphertext_size;
            let ciphertext = slice_subrange(input_scalars, start, start + ciphertext_size);
            let mut body: Vec<P::Raw> = <P::Raw as RawUnsignedIntegers>::zero_vec(
                polynomial_size.0,
            );
            self.backend().decrypt_glwe(
                key_scalars,
                polynomial_size,
                body.as_mut_slice(),
                ciphertext,
            );
            scalars.append(&mut body);
            decrypted = decrypted + 1;
        }
        proof {
            assert(scalars@.len() == scalars.len());
        }
        PlaintextVector::from_container(scalars)
    }
}

} // verus!
