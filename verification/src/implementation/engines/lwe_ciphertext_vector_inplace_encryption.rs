//! Encrypting plaintext vectors into existing LWE ciphertext vectors.
use crate::implementation::backend::NumericBackend;
use crate::implementation::engines::CoreEngine;
use crate::implementation::entities::{LweCiphertextVector, LweSecretKey, PlaintextVector};
use crate::markers::IntegerPrecision;
use crate::specification::engines::lwe_ciphertext_vector_inplace_encryption::{
    LweCiphertextVectorInplaceEncryptionEngine, LweCiphertextVectorInplaceEncryptionError,
};
use crate::specification::entities::{
    LweCiphertextVectorEntity, LweSecretKeyEntity, PlaintextVectorEntity,
};
use concrete_commons::dispersion::Variance;
use vstd::prelude::*;

verus! {

/// A buffer of whole ciphertexts holds as many scalars as it has ciphertexts times the size
/// of one.
pub proof fn lemma_whole_ciphertexts(length: nat, lwe_size: nat)
    requires
        lwe_size > 0,
        length % lwe_size == 0,
    ensures
        length == (length / lwe_size) * lwe_size,
{
    vstd::arithmetic::div_mod::lemma_fundamental_div_mod(length as int, lwe_size as int);
    assert(lwe_size * (length / lwe_size) == (length / lwe_size) * lwe_size) by (nonlinear_arith);
}

/// The ciphertexts that a successful encryption leaves in the output are those that the
/// backend of the engine, in the state it is in before the call, encrypts the plaintexts to
/// under the key with the noise asked for.
impl<P: IntegerPrecision, B: NumericBackend<P>> LweCiphertextVectorInplaceEncryptionEngine<
    LweSecretKey<P>,
    PlaintextVector<P>,
    LweCiphertextVector<P>,
> for CoreEngine<B> {
    fn inplace_encrypt_lwe_ciphertext_vector(
        &mut self,
        key: &LweSecretKey<P>,
        output: &mut LweCiphertextVector<P>,
        input: &PlaintextVector<P>,
        noise: Variance,
    ) -> (r: Result<(), LweCiphertextVectorInplaceEncryptionError>)
        ensures
            r is Ok ==> final(output)@ == old(self).spec_backend().spec_encrypt_lwe_list(
                key@,
                input@,
                noise,
            ),
    {
        if key.lwe_dimension().0 != output.lwe_dimension().0 {
            return Err(LweCiphertextVectorInplaceEncryptionError::LweDimensionMismatch);
        }
        if input.plaintext_count().0 != output.lwe_ciphertext_count().0 {
            return Err(LweCiphertextVectorInplaceEncryptionError::PlaintextCountMismatch);
        }
        self.inplace_encrypt_lwe_ciphertext_vector_unchecked(key, output, input, noise);
        Ok(())
    }

    fn inplace_encrypt_lwe_ciphertext_vector_unchecked(
        &mut self,
        key: &LweSecretKey<P>,
        output: &mut LweCiphertextVector<P>,
        input: &PlaintextVector<P>,
        noise: Variance,
    )
        ensures
            final(output)@ == old(self).spec_backend().spec_encrypt_lwe_list(key@, input@, noise),
    {
        let mut scalars = output.take_tensor();
        let key_scalars = key.as_slice();
        let plaintexts = input.as_slice();
        proof {
            assert(scalars@.len() == scalars.len());
            lemma_whole_ciphertexts(scalars@.len(), old(output).lwe_len() as nat);
        }
        self.backend_mut().encrypt_lwe_list(
            key_scalars,
            scalars.as_mut_slice(),
            plaintexts,
            noise,
        );
        output.restore_tensor(scalars);
    }
}

} // verus!
