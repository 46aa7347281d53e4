//! The numeric backend.
//!
//! The lattice arithmetic itself, the polynomial products, the sampling of masks and of noise,
//! is not part of this library. An engine is built over any type that supplies it, and calls it
//! only with buffers whose shapes it has validated. The backend works in place: it overwrites
//! the scalars of the output buffer and cannot change how many there are.
use crate::implementation::entities::keyswitch_key_len;
use crate::markers::IntegerPrecision;
use concrete_commons::dispersion::Variance;
use concrete_commons::parameters::{DecompositionBaseLog, DecompositionLevelCount, PolynomialSize};
use vstd::prelude::*;

verus! {

/// The lattice arithmetic over one precision, and the randomness it consumes.
///
/// The methods that draw noise take the backend by exclusive reference: the state of its
/// randomness generator advances with every call. What a method writes is named by a
/// specification function of the backend: the scalars are those that this backend, in the
/// state it is in before the call, makes of the arguments. The library says nothing of their
/// values; it says which call produced the scalars that it stores.
pub trait NumericBackend<P: IntegerPrecision> {
    /// The ciphertexts that a backend in this state encrypts the plaintexts of `input` to
    /// under `key`, with noise of variance `noise`: one LWE ciphertext per plaintext.
    spec fn spec_encrypt_lwe_list(
        &self,
        key: Seq<P::Raw>,
        input: Seq<P::Raw>,
        noise: Variance,
    ) -> Seq<P::Raw>;

    /// The plaintexts that the GLWE ciphertext `input` decrypts to under `key`: one per
    /// coefficient of a polynomial.
    spec fn spec_decrypt_glwe(
        &self,
        key: Seq<P::Raw>,
        polynomial_size: PolynomialSize,
        input: Seq<P::Raw>,
    ) -> Seq<P::Raw>;

    /// The scalars of the keyswitch key that a backend in this state generates from
    /// `input_key` to `output_key`, with noise of variance `noise`.
    spec fn spec_fill_with_keyswitch_key(
        &self,
        decomposition_level_count: DecompositionLevelCount,
        decomposition_base_log: DecompositionBaseLog,
        input_key: Seq<P::Raw>,
        output_key: Seq<P::Raw>,
        noise: Variance,
    ) -> Seq<P::Raw>;

    /// Encrypts each plaintext of `input` under `key` into the LWE ciphertext of `output` at
    /// the same position, with fresh noise of variance `noise`.
    fn encrypt_lwe_list(
        &mut self,
        key: &[P::Raw],
        output: &mut [P::Raw],
        input: &[P::Raw],
        noise: Variance,
    )
        requires
            old(output)@.len() == input@.len() * (key@.len() + 1),
        ensures
            final(output)@.len() == old(output)@.len(),
            final(output)@ == old(self).spec_encrypt_lwe_list(key@, input@, noise),
    ;

    /// Decrypts the GLWE ciphertext `input` under `key` into the plaintexts of `output`, one
    /// per coefficient of a polynomial.
    fn decrypt_glwe(
        &self,
        key: &[P::Raw],
        polynomial_size: PolynomialSize,
        output: &mut [P::Raw],
        input: &[P::Raw],
    )
        requires
            polynomial_size.0 > 0,
            key@.len() % (polynomial_size.0 as nat) == 0,
            input@.len() == key@.len() + polynomial_size.0,
            old(output)@.len() == polynomial_size.0,
        ensures
            final(output)@.len() == old(output)@.len(),
            final(output)@ == self.spec_decrypt_glwe(key@, polynomial_size, input@),
    ;

    /// Fills `keyswitch_key` with the encryptions under `output_key` of every level of the
    /// decomposition of every scalar of `input_key`, each with fresh noise of variance `noise`.
    fn fill_with_keyswitch_key(
        &mut self,
        keyswitch_key: &mut [P::Raw],
        decomposition_level_count: DecompositionLevelCount,
        decomposition_base_log: DecompositionBaseLog,
        input_key: &[P::Raw],
        output_key: &[P::Raw],
        noise: Variance,
    )
        requires
            old(keyswitch_key)@.len() == keyswitch_key_len(
                input_key@.len(),
                decomposition_level_count.0 as nat,
                output_key@.len(),
            ),
        ensures
            final(keyswitch_key)@.len() == old(keyswitch_key)@.len(),
            final(keyswitch_key)@ == old(self).spec_fill_with_keyswitch_key(
                decomposition_level_count,
                decomposition_base_log,
                input_key@,
                output_key@,
                noise,
            ),
    ;
}

} // verus!
