//! Generating LWE keyswitch keys.
use crate::implementation::backend::NumericBackend;
use crate::implementation::engines::CoreEngine;
use crate::implementation::entities::{
    keyswitch_key_len, keyswitch_key_size, LweKeyswitchKey, LweSecretKey,
};
use crate::markers::IntegerPrecision;
use crate::raw::RawUnsignedIntegers;
use crate::specification::engines::lwe_keyswitch_key_generation::{
    LweKeyswitchKeyGenerationEngine, LweKeyswitchKeyGenerationError,
};
use crate::specification::entities::LweSecretKeyEntity;
use concrete_commons::dispersion::Variance;
use concrete_commons::parameters::{DecompositionBaseLog, DecompositionLevelCount};
use vstd::prelude::*;

verus! {

/// The key that comes back holds the scalars that the backend of the engine, in the state it
/// is in before the call, fills a key of this shape with: one LWE ciphertext under the output
/// key for each level of each scalar of the input key.
impl<P: IntegerPrecision, B: NumericBackend<P>> LweKeyswitchKeyGenerationEngine<
    LweSecretKey<P>,
    LweSecretKey<P>,
    LweKeyswitchKey<P>,
> for CoreEngine<B> {
    fn generate_lwe_keyswitch_key(
        &mut self,
        input_key: &LweSecretKey<P>,
        output_key: &LweSecretKey<P>,
        decomposition_level_count: DecompositionLevelCount,
        decomposition_base_log: DecompositionBaseLog,
        noise: Variance,
    ) -> (r: Result<LweKeyswitchKey<P>, LweKeyswitchKeyGenerationError>)
        ensures
            r matches Ok(key) && {
                &&& key@ == old(self).spec_backend().spec_fill_with_keyswitch_key(
                    decomposition_level_count,
                    decomposition_base_log,
                    input_key@,
                    output_key@,
                    noise,
                )
                &&& key@.len() == keyswitch_key_len(
                    input_key@.len(),
                    decomposition_level_count.0 as nat,
                    output_key@.len(),
                )
            },
    {
        Ok(
            self.generate_lwe_keyswitch_key_unchecked(
                input_key,
                output_key,
                decomposition_level_count,
                decomposition_base_log,
                noise,
            ),
        )
    }

    fn generate_lwe_keyswitch_key_unchecked(
        &mut self,
        input_key: &LweSecretKey<P>,
        output_key: &LweSecretKey<P>,
        decomposition_level_count: DecompositionLevelCount,
        decomposition_base_log: DecompositionBaseLog,
        noise: Variance,
    ) -> (key: LweKeyswitchKey<P>)
        ensures
            key@ == old(self).spec_backend().spec_fill_with_keyswitch_key(
                decomposition_level_count,
                decomposition_base_log,
                input_key@,
                output_key@,
                noise,
            ),
            key@.len() == keyswitch_key_len(
                input_key@.len(),
                decomposition_level_count.0 as nat,
                output_key@.len(),
            ),
    {
        let input_lwe_dimension = input_key.lwe_dimension();
        let output_lwe_dimension = output_key.lwe_dimension();
        let size = keyswitch_key_size(
            input_lwe_dimension,
            decomposition_level_count,
            output_lwe_dimension,
        );
        let mut scalars: Vec<P::Raw> = <P::Raw as RawUnsignedIntegers>::zero_vec(size.unwrap());
        self.backend_mut().fill_with_keyswitch_key(
            scalars.as_mut_slice(),
            decomposition_level_count,
            decomposition_base_log,
            input_key.as_slice(),
            output_key.as_slice(),
            noise,
        );
        let key = LweKeyswitchKey::from_container(
            scalars,
            decomposition_level_count,
            decomposition_base_log,
            input_lwe_dimension,
            output_lwe_dimension,
        );
        key.unwrap()
    }
}

} // verus!
