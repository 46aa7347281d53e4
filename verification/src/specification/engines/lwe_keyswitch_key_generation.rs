//! Generating an LWE keyswitch key.
use crate::implementation::entities::keyswitch_key_len;
use crate::specification::engines::AbstractEngine;
use crate::specification::entities::{LweKeyswitchKeyEntity, LweSecretKeyEntity};
use concrete_commons::dispersion::Variance;
use concrete_commons::parameters::{DecompositionBaseLog, DecompositionLevelCount};
use vstd::prelude::*;

verus! {

/// Why an LWE keyswitch key could not be generated. Two keys of one precision are always
/// compatible, so generation validates nothing: the one reason left is a failure of the
/// backend itself.
#[derive(Debug, Clone, Copy, PartialEq, Eq, Structural)]
pub enum LweKeyswitchKeyGenerationError {
    /// The backend failed for a reason of its own.
    Engine,
}

impl LweKeyswitchKeyGenerationError {
    /// The error, in words.
    pub fn message(&self) -> (text: &'static str)
        ensures
            text@ == "Error occurred in the engine."@,
    {
        "Error occurred in the engine."
    }
}

/// Engines that generate the key that switches ciphertexts from an input secret key to an
/// output secret key.
///
/// The key is sized from the dimensions of both secret keys and the number of levels of the
/// decomposition, and every one of its entries is encrypted with noise of its own. That the
/// two secret keys fit together is a matter of their types; nothing is left to validate, and
/// the checked and the unchecked entry point do the same. The one demand is that of the
/// machine: the number of scalars of the key must fit in a `usize`.
pub trait LweKeyswitchKeyGenerationEngine<
    InputSecretKey,
    OutputSecretKey,
    KeyswitchKey,
>: AbstractEngine where
    InputSecretKey: LweSecretKeyEntity,
    OutputSecretKey: LweSecretKeyEntity<Representation = InputSecretKey::Representation>,
    KeyswitchKey: LweKeyswitchKeyEntity<
        Representation = InputSecretKey::Representation,
        InputKeyFlavor = InputSecretKey::KeyFlavor,
        OutputKeyFlavor = OutputSecretKey::KeyFlavor,
    >,
 {
    /// Generates the keyswitch key from `input_key` to `output_key`.
    fn generate_lwe_keyswitch_key(
        &mut self,
        input_key: &InputSecretKey,
        output_key: &OutputSecretKey,
        decomposition_level_count: DecompositionLevelCount,
        decomposition_base_log: DecompositionBaseLog,
        noise: Variance,
    ) -> (r: Result<KeyswitchKey, LweKeyswitchKeyGenerationError>)
        requires
            keyswitch_key_len(
                input_key.spec_lwe_dimension().0 as nat,
                decomposition_level_count.0 as nat,
                output_key.spec_lwe_dimension().0 as nat,
            ) <= usize::MAX,
        ensures
            r matches Ok(key) && {
                &&& key.spec_input_lwe_dimension() == input_key.spec_lwe_dimension()
                &&& key.spec_output_lwe_dimension() == output_key.spec_lwe_dimension()
                &&& key.spec_decomposition_level_count() == decomposition_level_count
                &&& key.spec_decomposition_base_log() == decomposition_base_log
            },
    ;

    /// Generates the keyswitch key from `input_key` to `output_key` without validating
    /// anything.
    fn generate_lwe_keyswitch_key_unchecked(
        &mut self,
        input_key: &InputSecretKey,
        output_key: &OutputSecretKey,
        decomposition_level_count: DecompositionLevelCount,
        decomposition_base_log: DecompositionBaseLog,
        noise: Variance,
    ) -> (key: KeyswitchKey)
        requires
            keyswitch_key_len(
                input_key.spec_lwe_dimension().0 as nat,
                decomposition_level_count.0 as nat,
                output_key.spec_lwe_dimension().0 as nat,
            ) <= usize::MAX,
        ensures
            key.spec_input_lwe_dimension() == input_key.spec_lwe_dimension(),
            key.spec_output_lwe_dimension() == output_key.spec_lwe_dimension(),
            key.spec_decomposition_level_count() == decomposition_level_count,
            key.spec_decomposition_base_log() == decomposition_base_log,
    ;
}

} // verus!
