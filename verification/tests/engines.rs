use concrete_commons::dispersion::Variance;
use concrete_commons::parameters::{
    DecompositionBaseLog, DecompositionLevelCount, GlweSize, LweCiphertextIndex, LweDimension,
    LweSize, PolynomialSize,
};
use concrete_core::implementation::backend::NumericBackend;
use concrete_core::implementation::engines::CoreEngine;
use concrete_core::implementation::entities::{
    keyswitch_key_size, GlweCiphertext32, GlweCiphertext64, GlweCiphertextVector64,
    GlweSecretKey32, GlweSecretKey64,
    LweCiphertext32, LweCiphertextVector32, LweCiphertextVector64, LweKeyswitchKey32,
    LweKeyswitchKey64, LweSecretKey32, LweSecretKey64, PlaintextVector32, PlaintextVector64,
};
use concrete_core::markers::{Precision32, Precision64};
use concrete_core::specification::engines::glwe_ciphertext_decryption::{
    GlweCiphertextDecryptionEngine, GlweCiphertextDecryptionError,
};
use concrete_core::specification::engines::glwe_ciphertext_vector_decryption::{
    GlweCiphertextVectorDecryptionEngine, GlweCiphertextVectorDecryptionError,
};
use concrete_core::specification::engines::glwe_ciphertext_inplace_decryption::{
    GlweCiphertextInplaceDecryptionEngine, GlweCiphertextInplaceDecryptionError,
};
use concrete_core::specification::engines::lwe_ciphertext_loading::{
    LweCiphertextLoadingEngine, LweCiphertextLoadingError,
};
use concrete_core::specification::engines::lwe_ciphertext_vector_inplace_encryption::{
    LweCiphertextVectorInplaceEncryptionEngine, LweCiphertextVectorInplaceEncryptionError,
};
use concrete_core::specification::engines::destruction::DestructionError;
use concrete_core::specification::engines::glwe_ciphertext_retrieval::GlweCiphertextRetrievalError;
use concrete_core::specification::engines::lwe_ciphertext_retrieval::LweCiphertextRetrievalError;
use concrete_core::specification::engines::lwe_keyswitch_key_generation::{
    LweKeyswitchKeyGenerationEngine, LweKeyswitchKeyGenerationError,
};
use concrete_core::specification::entities::{
    GlweCiphertextEntity, GlweCiphertextVectorEntity, GlweSecretKeyEntity, LweCiphertextEntity, LweCiphertextVectorEntity,
    LweKeyswitchKeyEntity, LweSecretKeyEntity, PlaintextVectorEntity,
};

/// A stand-in for the numeric backend: textbook LWE and GLWE arithmetic over a small
/// deterministic generator, with a noise term that vanishes with the variance.
struct StandIn {
    state: u64,
    calls: usize,
}

impl StandIn {
    fn new() -> Self {
        StandIn { state: 0x9e37_79b9_7f4a_7c15, calls: 0 }
    }

    fn next(&mut self) -> u64 {
        self.state ^= self.state << 13;
        self.state ^= self.state >> 7;
        self.state ^= self.state << 17;
        self.state
    }
}

impl NumericBackend<Precision32> for StandIn {
    fn spec_encrypt_lwe_list(
        &self,
        _key: vstd::seq::Seq<u32>,
        _input: vstd::seq::Seq<u32>,
        _noise: Variance,
    ) -> vstd::seq::Seq<u32> {
        unreachable!()
    }

    fn spec_decrypt_glwe(
        &self,
        _key: vstd::seq::Seq<u32>,
        _polynomial_size: PolynomialSize,
        _input: vstd::seq::Seq<u32>,
    ) -> vstd::seq::Seq<u32> {
        unreachable!()
    }

    fn spec_fill_with_keyswitch_key(
        &self,
        _decomposition_level_count: DecompositionLevelCount,
        _decomposition_base_log: DecompositionBaseLog,
        _input_key: vstd::seq::Seq<u32>,
        _output_key: vstd::seq::Seq<u32>,
        _noise: Variance,
    ) -> vstd::seq::Seq<u32> {
        unreachable!()
    }

    fn encrypt_lwe_list(&mut self, key: &[u32], output: &mut [u32], input: &[u32], noise: Variance) {
        self.calls += 1;
        let size = key.len() + 1;
        for (ciphertext, plaintext) in output.chunks_mut(size).zip(input.iter()) {
            let mut body = *plaintext;
            for (mask, bit) in ciphertext.iter_mut().zip(key.iter()) {
                *mask = self.next() as u32;
                body = body.wrapping_add(mask.wrapping_mul(*bit));
            }
            if noise.0 != 0.0 {
                body = body.wrapping_add(1 + (self.next() % 3) as u32);
            }
            ciphertext[size - 1] = body;
        }
    }

    fn decrypt_glwe(
        &self,
        key: &[u32],
        polynomial_size: PolynomialSize,
        output: &mut [u32],
        input: &[u32],
    ) {
        let n = polynomial_size.0;
        let body = &input[key.len()..];
        output.copy_from_slice(body);
        for (mask, secret) in input.chunks(n).zip(key.chunks(n)) {
            for i in 0..n {
                for j in 0..n {
                    let product = mask[i].wrapping_mul(secret[j]);
                    if i + j < n {
                        output[i + j] = output[i + j].wrapping_sub(product);
                    } else {
                        output[i + j - n] = output[i + j - n].wrapping_add(product);
                    }
                }
            }
        }
    }

    fn fill_with_keyswitch_key(
        &mut self,
        keyswitch_key: &mut [u32],
        _decomposition_level_count: DecompositionLevelCount,
        _decomposition_base_log: DecompositionBaseLog,
        _input_key: &[u32],
        _output_key: &[u32],
        _noise: Variance,
    ) {
        self.calls += 1;
        for scalar in keyswitch_key.iter_mut() {
            *scalar = self.next() as u32 | 1;
        }
    }
}

impl NumericBackend<Precision64> for StandIn {
    fn spec_encrypt_lwe_list(
        &self,
        _key: vstd::seq::Seq<u64>,
        _input: vstd::seq::Seq<u64>,
        _noise: Variance,
    ) -> vstd::seq::Seq<u64> {
        unreachable!()
    }

    fn spec_decrypt_glwe(
        &self,
        _key: vstd::seq::Seq<u64>,
        _polynomial_size: PolynomialSize,
        _input: vstd::seq::Seq<u64>,
    ) -> vstd::seq::Seq<u64> {
        unreachable!()
    }

    fn spec_fill_with_keyswitch_key(
        &self,
        _decomposition_level_count: DecompositionLevelCount,
        _decomposition_base_log: DecompositionBaseLog,
        _input_key: vstd::seq::Seq<u64>,
        _output_key: vstd::seq::Seq<u64>,
        _noise: Variance,
    ) -> vstd::seq::Seq<u64> {
        unreachable!()
    }

    fn encrypt_lwe_list(&mut self, key: &[u64], output: &mut [u64], input: &[u64], noise: Variance) {
        self.calls += 1;
        let size = key.len() + 1;
        for (ciphertext, plaintext) in output.chunks_mut(size).zip(input.iter()) {
            let mut body = *plaintext;
            for (mask, bit) in ciphertext.iter_mut().zip(key.iter()) {
                *mask = self.next();
                body = body.wrapping_add(mask.wrapping_mul(*bit));
            }
            if noise.0 != 0.0 {
                body = body.wrapping_add(1 + self.next() % 3);
            }
            ciphertext[size - 1] = body;
        }
    }

    fn decrypt_glwe(
        &self,
        key: &[u64],
        polynomial_size: PolynomialSize,
        output: &mut [u64],
        input: &[u64],
    ) {
        let n = polynomial_size.0;
        let body = &input[key.len()..];
        output.copy_from_slice(body);
        for (mask, secret) in input.chunks(n).zip(key.chunks(n)) {
            for i in 0..n {
                for j in 0..n {
                    let product = mask[i].wrapping_mul(secret[j]);
                    if i + j < n {
                        output[i + j] = output[i + j].wrapping_sub(product);
                    } else {
                        output[i + j - n] = output[i + j - n].wrapping_add(product);
                    }
                }
            }
        }
    }

    fn fill_with_keyswitch_key(
        &mut self,
        keyswitch_key: &mut [u64],
        _decomposition_level_count: DecompositionLevelCount,
        _decomposition_base_log: DecompositionBaseLog,
        _input_key: &[u64],
        _output_key: &[u64],
        _noise: Variance,
    ) {
        self.calls += 1;
        for scalar in keyswitch_key.iter_mut() {
            *scalar = self.next() | 1;
        }
    }
}

fn engine() -> CoreEngine<StandIn> {
    CoreEngine::new(StandIn::new())
}

fn binary_key(length: usize) -> Vec<u64> {
    (0..length as u64).map(|i| (i * 7 + i / 3) % 2).collect()
}

fn decrypt_lwe_32(key: &[u32], ciphertexts: &[u32]) -> Vec<u32> {
    ciphertexts
        .chunks(key.len() + 1)
        .map(|ciphertext| {
            let mut plaintext = ciphertext[key.len()];
            for (mask, bit) in ciphertext.iter().zip(key.iter()) {
                plaintext = plaintext.wrapping_sub(mask.wrapping_mul(*bit));
            }
            plaintext
        })
        .collect()
}

fn decrypt_lwe_64(key: &[u64], ciphertexts: &[u64]) -> Vec<u64> {
    ciphertexts
        .chunks(key.len() + 1)
        .map(|ciphertext| {
            let mut plaintext = ciphertext[key.len()];
            for (mask, bit) in ciphertext.iter().zip(key.iter()) {
                plaintext = plaintext.wrapping_sub(mask.wrapping_mul(*bit));
            }
            plaintext
        })
        .collect()
}

#[test]
fn zeros_encrypted_without_noise_decrypt_to_zeros_32() {
    let mut engine = engine();
    let key_scalars: Vec<u32> = binary_key(512).iter().map(|bit| *bit as u32).collect();
    let key = LweSecretKey32::from_container(key_scalars.clone());
    assert_eq!(key.lwe_dimension(), LweDimension(512));
    let input = PlaintextVector32::from_container(vec![0u32; 10]);
    let mut output =
        LweCiphertextVector32::from_container(vec![0u32; 513 * 10], LweSize(513)).unwrap();
    engine
        .inplace_encrypt_lwe_ciphertext_vector(&key, &mut output, &input, Variance(0.))
        .unwrap();
    assert_eq!(output.lwe_dimension(), LweDimension(512));
    assert_eq!(output.lwe_ciphertext_count().0, 10);
    assert!(output.as_slice().iter().any(|scalar| *scalar != 0));
    assert_eq!(decrypt_lwe_32(&key_scalars, output.as_slice()), vec![0u32; 10]);
}

#[test]
fn zeros_encrypted_without_noise_decrypt_to_zeros_64() {
    let mut engine = engine();
    let key_scalars = binary_key(512);
    let key = LweSecretKey64::from_container(key_scalars.clone());
    let input = PlaintextVector64::from_container(vec![0u64; 10]);
    let mut output =
        LweCiphertextVector64::from_container(vec![0u64; 513 * 10], LweSize(513)).unwrap();
    engine
        .inplace_encrypt_lwe_ciphertext_vector(&key, &mut output, &input, Variance(0.))
        .unwrap();
    assert_eq!(output.lwe_dimension(), LweDimension(512));
    assert_eq!(output.lwe_ciphertext_count().0, 10);
    assert!(output.as_slice().iter().any(|scalar| *scalar != 0));
    assert_eq!(decrypt_lwe_64(&key_scalars, output.as_slice()), vec![0u64; 10]);
}

#[test]
fn messages_encrypted_without_noise_decrypt_exactly() {
    let mut engine = engine();
    let key_scalars = binary_key(16);
    let key = LweSecretKey64::from_container(key_scalars.clone());
    let messages: Vec<u64> = (0..6).map(|i| i << 60).collect();
    let input = PlaintextVector64::from_container(messages.clone());
    let mut output = LweCiphertextVector64::from_container(vec![0u64; 17 * 6], LweSize(17)).unwrap();
    encrypt_unchecked(&mut engine, &key, &mut output, &input);
    assert_eq!(decrypt_lwe_64(&key_scalars, output.as_slice()), messages);
    assert_eq!(engine.backend().calls, 1);
}

fn encrypt_unchecked(
    engine: &mut CoreEngine<StandIn>,
    key: &LweSecretKey64,
    output: &mut LweCiphertextVector64,
    input: &PlaintextVector64,
) {
    engine.inplace_encrypt_lwe_ciphertext_vector_unchecked(key, output, input, Variance(0.));
}

#[test]
fn encryption_rejects_a_key_of_another_dimension() {
    let mut engine = engine();
    let key = LweSecretKey32::from_container(vec![1u32; 5]);
    let input = PlaintextVector32::from_container(vec![0u32; 2]);
    let before = vec![9u32; 8];
    let mut output = LweCiphertextVector32::from_container(before.clone(), LweSize(4)).unwrap();
    assert_eq!(
        engine.inplace_encrypt_lwe_ciphertext_vector(&key, &mut output, &input, Variance(0.)),
        Err(LweCiphertextVectorInplaceEncryptionError::LweDimensionMismatch)
    );
    assert_eq!(output.as_slice(), before.as_slice());
    assert_eq!(engine.backend().calls, 0);
}

#[test]
fn encryption_rejects_a_plaintext_count_that_differs_from_the_ciphertext_count() {
    let mut engine = engine();
    let key = LweSecretKey32::from_container(vec![1u32; 3]);
    let input = PlaintextVector32::from_container(vec![0u32; 3]);
    let before = vec![9u32; 8];
    let mut output = LweCiphertextVector32::from_container(before.clone(), LweSize(4)).unwrap();
    assert_eq!(
        engine.inplace_encrypt_lwe_ciphertext_vector(&key, &mut output, &input, Variance(0.)),
        Err(LweCiphertextVectorInplaceEncryptionError::PlaintextCountMismatch)
    );
    assert_eq!(output.as_slice(), before.as_slice());
    assert_eq!(engine.backend().calls, 0);
}

#[test]
fn encryption_reports_the_dimension_before_the_count() {
    let mut engine = engine();
    let key = LweSecretKey64::from_container(vec![1u64; 7]);
    let input = PlaintextVector64::from_container(vec![0u64; 5]);
    let mut output = LweCiphertextVector64::from_container(vec![0u64; 8], LweSize(4)).unwrap();
    assert_eq!(
        engine.inplace_encrypt_lwe_ciphertext_vector(&key, &mut output, &input, Variance(1.)),
        Err(LweCiphertextVectorInplaceEncryptionError::LweDimensionMismatch)
    );
}

#[test]
fn encryption_with_noise_keeps_the_shape() {
    let mut engine = engine();
    let key = LweSecretKey32::from_container(vec![1u32, 0, 1]);
    let input = PlaintextVector32::from_container(vec![1u32 << 28, 2 << 28]);
    let mut output = LweCiphertextVector32::from_container(vec![0u32; 8], LweSize(4)).unwrap();
    engine
        .inplace_encrypt_lwe_ciphertext_vector(&key, &mut output, &input, Variance(0.25))
        .unwrap();
    assert_eq!(output.lwe_size(), LweSize(4));
    assert_eq!(output.lwe_ciphertext_count().0, 2);
    let decrypted = decrypt_lwe_32(&[1, 0, 1], output.as_slice());
    assert_ne!(decrypted, vec![1u32 << 28, 2 << 28]);
    assert!(decrypted[0].wrapping_sub(1 << 28) <= 3);
}

fn glwe_encrypt_64(key: &[u64], n: usize, message: &[u64]) -> Vec<u64> {
    let mut generator = StandIn::new();
    let mut ciphertext: Vec<u64> = (0..key.len()).map(|_| generator.next()).collect();
    let mut body = message.to_vec();
    for (mask, secret) in ciphertext.chunks(n).zip(key.chunks(n)) {
        for i in 0..n {
            for j in 0..n {
                let product = mask[i].wrapping_mul(secret[j]);
                if i + j < n {
                    body[i + j] = body[i + j].wrapping_add(product);
                } else {
                    body[i + j - n] = body[i + j - n].wrapping_sub(product);
                }
            }
        }
    }
    ciphertext.extend(body);
    ciphertext
}

#[test]
fn a_glwe_ciphertext_decrypts_in_place_to_its_message() {
    let mut engine = engine();
    let key_scalars = binary_key(16);
    let message: Vec<u64> = (0..8).map(|i| (i as u64) << 59).collect();
    let key = GlweSecretKey64::from_container(key_scalars.clone(), PolynomialSize(8)).unwrap();
    assert_eq!(key.glwe_dimension().0, 2);
    assert_eq!(key.polynomial_size().0, 8);
    let input =
        GlweCiphertext64::from_container(glwe_encrypt_64(&key_scalars, 8, &message), PolynomialSize(8))
            .unwrap();
    assert_eq!(input.glwe_dimension().0, 2);
    let mut output = PlaintextVector64::from_container(vec![0u64; 8]);
    engine.inplace_decrypt_glwe_ciphertext(&key, &mut output, &input).unwrap();
    assert_eq!(output.plaintext_count().0, 8);
    assert_eq!(output.into_container(), message);
}

#[test]
fn a_glwe_ciphertext_decrypts_to_a_fresh_vector_of_its_message() {
    let mut engine = engine();
    let key_scalars = binary_key(8);
    let message: Vec<u64> = vec![1 << 62, 0, 3 << 62, 1 << 61];
    let key = GlweSecretKey64::from_container(key_scalars.clone(), PolynomialSize(4)).unwrap();
    let input =
        GlweCiphertext64::from_container(glwe_encrypt_64(&key_scalars, 4, &message), PolynomialSize(4))
            .unwrap();
    let output: PlaintextVector64 = engine.decrypt_glwe_ciphertext(&key, &input).unwrap();
    assert_eq!(output.plaintext_count().0, 4);
    assert_eq!(output.into_container(), message);
}

#[test]
fn inplace_decryption_reports_the_polynomial_size_first() {
    let mut engine = engine();
    let key = GlweSecretKey32::from_container(vec![0u32; 8], PolynomialSize(4)).unwrap();
    let input = GlweCiphertext32::from_container(vec![0u32; 8], PolynomialSize(2)).unwrap();
    let mut output = PlaintextVector32::from_container(vec![5u32; 3]);
    assert_eq!(
        engine.inplace_decrypt_glwe_ciphertext(&key, &mut output, &input),
        Err(GlweCiphertextInplaceDecryptionError::PolynomialSizeMismatch)
    );
    assert_eq!(output.as_slice(), &[5u32; 3]);
}

#[test]
fn inplace_decryption_reports_the_dimension_second() {
    let mut engine = engine();
    let key = GlweSecretKey32::from_container(vec![0u32; 8], PolynomialSize(4)).unwrap();
    let input = GlweCiphertext32::from_container(vec![0u32; 8], PolynomialSize(4)).unwrap();
    let mut output = PlaintextVector32::from_container(vec![5u32; 3]);
    assert_eq!(
        engine.inplace_decrypt_glwe_ciphertext(&key, &mut output, &input),
        Err(GlweCiphertextInplaceDecryptionError::GlweDimensionMismatch)
    );
    assert_eq!(output.as_slice(), &[5u32; 3]);
}

#[test]
fn inplace_decryption_reports_the_plaintext_count_last() {
    let mut engine = engine();
    let key = GlweSecretKey32::from_container(vec![0u32; 8], PolynomialSize(4)).unwrap();
    let input = GlweCiphertext32::from_container(vec![0u32; 12], PolynomialSize(4)).unwrap();
    let mut output = PlaintextVector32::from_container(vec![5u32; 3]);
    assert_eq!(
        engine.inplace_decrypt_glwe_ciphertext(&key, &mut output, &input),
        Err(GlweCiphertextInplaceDecryptionError::PlaintextCountMismatch)
    );
    assert_eq!(output.as_slice(), &[5u32; 3]);
    let mut output = PlaintextVector32::from_container(vec![5u32; 4]);
    assert_eq!(engine.inplace_decrypt_glwe_ciphertext(&key, &mut output, &input), Ok(()));
    assert_eq!(output.as_slice(), &[0u32; 4]);
}

#[test]
fn decryption_reports_the_dimension_before_the_polynomial_size() {
    let mut engine = engine();
    let key = GlweSecretKey32::from_container(vec![0u32; 8], PolynomialSize(4)).unwrap();
    let other_dimension = GlweCiphertext32::from_container(vec![0u32; 8], PolynomialSize(2)).unwrap();
    let decrypted: Result<PlaintextVector32, _> =
        engine.decrypt_glwe_ciphertext(&key, &other_dimension);
    assert!(matches!(decrypted, Err(GlweCiphertextDecryptionError::GlweDimensionMismatch)));
    let other_size = GlweCiphertext32::from_container(vec![0u32; 6], PolynomialSize(2)).unwrap();
    let decrypted: Result<PlaintextVector32, _> = engine.decrypt_glwe_ciphertext(&key, &other_size);
    assert!(matches!(decrypted, Err(GlweCiphertextDecryptionError::PolynomialSizeMismatch)));
}

#[test]
fn a_keyswitch_key_has_one_ciphertext_per_level_of_each_input_scalar() {
    let mut engine = engine();
    let input_key = LweSecretKey32::from_container(vec![1u32, 0, 1]);
    let output_key = LweSecretKey32::from_container(vec![0u32, 1, 1, 0]);
    let key: LweKeyswitchKey32 = engine
        .generate_lwe_keyswitch_key(
            &input_key,
            &output_key,
            DecompositionLevelCount(2),
            DecompositionBaseLog(8),
            Variance(0.),
        )
        .unwrap();
    assert_eq!(key.as_slice().len(), 3 * 2 * 5);
    assert_eq!(key.input_lwe_dimension(), LweDimension(3));
    assert_eq!(key.output_lwe_dimension(), LweDimension(4));
    assert_eq!(key.decomposition_level_count(), DecompositionLevelCount(2));
    assert_eq!(key.decomposition_base_log(), DecompositionBaseLog(8));
    assert!(key.as_slice().iter().all(|scalar| *scalar != 0));
    assert_eq!(engine.backend().calls, 1);
}

#[test]
fn the_unchecked_keyswitch_key_generation_does_the_same() {
    let mut engine = engine();
    let input_key = LweSecretKey64::from_container(binary_key(6));
    let output_key = LweSecretKey64::from_container(binary_key(2));
    let key: LweKeyswitchKey64 = engine.generate_lwe_keyswitch_key_unchecked(
        &input_key,
        &output_key,
        DecompositionLevelCount(3),
        DecompositionBaseLog(4),
        Variance(0.5),
    );
    assert_eq!(key.as_slice().len(), 6 * 3 * 3);
    assert_eq!(key.input_lwe_dimension(), LweDimension(6));
    assert_eq!(key.output_lwe_dimension(), LweDimension(2));
    assert_eq!(key.decomposition_level_count(), DecompositionLevelCount(3));
    assert_eq!(key.decomposition_base_log(), DecompositionBaseLog(4));
}

#[test]
fn a_keyswitch_key_of_no_level_is_empty() {
    let mut engine = engine();
    let input_key = LweSecretKey32::from_container(vec![1u32; 4]);
    let output_key = LweSecretKey32::from_container(vec![1u32; 4]);
    let key: LweKeyswitchKey32 = engine
        .generate_lwe_keyswitch_key(
            &input_key,
            &output_key,
            DecompositionLevelCount(0),
            DecompositionBaseLog(1),
            Variance(0.),
        )
        .unwrap();
    assert_eq!(key.as_slice().len(), 0);
}

#[test]
fn the_size_of_a_keyswitch_key_is_the_product_of_its_shape() {
    assert_eq!(
        keyswitch_key_size(LweDimension(630), DecompositionLevelCount(8), LweDimension(1024)),
        Some(630 * 8 * 1025)
    );
    assert_eq!(keyswitch_key_size(LweDimension(0), DecompositionLevelCount(8), LweDimension(3)), Some(0));
    assert_eq!(
        keyswitch_key_size(LweDimension(1), DecompositionLevelCount(1), LweDimension(0)),
        Some(1)
    );
    assert_eq!(
        keyswitch_key_size(LweDimension(usize::MAX), DecompositionLevelCount(2), LweDimension(1)),
        None
    );
    assert_eq!(
        keyswitch_key_size(LweDimension(1), DecompositionLevelCount(1), LweDimension(usize::MAX)),
        None
    );
    assert_eq!(
        keyswitch_key_size(LweDimension(0), DecompositionLevelCount(1), LweDimension(usize::MAX)),
        Some(0)
    );
}

#[test]
fn a_keyswitch_key_is_made_only_of_a_buffer_of_its_size() {
    assert!(LweKeyswitchKey32::from_container(
        vec![0u32; 30],
        DecompositionLevelCount(2),
        DecompositionBaseLog(8),
        LweDimension(3),
        LweDimension(4),
    )
    .is_some());
    assert!(LweKeyswitchKey32::from_container(
        vec![0u32; 29],
        DecompositionLevelCount(2),
        DecompositionBaseLog(8),
        LweDimension(3),
        LweDimension(4),
    )
    .is_none());
}

#[test]
fn loading_copies_the_ciphertext_at_the_index() {
    let mut engine = engine();
    let scalars: Vec<u32> = (0..12).collect();
    let vector = LweCiphertextVector32::from_container(scalars, LweSize(4)).unwrap();
    let loaded: LweCiphertext32 = engine.load_lwe_ciphertext(&vector, LweCiphertextIndex(1)).unwrap();
    assert_eq!(loaded.as_slice(), &[4u32, 5, 6, 7]);
    assert_eq!(loaded.lwe_dimension(), LweDimension(3));
    let loaded: LweCiphertext32 = engine.load_lwe_ciphertext(&vector, LweCiphertextIndex(0)).unwrap();
    assert_eq!(loaded.as_slice(), &[0u32, 1, 2, 3]);
    let loaded: LweCiphertext32 = engine.load_lwe_ciphertext_unchecked(&vector, LweCiphertextIndex(2));
    assert_eq!(loaded.as_slice(), &[8u32, 9, 10, 11]);
}

#[test]
fn loading_past_the_last_ciphertext_fails_with_index_too_large() {
    let mut engine = engine();
    let vector = LweCiphertextVector32::from_container(vec![0u32; 12], LweSize(4)).unwrap();
    let loaded: Result<LweCiphertext32, _> = engine.load_lwe_ciphertext(&vector, LweCiphertextIndex(3));
    assert!(matches!(loaded, Err(LweCiphertextLoadingError::IndexTooLarge)));
    let loaded: Result<LweCiphertext32, _> =
        engine.load_lwe_ciphertext(&vector, LweCiphertextIndex(usize::MAX));
    assert!(matches!(loaded, Err(LweCiphertextLoadingError::IndexTooLarge)));
    let empty = LweCiphertextVector32::from_container(Vec::new(), LweSize(4)).unwrap();
    let loaded: Result<LweCiphertext32, _> = engine.load_lwe_ciphertext(&empty, LweCiphertextIndex(0));
    assert!(matches!(loaded, Err(LweCiphertextLoadingError::IndexTooLarge)));
}

#[test]
fn entities_are_made_only_of_buffers_of_their_shape() {
    assert!(LweCiphertextVector32::from_container(vec![0u32; 12], LweSize(0)).is_none());
    assert!(LweCiphertextVector32::from_container(vec![0u32; 12], LweSize(5)).is_none());
    assert!(LweCiphertextVector32::from_container(vec![0u32; 12], LweSize(6)).is_some());
    assert!(GlweSecretKey32::from_container(vec![0u32; 12], PolynomialSize(0)).is_none());
    assert!(GlweSecretKey32::from_container(vec![0u32; 12], PolynomialSize(8)).is_none());
    assert!(GlweSecretKey32::from_container(Vec::new(), PolynomialSize(8)).is_some());
    assert!(GlweCiphertext32::from_container(Vec::new(), PolynomialSize(8)).is_none());
    assert!(GlweCiphertext32::from_container(vec![0u32; 12], PolynomialSize(0)).is_none());
    assert!(GlweCiphertext32::from_container(vec![0u32; 12], PolynomialSize(5)).is_none());
    assert!(GlweCiphertext32::from_container(vec![0u32; 12], PolynomialSize(12)).is_some());
    assert!(LweCiphertext32::from_container(Vec::new()).is_none());
    assert!(LweCiphertext32::from_container(vec![1u32]).is_some());
}

#[test]
fn every_error_has_a_message() {
    assert!(!GlweCiphertextInplaceDecryptionError::GlweDimensionMismatch.message().is_empty());
    assert!(!GlweCiphertextInplaceDecryptionError::PolynomialSizeMismatch.message().is_empty());
    assert!(!GlweCiphertextInplaceDecryptionError::PlaintextCountMismatch.message().is_empty());
    assert_eq!(
        GlweCiphertextDecryptionError::GlweDimensionMismatch.message(),
        "The ciphertext and secret key glwe dimension must be the same."
    );
    assert_eq!(
        GlweCiphertextDecryptionError::PolynomialSizeMismatch.message(),
        "The ciphertext and secret key polynomial size must be the same."
    );
    assert_eq!(
        LweCiphertextLoadingError::IndexTooLarge.message(),
        "The index must not exceed the size of the vector."
    );
    assert_eq!(DestructionError::Engine.message(), "Error occurred in the engine.");
    assert_eq!(GlweCiphertextRetrievalError::Engine.message(), "Error occurred in the engine.");
    assert_eq!(LweCiphertextRetrievalError::Engine.message(), "Error occurred in the engine.");
    assert_eq!(LweKeyswitchKeyGenerationError::Engine.message(), "Error occurred in the engine.");
    assert!(!LweCiphertextVectorInplaceEncryptionError::LweDimensionMismatch.message().is_empty());
    assert!(!LweCiphertextVectorInplaceEncryptionError::PlaintextCountMismatch.message().is_empty());
}

#[test]
fn a_glwe_ciphertext_vector_decrypts_ciphertext_by_ciphertext() {
    let mut engine = engine();
    let key_scalars = binary_key(8);
    let first: Vec<u64> = vec![1 << 62, 0, 3 << 62, 1 << 61];
    let second: Vec<u64> = vec![0, 1 << 60, 1 << 63, 5 << 60];
    let mut scalars = glwe_encrypt_64(&key_scalars, 4, &first);
    scalars.extend(glwe_encrypt_64(&key_scalars, 4, &second));
    let key = GlweSecretKey64::from_container(key_scalars, PolynomialSize(4)).unwrap();
    let input =
        GlweCiphertextVector64::from_container(scalars, GlweSize(3), PolynomialSize(4)).unwrap();
    assert_eq!(input.glwe_dimension().0, 2);
    assert_eq!(input.polynomial_size().0, 4);
    assert_eq!(input.glwe_ciphertext_count().0, 2);
    let output: PlaintextVector64 = engine.decrypt_glwe_ciphertext_vector(&key, &input).unwrap();
    assert_eq!(output.plaintext_count().0, 8);
    let mut expected = first;
    expected.extend(second);
    assert_eq!(output.into_container(), expected);
}

#[test]
fn vector_decryption_reports_the_dimension_before_the_polynomial_size() {
    let mut engine = engine();
    let key = GlweSecretKey64::from_container(vec![0u64; 8], PolynomialSize(4)).unwrap();
    let other_dimension =
        GlweCiphertextVector64::from_container(vec![0u64; 8], GlweSize(2), PolynomialSize(2)).unwrap();
    let decrypted: Result<PlaintextVector64, _> =
        engine.decrypt_glwe_ciphertext_vector(&key, &other_dimension);
    assert!(matches!(decrypted, Err(GlweCiphertextVectorDecryptionError::GlweDimensionMismatch)));
    let other_size =
        GlweCiphertextVector64::from_container(vec![0u64; 6], GlweSize(3), PolynomialSize(2)).unwrap();
    let decrypted: Result<PlaintextVector64, _> =
        engine.decrypt_glwe_ciphertext_vector(&key, &other_size);
    assert!(matches!(decrypted, Err(GlweCiphertextVectorDecryptionError::PolynomialSizeMismatch)));
    let empty =
        GlweCiphertextVector64::from_container(Vec::new(), GlweSize(3), PolynomialSize(4)).unwrap();
    let decrypted: PlaintextVector64 = engine.decrypt_glwe_ciphertext_vector(&key, &empty).unwrap();
    assert_eq!(decrypted.plaintext_count().0, 0);
}

#[test]
fn a_glwe_ciphertext_vector_is_made_only_of_whole_ciphertexts() {
    assert!(GlweCiphertextVector64::from_container(vec![0u64; 24], GlweSize(3), PolynomialSize(4))
        .is_some());
    assert!(GlweCiphertextVector64::from_container(vec![0u64; 20], GlweSize(3), PolynomialSize(4))
        .is_none());
    assert!(GlweCiphertextVector64::from_container(vec![0u64; 24], GlweSize(0), PolynomialSize(4))
        .is_none());
    assert!(GlweCiphertextVector64::from_container(vec![0u64; 24], GlweSize(3), PolynomialSize(0))
        .is_none());
    assert!(GlweCiphertextVector64::from_container(Vec::new(), GlweSize(usize::MAX), PolynomialSize(2))
        .is_none());
}

#[test]
fn the_unchecked_decryption_leaves_the_plaintexts_of_the_checked_one() {
    let key_scalars = binary_key(16);
    let message: Vec<u64> = (0..8).map(|i| (i as u64 * 5) << 58).collect();
    let key = GlweSecretKey64::from_container(key_scalars.clone(), PolynomialSize(8)).unwrap();
    let input =
        GlweCiphertext64::from_container(glwe_encrypt_64(&key_scalars, 8, &message), PolynomialSize(8))
            .unwrap();
    let mut checked = PlaintextVector64::from_container(vec![0u64; 8]);
    engine().inplace_decrypt_glwe_ciphertext(&key, &mut checked, &input).unwrap();
    let mut unchecked = PlaintextVector64::from_container(vec![7u64; 8]);
    engine().inplace_decrypt_glwe_ciphertext_unchecked(&key, &mut unchecked, &input);
    assert_eq!(checked.as_slice(), unchecked.as_slice());
    let fresh: PlaintextVector64 = engine().decrypt_glwe_ciphertext(&key, &input).unwrap();
    assert_eq!(fresh.as_slice(), checked.as_slice());
    let fresh: PlaintextVector64 = engine().decrypt_glwe_ciphertext_unchecked(&key, &input);
    assert_eq!(fresh.as_slice(), message.as_slice());
}

#[test]
fn the_unchecked_encryption_leaves_the_ciphertexts_of_the_checked_one() {
    let key = LweSecretKey32::from_container(vec![1u32, 0, 1, 1]);
    let input = PlaintextVector32::from_container(vec![1u32 << 30, 3 << 30, 0]);
    let mut checked = LweCiphertextVector32::from_container(vec![0u32; 15], LweSize(5)).unwrap();
    engine()
        .inplace_encrypt_lwe_ciphertext_vector(&key, &mut checked, &input, Variance(0.5))
        .unwrap();
    let mut unchecked = LweCiphertextVector32::from_container(vec![9u32; 15], LweSize(5)).unwrap();
    engine().inplace_encrypt_lwe_ciphertext_vector_unchecked(&key, &mut unchecked, &input, Variance(0.5));
    assert_eq!(checked.as_slice(), unchecked.as_slice());
    assert!(checked.as_slice().iter().any(|scalar| *scalar != 0));
}

#[test]
fn the_checked_keyswitch_key_generation_returns_the_key_of_the_unchecked_one() {
    let input_key = LweSecretKey64::from_container(binary_key(5));
    let output_key = LweSecretKey64::from_container(binary_key(3));
    let checked: LweKeyswitchKey64 = engine()
        .generate_lwe_keyswitch_key(
            &input_key,
            &output_key,
            DecompositionLevelCount(2),
            DecompositionBaseLog(7),
            Variance(0.25),
        )
        .unwrap();
    let unchecked: LweKeyswitchKey64 = engine().generate_lwe_keyswitch_key_unchecked(
        &input_key,
        &output_key,
        DecompositionLevelCount(2),
        DecompositionBaseLog(7),
        Variance(0.25),
    );
    assert_eq!(checked.as_slice(), unchecked.as_slice());
    assert_eq!(checked.as_slice().len(), 5 * 2 * 4);
    assert!(checked.as_slice().iter().all(|scalar| *scalar != 0));
}
