use concrete_commons::parameters::PolynomialSize;
use concrete_core::implementation::engines::CoreEngine;
use concrete_core::implementation::views::{
    GlweCiphertextMutView32, GlweCiphertextMutView64, GlweCiphertextView32, GlweCiphertextView64,
    LweCiphertextMutView32, LweCiphertextMutView64, LweCiphertextView32, LweCiphertextView64,
};
use concrete_core::memory::{BufferMut, BufferRef, Memory};
use concrete_core::specification::engines::destruction::DestructionEngine;
use concrete_core::specification::engines::glwe_ciphertext_creation::{
    GlweCiphertextCreationEngine, GlweCiphertextCreationError,
};
use concrete_core::specification::engines::glwe_ciphertext_retrieval::GlweCiphertextRetrievalEngine;
use concrete_core::specification::engines::lwe_ciphertext_creation::{
    LweCiphertextCreationEngine, LweCiphertextCreationError,
};
use concrete_core::specification::engines::lwe_ciphertext_retrieval::LweCiphertextRetrievalEngine;
use concrete_core::specification::entities::{GlweCiphertextEntity, LweCiphertextEntity};

fn engine() -> CoreEngine<()> {
    CoreEngine::new(())
}

#[test]
fn generic_checks_reject_an_empty_slice() {
    assert_eq!(
        GlweCiphertextCreationError::perform_generic_checks(0, PolynomialSize(512)),
        Err(GlweCiphertextCreationError::EmptySlice)
    );
    assert_eq!(
        GlweCiphertextCreationError::perform_generic_checks(0, PolynomialSize(0)),
        Err(GlweCiphertextCreationError::EmptySlice)
    );
}

#[test]
fn generic_checks_reject_a_length_that_is_no_multiple() {
    assert_eq!(
        GlweCiphertextCreationError::perform_generic_checks(1025, PolynomialSize(512)),
        Err(GlweCiphertextCreationError::InvalidSliceSize)
    );
    assert_eq!(
        GlweCiphertextCreationError::perform_generic_checks(511, PolynomialSize(512)),
        Err(GlweCiphertextCreationError::InvalidSliceSize)
    );
    assert_eq!(
        GlweCiphertextCreationError::perform_generic_checks(8, PolynomialSize(0)),
        Err(GlweCiphertextCreationError::InvalidSliceSize)
    );
}

#[test]
fn generic_checks_accept_whole_polynomials() {
    assert_eq!(GlweCiphertextCreationError::perform_generic_checks(512, PolynomialSize(512)), Ok(()));
    assert_eq!(GlweCiphertextCreationError::perform_generic_checks(1024, PolynomialSize(512)), Ok(()));
    assert_eq!(GlweCiphertextCreationError::perform_generic_checks(6144, PolynomialSize(2048)), Ok(()));
    assert_eq!(GlweCiphertextCreationError::perform_generic_checks(3, PolynomialSize(1)), Ok(()));
}

#[test]
fn lwe_generic_checks_reject_only_the_empty_container() {
    assert_eq!(
        LweCiphertextCreationError::perform_generic_checks(0),
        Err(LweCiphertextCreationError::EmptyContainer)
    );
    assert_eq!(LweCiphertextCreationError::perform_generic_checks(1), Ok(()));
    assert_eq!(LweCiphertextCreationError::perform_generic_checks(752), Ok(()));
}

#[test]
fn error_messages_are_those_of_the_engine() {
    assert_eq!(GlweCiphertextCreationError::EmptySlice.message(), "The `values` slice is of size 0!");
    assert_eq!(
        GlweCiphertextCreationError::InvalidSliceSize.message(),
        "The `values` slice size needs to be a multiple of `polynomial_size`."
    );
    assert!(!LweCiphertextCreationError::EmptyContainer.message().is_empty());
}

#[test]
fn creating_a_glwe_view_over_an_empty_buffer_fails_with_empty_slice() {
    let mut memory: Memory<u32> = Memory::new();
    let container = memory.leak(Vec::new()).share();
    let created: Result<GlweCiphertextView32, _> =
        engine().create_glwe_ciphertext(container, PolynomialSize(4));
    assert!(matches!(created, Err(GlweCiphertextCreationError::EmptySlice)));
    assert!(memory.live(container.region()));
}

#[test]
fn creating_a_glwe_view_over_a_partial_polynomial_fails_with_invalid_slice_size() {
    let mut memory: Memory<u64> = Memory::new();
    let container = memory.leak(vec![0u64; 7]).share();
    let created: Result<GlweCiphertextView64, _> =
        engine().create_glwe_ciphertext(container, PolynomialSize(4));
    assert!(matches!(created, Err(GlweCiphertextCreationError::InvalidSliceSize)));
    let exclusive = memory.leak(vec![0u64; 9]);
    let created: Result<GlweCiphertextMutView64, _> =
        engine().create_glwe_ciphertext(exclusive, PolynomialSize(4));
    assert!(matches!(created, Err(GlweCiphertextCreationError::InvalidSliceSize)));
}

#[test]
fn creating_an_lwe_view_over_an_empty_buffer_fails_with_empty_container() {
    let mut memory: Memory<u32> = Memory::new();
    let container = memory.leak(Vec::new()).share();
    let created: Result<LweCiphertextView32, _> = engine().create_lwe_ciphertext(container);
    assert!(matches!(created, Err(LweCiphertextCreationError::EmptyContainer)));
    let exclusive = memory.leak(Vec::new());
    let created: Result<LweCiphertextMutView32, _> = engine().create_lwe_ciphertext(exclusive);
    assert!(matches!(created, Err(LweCiphertextCreationError::EmptyContainer)));
}

#[test]
fn retrieval_gives_back_the_buffer_an_lwe_view_was_created_over() {
    let mut memory: Memory<u32> = Memory::new();
    let owned_container: Vec<u32> = (0..128).collect();
    let _ = memory.leak(vec![9, 9]);
    let container = memory.leak(owned_container.clone()).share();
    let mut engine = engine();
    let view: LweCiphertextView32 = engine.create_lwe_ciphertext(container).unwrap();
    assert_eq!(view.lwe_dimension().0, 127);
    assert_eq!(view.container().region(), container.region());
    let retrieved: BufferRef<u32> = engine.retrieve_lwe_ciphertext(view).unwrap();
    assert_eq!(retrieved.region(), container.region());
    assert_eq!(retrieved.len(), 128);
    assert_eq!(memory.read(retrieved.region()), &owned_container);
    assert_eq!(memory.reclaim(retrieved.region()), owned_container);
}

#[test]
fn retrieval_gives_back_the_buffer_an_lwe_mut_view_was_created_over() {
    let mut memory: Memory<u64> = Memory::new();
    let owned_container: Vec<u64> = (0..128).map(|i| i * 3).collect();
    let container = memory.leak(owned_container.clone());
    let region = container.region();
    let mut engine = engine();
    let view: LweCiphertextMutView64 = engine.create_lwe_ciphertext(container).unwrap();
    assert_eq!(view.lwe_dimension().0, 127);
    assert_eq!(view.region(), region);
    let retrieved: BufferMut<u64> = engine.retrieve_lwe_ciphertext(view).unwrap();
    assert_eq!(retrieved.region(), region);
    assert_eq!(retrieved.len(), 128);
    assert_eq!(memory.reclaim(retrieved.region()), owned_container);
}

#[test]
fn retrieval_gives_back_the_buffer_a_glwe_view_was_created_over() {
    let mut memory: Memory<u64> = Memory::new();
    let owned_container: Vec<u64> = (0..3072).collect();
    let container = memory.leak(owned_container.clone()).share();
    let mut engine = engine();
    let view: GlweCiphertextView64 =
        engine.create_glwe_ciphertext(container, PolynomialSize(1024)).unwrap();
    assert_eq!(view.glwe_dimension().0, 2);
    assert_eq!(view.polynomial_size().0, 1024);
    let retrieved: BufferRef<u64> = engine.retrieve_glwe_ciphertext(view).unwrap();
    assert_eq!(retrieved.region(), container.region());
    assert_eq!(retrieved.len(), 3072);
    assert_eq!(memory.read(retrieved.region()), &owned_container);
}

#[test]
fn retrieval_gives_back_the_buffer_a_glwe_mut_view_was_created_over() {
    let mut memory: Memory<u32> = Memory::new();
    let owned_container: Vec<u32> = (0..1024).collect();
    let container = memory.leak(owned_container.clone());
    let region = container.region();
    let mut engine = engine();
    let view: GlweCiphertextMutView32 =
        engine.create_glwe_ciphertext(container, PolynomialSize(512)).unwrap();
    assert_eq!(view.glwe_dimension().0, 1);
    assert_eq!(view.polynomial_size().0, 512);
    assert_eq!(view.region(), region);
    let retrieved: BufferMut<u32> = engine.retrieve_glwe_ciphertext(view).unwrap();
    assert_eq!(retrieved.region(), region);
    assert_eq!(memory.reclaim(region), owned_container);
}

#[test]
fn a_glwe_view_of_one_polynomial_has_dimension_zero() {
    let mut memory: Memory<u32> = Memory::new();
    let container = memory.leak(vec![0u32; 16]).share();
    let view: GlweCiphertextView32 =
        engine().create_glwe_ciphertext(container, PolynomialSize(16)).unwrap();
    assert_eq!(view.glwe_dimension().0, 0);
}

#[test]
fn an_lwe_view_of_one_scalar_has_dimension_zero() {
    let mut memory: Memory<u64> = Memory::new();
    let container = memory.leak(vec![5u64]).share();
    let view: LweCiphertextView64 = engine().create_lwe_ciphertext(container).unwrap();
    assert_eq!(view.lwe_dimension().0, 0);
}

#[test]
fn two_views_may_alias_one_shared_buffer() {
    let mut memory: Memory<u32> = Memory::new();
    let container = memory.leak(vec![1, 2, 3, 4]).share();
    let mut engine = engine();
    let first: LweCiphertextView32 = engine.create_lwe_ciphertext(container).unwrap();
    let second: LweCiphertextView32 = engine.create_lwe_ciphertext(container).unwrap();
    assert_eq!(first.container().region(), second.container().region());
    engine.destroy(first).unwrap();
    assert_eq!(memory.read(second.container().region()), &vec![1, 2, 3, 4]);
}

#[test]
fn destroying_a_view_through_the_engine_frees_nothing() {
    let mut memory: Memory<u64> = Memory::new();
    let container = memory.leak(vec![7u64; 8]).share();
    let mut engine = engine();
    let view: GlweCiphertextView64 =
        engine.create_glwe_ciphertext(container, PolynomialSize(4)).unwrap();
    engine.destroy(view).unwrap();
    assert!(memory.live(container.region()));
    assert_eq!(memory.read(container.region()), &vec![7u64; 8]);
    let exclusive = memory.leak(vec![1u64, 2]);
    let region = exclusive.region();
    let view: LweCiphertextMutView64 = engine.create_lwe_ciphertext(exclusive).unwrap();
    engine.destroy_unchecked(view);
    assert!(memory.live(region));
}
