use concrete_commons::parameters::PolynomialSize;
use concrete_core::generation::prototyping::glwe_ciphertext_view::{
    PrototypesGlweCiphertextMutView, PrototypesGlweCiphertextView,
};
use concrete_core::generation::prototyping::lwe_ciphertext_view::{
    PrototypesLweCiphertextMutView, PrototypesLweCiphertextView,
};
use concrete_core::generation::synthesizing::glwe_ciphertext_view::{
    SynthesizesGlweCiphertextMutView, SynthesizesGlweCiphertextView,
};
use concrete_core::generation::synthesizing::lwe_ciphertext_view::{
    SynthesizesLweCiphertextMutView, SynthesizesLweCiphertextView,
};
use concrete_core::generation::{Maker, OwnsMemory};
use concrete_core::implementation::engines::CoreEngine;
use concrete_core::implementation::views::{
    GlweCiphertextMutView32, GlweCiphertextView32, GlweCiphertextView64, LweCiphertextMutView32,
    LweCiphertextMutView64, LweCiphertextView32, LweCiphertextView64,
};
use concrete_core::markers::{Precision32, Precision64};
use concrete_core::specification::engines::lwe_ciphertext_creation::LweCiphertextCreationEngine;
use concrete_core::specification::entities::{GlweCiphertextEntity, LweCiphertextEntity};

fn maker() -> Maker<()> {
    Maker::new(CoreEngine::new(()))
}

#[test]
fn raw_to_prototype_and_back_is_the_identity() {
    let mut maker = maker();
    let raw32: Vec<u32> = vec![3, 1, 4, 1, 5];
    let proto = PrototypesLweCiphertextView::<Precision32>::transform_raw_to_ciphertext_view(
        &mut maker,
        raw32.clone(),
    );
    assert_eq!(
        PrototypesLweCiphertextView::<Precision32>::transform_ciphertext_view_to_raw(&mut maker, &proto),
        raw32
    );
    let raw64: Vec<u64> = vec![9, 2, 6];
    let proto = PrototypesLweCiphertextMutView::<Precision64>::transform_raw_to_ciphertext_mut_view(
        &mut maker,
        raw64.clone(),
    );
    assert_eq!(
        PrototypesLweCiphertextMutView::<Precision64>::transform_ciphertext_mut_view_to_raw(
            &mut maker, &proto
        ),
        raw64
    );
}

#[test]
fn glwe_raw_to_prototype_and_back_keeps_the_polynomial_size() {
    let mut maker = maker();
    let raw: Vec<u64> = (0..8).collect();
    let proto = PrototypesGlweCiphertextView::<Precision64>::transform_raw_to_ciphertext_view(
        &mut maker,
        raw.clone(),
        PolynomialSize(4),
    );
    let (back, polynomial_size) =
        PrototypesGlweCiphertextView::<Precision64>::transform_ciphertext_view_to_raw(&mut maker, &proto);
    assert_eq!(back, raw);
    assert_eq!(polynomial_size, PolynomialSize(4));
    let raw: Vec<u32> = (0..6).collect();
    let proto = PrototypesGlweCiphertextMutView::<Precision32>::transform_raw_to_ciphertext_mut_view(
        &mut maker,
        raw.clone(),
        PolynomialSize(3),
    );
    let (back, polynomial_size) =
        PrototypesGlweCiphertextMutView::<Precision32>::transform_ciphertext_mut_view_to_raw(
            &mut maker, &proto,
        );
    assert_eq!(back, raw);
    assert_eq!(polynomial_size, PolynomialSize(3));
}

#[test]
fn synthesizing_copies_the_prototype_into_a_fresh_region() {
    let mut maker = maker();
    let raw: Vec<u32> = vec![11, 22, 33];
    let proto = PrototypesLweCiphertextView::<Precision32>::transform_raw_to_ciphertext_view(
        &mut maker,
        raw.clone(),
    );
    let first: LweCiphertextView32 = maker.synthesize_lwe_ciphertext_view(&proto);
    let second: LweCiphertextView32 = maker.synthesize_lwe_ciphertext_view(&proto);
    assert_eq!(first.lwe_dimension().0, 2);
    assert_eq!(first.container().region(), 0);
    assert_eq!(second.container().region(), 1);
    assert_eq!(maker.memory_32().read(0), &raw);
    assert_eq!(maker.memory_32().read(1), &raw);
    assert!(!maker.memory_64().live(0));
}

#[test]
fn unsynthesizing_reclaims_the_region_into_the_prototype() {
    let mut maker = maker();
    let raw: Vec<u64> = vec![5, 6, 7, 8];
    let proto = PrototypesLweCiphertextView::<Precision64>::transform_raw_to_ciphertext_view(
        &mut maker,
        raw.clone(),
    );
    let view: LweCiphertextView64 = maker.synthesize_lwe_ciphertext_view(&proto);
    let region = view.container().region();
    assert!(maker.memory_64().live(region));
    let back = maker.unsynthesize_lwe_ciphertext_view(view);
    assert!(!maker.memory_64().live(region));
    assert_eq!(
        PrototypesLweCiphertextView::<Precision64>::transform_ciphertext_view_to_raw(&mut maker, &back),
        raw
    );
}

#[test]
fn unsynthesizing_a_glwe_view_keeps_the_polynomial_size() {
    let mut maker = maker();
    let raw: Vec<u32> = (0..12).collect();
    let proto = PrototypesGlweCiphertextView::<Precision32>::transform_raw_to_ciphertext_view(
        &mut maker,
        raw.clone(),
        PolynomialSize(4),
    );
    let view: GlweCiphertextView32 = maker.synthesize_glwe_ciphertext_view(&proto);
    assert_eq!(view.glwe_dimension().0, 2);
    assert_eq!(view.polynomial_size().0, 4);
    let back = maker.unsynthesize_glwe_ciphertext_view(view);
    let (scalars, polynomial_size) =
        PrototypesGlweCiphertextView::<Precision32>::transform_ciphertext_view_to_raw(&mut maker, &back);
    assert_eq!(scalars, raw);
    assert_eq!(polynomial_size, PolynomialSize(4));
    assert!(!maker.memory_32().live(0));
}

#[test]
fn destroying_a_shared_view_with_the_flag_frees_exactly_its_region() {
    let mut maker = maker();
    let kept = PrototypesLweCiphertextView::<Precision32>::transform_raw_to_ciphertext_view(
        &mut maker,
        vec![1u32, 2],
    );
    let dropped = PrototypesLweCiphertextView::<Precision32>::transform_raw_to_ciphertext_view(
        &mut maker,
        vec![3u32, 4, 5],
    );
    let kept_view: LweCiphertextView32 = maker.synthesize_lwe_ciphertext_view(&kept);
    let dropped_view: LweCiphertextView32 = maker.synthesize_lwe_ciphertext_view(&dropped);
    let kept_region = kept_view.container().region();
    let dropped_region = dropped_view.container().region();
    maker.destroy_lwe_ciphertext_view(dropped_view, true);
    assert!(!maker.memory_32().live(dropped_region));
    assert!(maker.memory_32().live(kept_region));
    assert_eq!(maker.memory_32().read(kept_region), &vec![1u32, 2]);
}

#[test]
fn destroying_a_shared_view_without_the_flag_frees_nothing() {
    let mut maker = maker();
    let proto = PrototypesLweCiphertextView::<Precision64>::transform_raw_to_ciphertext_view(
        &mut maker,
        vec![8u64, 9],
    );
    let view: LweCiphertextView64 = maker.synthesize_lwe_ciphertext_view(&proto);
    let container = view.container();
    let alias: LweCiphertextView64 =
        CoreEngine::new(()).create_lwe_ciphertext(container).unwrap();
    maker.destroy_lwe_ciphertext_view(view, false);
    assert!(maker.memory_64().live(container.region()));
    assert_eq!(maker.memory_64().read(container.region()), &vec![8u64, 9]);
    maker.destroy_lwe_ciphertext_view(alias, true);
    assert!(!maker.memory_64().live(container.region()));
}

#[test]
fn destroying_a_shared_glwe_view_follows_the_flag() {
    let mut maker = maker();
    let proto = PrototypesGlweCiphertextView::<Precision64>::transform_raw_to_ciphertext_view(
        &mut maker,
        vec![0u64; 6],
        PolynomialSize(3),
    );
    let first: GlweCiphertextView64 = maker.synthesize_glwe_ciphertext_view(&proto);
    let second: GlweCiphertextView64 = maker.synthesize_glwe_ciphertext_view(&proto);
    let first_region = first.container().region();
    let second_region = second.container().region();
    maker.destroy_glwe_ciphertext_view(first, false);
    assert!(maker.memory_64().live(first_region));
    maker.destroy_glwe_ciphertext_view(second, true);
    assert!(!maker.memory_64().live(second_region));
    assert!(maker.memory_64().live(first_region));
}

#[test]
fn destroying_a_mutable_view_always_frees_its_region() {
    let mut maker = maker();
    let proto = PrototypesLweCiphertextMutView::<Precision32>::transform_raw_to_ciphertext_mut_view(
        &mut maker,
        vec![1u32, 2, 3],
    );
    let other: LweCiphertextMutView32 = maker.synthesize_lwe_ciphertext_mut_view(&proto);
    let view: LweCiphertextMutView32 = maker.synthesize_lwe_ciphertext_mut_view(&proto);
    let region = view.region();
    maker.destroy_lwe_ciphertext_mut_view(view);
    assert!(!maker.memory_32().live(region));
    assert!(maker.memory_32().live(other.region()));
    let proto = PrototypesGlweCiphertextMutView::<Precision32>::transform_raw_to_ciphertext_mut_view(
        &mut maker,
        vec![1u32, 2, 3, 4],
        PolynomialSize(2),
    );
    let view: GlweCiphertextMutView32 = maker.synthesize_glwe_ciphertext_mut_view(&proto);
    let region = view.region();
    maker.destroy_glwe_ciphertext_mut_view(view);
    assert!(!maker.memory_32().live(region));
}

#[test]
fn unsynthesizing_a_mutable_view_reclaims_its_region() {
    let mut maker = maker();
    let raw: Vec<u64> = vec![42, 43];
    let proto = PrototypesLweCiphertextMutView::<Precision64>::transform_raw_to_ciphertext_mut_view(
        &mut maker,
        raw.clone(),
    );
    let view: LweCiphertextMutView64 = maker.synthesize_lwe_ciphertext_mut_view(&proto);
    let region = view.region();
    let back = maker.unsynthesize_lwe_ciphertext_mut_view(view);
    assert!(!maker.memory_64().live(region));
    assert_eq!(
        PrototypesLweCiphertextMutView::<Precision64>::transform_ciphertext_mut_view_to_raw(
            &mut maker, &back
        ),
        raw
    );
}

#[test]
fn the_maker_keeps_one_memory_per_precision() {
    let mut maker = maker();
    let handle = OwnsMemory::<Precision32>::leak(&mut maker, vec![1u32, 2, 3]);
    assert_eq!(handle.region(), 0);
    assert!(maker.memory_32().live(0));
    assert!(!maker.memory_64().live(0));
    let handle = OwnsMemory::<Precision64>::leak(&mut maker, vec![4u64]);
    assert_eq!(handle.region(), 0);
    assert_eq!(OwnsMemory::<Precision64>::reclaim(&mut maker, 0), vec![4u64]);
    assert_eq!(OwnsMemory::<Precision32>::memory(&maker).read(0), &vec![1u32, 2, 3]);
}
