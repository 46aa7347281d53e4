use concrete_core::fixture::glwe_ciphertext_creation::{
    GlweCiphertextMutViewCreationFixture, GlweCiphertextViewCreationFixture,
    GlweCiphertextViewCreationParameters,
};
use concrete_core::fixture::glwe_ciphertext_retrieval::{
    GlweCiphertextMutViewRetrievalFixture, GlweCiphertextViewRetrievalFixture,
};
use concrete_core::fixture::lwe_ciphertext_creation::{
    LweCiphertextMutViewCreationFixture, LweCiphertextViewCreationFixture,
    LweCiphertextViewCreationParameters,
};
use concrete_core::fixture::lwe_ciphertext_retrieval::{
    LweCiphertextMutViewRetrievalFixture, LweCiphertextViewRetrievalFixture,
};
use concrete_core::fixture::{aggregate, assert_noise_distribution, ZeroVariance};
use concrete_core::generation::{Maker, OwnsMemory};
use concrete_core::implementation::engines::CoreEngine;
use concrete_core::implementation::views::{
    GlweCiphertextMutView32, GlweCiphertextMutView64, GlweCiphertextView32, GlweCiphertextView64,
    LweCiphertextMutView32, LweCiphertextMutView64, LweCiphertextView32, LweCiphertextView64,
};
use concrete_core::markers::{Precision32, Precision64};
use concrete_core::raw::RawUnsignedIntegers;
use concrete_commons::parameters::{GlweDimension, LweDimension, PolynomialSize};

fn maker() -> Maker<()> {
    Maker::new(CoreEngine::new(()))
}

#[test]
fn lwe_fixtures_run_over_dimensions_1_512_751() {
    let dimensions = |list: Vec<usize>| assert_eq!(list, vec![1, 512, 751]);
    dimensions(
        LweCiphertextViewCreationFixture::generate_parameters_iterator()
            .iter()
            .map(|p| p.lwe_dimension.0)
            .collect(),
    );
    dimensions(
        LweCiphertextMutViewCreationFixture::generate_parameters_iterator()
            .iter()
            .map(|p| p.lwe_dimension.0)
            .collect(),
    );
    dimensions(
        LweCiphertextViewRetrievalFixture::generate_parameters_iterator()
            .iter()
            .map(|p| p.lwe_dimension.0)
            .collect(),
    );
    dimensions(
        LweCiphertextMutViewRetrievalFixture::generate_parameters_iterator()
            .iter()
            .map(|p| p.lwe_dimension.0)
            .collect(),
    );
}

#[test]
fn glwe_fixtures_run_over_their_three_parameter_sets() {
    let expected = vec![(1, 512), (2, 1024), (2, 2048)];
    let sets: Vec<(usize, usize)> = GlweCiphertextViewCreationFixture::generate_parameters_iterator()
        .iter()
        .map(|p| (p.glwe_dimension.0, p.polynomial_size.0))
        .collect();
    assert_eq!(sets, expected);
    let sets: Vec<(usize, usize)> =
        GlweCiphertextMutViewCreationFixture::generate_parameters_iterator()
            .iter()
            .map(|p| (p.glwe_dimension.0, p.polynomial_size.0))
            .collect();
    assert_eq!(sets, expected);
    let sets: Vec<(usize, usize)> = GlweCiphertextViewRetrievalFixture::generate_parameters_iterator()
        .iter()
        .map(|p| (p.glwe_dimension.0, p.polynomial_size.0))
        .collect();
    assert_eq!(sets, expected);
    let sets: Vec<(usize, usize)> =
        GlweCiphertextMutViewRetrievalFixture::generate_parameters_iterator()
            .iter()
            .map(|p| (p.glwe_dimension.0, p.polynomial_size.0))
            .collect();
    assert_eq!(sets, expected);
}

#[test]
fn an_lwe_sample_has_one_scalar_more_than_the_dimension() {
    let mut maker = maker();
    let parameters = LweCiphertextViewCreationParameters { lwe_dimension: LweDimension(512) };
    let (raw,): (Vec<u32>,) =
        LweCiphertextViewCreationFixture::generate_random_sample_prototypes::<Precision32, ()>(
            &parameters,
            &mut maker,
            &(),
        );
    assert_eq!(raw.len(), 513);
    let parameters = LweCiphertextViewCreationParameters { lwe_dimension: LweDimension(0) };
    let (raw,): (Vec<u64>,) =
        LweCiphertextMutViewCreationFixture::generate_random_sample_prototypes::<Precision64, ()>(
            &parameters,
            &mut maker,
            &(),
        );
    assert_eq!(raw.len(), 1);
}

#[test]
fn a_glwe_sample_has_size_times_polynomial_size_scalars() {
    let mut maker = maker();
    let parameters = GlweCiphertextViewCreationParameters {
        glwe_dimension: GlweDimension(2),
        polynomial_size: PolynomialSize(1024),
    };
    let (raw, polynomial_size): (Vec<u64>, PolynomialSize) =
        GlweCiphertextViewCreationFixture::generate_random_sample_prototypes::<Precision64, ()>(
            &parameters,
            &mut maker,
            &(),
        );
    assert_eq!(raw.len(), 3072);
    assert_eq!(polynomial_size, PolynomialSize(1024));
}

#[test]
fn uniform_vectors_have_the_length_asked_for() {
    assert_eq!(<u32 as RawUnsignedIntegers>::uniform_vec(0).len(), 0);
    assert_eq!(<u32 as RawUnsignedIntegers>::uniform_vec(751).len(), 751);
    assert_eq!(<u64 as RawUnsignedIntegers>::uniform_vec(2048).len(), 2048);
    assert_eq!(<u64 as RawUnsignedIntegers>::zero_vec(5), vec![0u64; 5]);
    assert_eq!(<u32 as RawUnsignedIntegers>::zero_vec(3), vec![0u32; 3]);
    assert!(7u32.equals(&7u32));
    assert!(!7u64.equals(&8u64));
}

#[test]
fn uniform_integers_are_not_constant() {
    let first = <u64 as RawUnsignedIntegers>::uniform();
    assert!((0..64).any(|_| <u64 as RawUnsignedIntegers>::uniform() != first));
    let first = <u32 as RawUnsignedIntegers>::uniform();
    assert!((0..64).any(|_| <u32 as RawUnsignedIntegers>::uniform() != first));
}

#[test]
fn uniform_vectors_are_not_constant() {
    let drawn = <u64 as RawUnsignedIntegers>::uniform_vec(64);
    assert!(drawn.iter().any(|scalar| *scalar != drawn[0]));
    let drawn = <u32 as RawUnsignedIntegers>::uniform_vec(64);
    assert!(drawn.iter().any(|scalar| *scalar != drawn[0]));
}

#[test]
fn lwe_view_creation_gives_every_buffer_back_for_every_parameter_set() {
    let mut maker = maker();
    let mut engine = CoreEngine::new(());
    let mut outputs32 = Vec::new();
    let mut outputs64 = Vec::new();
    for parameters in LweCiphertextViewCreationFixture::generate_parameters_iterator() {
        for _ in 0..5 {
            let outcome = LweCiphertextViewCreationFixture::sample::<
                Precision32,
                (),
                CoreEngine<()>,
                LweCiphertextView32,
            >(&parameters, &mut maker, &mut engine, &());
            assert_eq!(outcome.0.len(), parameters.lwe_dimension.0 + 1);
            assert_eq!(outcome.0, outcome.1);
            outputs32.push(outcome);
            let outcome = LweCiphertextViewCreationFixture::sample::<
                Precision64,
                (),
                CoreEngine<()>,
                LweCiphertextView64,
            >(&parameters, &mut maker, &mut engine, &());
            assert_eq!(outcome.0, outcome.1);
            outputs64.push(outcome);
        }
    }
    let criteria = LweCiphertextViewCreationFixture::compute_criteria(
        &LweCiphertextViewCreationParameters { lwe_dimension: LweDimension(1) },
        &mut maker,
        &(),
    );
    assert!(LweCiphertextViewCreationFixture::verify(&criteria, &outputs32));
    assert!(LweCiphertextViewCreationFixture::verify(&criteria, &outputs64));
    for region in 0..30 {
        assert!(!maker.memory_32().live(region));
        assert!(!maker.memory_64().live(region));
    }
}

#[test]
fn lwe_mut_view_creation_gives_every_buffer_back_for_every_parameter_set() {
    let mut maker = maker();
    let mut engine = CoreEngine::new(());
    for parameters in LweCiphertextMutViewCreationFixture::generate_parameters_iterator() {
        let outcome = LweCiphertextMutViewCreationFixture::sample::<
            Precision32,
            (),
            CoreEngine<()>,
            LweCiphertextMutView32,
        >(&parameters, &mut maker, &mut engine, &());
        assert_eq!(outcome.0.len(), parameters.lwe_dimension.0 + 1);
        assert_eq!(outcome.0, outcome.1);
        let outcome = LweCiphertextMutViewCreationFixture::sample::<
            Precision64,
            (),
            CoreEngine<()>,
            LweCiphertextMutView64,
        >(&parameters, &mut maker, &mut engine, &());
        assert_eq!(outcome.0, outcome.1);
    }
    assert!(!maker.memory_32().live(0));
    assert!(!maker.memory_64().live(2));
}

#[test]
fn lwe_view_retrieval_gives_every_buffer_back_for_every_parameter_set() {
    let mut maker = maker();
    let mut engine = CoreEngine::new(());
    for parameters in LweCiphertextViewRetrievalFixture::generate_parameters_iterator() {
        let outcome = LweCiphertextViewRetrievalFixture::sample::<
            Precision32,
            (),
            CoreEngine<()>,
            LweCiphertextView32,
        >(&parameters, &mut maker, &mut engine, &());
        assert_eq!(outcome.0.len(), parameters.lwe_dimension.0 + 1);
        assert_eq!(outcome.0, outcome.1);
        let outcome = LweCiphertextViewRetrievalFixture::sample::<
            Precision64,
            (),
            CoreEngine<()>,
            LweCiphertextView64,
        >(&parameters, &mut maker, &mut engine, &());
        assert_eq!(outcome.0, outcome.1);
        let outcome = LweCiphertextMutViewRetrievalFixture::sample::<
            Precision32,
            (),
            CoreEngine<()>,
            LweCiphertextMutView32,
        >(&parameters, &mut maker, &mut engine, &());
        assert_eq!(outcome.0, outcome.1);
        let outcome = LweCiphertextMutViewRetrievalFixture::sample::<
            Precision64,
            (),
            CoreEngine<()>,
            LweCiphertextMutView64,
        >(&parameters, &mut maker, &mut engine, &());
        assert_eq!(outcome.0, outcome.1);
    }
    for region in 0..6 {
        assert!(!maker.memory_32().live(region));
        assert!(!maker.memory_64().live(region));
    }
}

#[test]
fn glwe_view_creation_gives_every_buffer_back_for_every_parameter_set() {
    let mut maker = maker();
    let mut engine = CoreEngine::new(());
    for parameters in GlweCiphertextViewCreationFixture::generate_parameters_iterator() {
        let expected = (parameters.glwe_dimension.0 + 1) * parameters.polynomial_size.0;
        let outcome = GlweCiphertextViewCreationFixture::sample::<
            Precision32,
            (),
            CoreEngine<()>,
            GlweCiphertextView32,
        >(&parameters, &mut maker, &mut engine, &());
        assert_eq!(outcome.0.len(), expected);
        assert_eq!(outcome.0, outcome.1);
        let outcome = GlweCiphertextViewCreationFixture::sample::<
            Precision64,
            (),
            CoreEngine<()>,
            GlweCiphertextView64,
        >(&parameters, &mut maker, &mut engine, &());
        assert_eq!(outcome.0, outcome.1);
        let outcome = GlweCiphertextMutViewCreationFixture::sample::<
            Precision32,
            (),
            CoreEngine<()>,
            GlweCiphertextMutView32,
        >(&parameters, &mut maker, &mut engine, &());
        assert_eq!(outcome.0, outcome.1);
        let outcome = GlweCiphertextMutViewCreationFixture::sample::<
            Precision64,
            (),
            CoreEngine<()>,
            GlweCiphertextMutView64,
        >(&parameters, &mut maker, &mut engine, &());
        assert_eq!(outcome.0.len(), expected);
        assert_eq!(outcome.0, outcome.1);
    }
    assert!(!maker.memory_32().live(0));
    assert!(!maker.memory_64().live(0));
}

#[test]
fn glwe_view_retrieval_gives_every_buffer_back_for_every_parameter_set() {
    let mut maker = maker();
    let mut engine = CoreEngine::new(());
    for parameters in GlweCiphertextViewRetrievalFixture::generate_parameters_iterator() {
        let expected = (parameters.glwe_dimension.0 + 1) * parameters.polynomial_size.0;
        let outcome = GlweCiphertextViewRetrievalFixture::sample::<
            Precision32,
            (),
            CoreEngine<()>,
            GlweCiphertextView32,
        >(&parameters, &mut maker, &mut engine, &());
        assert_eq!(outcome.0.len(), expected);
        assert_eq!(outcome.0, outcome.1);
        let outcome = GlweCiphertextViewRetrievalFixture::sample::<
            Precision64,
            (),
            CoreEngine<()>,
            GlweCiphertextView64,
        >(&parameters, &mut maker, &mut engine, &());
        assert_eq!(outcome.0, outcome.1);
        let outcome = GlweCiphertextMutViewRetrievalFixture::sample::<
            Precision32,
            (),
            CoreEngine<()>,
            GlweCiphertextMutView32,
        >(&parameters, &mut maker, &mut engine, &());
        assert_eq!(outcome.0, outcome.1);
        let outcome = GlweCiphertextMutViewRetrievalFixture::sample::<
            Precision64,
            (),
            CoreEngine<()>,
            GlweCiphertextMutView64,
        >(&parameters, &mut maker, &mut engine, &());
        assert_eq!(outcome.0, outcome.1);
    }
    assert!(!maker.memory_32().live(0));
    assert!(!maker.memory_64().live(0));
}

#[test]
fn the_stages_of_a_creation_sample_hand_the_buffer_on() {
    let mut maker = maker();
    let mut engine = CoreEngine::new(());
    let parameters = LweCiphertextViewCreationParameters { lwe_dimension: LweDimension(3) };
    LweCiphertextViewCreationFixture::generate_random_repetition_prototypes(&parameters, &mut maker);
    let sample_proto: (Vec<u32>,) = (vec![10, 20, 30, 40],);
    let context = LweCiphertextViewCreationFixture::prepare_context::<Precision32, ()>(
        &parameters,
        &mut maker,
        &(),
        &sample_proto,
    );
    assert_eq!(context.0.len(), 4);
    assert_eq!(maker.memory_32().read(context.0.region()), &vec![10, 20, 30, 40]);
    let region = context.0.region();
    let post: (LweCiphertextView32,) = LweCiphertextViewCreationFixture::execute_engine::<
        Precision32,
        CoreEngine<()>,
        LweCiphertextView32,
    >(&parameters, &mut engine, context);
    assert_eq!(post.0.container().region(), region);
    let outcome = LweCiphertextViewCreationFixture::process_context::<
        Precision32,
        (),
        LweCiphertextView32,
    >(&parameters, &mut maker, &(), &sample_proto, post);
    assert_eq!(outcome, (vec![10, 20, 30, 40], vec![10, 20, 30, 40]));
    assert!(!maker.memory_32().live(region));
}

#[test]
fn aggregation_chains_means_and_actual_values_in_order() {
    let outputs: Vec<(Vec<u32>, Vec<u32>)> =
        vec![(vec![1, 2], vec![3, 4]), (vec![], vec![5]), (vec![6], vec![])];
    assert_eq!(aggregate(&outputs), (vec![1, 2, 6], vec![3, 4, 5]));
    let none: Vec<(Vec<u64>, Vec<u64>)> = Vec::new();
    assert_eq!(aggregate(&none), (Vec::new(), Vec::new()));
}

#[test]
fn zero_variance_accepts_exactly_equal_values() {
    assert!(assert_noise_distribution(&vec![1u32, 2, 3], &vec![1u32, 2, 3], ZeroVariance));
    assert!(assert_noise_distribution(&Vec::<u64>::new(), &Vec::<u64>::new(), ZeroVariance));
    assert!(!assert_noise_distribution(&vec![1u32, 2, 4], &vec![1u32, 2, 3], ZeroVariance));
    assert!(!assert_noise_distribution(&vec![1u64, 2], &vec![1u64, 2, 3], ZeroVariance));
    assert!(!assert_noise_distribution(&vec![0u64], &vec![1u64], ZeroVariance));
}

#[test]
fn verification_rejects_a_single_deviating_scalar() {
    let good: Vec<(Vec<u64>, Vec<u64>)> = vec![(vec![1, 2], vec![1, 2]), (vec![3], vec![3])];
    let bad: Vec<(Vec<u64>, Vec<u64>)> = vec![(vec![1, 2], vec![1, 2]), (vec![3], vec![4])];
    assert!(GlweCiphertextViewRetrievalFixture::verify(&(ZeroVariance,), &good));
    assert!(!GlweCiphertextViewRetrievalFixture::verify(&(ZeroVariance,), &bad));
    assert!(LweCiphertextMutViewRetrievalFixture::verify(&(ZeroVariance,), &good));
    assert!(!GlweCiphertextMutViewCreationFixture::verify(&(ZeroVariance,), &bad));
    let shifted: Vec<(Vec<u64>, Vec<u64>)> = vec![(vec![1], vec![1, 2]), (vec![2, 3], vec![3])];
    assert!(LweCiphertextViewRetrievalFixture::verify(&(ZeroVariance,), &shifted));
}

#[test]
fn the_view_fixtures_accept_the_core_engine() {
    let mut maker = maker();
    let mut engine = CoreEngine::new(());
    assert!(LweCiphertextViewCreationFixture::stress_all_parameters::<
        Precision32,
        (),
        CoreEngine<()>,
        LweCiphertextView32,
    >(&mut maker, &mut engine, 2, 3));
    assert!(LweCiphertextMutViewCreationFixture::stress_all_parameters::<
        Precision64,
        (),
        CoreEngine<()>,
        LweCiphertextMutView64,
    >(&mut maker, &mut engine, 2, 3));
    assert!(LweCiphertextViewRetrievalFixture::stress_all_parameters::<
        Precision64,
        (),
        CoreEngine<()>,
        LweCiphertextView64,
    >(&mut maker, &mut engine, 2, 3));
    assert!(LweCiphertextMutViewRetrievalFixture::stress_all_parameters::<
        Precision32,
        (),
        CoreEngine<()>,
        LweCiphertextMutView32,
    >(&mut maker, &mut engine, 2, 3));
    assert!(GlweCiphertextViewCreationFixture::stress_all_parameters::<
        Precision64,
        (),
        CoreEngine<()>,
        GlweCiphertextView64,
    >(&mut maker, &mut engine, 1, 2));
    assert!(GlweCiphertextMutViewCreationFixture::stress_all_parameters::<
        Precision32,
        (),
        CoreEngine<()>,
        GlweCiphertextMutView32,
    >(&mut maker, &mut engine, 1, 2));
    assert!(GlweCiphertextViewRetrievalFixture::stress_all_parameters::<
        Precision32,
        (),
        CoreEngine<()>,
        GlweCiphertextView32,
    >(&mut maker, &mut engine, 1, 2));
    assert!(GlweCiphertextMutViewRetrievalFixture::stress_all_parameters::<
        Precision64,
        (),
        CoreEngine<()>,
        GlweCiphertextMutView64,
    >(&mut maker, &mut engine, 1, 2));
    for region in 0..64 {
        assert!(!maker.memory_32().live(region));
        assert!(!maker.memory_64().live(region));
    }
}

#[test]
fn a_repetition_of_no_sample_is_accepted() {
    let mut maker = maker();
    let mut engine = CoreEngine::new(());
    let parameters = LweCiphertextViewCreationParameters { lwe_dimension: LweDimension(7) };
    assert!(LweCiphertextViewCreationFixture::repeat::<
        Precision32,
        (),
        CoreEngine<()>,
        LweCiphertextView32,
    >(&parameters, &mut maker, &mut engine, 0));
    assert!(LweCiphertextViewCreationFixture::stress::<
        Precision32,
        (),
        CoreEngine<()>,
        LweCiphertextView32,
    >(&parameters, &mut maker, &mut engine, 0, 5));
    assert!(LweCiphertextViewCreationFixture::stress::<
        Precision32,
        (),
        CoreEngine<()>,
        LweCiphertextView32,
    >(&parameters, &mut maker, &mut engine, 3, 4));
}

#[test]
fn a_repetition_hands_out_one_region_for_each_sample() {
    let mut maker = maker();
    let mut engine = CoreEngine::new(());
    let parameters = LweCiphertextViewCreationParameters { lwe_dimension: LweDimension(2) };
    assert!(LweCiphertextViewCreationFixture::repeat::<
        Precision32,
        (),
        CoreEngine<()>,
        LweCiphertextView32,
    >(&parameters, &mut maker, &mut engine, 4));
    assert_eq!(OwnsMemory::<Precision32>::leak(&mut maker, vec![1u32]).region(), 4);
    assert_eq!(OwnsMemory::<Precision64>::leak(&mut maker, vec![1u64]).region(), 0);
    assert!(LweCiphertextMutViewRetrievalFixture::stress::<
        Precision64,
        (),
        CoreEngine<()>,
        LweCiphertextMutView64,
    >(&parameters_of_retrieval(), &mut maker, &mut engine, 2, 3));
    assert_eq!(OwnsMemory::<Precision64>::leak(&mut maker, vec![1u64]).region(), 1 + 2 * 3);
}

fn parameters_of_retrieval() -> concrete_core::fixture::lwe_ciphertext_retrieval::LweCiphertextViewRetrievalParameters {
    concrete_core::fixture::lwe_ciphertext_retrieval::LweCiphertextViewRetrievalParameters {
        lwe_dimension: LweDimension(2),
    }
}

#[test]
fn the_whole_fixture_hands_out_one_region_for_each_sample_of_each_parameter_set() {
    let mut maker = maker();
    let mut engine = CoreEngine::new(());
    assert!(GlweCiphertextViewRetrievalFixture::stress_all_parameters::<
        Precision32,
        (),
        CoreEngine<()>,
        GlweCiphertextView32,
    >(&mut maker, &mut engine, 2, 2));
    assert_eq!(OwnsMemory::<Precision32>::leak(&mut maker, vec![1u32]).region(), 3 * 2 * 2);
    assert!(GlweCiphertextMutViewCreationFixture::stress_all_parameters::<
        Precision64,
        (),
        CoreEngine<()>,
        GlweCiphertextMutView64,
    >(&mut maker, &mut engine, 1, 2));
    assert_eq!(OwnsMemory::<Precision64>::leak(&mut maker, vec![1u64]).region(), 3 * 1 * 2);
}
