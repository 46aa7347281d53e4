//! Fixtures for the creation of LWE ciphertext views.
use crate::fixture::{aggregate, assert_noise_distribution, ZeroVariance};
use crate::generation::synthesizing::lwe_ciphertext_view::{
    SynthesizesLweCiphertextMutView, SynthesizesLweCiphertextView,
};
use crate::generation::prototyping::lwe_ciphertext_view::{
    PrototypesLweCiphertextMutView, PrototypesLweCiphertextView,
};
use crate::generation::{Maker, OwnsMemory};
use crate::markers::IntegerPrecision;
use crate::memory::{BufferMut, BufferRef};
use crate::raw::{copy_of, RawUnsignedIntegers};
use crate::specification::engines::lwe_ciphertext_creation::LweCiphertextCreationEngine;
use crate::specification::entities::{ContainerEntity, LweCiphertextEntity};
use concrete_commons::parameters::LweDimension;
use vstd::prelude::*;

verus! {

/// The parameters of one run of the creation fixtures.
#[derive(Debug)]
pub struct LweCiphertextViewCreationParameters {
    pub lwe_dimension: LweDimension,
}

impl LweCiphertextViewCreationParameters {
    /// Whether a ciphertext of this dimension can be stored: its size, the dimension and one,
    /// fits in a `usize`.
    pub open spec fn is_valid(&self) -> bool {
        self.lwe_dimension.0 < usize::MAX
    }
}

/// The parameter sets of the creation fixtures: the LWE dimensions 1, 512 and 751.
fn creation_parameters() -> (parameters: Vec<LweCiphertextViewCreationParameters>)
    ensures
        parameters@.len() == 3,
        parameters@[0].lwe_dimension.0 == 1,
        parameters@[1].lwe_dimension.0 == 512,
        parameters@[2].lwe_dimension.0 == 751,
        forall|i: int| 0 <= i < parameters@.len() ==> (#[trigger] parameters@[i]).is_valid(),
{
    let mut parameters: Vec<LweCiphertextViewCreationParameters> = Vec::new();
    parameters.push(LweCiphertextViewCreationParameters { lwe_dimension: LweDimension(1) });
    parameters.push(LweCiphertextViewCreationParameters { lwe_dimension: LweDimension(512) });
    parameters.push(LweCiphertextViewCreationParameters { lwe_dimension: LweDimension(751) });
    parameters
}

/// A fixture for the engines that create read-only LWE ciphertext views.
///
/// A sample leaks a buffer of uniformly drawn scalars, has the engine create a view over it,
/// and reclaims the buffer from the view. The buffer must come back as it went in.
pub struct LweCiphertextViewCreationFixture;

impl LweCiphertextViewCreationFixture {
    /// The parameter sets the fixture runs over: the LWE dimensions 1, 512 and 751, each of
    /// them valid.
    pub fn generate_parameters_iterator() -> (parameters: Vec<LweCiphertextViewCreationParameters>)
        ensures
            parameters@.len() == 3,
            parameters@[0].lwe_dimension.0 == 1,
            parameters@[1].lwe_dimension.0 == 512,
            parameters@[2].lwe_dimension.0 == 751,
            forall|i: int| 0 <= i < parameters@.len() ==> (#[trigger] parameters@[i]).is_valid(),
    {
        creation_parameters()
    }

    /// What the samples of one repetition share: nothing. The maker is left as it was.
    pub fn generate_random_repetition_prototypes<B>(
        parameters: &LweCiphertextViewCreationParameters,
        maker: &mut Maker<B>,
    )
        ensures
            *final(maker) == *old(maker),
    {
    }

    /// The input of one sample: uniformly drawn scalars, as many as a ciphertext of the
    /// dimension of `parameters` has, mask and body. The maker is left as it was.
    pub fn generate_random_sample_prototypes<Precision: IntegerPrecision, B>(
        parameters: &LweCiphertextViewCreationParameters,
        maker: &mut Maker<B>,
        repetition_proto: &(),
    ) -> (sample_proto: (Vec<Precision::Raw>,))
        requires
            parameters.is_valid(),
        ensures
            sample_proto.0@.len() == parameters.lwe_dimension.0 + 1,
            *final(maker) == *old(maker),
    {
        let num_elements = parameters.lwe_dimension.to_lwe_size().0;
        (<Precision::Raw as RawUnsignedIntegers>::uniform_vec(num_elements),)
    }

    /// What the engine call needs: a buffer in caller memory. A copy of the sample is leaked
    /// into a fresh region of the maker's memory, and the shared handle to it comes back.
    /// Every other region is left as it was.
    pub fn prepare_context<Precision: IntegerPrecision, B>(
        parameters: &LweCiphertextViewCreationParameters,
        maker: &mut Maker<B>,
        repetition_proto: &(),
        sample_proto: &(Vec<Precision::Raw>,),
    ) -> (context: (BufferRef<Precision::Raw>,)) where Maker<B>: OwnsMemory<Precision>
        ensures
            context.0.spec_len() == sample_proto.0@.len(),
            !old(maker).spec_memory().is_live(context.0.spec_region()),
            final(maker).spec_memory()@ == old(maker).spec_memory()@.insert(
                context.0.spec_region(),
                sample_proto.0@,
            ),
            final(maker).spec_rest() == old(maker).spec_rest(),
            context.0.spec_region() == old(maker).spec_memory().allocated(),
            final(maker).spec_memory().allocated() == old(maker).spec_memory().allocated() + 1,
    {
        let underlying_container = copy_of(&sample_proto.0);
        (maker.leak(underlying_container).share(),)
    }

    /// The engine call: a view is created over the buffer, unchecked. That the buffer is not
    /// empty is the obligation of the caller. The view that comes back aliases the buffer
    /// that went in, and the engine is left as it was.
    pub fn execute_engine<Precision: IntegerPrecision, Engine, LweCiphertextView>(
        parameters: &LweCiphertextViewCreationParameters,
        engine: &mut Engine,
        context: (BufferRef<Precision::Raw>,),
    ) -> (post: (LweCiphertextView,)) where
        Engine: LweCiphertextCreationEngine<BufferRef<Precision::Raw>, LweCiphertextView>,
        LweCiphertextView: LweCiphertextEntity + ContainerEntity<BufferRef<Precision::Raw>>,

        requires
            context.0.spec_len() > 0,
        ensures
            post.0.spec_container() == context.0,
            *final(engine) == *old(engine),
    {
        let (slice_from_container,) = context;
        let lwe_ciphertext_view = engine.create_lwe_ciphertext_unchecked(slice_from_container);
        (lwe_ciphertext_view,)
    }

    /// The outcome of a sample: the scalars of the sample as means, and as actual values the
    /// scalars of the buffer that the view aliases. Unsynthesizing consumes the view and
    /// reclaims its region, so there is nothing left to destroy.
    pub fn process_context<Precision: IntegerPrecision, B, LweCiphertextView>(
        parameters: &LweCiphertextViewCreationParameters,
        maker: &mut Maker<B>,
        repetition_proto: &(),
        sample_proto: &(Vec<Precision::Raw>,),
        context: (LweCiphertextView,),
    ) -> (outcome: (Vec<Precision::Raw>, Vec<Precision::Raw>)) where
        LweCiphertextView: LweCiphertextEntity + ContainerEntity<BufferRef<Precision::Raw>>,
        Maker<B>: SynthesizesLweCiphertextView<Precision, LweCiphertextView>,

        requires
            old(maker).spec_memory().holds(&context.0.spec_container()),
        ensures
            outcome.0@ == sample_proto.0@,
            outcome.1@ == old(maker).spec_memory()@[context.0.spec_container().spec_region()],
            final(maker).spec_memory()@ == old(maker).spec_memory()@.remove(
                context.0.spec_container().spec_region(),
            ),
            final(maker).spec_rest() == old(maker).spec_rest(),
            final(maker).spec_memory().allocated() == old(maker).spec_memory().allocated(),
    {
        let (lwe_ciphertext_view,) = context;
        let ciphertext_view_proto = maker.unsynthesize_lwe_ciphertext_view(lwe_ciphertext_view);
        let actual = maker.transform_ciphertext_view_to_raw(&ciphertext_view_proto);
        (copy_of(&sample_proto.0), actual)
    }

    /// The noise that creation may add: none.
    pub fn compute_criteria<B>(
        parameters: &LweCiphertextViewCreationParameters,
        maker: &mut Maker<B>,
        repetition_proto: &(),
    ) -> (criteria: (ZeroVariance,))
        ensures
            *final(maker) == *old(maker),
    {
        (ZeroVariance,)
    }

    /// Whether the outcomes of all samples, taken together, meet the criterion: the actual
    /// values of all of them, one after the other, are the means of all of them.
    pub fn verify<Raw: RawUnsignedIntegers>(
        criteria: &(ZeroVariance,),
        outputs: &Vec<(Vec<Raw>, Vec<Raw>)>,
    ) -> (accepted: bool)
        ensures
            accepted <==> crate::fixture::all_actual(outputs@) == crate::fixture::all_means(
                outputs@,
            ),
    {
        let (means, actual) = aggregate(outputs);
        assert_noise_distribution(&actual, &means, criteria.0)
    }

    /// One sample from start to end, on a maker and an engine of the caller: the input is
    /// drawn, leaked, viewed by the engine and reclaimed. For every valid parameter set, every
    /// precision and every engine, the buffer comes back as it went in, and the memory of the
    /// maker holds what it held before.
    pub fn sample<Precision: IntegerPrecision, B, Engine, LweCiphertextView>(
        parameters: &LweCiphertextViewCreationParameters,
        maker: &mut Maker<B>,
        engine: &mut Engine,
        repetition_proto: &(),
    ) -> (outcome: (Vec<Precision::Raw>, Vec<Precision::Raw>)) where
        Engine: LweCiphertextCreationEngine<BufferRef<Precision::Raw>, LweCiphertextView>,
        LweCiphertextView: LweCiphertextEntity + ContainerEntity<BufferRef<Precision::Raw>>,
        Maker<B>: SynthesizesLweCiphertextView<Precision, LweCiphertextView>,

        requires
            parameters.is_valid(),
        ensures
            outcome.0@ == outcome.1@,
            outcome.0@.len() == parameters.lwe_dimension.0 + 1,
            final(maker).spec_memory()@ == old(maker).spec_memory()@,
            final(maker).spec_rest() == old(maker).spec_rest(),
            final(maker).spec_memory().allocated() == old(maker).spec_memory().allocated() + 1,
            *final(engine) == *old(engine),
    {
        let sample_proto = Self::generate_random_sample_prototypes::<Precision, B>(
            parameters,
            maker,
            repetition_proto,
        );
        let context = Self::prepare_context::<Precision, B>(
            parameters,
            maker,
            repetition_proto,
            &sample_proto,
        );
        let post = Self::execute_engine::<Precision, Engine, _>(parameters, engine, context);
        let outcome = Self::process_context::<Precision, B, LweCiphertextView>(
            parameters,
            maker,
            repetition_proto,
            &sample_proto,
            post,
        );
        assert(maker.spec_memory()@ =~= old(maker).spec_memory()@);
        outcome
    }

    /// One repetition: `sample_size` samples on one parameter set, gathered and verified
    /// together at the end. Every sample takes one fresh region of the maker's memory and
    /// gives its buffer back as it went in. So the repetition is accepted, whatever the
    /// engine; the memory holds what it held before; and it has handed out `sample_size`
    /// regions more.
    pub fn repeat<Precision: IntegerPrecision, B, Engine, LweCiphertextView>(
        parameters: &LweCiphertextViewCreationParameters,
        maker: &mut Maker<B>,
        engine: &mut Engine,
        sample_size: usize,
    ) -> (accepted: bool) where
        Engine: LweCiphertextCreationEngine<BufferRef<Precision::Raw>, LweCiphertextView>,
        LweCiphertextView: LweCiphertextEntity + ContainerEntity<BufferRef<Precision::Raw>>,
        Maker<B>: SynthesizesLweCiphertextView<Precision, LweCiphertextView>,
        requires
            parameters.is_valid(),
        ensures
            accepted,
            final(maker).spec_memory()@ == old(maker).spec_memory()@,
            final(maker).spec_rest() == old(maker).spec_rest(),
            final(maker).spec_memory().allocated() == old(maker).spec_memory().allocated()
                + sample_size,
            *final(engine) == *old(engine),
    {
        Self::generate_random_repetition_prototypes(parameters, maker);
        let repetition_proto = ();
        let mut outputs: Vec<(Vec<Precision::Raw>, Vec<Precision::Raw>)> = Vec::new();
        let mut sampled: usize = 0;
        while sampled < sample_size
            invariant
                sampled <= sample_size,
                parameters.is_valid(),
                maker.spec_memory()@ == old(maker).spec_memory()@,
                maker.spec_rest() == old(maker).spec_rest(),
                maker.spec_memory().allocated() == old(maker).spec_memory().allocated() + sampled,
                *engine == *old(engine),
                forall|i: int|
                    0 <= i < outputs@.len() ==> (#[trigger] outputs@[i]).0@ == outputs@[i].1@,
            decreases sample_size - sampled,
        {
            let outcome = Self::sample::<Precision, B, Engine, LweCiphertextView>(
                parameters,
                maker,
                engine,
                &repetition_proto,
            );
            outputs.push(outcome);
            sampled = sampled + 1;
        }
        let criteria = Self::compute_criteria(parameters, maker, &repetition_proto);
        proof {
            crate::fixture::lemma_equal_outcomes_aggregate(outputs@);
        }
        Self::verify(&criteria, &outputs)
    }

    /// `repetitions` repetitions on one parameter set, of `sample_size` samples each. All of
    /// them are accepted, and the memory of the maker has handed out one region for each
    /// sample and taken it back.
    pub fn stress<Precision: IntegerPrecision, B, Engine, LweCiphertextView>(
        parameters: &LweCiphertextViewCreationParameters,
        maker: &mut Maker<B>,
        engine: &mut Engine,
        repetitions: usize,
        sample_size: usize,
    ) -> (accepted: bool) where
        Engine: LweCiphertextCreationEngine<BufferRef<Precision::Raw>, LweCiphertextView>,
        LweCiphertextView: LweCiphertextEntity + ContainerEntity<BufferRef<Precision::Raw>>,
        Maker<B>: SynthesizesLweCiphertextView<Precision, LweCiphertextView>,
        requires
            parameters.is_valid(),
        ensures
            accepted,
            final(maker).spec_memory()@ == old(maker).spec_memory()@,
            final(maker).spec_rest() == old(maker).spec_rest(),
            final(maker).spec_memory().allocated() == old(maker).spec_memory().allocated()
                + repetitions * sample_size,
            *final(engine) == *old(engine),
    {
        let mut accepted = true;
        let mut repeated: usize = 0;
        while repeated < repetitions
            invariant
                repeated <= repetitions,
                accepted,
                parameters.is_valid(),
                maker.spec_memory()@ == old(maker).spec_memory()@,
                maker.spec_rest() == old(maker).spec_rest(),
                maker.spec_memory().allocated() == old(maker).spec_memory().allocated() + repeated
                    * sample_size,
                *engine == *old(engine),
            decreases repetitions - repeated,
        {
            proof {
                assert((repeated + 1) * sample_size == repeated * sample_size + sample_size)
                    by (nonlinear_arith);
            }
            let repetition = Self::repeat::<Precision, B, Engine, LweCiphertextView>(
                parameters,
                maker,
                engine,
                sample_size,
            );
            accepted = accepted && repetition;
            repeated = repeated + 1;
        }
        accepted
    }

    /// The whole fixture: `repetitions` repetitions of `sample_size` samples on each of the
    /// three parameter sets. Every engine that keeps its contract is accepted, and the memory
    /// of the maker has handed out one region for each sample and taken it back.
    pub fn stress_all_parameters<Precision: IntegerPrecision, B, Engine, LweCiphertextView>(
        maker: &mut Maker<B>,
        engine: &mut Engine,
        repetitions: usize,
        sample_size: usize,
    ) -> (accepted: bool) where
        Engine: LweCiphertextCreationEngine<BufferRef<Precision::Raw>, LweCiphertextView>,
        LweCiphertextView: LweCiphertextEntity + ContainerEntity<BufferRef<Precision::Raw>>,
        Maker<B>: SynthesizesLweCiphertextView<Precision, LweCiphertextView>,
        ensures
            accepted,
            final(maker).spec_memory()@ == old(maker).spec_memory()@,
            final(maker).spec_rest() == old(maker).spec_rest(),
            final(maker).spec_memory().allocated() == old(maker).spec_memory().allocated() + 3
                * (repetitions * sample_size),
            *final(engine) == *old(engine),
    {
        let all_parameters = Self::generate_parameters_iterator();
        let mut accepted = true;
        let mut stressed: usize = 0;
        while stressed < all_parameters.len()
            invariant
                stressed <= all_parameters@.len(),
                accepted,
                forall|i: int|
                    0 <= i < all_parameters@.len() ==> (#[trigger] all_parameters@[i]).is_valid(),
                maker.spec_memory()@ == old(maker).spec_memory()@,
                maker.spec_rest() == old(maker).spec_rest(),
                all_parameters@.len() == 3,
                maker.spec_memory().allocated() == old(maker).spec_memory().allocated() + stressed
                    * (repetitions * sample_size),
                *engine == *old(engine),
            decreases all_parameters@.len() - stressed,
        {
            proof {
                assert((stressed + 1) * (repetitions * sample_size) == stressed * (repetitions
                    * sample_size) + repetitions * sample_size) by (nonlinear_arith);
            }
            let parameters = &all_parameters[stressed];
            let set = Self::stress::<Precision, B, Engine, LweCiphertextView>(
                parameters,
                maker,
                engine,
                repetitions,
                sample_size,
            );
            accepted = accepted && set;
            stressed = stressed + 1;
        }
        accepted
    }
}

/// A fixture for the engines that create mutable LWE ciphertext views.
///
/// A sample leaks a buffer of uniformly drawn scalars, has the engine create a view over it,
/// and reclaims the buffer from the view. The buffer must come back as it went in.
pub struct LweCiphertextMutViewCreationFixture;

impl LweCiphertextMutViewCreationFixture {
    /// The parameter sets the fixture runs over: the LWE dimensions 1, 512 and 751, each of
    /// them valid.
    pub fn generate_parameters_iterator() -> (parameters: Vec<LweCiphertextViewCreationParameters>)
        ensures
            parameters@.len() == 3,
            parameters@[0].lwe_dimension.0 == 1,
            parameters@[1].lwe_dimension.0 == 512,
            parameters@[2].lwe_dimension.0 == 751,
            forall|i: int| 0 <= i < parameters@.len() ==> (#[trigger] parameters@[i]).is_valid(),
    {
        creation_parameters()
    }

    /// What the samples of one repetition share: nothing. The maker is left as it was.
    pub fn generate_random_repetition_prototypes<B>(
        parameters: &LweCiphertextViewCreationParameters,
        maker: &mut Maker<B>,
    )
        ensures
            *final(maker) == *old(maker),
    {
    }

    /// The input of one sample: uniformly drawn scalars, as many as a ciphertext of the
    /// dimension of `parameters` has, mask and body. The maker is left as it was.
    pub fn generate_random_sample_prototypes<Precision: IntegerPrecision, B>(
        parameters: &LweCiphertextViewCreationParameters,
        maker: &mut Maker<B>,
        repetition_proto: &(),
    ) -> (sample_proto: (Vec<Precision::Raw>,))
        requires
            parameters.is_valid(),
        ensures
            sample_proto.0@.len() == parameters.lwe_dimension.0 + 1,
            *final(maker) == *old(maker),
    {
        let num_elements = parameters.lwe_dimension.to_lwe_size().0;
        (<Precision::Raw as RawUnsignedIntegers>::uniform_vec(num_elements),)
    }

    /// What the engine call needs: a buffer in caller memory. A copy of the sample is leaked
    /// into a fresh region of the maker's memory, and the exclusive handle to it comes back.
    /// Every other region is left as it was.
    pub fn prepare_context<Precision: IntegerPrecision, B>(
        parameters: &LweCiphertextViewCreationParameters,
        maker: &mut Maker<B>,
        repetition_proto: &(),
        sample_proto: &(Vec<Precision::Raw>,),
    ) -> (context: (BufferMut<Precision::Raw>,)) where Maker<B>: OwnsMemory<Precision>
        ensures
            context.0.spec_len() == sample_proto.0@.len(),
            !old(maker).spec_memory().is_live(context.0.spec_region()),
            final(maker).spec_memory()@ == old(maker).spec_memory()@.insert(
                context.0.spec_region(),
                sample_proto.0@,
            ),
            final(maker).spec_rest() == old(maker).spec_rest(),
            context.0.spec_region() == old(maker).spec_memory().allocated(),
            final(maker).spec_memory().allocated() == old(maker).spec_memory().allocated() + 1,
    {
        let underlying_container = copy_of(&sample_proto.0);
        (maker.leak(underlying_container),)
    }

    /// The engine call: a view is created over the buffer, unchecked. That the buffer is not
    /// empty is the obligation of the caller. The view that comes back aliases the buffer
    /// that went in, and the engine is left as it was.
    pub fn execute_engine<Precision: IntegerPrecision, Engine, LweCiphertextMutView>(
        parameters: &LweCiphertextViewCreationParameters,
        engine: &mut Engine,
        context: (BufferMut<Precision::Raw>,),
    ) -> (post: (LweCiphertextMutView,)) where
        Engine: LweCiphertextCreationEngine<BufferMut<Precision::Raw>, LweCiphertextMutView>,
        LweCiphertextMutView: LweCiphertextEntity + ContainerEntity<BufferMut<Precision::Raw>>,

        requires
            context.0.spec_len() > 0,
        ensures
            post.0.spec_container() == context.0,
            *final(engine) == *old(engine),
    {
        let (slice_from_container,) = context;
        let lwe_ciphertext_mut_view = engine.create_lwe_ciphertext_unchecked(slice_from_container);
        (lwe_ciphertext_mut_view,)
    }

    /// The outcome of a sample: the scalars of the sample as means, and as actual values the
    /// scalars of the buffer that the view aliases. Unsynthesizing consumes the view and
    /// reclaims its region, so there is nothing left to destroy.
    pub fn process_context<Precision: IntegerPrecision, B, LweCiphertextMutView>(
        parameters: &LweCiphertextViewCreationParameters,
        maker: &mut Maker<B>,
        repetition_proto: &(),
        sample_proto: &(Vec<Precision::Raw>,),
        context: (LweCiphertextMutView,),
    ) -> (outcome: (Vec<Precision::Raw>, Vec<Precision::Raw>)) where
        LweCiphertextMutView: LweCiphertextEntity + ContainerEntity<BufferMut<Precision::Raw>>,
        Maker<B>: SynthesizesLweCiphertextMutView<Precision, LweCiphertextMutView>,

        requires
            old(maker).spec_memory().holds_mut(&context.0.spec_container()),
        ensures
            outcome.0@ == sample_proto.0@,
            outcome.1@ == old(maker).spec_memory()@[context.0.spec_container().spec_region()],
            final(maker).spec_memory()@ == old(maker).spec_memory()@.remove(
                context.0.spec_container().spec_region(),
            ),
            final(maker).spec_rest() == old(maker).spec_rest(),
            final(maker).spec_memory().allocated() == old(maker).spec_memory().allocated(),
    {
        let (lwe_ciphertext_mut_view,) = context;
        let ciphertext_view_proto = maker.unsynthesize_lwe_ciphertext_mut_view(lwe_ciphertext_mut_view);
        let actual = maker.transform_ciphertext_mut_view_to_raw(&ciphertext_view_proto);
        (copy_of(&sample_proto.0), actual)
    }

    /// The noise that creation may add: none.
    pub fn compute_criteria<B>(
        parameters: &LweCiphertextViewCreationParameters,
        maker: &mut Maker<B>,
        repetition_proto: &(),
    ) -> (criteria: (ZeroVariance,))
        ensures
            *final(maker) == *old(maker),
    {
        (ZeroVariance,)
    }

    /// Whether the outcomes of all samples, taken together, meet the criterion: the actual
    /// values of all of them, one after the other, are the means of all of them.
    pub fn verify<Raw: RawUnsignedIntegers>(
        criteria: &(ZeroVariance,),
        outputs: &Vec<(Vec<Raw>, Vec<Raw>)>,
    ) -> (accepted: bool)
        ensures
            accepted <==> crate::fixture::all_actual(outputs@) == crate::fixture::all_means(
                outputs@,
            ),
    {
        let (means, actual) = aggregate(outputs);
        assert_noise_distribution(&actual, &means, criteria.0)
    }

    /// One sample from start to end, on a maker and an engine of the caller: the input is
    /// drawn, leaked, viewed by the engine and reclaimed. For every valid parameter set, every
    /// precision and every engine, the buffer comes back as it went in, and the memory of the
    /// maker holds what it held before.
    pub fn sample<Precision: IntegerPrecision, B, Engine, LweCiphertextMutView>(
        parameters: &LweCiphertextViewCreationParameters,
        maker: &mut Maker<B>,
        engine: &mut Engine,
        repetition_proto: &(),
    ) -> (outcome: (Vec<Precision::Raw>, Vec<Precision::Raw>)) where
        Engine: LweCiphertextCreationEngine<BufferMut<Precision::Raw>, LweCiphertextMutView>,
        LweCiphertextMutView: LweCiphertextEntity + ContainerEntity<BufferMut<Precision::Raw>>,
        Maker<B>: SynthesizesLweCiphertextMutView<Precision, LweCiphertextMutView>,

        requires
            parameters.is_valid(),
        ensures
            outcome.0@ == outcome.1@,
            outcome.0@.len() == parameters.lwe_dimension.0 + 1,
            final(maker).spec_memory()@ == old(maker).spec_memory()@,
            final(maker).spec_rest() == old(maker).spec_rest(),
            final(maker).spec_memory().allocated() == old(maker).spec_memory().allocated() + 1,
            *final(engine) == *old(engine),
    {
        let sample_proto = Self::generate_random_sample_prototypes::<Precision, B>(
            parameters,
            maker,
            repetition_proto,
        );
        let context = Self::prepare_context::<Precision, B>(
            parameters,
            maker,
            repetition_proto,
            &sample_proto,
        );
        let post = Self::execute_engine::<Precision, Engine, _>(parameters, engine, context);
        let outcome = Self::process_context::<Precision, B, LweCiphertextMutView>(
            parameters,
            maker,
            repetition_proto,
            &sample_proto,
            post,
        );
        assert(maker.spec_memory()@ =~= old(maker).spec_memory()@);
        outcome
    }

    /// One repetition: `sample_size` samples on one parameter set, gathered and verified
    /// together at the end. Every sample takes one fresh region of the maker's memory and
    /// gives its buffer back as it went in. So the repetition is accepted, whatever the
    /// engine; the memory holds what it held before; and it has handed out `sample_size`
    /// regions more.
    pub fn repeat<Precision: IntegerPrecision, B, Engine, LweCiphertextMutView>(
        parameters: &LweCiphertextViewCreationParameters,
        maker: &mut Maker<B>,
        engine: &mut Engine,
        sample_size: usize,
    ) -> (accepted: bool) where
        Engine: LweCiphertextCreationEngine<BufferMut<Precision::Raw>, LweCiphertextMutView>,
        LweCiphertextMutView: LweCiphertextEntity + ContainerEntity<BufferMut<Precision::Raw>>,
        Maker<B>: SynthesizesLweCiphertextMutView<Precision, LweCiphertextMutView>,
        requires
            parameters.is_valid(),
        ensures
            accepted,
            final(maker).spec_memory()@ == old(maker).spec_memory()@,
            final(maker).spec_rest() == old(maker).spec_rest(),
            final(maker).spec_memory().allocated() == old(maker).spec_memory().allocated()
                + sample_size,
            *final(engine) == *old(engine),
    {
        Self::generate_random_repetition_prototypes(parameters, maker);
        let repetition_proto = ();
        let mut outputs: Vec<(Vec<Precision::Raw>, Vec<Precision::Raw>)> = Vec::new();
        let mut sampled: usize = 0;
        while sampled < sample_size
            invariant
                sampled <= sample_size,
                parameters.is_valid(),
                maker.spec_memory()@ == old(maker).spec_memory()@,
                maker.spec_rest() == old(maker).spec_rest(),
                maker.spec_memory().allocated() == old(maker).spec_memory().allocated() + sampled,
                *engine == *old(engine),
                forall|i: int|
                    0 <= i < outputs@.len() ==> (#[trigger] outputs@[i]).0@ == outputs@[i].1@,
            decreases sample_size - sampled,
        {
            let outcome = Self::sample::<Precision, B, Engine, LweCiphertextMutView>(
                parameters,
                maker,
                engine,
                &repetition_proto,
            );
            outputs.push(outcome);
            sampled = sampled + 1;
        }
        let criteria = Self::compute_criteria(parameters, maker, &repetition_proto);
        proof {
            crate::fixture::lemma_equal_outcomes_aggregate(outputs@);
        }
        Self::verify(&criteria, &outputs)
    }

    /// `repetitions` repetitions on one parameter set, of `sample_size` samples each. All of
    /// them are accepted, and the memory of the maker has handed out one region for each
    /// sample and taken it back.
    pub fn stress<Precision: IntegerPrecision, B, Engine, LweCiphertextMutView>(
        parameters: &LweCiphertextViewCreationParameters,
        maker: &mut Maker<B>,
        engine: &mut Engine,
        repetitions: usize,
        sample_size: usize,
    ) -> (accepted: bool) where
        Engine: LweCiphertextCreationEngine<BufferMut<Precision::Raw>, LweCiphertextMutView>,
        LweCiphertextMutView: LweCiphertextEntity + ContainerEntity<BufferMut<Precision::Raw>>,
        Maker<B>: SynthesizesLweCiphertextMutView<Precision, LweCiphertextMutView>,
        requires
            parameters.is_valid(),
        ensures
            accepted,
            final(maker).spec_memory()@ == old(maker).spec_memory()@,
            final(maker).spec_rest() == old(maker).spec_rest(),
            final(maker).spec_memory().allocated() == old(maker).spec_memory().allocated()
                + repetitions * sample_size,
            *final(engine) == *old(engine),
    {
        let mut accepted = true;
        let mut repeated: usize = 0;
        while repeated < repetitions
            invariant
                repeated <= repetitions,
                accepted,
                parameters.is_valid(),
                maker.spec_memory()@ == old(maker).spec_memory()@,
                maker.spec_rest() == old(maker).spec_rest(),
                maker.spec_memory().allocated() == old(maker).spec_memory().allocated() + repeated
                    * sample_size,
                *engine == *old(engine),
            decreases repetitions - repeated,
        {
            proof {
                assert((repeated + 1) * sample_size == repeated * sample_size + sample_size)
                    by (nonlinear_arith);
            }
            let repetition = Self::repeat::<Precision, B, Engine, LweCiphertextMutView>(
                parameters,
                maker,
                engine,
                sample_size,
            );
            accepted = accepted && repetition;
            repeated = repeated + 1;
        }
        accepted
    }

    /// The whole fixture: `repetitions` repetitions of `sample_size` samples on each of the
    /// three parameter sets. Every engine that keeps its contract is accepted, and the memory
    /// of the maker has handed out one region for each sample and taken it back.
    pub fn stress_all_parameters<Precision: IntegerPrecision, B, Engine, LweCiphertextMutView>(
        maker: &mut Maker<B>,
        engine: &mut Engine,
        repetitions: usize,
        sample_size: usize,
    ) -> (accepted: bool) where
        Engine: LweCiphertextCreationEngine<BufferMut<Precision::Raw>, LweCiphertextMutView>,
        LweCiphertextMutView: LweCiphertextEntity + ContainerEntity<BufferMut<Precision::Raw>>,
        Maker<B>: SynthesizesLweCiphertextMutView<Precision, LweCiphertextMutView>,
        ensures
            accepted,
            final(maker).spec_memory()@ == old(maker).spec_memory()@,
            final(maker).spec_rest() == old(maker).spec_rest(),
            final(maker).spec_memory().allocated() == old(maker).spec_memory().allocated() + 3
                * (repetitions * sample_size),
            *final(engine) == *old(engine),
    {
        let all_parameters = Self::generate_parameters_iterator();
        let mut accepted = true;
        let mut stressed: usize = 0;
        while stressed < all_parameters.len()
            invariant
                stressed <= all_parameters@.len(),
                accepted,
                forall|i: int|
                    0 <= i < all_parameters@.len() ==> (#[trigger] all_parameters@[i]).is_valid(),
                maker.spec_memory()@ == old(maker).spec_memory()@,
                maker.spec_rest() == old(maker).spec_rest(),
                all_parameters@.len() == 3,
                maker.spec_memory().allocated() == old(maker).spec_memory().allocated() + stressed
                    * (repetitions * sample_size),
                *engine == *old(engine),
            decreases all_parameters@.len() - stressed,
        {
            proof {
                assert((stressed + 1) * (repetitions * sample_size) == stressed * (repetitions
                    * sample_size) + repetitions * sample_size) by (nonlinear_arith);
            }
            let parameters = &all_parameters[stressed];
            let set = Self::stress::<Precision, B, Engine, LweCiphertextMutView>(
                parameters,
                maker,
                engine,
                repetitions,
                sample_size,
            );
            accepted = accepted && set;
            stressed = stressed + 1;
        }
        accepted
    }
}


} // verus!
