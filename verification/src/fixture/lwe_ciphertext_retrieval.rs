//! Fixtures for the retrieval of the buffer of LWE ciphertext views.
use crate::fixture::{aggregate, assert_noise_distribution, ZeroVariance};
use crate::generation::prototypes::lwe_ciphertext_view::{
    LweCiphertextMutViewPrototype, LweCiphertextViewPrototype,
};
use crate::generation::prototyping::lwe_ciphertext_view::{
    PrototypesLweCiphertextMutView, PrototypesLweCiphertextView,
};
use crate::generation::synthesizing::lwe_ciphertext_view::{
    SynthesizesLweCiphertextMutView, SynthesizesLweCiphertextView,
};
use crate::generation::{Maker, OwnsMemory};
use crate::markers::IntegerPrecision;
use crate::memory::{BufferMut, BufferRef};
use crate::raw::RawUnsignedIntegers;
use crate::specification::engines::lwe_ciphertext_retrieval::LweCiphertextRetrievalEngine;
use crate::specification::entities::{ContainerEntity, LweCiphertextEntity};
use concrete_commons::parameters::LweDimension;
use vstd::prelude::*;

verus! {

/// The parameters of one run of the retrieval fixtures.
#[derive(Debug)]
pub struct LweCiphertextViewRetrievalParameters {
    pub lwe_dimension: LweDimension,
}

impl LweCiphertextViewRetrievalParameters {
    /// Whether a ciphertext of this dimension can be stored: its size, the dimension and one,
    /// fits in a `usize`.
    pub open spec fn is_valid(&self) -> bool {
        self.lwe_dimension.0 < usize::MAX
    }
}

/// The parameter sets of the retrieval fixtures: the LWE dimensions 1, 512 and 751.
fn retrieval_parameters() -> (parameters: Vec<LweCiphertextViewRetrievalParameters>)
    ensures
        parameters@.len() == 3,
        parameters@[0].lwe_dimension.0 == 1,
        parameters@[1].lwe_dimension.0 == 512,
        parameters@[2].lwe_dimension.0 == 751,
        forall|i: int| 0 <= i < parameters@.len() ==> (#[trigger] parameters@[i]).is_valid(),
{
    let mut parameters: Vec<LweCiphertextViewRetrievalParameters> = Vec::new();
    parameters.push(LweCiphertextViewRetrievalParameters { lwe_dimension: LweDimension(1) });
    parameters.push(LweCiphertextViewRetrievalParameters { lwe_dimension: LweDimension(512) });
    parameters.push(LweCiphertextViewRetrievalParameters { lwe_dimension: LweDimension(751) });
    parameters
}

/// A fixture for the engines that retrieve the buffer of read-only LWE ciphertext views.
///
/// A sample synthesizes a view of uniformly drawn scalars, has the engine retrieve the buffer
/// from it, and reclaims the buffer. It must hold the scalars that were drawn.
pub struct LweCiphertextViewRetrievalFixture;

impl LweCiphertextViewRetrievalFixture {
    /// The parameter sets the fixture runs over: the LWE dimensions 1, 512 and 751, each of
    /// them valid.
    pub fn generate_parameters_iterator() -> (parameters: Vec<
        LweCiphertextViewRetrievalParameters,
    >)
        ensures
            parameters@.len() == 3,
            parameters@[0].lwe_dimension.0 == 1,
            parameters@[1].lwe_dimension.0 == 512,
            parameters@[2].lwe_dimension.0 == 751,
            forall|i: int| 0 <= i < parameters@.len() ==> (#[trigger] parameters@[i]).is_valid(),
    {
        retrieval_parameters()
    }

    /// What the samples of one repetition share: nothing. The maker is left as it was.
    pub fn generate_random_repetition_prototypes<B>(
        parameters: &LweCiphertextViewRetrievalParameters,
        maker: &mut Maker<B>,
    )
        ensures
            *final(maker) == *old(maker),
    {
    }

    /// The input of one sample: the prototype of a view of uniformly drawn scalars, as many
    /// as a ciphertext of the dimension of `parameters` has, mask and body. The maker is left
    /// as it was.
    pub fn generate_random_sample_prototypes<Precision: IntegerPrecision, B>(
        parameters: &LweCiphertextViewRetrievalParameters,
        maker: &mut Maker<B>,
        repetition_proto: &(),
    ) -> (sample_proto: (<Maker<B> as PrototypesLweCiphertextView<Precision>>::LweCiphertextViewProto,))
        where Maker<B>: PrototypesLweCiphertextView<Precision>
        requires
            parameters.is_valid(),
        ensures
            sample_proto.0.raw().len() == parameters.lwe_dimension.0 + 1,
            *final(maker) == *old(maker),
    {
        let num_elements = parameters.lwe_dimension.to_lwe_size().0;
        let proto_ciphertext_view = maker.transform_raw_to_ciphertext_view(
            <Precision::Raw as RawUnsignedIntegers>::uniform_vec(num_elements),
        );
        (proto_ciphertext_view,)
    }

    /// What the engine call needs: a view. It is synthesized from the prototype, over a copy
    /// of its scalars in a fresh region of the maker's memory. Every other region is left as
    /// it was.
    pub fn prepare_context<Precision: IntegerPrecision, B, LweCiphertextView>(
        parameters: &LweCiphertextViewRetrievalParameters,
        maker: &mut Maker<B>,
        repetition_proto: &(),
        sample_proto: &(<Maker<B> as PrototypesLweCiphertextView<Precision>>::LweCiphertextViewProto,),
    ) -> (context: (LweCiphertextView,)) where
        LweCiphertextView: LweCiphertextEntity + ContainerEntity<BufferRef<Precision::Raw>>,
        Maker<B>: SynthesizesLweCiphertextView<Precision, LweCiphertextView>,

        requires
            sample_proto.0.raw().len() > 0,
        ensures
            context.0.spec_container().spec_len() == sample_proto.0.raw().len(),
            !old(maker).spec_memory().is_live(context.0.spec_container().spec_region()),
            final(maker).spec_memory()@ == old(maker).spec_memory()@.insert(
                context.0.spec_container().spec_region(),
                sample_proto.0.raw(),
            ),
            final(maker).spec_rest() == old(maker).spec_rest(),
            context.0.spec_container().spec_region() == old(maker).spec_memory().allocated(),
            final(maker).spec_memory().allocated() == old(maker).spec_memory().allocated() + 1,
    {
        (maker.synthesize_lwe_ciphertext_view(&sample_proto.0),)
    }

    /// The engine call: the buffer is retrieved from the view, unchecked, which consumes the
    /// view. The handle that comes back is the one that the view held, and the engine is left
    /// as it was.
    pub fn execute_engine<Precision: IntegerPrecision, Engine, LweCiphertextView>(
        parameters: &LweCiphertextViewRetrievalParameters,
        engine: &mut Engine,
        context: (LweCiphertextView,),
    ) -> (post: (BufferRef<Precision::Raw>,)) where
        Engine: LweCiphertextRetrievalEngine<LweCiphertextView, BufferRef<Precision::Raw>>,
        LweCiphertextView: LweCiphertextEntity + ContainerEntity<BufferRef<Precision::Raw>>,

        ensures
            post.0 == context.0.spec_container(),
            *final(engine) == *old(engine),
    {
        let (ciphertext_view,) = context;
        let raw_ciphertext = engine.retrieve_lwe_ciphertext_unchecked(ciphertext_view);
        (raw_ciphertext,)
    }

    /// The outcome of a sample: the scalars of the prototype as means, and as actual values
    /// the scalars of the buffer that was retrieved. The buffer is back with its owner, who
    /// reclaims it here: its region is freed, and every other region is left as it was.
    pub fn process_context<Precision: IntegerPrecision, B>(
        parameters: &LweCiphertextViewRetrievalParameters,
        maker: &mut Maker<B>,
        repetition_proto: &(),
        sample_proto: &(<Maker<B> as PrototypesLweCiphertextView<Precision>>::LweCiphertextViewProto,),
        context: (BufferRef<Precision::Raw>,),
    ) -> (outcome: (Vec<Precision::Raw>, Vec<Precision::Raw>)) where
        Maker<B>: PrototypesLweCiphertextView<Precision> + OwnsMemory<Precision>,

        requires
            old(maker).spec_memory().holds(&context.0),
        ensures
            outcome.0@ == sample_proto.0.raw(),
            outcome.1@ == old(maker).spec_memory()@[context.0.spec_region()],
            final(maker).spec_memory()@ == old(maker).spec_memory()@.remove(
                context.0.spec_region(),
            ),
            final(maker).spec_rest() == old(maker).spec_rest(),
            final(maker).spec_memory().allocated() == old(maker).spec_memory().allocated(),
    {
        let (raw_ciphertext,) = context;
        let means = maker.transform_ciphertext_view_to_raw(&sample_proto.0);
        (means, maker.reclaim(raw_ciphertext.region()))
    }

    /// The noise that retrieval may add: none.
    pub fn compute_criteria<B>(
        parameters: &LweCiphertextViewRetrievalParameters,
        maker: &mut Maker<B>,
        repetition_proto: &(),
    ) -> (criteria: (ZeroVariance,))
        ensures
            *final(maker) == *old(maker),
    {
        (ZeroVariance,)
    }

    /// Whether the outcomes of all samples, taken together, meet the criterion: the actual
    /// values of all of them, one after the other, are the means of all of them.
    pub fn verify<Raw: RawUnsignedIntegers>(
        criteria: &(ZeroVariance,),
        outputs: &Vec<(Vec<Raw>, Vec<Raw>)>,
    ) -> (accepted: bool)
        ensures
            accepted <==> crate::fixture::all_actual(outputs@) == crate::fixture::all_means(
                outputs@,
            ),
    {
        let (means, actual) = aggregate(outputs);
        assert_noise_distribution(&actual, &means, criteria.0)
    }

    /// One sample from start to end, on a maker and an engine of the caller: the input is
    /// drawn and synthesized into a view, the engine retrieves the buffer, and the maker
    /// reclaims it. For every valid parameter set, every precision and every engine, the
    /// buffer holds what was drawn, and the memory of the maker holds what it held before.
    pub fn sample<Precision: IntegerPrecision, B, Engine, LweCiphertextView>(
        parameters: &LweCiphertextViewRetrievalParameters,
        maker: &mut Maker<B>,
        engine: &mut Engine,
        repetition_proto: &(),
    ) -> (outcome: (Vec<Precision::Raw>, Vec<Precision::Raw>)) where
        Engine: LweCiphertextRetrievalEngine<LweCiphertextView, BufferRef<Precision::Raw>>,
        LweCiphertextView: LweCiphertextEntity + ContainerEntity<BufferRef<Precision::Raw>>,
        Maker<B>: SynthesizesLweCiphertextView<Precision, LweCiphertextView>,

        requires
            parameters.is_valid(),
        ensures
            outcome.0@ == outcome.1@,
            outcome.0@.len() == parameters.lwe_dimension.0 + 1,
            final(maker).spec_memory()@ == old(maker).spec_memory()@,
            final(maker).spec_rest() == old(maker).spec_rest(),
            final(maker).spec_memory().allocated() == old(maker).spec_memory().allocated() + 1,
            *final(engine) == *old(engine),
    {
        let sample_proto = Self::generate_random_sample_prototypes::<Precision, B>(
            parameters,
            maker,
            repetition_proto,
        );
        let context = Self::prepare_context::<Precision, B, LweCiphertextView>(
            parameters,
            maker,
            repetition_proto,
            &sample_proto,
        );
        let post = Self::execute_engine::<Precision, Engine, _>(parameters, engine, context);
        let outcome = Self::process_context::<Precision, B>(
            parameters,
            maker,
            repetition_proto,
            &sample_proto,
            post,
        );
        assert(maker.spec_memory()@ =~= old(maker).spec_memory()@);
        outcome
    }

    /// One repetition: `sample_size` samples on one parameter set, gathered and verified
    /// together at the end. Every sample takes one fresh region of the maker's memory and
    /// gives its buffer back as it went in. So the repetition is accepted, whatever the
    /// engine; the memory holds what it held before; and it has handed out `sample_size`
    /// regions more.
    pub fn repeat<Precision: IntegerPrecision, B, Engine, LweCiphertextView>(
        parameters: &LweCiphertextViewRetrievalParameters,
        maker: &mut Maker<B>,
        engine: &mut Engine,
        sample_size: usize,
    ) -> (accepted: bool) where
        Engine: LweCiphertextRetrievalEngine<LweCiphertextView, BufferRef<Precision::Raw>>,
        LweCiphertextView: LweCiphertextEntity + ContainerEntity<BufferRef<Precision::Raw>>,
        Maker<B>: SynthesizesLweCiphertextView<Precision, LweCiphertextView>,
        requires
            parameters.is_valid(),
        ensures
            accepted,
            final(maker).spec_memory()@ == old(maker).spec_memory()@,
            final(maker).spec_rest() == old(maker).spec_rest(),
            final(maker).spec_memory().allocated() == old(maker).spec_memory().allocated()
                + sample_size,
            *final(engine) == *old(engine),
    {
        Self::generate_random_repetition_prototypes(parameters, maker);
        let repetition_proto = ();
        let mut outputs: Vec<(Vec<Precision::Raw>, Vec<Precision::Raw>)> = Vec::new();
        let mut sampled: usize = 0;
        while sampled < sample_size
            invariant
                sampled <= sample_size,
                parameters.is_valid(),
                maker.spec_memory()@ == old(maker).spec_memory()@,
                maker.spec_rest() == old(maker).spec_rest(),
                maker.spec_memory().allocated() == old(maker).spec_memory().allocated() + sampled,
                *engine == *old(engine),
                forall|i: int|
                    0 <= i < outputs@.len() ==> (#[trigger] outputs@[i]).0@ == outputs@[i].1@,
            decreases sample_size - sampled,
        {
            let outcome = Self::sample::<Precision, B, Engine, LweCiphertextView>(
                parameters,
                maker,
                engine,
                &repetition_proto,
            );
            outputs.push(outcome);
            sampled = sampled + 1;
        }
        let criteria = Self::compute_criteria(parameters, maker, &repetition_proto);
        proof {
            crate::fixture::lemma_equal_outcomes_aggregate(outputs@);
        }
        Self::verify(&criteria, &outputs)
    }

    /// `repetitions` repetitions on one parameter set, of `sample_size` samples each. All of
    /// them are accepted, and the memory of the maker has handed out one region for each
    /// sample and taken it back.
    pub fn stress<Precision: IntegerPrecision, B, Engine, LweCiphertextView>(
        parameters: &LweCiphertextViewRetrievalParameters,
        maker: &mut Maker<B>,
        engine: &mut Engine,
        repetitions: usize,
        sample_size: usize,
    ) -> (accepted: bool) where
        Engine: LweCiphertextRetrievalEngine<LweCiphertextView, BufferRef<Precision::Raw>>,
        LweCiphertextView: LweCiphertextEntity + ContainerEntity<BufferRef<Precision::Raw>>,
        Maker<B>: SynthesizesLweCiphertextView<Precision, LweCiphertextView>,
        requires
            parameters.is_valid(),
        ensures
            accepted,
            final(maker).spec_memory()@ == old(maker).spec_memory()@,
            final(maker).spec_rest() == old(maker).spec_rest(),
            final(maker).spec_memory().allocated() == old(maker).spec_memory().allocated()
                + repetitions * sample_size,
            *final(engine) == *old(engine),
    {
        let mut accepted = true;
        let mut repeated: usize = 0;
        while repeated < repetitions
            invariant
                repeated <= repetitions,
                accepted,
                parameters.is_valid(),
                maker.spec_memory()@ == old(maker).spec_memory()@,
                maker.spec_rest() == old(maker).spec_rest(),
                maker.spec_memory().allocated() == old(maker).spec_memory().allocated() + repeated
                    * sample_size,
                *engine == *old(engine),
            decreases repetitions - repeated,
        {
            proof {
                assert((repeated + 1) * sample_size == repeated * sample_size + sample_size)
                    by (nonlinear_arith);
            }
            let repetition = Self::repeat::<Precision, B, Engine, LweCiphertextView>(
                parameters,
                maker,
                engine,
                sample_size,
            );
            accepted = accepted && repetition;
            repeated = repeated + 1;
        }
        accepted
    }

    /// The whole fixture: `repetitions` repetitions of `sample_size` samples on each of the
    /// three parameter sets. Every engine that keeps its contract is accepted, and the memory
    /// of the maker has handed out one region for each sample and taken it back.
    pub fn stress_all_parameters<Precision: IntegerPrecision, B, Engine, LweCiphertextView>(
        maker: &mut Maker<B>,
        engine: &mut Engine,
        repetitions: usize,
        sample_size: usize,
    ) -> (accepted: bool) where
        Engine: LweCiphertextRetrievalEngine<LweCiphertextView, BufferRef<Precision::Raw>>,
        LweCiphertextView: LweCiphertextEntity + ContainerEntity<BufferRef<Precision::Raw>>,
        Maker<B>: SynthesizesLweCiphertextView<Precision, LweCiphertextView>,
        ensures
            accepted,
            final(maker).spec_memory()@ == old(maker).spec_memory()@,
            final(maker).spec_rest() == old(maker).spec_rest(),
            final(maker).spec_memory().allocated() == old(maker).spec_memory().allocated() + 3
                * (repetitions * sample_size),
            *final(engine) == *old(engine),
    {
        let all_parameters = Self::generate_parameters_iterator();
        let mut accepted = true;
        let mut stressed: usize = 0;
        while stressed < all_parameters.len()
            invariant
                stressed <= all_parameters@.len(),
                accepted,
                forall|i: int|
                    0 <= i < all_parameters@.len() ==> (#[trigger] all_parameters@[i]).is_valid(),
                maker.spec_memory()@ == old(maker).spec_memory()@,
                maker.spec_rest() == old(maker).spec_rest(),
                all_parameters@.len() == 3,
                maker.spec_memory().allocated() == old(maker).spec_memory().allocated() + stressed
                    * (repetitions * sample_size),
                *engine == *old(engine),
            decreases all_parameters@.len() - stressed,
        {
            proof {
                assert((stressed + 1) * (repetitions * sample_size) == stressed * (repetitions
                    * sample_size) + repetitions * sample_size) by (nonlinear_arith);
            }
            let parameters = &all_parameters[stressed];
            let set = Self::stress::<Precision, B, Engine, LweCiphertextView>(
                parameters,
                maker,
                engine,
                repetitions,
                sample_size,
            );
            accepted = accepted && set;
            stressed = stressed + 1;
        }
        accepted
    }
}

/// A fixture for the engines that retrieve the buffer of mutable LWE ciphertext views.
///
/// A sample synthesizes a view of uniformly drawn scalars, has the engine retrieve the buffer
/// from it, and reclaims the buffer. It must hold the scalars that were drawn.
pub struct LweCiphertextMutViewRetrievalFixture;

impl LweCiphertextMutViewRetrievalFixture {
    /// The parameter sets the fixture runs over: the LWE dimensions 1, 512 and 751, each of
    /// them valid.
    pub fn generate_parameters_iterator() -> (parameters: Vec<
        LweCiphertextViewRetrievalParameters,
    >)
        ensures
            parameters@.len() == 3,
            parameters@[0].lwe_dimension.0 == 1,
            parameters@[1].lwe_dimension.0 == 512,
            parameters@[2].lwe_dimension.0 == 751,
            forall|i: int| 0 <= i < parameters@.len() ==> (#[trigger] parameters@[i]).is_valid(),
    {
        retrieval_parameters()
    }

    /// What the samples of one repetition share: nothing. The maker is left as it was.
    pub fn generate_random_repetition_prototypes<B>(
        parameters: &LweCiphertextViewRetrievalParameters,
        maker: &mut Maker<B>,
    )
        ensures
            *final(maker) == *old(maker),
    {
    }

    /// The input of one sample: the prototype of a view of uniformly drawn scalars, as many
    /// as a ciphertext of the dimension of `parameters` has, mask and body. The maker is left
    /// as it was.
    pub fn generate_random_sample_prototypes<Precision: IntegerPrecision, B>(
        parameters: &LweCiphertextViewRetrievalParameters,
        maker: &mut Maker<B>,
        repetition_proto: &(),
    ) -> (sample_proto: (<Maker<B> as PrototypesLweCiphertextMutView<Precision>>::LweCiphertextMutViewProto,))
        where Maker<B>: PrototypesLweCiphertextMutView<Precision>
        requires
            parameters.is_valid(),
        ensures
            sample_proto.0.raw().len() == parameters.lwe_dimension.0 + 1,
            *final(maker) == *old(maker),
    {
        let num_elements = parameters.lwe_dimension.to_lwe_size().0;
        let proto_ciphertext_mut_view = maker.transform_raw_to_ciphertext_mut_view(
            <Precision::Raw as RawUnsignedIntegers>::uniform_vec(num_elements),
        );
        (proto_ciphertext_mut_view,)
    }

    /// What the engine call needs: a view. It is synthesized from the prototype, over a copy
    /// of its scalars in a fresh region of the maker's memory. Every other region is left as
    /// it was.
    pub fn prepare_context<Precision: IntegerPrecision, B, LweCiphertextMutView>(
        parameters: &LweCiphertextViewRetrievalParameters,
        maker: &mut Maker<B>,
        repetition_proto: &(),
        sample_proto: &(<Maker<B> as PrototypesLweCiphertextMutView<Precision>>::LweCiphertextMutViewProto,),
    ) -> (context: (LweCiphertextMutView,)) where
        LweCiphertextMutView: LweCiphertextEntity + ContainerEntity<BufferMut<Precision::Raw>>,
        Maker<B>: SynthesizesLweCiphertextMutView<Precision, LweCiphertextMutView>,

        requires
            sample_proto.0.raw().len() > 0,
        ensures
            context.0.spec_container().spec_len() == sample_proto.0.raw().len(),
            !old(maker).spec_memory().is_live(context.0.spec_container().spec_region()),
            final(maker).spec_memory()@ == old(maker).spec_memory()@.insert(
                context.0.spec_container().spec_region(),
                sample_proto.0.raw(),
            ),
            final(maker).spec_rest() == old(maker).spec_rest(),
            context.0.spec_container().spec_region() == old(maker).spec_memory().allocated(),
            final(maker).spec_memory().allocated() == old(maker).spec_memory().allocated() + 1,
    {
        (maker.synthesize_lwe_ciphertext_mut_view(&sample_proto.0),)
    }

    /// The engine call: the buffer is retrieved from the view, unchecked, which consumes the
    /// view. The handle that comes back is the one that the view held, and the engine is left
    /// as it was.
    pub fn execute_engine<Precision: IntegerPrecision, Engine, LweCiphertextMutView>(
        parameters: &LweCiphertextViewRetrievalParameters,
        engine: &mut Engine,
        context: (LweCiphertextMutView,),
    ) -> (post: (BufferMut<Precision::Raw>,)) where
        Engine: LweCiphertextRetrievalEngine<LweCiphertextMutView, BufferMut<Precision::Raw>>,
        LweCiphertextMutView: LweCiphertextEntity + ContainerEntity<BufferMut<Precision::Raw>>,

        ensures
            post.0 == context.0.spec_container(),
            *final(engine) == *old(engine),
    {
        let (ciphertext_mut_view,) = context;
        let raw_ciphertext = engine.retrieve_lwe_ciphertext_unchecked(ciphertext_mut_view);
        (raw_ciphertext,)
    }

    /// The outcome of a sample: the scalars of the prototype as means, and as actual values
    /// the scalars of the buffer that was retrieved. The buffer is back with its owner, who
    /// reclaims it here: its region is freed, and every other region is left as it was.
    pub fn process_context<Precision: IntegerPrecision, B>(
        parameters: &LweCiphertextViewRetrievalParameters,
        maker: &mut Maker<B>,
        repetition_proto: &(),
        sample_proto: &(<Maker<B> as PrototypesLweCiphertextMutView<Precision>>::LweCiphertextMutViewProto,),
        context: (BufferMut<Precision::Raw>,),
    ) -> (outcome: (Vec<Precision::Raw>, Vec<Precision::Raw>)) where
        Maker<B>: PrototypesLweCiphertextMutView<Precision> + OwnsMemory<Precision>,

        requires
            old(maker).spec_memory().holds_mut(&context.0),
        ensures
            outcome.0@ == sample_proto.0.raw(),
            outcome.1@ == old(maker).spec_memory()@[context.0.spec_region()],
            final(maker).spec_memory()@ == old(maker).spec_memory()@.remove(
                context.0.spec_region(),
            ),
            final(maker).spec_rest() == old(maker).spec_rest(),
            final(maker).spec_memory().allocated() == old(maker).spec_memory().allocated(),
    {
        let (raw_ciphertext,) = context;
        let means = maker.transform_ciphertext_mut_view_to_raw(&sample_proto.0);
        (means, maker.reclaim(raw_ciphertext.region()))
    }

    /// The noise that retrieval may add: none.
    pub fn compute_criteria<B>(
        parameters: &LweCiphertextViewRetrievalParameters,
        maker: &mut Maker<B>,
        repetition_proto: &(),
    ) -> (criteria: (ZeroVariance,))
        ensures
            *final(maker) == *old(maker),
    {
        (ZeroVariance,)
    }

    /// Whether the outcomes of all samples, taken together, meet the criterion: the actual
    /// values of all of them, one after the other, are the means of all of them.
    pub fn verify<Raw: RawUnsignedIntegers>(
        criteria: &(ZeroVariance,),
        outputs: &Vec<(Vec<Raw>, Vec<Raw>)>,
    ) -> (accepted: bool)
        ensures
            accepted <==> crate::fixture::all_actual(outputs@) == crate::fixture::all_means(
                outputs@,
            ),
    {
        let (means, actual) = aggregate(outputs);
        assert_noise_distribution(&actual, &means, criteria.0)
    }

    /// One sample from start to end, on a maker and an engine of the caller: the input is
    /// drawn and synthesized into a view, the engine retrieves the buffer, and the maker
    /// reclaims it. For every valid parameter set, every precision and every engine, the
    /// buffer holds what was drawn, and the memory of the maker holds what it held before.
    pub fn sample<Precision: IntegerPrecision, B, Engine, LweCiphertextMutView>(
        parameters: &LweCiphertextViewRetrievalParameters,
        maker: &mut Maker<B>,
        engine: &mut Engine,
        repetition_proto: &(),
    ) -> (outcome: (Vec<Precision::Raw>, Vec<Precision::Raw>)) where
        Engine: LweCiphertextRetrievalEngine<LweCiphertextMutView, BufferMut<Precision::Raw>>,
        LweCiphertextMutView: LweCiphertextEntity + ContainerEntity<BufferMut<Precision::Raw>>,
        Maker<B>: SynthesizesLweCiphertextMutView<Precision, LweCiphertextMutView>,

        requires
            parameters.is_valid(),
        ensures
            outcome.0@ == outcome.1@,
            outcome.0@.len() == parameters.lwe_dimension.0 + 1,
            final(maker).spec_memory()@ == old(maker).spec_memory()@,
            final(maker).spec_rest() == old(maker).spec_rest(),
            final(maker).spec_memory().allocated() == old(maker).spec_memory().allocated() + 1,
            *final(engine) == *old(engine),
    {
        let sample_proto = Self::generate_random_sample_prototypes::<Precision, B>(
            parameters,
            maker,
            repetition_proto,
        );
        let context = Self::prepare_context::<Precision, B, LweCiphertextMutView>(
            parameters,
            maker,
            repetition_proto,
            &sample_proto,
        );
        let post = Self::execute_engine::<Precision, Engine, _>(parameters, engine, context);
        let outcome = Self::process_context::<Precision, B>(
            parameters,
            maker,
            repetition_proto,
            &sample_proto,
            post,
        );
        assert(maker.spec_memory()@ =~= old(maker).spec_memory()@);
        outcome
    }

    /// One repetition: `sample_size` samples on one parameter set, gathered and verified
    /// together at the end. Every sample takes one fresh region of the maker's memory and
    /// gives its buffer back as it went in. So the repetition is accepted, whatever the
    /// engine; the memory holds what it held before; and it has handed out `sample_size`
    /// regions more.
    pub fn repeat<Precision: IntegerPrecision, B, Engine, LweCiphertextMutView>(
        parameters: &LweCiphertextViewRetrievalParameters,
        maker: &mut Maker<B>,
        engine: &mut Engine,
        sample_size: usize,
    ) -> (accepted: bool) where
        Engine: LweCiphertextRetrievalEngine<LweCiphertextMutView, BufferMut<Precision::Raw>>,
        LweCiphertextMutView: LweCiphertextEntity + ContainerEntity<BufferMut<Precision::Raw>>,
        Maker<B>: SynthesizesLweCiphertextMutView<Precision, LweCiphertextMutView>,
        requires
            parameters.is_valid(),
        ensures
            accepted,
            final(maker).spec_memory()@ == old(maker).spec_memory()@,
            final(maker).spec_rest() == old(maker).spec_rest(),
            final(maker).spec_memory().allocated() == old(maker).spec_memory().allocated()
                + sample_size,
            *final(engine) == *old(engine),
    {
        Self::generate_random_repetition_prototypes(parameters, maker);
        let repetition_proto = ();
        let mut outputs: Vec<(Vec<Precision::Raw>, Vec<Precision::Raw>)> = Vec::new();
        let mut sampled: usize = 0;
        while sampled < sample_size
            invariant
                sampled <= sample_size,
                parameters.is_valid(),
                maker.spec_memory()@ == old(maker).spec_memory()@,
                maker.spec_rest() == old(maker).spec_rest(),
                maker.spec_memory().allocated() == old(maker).spec_memory().allocated() + sampled,
                *engine == *old(engine),
                forall|i: int|
                    0 <= i < outputs@.len() ==> (#[trigger] outputs@[i]).0@ == outputs@[i].1@,
            decreases sample_size - sampled,
        {
            let outcome = Self::sample::<Precision, B, Engine, LweCiphertextMutView>(
                parameters,
                maker,
                engine,
                &repetition_proto,
            );
            outputs.push(outcome);
            sampled = sampled + 1;
        }
        let criteria = Self::compute_criteria(parameters, maker, &repetition_proto);
        proof {
            crate::fixture::lemma_equal_outcomes_aggregate(outputs@);
        }
        Self::verify(&criteria, &outputs)
    }

    /// `repetitions` repetitions on one parameter set, of `sample_size` samples each. All of
    /// them are accepted, and the memory of the maker has handed out one region for each
    /// sample and taken it back.
    pub fn stress<Precision: IntegerPrecision, B, Engine, LweCiphertextMutView>(
        parameters: &LweCiphertextViewRetrievalParameters,
        maker: &mut Maker<B>,
        engine: &mut Engine,
        repetitions: usize,
        sample_size: usize,
    ) -> (accepted: bool) where
        Engine: LweCiphertextRetrievalEngine<LweCiphertextMutView, BufferMut<Precision::Raw>>,
        LweCiphertextMutView: LweCiphertextEntity + ContainerEntity<BufferMut<Precision::Raw>>,
        Maker<B>: SynthesizesLweCiphertextMutView<Precision, LweCiphertextMutView>,
        requires
            parameters.is_valid(),
        ensures
            accepted,
            final(maker).spec_memory()@ == old(maker).spec_memory()@,
            final(maker).spec_rest() == old(maker).spec_rest(),
            final(maker).spec_memory().allocated() == old(maker).spec_memory().allocated()
                + repetitions * sample_size,
            *final(engine) == *old(engine),
    {
        let mut accepted = true;
        let mut repeated: usize = 0;
        while repeated < repetitions
            invariant
                repeated <= repetitions,
                accepted,
                parameters.is_valid(),
                maker.spec_memory()@ == old(maker).spec_memory()@,
                maker.spec_rest() == old(maker).spec_rest(),
                maker.spec_memory().allocated() == old(maker).spec_memory().allocated() + repeated
                    * sample_size,
                *engine == *old(engine),
            decreases repetitions - repeated,
        {
            proof {
                assert((repeated + 1) * sample_size == repeated * sample_size + sample_size)
                    by (nonlinear_arith);
            }
            let repetition = Self::repeat::<Precision, B, Engine, LweCiphertextMutView>(
                parameters,
                maker,
                engine,
                sample_size,
            );
            accepted = accepted && repetition;
            repeated = repeated + 1;
        }
        accepted
    }

    /// The whole fixture: `repetitions` repetitions of `sample_size` samples on each of the
    /// three parameter sets. Every engine that keeps its contract is accepted, and the memory
    /// of the maker has handed out one region for each sample and taken it back.
    pub fn stress_all_parameters<Precision: IntegerPrecision, B, Engine, LweCiphertextMutView>(
        maker: &mut Maker<B>,
        engine: &mut Engine,
        repetitions: usize,
        sample_size: usize,
    ) -> (accepted: bool) where
        Engine: LweCiphertextRetrievalEngine<LweCiphertextMutView, BufferMut<Precision::Raw>>,
        LweCiphertextMutView: LweCiphertextEntity + ContainerEntity<BufferMut<Precision::Raw>>,
        Maker<B>: SynthesizesLweCiphertextMutView<Precision, LweCiphertextMutView>,
        ensures
            accepted,
            final(maker).spec_memory()@ == old(maker).spec_memory()@,
            final(maker).spec_rest() == old(maker).spec_rest(),
            final(maker).spec_memory().allocated() == old(maker).spec_memory().allocated() + 3
                * (repetitions * sample_size),
            *final(engine) == *old(engine),
    {
        let all_parameters = Self::generate_parameters_iterator();
        let mut accepted = true;
        let mut stressed: usize = 0;
        while stressed < all_parameters.len()
            invariant
                stressed <= all_parameters@.len(),
                accepted,
                forall|i: int|
                    0 <= i < all_parameters@.len() ==> (#[trigger] all_parameters@[i]).is_valid(),
                maker.spec_memory()@ == old(maker).spec_memory()@,
                maker.spec_rest() == old(maker).spec_rest(),
                all_parameters@.len() == 3,
                maker.spec_memory().allocated() == old(maker).spec_memory().allocated() + stressed
                    * (repetitions * sample_size),
                *engine == *old(engine),
            decreases all_parameters@.len() - stressed,
        {
            proof {
                assert((stressed + 1) * (repetitions * sample_size) == stressed * (repetitions
                    * sample_size) + repetitions * sample_size) by (nonlinear_arith);
            }
            let parameters = &all_parameters[stressed];
            let set = Self::stress::<Precision, B, Engine, LweCiphertextMutView>(
                parameters,
                maker,
                engine,
                repetitions,
                sample_size,
            );
            accepted = accepted && set;
            stressed = stressed + 1;
        }
        accepted
    }
}


} // verus!
