//! Fixtures for the retrieval of the buffer of GLWE ciphertext views.
use crate::fixture::{aggregate, assert_noise_distribution, ZeroVariance};
use crate::generation::prototypes::glwe_ciphertext_view::{
    GlweCiphertextMutViewPrototype, GlweCiphertextViewPrototype,
};
use crate::generation::prototyping::glwe_ciphertext_view::{
    PrototypesGlweCiphertextMutView, PrototypesGlweCiphertextView,
};
use crate::generation::synthesizing::glwe_ciphertext_view::{
    SynthesizesGlweCiphertextMutView, SynthesizesGlweCiphertextView,
};
use crate::generation::{Maker, OwnsMemory};
use crate::implementation::entities::is_glwe_shaped;
use crate::markers::IntegerPrecision;
use crate::memory::{BufferMut, BufferRef};
use crate::raw::RawUnsignedIntegers;
use crate::specification::engines::glwe_ciphertext_retrieval::GlweCiphertextRetrievalEngine;
use crate::specification::entities::{ContainerEntity, GlweCiphertextEntity};
use concrete_commons::parameters::{GlweDimension, PolynomialSize};
use vstd::prelude::*;

verus! {

/// The parameters of one run of the retrieval fixtures.
#[derive(Debug)]
pub struct GlweCiphertextViewRetrievalParameters {
    pub glwe_dimension: GlweDimension,
    pub polynomial_size: PolynomialSize,
}

impl GlweCiphertextViewRetrievalParameters {
    /// The number of scalars of a ciphertext of these parameters: the polynomials of the mask
    /// and the body, each of the polynomial size.
    pub open spec fn num_elements(&self) -> nat {
        ((self.glwe_dimension.0 + 1) * self.polynomial_size.0) as nat
    }

    /// Whether a ciphertext of these parameters can be stored: its polynomials have at least
    /// one coefficient, and the number of its scalars fits in a `usize`.
    pub open spec fn is_valid(&self) -> bool {
        &&& self.polynomial_size.0 > 0
        &&& self.num_elements() <= usize::MAX
    }

    /// A ciphertext of valid parameters holds whole polynomials, and at least one.
    pub proof fn lemma_valid_is_glwe_shaped(&self)
        requires
            self.is_valid(),
        ensures
            self.glwe_dimension.0 < usize::MAX,
            is_glwe_shaped(self.num_elements(), self.polynomial_size.0 as nat),
    {
        let polynomials = self.glwe_dimension.0 + 1;
        let size = self.polynomial_size.0 as int;
        assert(polynomials * size >= polynomials) by (nonlinear_arith)
            requires
                polynomials >= 1,
                size >= 1,
        ;
        vstd::arithmetic::div_mod::lemma_mod_multiples_basic(polynomials, size);
    }
}

/// The parameter sets of the retrieval fixtures: one polynomial of 512 coefficients in the
/// mask, two of 1024, and two of 2048.
fn retrieval_parameters() -> (parameters: Vec<GlweCiphertextViewRetrievalParameters>)
    ensures
        parameters@.len() == 3,
        parameters@[0].glwe_dimension.0 == 1 && parameters@[0].polynomial_size.0 == 512,
        parameters@[1].glwe_dimension.0 == 2 && parameters@[1].polynomial_size.0 == 1024,
        parameters@[2].glwe_dimension.0 == 2 && parameters@[2].polynomial_size.0 == 2048,
        forall|i: int| 0 <= i < parameters@.len() ==> (#[trigger] parameters@[i]).is_valid(),
{
    let mut parameters: Vec<GlweCiphertextViewRetrievalParameters> = Vec::new();
    parameters.push(
        GlweCiphertextViewRetrievalParameters {
            glwe_dimension: GlweDimension(1),
            polynomial_size: PolynomialSize(512),
        },
    );
    parameters.push(
        GlweCiphertextViewRetrievalParameters {
            glwe_dimension: GlweDimension(2),
            polynomial_size: PolynomialSize(1024),
        },
    );
    parameters.push(
        GlweCiphertextViewRetrievalParameters {
            glwe_dimension: GlweDimension(2),
            polynomial_size: PolynomialSize(2048),
        },
    );
    proof {
        assert(parameters@[0].num_elements() == 1024);
        assert(parameters@[1].num_elements() == 3072);
        assert(parameters@[2].num_elements() == 6144);
        assert(usize::MAX >= 0xffff_ffff);
    }
    parameters
}

/// A fixture for the engines that retrieve the buffer of read-only GLWE ciphertext views.
///
/// A sample synthesizes a view of uniformly drawn coefficients, has the engine retrieve the buffer
/// from it, and reclaims the buffer. It must hold the coefficients that were drawn.
pub struct GlweCiphertextViewRetrievalFixture;

impl GlweCiphertextViewRetrievalFixture {
    /// The parameter sets the fixture runs over, each of them valid: one polynomial of 512
    /// coefficients in the mask, two of 1024, and two of 2048.
    pub fn generate_parameters_iterator() -> (parameters: Vec<
        GlweCiphertextViewRetrievalParameters,
    >)
        ensures
            parameters@.len() == 3,
            parameters@[0].glwe_dimension.0 == 1 && parameters@[0].polynomial_size.0 == 512,
            parameters@[1].glwe_dimension.0 == 2 && parameters@[1].polynomial_size.0 == 1024,
            parameters@[2].glwe_dimension.0 == 2 && parameters@[2].polynomial_size.0 == 2048,
            forall|i: int| 0 <= i < parameters@.len() ==> (#[trigger] parameters@[i]).is_valid(),
    {
        retrieval_parameters()
    }

    /// What the samples of one repetition share: nothing. The maker is left as it was.
    pub fn generate_random_repetition_prototypes<B>(
        parameters: &GlweCiphertextViewRetrievalParameters,
        maker: &mut Maker<B>,
    )
        ensures
            *final(maker) == *old(maker),
    {
    }

    /// The input of one sample: the prototype of a view of uniformly drawn coefficients, as many
    /// as a ciphertext of `parameters` has, in polynomials of their polynomial size. The maker
    /// is left as it was.
    pub fn generate_random_sample_prototypes<Precision: IntegerPrecision, B>(
        parameters: &GlweCiphertextViewRetrievalParameters,
        maker: &mut Maker<B>,
        repetition_proto: &(),
    ) -> (sample_proto: (<Maker<B> as PrototypesGlweCiphertextView<Precision>>::GlweCiphertextViewProto,))
        where Maker<B>: PrototypesGlweCiphertextView<Precision>
        requires
            parameters.is_valid(),
        ensures
            sample_proto.0.raw().len() == parameters.num_elements(),
            sample_proto.0.polynomial_size() == parameters.polynomial_size,
            *final(maker) == *old(maker),
    {
        proof {
            parameters.lemma_valid_is_glwe_shaped();
        }
        let num_elements = parameters.glwe_dimension.to_glwe_size().0
            * parameters.polynomial_size.0;
        let proto_ciphertext_view = maker.transform_raw_to_ciphertext_view(
            <Precision::Raw as RawUnsignedIntegers>::uniform_vec(num_elements),
            PolynomialSize(parameters.polynomial_size.0),
        );
        (proto_ciphertext_view,)
    }

    /// What the engine call needs: a view. It is synthesized from the prototype, over a copy
    /// of its coefficients in a fresh region of the maker's memory. Every other region is left as
    /// it was.
    pub fn prepare_context<Precision: IntegerPrecision, B, GlweCiphertextView>(
        parameters: &GlweCiphertextViewRetrievalParameters,
        maker: &mut Maker<B>,
        repetition_proto: &(),
        sample_proto: &(<Maker<B> as PrototypesGlweCiphertextView<Precision>>::GlweCiphertextViewProto,),
    ) -> (context: (GlweCiphertextView,)) where
        GlweCiphertextView: GlweCiphertextEntity + ContainerEntity<BufferRef<Precision::Raw>>,
        Maker<B>: SynthesizesGlweCiphertextView<Precision, GlweCiphertextView>,

        requires
            is_glwe_shaped(sample_proto.0.raw().len(), sample_proto.0.polynomial_size().0 as nat),
        ensures
            context.0.spec_container().spec_len() == sample_proto.0.raw().len(),
            !old(maker).spec_memory().is_live(context.0.spec_container().spec_region()),
            final(maker).spec_memory()@ == old(maker).spec_memory()@.insert(
                context.0.spec_container().spec_region(),
                sample_proto.0.raw(),
            ),
            final(maker).spec_rest() == old(maker).spec_rest(),
            context.0.spec_container().spec_region() == old(maker).spec_memory().allocated(),
            final(maker).spec_memory().allocated() == old(maker).spec_memory().allocated() + 1,
    {
        (maker.synthesize_glwe_ciphertext_view(&sample_proto.0),)
    }

    /// The engine call: the buffer is retrieved from the view, unchecked, which consumes the
    /// view. The handle that comes back is the one that the view held, and the engine is left
    /// as it was.
    pub fn execute_engine<Precision: IntegerPrecision, Engine, GlweCiphertextView>(
        parameters: &GlweCiphertextViewRetrievalParameters,
        engine: &mut Engine,
        context: (GlweCiphertextView,),
    ) -> (post: (BufferRef<Precision::Raw>,)) where
        Engine: GlweCiphertextRetrievalEngine<GlweCiphertextView, BufferRef<Precision::Raw>>,
        GlweCiphertextView: GlweCiphertextEntity + ContainerEntity<BufferRef<Precision::Raw>>,

        ensures
            post.0 == context.0.spec_container(),
            *final(engine) == *old(engine),
    {
        let (ciphertext_view,) = context;
        let raw_ciphertext = engine.retrieve_glwe_ciphertext_unchecked(ciphertext_view);
        (raw_ciphertext,)
    }

    /// The outcome of a sample: the coefficients of the prototype as means, and as actual values
    /// the coefficients of the buffer that was retrieved. The buffer is back with its owner, who
    /// reclaims it here: its region is freed, and every other region is left as it was.
    pub fn process_context<Precision: IntegerPrecision, B>(
        parameters: &GlweCiphertextViewRetrievalParameters,
        maker: &mut Maker<B>,
        repetition_proto: &(),
        sample_proto: &(<Maker<B> as PrototypesGlweCiphertextView<Precision>>::GlweCiphertextViewProto,),
        context: (BufferRef<Precision::Raw>,),
    ) -> (outcome: (Vec<Precision::Raw>, Vec<Precision::Raw>)) where
        Maker<B>: PrototypesGlweCiphertextView<Precision> + OwnsMemory<Precision>,

        requires
            old(maker).spec_memory().holds(&context.0),
        ensures
            outcome.0@ == sample_proto.0.raw(),
            outcome.1@ == old(maker).spec_memory()@[context.0.spec_region()],
            final(maker).spec_memory()@ == old(maker).spec_memory()@.remove(
                context.0.spec_region(),
            ),
            final(maker).spec_rest() == old(maker).spec_rest(),
            final(maker).spec_memory().allocated() == old(maker).spec_memory().allocated(),
    {
        let (raw_ciphertext,) = context;
        let means = maker.transform_ciphertext_view_to_raw(&sample_proto.0).0;
        (means, maker.reclaim(raw_ciphertext.region()))
    }

    /// The noise that retrieval may add: none.
    pub fn compute_criteria<B>(
        parameters: &GlweCiphertextViewRetrievalParameters,
        maker: &mut Maker<B>,
        repetition_proto: &(),
    ) -> (criteria: (ZeroVariance,))
        ensures
            *final(maker) == *old(maker),
    {
        (ZeroVariance,)
    }

    /// Whether the outcomes of all samples, taken together, meet the criterion: the actual
    /// values of all of them, one after the other, are the means of all of them.
    pub fn verify<Raw: RawUnsignedIntegers>(
        criteria: &(ZeroVariance,),
        outputs: &Vec<(Vec<Raw>, Vec<Raw>)>,
    ) -> (accepted: bool)
        ensures
            accepted <==> crate::fixture::all_actual(outputs@) == crate::fixture::all_means(
                outputs@,
            ),
    {
        let (means, actual) = aggregate(outputs);
        assert_noise_distribution(&actual, &means, criteria.0)
    }

    /// One sample from start to end, on a maker and an engine of the caller: the input is
    /// drawn and synthesized into a view, the engine retrieves the buffer, and the maker
    /// reclaims it. For every valid parameter set, every precision and every engine, the
    /// buffer holds what was drawn, and the memory of the maker holds what it held before.
    pub fn sample<Precision: IntegerPrecision, B, Engine, GlweCiphertextView>(
        parameters: &GlweCiphertextViewRetrievalParameters,
        maker: &mut Maker<B>,
        engine: &mut Engine,
        repetition_proto: &(),
    ) -> (outcome: (Vec<Precision::Raw>, Vec<Precision::Raw>)) where
        Engine: GlweCiphertextRetrievalEngine<GlweCiphertextView, BufferRef<Precision::Raw>>,
        GlweCiphertextView: GlweCiphertextEntity + ContainerEntity<BufferRef<Precision::Raw>>,
        Maker<B>: SynthesizesGlweCiphertextView<Precision, GlweCiphertextView>,

        requires
            parameters.is_valid(),
        ensures
            outcome.0@ == outcome.1@,
            outcome.0@.len() == parameters.num_elements(),
            final(maker).spec_memory()@ == old(maker).spec_memory()@,
            final(maker).spec_rest() == old(maker).spec_rest(),
            final(maker).spec_memory().allocated() == old(maker).spec_memory().allocated() + 1,
            *final(engine) == *old(engine),
    {
        proof {
            parameters.lemma_valid_is_glwe_shaped();
        }
        let sample_proto = Self::generate_random_sample_prototypes::<Precision, B>(
            parameters,
            maker,
            repetition_proto,
        );
        let context = Self::prepare_context::<Precision, B, GlweCiphertextView>(
            parameters,
            maker,
            repetition_proto,
            &sample_proto,
        );
        let post = Self::execute_engine::<Precision, Engine, _>(parameters, engine, context);
        let outcome = Self::process_context::<Precision, B>(
            parameters,
            maker,
            repetition_proto,
            &sample_proto,
            post,
        );
        assert(maker.spec_memory()@ =~= old(maker).spec_memory()@);
        outcome
    }

    /// One repetition: `sample_size` samples on one parameter set, gathered and verified
    /// together at the end. Every sample takes one fresh region of the maker's memory and
    /// gives its buffer back as it went in. So the repetition is accepted, whatever the
    /// engine; the memory holds what it held before; and it has handed out `sample_size`
    /// regions more.
    pub fn repeat<Precision: IntegerPrecision, B, Engine, GlweCiphertextView>(
        parameters: &GlweCiphertextViewRetrievalParameters,
        maker: &mut Maker<B>,
        engine: &mut Engine,
        sample_size: usize,
    ) -> (accepted: bool) where
        Engine: GlweCiphertextRetrievalEngine<GlweCiphertextView, BufferRef<Precision::Raw>>,
        GlweCiphertextView: GlweCiphertextEntity + ContainerEntity<BufferRef<Precision::Raw>>,
        Maker<B>: SynthesizesGlweCiphertextView<Precision, GlweCiphertextView>,
        requires
            parameters.is_valid(),
        ensures
            accepted,
            final(maker).spec_memory()@ == old(maker).spec_memory()@,
            final(maker).spec_rest() == old(maker).spec_rest(),
            final(maker).spec_memory().allocated() == old(maker).spec_memory().allocated()
                + sample_size,
            *final(engine) == *old(engine),
    {
        Self::generate_random_repetition_prototypes(parameters, maker);
        let repetition_proto = ();
        let mut outputs: Vec<(Vec<Precision::Raw>, Vec<Precision::Raw>)> = Vec::new();
        let mut sampled: usize = 0;
        while sampled < sample_size
            invariant
                sampled <= sample_size,
                parameters.is_valid(),
                maker.spec_memory()@ == old(maker).spec_memory()@,
                maker.spec_rest() == old(maker).spec_rest(),
                maker.spec_memory().allocated() == old(maker).spec_memory().allocated() + sampled,
                *engine == *old(engine),
                forall|i: int|
                    0 <= i < outputs@.len() ==> (#[trigger] outputs@[i]).0@ == outputs@[i].1@,
            decreases sample_size - sampled,
        {
            let outcome = Self::sample::<Precision, B, Engine, GlweCiphertextView>(
                parameters,
                maker,
                engine,
                &repetition_proto,
            );
            outputs.push(outcome);
            sampled = sampled + 1;
        }
        let criteria = Self::compute_criteria(parameters, maker, &repetition_proto);
        proof {
            crate::fixture::lemma_equal_outcomes_aggregate(outputs@);
        }
        Self::verify(&criteria, &outputs)
    }

    /// `repetitions` repetitions on one parameter set, of `sample_size` samples each. All of
    /// them are accepted, and the memory of the maker has handed out one region for each
    /// sample and taken it back.
    pub fn stress<Precision: IntegerPrecision, B, Engine, GlweCiphertextView>(
        parameters: &GlweCiphertextViewRetrievalParameters,
        maker: &mut Maker<B>,
        engine: &mut Engine,
        repetitions: usize,
        sample_size: usize,
    ) -> (accepted: bool) where
        Engine: GlweCiphertextRetrievalEngine<GlweCiphertextView, BufferRef<Precision::Raw>>,
        GlweCiphertextView: GlweCiphertextEntity + ContainerEntity<BufferRef<Precision::Raw>>,
        Maker<B>: SynthesizesGlweCiphertextView<Precision, GlweCiphertextView>,
        requires
            parameters.is_valid(),
        ensures
            accepted,
            final(maker).spec_memory()@ == old(maker).spec_memory()@,
            final(maker).spec_rest() == old(maker).spec_rest(),
            final(maker).spec_memory().allocated() == old(maker).spec_memory().allocated()
                + repetitions * sample_size,
            *final(engine) == *old(engine),
    {
        let mut accepted = true;
        let mut repeated: usize = 0;
        while repeated < repetitions
            invariant
                repeated <= repetitions,
                accepted,
                parameters.is_valid(),
                maker.spec_memory()@ == old(maker).spec_memory()@,
                maker.spec_rest() == old(maker).spec_rest(),
                maker.spec_memory().allocated() == old(maker).spec_memory().allocated() + repeated
                    * sample_size,
                *engine == *old(engine),
            decreases repetitions - repeated,
        {
            proof {
                assert((repeated + 1) * sample_size == repeated * sample_size + sample_size)
                    by (nonlinear_arith);
            }
            let repetition = Self::repeat::<Precision, B, Engine, GlweCiphertextView>(
                parameters,
                maker,
                engine,
                sample_size,
            );
            accepted = accepted && repetition;
            repeated = repeated + 1;
        }
        accepted
    }

    /// The whole fixture: `repetitions` repetitions of `sample_size` samples on each of the
    /// three parameter sets. Every engine that keeps its contract is accepted, and the memory
    /// of the maker has handed out one region for each sample and taken it back.
    pub fn stress_all_parameters<Precision: IntegerPrecision, B, Engine, GlweCiphertextView>(
        maker: &mut Maker<B>,
        engine: &mut Engine,
        repetitions: usize,
        sample_size: usize,
    ) -> (accepted: bool) where
        Engine: GlweCiphertextRetrievalEngine<GlweCiphertextView, BufferRef<Precision::Raw>>,
        GlweCiphertextView: GlweCiphertextEntity + ContainerEntity<BufferRef<Precision::Raw>>,
        Maker<B>: SynthesizesGlweCiphertextView<Precision, GlweCiphertextView>,
        ensures
            accepted,
            final(maker).spec_memory()@ == old(maker).spec_memory()@,
            final(maker).spec_rest() == old(maker).spec_rest(),
            final(maker).spec_memory().allocated() == old(maker).spec_memory().allocated() + 3
                * (repetitions * sample_size),
            *final(engine) == *old(engine),
    {
        let all_parameters = Self::generate_parameters_iterator();
        let mut accepted = true;
        let mut stressed: usize = 0;
        while stressed < all_parameters.len()
            invariant
                stressed <= all_parameters@.len(),
                accepted,
                forall|i: int|
                    0 <= i < all_parameters@.len() ==> (#[trigger] all_parameters@[i]).is_valid(),
                maker.spec_memory()@ == old(maker).spec_memory()@,
                maker.spec_rest() == old(maker).spec_rest(),
                all_parameters@.len() == 3,
                maker.spec_memory().allocated() == old(maker).spec_memory().allocated() + stressed
                    * (repetitions * sample_size),
                *engine == *old(engine),
            decreases all_parameters@.len() - stressed,
        {
            proof {
                assert((stressed + 1) * (repetitions * sample_size) == stressed * (repetitions
                    * sample_size) + repetitions * sample_size) by (nonlinear_arith);
            }
            let parameters = &all_parameters[stressed];
            let set = Self::stress::<Precision, B, Engine, GlweCiphertextView>(
                parameters,
                maker,
                engine,
                repetitions,
                sample_size,
            );
            accepted = accepted && set;
            stressed = stressed + 1;
        }
        accepted
    }
}

/// A fixture for the engines that retrieve the buffer of mutable GLWE ciphertext views.
///
/// A sample synthesizes a view of uniformly drawn coefficients, has the engine retrieve the buffer
/// from it, and reclaims the buffer. It must hold the coefficients that were drawn.
pub struct GlweCiphertextMutViewRetrievalFixture;

impl GlweCiphertextMutViewRetrievalFixture {
    /// The parameter sets the fixture runs over, each of them valid: one polynomial of 512
    /// coefficients in the mask, two of 1024, and two of 2048.
    pub fn generate_parameters_iterator() -> (parameters: Vec<
        GlweCiphertextViewRetrievalParameters,
    >)
        ensures
            parameters@.len() == 3,
            parameters@[0].glwe_dimension.0 == 1 && parameters@[0].polynomial_size.0 == 512,
            parameters@[1].glwe_dimension.0 == 2 && parameters@[1].polynomial_size.0 == 1024,
            parameters@[2].glwe_dimension.0 == 2 && parameters@[2].polynomial_size.0 == 2048,
            forall|i: int| 0 <= i < parameters@.len() ==> (#[trigger] parameters@[i]).is_valid(),
    {
        retrieval_parameters()
    }

    /// What the samples of one repetition share: nothing. The maker is left as it was.
    pub fn generate_random_repetition_prototypes<B>(
        parameters: &GlweCiphertextViewRetrievalParameters,
        maker: &mut Maker<B>,
    )
        ensures
            *final(maker) == *old(maker),
    {
    }

    /// The input of one sample: the prototype of a view of uniformly drawn coefficients, as many
    /// as a ciphertext of `parameters` has, in polynomials of their polynomial size. The maker
    /// is left as it was.
    pub fn generate_random_sample_prototypes<Precision: IntegerPrecision, B>(
        parameters: &GlweCiphertextViewRetrievalParameters,
        maker: &mut Maker<B>,
        repetition_proto: &(),
    ) -> (sample_proto: (<Maker<B> as PrototypesGlweCiphertextMutView<Precision>>::GlweCiphertextMutViewProto,))
        where Maker<B>: PrototypesGlweCiphertextMutView<Precision>
        requires
            parameters.is_valid(),
        ensures
            sample_proto.0.raw().len() == parameters.num_elements(),
            sample_proto.0.polynomial_size() == parameters.polynomial_size,
            *final(maker) == *old(maker),
    {
        proof {
            parameters.lemma_valid_is_glwe_shaped();
        }
        let num_elements = parameters.glwe_dimension.to_glwe_size().0
            * parameters.polynomial_size.0;
        let proto_ciphertext_mut_view = maker.transform_raw_to_ciphertext_mut_view(
            <Precision::Raw as RawUnsignedIntegers>::uniform_vec(num_elements),
            PolynomialSize(parameters.polynomial_size.0),
        );
        (proto_ciphertext_mut_view,)
    }

    /// What the engine call needs: a view. It is synthesized from the prototype, over a copy
    /// of its coefficients in a fresh region of the maker's memory. Every other region is left as
    /// it was.
    pub fn prepare_context<Precision: IntegerPrecision, B, GlweCiphertextMutView>(
        parameters: &GlweCiphertextViewRetrievalParameters,
        maker: &mut Maker<B>,
        repetition_proto: &(),
        sample_proto: &(<Maker<B> as PrototypesGlweCiphertextMutView<Precision>>::GlweCiphertextMutViewProto,),
    ) -> (context: (GlweCiphertextMutView,)) where
        GlweCiphertextMutView: GlweCiphertextEntity + ContainerEntity<BufferMut<Precision::Raw>>,
        Maker<B>: SynthesizesGlweCiphertextMutView<Precision, GlweCiphertextMutView>,

        requires
            is_glwe_shaped(sample_proto.0.raw().len(), sample_proto.0.polynomial_size().0 as nat),
        ensures
            context.0.spec_container().spec_len() == sample_proto.0.raw().len(),
            !old(maker).spec_memory().is_live(context.0.spec_container().spec_region()),
            final(maker).spec_memory()@ == old(maker).spec_memory()@.insert(
                context.0.spec_container().spec_region(),
                sample_proto.0.raw(),
            ),
            final(maker).spec_rest() == old(maker).spec_rest(),
            context.0.spec_container().spec_region() == old(maker).spec_memory().allocated(),
            final(maker).spec_memory().allocated() == old(maker).spec_memory().allocated() + 1,
    {
        (maker.synthesize_glwe_ciphertext_mut_view(&sample_proto.0),)
    }

    /// The engine call: the buffer is retrieved from the view, unchecked, which consumes the
    /// view. The handle that comes back is the one that the view held, and the engine is left
    /// as it was.
    pub fn execute_engine<Precision: IntegerPrecision, Engine, GlweCiphertextMutView>(
        parameters: &GlweCiphertextViewRetrievalParameters,
        engine: &mut Engine,
        context: (GlweCiphertextMutView,),
    ) -> (post: (BufferMut<Precision::Raw>,)) where
        Engine: GlweCiphertextRetrievalEngine<GlweCiphertextMutView, BufferMut<Precision::Raw>>,
        GlweCiphertextMutView: GlweCiphertextEntity + ContainerEntity<BufferMut<Precision::Raw>>,

        ensures
            post.0 == context.0.spec_container(),
            *final(engine) == *old(engine),
    {
        let (ciphertext_mut_view,) = context;
        let raw_ciphertext = engine.retrieve_glwe_ciphertext_unchecked(ciphertext_mut_view);
        (raw_ciphertext,)
    }

    /// The outcome of a sample: the coefficients of the prototype as means, and as actual values
    /// the coefficients of the buffer that was retrieved. The buffer is back with its owner, who
    /// reclaims it here: its region is freed, and every other region is left as it was.
    pub fn process_context<Precision: IntegerPrecision, B>(
        parameters: &GlweCiphertextViewRetrievalParameters,
        maker: &mut Maker<B>,
        repetition_proto: &(),
        sample_proto: &(<Maker<B> as PrototypesGlweCiphertextMutView<Precision>>::GlweCiphertextMutViewProto,),
        context: (BufferMut<Precision::Raw>,),
    ) -> (outcome: (Vec<Precision::Raw>, Vec<Precision::Raw>)) where
        Maker<B>: PrototypesGlweCiphertextMutView<Precision> + OwnsMemory<Precision>,

        requires
            old(maker).spec_memory().holds_mut(&context.0),
        ensures
            outcome.0@ == sample_proto.0.raw(),
            outcome.1@ == old(maker).spec_memory()@[context.0.spec_region()],
            final(maker).spec_memory()@ == old(maker).spec_memory()@.remove(
                context.0.spec_region(),
            ),
            final(maker).spec_rest() == old(maker).spec_rest(),
            final(maker).spec_memory().allocated() == old(maker).spec_memory().allocated(),
    {
        let (raw_ciphertext,) = context;
        let means = maker.transform_ciphertext_mut_view_to_raw(&sample_proto.0).0;
        (means, maker.reclaim(raw_ciphertext.region()))
    }

    /// The noise that retrieval may add: none.
    pub fn compute_criteria<B>(
        parameters: &GlweCiphertextViewRetrievalParameters,
        maker: &mut Maker<B>,
        repetition_proto: &(),
    ) -> (criteria: (ZeroVariance,))
        ensures
            *final(maker) == *old(maker),
    {
        (ZeroVariance,)
    }

    /// Whether the outcomes of all samples, taken together, meet the criterion: the actual
    /// values of all of them, one after the other, are the means of all of them.
    pub fn verify<Raw: RawUnsignedIntegers>(
        criteria: &(ZeroVariance,),
        outputs: &Vec<(Vec<Raw>, Vec<Raw>)>,
    ) -> (accepted: bool)
        ensures
            accepted <==> crate::fixture::all_actual(outputs@) == crate::fixture::all_means(
                outputs@,
            ),
    {
        let (means, actual) = aggregate(outputs);
        assert_noise_distribution(&actual, &means, criteria.0)
    }

    /// One sample from start to end, on a maker and an engine of the caller: the input is
    /// drawn and synthesized into a view, the engine retrieves the buffer, and the maker
    /// reclaims it. For every valid parameter set, every precision and every engine, the
    /// buffer holds what was drawn, and the memory of the maker holds what it held before.
    pub fn sample<Precision: IntegerPrecision, B, Engine, GlweCiphertextMutView>(
        parameters: &GlweCiphertextViewRetrievalParameters,
        maker: &mut Maker<B>,
        engine: &mut Engine,
        repetition_proto: &(),
    ) -> (outcome: (Vec<Precision::Raw>, Vec<Precision::Raw>)) where
        Engine: GlweCiphertextRetrievalEngine<GlweCiphertextMutView, BufferMut<Precision::Raw>>,
        GlweCiphertextMutView: GlweCiphertextEntity + ContainerEntity<BufferMut<Precision::Raw>>,
        Maker<B>: SynthesizesGlweCiphertextMutView<Precision, GlweCiphertextMutView>,

        requires
            parameters.is_valid(),
        ensures
            outcome.0@ == outcome.1@,
            outcome.0@.len() == parameters.num_elements(),
            final(maker).spec_memory()@ == old(maker).spec_memory()@,
            final(maker).spec_rest() == old(maker).spec_rest(),
            final(maker).spec_memory().allocated() == old(maker).spec_memory().allocated() + 1,
            *final(engine) == *old(engine),
    {
        proof {
            parameters.lemma_valid_is_glwe_shaped();
        }
        let sample_proto = Self::generate_random_sample_prototypes::<Precision, B>(
            parameters,
            maker,
            repetition_proto,
        );
        let context = Self::prepare_context::<Precision, B, GlweCiphertextMutView>(
            parameters,
            maker,
            repetition_proto,
            &sample_proto,
        );
        let post = Self::execute_engine::<Precision, Engine, _>(parameters, engine, context);
        let outcome = Self::process_context::<Precision, B>(
            parameters,
            maker,
            repetition_proto,
            &sample_proto,
            post,
        );
        assert(maker.spec_memory()@ =~= old(maker).spec_memory()@);
        outcome
    }

    /// One repetition: `sample_size` samples on one parameter set, gathered and verified
    /// together at the end. Every sample takes one fresh region of the maker's memory and
    /// gives its buffer back as it went in. So the repetition is accepted, whatever the
    /// engine; the memory holds what it held before; and it has handed out `sample_size`
    /// regions more.
    pub fn repeat<Precision: IntegerPrecision, B, Engine, GlweCiphertextMutView>(
        parameters: &GlweCiphertextViewRetrievalParameters,
        maker: &mut Maker<B>,
        engine: &mut Engine,
        sample_size: usize,
    ) -> (accepted: bool) where
        Engine: GlweCiphertextRetrievalEngine<GlweCiphertextMutView, BufferMut<Precision::Raw>>,
        GlweCiphertextMutView: GlweCiphertextEntity + ContainerEntity<BufferMut<Precision::Raw>>,
        Maker<B>: SynthesizesGlweCiphertextMutView<Precision, GlweCiphertextMutView>,
        requires
            parameters.is_valid(),
        ensures
            accepted,
            final(maker).spec_memory()@ == old(maker).spec_memory()@,
            final(maker).spec_rest() == old(maker).spec_rest(),
            final(maker).spec_memory().allocated() == old(maker).spec_memory().allocated()
                + sample_size,
            *final(engine) == *old(engine),
    {
        Self::generate_random_repetition_prototypes(parameters, maker);
        let repetition_proto = ();
        let mut outputs: Vec<(Vec<Precision::Raw>, Vec<Precision::Raw>)> = Vec::new();
        let mut sampled: usize = 0;
        while sampled < sample_size
            invariant
                sampled <= sample_size,
                parameters.is_valid(),
                maker.spec_memory()@ == old(maker).spec_memory()@,
                maker.spec_rest() == old(maker).spec_rest(),
                maker.spec_memory().allocated() == old(maker).spec_memory().allocated() + sampled,
                *engine == *old(engine),
                forall|i: int|
                    0 <= i < outputs@.len() ==> (#[trigger] outputs@[i]).0@ == outputs@[i].1@,
            decreases sample_size - sampled,
        {
            let outcome = Self::sample::<Precision, B, Engine, GlweCiphertextMutView>(
                parameters,
                maker,
                engine,
                &repetition_proto,
            );
            outputs.push(outcome);
            sampled = sampled + 1;
        }
        let criteria = Self::compute_criteria(parameters, maker, &repetition_proto);
        proof {
            crate::fixture::lemma_equal_outcomes_aggregate(outputs@);
        }
        Self::verify(&criteria, &outputs)
    }

    /// `repetitions` repetitions on one parameter set, of `sample_size` samples each. All of
    /// them are accepted, and the memory of the maker has handed out one region for each
    /// sample and taken it back.
    pub fn stress<Precision: IntegerPrecision, B, Engine, GlweCiphertextMutView>(
        parameters: &GlweCiphertextViewRetrievalParameters,
        maker: &mut Maker<B>,
        engine: &mut Engine,
        repetitions: usize,
        sample_size: usize,
    ) -> (accepted: bool) where
        Engine: GlweCiphertextRetrievalEngine<GlweCiphertextMutView, BufferMut<Precision::Raw>>,
        GlweCiphertextMutView: GlweCiphertextEntity + ContainerEntity<BufferMut<Precision::Raw>>,
        Maker<B>: SynthesizesGlweCiphertextMutView<Precision, GlweCiphertextMutView>,
        requires
            parameters.is_valid(),
        ensures
            accepted,
            final(maker).spec_memory()@ == old(maker).spec_memory()@,
            final(maker).spec_rest() == old(maker).spec_rest(),
            final(maker).spec_memory().allocated() == old(maker).spec_memory().allocated()
                + repetitions * sample_size,
            *final(engine) == *old(engine),
    {
        let mut accepted = true;
        let mut repeated: usize = 0;
        while repeated < repetitions
            invariant
                repeated <= repetitions,
                accepted,
                parameters.is_valid(),
                maker.spec_memory()@ == old(maker).spec_memory()@,
                maker.spec_rest() == old(maker).spec_rest(),
                maker.spec_memory().allocated() == old(maker).spec_memory().allocated() + repeated
                    * sample_size,
                *engine == *old(engine),
            decreases repetitions - repeated,
        {
            proof {
                assert((repeated + 1) * sample_size == repeated * sample_size + sample_size)
                    by (nonlinear_arith);
            }
            let repetition = Self::repeat::<Precision, B, Engine, GlweCiphertextMutView>(
                parameters,
                maker,
                engine,
                sample_size,
            );
            accepted = accepted && repetition;
            repeated = repeated + 1;
        }
        accepted
    }

    /// The whole fixture: `repetitions` repetitions of `sample_size` samples on each of the
    /// three parameter sets. Every engine that keeps its contract is accepted, and the memory
    /// of the maker has handed out one region for each sample and taken it back.
    pub fn stress_all_parameters<Precision: IntegerPrecision, B, Engine, GlweCiphertextMutView>(
        maker: &mut Maker<B>,
        engine: &mut Engine,
        repetitions: usize,
        sample_size: usize,
    ) -> (accepted: bool) where
        Engine: GlweCiphertextRetrievalEngine<GlweCiphertextMutView, BufferMut<Precision::Raw>>,
        GlweCiphertextMutView: GlweCiphertextEntity + ContainerEntity<BufferMut<Precision::Raw>>,
        Maker<B>: SynthesizesGlweCiphertextMutView<Precision, GlweCiphertextMutView>,
        ensures
            accepted,
            final(maker).spec_memory()@ == old(maker).spec_memory()@,
            final(maker).spec_rest() == old(maker).spec_rest(),
            final(maker).spec_memory().allocated() == old(maker).spec_memory().allocated() + 3
                * (repetitions * sample_size),
            *final(engine) == *old(engine),
    {
        let all_parameters = Self::generate_parameters_iterator();
        let mut accepted = true;
        let mut stressed: usize = 0;
        while stressed < all_parameters.len()
            invariant
                stressed <= all_parameters@.len(),
                accepted,
                forall|i: int|
                    0 <= i < all_parameters@.len() ==> (#[trigger] all_parameters@[i]).is_valid(),
                maker.spec_memory()@ == old(maker).spec_memory()@,
                maker.spec_rest() == old(maker).spec_rest(),
                all_parameters@.len() == 3,
                maker.spec_memory().allocated() == old(maker).spec_memory().allocated() + stressed
                    * (repetitions * sample_size),
                *engine == *old(engine),
            decreases all_parameters@.len() - stressed,
        {
            proof {
                assert((stressed + 1) * (repetitions * sample_size) == stressed * (repetitions
                    * sample_size) + repetitions * sample_size) by (nonlinear_arith);
            }
            let parameters = &all_parameters[stressed];
            let set = Self::stress::<Precision, B, Engine, GlweCiphertextMutView>(
                parameters,
                maker,
                engine,
                repetitions,
                sample_size,
            );
            accepted = accepted && set;
            stressed = stressed + 1;
        }
        accepted
    }
}


} // verus!
