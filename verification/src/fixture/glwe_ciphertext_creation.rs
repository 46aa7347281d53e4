//! Fixtures for the creation of GLWE ciphertext views.
use crate::fixture::{aggregate, assert_noise_distribution, ZeroVariance};
use crate::generation::prototyping::glwe_ciphertext_view::{
    PrototypesGlweCiphertextMutView, PrototypesGlweCiphertextView,
};
use crate::generation::synthesizing::glwe_ciphertext_view::{
    SynthesizesGlweCiphertextMutView, SynthesizesGlweCiphertextView,
};
use crate::generation::{Maker, OwnsMemory};
use crate::implementation::entities::is_glwe_shaped;
use crate::markers::IntegerPrecision;
use crate::memory::{BufferMut, BufferRef};
use crate::raw::{copy_of, RawUnsignedIntegers};
use crate::specification::engines::glwe_ciphertext_creation::GlweCiphertextCreationEngine;
use crate::specification::entities::{ContainerEntity, GlweCiphertextEntity};
use concrete_commons::parameters::{GlweDimension, PolynomialSize};
use vstd::prelude::*;

verus! {

/// The parameters of one run of the creation fixtures.
#[derive(Debug)]
pub struct GlweCiphertextViewCreationParameters {
    pub glwe_dimension: GlweDimension,
    pub polynomial_size: PolynomialSize,
}

impl GlweCiphertextViewCreationParameters {
    /// The number of scalars of a ciphertext of these parameters: the polynomials of the mask
    /// and the body, each of the polynomial size.
    pub open spec fn num_elements(&self) -> nat {
        ((self.glwe_dimension.0 + 1) * self.polynomial_size.0) as nat
    }

    /// Whether a ciphertext of these parameters can be stored: its polynomials have at least
    /// one coefficient, and the number of its scalars fits in a `usize`.
    pub open spec fn is_valid(&self) -> bool {
        &&& self.polynomial_size.0 > 0
        &&& self.num_elements() <= usize::MAX
    }

    /// A ciphertext of valid parameters holds whole polynomials, and at least one.
    pub proof fn lemma_valid_is_glwe_shaped(&self)
        requires
            self.is_valid(),
        ensures
            self.glwe_dimension.0 < usize::MAX,
            is_glwe_shaped(self.num_elements(), self.polynomial_size.0 as nat),
    {
        let polynomials = self.glwe_dimension.0 + 1;
        let size = self.polynomial_size.0 as int;
        assert(polynomials * size >= polynomials) by (nonlinear_arith)
            requires
                polynomials >= 1,
                size >= 1,
        ;
        vstd::arithmetic::div_mod::lemma_mod_multiples_basic(polynomials, size);
    }
}

/// The parameter sets of the creation fixtures: one polynomial of 512 coefficients in the
/// mask, two of 1024, and two of 2048.
fn creation_parameters() -> (parameters: Vec<GlweCiphertextViewCreationParameters>)
    ensures
        parameters@.len() == 3,
        parameters@[0].glwe_dimension.0 == 1 && parameters@[0].polynomial_size.0 == 512,
        parameters@[1].glwe_dimension.0 == 2 && parameters@[1].polynomial_size.0 == 1024,
        parameters@[2].glwe_dimension.0 == 2 && parameters@[2].polynomial_size.0 == 2048,
        forall|i: int| 0 <= i < parameters@.len() ==> (#[trigger] parameters@[i]).is_valid(),
{
    let mut parameters: Vec<GlweCiphertextViewCreationParameters> = Vec::new();
    parameters.push(
        GlweCiphertextViewCreationParameters {
            glwe_dimension: GlweDimension(1),
            polynomial_size: PolynomialSize(512),
        },
    );
    parameters.push(
        GlweCiphertextViewCreationParameters {
            glwe_dimension: GlweDimension(2),
            polynomial_size: PolynomialSize(1024),
        },
    );
    parameters.push(
        GlweCiphertextViewCreationParameters {
            glwe_dimension: GlweDimension(2),
            polynomial_size: PolynomialSize(2048),
        },
    );
    proof {
        assert(parameters@[0].num_elements() == 1024);
        assert(parameters@[1].num_elements() == 3072);
        assert(parameters@[2].num_elements() == 6144);
        assert(usize::MAX >= 0xffff_ffff);
    }
    parameters
}

/// A fixture for the engines that create read-only GLWE ciphertext views.
///
/// A sample leaks a buffer of uniformly drawn coefficients, has the engine create a view over
/// it, and reclaims the buffer from the view. The buffer must come back as it went in.
pub struct GlweCiphertextViewCreationFixture;

impl GlweCiphertextViewCreationFixture {
    /// The parameter sets the fixture runs over, each of them valid: one polynomial of 512
    /// coefficients in the mask, two of 1024, and two of 2048.
    pub fn generate_parameters_iterator() -> (parameters: Vec<
        GlweCiphertextViewCreationParameters,
    >)
        ensures
            parameters@.len() == 3,
            parameters@[0].glwe_dimension.0 == 1 && parameters@[0].polynomial_size.0 == 512,
            parameters@[1].glwe_dimension.0 == 2 && parameters@[1].polynomial_size.0 == 1024,
            parameters@[2].glwe_dimension.0 == 2 && parameters@[2].polynomial_size.0 == 2048,
            forall|i: int| 0 <= i < parameters@.len() ==> (#[trigger] parameters@[i]).is_valid(),
    {
        creation_parameters()
    }

    /// What the samples of one repetition share: nothing. The maker is left as it was.
    pub fn generate_random_repetition_prototypes<B>(
        parameters: &GlweCiphertextViewCreationParameters,
        maker: &mut Maker<B>,
    )
        ensures
            *final(maker) == *old(maker),
    {
    }

    /// The input of one sample: uniformly drawn coefficients, as many as a ciphertext of
    /// `parameters` has, and the polynomial size. The maker is left as it was.
    pub fn generate_random_sample_prototypes<Precision: IntegerPrecision, B>(
        parameters: &GlweCiphertextViewCreationParameters,
        maker: &mut Maker<B>,
        repetition_proto: &(),
    ) -> (sample_proto: (Vec<Precision::Raw>, PolynomialSize))
        requires
            parameters.is_valid(),
        ensures
            sample_proto.0@.len() == parameters.num_elements(),
            sample_proto.1 == parameters.polynomial_size,
            *final(maker) == *old(maker),
    {
        proof {
            parameters.lemma_valid_is_glwe_shaped();
        }
        let num_elements = parameters.glwe_dimension.to_glwe_size().0
            * parameters.polynomial_size.0;
        (
            <Precision::Raw as RawUnsignedIntegers>::uniform_vec(num_elements),
            PolynomialSize(parameters.polynomial_size.0),
        )
    }

    /// What the engine call needs: a buffer in caller memory, and the polynomial size. A copy
    /// of the sample is leaked into a fresh region of the maker's memory, and the shared
    /// handle to it comes back. Every other region is left as it was.
    pub fn prepare_context<Precision: IntegerPrecision, B>(
        parameters: &GlweCiphertextViewCreationParameters,
        maker: &mut Maker<B>,
        repetition_proto: &(),
        sample_proto: &(Vec<Precision::Raw>, PolynomialSize),
    ) -> (context: (BufferRef<Precision::Raw>, PolynomialSize)) where Maker<B>: OwnsMemory<Precision>
        ensures
            context.0.spec_len() == sample_proto.0@.len(),
            context.1 == sample_proto.1,
            !old(maker).spec_memory().is_live(context.0.spec_region()),
            final(maker).spec_memory()@ == old(maker).spec_memory()@.insert(
                context.0.spec_region(),
                sample_proto.0@,
            ),
            final(maker).spec_rest() == old(maker).spec_rest(),
            context.0.spec_region() == old(maker).spec_memory().allocated(),
            final(maker).spec_memory().allocated() == old(maker).spec_memory().allocated() + 1,
    {
        let underlying_container = copy_of(&sample_proto.0);
        (maker.leak(underlying_container).share(), PolynomialSize(sample_proto.1.0))
    }

    /// The engine call: a view is created over the buffer, unchecked. That the buffer holds
    /// whole polynomials, and at least one, is the obligation of the caller. The view that
    /// comes back aliases the buffer that went in, and the engine is left as it was.
    pub fn execute_engine<Precision: IntegerPrecision, Engine, GlweCiphertextView>(
        parameters: &GlweCiphertextViewCreationParameters,
        engine: &mut Engine,
        context: (BufferRef<Precision::Raw>, PolynomialSize),
    ) -> (post: (GlweCiphertextView,)) where
        Engine: GlweCiphertextCreationEngine<BufferRef<Precision::Raw>, GlweCiphertextView>,
        GlweCiphertextView: GlweCiphertextEntity + ContainerEntity<BufferRef<Precision::Raw>>,

        requires
            is_glwe_shaped(context.0.spec_len() as nat, context.1.0 as nat),
        ensures
            post.0.spec_container() == context.0,
            post.0.spec_polynomial_size() == context.1,
            *final(engine) == *old(engine),
    {
        let (slice_from_container, polynomial_size) = context;
        let glwe_ciphertext_view = engine.create_glwe_ciphertext_unchecked(
            slice_from_container,
            polynomial_size,
        );
        (glwe_ciphertext_view,)
    }

    /// The outcome of a sample: the coefficients of the sample as means, and as actual values
    /// the coefficients of the buffer that the view aliases. Unsynthesizing consumes the view
    /// and reclaims its region, so there is nothing left to destroy.
    pub fn process_context<Precision: IntegerPrecision, B, GlweCiphertextView>(
        parameters: &GlweCiphertextViewCreationParameters,
        maker: &mut Maker<B>,
        repetition_proto: &(),
        sample_proto: &(Vec<Precision::Raw>, PolynomialSize),
        context: (GlweCiphertextView,),
    ) -> (outcome: (Vec<Precision::Raw>, Vec<Precision::Raw>)) where
        GlweCiphertextView: GlweCiphertextEntity + ContainerEntity<BufferRef<Precision::Raw>>,
        Maker<B>: SynthesizesGlweCiphertextView<Precision, GlweCiphertextView>,

        requires
            old(maker).spec_memory().holds(&context.0.spec_container()),
        ensures
            outcome.0@ == sample_proto.0@,
            outcome.1@ == old(maker).spec_memory()@[context.0.spec_container().spec_region()],
            final(maker).spec_memory()@ == old(maker).spec_memory()@.remove(
                context.0.spec_container().spec_region(),
            ),
            final(maker).spec_rest() == old(maker).spec_rest(),
            final(maker).spec_memory().allocated() == old(maker).spec_memory().allocated(),
    {
        let (glwe_ciphertext_view,) = context;
        let ciphertext_view_proto = maker.unsynthesize_glwe_ciphertext_view(glwe_ciphertext_view);
        let actual = maker.transform_ciphertext_view_to_raw(&ciphertext_view_proto).0;
        (copy_of(&sample_proto.0), actual)
    }

    /// The noise that creation may add: none.
    pub fn compute_criteria<B>(
        parameters: &GlweCiphertextViewCreationParameters,
        maker: &mut Maker<B>,
        repetition_proto: &(),
    ) -> (criteria: (ZeroVariance,))
        ensures
            *final(maker) == *old(maker),
    {
        (ZeroVariance,)
    }

    /// Whether the outcomes of all samples, taken together, meet the criterion: the actual
    /// values of all of them, one after the other, are the means of all of them.
    pub fn verify<Raw: RawUnsignedIntegers>(
        criteria: &(ZeroVariance,),
        outputs: &Vec<(Vec<Raw>, Vec<Raw>)>,
    ) -> (accepted: bool)
        ensures
            accepted <==> crate::fixture::all_actual(outputs@) == crate::fixture::all_means(
                outputs@,
            ),
    {
        let (means, actual) = aggregate(outputs);
        assert_noise_distribution(&actual, &means, criteria.0)
    }

    /// One sample from start to end, on a maker and an engine of the caller: the input is
    /// drawn, leaked, viewed by the engine and reclaimed. For every valid parameter set, every
    /// precision and every engine, the buffer comes back as it went in, and the memory of the
    /// maker holds what it held before.
    pub fn sample<Precision: IntegerPrecision, B, Engine, GlweCiphertextView>(
        parameters: &GlweCiphertextViewCreationParameters,
        maker: &mut Maker<B>,
        engine: &mut Engine,
        repetition_proto: &(),
    ) -> (outcome: (Vec<Precision::Raw>, Vec<Precision::Raw>)) where
        Engine: GlweCiphertextCreationEngine<BufferRef<Precision::Raw>, GlweCiphertextView>,
        GlweCiphertextView: GlweCiphertextEntity + ContainerEntity<BufferRef<Precision::Raw>>,
        Maker<B>: SynthesizesGlweCiphertextView<Precision, GlweCiphertextView>,

        requires
            parameters.is_valid(),
        ensures
            outcome.0@ == outcome.1@,
            outcome.0@.len() == parameters.num_elements(),
            final(maker).spec_memory()@ == old(maker).spec_memory()@,
            final(maker).spec_rest() == old(maker).spec_rest(),
            final(maker).spec_memory().allocated() == old(maker).spec_memory().allocated() + 1,
            *final(engine) == *old(engine),
    {
        proof {
            parameters.lemma_valid_is_glwe_shaped();
        }
        let sample_proto = Self::generate_random_sample_prototypes::<Precision, B>(
            parameters,
            maker,
            repetition_proto,
        );
        let context = Self::prepare_context::<Precision, B>(
            parameters,
            maker,
            repetition_proto,
            &sample_proto,
        );
        let post = Self::execute_engine::<Precision, Engine, _>(parameters, engine, context);
        let outcome = Self::process_context::<Precision, B, GlweCiphertextView>(
            parameters,
            maker,
            repetition_proto,
            &sample_proto,
            post,
        );
        assert(maker.spec_memory()@ =~= old(maker).spec_memory()@);
        outcome
    }

    /// One repetition: `sample_size` samples on one parameter set, gathered and verified
    /// together at the end. Every sample takes one fresh region of the maker's memory and
    /// gives its buffer back as it went in. So the repetition is accepted, whatever the
    /// engine; the memory holds what it held before; and it has handed out `sample_size`
    /// regions more.
    pub fn repeat<Precision: IntegerPrecision, B, Engine, GlweCiphertextView>(
        parameters: &GlweCiphertextViewCreationParameters,
        maker: &mut Maker<B>,
        engine: &mut Engine,
        sample_size: usize,
    ) -> (accepted: bool) where
        Engine: GlweCiphertextCreationEngine<BufferRef<Precision::Raw>, GlweCiphertextView>,
        GlweCiphertextView: GlweCiphertextEntity + ContainerEntity<BufferRef<Precision::Raw>>,
        Maker<B>: SynthesizesGlweCiphertextView<Precision, GlweCiphertextView>,
        requires
            parameters.is_valid(),
        ensures
            accepted,
            final(maker).spec_memory()@ == old(maker).spec_memory()@,
            final(maker).spec_rest() == old(maker).spec_rest(),
            final(maker).spec_memory().allocated() == old(maker).spec_memory().allocated()
                + sample_size,
            *final(engine) == *old(engine),
    {
        Self::generate_random_repetition_prototypes(parameters, maker);
        let repetition_proto = ();
        let mut outputs: Vec<(Vec<Precision::Raw>, Vec<Precision::Raw>)> = Vec::new();
        let mut sampled: usize = 0;
        while sampled < sample_size
            invariant
                sampled <= sample_size,
                parameters.is_valid(),
                maker.spec_memory()@ == old(maker).spec_memory()@,
                maker.spec_rest() == old(maker).spec_rest(),
                maker.spec_memory().allocated() == old(maker).spec_memory().allocated() + sampled,
                *engine == *old(engine),
                forall|i: int|
                    0 <= i < outputs@.len() ==> (#[trigger] outputs@[i]).0@ == outputs@[i].1@,
            decreases sample_size - sampled,
        {
            let outcome = Self::sample::<Precision, B, Engine, GlweCiphertextView>(
                parameters,
                maker,
                engine,
                &repetition_proto,
            );
            outputs.push(outcome);
            sampled = sampled + 1;
        }
        let criteria = Self::compute_criteria(parameters, maker, &repetition_proto);
        proof {
            crate::fixture::lemma_equal_outcomes_aggregate(outputs@);
        }
        Self::verify(&criteria, &outputs)
    }

    /// `repetitions` repetitions on one parameter set, of `sample_size` samples each. All of
    /// them are accepted, and the memory of the maker has handed out one region for each
    /// sample and taken it back.
    pub fn stress<Precision: IntegerPrecision, B, Engine, GlweCiphertextView>(
        parameters: &GlweCiphertextViewCreationParameters,
        maker: &mut Maker<B>,
        engine: &mut Engine,
        repetitions: usize,
        sample_size: usize,
    ) -> (accepted: bool) where
        Engine: GlweCiphertextCreationEngine<BufferRef<Precision::Raw>, GlweCiphertextView>,
        GlweCiphertextView: GlweCiphertextEntity + ContainerEntity<BufferRef<Precision::Raw>>,
        Maker<B>: SynthesizesGlweCiphertextView<Precision, GlweCiphertextView>,
        requires
            parameters.is_valid(),
        ensures
            accepted,
            final(maker).spec_memory()@ == old(maker).spec_memory()@,
            final(maker).spec_rest() == old(maker).spec_rest(),
            final(maker).spec_memory().allocated() == old(maker).spec_memory().allocated()
                + repetitions * sample_size,
            *final(engine) == *old(engine),
    {
        let mut accepted = true;
        let mut repeated: usize = 0;
        while repeated < repetitions
            invariant
                repeated <= repetitions,
                accepted,
                parameters.is_valid(),
                maker.spec_memory()@ == old(maker).spec_memory()@,
                maker.spec_rest() == old(maker).spec_rest(),
                maker.spec_memory().allocated() == old(maker).spec_memory().allocated() + repeated
                    * sample_size,
                *engine == *old(engine),
            decreases repetitions - repeated,
        {
            proof {
                assert((repeated + 1) * sample_size == repeated * sample_size + sample_size)
                    by (nonlinear_arith);
            }
            let repetition = Self::repeat::<Precision, B, Engine, GlweCiphertextView>(
                parameters,
                maker,
                engine,
                sample_size,
            );
            accepted = accepted && repetition;
            repeated = repeated + 1;
        }
        accepted
    }

    /// The whole fixture: `repetitions` repetitions of `sample_size` samples on each of the
    /// three parameter sets. Every engine that keeps its contract is accepted, and the memory
    /// of the maker has handed out one region for each sample and taken it back.
    pub fn stress_all_parameters<Precision: IntegerPrecision, B, Engine, GlweCiphertextView>(
        maker: &mut Maker<B>,
        engine: &mut Engine,
        repetitions: usize,
        sample_size: usize,
    ) -> (accepted: bool) where
        Engine: GlweCiphertextCreationEngine<BufferRef<Precision::Raw>, GlweCiphertextView>,
        GlweCiphertextView: GlweCiphertextEntity + ContainerEntity<BufferRef<Precision::Raw>>,
        Maker<B>: SynthesizesGlweCiphertextView<Precision, GlweCiphertextView>,
        ensures
            accepted,
            final(maker).spec_memory()@ == old(maker).spec_memory()@,
            final(maker).spec_rest() == old(maker).spec_rest(),
            final(maker).spec_memory().allocated() == old(maker).spec_memory().allocated() + 3
                * (repetitions * sample_size),
            *final(engine) == *old(engine),
    {
        let all_parameters = Self::generate_parameters_iterator();
        let mut accepted = true;
        let mut stressed: usize = 0;
        while stressed < all_parameters.len()
            invariant
                stressed <= all_parameters@.len(),
                accepted,
                forall|i: int|
                    0 <= i < all_parameters@.len() ==> (#[trigger] all_parameters@[i]).is_valid(),
                maker.spec_memory()@ == old(maker).spec_memory()@,
                maker.spec_rest() == old(maker).spec_rest(),
                all_parameters@.len() == 3,
                maker.spec_memory().allocated() == old(maker).spec_memory().allocated() + stressed
                    * (repetitions * sample_size),
                *engine == *old(engine),
            decreases all_parameters@.len() - stressed,
        {
            proof {
                assert((stressed + 1) * (repetitions * sample_size) == stressed * (repetitions
                    * sample_size) + repetitions * sample_size) by (nonlinear_arith);
            }
            let parameters = &all_parameters[stressed];
            let set = Self::stress::<Precision, B, Engine, GlweCiphertextView>(
                parameters,
                maker,
                engine,
                repetitions,
                sample_size,
            );
            accepted = accepted && set;
            stressed = stressed + 1;
        }
        accepted
    }
}

/// A fixture for the engines that create mutable GLWE ciphertext views.
///
/// A sample leaks a buffer of uniformly drawn coefficients, has the engine create a view over
/// it, and reclaims the buffer from the view. The buffer must come back as it went in.
pub struct GlweCiphertextMutViewCreationFixture;

impl GlweCiphertextMutViewCreationFixture {
    /// The parameter sets the fixture runs over, each of them valid: one polynomial of 512
    /// coefficients in the mask, two of 1024, and two of 2048.
    pub fn generate_parameters_iterator() -> (parameters: Vec<
        GlweCiphertextViewCreationParameters,
    >)
        ensures
            parameters@.len() == 3,
            parameters@[0].glwe_dimension.0 == 1 && parameters@[0].polynomial_size.0 == 512,
            parameters@[1].glwe_dimension.0 == 2 && parameters@[1].polynomial_size.0 == 1024,
            parameters@[2].glwe_dimension.0 == 2 && parameters@[2].polynomial_size.0 == 2048,
            forall|i: int| 0 <= i < parameters@.len() ==> (#[trigger] parameters@[i]).is_valid(),
    {
        creation_parameters()
    }

    /// What the samples of one repetition share: nothing. The maker is left as it was.
    pub fn generate_random_repetition_prototypes<B>(
        parameters: &GlweCiphertextViewCreationParameters,
        maker: &mut Maker<B>,
    )
        ensures
            *final(maker) == *old(maker),
    {
    }

    /// The input of one sample: uniformly drawn coefficients, as many as a ciphertext of
    /// `parameters` has, and the polynomial size. The maker is left as it was.
    pub fn generate_random_sample_prototypes<Precision: IntegerPrecision, B>(
        parameters: &GlweCiphertextViewCreationParameters,
        maker: &mut Maker<B>,
        repetition_proto: &(),
    ) -> (sample_proto: (Vec<Precision::Raw>, PolynomialSize))
        requires
            parameters.is_valid(),
        ensures
            sample_proto.0@.len() == parameters.num_elements(),
            sample_proto.1 == parameters.polynomial_size,
            *final(maker) == *old(maker),
    {
        proof {
            parameters.lemma_valid_is_glwe_shaped();
        }
        let num_elements = parameters.glwe_dimension.to_glwe_size().0
            * parameters.polynomial_size.0;
        (
            <Precision::Raw as RawUnsignedIntegers>::uniform_vec(num_elements),
            PolynomialSize(parameters.polynomial_size.0),
        )
    }

    /// What the engine call needs: a buffer in caller memory, and the polynomial size. A copy
    /// of the sample is leaked into a fresh region of the maker's memory, and the exclusive
    /// handle to it comes back. Every other region is left as it was.
    pub fn prepare_context<Precision: IntegerPrecision, B>(
        parameters: &GlweCiphertextViewCreationParameters,
        maker: &mut Maker<B>,
        repetition_proto: &(),
        sample_proto: &(Vec<Precision::Raw>, PolynomialSize),
    ) -> (context: (BufferMut<Precision::Raw>, PolynomialSize)) where Maker<B>: OwnsMemory<Precision>
        ensures
            context.0.spec_len() == sample_proto.0@.len(),
            context.1 == sample_proto.1,
            !old(maker).spec_memory().is_live(context.0.spec_region()),
            final(maker).spec_memory()@ == old(maker).spec_memory()@.insert(
                context.0.spec_region(),
                sample_proto.0@,
            ),
            final(maker).spec_rest() == old(maker).spec_rest(),
            context.0.spec_region() == old(maker).spec_memory().allocated(),
            final(maker).spec_memory().allocated() == old(maker).spec_memory().allocated() + 1,
    {
        let underlying_container = copy_of(&sample_proto.0);
        (maker.leak(underlying_container), PolynomialSize(sample_proto.1.0))
    }

    /// The engine call: a view is created over the buffer, unchecked. That the buffer holds
    /// whole polynomials, and at least one, is the obligation of the caller. The view that
    /// comes back aliases the buffer that went in, and the engine is left as it was.
    pub fn execute_engine<Precision: IntegerPrecision, Engine, GlweCiphertextMutView>(
        parameters: &GlweCiphertextViewCreationParameters,
        engine: &mut Engine,
        context: (BufferMut<Precision::Raw>, PolynomialSize),
    ) -> (post: (GlweCiphertextMutView,)) where
        Engine: GlweCiphertextCreationEngine<BufferMut<Precision::Raw>, GlweCiphertextMutView>,
        GlweCiphertextMutView: GlweCiphertextEntity + ContainerEntity<BufferMut<Precision::Raw>>,

        requires
            is_glwe_shaped(context.0.spec_len() as nat, context.1.0 as nat),
        ensures
            post.0.spec_container() == context.0,
            post.0.spec_polynomial_size() == context.1,
            *final(engine) == *old(engine),
    {
        let (slice_from_container, polynomial_size) = context;
        let glwe_ciphertext_mut_view = engine.create_glwe_ciphertext_unchecked(
            slice_from_container,
            polynomial_size,
        );
        (glwe_ciphertext_mut_view,)
    }

    /// The outcome of a sample: the coefficients of the sample as means, and as actual values
    /// the coefficients of the buffer that the view aliases. Unsynthesizing consumes the view
    /// and reclaims its region, so there is nothing left to destroy.
    pub fn process_context<Precision: IntegerPrecision, B, GlweCiphertextMutView>(
        parameters: &GlweCiphertextViewCreationParameters,
        maker: &mut Maker<B>,
        repetition_proto: &(),
        sample_proto: &(Vec<Precision::Raw>, PolynomialSize),
        context: (GlweCiphertextMutView,),
    ) -> (outcome: (Vec<Precision::Raw>, Vec<Precision::Raw>)) where
        GlweCiphertextMutView: GlweCiphertextEntity + ContainerEntity<BufferMut<Precision::Raw>>,
        Maker<B>: SynthesizesGlweCiphertextMutView<Precision, GlweCiphertextMutView>,

        requires
            old(maker).spec_memory().holds_mut(&context.0.spec_container()),
        ensures
            outcome.0@ == sample_proto.0@,
            outcome.1@ == old(maker).spec_memory()@[context.0.spec_container().spec_region()],
            final(maker).spec_memory()@ == old(maker).spec_memory()@.remove(
                context.0.spec_container().spec_region(),
            ),
            final(maker).spec_rest() == old(maker).spec_rest(),
            final(maker).spec_memory().allocated() == old(maker).spec_memory().allocated(),
    {
        let (glwe_ciphertext_mut_view,) = context;
        let ciphertext_view_proto = maker.unsynthesize_glwe_ciphertext_mut_view(glwe_ciphertext_mut_view);
        let actual = maker.transform_ciphertext_mut_view_to_raw(&ciphertext_view_proto).0;
        (copy_of(&sample_proto.0), actual)
    }

    /// The noise that creation may add: none.
    pub fn compute_criteria<B>(
        parameters: &GlweCiphertextViewCreationParameters,
        maker: &mut Maker<B>,
        repetition_proto: &(),
    ) -> (criteria: (ZeroVariance,))
        ensures
            *final(maker) == *old(maker),
    {
        (ZeroVariance,)
    }

    /// Whether the outcomes of all samples, taken together, meet the criterion: the actual
    /// values of all of them, one after the other, are the means of all of them.
    pub fn verify<Raw: RawUnsignedIntegers>(
        criteria: &(ZeroVariance,),
        outputs: &Vec<(Vec<Raw>, Vec<Raw>)>,
    ) -> (accepted: bool)
        ensures
            accepted <==> crate::fixture::all_actual(outputs@) == crate::fixture::all_means(
                outputs@,
            ),
    {
        let (means, actual) = aggregate(outputs);
        assert_noise_distribution(&actual, &means, criteria.0)
    }

    /// One sample from start to end, on a maker and an engine of the caller: the input is
    /// drawn, leaked, viewed by the engine and reclaimed. For every valid parameter set, every
    /// precision and every engine, the buffer comes back as it went in, and the memory of the
    /// maker holds what it held before.
    pub fn sample<Precision: IntegerPrecision, B, Engine, GlweCiphertextMutView>(
        parameters: &GlweCiphertextViewCreationParameters,
        maker: &mut Maker<B>,
        engine: &mut Engine,
        repetition_proto: &(),
    ) -> (outcome: (Vec<Precision::Raw>, Vec<Precision::Raw>)) where
        Engine: GlweCiphertextCreationEngine<BufferMut<Precision::Raw>, GlweCiphertextMutView>,
        GlweCiphertextMutView: GlweCiphertextEntity + ContainerEntity<BufferMut<Precision::Raw>>,
        Maker<B>: SynthesizesGlweCiphertextMutView<Precision, GlweCiphertextMutView>,

        requires
            parameters.is_valid(),
        ensures
            outcome.0@ == outcome.1@,
            outcome.0@.len() == parameters.num_elements(),
            final(maker).spec_memory()@ == old(maker).spec_memory()@,
            final(maker).spec_rest() == old(maker).spec_rest(),
            final(maker).spec_memory().allocated() == old(maker).spec_memory().allocated() + 1,
            *final(engine) == *old(engine),
    {
        proof {
            parameters.lemma_valid_is_glwe_shaped();
        }
        let sample_proto = Self::generate_random_sample_prototypes::<Precision, B>(
            parameters,
            maker,
            repetition_proto,
        );
        let context = Self::prepare_context::<Precision, B>(
            parameters,
            maker,
            repetition_proto,
            &sample_proto,
        );
        let post = Self::execute_engine::<Precision, Engine, _>(parameters, engine, context);
        let outcome = Self::process_context::<Precision, B, GlweCiphertextMutView>(
            parameters,
            maker,
            repetition_proto,
            &sample_proto,
            post,
        );
        assert(maker.spec_memory()@ =~= old(maker).spec_memory()@);
        outcome
    }

    /// One repetition: `sample_size` samples on one parameter set, gathered and verified
    /// together at the end. Every sample takes one fresh region of the maker's memory and
    /// gives its buffer back as it went in. So the repetition is accepted, whatever the
    /// engine; the memory holds what it held before; and it has handed out `sample_size`
    /// regions more.
    pub fn repeat<Precision: IntegerPrecision, B, Engine, GlweCiphertextMutView>(
        parameters: &GlweCiphertextViewCreationParameters,
        maker: &mut Maker<B>,
        engine: &mut Engine,
        sample_size: usize,
    ) -> (accepted: bool) where
        Engine: GlweCiphertextCreationEngine<BufferMut<Precision::Raw>, GlweCiphertextMutView>,
        GlweCiphertextMutView: GlweCiphertextEntity + ContainerEntity<BufferMut<Precision::Raw>>,
        Maker<B>: SynthesizesGlweCiphertextMutView<Precision, GlweCiphertextMutView>,
        requires
            parameters.is_valid(),
        ensures
            accepted,
            final(maker).spec_memory()@ == old(maker).spec_memory()@,
            final(maker).spec_rest() == old(maker).spec_rest(),
            final(maker).spec_memory().allocated() == old(maker).spec_memory().allocated()
                + sample_size,
            *final(engine) == *old(engine),
    {
        Self::generate_random_repetition_prototypes(parameters, maker);
        let repetition_proto = ();
        let mut outputs: Vec<(Vec<Precision::Raw>, Vec<Precision::Raw>)> = Vec::new();
        let mut sampled: usize = 0;
        while sampled < sample_size
            invariant
                sampled <= sample_size,
                parameters.is_valid(),
                maker.spec_memory()@ == old(maker).spec_memory()@,
                maker.spec_rest() == old(maker).spec_rest(),
                maker.spec_memory().allocated() == old(maker).spec_memory().allocated() + sampled,
                *engine == *old(engine),
                forall|i: int|
                    0 <= i < outputs@.len() ==> (#[trigger] outputs@[i]).0@ == outputs@[i].1@,
            decreases sample_size - sampled,
        {
            let outcome = Self::sample::<Precision, B, Engine, GlweCiphertextMutView>(
                parameters,
                maker,
                engine,
                &repetition_proto,
            );
            outputs.push(outcome);
            sampled = sampled + 1;
        }
        let criteria = Self::compute_criteria(parameters, maker, &repetition_proto);
        proof {
            crate::fixture::lemma_equal_outcomes_aggregate(outputs@);
        }
        Self::verify(&criteria, &outputs)
    }

    /// `repetitions` repetitions on one parameter set, of `sample_size` samples each. All of
    /// them are accepted, and the memory of the maker has handed out one region for each
    /// sample and taken it back.
    pub fn stress<Precision: IntegerPrecision, B, Engine, GlweCiphertextMutView>(
        parameters: &GlweCiphertextViewCreationParameters,
        maker: &mut Maker<B>,
        engine: &mut Engine,
        repetitions: usize,
        sample_size: usize,
    ) -> (accepted: bool) where
        Engine: GlweCiphertextCreationEngine<BufferMut<Precision::Raw>, GlweCiphertextMutView>,
        GlweCiphertextMutView: GlweCiphertextEntity + ContainerEntity<BufferMut<Precision::Raw>>,
        Maker<B>: SynthesizesGlweCiphertextMutView<Precision, GlweCiphertextMutView>,
        requires
            parameters.is_valid(),
        ensures
            accepted,
            final(maker).spec_memory()@ == old(maker).spec_memory()@,
            final(maker).spec_rest() == old(maker).spec_rest(),
            final(maker).spec_memory().allocated() == old(maker).spec_memory().allocated()
                + repetitions * sample_size,
            *final(engine) == *old(engine),
    {
        let mut accepted = true;
        let mut repeated: usize = 0;
        while repeated < repetitions
            invariant
                repeated <= repetitions,
                accepted,
                parameters.is_valid(),
                maker.spec_memory()@ == old(maker).spec_memory()@,
                maker.spec_rest() == old(maker).spec_rest(),
                maker.spec_memory().allocated() == old(maker).spec_memory().allocated() + repeated
                    * sample_size,
                *engine == *old(engine),
            decreases repetitions - repeated,
        {
            proof {
                assert((repeated + 1) * sample_size == repeated * sample_size + sample_size)
                    by (nonlinear_arith);
            }
            let repetition = Self::repeat::<Precision, B, Engine, GlweCiphertextMutView>(
                parameters,
                maker,
                engine,
                sample_size,
            );
            accepted = accepted && repetition;
            repeated = repeated + 1;
        }
        accepted
    }

    /// The whole fixture: `repetitions` repetitions of `sample_size` samples on each of the
    /// three parameter sets. Every engine that keeps its contract is accepted, and the memory
    /// of the maker has handed out one region for each sample and taken it back.
    pub fn stress_all_parameters<Precision: IntegerPrecision, B, Engine, GlweCiphertextMutView>(
        maker: &mut Maker<B>,
        engine: &mut Engine,
        repetitions: usize,
        sample_size: usize,
    ) -> (accepted: bool) where
        Engine: GlweCiphertextCreationEngine<BufferMut<Precision::Raw>, GlweCiphertextMutView>,
        GlweCiphertextMutView: GlweCiphertextEntity + ContainerEntity<BufferMut<Precision::Raw>>,
        Maker<B>: SynthesizesGlweCiphertextMutView<Precision, GlweCiphertextMutView>,
        ensures
            accepted,
            final(maker).spec_memory()@ == old(maker).spec_memory()@,
            final(maker).spec_rest() == old(maker).spec_rest(),
            final(maker).spec_memory().allocated() == old(maker).spec_memory().allocated() + 3
                * (repetitions * sample_size),
            *final(engine) == *old(engine),
    {
        let all_parameters = Self::generate_parameters_iterator();
        let mut accepted = true;
        let mut stressed: usize = 0;
        while stressed < all_parameters.len()
            invariant
                stressed <= all_parameters@.len(),
                accepted,
                forall|i: int|
                    0 <= i < all_parameters@.len() ==> (#[trigger] all_parameters@[i]).is_valid(),
                maker.spec_memory()@ == old(maker).spec_memory()@,
                maker.spec_rest() == old(maker).spec_rest(),
                all_parameters@.len() == 3,
                maker.spec_memory().allocated() == old(maker).spec_memory().allocated() + stressed
                    * (repetitions * sample_size),
                *engine == *old(engine),
            decreases all_parameters@.len() - stressed,
        {
            proof {
                assert((stressed + 1) * (repetitions * sample_size) == stressed * (repetitions
                    * sample_size) + repetitions * sample_size) by (nonlinear_arith);
            }
            let parameters = &all_parameters[stressed];
            let set = Self::stress::<Precision, B, Engine, GlweCiphertextMutView>(
                parameters,
                maker,
                engine,
                repetitions,
                sample_size,
            );
            accepted = accepted && set;
            stressed = stressed + 1;
        }
        accepted
    }
}


} // verus!
