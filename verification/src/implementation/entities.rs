//! The entities of the core backend.
//!
//! Owned entities hold their scalars in a vector of their own. Views hold a handle into caller
//! memory instead: a shared one for a read-only view, an exclusive one for a mutable view.
//! Every entity keeps the invariant of its shape, so an accessor never has to fail.
use crate::markers::{BinaryKeyDistribution, IntegerPrecision, Precision32, Precision64};
use crate::specification::entities::{
    GlweCiphertextEntity, GlweCiphertextVectorEntity, GlweSecretKeyEntity, LweCiphertextEntity,
    LweCiphertextVectorEntity, LweKeyswitchKeyEntity, LweSecretKeyEntity, PlaintextVectorEntity,
};
use concrete_commons::parameters::{
    DecompositionBaseLog, DecompositionLevelCount, GlweCiphertextCount, GlweDimension, GlweSize,
    LweCiphertextCount, LweDimension, LweSize, PlaintextCount, PolynomialSize,
};
use vstd::prelude::*;

verus! {

/// Whether `length` scalars make up whole polynomials of `polynomial_size` coefficients, and
/// at least one.
pub open spec fn is_glwe_shaped(length: nat, polynomial_size: nat) -> bool {
    &&& length > 0
    &&& polynomial_size > 0
    &&& length % polynomial_size == 0
}

/// A vector of plaintexts.
pub struct PlaintextVector<P: IntegerPrecision> {
    tensor: Vec<P::Raw>,
}

/// A vector of 32-bit plaintexts.
pub type PlaintextVector32 = PlaintextVector<Precision32>;

/// A vector of 64-bit plaintexts.
pub type PlaintextVector64 = PlaintextVector<Precision64>;

impl<P: IntegerPrecision> View for PlaintextVector<P> {
    type V = Seq<P::Raw>;

    /// The plaintexts, in order.
    closed spec fn view(&self) -> Seq<P::Raw> {
        self.tensor@
    }
}

impl<P: IntegerPrecision> PlaintextVector<P> {
    /// Wraps `tensor` as a vector of plaintexts, one per scalar.
    pub fn from_container(tensor: Vec<P::Raw>) -> (vector: Self)
        ensures
            vector@ == tensor@,
    {
        PlaintextVector { tensor }
    }

    /// Unwraps the plaintexts.
    pub fn into_container(self) -> (tensor: Vec<P::Raw>)
        ensures
            tensor@ == self@,
    {
        self.tensor
    }

    /// The plaintexts, to read.
    pub fn as_slice(&self) -> (scalars: &[P::Raw])
        ensures
            scalars@ == self@,
            self@.len() <= usize::MAX,
    {
        proof {
            assert(self.tensor@.len() == self.tensor.len());
        }
        self.tensor.as_slice()
    }

    /// The plaintexts, to overwrite in place. Their number stays what it is.
    pub(crate) fn tensor_mut(&mut self) -> (tensor: &mut Vec<P::Raw>)
        ensures
            tensor@ == old(self)@,
            final(self)@ == final(tensor)@,
    {
        &mut self.tensor
    }
}

impl<P: IntegerPrecision> PlaintextVectorEntity for PlaintextVector<P> {
    type Representation = P;

    open spec fn spec_plaintext_count(&self) -> PlaintextCount {
        PlaintextCount(self@.len() as usize)
    }

    fn plaintext_count(&self) -> (count: PlaintextCount) {
        PlaintextCount(self.tensor.len())
    }
}

/// An LWE secret key with binary scalars.
pub struct LweSecretKey<P: IntegerPrecision> {
    tensor: Vec<P::Raw>,
}

/// A 32-bit LWE secret key.
pub type LweSecretKey32 = LweSecretKey<Precision32>;

/// A 64-bit LWE secret key.
pub type LweSecretKey64 = LweSecretKey<Precision64>;

impl<P: IntegerPrecision> View for LweSecretKey<P> {
    type V = Seq<P::Raw>;

    /// The scalars of the key, in order.
    closed spec fn view(&self) -> Seq<P::Raw> {
        self.tensor@
    }
}

impl<P: IntegerPrecision> LweSecretKey<P> {
    /// Wraps `tensor` as a key with one scalar per element.
    pub fn from_container(tensor: Vec<P::Raw>) -> (key: Self)
        ensures
            key@ == tensor@,
    {
        LweSecretKey { tensor }
    }

    /// The scalars of the key, to read.
    pub fn as_slice(&self) -> (scalars: &[P::Raw])
        ensures
            scalars@ == self@,
            self@.len() <= usize::MAX,
    {
        proof {
            assert(self.tensor@.len() == self.tensor.len());
        }
        self.tensor.as_slice()
    }
}

impl<P: IntegerPrecision> LweSecretKeyEntity for LweSecretKey<P> {
    type Representation = P;

    type KeyFlavor = BinaryKeyDistribution;

    open spec fn spec_lwe_dimension(&self) -> LweDimension {
        LweDimension(self@.len() as usize)
    }

    fn lwe_dimension(&self) -> (dimension: LweDimension) {
        LweDimension(self.tensor.len())
    }
}

/// A GLWE secret key with binary scalars.
pub struct GlweSecretKey<P: IntegerPrecision> {
    tensor: Vec<P::Raw>,
    polynomial_size: usize,
}

/// A 32-bit GLWE secret key.
pub type GlweSecretKey32 = GlweSecretKey<Precision32>;

/// A 64-bit GLWE secret key.
pub type GlweSecretKey64 = GlweSecretKey<Precision64>;

impl<P: IntegerPrecision> View for GlweSecretKey<P> {
    type V = Seq<P::Raw>;

    /// The coefficients of the key, polynomial after polynomial.
    closed spec fn view(&self) -> Seq<P::Raw> {
        self.tensor@
    }
}

impl<P: IntegerPrecision> GlweSecretKey<P> {
    #[verifier::type_invariant]
    spec fn well_formed(&self) -> bool {
        &&& self.polynomial_size > 0
        &&& self.tensor@.len() % (self.polynomial_size as nat) == 0
    }

    /// The number of coefficients of each polynomial, as a plain number.
    pub closed spec fn polynomial_len(&self) -> usize {
        self.polynomial_size
    }

    /// Wraps `tensor` as a key of polynomials of `polynomial_size` coefficients. Nothing
    /// comes back unless `tensor` holds whole polynomials.
    pub fn from_container(tensor: Vec<P::Raw>, polynomial_size: PolynomialSize) -> (key: Option<
        Self,
    >)
        ensures
            key is Some <==> polynomial_size.0 > 0 && tensor@.len() % (polynomial_size.0 as nat)
                == 0,
            key matches Some(k) ==> k@ == tensor@ && k.polynomial_len() == polynomial_size.0,
    {
        if polynomial_size.0 == 0 || tensor.len() % polynomial_size.0 != 0 {
            None
        } else {
            Some(GlweSecretKey { tensor, polynomial_size: polynomial_size.0 })
        }
    }

    /// The coefficients of the key, to read.
    pub fn as_slice(&self) -> (scalars: &[P::Raw])
        ensures
            scalars@ == self@,
            self@.len() <= usize::MAX,
            self.polynomial_len() > 0,
            self@.len() % (self.polynomial_len() as nat) == 0,
    {
        proof {
            use_type_invariant(self);
        }
        proof {
            assert(self.tensor@.len() == self.tensor.len());
        }
        self.tensor.as_slice()
    }
}

impl<P: IntegerPrecision> GlweSecretKeyEntity for GlweSecretKey<P> {
    type Representation = P;

    type KeyFlavor = BinaryKeyDistribution;

    open spec fn spec_glwe_dimension(&self) -> GlweDimension {
        GlweDimension((self@.len() / (self.polynomial_len() as nat)) as usize)
    }

    open spec fn spec_polynomial_size(&self) -> PolynomialSize {
        PolynomialSize(self.polynomial_len())
    }

    fn glwe_dimension(&self) -> (dimension: GlweDimension) {
        proof {
            use_type_invariant(self);
        }
        GlweDimension(self.tensor.len() / self.polynomial_size)
    }

    fn polynomial_size(&self) -> (size: PolynomialSize) {
        PolynomialSize(self.polynomial_size)
    }
}

/// An LWE ciphertext that owns its scalars.
pub struct LweCiphertext<P: IntegerPrecision> {
    tensor: Vec<P::Raw>,
}

/// A 32-bit LWE ciphertext.
pub type LweCiphertext32 = LweCiphertext<Precision32>;

/// A 64-bit LWE ciphertext.
pub type LweCiphertext64 = LweCiphertext<Precision64>;

impl<P: IntegerPrecision> View for LweCiphertext<P> {
    type V = Seq<P::Raw>;

    /// The scalars of the ciphertext: the mask, then the body.
    closed spec fn view(&self) -> Seq<P::Raw> {
        self.tensor@
    }
}

impl<P: IntegerPrecision> LweCiphertext<P> {
    #[verifier::type_invariant]
    spec fn well_formed(&self) -> bool {
        self.tensor@.len() > 0
    }

    /// Wraps `tensor` as one ciphertext. Nothing comes back if `tensor` is empty: a
    /// ciphertext has at least its body.
    pub fn from_container(tensor: Vec<P::Raw>) -> (ciphertext: Option<Self>)
        ensures
            ciphertext is Some <==> tensor@.len() > 0,
            ciphertext matches Some(c) ==> c@ == tensor@,
    {
        if tensor.len() == 0 {
            None
        } else {
            Some(LweCiphertext { tensor })
        }
    }

    /// The scalars of the ciphertext, to read. There is at least one.
    pub fn as_slice(&self) -> (scalars: &[P::Raw])
        ensures
            scalars@ == self@,
            self@.len() <= usize::MAX,
            self@.len() > 0,
    {
        proof {
            use_type_invariant(self);
        }
        proof {
            assert(self.tensor@.len() == self.tensor.len());
        }
        self.tensor.as_slice()
    }
}

impl<P: IntegerPrecision> LweCiphertextEntity for LweCiphertext<P> {
    type Representation = P;

    type KeyFlavor = BinaryKeyDistribution;

    open spec fn spec_lwe_dimension(&self) -> LweDimension {
        LweDimension((self@.len() - 1) as usize)
    }

    fn lwe_dimension(&self) -> (dimension: LweDimension) {
        proof {
            use_type_invariant(self);
        }
        LweDimension(self.tensor.len() - 1)
    }
}

/// A vector of LWE ciphertexts of one size, stored one after the other.
pub struct LweCiphertextVector<P: IntegerPrecision> {
    tensor: Vec<P::Raw>,
    lwe_size: usize,
}

/// A vector of 32-bit LWE ciphertexts.
pub type LweCiphertextVector32 = LweCiphertextVector<Precision32>;

/// A vector of 64-bit LWE ciphertexts.
pub type LweCiphertextVector64 = LweCiphertextVector<Precision64>;

impl<P: IntegerPrecision> View for LweCiphertextVector<P> {
    type V = Seq<P::Raw>;

    /// The scalars of the ciphertexts, ciphertext after ciphertext.
    closed spec fn view(&self) -> Seq<P::Raw> {
        self.tensor@
    }
}

impl<P: IntegerPrecision> LweCiphertextVector<P> {
    #[verifier::type_invariant]
    spec fn well_formed(&self) -> bool {
        &&& self.lwe_size > 0
        &&& self.tensor@.len() % (self.lwe_size as nat) == 0
    }

    /// The number of scalars of each ciphertext, mask and body, as a plain number.
    pub closed spec fn lwe_len(&self) -> usize {
        self.lwe_size
    }

    /// Wraps `tensor` as ciphertexts of `lwe_size` scalars each. Nothing comes back unless
    /// `tensor` holds whole ciphertexts.
    pub fn from_container(tensor: Vec<P::Raw>, lwe_size: LweSize) -> (vector: Option<Self>)
        ensures
            vector is Some <==> lwe_size.0 > 0 && tensor@.len() % (lwe_size.0 as nat) == 0,
            vector matches Some(v) ==> v@ == tensor@ && v.lwe_len() == lwe_size.0,
    {
        if lwe_size.0 == 0 || tensor.len() % lwe_size.0 != 0 {
            None
        } else {
            Some(LweCiphertextVector { tensor, lwe_size: lwe_size.0 })
        }
    }

    /// The scalars of the ciphertexts, to read. They make up whole ciphertexts.
    pub fn as_slice(&self) -> (scalars: &[P::Raw])
        ensures
            scalars@ == self@,
            self@.len() <= usize::MAX,
            self.lwe_len() > 0,
            self@.len() % (self.lwe_len() as nat) == 0,
    {
        proof {
            use_type_invariant(self);
        }
        proof {
            assert(self.tensor@.len() == self.tensor.len());
        }
        self.tensor.as_slice()
    }

    /// The number of scalars of each ciphertext, mask and body. It is never zero.
    pub fn lwe_size(&self) -> (size: LweSize)
        ensures
            size.0 == self.lwe_len(),
            size.0 > 0,
            self@.len() % (self.lwe_len() as nat) == 0,
    {
        proof {
            use_type_invariant(self);
        }
        LweSize(self.lwe_size)
    }

    /// Moves the scalars out, so that they can be overwritten in place, and leaves a vector
    /// of no ciphertext of the same size behind.
    pub(crate) fn take_tensor(&mut self) -> (tensor: Vec<P::Raw>)
        ensures
            tensor@ == old(self)@,
            final(self)@ == Seq::<P::Raw>::empty(),
            final(self).lwe_len() == old(self).lwe_len(),
            old(self).lwe_len() > 0,
            old(self)@.len() % (old(self).lwe_len() as nat) == 0,
    {
        proof {
            use_type_invariant(&*self);
        }
        let empty: Vec<P::Raw> = Vec::new();
        assert(empty@.len() % (self.lwe_size as nat) == 0) by (nonlinear_arith)
            requires
                empty@.len() == 0,
                self.lwe_size > 0,
        ;
        let mut taken = LweCiphertextVector { tensor: empty, lwe_size: self.lwe_size };
        std::mem::swap(self, &mut taken);
        taken.tensor
    }

    /// Moves scalars in that make up whole ciphertexts of the vector's size.
    pub(crate) fn restore_tensor(&mut self, tensor: Vec<P::Raw>)
        requires
            old(self).lwe_len() > 0 ==> tensor@.len() % (old(self).lwe_len() as nat) == 0,
        ensures
            final(self)@ == tensor@,
            final(self).lwe_len() == old(self).lwe_len(),
    {
        proof {
            use_type_invariant(&*self);
        }
        *self = LweCiphertextVector { tensor, lwe_size: self.lwe_size };
    }
}

impl<P: IntegerPrecision> LweCiphertextVectorEntity for LweCiphertextVector<P> {
    type Representation = P;

    type KeyFlavor = BinaryKeyDistribution;

    open spec fn spec_lwe_dimension(&self) -> LweDimension {
        LweDimension((self.lwe_len() - 1) as usize)
    }

    open spec fn spec_lwe_ciphertext_count(&self) -> LweCiphertextCount {
        LweCiphertextCount((self@.len() / (self.lwe_len() as nat)) as usize)
    }

    fn lwe_dimension(&self) -> (dimension: LweDimension) {
        proof {
            use_type_invariant(self);
        }
        LweDimension(self.lwe_size - 1)
    }

    fn lwe_ciphertext_count(&self) -> (count: LweCiphertextCount) {
        proof {
            use_type_invariant(self);
        }
        LweCiphertextCount(self.tensor.len() / self.lwe_size)
    }
}

/// A GLWE ciphertext that owns its coefficients.
pub struct GlweCiphertext<P: IntegerPrecision> {
    tensor: Vec<P::Raw>,
    polynomial_size: usize,
}

/// A 32-bit GLWE ciphertext.
pub type GlweCiphertext32 = GlweCiphertext<Precision32>;

/// A 64-bit GLWE ciphertext.
pub type GlweCiphertext64 = GlweCiphertext<Precision64>;

impl<P: IntegerPrecision> View for GlweCiphertext<P> {
    type V = Seq<P::Raw>;

    /// The coefficients of the ciphertext: the mask polynomials, then the body.
    closed spec fn view(&self) -> Seq<P::Raw> {
        self.tensor@
    }
}

impl<P: IntegerPrecision> GlweCiphertext<P> {
    #[verifier::type_invariant]
    spec fn well_formed(&self) -> bool {
        is_glwe_shaped(self.tensor@.len(), self.polynomial_size as nat)
    }

    /// The number of coefficients of each polynomial, as a plain number.
    pub closed spec fn polynomial_len(&self) -> usize {
        self.polynomial_size
    }

    /// Wraps `tensor` as a ciphertext of polynomials of `polynomial_size` coefficients.
    /// Nothing comes back unless `tensor` holds whole polynomials, and at least the body.
    pub fn from_container(tensor: Vec<P::Raw>, polynomial_size: PolynomialSize) -> (ciphertext:
        Option<Self>)
        ensures
            ciphertext is Some <==> is_glwe_shaped(tensor@.len(), polynomial_size.0 as nat),
            ciphertext matches Some(c) ==> c@ == tensor@ && c.polynomial_len()
                == polynomial_size.0,
    {
        if tensor.len() == 0 || polynomial_size.0 == 0 || tensor.len() % polynomial_size.0 != 0 {
            None
        } else {
            Some(GlweCiphertext { tensor, polynomial_size: polynomial_size.0 })
        }
    }

    /// The coefficients of the ciphertext, to read. They make up whole polynomials.
    pub fn as_slice(&self) -> (scalars: &[P::Raw])
        ensures
            scalars@ == self@,
            self@.len() <= usize::MAX,
            is_glwe_shaped(self@.len(), self.polynomial_len() as nat),
    {
        proof {
            use_type_invariant(self);
        }
        proof {
            assert(self.tensor@.len() == self.tensor.len());
        }
        self.tensor.as_slice()
    }
}

impl<P: IntegerPrecision> GlweCiphertextEntity for GlweCiphertext<P> {
    type Representation = P;

    type KeyFlavor = BinaryKeyDistribution;

    open spec fn spec_glwe_dimension(&self) -> GlweDimension {
        GlweDimension((self@.len() / (self.polynomial_len() as nat) - 1) as usize)
    }

    open spec fn spec_polynomial_size(&self) -> PolynomialSize {
        PolynomialSize(self.polynomial_len())
    }

    fn glwe_dimension(&self) -> (dimension: GlweDimension) {
        proof {
            use_type_invariant(self);
            lemma_whole_polynomials(self.tensor@.len(), self.polynomial_size as nat);
        }
        GlweDimension(self.tensor.len() / self.polynomial_size - 1)
    }

    fn polynomial_size(&self) -> (size: PolynomialSize) {
        PolynomialSize(self.polynomial_size)
    }
}

/// A vector of GLWE ciphertexts of one shape, stored one after the other.
pub struct GlweCiphertextVector<P: IntegerPrecision> {
    tensor: Vec<P::Raw>,
    glwe_size: usize,
    polynomial_size: usize,
}

/// A vector of 32-bit GLWE ciphertexts.
pub type GlweCiphertextVector32 = GlweCiphertextVector<Precision32>;

/// A vector of 64-bit GLWE ciphertexts.
pub type GlweCiphertextVector64 = GlweCiphertextVector<Precision64>;

impl<P: IntegerPrecision> View for GlweCiphertextVector<P> {
    type V = Seq<P::Raw>;

    /// The coefficients of the ciphertexts, ciphertext after ciphertext.
    closed spec fn view(&self) -> Seq<P::Raw> {
        self.tensor@
    }
}

impl<P: IntegerPrecision> GlweCiphertextVector<P> {
    #[verifier::type_invariant]
    spec fn well_formed(&self) -> bool {
        &&& self.glwe_size > 0
        &&& self.polynomial_size > 0
        &&& self.glwe_size * self.polynomial_size <= usize::MAX
        &&& self.tensor@.len() % ((self.glwe_size * self.polynomial_size) as nat) == 0
    }

    /// The number of polynomials of each ciphertext, mask and body, as a plain number.
    pub closed spec fn glwe_len(&self) -> usize {
        self.glwe_size
    }

    /// The number of coefficients of each polynomial, as a plain number.
    pub closed spec fn polynomial_len(&self) -> usize {
        self.polynomial_size
    }

    /// The number of scalars of each ciphertext: its polynomials, each of the polynomial size.
    pub open spec fn ciphertext_len(&self) -> nat {
        (self.glwe_len() * self.polynomial_len()) as nat
    }

    /// Wraps `tensor` as ciphertexts of `glwe_size` polynomials of `polynomial_size`
    /// coefficients each. Nothing comes back unless a ciphertext has at least one scalar, and
    /// no more than a `usize` can count, and `tensor` holds whole ciphertexts.
    pub fn from_container(
        tensor: Vec<P::Raw>,
        glwe_size: GlweSize,
        polynomial_size: PolynomialSize,
    ) -> (vector: Option<Self>)
        ensures
            vector is Some <==> {
                &&& glwe_size.0 > 0
                &&& polynomial_size.0 > 0
                &&& glwe_size.0 * polynomial_size.0 <= usize::MAX
                &&& tensor@.len() % ((glwe_size.0 * polynomial_size.0) as nat) == 0
            },
            vector matches Some(v) ==> {
                &&& v@ == tensor@
                &&& v.glwe_len() == glwe_size.0
                &&& v.polynomial_len() == polynomial_size.0
            },
    {
        if glwe_size.0 == 0 || polynomial_size.0 == 0 {
            return None;
        }
        let length: usize = tensor.len();
        proof {
            assert(glwe_size.0 * polynomial_size.0 > 0) by (nonlinear_arith)
                requires
                    glwe_size.0 > 0,
                    polynomial_size.0 > 0,
            ;
        }
        match glwe_size.0.checked_mul(polynomial_size.0) {
            None => None,
            Some(ciphertext_size) => {
                if length % ciphertext_size != 0 {
                    None
                } else {
                    Some(
                        GlweCiphertextVector {
                            tensor,
                            glwe_size: glwe_size.0,
                            polynomial_size: polynomial_size.0,
                        },
                    )
                }
            },
        }
    }

    /// The coefficients of the ciphertexts, to read. They make up whole ciphertexts, of at
    /// least one scalar each.
    pub fn as_slice(&self) -> (scalars: &[P::Raw])
        ensures
            scalars@ == self@,
            self@.len() <= usize::MAX,
            self.glwe_len() > 0,
            self.polynomial_len() > 0,
            self.ciphertext_len() <= usize::MAX,
            self@.len() % self.ciphertext_len() == 0,
    {
        proof {
            use_type_invariant(self);
            assert(self.tensor@.len() == self.tensor.len());
        }
        self.tensor.as_slice()
    }

    /// The number of scalars of each ciphertext. It is never zero.
    pub fn ciphertext_size(&self) -> (size: usize)
        ensures
            size == self.ciphertext_len(),
            size > 0,
            self.polynomial_len() > 0,
            size >= self.polynomial_len(),
            self@.len() % self.ciphertext_len() == 0,
    {
        proof {
            use_type_invariant(self);
            assert(self.glwe_size * self.polynomial_size >= self.polynomial_size)
                by (nonlinear_arith)
                requires
                    self.glwe_size >= 1,
                    self.polynomial_size >= 1,
            ;
        }
        self.glwe_size * self.polynomial_size
    }
}

impl<P: IntegerPrecision> GlweCiphertextVectorEntity for GlweCiphertextVector<P> {
    type Representation = P;

    type KeyFlavor = BinaryKeyDistribution;

    open spec fn spec_glwe_dimension(&self) -> GlweDimension {
        GlweDimension((self.glwe_len() - 1) as usize)
    }

    open spec fn spec_polynomial_size(&self) -> PolynomialSize {
        PolynomialSize(self.polynomial_len())
    }

    open spec fn spec_glwe_ciphertext_count(&self) -> GlweCiphertextCount {
        GlweCiphertextCount((self@.len() / self.ciphertext_len()) as usize)
    }

    fn glwe_dimension(&self) -> (dimension: GlweDimension) {
        proof {
            use_type_invariant(self);
        }
        GlweDimension(self.glwe_size - 1)
    }

    fn polynomial_size(&self) -> (size: PolynomialSize) {
        PolynomialSize(self.polynomial_size)
    }

    fn glwe_ciphertext_count(&self) -> (count: GlweCiphertextCount) {
        proof {
            use_type_invariant(self);
            assert(self.tensor@.len() == self.tensor.len());
            assert(self.glwe_size * self.polynomial_size > 0) by (nonlinear_arith)
                requires
                    self.glwe_size > 0,
                    self.polynomial_size > 0,
            ;
        }
        GlweCiphertextCount(self.tensor.len() / (self.glwe_size * self.polynomial_size))
    }
}

/// A buffer of whole polynomials, and at least one, holds at least one polynomial's worth of
/// scalars: the quotient is positive.
pub proof fn lemma_whole_polynomials(length: nat, polynomial_size: nat)
    requires
        is_glwe_shaped(length, polynomial_size),
    ensures
        length / polynomial_size >= 1,
        length == (length / polynomial_size) * polynomial_size,
        length >= polynomial_size,
{
    vstd::arithmetic::div_mod::lemma_fundamental_div_mod(length as int, polynomial_size as int);
    let quotient = length / polynomial_size;
    if quotient == 0 {
        assert(polynomial_size * quotient == 0) by (nonlinear_arith)
            requires
                quotient == 0,
        ;
    } else {
        assert(quotient * polynomial_size >= polynomial_size) by (nonlinear_arith)
            requires
                quotient >= 1,
                polynomial_size > 0,
        ;
    }
    assert(polynomial_size * quotient == quotient * polynomial_size) by (nonlinear_arith);
}

/// An LWE keyswitch key: for each scalar of the input key and each level of the decomposition,
/// one LWE ciphertext under the output key.
pub struct LweKeyswitchKey<P: IntegerPrecision> {
    tensor: Vec<P::Raw>,
    decomposition_base_log: usize,
    decomposition_level_count: usize,
    input_lwe_dimension: usize,
    output_lwe_dimension: usize,
}

/// A 32-bit LWE keyswitch key.
pub type LweKeyswitchKey32 = LweKeyswitchKey<Precision32>;

/// A 64-bit LWE keyswitch key.
pub type LweKeyswitchKey64 = LweKeyswitchKey<Precision64>;

/// The number of scalars of a keyswitch key: one LWE ciphertext of the output size for each
/// level of each scalar of the input key.
pub open spec fn keyswitch_key_len(
    input_lwe_dimension: nat,
    decomposition_level_count: nat,
    output_lwe_dimension: nat,
) -> nat {
    input_lwe_dimension * decomposition_level_count * (output_lwe_dimension + 1)
}

impl<P: IntegerPrecision> View for LweKeyswitchKey<P> {
    type V = Seq<P::Raw>;

    /// The scalars of the key, ciphertext after ciphertext.
    closed spec fn view(&self) -> Seq<P::Raw> {
        self.tensor@
    }
}

impl<P: IntegerPrecision> LweKeyswitchKey<P> {
    #[verifier::type_invariant]
    spec fn well_formed(&self) -> bool {
        self.tensor@.len() == keyswitch_key_len(
            self.input_lwe_dimension as nat,
            self.decomposition_level_count as nat,
            self.output_lwe_dimension as nat,
        )
    }

    /// Wraps `tensor` as a keyswitch key of the given shape. Nothing comes back unless
    /// `tensor` has exactly the length that the shape asks for.
    pub fn from_container(
        tensor: Vec<P::Raw>,
        decomposition_level_count: DecompositionLevelCount,
        decomposition_base_log: DecompositionBaseLog,
        input_lwe_dimension: LweDimension,
        output_lwe_dimension: LweDimension,
    ) -> (key: Option<Self>)
        ensures
            key is Some <==> tensor@.len() == keyswitch_key_len(
                input_lwe_dimension.0 as nat,
                decomposition_level_count.0 as nat,
                output_lwe_dimension.0 as nat,
            ),
            key matches Some(k) ==> {
                &&& k@ == tensor@
                &&& k.spec_input_lwe_dimension() == input_lwe_dimension
                &&& k.spec_output_lwe_dimension() == output_lwe_dimension
                &&& k.spec_decomposition_level_count() == decomposition_level_count
                &&& k.spec_decomposition_base_log() == decomposition_base_log
            },
    {
        let length = keyswitch_key_size(
            input_lwe_dimension,
            decomposition_level_count,
            output_lwe_dimension,
        );
        let actual: usize = tensor.len();
        match length {
            None => None,
            Some(expected) => {
                if expected == actual {
                    Some(
                        LweKeyswitchKey {
                            tensor,
                            decomposition_base_log: decomposition_base_log.0,
                            decomposition_level_count: decomposition_level_count.0,
                            input_lwe_dimension: input_lwe_dimension.0,
                            output_lwe_dimension: output_lwe_dimension.0,
                        },
                    )
                } else {
                    None
                }
            },
        }
    }

    /// The scalars of the key, to read. Their number is what the shape asks for.
    pub fn as_slice(&self) -> (scalars: &[P::Raw])
        ensures
            scalars@ == self@,
            self@.len() <= usize::MAX,
            self@.len() == keyswitch_key_len(
                self.spec_input_lwe_dimension().0 as nat,
                self.spec_decomposition_level_count().0 as nat,
                self.spec_output_lwe_dimension().0 as nat,
            ),
    {
        proof {
            use_type_invariant(self);
        }
        proof {
            assert(self.tensor@.len() == self.tensor.len());
        }
        self.tensor.as_slice()
    }
}

/// The number of scalars of a keyswitch key of the given shape, where a `usize` can hold it.
pub fn keyswitch_key_size(
    input_lwe_dimension: LweDimension,
    decomposition_level_count: DecompositionLevelCount,
    output_lwe_dimension: LweDimension,
) -> (size: Option<usize>)
    ensures
        size is Some <==> keyswitch_key_len(
            input_lwe_dimension.0 as nat,
            decomposition_level_count.0 as nat,
            output_lwe_dimension.0 as nat,
        ) <= usize::MAX,
        size matches Some(s) ==> s == keyswitch_key_len(
            input_lwe_dimension.0 as nat,
            decomposition_level_count.0 as nat,
            output_lwe_dimension.0 as nat,
        ),
{
    let rows: usize = input_lwe_dimension.0;
    let levels: usize = decomposition_level_count.0;
    let dimension: usize = output_lwe_dimension.0;
    if rows == 0 || levels == 0 {
        assert(rows * levels * (dimension + 1) == 0) by (nonlinear_arith)
            requires
                rows == 0 || levels == 0,
        ;
        return Some(0);
    }
    if dimension == usize::MAX {
        assert(rows * levels * (dimension + 1) > usize::MAX) by (nonlinear_arith)
            requires
                rows >= 1,
                levels >= 1,
                dimension == usize::MAX,
        ;
        return None;
    }
    let width: usize = dimension + 1;
    match rows.checked_mul(levels) {
        None => {
            assert(rows * levels * width > usize::MAX) by (nonlinear_arith)
                requires
                    rows * levels > usize::MAX,
                    width >= 1,
            ;
            None
        },
        Some(ciphertexts) => {
            match ciphertexts.checked_mul(width) {
                None => None,
                Some(scalars) => Some(scalars),
            }
        },
    }
}

impl<P: IntegerPrecision> LweKeyswitchKeyEntity for LweKeyswitchKey<P> {
    type Representation = P;

    type InputKeyFlavor = BinaryKeyDistribution;

    type OutputKeyFlavor = BinaryKeyDistribution;

    closed spec fn spec_input_lwe_dimension(&self) -> LweDimension {
        LweDimension(self.input_lwe_dimension)
    }

    closed spec fn spec_output_lwe_dimension(&self) -> LweDimension {
        LweDimension(self.output_lwe_dimension)
    }

    closed spec fn spec_decomposition_level_count(&self) -> DecompositionLevelCount {
        DecompositionLevelCount(self.decomposition_level_count)
    }

    closed spec fn spec_decomposition_base_log(&self) -> DecompositionBaseLog {
        DecompositionBaseLog(self.decomposition_base_log)
    }

    fn input_lwe_dimension(&self) -> (dimension: LweDimension) {
        LweDimension(self.input_lwe_dimension)
    }

    fn output_lwe_dimension(&self) -> (dimension: LweDimension) {
        LweDimension(self.output_lwe_dimension)
    }

    fn decomposition_level_count(&self) -> (count: DecompositionLevelCount) {
        DecompositionLevelCount(self.decomposition_level_count)
    }

    fn decomposition_base_log(&self) -> (base_log: DecompositionBaseLog) {
        DecompositionBaseLog(self.decomposition_base_log)
    }
}

} // verus!
