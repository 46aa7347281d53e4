//! Ciphertext views: ciphertexts that alias a buffer in caller memory instead of owning one.
//!
//! A view is a handle and a shape. Making one copies nothing and frees nothing, and so does
//! taking the handle back out. A read-only view holds a shared handle, which other views may
//! hold too; a mutable view holds an exclusive one and is the only accessor of its region.
use crate::implementation::entities::{is_glwe_shaped, lemma_whole_polynomials};
use crate::markers::{BinaryKeyDistribution, IntegerPrecision, Precision32, Precision64};
use crate::memory::{BufferMut, BufferRef};
use crate::specification::entities::{ContainerEntity, GlweCiphertextEntity, LweCiphertextEntity};
use concrete_commons::parameters::{GlweDimension, LweDimension, PolynomialSize};
use std::marker::PhantomData;
use vstd::prelude::*;

verus! {

/// A read-only view of an LWE ciphertext.
pub struct LweCiphertextView<P: IntegerPrecision> {
    container: BufferRef<P::Raw>,
    precision: PhantomData<P>,
}

/// A read-only view of a 32-bit LWE ciphertext.
pub type LweCiphertextView32 = LweCiphertextView<Precision32>;

/// A read-only view of a 64-bit LWE ciphertext.
pub type LweCiphertextView64 = LweCiphertextView<Precision64>;

impl<P: IntegerPrecision> ContainerEntity<BufferRef<P::Raw>> for LweCiphertextView<P> {
    closed spec fn spec_container(&self) -> BufferRef<P::Raw> {
        self.container
    }
}

impl<P: IntegerPrecision> LweCiphertextView<P> {
    #[verifier::type_invariant]
    spec fn well_formed(&self) -> bool {
        self.container.spec_len() > 0
    }

    /// A view of the ciphertext stored in `container`.
    pub(crate) fn from_container(container: BufferRef<P::Raw>) -> (view: Self)
        requires
            container.spec_len() > 0,
        ensures
            view.spec_container() == container,
    {
        LweCiphertextView { container, precision: PhantomData }
    }

    /// The buffer the view aliases. It is never empty.
    pub fn container(&self) -> (container: BufferRef<P::Raw>)
        ensures
            container == self.spec_container(),
            container.spec_len() > 0,
    {
        proof {
            use_type_invariant(self);
        }
        self.container
    }

    /// Consumes the view and returns the buffer it aliased.
    pub(crate) fn into_container(self) -> (container: BufferRef<P::Raw>)
        ensures
            container == self.spec_container(),
            container.spec_len() > 0,
    {
        proof {
            use_type_invariant(&self);
        }
        self.container
    }
}

impl<P: IntegerPrecision> LweCiphertextEntity for LweCiphertextView<P> {
    type Representation = P;

    type KeyFlavor = BinaryKeyDistribution;

    open spec fn spec_lwe_dimension(&self) -> LweDimension {
        LweDimension((self.spec_container().spec_len() - 1) as usize)
    }

    fn lwe_dimension(&self) -> (dimension: LweDimension) {
        proof {
            use_type_invariant(self);
        }
        LweDimension(self.container.len() - 1)
    }
}

/// A mutable view of an LWE ciphertext.
pub struct LweCiphertextMutView<P: IntegerPrecision> {
    container: BufferMut<P::Raw>,
    precision: PhantomData<P>,
}

/// A mutable view of a 32-bit LWE ciphertext.
pub type LweCiphertextMutView32 = LweCiphertextMutView<Precision32>;

/// A mutable view of a 64-bit LWE ciphertext.
pub type LweCiphertextMutView64 = LweCiphertextMutView<Precision64>;

impl<P: IntegerPrecision> ContainerEntity<BufferMut<P::Raw>> for LweCiphertextMutView<P> {
    closed spec fn spec_container(&self) -> BufferMut<P::Raw> {
        self.container
    }
}

impl<P: IntegerPrecision> LweCiphertextMutView<P> {
    #[verifier::type_invariant]
    spec fn well_formed(&self) -> bool {
        self.container.spec_len() > 0
    }

    /// A view of the ciphertext stored in `container`.
    pub(crate) fn from_container(container: BufferMut<P::Raw>) -> (view: Self)
        requires
            container.spec_len() > 0,
        ensures
            view.spec_container() == container,
    {
        LweCiphertextMutView { container, precision: PhantomData }
    }

    /// The region the view aliases.
    pub fn region(&self) -> (region: usize)
        ensures
            region == self.spec_container().spec_region(),
    {
        self.container.region()
    }

    /// Consumes the view and returns the buffer it aliased.
    pub(crate) fn into_container(self) -> (container: BufferMut<P::Raw>)
        ensures
            container == self.spec_container(),
            container.spec_len() > 0,
    {
        proof {
            use_type_invariant(&self);
        }
        self.container
    }
}

impl<P: IntegerPrecision> LweCiphertextEntity for LweCiphertextMutView<P> {
    type Representation = P;

    type KeyFlavor = BinaryKeyDistribution;

    open spec fn spec_lwe_dimension(&self) -> LweDimension {
        LweDimension((self.spec_container().spec_len() - 1) as usize)
    }

    fn lwe_dimension(&self) -> (dimension: LweDimension) {
        proof {
            use_type_invariant(self);
        }
        LweDimension(self.container.len() - 1)
    }
}

/// A read-only view of a GLWE ciphertext.
pub struct GlweCiphertextView<P: IntegerPrecision> {
    container: BufferRef<P::Raw>,
    polynomial_size: usize,
    precision: PhantomData<P>,
}

/// A read-only view of a 32-bit GLWE ciphertext.
pub type GlweCiphertextView32 = GlweCiphertextView<Precision32>;

/// A read-only view of a 64-bit GLWE ciphertext.
pub type GlweCiphertextView64 = GlweCiphertextView<Precision64>;

impl<P: IntegerPrecision> ContainerEntity<BufferRef<P::Raw>> for GlweCiphertextView<P> {
    closed spec fn spec_container(&self) -> BufferRef<P::Raw> {
        self.container
    }
}

impl<P: IntegerPrecision> GlweCiphertextView<P> {
    #[verifier::type_invariant]
    spec fn well_formed(&self) -> bool {
        is_glwe_shaped(self.container.spec_len() as nat, self.polynomial_size as nat)
    }

    /// The number of coefficients of each polynomial, as a plain number.
    pub closed spec fn polynomial_len(&self) -> usize {
        self.polynomial_size
    }

    /// A view of the ciphertext stored in `container`, as polynomials of `polynomial_size`
    /// coefficients.
    pub(crate) fn from_container(container: BufferRef<P::Raw>, polynomial_size: PolynomialSize) -> (view:
        Self)
        requires
            is_glwe_shaped(container.spec_len() as nat, polynomial_size.0 as nat),
        ensures
            view.spec_container() == container,
            view.polynomial_len() == polynomial_size.0,
    {
        GlweCiphertextView { container, polynomial_size: polynomial_size.0, precision: PhantomData }
    }

    /// The buffer the view aliases. It holds whole polynomials, and at least one.
    pub fn container(&self) -> (container: BufferRef<P::Raw>)
        ensures
            container == self.spec_container(),
            is_glwe_shaped(container.spec_len() as nat, self.polynomial_len() as nat),
    {
        proof {
            use_type_invariant(self);
        }
        self.container
    }

    /// Consumes the view and returns the buffer it aliased.
    pub(crate) fn into_container(self) -> (container: BufferRef<P::Raw>)
        ensures
            container == self.spec_container(),
            is_glwe_shaped(container.spec_len() as nat, self.polynomial_len() as nat),
    {
        proof {
            use_type_invariant(&self);
        }
        self.container
    }
}

impl<P: IntegerPrecision> GlweCiphertextEntity for GlweCiphertextView<P> {
    type Representation = P;

    type KeyFlavor = BinaryKeyDistribution;

    open spec fn spec_glwe_dimension(&self) -> GlweDimension {
        GlweDimension((self.spec_container().spec_len() as nat / (self.polynomial_len() as nat) - 1) as usize)
    }

    open spec fn spec_polynomial_size(&self) -> PolynomialSize {
        PolynomialSize(self.polynomial_len())
    }

    fn glwe_dimension(&self) -> (dimension: GlweDimension) {
        proof {
            use_type_invariant(self);
            lemma_whole_polynomials(self.container.spec_len() as nat, self.polynomial_size as nat);
        }
        GlweDimension(self.container.len() / self.polynomial_size - 1)
    }

    fn polynomial_size(&self) -> (size: PolynomialSize) {
        PolynomialSize(self.polynomial_size)
    }
}

/// A mutable view of a GLWE ciphertext.
pub struct GlweCiphertextMutView<P: IntegerPrecision> {
    container: BufferMut<P::Raw>,
    polynomial_size: usize,
    precision: PhantomData<P>,
}

/// A mutable view of a 32-bit GLWE ciphertext.
pub type GlweCiphertextMutView32 = GlweCiphertextMutView<Precision32>;

/// A mutable view of a 64-bit GLWE ciphertext.
pub type GlweCiphertextMutView64 = GlweCiphertextMutView<Precision64>;

impl<P: IntegerPrecision> ContainerEntity<BufferMut<P::Raw>> for GlweCiphertextMutView<P> {
    closed spec fn spec_container(&self) -> BufferMut<P::Raw> {
        self.container
    }
}

impl<P: IntegerPrecision> GlweCiphertextMutView<P> {
    #[verifier::type_invariant]
    spec fn well_formed(&self) -> bool {
        is_glwe_shaped(self.container.spec_len() as nat, self.polynomial_size as nat)
    }

    /// The number of coefficients of each polynomial, as a plain number.
    pub closed spec fn polynomial_len(&self) -> usize {
        self.polynomial_size
    }

    /// A view of the ciphertext stored in `container`, as polynomials of `polynomial_size`
    /// coefficients.
    pub(crate) fn from_container(container: BufferMut<P::Raw>, polynomial_size: PolynomialSize) -> (view:
        Self)
        requires
            is_glwe_shaped(container.spec_len() as nat, polynomial_size.0 as nat),
        ensures
            view.spec_container() == container,
            view.polynomial_len() == polynomial_size.0,
    {
        GlweCiphertextMutView {
            container,
            polynomial_size: polynomial_size.0,
            precision: PhantomData,
        }
    }

    /// The region the view aliases.
    pub fn region(&self) -> (region: usize)
        ensures
            region == self.spec_container().spec_region(),
    {
        self.container.region()
    }

    /// Consumes the view and returns the buffer it aliased.
    pub(crate) fn into_container(self) -> (container: BufferMut<P::Raw>)
        ensures
            container == self.spec_container(),
            is_glwe_shaped(container.spec_len() as nat, self.polynomial_len() as nat),
    {
        proof {
            use_type_invariant(&self);
        }
        self.container
    }
}

impl<P: IntegerPrecision> GlweCiphertextEntity for GlweCiphertextMutView<P> {
    type Representation = P;

    type KeyFlavor = BinaryKeyDistribution;

    open spec fn spec_glwe_dimension(&self) -> GlweDimension {
        GlweDimension((self.spec_container().spec_len() as nat / (self.polynomial_len() as nat) - 1) as usize)
    }

    open spec fn spec_polynomial_size(&self) -> PolynomialSize {
        PolynomialSize(self.polynomial_len())
    }

    fn glwe_dimension(&self) -> (dimension: GlweDimension) {
        proof {
            use_type_invariant(self);
            lemma_whole_polynomials(self.container.spec_len() as nat, self.polynomial_size as nat);
        }
        GlweDimension(self.container.len() / self.polynomial_size - 1)
    }

    fn polynomial_size(&self) -> (size: PolynomialSize) {
        PolynomialSize(self.polynomial_size)
    }
}

} // verus!
