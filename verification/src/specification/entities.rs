//! What every entity exposes, whatever backend built it.
//!
//! An entity carries two compatibility tags, the precision it is represented in and the
//! distribution of the key it belongs to, and read-only accessors for its shape. The shape never
//! changes after construction. Each accessor comes with a specification function of the same
//! meaning, so that the contracts of the engines can speak of shapes.
use crate::markers::{IntegerPrecision, KeyDistributionMarker};
use concrete_commons::parameters::{
    DecompositionBaseLog, DecompositionLevelCount, GlweCiphertextCount, GlweDimension,
    LweCiphertextCount, LweDimension, PlaintextCount, PolynomialSize,
};
use vstd::prelude::*;

verus! {

/// A contiguous buffer of scalars that a ciphertext can be made of.
pub trait Container {
    /// The number of scalars that the container holds.
    spec fn spec_container_len(&self) -> nat;
}

/// An entity that is made of a container: it holds the container that it was created from,
/// and nothing else holds its scalars.
pub trait ContainerEntity<C> {
    /// The container that the entity is made of.
    spec fn spec_container(&self) -> C;
}

/// A vector of plaintexts.
pub trait PlaintextVectorEntity {
    /// The precision the plaintexts are represented in.
    type Representation: IntegerPrecision;

    /// The number of plaintexts in the vector.
    spec fn spec_plaintext_count(&self) -> PlaintextCount;

    /// The number of plaintexts in the vector.
    fn plaintext_count(&self) -> (count: PlaintextCount)
        ensures
            count == self.spec_plaintext_count(),
    ;
}

/// An LWE secret key.
pub trait LweSecretKeyEntity {
    /// The precision the key is represented in.
    type Representation: IntegerPrecision;

    /// The distribution the key was drawn from.
    type KeyFlavor: KeyDistributionMarker;

    /// The number of scalars of the key.
    spec fn spec_lwe_dimension(&self) -> LweDimension;

    /// The number of scalars of the key.
    fn lwe_dimension(&self) -> (dimension: LweDimension)
        ensures
            dimension == self.spec_lwe_dimension(),
    ;
}

/// A GLWE secret key.
pub trait GlweSecretKeyEntity {
    /// The precision the key is represented in.
    type Representation: IntegerPrecision;

    /// The distribution the key was drawn from.
    type KeyFlavor: KeyDistributionMarker;

    /// The number of polynomials of the key.
    spec fn spec_glwe_dimension(&self) -> GlweDimension;

    /// The number of coefficients of each polynomial of the key.
    spec fn spec_polynomial_size(&self) -> PolynomialSize;

    /// The number of polynomials of the key.
    fn glwe_dimension(&self) -> (dimension: GlweDimension)
        ensures
            dimension == self.spec_glwe_dimension(),
    ;

    /// The number of coefficients of each polynomial of the key.
    fn polynomial_size(&self) -> (size: PolynomialSize)
        ensures
            size == self.spec_polynomial_size(),
    ;
}

/// An LWE ciphertext.
pub trait LweCiphertextEntity {
    /// The precision the ciphertext is represented in.
    type Representation: IntegerPrecision;

    /// The distribution of the key the ciphertext belongs to.
    type KeyFlavor: KeyDistributionMarker;

    /// The number of scalars of the mask of the ciphertext.
    spec fn spec_lwe_dimension(&self) -> LweDimension;

    /// The number of scalars of the mask of the ciphertext.
    fn lwe_dimension(&self) -> (dimension: LweDimension)
        ensures
            dimension == self.spec_lwe_dimension(),
    ;
}

/// A vector of LWE ciphertexts of one dimension.
pub trait LweCiphertextVectorEntity {
    /// The precision the ciphertexts are represented in.
    type Representation: IntegerPrecision;

    /// The distribution of the key the ciphertexts belong to.
    type KeyFlavor: KeyDistributionMarker;

    /// The number of scalars of the mask of each ciphertext.
    spec fn spec_lwe_dimension(&self) -> LweDimension;

    /// The number of ciphertexts in the vector.
    spec fn spec_lwe_ciphertext_count(&self) -> LweCiphertextCount;

    /// The number of scalars of the mask of each ciphertext.
    fn lwe_dimension(&self) -> (dimension: LweDimension)
        ensures
            dimension == self.spec_lwe_dimension(),
    ;

    /// The number of ciphertexts in the vector.
    fn lwe_ciphertext_count(&self) -> (count: LweCiphertextCount)
        ensures
            count == self.spec_lwe_ciphertext_count(),
    ;
}

/// A GLWE ciphertext.
pub trait GlweCiphertextEntity {
    /// The precision the ciphertext is represented in.
    type Representation: IntegerPrecision;

    /// The distribution of the key the ciphertext belongs to.
    type KeyFlavor: KeyDistributionMarker;

    /// The number of polynomials of the mask of the ciphertext.
    spec fn spec_glwe_dimension(&self) -> GlweDimension;

    /// The number of coefficients of each polynomial of the ciphertext.
    spec fn spec_polynomial_size(&self) -> PolynomialSize;

    /// The number of polynomials of the mask of the ciphertext.
    fn glwe_dimension(&self) -> (dimension: GlweDimension)
        ensures
            dimension == self.spec_glwe_dimension(),
    ;

    /// The number of coefficients of each polynomial of the ciphertext.
    fn polynomial_size(&self) -> (size: PolynomialSize)
        ensures
            size == self.spec_polynomial_size(),
    ;
}

/// A vector of GLWE ciphertexts of one shape.
pub trait GlweCiphertextVectorEntity {
    /// The precision the ciphertexts are represented in.
    type Representation: IntegerPrecision;

    /// The distribution of the key the ciphertexts belong to.
    type KeyFlavor: KeyDistributionMarker;

    /// The number of polynomials of the mask of each ciphertext.
    spec fn spec_glwe_dimension(&self) -> GlweDimension;

    /// The number of coefficients of each polynomial.
    spec fn spec_polynomial_size(&self) -> PolynomialSize;

    /// The number of ciphertexts in the vector.
    spec fn spec_glwe_ciphertext_count(&self) -> GlweCiphertextCount;

    /// The number of polynomials of the mask of each ciphertext.
    fn glwe_dimension(&self) -> (dimension: GlweDimension)
        ensures
            dimension == self.spec_glwe_dimension(),
    ;

    /// The number of coefficients of each polynomial.
    fn polynomial_size(&self) -> (size: PolynomialSize)
        ensures
            size == self.spec_polynomial_size(),
    ;

    /// The number of ciphertexts in the vector.
    fn glwe_ciphertext_count(&self) -> (count: GlweCiphertextCount)
        ensures
            count == self.spec_glwe_ciphertext_count(),
    ;
}

/// An LWE keyswitch key.
pub trait LweKeyswitchKeyEntity {
    /// The precision the key is represented in.
    type Representation: IntegerPrecision;

    /// The distribution of the key that ciphertexts are switched from.
    type InputKeyFlavor: KeyDistributionMarker;

    /// The distribution of the key that ciphertexts are switched to.
    type OutputKeyFlavor: KeyDistributionMarker;

    /// The dimension of the key that ciphertexts are switched from.
    spec fn spec_input_lwe_dimension(&self) -> LweDimension;

    /// The dimension of the key that ciphertexts are switched to.
    spec fn spec_output_lwe_dimension(&self) -> LweDimension;

    /// The number of levels of the decomposition.
    spec fn spec_decomposition_level_count(&self) -> DecompositionLevelCount;

    /// The logarithm of the base of the decomposition.
    spec fn spec_decomposition_base_log(&self) -> DecompositionBaseLog;

    /// The dimension of the key that ciphertexts are switched from.
    fn input_lwe_dimension(&self) -> (dimension: LweDimension)
        ensures
            dimension == self.spec_input_lwe_dimension(),
    ;

    /// The dimension of the key that ciphertexts are switched to.
    fn output_lwe_dimension(&self) -> (dimension: LweDimension)
        ensures
            dimension == self.spec_output_lwe_dimension(),
    ;

    /// The number of levels of the decomposition.
    fn decomposition_level_count(&self) -> (count: DecompositionLevelCount)
        ensures
            count == self.spec_decomposition_level_count(),
    ;

    /// The logarithm of the base of the decomposition.
    fn decomposition_base_log(&self) -> (base_log: DecompositionBaseLog)
        ensures
            base_log == self.spec_decomposition_base_log(),
    ;
}

} // verus!
