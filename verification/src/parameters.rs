//! Shape and noise parameters.
//!
//! Every entity is described by a handful of sizes, each wrapped in a type of its own by
//! `concrete_commons`. They are plain wrappers around one public `usize`, so the library reads
//! and builds them directly; only the conversions between a dimension and a size are calls
//! into `concrete_commons`, whose behaviour is stated here.
use concrete_commons::dispersion::Variance;
use concrete_commons::parameters::{
    DecompositionBaseLog, DecompositionLevelCount, GlweCiphertextCount, GlweDimension, GlweSize,
    LweCiphertextCount, LweCiphertextIndex, LweDimension, LweSize, PlaintextCount, PolynomialSize,
};
use vstd::prelude::*;

verus! {

/// `concrete_commons::parameters::PolynomialSize`: the number of coefficients of a polynomial.
#[verifier::external_type_specification]
pub struct ExPolynomialSize(PolynomialSize);

/// `concrete_commons::parameters::GlweDimension`: the number of polynomials of a GLWE mask.
#[verifier::external_type_specification]
pub struct ExGlweDimension(GlweDimension);

/// `concrete_commons::parameters::GlweSize`: the number of polynomials of a GLWE ciphertext,
/// mask and body.
#[verifier::external_type_specification]
pub struct ExGlweSize(GlweSize);

/// `concrete_commons::parameters::LweDimension`: the number of scalars of an LWE mask.
#[verifier::external_type_specification]
pub struct ExLweDimension(LweDimension);

/// `concrete_commons::parameters::LweSize`: the number of scalars of an LWE ciphertext, mask
/// and body.
#[verifier::external_type_specification]
pub struct ExLweSize(LweSize);

/// `concrete_commons::parameters::PlaintextCount`: the number of plaintexts in a vector.
#[verifier::external_type_specification]
pub struct ExPlaintextCount(PlaintextCount);

/// `concrete_commons::parameters::LweCiphertextCount`: the number of ciphertexts in an LWE
/// ciphertext vector.
#[verifier::external_type_specification]
pub struct ExLweCiphertextCount(LweCiphertextCount);

/// `concrete_commons::parameters::GlweCiphertextCount`: the number of ciphertexts in a GLWE
/// ciphertext vector.
#[verifier::external_type_specification]
pub struct ExGlweCiphertextCount(GlweCiphertextCount);

/// `concrete_commons::parameters::LweCiphertextIndex`: the position of a ciphertext in an LWE
/// ciphertext vector.
#[verifier::external_type_specification]
pub struct ExLweCiphertextIndex(LweCiphertextIndex);

/// `concrete_commons::parameters::DecompositionBaseLog`: the logarithm of the base of a
/// decomposition.
#[verifier::external_type_specification]
pub struct ExDecompositionBaseLog(DecompositionBaseLog);

/// `concrete_commons::parameters::DecompositionLevelCount`: the number of levels of a
/// decomposition.
#[verifier::external_type_specification]
pub struct ExDecompositionLevelCount(DecompositionLevelCount);

/// `concrete_commons::dispersion::Variance`: the variance of a noise distribution. The library
/// never looks inside; it hands the value on to the numeric backend.
#[verifier::external_type_specification]
#[verifier::external_body]
pub struct ExVariance(Variance);

/// `GlweDimension::to_glwe_size` adds the body polynomial to the mask: it returns the
/// dimension plus one. The largest dimension is left out, on which the addition overflows.
pub assume_specification[ GlweDimension::to_glwe_size ](dimension: &GlweDimension) -> (size:
    GlweSize)
    requires
        dimension.0 < usize::MAX,
    ensures
        size.0 == dimension.0 + 1,
;

/// `LweDimension::to_lwe_size` adds the body scalar to the mask: it returns the dimension plus
/// one. The largest dimension is left out, on which the addition overflows.
pub assume_specification[ LweDimension::to_lwe_size ](dimension: &LweDimension) -> (size: LweSize)
    requires
        dimension.0 < usize::MAX,
    ensures
        size.0 == dimension.0 + 1,
;

} // verus!
