//! The engine capability interfaces, one per operation family.
//!
//! Each interface offers an operation twice. The checked entry point validates every
//! precondition up front and reports the first one that fails as a named error, or carries the
//! operation out. The unchecked entry point validates nothing: its preconditions are
//! obligations of the caller, stated in its `requires`.
use vstd::prelude::*;

pub mod destruction;
pub mod glwe_ciphertext_creation;
pub mod glwe_ciphertext_decryption;
pub mod glwe_ciphertext_inplace_decryption;
pub mod glwe_ciphertext_retrieval;
pub mod glwe_ciphertext_vector_decryption;
pub mod lwe_ciphertext_creation;
pub mod lwe_ciphertext_loading;
pub mod lwe_ciphertext_retrieval;
pub mod lwe_ciphertext_vector_inplace_encryption;
pub mod lwe_keyswitch_key_generation;

verus! {

/// What every engine is: an object that owns the state of one backend and implements
/// capability interfaces over it.
pub trait AbstractEngine: Sized {

}

} // verus!
