//! The core engine and its implementations of the capability interfaces.
use crate::specification::engines::AbstractEngine;
use vstd::prelude::*;

pub mod destruction;
pub mod glwe_ciphertext_creation;
pub mod glwe_ciphertext_decryption;
pub mod glwe_ciphertext_inplace_decryption;
pub mod glwe_ciphertext_retrieval;
pub mod glwe_ciphertext_vector_decryption;
pub mod lwe_ciphertext_creation;
pub mod lwe_ciphertext_loading;
pub mod lwe_ciphertext_retrieval;
pub mod lwe_ciphertext_vector_inplace_encryption;
pub mod lwe_keyswitch_key_generation;

verus! {

/// The engine of the core backend.
///
/// It owns the numeric backend, and with it the randomness generator that encryption and key
/// generation consume. One engine serves one caller at a time.
pub struct CoreEngine<B> {
    backend: B,
}

impl<B> CoreEngine<B> {
    /// The numeric backend of the engine.
    pub closed spec fn spec_backend(&self) -> B {
        self.backend
    }

    /// An engine over `backend`.
    pub fn new(backend: B) -> (engine: Self)
        ensures
            engine.spec_backend() == backend,
    {
        CoreEngine { backend }
    }

    /// The numeric backend, to call.
    pub(crate) fn backend_mut(&mut self) -> (backend: &mut B)
        ensures
            *backend == old(self).spec_backend(),
            final(self).spec_backend() == *final(backend),
    {
        &mut self.backend
    }

    /// The numeric backend, to read.
    pub fn backend(&self) -> (backend: &B)
        ensures
            *backend == self.spec_backend(),
    {
        &self.backend
    }
}

impl<B> AbstractEngine for CoreEngine<B> {

}

} // verus!
