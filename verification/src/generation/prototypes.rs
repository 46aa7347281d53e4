//! Prototypes: backend-agnostic stand-ins for entities.
//!
//! A fixture works on prototypes and turns them into the entities of the engine under test only
//! around the call that it exercises.
pub mod glwe_ciphertext_view;
pub mod lwe_ciphertext_view;
