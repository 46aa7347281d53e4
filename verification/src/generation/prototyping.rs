//! Turning raw integers into prototypes, and back.
pub mod glwe_ciphertext_view;
pub mod lwe_ciphertext_view;
