//! Engines over LWE and GLWE ciphertexts, the views that let a ciphertext alias caller-owned
//! memory, and the fixtures that exercise both.
pub mod fixture;
pub mod generation;
pub mod implementation;
pub mod markers;
pub mod memory;
pub mod parameters;
pub mod raw;
pub mod specification;
