//! The core backend: its entities, and the engine that implements every capability interface
//! over them.
pub mod backend;
pub mod engines;
pub mod entities;
pub mod views;
