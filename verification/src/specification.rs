//! The capability interfaces: what an entity exposes and what an engine offers, independent of
//! the backend that implements them.
pub mod engines;
pub mod entities;
