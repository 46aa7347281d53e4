//! Destroying an entity.
use crate::specification::engines::AbstractEngine;
use vstd::prelude::*;

verus! {

/// Why an entity could not be destroyed. Destruction validates nothing: the one reason left
/// is a failure of the backend itself.
#[derive(Debug, Clone, Copy, PartialEq, Eq, Structural)]
pub enum DestructionError {
    /// The backend failed for a reason of its own.
    Engine,
}

impl DestructionError {
    /// The error, in words.
    pub fn message(&self) -> (text: &'static str)
        ensures
            text@ == "Error occurred in the engine."@,
    {
        "Error occurred in the engine."
    }
}

/// Engines that destroy an entity.
///
/// Destroying an entity releases what the entity itself owns. A view owns nothing: the buffer
/// it aliases belongs to the caller and is left alone, alive and unchanged.
pub trait DestructionEngine<Entity>: AbstractEngine {
    /// Consumes `entity`. The engine is left as it was.
    fn destroy(&mut self, entity: Entity) -> (r: Result<(), DestructionError>)
        ensures
            r is Ok,
            *final(self) == *old(self),
    ;

    /// Consumes `entity` without validating anything.
    fn destroy_unchecked(&mut self, entity: Entity)
        ensures
            *final(self) == *old(self),
    ;
}

} // verus!
