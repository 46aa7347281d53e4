//! Turning prototypes into the entities of an engine, and back.
//!
//! Synthesizing a view copies the scalars of the prototype into a fresh region of the maker's
//! memory and creates a view over it. From then on the region is the maker's to reclaim, once:
//! by unsynthesizing the view, which takes the buffer back into a prototype, or by destroying
//! it. A mutable view is the only accessor of its region, so destroying it always reclaims. A
//! read-only view may have aliases, which the maker cannot see: whoever destroys one says
//! whether this destruction is the one that reclaims.
pub mod glwe_ciphertext_view;
pub mod lwe_ciphertext_view;
