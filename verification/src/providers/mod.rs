//! The provider-neutral integration model, the mapping into it, and the
//! client chosen for a provider.
pub mod client;
pub mod mapping;
pub mod model;
