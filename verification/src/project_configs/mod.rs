//! Project configurations: the model, and the rules that resolve columns,
//! repositories and effective settings.
pub mod errors;
pub mod model;
pub mod repository;
pub mod service;
