//! Teams: their model, validation, who may do what, and invitations.
pub mod access;
pub mod errors;
pub mod invites;
pub mod model;
pub mod repository;
pub mod settings;
