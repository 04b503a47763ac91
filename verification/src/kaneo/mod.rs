//! The Kaneo task tracker: its wire types, errors, client settings and the
//! rules applied to what it returns.
pub mod board;
pub mod client;
pub mod errors;
pub mod labels;
pub mod pages;
pub mod types;
