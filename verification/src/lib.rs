//! Task-tracker integration, project configuration and team rules of the
//! Vulcanum control plane, with their contracts.
pub mod kaneo;
pub mod project_configs;
pub mod providers;
pub mod task_board;
pub mod teams;
pub mod text;
