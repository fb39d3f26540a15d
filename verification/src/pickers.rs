//! Composer pickers: repository, branch, model and traits.

pub mod browse;
pub mod draft;
pub mod repos;
pub mod state;
pub mod keys;
pub mod views;
