//! Tasks: their model, and the rules of the task store.

pub mod model;
pub mod store;
