pub mod engine;
pub mod error;
pub mod fixtures;
pub mod laws;
pub mod registry;
pub mod value;
