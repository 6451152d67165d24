pub mod error;
pub mod games;
pub mod registry;
pub mod types;
pub mod utils;
