pub mod error;
pub mod asserts;
pub mod utils;
