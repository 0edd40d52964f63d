pub mod error;
pub mod program;
pub mod state;
pub mod utils;
