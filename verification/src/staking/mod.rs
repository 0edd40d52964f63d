pub mod error;
pub mod lazy_vector;
pub mod program;
pub mod state;
pub mod utils;
pub mod reward_laws;
