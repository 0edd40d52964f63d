pub mod error;
pub mod pda;
pub mod state;
pub mod instruction;
