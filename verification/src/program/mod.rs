pub mod state;
pub mod instruction;
pub mod processor;
