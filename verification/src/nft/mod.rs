pub mod error;
pub mod metaplex_adapter;
pub mod program;
pub mod state;
pub mod utils;
