pub mod pda;
pub mod cli;
pub mod client;
pub mod keys;
