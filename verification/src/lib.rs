pub mod api;
pub mod bytes;
pub mod chill_cli;
pub mod chill_program;
pub mod cli;
pub mod grpc_service;
pub mod instruction;
pub mod nft;
pub mod pda;
pub mod program;
pub mod program_error;
pub mod pubkey;
pub mod staking;
pub mod token;
pub mod wallet;
