pub mod server;
