pub mod cli;
pub mod client;
pub mod error;
pub mod strmap;
pub mod template;
pub mod terraform;
pub mod text;
pub mod utils;
