//! The deterministic core of the kona proof program.

pub mod assemble;
pub mod block_query;
pub mod block_read;
pub mod chain_provider;
pub mod channel_reader;
pub mod config;
pub mod driver;
pub mod driver_laws;
pub mod errors;
pub mod executor;
pub mod header;
pub mod hint;
pub mod oracle;
pub mod primitives;
pub mod receipt;
pub mod rpc;
pub mod sync;
pub mod transaction;
pub mod walk;
