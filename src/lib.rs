//! Chain-identifier registry and argument coercion helpers for a native
//! module that is called from a dynamically typed host.
pub mod args;
pub mod chain;
pub mod error;
pub mod normalize;

pub use args::{args_get_number, args_get_str, HostValue};
pub use chain::{blockchain_from_code, blockchain_to_code, Blockchain};
pub use error::StateManagerError;
pub use normalize::{if_not_empty, if_time, UtcInstant};
