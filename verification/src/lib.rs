//! A two-party escrow trade: the request codec, the persisted trade record and
//! the processor that validates every account reference and decides, step by
//! step, which calls the host must make to the token service.
pub mod address;
pub mod bytes;
pub mod error;
pub mod instruction;
pub mod state;
pub mod account;
pub mod host;
pub mod token;
pub mod custody;
pub mod step;
pub mod facts;
pub mod processor;
pub mod laws;
