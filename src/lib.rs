//! State-transition logic of a two-party token escrow: instruction decoding,
//! the fixed-layout escrow record, the program-derived custody authority, and
//! the processor that validates accounts and plans the token-program calls.

pub mod bytes;
pub mod error;
pub mod instruction;
pub mod state;
pub mod token;
pub mod authority;
pub mod processor;
