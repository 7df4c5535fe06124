//! A minimal on-chain greeting counter.
//!
//! One account stores one record: an unsigned 32-bit counter, encoded as its
//! four little-endian bytes. Each invocation decodes an increment request
//! from the instruction payload, checks that the target account is owned by
//! the running program, adds the requested amount to the stored counter with
//! unsigned 32-bit wraparound, and writes the updated record back in place.

pub mod codec;
pub mod error;
pub mod handler;

pub use codec::GreetingAccount;
pub use error::ErrorKind;
pub use handler::{process_instruction, Account, Pubkey};
