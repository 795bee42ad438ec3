//! A hashed-timelock escrow ledger.
//!
//! A sender locks a positive amount of some token for a receiver, under a
//! hash commitment and a deadline. The receiver may withdraw the amount by
//! revealing the secret behind the commitment; once the deadline has passed
//! unclaimed, the sender may cancel and take the amount back. Exactly one of
//! the two resolutions can ever succeed for a given escrow.
//!
//! The ledger itself is a pure state machine: the clock reading and the
//! sender's token balance come in as arguments, and every successful
//! operation hands back the token transfer that the caller must perform.
//! Only the Keccak-256 digest is taken from the Soroban SDK, behind a single
//! trusted wrapper.

mod bytes;

pub mod escrow;
pub mod hashing;
pub mod laws;
pub mod ledger;

pub use escrow::Address;
pub use escrow::Escrow;
pub use escrow::EscrowView;
pub use escrow::HTLCError;
pub use escrow::Transfer;
pub use ledger::HTLCEscrow;
pub use ledger::LedgerView;
