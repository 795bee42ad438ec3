//! Escrow records, the errors, and the mathematical model of every
//! operation on the ledger.

use vstd::prelude::*;

use crate::bytes::clone_bytes;
use crate::hashing::keccak_of;

verus! {

/// A party or token contract, named by an opaque numeric identity.
#[derive(Clone, Copy, PartialEq, Eq, Structural, Debug)]
pub struct Address {
    pub id: u64,
}

/// Why a call was rejected. Every error is a precondition violation of an
/// individual call, never a partial effect.
#[derive(Clone, Copy, PartialEq, Eq, Debug)]
pub enum HTLCError {
    EscrowNotFound,
    AlreadyWithdrawn,
    AlreadyCancelled,
    InvalidSecret,
    TimelockNotExpired,
    UnauthorizedAccess,
    InsufficientBalance,
    InvalidTimelock,
}

/// A token movement that the caller must carry out against the value
/// transfer service after a successful operation.
#[derive(Clone, Copy, PartialEq, Eq, Debug)]
pub struct Transfer {
    pub from: Address,
    pub to: Address,
    pub token: Address,
    pub amount: i128,
}

/// One locked-value agreement. The parties, the amount, the commitment and
/// the deadline are fixed at creation; only the two terminal flags ever
/// change, and never both.
#[derive(PartialEq, Eq, Debug)]
pub struct Escrow {
    pub sender: Address,
    pub receiver: Address,
    pub amount: i128,
    pub secret_hash: Vec<u8>,
    pub timelock: u64,
    pub token_address: Address,
    pub order_id: Vec<u8>,
    pub withdrawn: bool,
    pub cancelled: bool,
    pub created_at: u64,
}

/// The mathematical value of an escrow record.
#[verifier::ext_equal]
pub ghost struct EscrowView {
    pub sender: Address,
    pub receiver: Address,
    pub amount: i128,
    pub secret_hash: Seq<u8>,
    pub timelock: u64,
    pub token_address: Address,
    pub order_id: Seq<u8>,
    pub withdrawn: bool,
    pub cancelled: bool,
    pub created_at: u64,
}

impl View for Escrow {
    type V = EscrowView;

    open spec fn view(&self) -> EscrowView {
        EscrowView {
            sender: self.sender,
            receiver: self.receiver,
            amount: self.amount,
            secret_hash: self.secret_hash@,
            timelock: self.timelock,
            token_address: self.token_address,
            order_id: self.order_id@,
            withdrawn: self.withdrawn,
            cancelled: self.cancelled,
            created_at: self.created_at,
        }
    }
}

impl Clone for Escrow {
    fn clone(&self) -> (r: Self)
        ensures
            r@ == self@,
    {
        let r = Escrow {
            sender: self.sender,
            receiver: self.receiver,
            amount: self.amount,
            secret_hash: clone_bytes(&self.secret_hash),
            timelock: self.timelock,
            token_address: self.token_address,
            order_id: clone_bytes(&self.order_id),
            withdrawn: self.withdrawn,
            cancelled: self.cancelled,
            created_at: self.created_at,
        };
        proof {
            assert(r@ =~= self@);
        }
        r
    }
}

/// The record that a successful creation stores: the supplied fields,
/// unresolved, stamped with the creation time.
pub open spec fn new_escrow_view(
    sender: Address,
    receiver: Address,
    amount: i128,
    secret_hash: Seq<u8>,
    timelock: u64,
    token_address: Address,
    order_id: Seq<u8>,
    now: u64,
) -> EscrowView {
    EscrowView {
        sender,
        receiver,
        amount,
        secret_hash,
        timelock,
        token_address,
        order_id,
        withdrawn: false,
        cancelled: false,
        created_at: now,
    }
}

/// The record after a successful withdrawal: only the terminal flag moves.
pub open spec fn mark_withdrawn(e: EscrowView) -> EscrowView {
    EscrowView { withdrawn: true, ..e }
}

/// The record after a successful cancellation: only the terminal flag moves.
pub open spec fn mark_cancelled(e: EscrowView) -> EscrowView {
    EscrowView { cancelled: true, ..e }
}

/// Which error, if any, a creation is rejected with: a deadline not in the
/// future, then a sender balance short of the amount, in that order.
pub open spec fn spec_create_err(
    now: u64,
    timelock: u64,
    amount: i128,
    sender_balance: i128,
) -> Option<HTLCError> {
    if timelock <= now {
        Some(HTLCError::InvalidTimelock)
    } else if sender_balance < amount {
        Some(HTLCError::InsufficientBalance)
    } else {
        None
    }
}

/// Which error, if any, a withdrawal is rejected with: absence, either
/// terminal flag, a secret whose hash misses the commitment, then a caller
/// other than the receiver, in that order.
pub open spec fn spec_withdraw_err(
    escrows: Map<Seq<u8>, EscrowView>,
    id: Seq<u8>,
    secret: Seq<u8>,
    receiver: Address,
) -> Option<HTLCError> {
    if !escrows.contains_key(id) {
        Some(HTLCError::EscrowNotFound)
    } else if escrows[id].withdrawn {
        Some(HTLCError::AlreadyWithdrawn)
    } else if escrows[id].cancelled {
        Some(HTLCError::AlreadyCancelled)
    } else if keccak_of(secret) != escrows[id].secret_hash {
        Some(HTLCError::InvalidSecret)
    } else if receiver != escrows[id].receiver {
        Some(HTLCError::UnauthorizedAccess)
    } else {
        None
    }
}

/// Which error, if any, a cancellation is rejected with: absence, either
/// terminal flag, a deadline still in the future, then a caller other than
/// the sender, in that order.
pub open spec fn spec_cancel_err(
    escrows: Map<Seq<u8>, EscrowView>,
    id: Seq<u8>,
    now: u64,
    sender: Address,
) -> Option<HTLCError> {
    if !escrows.contains_key(id) {
        Some(HTLCError::EscrowNotFound)
    } else if escrows[id].withdrawn {
        Some(HTLCError::AlreadyWithdrawn)
    } else if escrows[id].cancelled {
        Some(HTLCError::AlreadyCancelled)
    } else if now < escrows[id].timelock {
        Some(HTLCError::TimelockNotExpired)
    } else if sender != escrows[id].sender {
        Some(HTLCError::UnauthorizedAccess)
    } else {
        None
    }
}

/// The advisory cancellation predicate: the record exists, is unresolved,
/// and its deadline has passed.
pub open spec fn spec_can_cancel(
    escrows: Map<Seq<u8>, EscrowView>,
    id: Seq<u8>,
    now: u64,
) -> bool {
    &&& escrows.contains_key(id)
    &&& !escrows[id].withdrawn
    &&& !escrows[id].cancelled
    &&& now >= escrows[id].timelock
}

} // verus!
