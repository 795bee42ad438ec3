//! Laws that relate the ledger's operations to one another, stated over
//! the same mathematical model that the operations' contracts use.

use vstd::prelude::*;

use crate::escrow::Address;
use crate::escrow::EscrowView;
use crate::escrow::HTLCError;
use crate::escrow::mark_cancelled;
use crate::escrow::mark_withdrawn;
use crate::escrow::new_escrow_view;
use crate::escrow::spec_can_cancel;
use crate::escrow::spec_cancel_err;
use crate::escrow::spec_create_err;
use crate::escrow::spec_withdraw_err;
use crate::hashing::keccak_of;

verus! {

/// After a creation that was not rejected, the ledger maps the digest of
/// the order id to a record holding exactly the supplied fields, with both
/// terminal flags clear — so a lookup of the returned identifier finds it.
pub proof fn lemma_create_then_get(
    escrows: Map<Seq<u8>, EscrowView>,
    now: u64,
    sender: Address,
    receiver: Address,
    amount: i128,
    secret_hash: Seq<u8>,
    timelock: u64,
    token_address: Address,
    order_id: Seq<u8>,
    sender_balance: i128,
)
    requires
        spec_create_err(now, timelock, amount, sender_balance) is None,
    ensures
        ({
            let id = keccak_of(order_id);
            let after = escrows.insert(
                id,
                new_escrow_view(
                    sender,
                    receiver,
                    amount,
                    secret_hash,
                    timelock,
                    token_address,
                    order_id,
                    now,
                ),
            );
            &&& after.contains_key(id)
            &&& after[id].sender == sender
            &&& after[id].receiver == receiver
            &&& after[id].amount == amount
            &&& after[id].secret_hash == secret_hash
            &&& after[id].timelock == timelock
            &&& after[id].token_address == token_address
            &&& after[id].order_id == order_id
            &&& after[id].withdrawn == false
            &&& after[id].cancelled == false
            &&& after[id].created_at == now
        }),
{
}

/// Once a withdrawal has succeeded, no resolution of that identifier can
/// ever succeed again: a second withdrawal fails with `AlreadyWithdrawn`,
/// whatever secret and receiver it brings, and so does any cancellation,
/// whatever time and sender it brings.
pub proof fn lemma_withdraw_excludes_later_resolutions(
    escrows: Map<Seq<u8>, EscrowView>,
    id: Seq<u8>,
    secret: Seq<u8>,
    receiver: Address,
    later_secret: Seq<u8>,
    later_receiver: Address,
    later_now: u64,
    later_sender: Address,
)
    requires
        spec_withdraw_err(escrows, id, secret, receiver) is None,
    ensures
        ({
            let after = escrows.insert(id, mark_withdrawn(escrows[id]));
            &&& spec_withdraw_err(after, id, later_secret, later_receiver) == Some(
                HTLCError::AlreadyWithdrawn,
            )
            &&& spec_cancel_err(after, id, later_now, later_sender) == Some(
                HTLCError::AlreadyWithdrawn,
            )
        }),
{
}

/// Once a cancellation has succeeded, no resolution of that identifier can
/// ever succeed again: a second cancellation fails with `AlreadyCancelled`,
/// whatever time and sender it brings, and so does any withdrawal, whatever
/// secret and receiver it brings.
pub proof fn lemma_cancel_excludes_later_resolutions(
    escrows: Map<Seq<u8>, EscrowView>,
    id: Seq<u8>,
    now: u64,
    sender: Address,
    later_secret: Seq<u8>,
    later_receiver: Address,
    later_now: u64,
    later_sender: Address,
)
    requires
        spec_cancel_err(escrows, id, now, sender) is None,
    ensures
        ({
            let after = escrows.insert(id, mark_cancelled(escrows[id]));
            &&& spec_cancel_err(after, id, later_now, later_sender) == Some(
                HTLCError::AlreadyCancelled,
            )
            &&& spec_withdraw_err(after, id, later_secret, later_receiver) == Some(
                HTLCError::AlreadyCancelled,
            )
        }),
{
}

/// The advisory predicate is exact: it holds at a time exactly when a
/// cancellation at that time would be accepted for some sender — namely
/// the record's own.
pub proof fn lemma_can_cancel_iff_cancel_succeeds(
    escrows: Map<Seq<u8>, EscrowView>,
    id: Seq<u8>,
    now: u64,
)
    ensures
        spec_can_cancel(escrows, id, now) <==> exists|sender: Address|
            spec_cancel_err(escrows, id, now, sender) is None,
{
    if spec_can_cancel(escrows, id, now) {
        assert(spec_cancel_err(escrows, id, now, escrows[id].sender) is None);
    }
}

/// The advisory predicate is monotonic in time: once it holds for an
/// identifier it keeps holding at every later time, as long as the record
/// stays unresolved.
pub proof fn lemma_can_cancel_monotonic(
    escrows: Map<Seq<u8>, EscrowView>,
    id: Seq<u8>,
    earlier: u64,
    later: u64,
)
    requires
        spec_can_cancel(escrows, id, earlier),
        earlier <= later,
    ensures
        spec_can_cancel(escrows, id, later),
{
}

} // verus!
