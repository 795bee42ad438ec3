//! The escrow ledger: a keyed store of escrow records and the operations
//! that create and resolve them.
//!
//! The store is append-only: persisting a record pushes a fresh version,
//! and reads return the newest version under a key. Through the lookup
//! operations this behaves exactly like a keyed store that overwrites in
//! place, while every superseded version stays behind as an audit trail.

use vstd::prelude::*;

use crate::bytes::bytes_eq;
use crate::bytes::clone_bytes;
use crate::escrow::Address;
use crate::escrow::Escrow;
use crate::escrow::EscrowView;
use crate::escrow::HTLCError;
use crate::escrow::Transfer;
use crate::escrow::mark_cancelled;
use crate::escrow::mark_withdrawn;
use crate::escrow::new_escrow_view;
use crate::escrow::spec_can_cancel;
use crate::escrow::spec_cancel_err;
use crate::escrow::spec_create_err;
use crate::escrow::spec_withdraw_err;
use crate::hashing::keccak_of;
use crate::hashing::keccak256_bytes;

verus! {

/// The mathematical value of the ledger: its own identity in the token
/// system, and the newest record under each identifier.
#[verifier::ext_equal]
pub ghost struct LedgerView {
    pub contract_address: Address,
    pub escrows: Map<Seq<u8>, EscrowView>,
}

/// The escrow ledger. It holds custody of every locked amount between
/// creation and resolution; the clock reading and the sender's balance come
/// in as arguments, and each successful mutation hands back the transfer
/// that the caller must perform against the value transfer service.
pub struct HTLCEscrow {
    contract_address: Address,
    records: Vec<(Vec<u8>, Escrow)>,
}

/// The newest record under each identifier, reading the versions oldest
/// first.
spec fn records_map(s: Seq<(Vec<u8>, Escrow)>) -> Map<Seq<u8>, EscrowView>
    decreases s.len(),
{
    if s.len() == 0 {
        Map::empty()
    } else {
        records_map(s.drop_last()).insert(s.last().0@, s.last().1@)
    }
}

impl View for HTLCEscrow {
    type V = LedgerView;

    closed spec fn view(&self) -> LedgerView {
        LedgerView { contract_address: self.contract_address, escrows: records_map(self.records@) }
    }
}

/// If no version carries the identifier, the map has no entry for it.
proof fn lemma_records_map_no_match(s: Seq<(Vec<u8>, Escrow)>, id: Seq<u8>)
    requires
        forall|j: int| 0 <= j < s.len() ==> s[j].0@ != id,
    ensures
        !records_map(s).contains_key(id),
    decreases s.len(),
{
    if s.len() > 0 {
        assert forall|j: int| 0 <= j < s.drop_last().len() implies s.drop_last()[j].0@ != id by {
            assert(s.drop_last()[j] == s[j]);
        }
        lemma_records_map_no_match(s.drop_last(), id);
    }
}

/// The version at the last position carrying the identifier is the one the
/// map holds.
proof fn lemma_records_map_match(s: Seq<(Vec<u8>, Escrow)>, id: Seq<u8>, j: int)
    requires
        0 <= j < s.len(),
        s[j].0@ == id,
        forall|k: int| j < k < s.len() ==> s[k].0@ != id,
    ensures
        records_map(s).contains_key(id),
        records_map(s)[id] == s[j].1@,
    decreases s.len(),
{
    if j < s.len() - 1 {
        assert(s.drop_last()[j] == s[j]);
        assert forall|k: int| j < k < s.drop_last().len() implies s.drop_last()[k].0@ != id by {
            assert(s.drop_last()[k] == s[k]);
        }
        lemma_records_map_match(s.drop_last(), id, j);
        assert(s.last() == s[s.len() - 1]);
    }
}

impl HTLCEscrow {
    /// A fresh ledger holding no records, custodying value under the given
    /// identity.
    pub fn new(contract_address: Address) -> (r: HTLCEscrow)
        ensures
            r@.contract_address == contract_address,
            r@.escrows == Map::<Seq<u8>, EscrowView>::empty(),
    {
        HTLCEscrow { contract_address, records: Vec::new() }
    }

    /// The identity under which the ledger custodies locked value.
    pub fn contract_address(&self) -> (r: Address)
        ensures
            r == self@.contract_address,
    {
        self.contract_address
    }

    /// The position of the newest version under the identifier, if any.
    fn find_index(&self, escrow_id: &Vec<u8>) -> (r: Option<usize>)
        ensures
            match r {
                Some(i) => {
                    &&& i < self.records@.len()
                    &&& self.records@[i as int].0@ == escrow_id@
                    &&& self@.escrows.contains_key(escrow_id@)
                    &&& self@.escrows[escrow_id@] == self.records@[i as int].1@
                },
                None => !self@.escrows.contains_key(escrow_id@),
            },
    {
        let mut i: usize = self.records.len();
        while i > 0
            invariant
                i <= self.records@.len(),
                forall|j: int| i <= j < self.records@.len() ==> self.records@[j].0@ != escrow_id@,
            decreases i,
        {
            i = i - 1;
            if bytes_eq(&self.records[i].0, escrow_id) {
                proof {
                    lemma_records_map_match(self.records@, escrow_id@, i as int);
                }
                return Some(i);
            }
        }
        proof {
            lemma_records_map_no_match(self.records@, escrow_id@);
        }
        None
    }

    /// Persist a fresh version of a record: afterwards the ledger maps the
    /// identifier to exactly this record and is otherwise unchanged.
    fn store(&mut self, escrow_id: Vec<u8>, record: Escrow)
        ensures
            final(self)@.contract_address == old(self)@.contract_address,
            final(self)@.escrows == old(self)@.escrows.insert(escrow_id@, record@),
    {
        let ghost s0: Seq<(Vec<u8>, Escrow)> = self.records@;
        let ghost gid: Seq<u8> = escrow_id@;
        let ghost grec: EscrowView = record@;
        self.records.push((escrow_id, record));
        proof {
            assert(self.records@.drop_last() =~= s0);
            assert(self.records@.last().0@ == gid);
            assert(self.records@.last().1@ == grec);
            assert(records_map(self.records@) == records_map(s0).insert(gid, grec));
        }
    }

    /// Lock `amount` of `token_address` for `receiver`, under the hash
    /// commitment `secret_hash` and the deadline `timelock`.
    ///
    /// `now` is the clock reading and `sender_balance` the sender's holding
    /// of the token, both as the outside collaborators report them. On
    /// success the identifier is the Keccak-256 digest of `order_id`, the
    /// record is stored unresolved, and the returned transfer — the amount,
    /// from the sender into the ledger's custody — must be performed by the
    /// caller. A record already stored under the same identifier is
    /// overwritten without complaint.
    pub fn create_escrow(
        &mut self,
        now: u64,
        sender: Address,
        receiver: Address,
        amount: i128,
        secret_hash: Vec<u8>,
        timelock: u64,
        token_address: Address,
        order_id: Vec<u8>,
        sender_balance: i128,
    ) -> (r: Result<(Vec<u8>, Transfer), HTLCError>)
        requires
            amount > 0,
        ensures
            final(self)@.contract_address == old(self)@.contract_address,
            match spec_create_err(now, timelock, amount, sender_balance) {
                Some(e) => r == Err::<(Vec<u8>, Transfer), HTLCError>(e) && final(self)@ == old(
                    self,
                )@,
                None => {
                    &&& r matches Ok(p)
                    &&& p.0@ == keccak_of(order_id@)
                    &&& p.1 == (Transfer {
                        from: sender,
                        to: old(self)@.contract_address,
                        token: token_address,
                        amount,
                    })
                    &&& final(self)@.escrows == old(self)@.escrows.insert(
                        keccak_of(order_id@),
                        new_escrow_view(
                            sender,
                            receiver,
                            amount,
                            secret_hash@,
                            timelock,
                            token_address,
                            order_id@,
                            now,
                        ),
                    )
                },
            },
    {
        if timelock <= now {
            return Err(HTLCError::InvalidTimelock);
        }
        if sender_balance < amount {
            return Err(HTLCError::InsufficientBalance);
        }
        let escrow_id = keccak256_bytes(&order_id);
        let id_out = clone_bytes(&escrow_id);
        let transfer = Transfer { from: sender, to: self.contract_address, token: token_address, amount };
        let ghost gsecret_hash: Seq<u8> = secret_hash@;
        let ghost gorder_id: Seq<u8> = order_id@;
        let record = Escrow {
            sender,
            receiver,
            amount,
            secret_hash,
            timelock,
            token_address,
            order_id,
            withdrawn: false,
            cancelled: false,
            created_at: now,
        };
        proof {
            assert(record@ =~= new_escrow_view(
                sender,
                receiver,
                amount,
                gsecret_hash,
                timelock,
                token_address,
                gorder_id,
                now,
            ));
        }
        self.store(escrow_id, record);
        Ok((id_out, transfer))
    }

    /// Release the locked amount to the receiver against the secret.
    ///
    /// Succeeds exactly when the record exists, is unresolved, the hash of
    /// `secret` meets the commitment, and `receiver` is the record's
    /// receiver — checked in that order. On success the record is marked
    /// withdrawn and persisted before the returned transfer — the amount,
    /// from the ledger's custody to the receiver — is handed to the caller
    /// to perform; no deadline ever bars a withdrawal.
    pub fn withdraw(&mut self, escrow_id: &Vec<u8>, secret: &Vec<u8>, receiver: Address) -> (r:
        Result<Transfer, HTLCError>)
        ensures
            final(self)@.contract_address == old(self)@.contract_address,
            match spec_withdraw_err(old(self)@.escrows, escrow_id@, secret@, receiver) {
                Some(e) => r == Err::<Transfer, HTLCError>(e) && final(self)@ == old(self)@,
                None => {
                    let rec = old(self)@.escrows[escrow_id@];
                    &&& r == Ok::<Transfer, HTLCError>(
                        (Transfer {
                            from: old(self)@.contract_address,
                            to: receiver,
                            token: rec.token_address,
                            amount: rec.amount,
                        }),
                    )
                    &&& final(self)@.escrows == old(self)@.escrows.insert(
                        escrow_id@,
                        mark_withdrawn(rec),
                    )
                },
            },
    {
        let idx: usize = match self.find_index(escrow_id) {
            None => {
                return Err(HTLCError::EscrowNotFound);
            },
            Some(i) => i,
        };
        if self.records[idx].1.withdrawn {
            return Err(HTLCError::AlreadyWithdrawn);
        }
        if self.records[idx].1.cancelled {
            return Err(HTLCError::AlreadyCancelled);
        }
        let provided_hash = keccak256_bytes(secret);
        if !bytes_eq(&provided_hash, &self.records[idx].1.secret_hash) {
            return Err(HTLCError::InvalidSecret);
        }
        if receiver != self.records[idx].1.receiver {
            return Err(HTLCError::UnauthorizedAccess);
        }
        let transfer = Transfer {
            from: self.contract_address,
            to: receiver,
            token: self.records[idx].1.token_address,
            amount: self.records[idx].1.amount,
        };
        let mut updated = self.records[idx].1.clone();
        updated.withdrawn = true;
        proof {
            assert(updated@ =~= mark_withdrawn(old(self)@.escrows[escrow_id@]));
        }
        let id_key = clone_bytes(escrow_id);
        self.store(id_key, updated);
        Ok(transfer)
    }

    /// Refund the locked amount to the sender once the deadline has passed.
    ///
    /// Succeeds exactly when the record exists, is unresolved, `now` has
    /// reached the deadline, and `sender` is the record's sender — checked
    /// in that order. On success the record is marked cancelled and
    /// persisted before the returned transfer — the amount, from the
    /// ledger's custody back to the sender — is handed to the caller to
    /// perform.
    pub fn cancel(&mut self, now: u64, escrow_id: &Vec<u8>, sender: Address) -> (r: Result<
        Transfer,
        HTLCError,
    >)
        ensures
            final(self)@.contract_address == old(self)@.contract_address,
            match spec_cancel_err(old(self)@.escrows, escrow_id@, now, sender) {
                Some(e) => r == Err::<Transfer, HTLCError>(e) && final(self)@ == old(self)@,
                None => {
                    let rec = old(self)@.escrows[escrow_id@];
                    &&& r == Ok::<Transfer, HTLCError>(
                        (Transfer {
                            from: old(self)@.contract_address,
                            to: sender,
                            token: rec.token_address,
                            amount: rec.amount,
                        }),
                    )
                    &&& final(self)@.escrows == old(self)@.escrows.insert(
                        escrow_id@,
                        mark_cancelled(rec),
                    )
                },
            },
    {
        let idx: usize = match self.find_index(escrow_id) {
            None => {
                return Err(HTLCError::EscrowNotFound);
            },
            Some(i) => i,
        };
        if self.records[idx].1.withdrawn {
            return Err(HTLCError::AlreadyWithdrawn);
        }
        if self.records[idx].1.cancelled {
            return Err(HTLCError::AlreadyCancelled);
        }
        if now < self.records[idx].1.timelock {
            return Err(HTLCError::TimelockNotExpired);
        }
        if sender != self.records[idx].1.sender {
            return Err(HTLCError::UnauthorizedAccess);
        }
        let transfer = Transfer {
            from: self.contract_address,
            to: sender,
            token: self.records[idx].1.token_address,
            amount: self.records[idx].1.amount,
        };
        let mut updated = self.records[idx].1.clone();
        updated.cancelled = true;
        proof {
            assert(updated@ =~= mark_cancelled(old(self)@.escrows[escrow_id@]));
        }
        let id_key = clone_bytes(escrow_id);
        self.store(id_key, updated);
        Ok(transfer)
    }

    /// The record under the identifier, if any: a pure lookup, open to any
    /// caller.
    pub fn get_escrow(&self, escrow_id: &Vec<u8>) -> (r: Option<Escrow>)
        ensures
            match r {
                Some(e) => self@.escrows.contains_key(escrow_id@) && e@ == self@.escrows[escrow_id@],
                None => !self@.escrows.contains_key(escrow_id@),
            },
    {
        match self.find_index(escrow_id) {
            None => None,
            Some(i) => Some(self.records[i].1.clone()),
        }
    }

    /// Whether the hash of `secret` meets the record's commitment. Absence
    /// yields false, never an error, and resolution state plays no part: a
    /// secret still verifies after the escrow is resolved.
    pub fn verify_secret(&self, escrow_id: &Vec<u8>, secret: &Vec<u8>) -> (r: bool)
        ensures
            r == (self@.escrows.contains_key(escrow_id@) && self@.escrows[escrow_id@].secret_hash
                == keccak_of(secret@)),
    {
        let provided_hash = keccak256_bytes(secret);
        match self.find_index(escrow_id) {
            None => false,
            Some(i) => bytes_eq(&provided_hash, &self.records[i].1.secret_hash),
        }
    }

    /// Whether a cancellation could succeed now: the record exists, is
    /// unresolved, and its deadline has passed. Absence yields false, never
    /// an error.
    pub fn can_cancel(&self, now: u64, escrow_id: &Vec<u8>) -> (r: bool)
        ensures
            r == spec_can_cancel(self@.escrows, escrow_id@, now),
    {
        match self.find_index(escrow_id) {
            None => false,
            Some(i) => !self.records[i].1.withdrawn && !self.records[i].1.cancelled && now
                >= self.records[i].1.timelock,
        }
    }

    /// The escrows in which the address takes part. Enumeration by party is
    /// deliberately unimplemented — there is no index from parties to
    /// identifiers — so the answer is always empty.
    pub fn get_escrows_for_address(&self, _address: Address) -> (r: Vec<(Vec<u8>, Escrow)>)
        ensures
            r@.len() == 0,
    {
        Vec::new()
    }

    /// The Keccak-256 commitment for a secret, as creation expects it.
    pub fn generate_secret_hash(secret: &Vec<u8>) -> (r: Vec<u8>)
        ensures
            r@ == keccak_of(secret@),
            r@.len() == 32,
    {
        keccak256_bytes(secret)
    }
}

} // verus!
