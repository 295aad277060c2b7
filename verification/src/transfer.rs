//! Peer-to-peer transfer service with a shielded pool.
//!
//! Direct transfers settle immediately: the module records the gross attached
//! amount, takes a basis-point fee and pays the recipient the rest. The
//! shielded pool holds deposits as commitment notes; a note is spent exactly
//! once, with a nullifier, either by a hidden pool transfer (the value stays
//! pooled) or by a withdrawal that reveals the recipient and settles the
//! note's amount. A global nullifier set rejects any reuse across notes.

use vstd::prelude::*;
use crate::errors::CustodyError;
use crate::strmap::StrMap;
use crate::strmap::lemma_map_of_index;
use crate::OutboundTransfer;
use crate::MAX_AMOUNT;
use crate::has_account;
use crate::contains_account;
use crate::clone_id_list;
use crate::hashing::is_key64;
use crate::hashing::key64_check;
use crate::fee_of;
use crate::payout_of;
use crate::lemma_fee_bounds;
use vstd::string::StringExecFns;

verus! {

/// Direct transfer fees may not exceed 500 basis points (5%).
pub const DIRECT_FEE_CAP: u16 = 500;

#[derive(Clone, Copy, PartialEq, Eq, Structural, Debug)]
pub enum TransferType {
    Direct,
    Shielded,
}

#[derive(Clone, Copy, PartialEq, Eq, Structural, Debug)]
pub enum TransferStatus {
    Pending,
    Completed,
    Failed,
    Cancelled,
}

/// A settled movement of value, transparent or shielded. Shielded records
/// carry the sentinel account `"shielded"` for hidden endpoints.
pub struct Transfer {
    pub transfer_id: String,
    pub sender: String,
    pub recipient: String,
    pub amount: u128,
    pub transfer_type: TransferType,
    pub status: TransferStatus,
    pub commitment: Option<String>,
    pub nullifier: Option<String>,
    pub memo: String,
    pub timestamp: u64,
}

impl Clone for Transfer {
    fn clone(&self) -> (r: Self)
        ensures
            r == *self,
    {
        Transfer {
            transfer_id: self.transfer_id.clone(),
            sender: self.sender.clone(),
            recipient: self.recipient.clone(),
            amount: self.amount,
            transfer_type: self.transfer_type,
            status: self.status,
            commitment: match &self.commitment {
                Some(c) => Some(c.clone()),
                None => None,
            },
            nullifier: match &self.nullifier {
                Some(n) => Some(n.clone()),
                None => None,
            },
            memo: self.memo.clone(),
            timestamp: self.timestamp,
        }
    }
}

/// A deposit held by the shielded pool under a commitment. Spent exactly
/// once, with a recorded nullifier.
pub struct ShieldedNote {
    pub note_id: String,
    pub commitment: String,
    pub amount: u128,
    pub spent: bool,
    pub nullifier: Option<String>,
    pub created_at: u64,
}

impl Clone for ShieldedNote {
    fn clone(&self) -> (r: Self)
        ensures
            r == *self,
    {
        ShieldedNote {
            note_id: self.note_id.clone(),
            commitment: self.commitment.clone(),
            amount: self.amount,
            spent: self.spent,
            nullifier: match &self.nullifier {
                Some(n) => Some(n.clone()),
                None => None,
            },
            created_at: self.created_at,
        }
    }
}

/// The same note, spent with the given nullifier.
pub open spec fn spent_note(n: ShieldedNote, nf: String) -> ShieldedNote {
    ShieldedNote {
        note_id: n.note_id,
        commitment: n.commitment,
        amount: n.amount,
        spent: true,
        nullifier: Some(nf),
        created_at: n.created_at,
    }
}

/// The gross deposit behind a transparent transfer record.
pub open spec fn direct_value(t: Transfer) -> nat {
    if t.transfer_type is Direct {
        t.amount as nat
    } else {
        0
    }
}

/// The value a hidden pool transfer keeps pooled: such a record carries the
/// recipient's commitment; a withdrawal record carries none.
pub open spec fn pooled_value(t: Transfer) -> nat {
    if t.transfer_type is Shielded && t.commitment is Some {
        t.amount as nat
    } else {
        0
    }
}

/// The deposit consumed by a spent note.
pub open spec fn spent_value(n: ShieldedNote) -> nat {
    if n.spent {
        n.amount as nat
    } else {
        0
    }
}

/// Sum of the gross deposits of the transparent records.
pub open spec fn direct_sum(s: Seq<(String, Transfer)>) -> nat
    decreases s.len(),
{
    if s.len() == 0 {
        0
    } else {
        direct_sum(s.drop_last()) + direct_value(s.last().1)
    }
}

/// Sum of the value the hidden pool transfers keep pooled.
pub open spec fn pooled_sum(s: Seq<(String, Transfer)>) -> nat
    decreases s.len(),
{
    if s.len() == 0 {
        0
    } else {
        pooled_sum(s.drop_last()) + pooled_value(s.last().1)
    }
}

/// Sum of the deposits consumed by spent notes.
pub open spec fn spent_sum(s: Seq<(String, ShieldedNote)>) -> nat
    decreases s.len(),
{
    if s.len() == 0 {
        0
    } else {
        spent_sum(s.drop_last()) + spent_value(s.last().1)
    }
}

pub proof fn lemma_transfer_sums_push(s: Seq<(String, Transfer)>, e: (String, Transfer))
    ensures
        direct_sum(s.push(e)) == direct_sum(s) + direct_value(e.1),
        pooled_sum(s.push(e)) == pooled_sum(s) + pooled_value(e.1),
{
    assert(s.push(e).drop_last() =~= s);
    assert(s.push(e).last() == e);
}

pub proof fn lemma_spent_sum_push(s: Seq<(String, ShieldedNote)>, e: (String, ShieldedNote))
    ensures
        spent_sum(s.push(e)) == spent_sum(s) + spent_value(e.1),
{
    assert(s.push(e).drop_last() =~= s);
    assert(s.push(e).last() == e);
}

pub proof fn lemma_spent_sum_update(
    s: Seq<(String, ShieldedNote)>,
    i: int,
    e: (String, ShieldedNote),
)
    requires
        0 <= i < s.len(),
    ensures
        spent_sum(s.update(i, e)) + spent_value(s[i].1) == spent_sum(s) + spent_value(e.1),
    decreases s.len(),
{
    if i == s.len() - 1 {
        assert(s.update(i, e).drop_last() =~= s.drop_last());
        assert(s.update(i, e).last() == e);
    } else {
        assert(s.update(i, e).drop_last() =~= s.drop_last().update(i, e));
        assert(s.drop_last()[i] == s[i]);
        lemma_spent_sum_update(s.drop_last(), i, e);
        assert(s.update(i, e).last() == s.last());
    }
}

/// What holds of every stored transfer record.
pub open spec fn transfer_ok(k: Seq<char>, t: Transfer) -> bool {
    &&& t.transfer_id@ == k
    &&& t.amount <= MAX_AMOUNT
    &&& t.status is Completed
    &&& (t.transfer_type is Direct ==> t.commitment is None && t.nullifier is None)
}

/// What holds of every stored note, against the module's nullifier set: a
/// note is spent exactly when it has a nullifier, and every recorded
/// nullifier is in the set.
pub open spec fn note_ok(k: Seq<char>, n: ShieldedNote, used: Seq<String>) -> bool {
    &&& n.note_id@ == k
    &&& 0 < n.amount <= MAX_AMOUNT
    &&& is_key64(n.commitment@)
    &&& (n.spent <==> n.nullifier is Some)
    &&& (n.nullifier matches Some(nf) ==> has_account(used, nf@))
}

/// No two notes share a nullifier.
pub open spec fn nullifier_differs(a: ShieldedNote, b: ShieldedNote) -> bool {
    a.nullifier matches Some(x) ==> (b.nullifier matches Some(y) ==> x@ != y@)
}

/// The note was spent with this nullifier.
pub open spec fn note_spent_with(n: ShieldedNote, nf: Seq<char>) -> bool {
    n.nullifier matches Some(x) && x@ == nf
}

pub open spec fn distinct_nullifiers(m: Map<Seq<char>, ShieldedNote>) -> bool {
    forall|k1: Seq<char>, k2: Seq<char>|
        #![trigger m[k1], m[k2]]
        m.contains_key(k1) && m.contains_key(k2) && k1 != k2 ==> nullifier_differs(m[k1], m[k2])
}

/// Some stored note was spent with this nullifier.
pub open spec fn used_entry_covered(nf: Seq<char>, m: Map<Seq<char>, ShieldedNote>) -> bool {
    exists|k: Seq<char>| #[trigger] m.contains_key(k) && note_spent_with(m[k], nf)
}

/// Every entry of the nullifier set belongs to some spent note.
pub open spec fn used_covered(used: Seq<String>, m: Map<Seq<char>, ShieldedNote>) -> bool {
    forall|j: int| 0 <= j < used.len() ==> used_entry_covered((#[trigger] used[j])@, m)
}

/// Nullifier coverage survives any store change that keeps every note that
/// already had a nullifier.
pub proof fn lemma_used_covered_preserved(
    used: Seq<String>,
    m0: Map<Seq<char>, ShieldedNote>,
    m1: Map<Seq<char>, ShieldedNote>,
)
    requires
        used_covered(used, m0),
        forall|k: Seq<char>| #[trigger]
            m0.contains_key(k) ==> m1.contains_key(k) && (m0[k].nullifier is Some ==> m1[k]
                == m0[k]),
    ensures
        used_covered(used, m1),
{
    assert forall|j: int| 0 <= j < used.len() implies used_entry_covered(
        (#[trigger] used[j])@,
        m1,
    ) by {
        assert(used_entry_covered(used[j]@, m0));
        let k0 = choose|k: Seq<char>| #[trigger]
            m0.contains_key(k) && note_spent_with(m0[k], used[j]@);
        assert(m0.contains_key(k0));
        assert(m1.contains_key(k0) && note_spent_with(m1[k0], used[j]@));
    }
}

/// Spending an unspent note with a fresh nullifier keeps every note
/// invariant: notes stay tied to the grown nullifier set, nullifiers stay
/// pairwise distinct, and the set stays covered by spent notes.
pub proof fn lemma_spend_step(
    pre_pool: Map<Seq<char>, ShieldedNote>,
    post_pool: Map<Seq<char>, ShieldedNote>,
    pre_used: Seq<String>,
    post_used: Seq<String>,
    nid: Seq<char>,
    nf: String,
)
    requires
        pre_pool.contains_key(nid),
        pre_pool[nid].nullifier is None,
        post_pool == pre_pool.insert(nid, spent_note(pre_pool[nid], nf)),
        post_used == pre_used.push(nf),
        !has_account(pre_used, nf@),
        forall|k: Seq<char>| #[trigger]
            pre_pool.contains_key(k) ==> note_ok(k, pre_pool[k], pre_used),
        distinct_nullifiers(pre_pool),
        used_covered(pre_used, pre_pool),
    ensures
        forall|k: Seq<char>| #[trigger]
            post_pool.contains_key(k) ==> note_ok(k, post_pool[k], post_used),
        distinct_nullifiers(post_pool),
        used_covered(post_used, post_pool),
{
    let n1 = spent_note(pre_pool[nid], nf);
    assert(post_used[pre_used.len() as int] == nf);
    assert forall|a: Seq<char>| #[trigger]
        has_account(pre_used, a) implies has_account(post_used, a) by {
        let i = choose|i: int| 0 <= i < pre_used.len() && pre_used[i]@ == a;
        assert(post_used[i]@ == a);
    }
    assert forall|k: Seq<char>| #[trigger]
        post_pool.contains_key(k) implies note_ok(k, post_pool[k], post_used) by {
        if k == nid {
            assert(has_account(post_used, nf@));
        } else {
            assert(pre_pool.contains_key(k));
        }
    }
    assert forall|k1: Seq<char>, k2: Seq<char>|
        #![trigger post_pool[k1], post_pool[k2]]
        post_pool.contains_key(k1) && post_pool.contains_key(k2) && k1 != k2 implies
        nullifier_differs(post_pool[k1], post_pool[k2]) by {
        if k1 == nid {
            assert(pre_pool.contains_key(k2));
            assert(note_ok(k2, pre_pool[k2], pre_used));
        } else if k2 == nid {
            assert(pre_pool.contains_key(k1));
            assert(note_ok(k1, pre_pool[k1], pre_used));
        } else {
            assert(pre_pool.contains_key(k1) && pre_pool.contains_key(k2));
        }
    }
    lemma_used_covered_preserved(pre_used, pre_pool, post_pool);
    assert(post_pool.contains_key(nid) && note_spent_with(post_pool[nid], nf@));
    assert(used_entry_covered(nf@, post_pool));
    assert forall|j: int| 0 <= j < post_used.len() implies used_entry_covered(
        (#[trigger] post_used[j])@,
        post_pool,
    ) by {
        if j < pre_used.len() {
            assert(post_used[j] == pre_used[j]);
            assert(used_entry_covered(pre_used[j]@, post_pool));
        } else {
            assert(post_used[j] == nf);
        }
    }
}

/// One transfer module instance.
pub struct P2PTransferContract {
    pub transfers: StrMap<Transfer>,
    pub user_transfers: StrMap<Vec<String>>,
    pub shielded_pool: StrMap<ShieldedNote>,
    /// Every nullifier ever consumed, so reuse is rejected across notes.
    pub used_nullifiers: Vec<String>,
    pub owner: String,
    pub fee_percentage: u16,
    pub fee_recipient: String,
    /// Total value of the outbound transfers this instance has queued.
    pub emitted: Ghost<nat>,
}

impl P2PTransferContract {
    /// The module invariant. The last clause is the conservation law: what
    /// has left the module, plus what hidden transfers keep pooled, equals
    /// the gross of the transparent records plus the deposits of the spent
    /// notes.
    pub open spec fn wf(&self) -> bool {
        &&& self.transfers.wf()
        &&& self.user_transfers.wf()
        &&& self.shielded_pool.wf()
        &&& self.fee_percentage <= DIRECT_FEE_CAP
        &&& forall|k: Seq<char>| #[trigger]
            self.transfers@.contains_key(k) ==> transfer_ok(k, self.transfers@[k])
        &&& forall|k: Seq<char>| #[trigger]
            self.shielded_pool@.contains_key(k) ==> note_ok(
                k,
                self.shielded_pool@[k],
                self.used_nullifiers@,
            )
        &&& distinct_nullifiers(self.shielded_pool@)
        &&& used_covered(self.used_nullifiers@, self.shielded_pool@)
        &&& self.emitted@ + pooled_sum(self.transfers.kv()) == direct_sum(self.transfers.kv())
            + spent_sum(self.shielded_pool.kv())
    }

    /// The ids indexed under an account, as stored.
    pub open spec fn index_list(m: Map<Seq<char>, Vec<String>>, a: Seq<char>) -> Seq<String> {
        if m.contains_key(a) {
            m[a]@
        } else {
            Seq::empty()
        }
    }

    /// A fresh instance: 10 basis points fee to the owner.
    pub fn new(owner: String) -> (r: P2PTransferContract)
        ensures
            r.wf(),
            r.transfers@ =~= Map::<Seq<char>, Transfer>::empty(),
            r.user_transfers@ =~= Map::<Seq<char>, Vec<String>>::empty(),
            r.shielded_pool@ =~= Map::<Seq<char>, ShieldedNote>::empty(),
            r.used_nullifiers@ =~= Seq::<String>::empty(),
            r.owner == owner,
            r.fee_percentage == 10,
            r.fee_recipient == owner,
            r.emitted@ == 0,
    {
        let fee_recipient = owner.clone();
        P2PTransferContract {
            transfers: StrMap::new(),
            user_transfers: StrMap::new(),
            shielded_pool: StrMap::new(),
            used_nullifiers: Vec::new(),
            owner,
            fee_percentage: 10,
            fee_recipient,
            emitted: Ghost(0),
        }
    }

    /// Append a transfer id to an account's index.
    fn push_user_transfer(&mut self, account: String, id: String)
        requires
            old(self).user_transfers.wf(),
        ensures
            final(self).user_transfers.wf(),
            Self::index_list(final(self).user_transfers@, account@) == Self::index_list(
                old(self).user_transfers@,
                account@,
            ).push(id),
            forall|a: Seq<char>|
                a != account@ ==> Self::index_list(final(self).user_transfers@, a)
                    == Self::index_list(old(self).user_transfers@, a),
            final(self).transfers == old(self).transfers,
            final(self).shielded_pool == old(self).shielded_pool,
            final(self).used_nullifiers == old(self).used_nullifiers,
            final(self).owner == old(self).owner,
            final(self).fee_percentage == old(self).fee_percentage,
            final(self).fee_recipient == old(self).fee_recipient,
            final(self).emitted == old(self).emitted,
    {
        let mut list: Vec<String> = match self.user_transfers.get(&account) {
            Some(v) => clone_id_list(v),
            None => Vec::new(),
        };
        list.push(id);
        self.user_transfers.insert(account, list);
    }

    /// Send the attached value to `recipient`, minus the basis-point fee.
    /// The record keeps the gross attached amount; with the fee rate at the
    /// time of the call, the payout is `payout_of(attached, fee)` — the same
    /// for any two calls with the same attached value and fee rate.
    pub fn send_direct(
        &mut self,
        caller: String,
        now: u64,
        attached: u128,
        transfer_id: String,
        recipient: String,
        memo: String,
    ) -> (r: Result<Vec<OutboundTransfer>, CustodyError>)
        requires
            old(self).wf(),
            attached <= MAX_AMOUNT,
        ensures
            final(self).wf(),
            r is Ok <==> (attached > 0 && !old(self).transfers@.contains_key(transfer_id@)),
            attached == 0 ==> r == Err::<Vec<OutboundTransfer>, CustodyError>(
                CustodyError::Parameter,
            ),
            attached > 0 && old(self).transfers@.contains_key(transfer_id@) ==> r == Err::<
                Vec<OutboundTransfer>,
                CustodyError,
            >(CustodyError::DuplicateId),
            r is Err ==> *final(self) == *old(self),
            r matches Ok(ts) ==> ({
                let fee = fee_of(attached, old(self).fee_percentage);
                &&& final(self).transfers@ == old(self).transfers@.insert(
                    transfer_id@,
                    (Transfer {
                        transfer_id: transfer_id,
                        sender: caller,
                        recipient: recipient,
                        amount: attached,
                        transfer_type: TransferType::Direct,
                        status: TransferStatus::Completed,
                        commitment: None,
                        nullifier: None,
                        memo: memo,
                        timestamp: now,
                    }),
                )
                &&& (caller@ != recipient@ ==> Self::index_list(final(self).user_transfers@, caller@)
                    == Self::index_list(old(self).user_transfers@, caller@).push(transfer_id)
                    && Self::index_list(final(self).user_transfers@, recipient@)
                    == Self::index_list(old(self).user_transfers@, recipient@).push(transfer_id))
                &&& (caller@ == recipient@ ==> Self::index_list(final(self).user_transfers@, caller@)
                    == Self::index_list(old(self).user_transfers@, caller@).push(transfer_id).push(
                    transfer_id,
                ))
                &&& forall|a: Seq<char>|
                    a != caller@ && a != recipient@ ==> Self::index_list(
                        final(self).user_transfers@,
                        a,
                    ) == Self::index_list(old(self).user_transfers@, a)
                &&& (fee > 0 ==> ts@.len() == 2 && ts@[0].recipient == old(self).fee_recipient
                    && ts@[0].amount == fee && ts@[1].recipient == recipient && ts@[1].amount
                    == payout_of(attached, old(self).fee_percentage))
                &&& (fee == 0 ==> ts@.len() == 1 && ts@[0].recipient == recipient
                    && ts@[0].amount == attached)
                &&& final(self).emitted@ == old(self).emitted@ + attached
                &&& final(self).shielded_pool == old(self).shielded_pool
                &&& final(self).used_nullifiers == old(self).used_nullifiers
                &&& final(self).owner == old(self).owner
                &&& final(self).fee_percentage == old(self).fee_percentage
                &&& final(self).fee_recipient == old(self).fee_recipient
            }),
    {
        if attached == 0 {
            return Err(CustodyError::Parameter);
        }
        if self.transfers.contains(&transfer_id) {
            return Err(CustodyError::DuplicateId);
        }
        proof {
            lemma_fee_bounds(attached, self.fee_percentage);
        }
        let fee: u128 = (attached * (self.fee_percentage as u128)) / 10000;
        let payout: u128 = attached - fee;
        let record = Transfer {
            transfer_id: transfer_id.clone(),
            sender: caller.clone(),
            recipient: recipient.clone(),
            amount: attached,
            transfer_type: TransferType::Direct,
            status: TransferStatus::Completed,
            commitment: None,
            nullifier: None,
            memo: memo,
            timestamp: now,
        };
        let ghost prekv = self.transfers.kv();
        self.transfers.insert(transfer_id.clone(), record);
        proof {
            lemma_transfer_sums_push(prekv, (transfer_id, record));
        }
        self.push_user_transfer(caller, transfer_id.clone());
        self.push_user_transfer(recipient.clone(), transfer_id);
        self.emitted = Ghost(self.emitted@ + attached as nat);
        let mut ts: Vec<OutboundTransfer> = Vec::new();
        if fee > 0 {
            ts.push(OutboundTransfer { recipient: self.fee_recipient.clone(), amount: fee });
        }
        ts.push(OutboundTransfer { recipient: recipient, amount: payout });
        Ok(ts)
    }

    /// Deposit the attached value into the pool under a commitment. No fee
    /// is taken at deposit.
    pub fn shield_deposit(&mut self, now: u64, attached: u128, note_id: String, commitment: String)
        -> (r: Result<ShieldedNote, CustodyError>)
        requires
            old(self).wf(),
            attached <= MAX_AMOUNT,
        ensures
            final(self).wf(),
            r is Ok <==> (attached > 0 && !old(self).shielded_pool@.contains_key(note_id@)
                && is_key64(commitment@)),
            attached == 0 ==> r == Err::<ShieldedNote, CustodyError>(CustodyError::Parameter),
            attached > 0 && old(self).shielded_pool@.contains_key(note_id@) ==> r == Err::<
                ShieldedNote,
                CustodyError,
            >(CustodyError::DuplicateId),
            attached > 0 && !old(self).shielded_pool@.contains_key(note_id@) && !is_key64(
                commitment@,
            ) ==> r == Err::<ShieldedNote, CustodyError>(CustodyError::Parameter),
            r is Err ==> *final(self) == *old(self),
            r matches Ok(n) ==> ({
                &&& n == (ShieldedNote {
                    note_id: note_id,
                    commitment: commitment,
                    amount: attached,
                    spent: false,
                    nullifier: None,
                    created_at: now,
                })
                &&& final(self).shielded_pool@ == old(self).shielded_pool@.insert(note_id@, n)
                &&& final(self).transfers == old(self).transfers
                &&& final(self).user_transfers == old(self).user_transfers
                &&& final(self).used_nullifiers == old(self).used_nullifiers
                &&& final(self).owner == old(self).owner
                &&& final(self).fee_percentage == old(self).fee_percentage
                &&& final(self).fee_recipient == old(self).fee_recipient
                &&& final(self).emitted == old(self).emitted
            }),
    {
        if attached == 0 {
            return Err(CustodyError::Parameter);
        }
        if self.shielded_pool.contains(&note_id) {
            return Err(CustodyError::DuplicateId);
        }
        if !key64_check(&commitment) {
            return Err(CustodyError::Parameter);
        }
        let record = ShieldedNote {
            note_id: note_id.clone(),
            commitment: commitment,
            amount: attached,
            spent: false,
            nullifier: None,
            created_at: now,
        };
        let result = record.clone();
        let ghost prekv = self.shielded_pool.kv();
        self.shielded_pool.insert(note_id, record);
        proof {
            lemma_spent_sum_push(prekv, (note_id, record));
            lemma_used_covered_preserved(
                self.used_nullifiers@,
                old(self).shielded_pool@,
                self.shielded_pool@,
            );
        }
        Ok(result)
    }

    /// Spend a pool note into a hidden transfer: the input note is consumed
    /// under the given nullifier and a record with hidden endpoints and the
    /// recipient's commitment is stored. No value leaves the module; the
    /// accepted proof is recorded opaquely, never verified here.
    pub fn shield_transfer(
        &mut self,
        now: u64,
        transfer_id: String,
        input_note_id: String,
        nullifier: String,
        new_commitment: String,
        recipient_commitment: String,
        proof_data: String,
        memo: String,
    ) -> (r: Result<(), CustodyError>)
        requires
            old(self).wf(),
        ensures
            final(self).wf(),
            r is Ok <==> (!old(self).transfers@.contains_key(transfer_id@) && proof_data@.len() > 0
                && old(self).shielded_pool@.contains_key(input_note_id@) && !old(self).shielded_pool@[input_note_id@].spent && is_key64(nullifier@) && is_key64(
                new_commitment@,
            ) && is_key64(recipient_commitment@) && !has_account(
                old(self).used_nullifiers@,
                nullifier@,
            )),
            old(self).transfers@.contains_key(transfer_id@) ==> r == Err::<(), CustodyError>(
                CustodyError::DuplicateId,
            ),
            !old(self).transfers@.contains_key(transfer_id@) && proof_data@.len() == 0 ==> r
                == Err::<(), CustodyError>(CustodyError::Parameter),
            !old(self).transfers@.contains_key(transfer_id@) && proof_data@.len() > 0 && !old(self).shielded_pool@.contains_key(input_note_id@) ==> r == Err::<(), CustodyError>(
                CustodyError::NotFound,
            ),
            !old(self).transfers@.contains_key(transfer_id@) && proof_data@.len() > 0 && old(self).shielded_pool@.contains_key(input_note_id@) && old(self).shielded_pool@[
                input_note_id@
            ].spent ==> r == Err::<(), CustodyError>(CustodyError::WrongState),
            !old(self).transfers@.contains_key(transfer_id@) && proof_data@.len() > 0 && old(self).shielded_pool@.contains_key(input_note_id@) && !old(self).shielded_pool@[
                input_note_id@
            ].spent && !(is_key64(nullifier@) && is_key64(new_commitment@) && is_key64(
                recipient_commitment@,
            )) ==> r == Err::<(), CustodyError>(CustodyError::Parameter),
            !old(self).transfers@.contains_key(transfer_id@) && proof_data@.len() > 0 && old(self).shielded_pool@.contains_key(input_note_id@) && !old(self).shielded_pool@[
                input_note_id@
            ].spent && is_key64(nullifier@) && is_key64(new_commitment@) && is_key64(
                recipient_commitment@,
            ) && has_account(old(self).used_nullifiers@, nullifier@) ==> r == Err::<
                (),
                CustodyError,
            >(CustodyError::DuplicateId),
            r is Err ==> *final(self) == *old(self),
            forall|k: Seq<char>| #[trigger]
                old(self).shielded_pool@.contains_key(k) && old(self).shielded_pool@[k].spent
                    ==> final(self).shielded_pool@.contains_key(k) && final(self).shielded_pool@[k]
                    == old(self).shielded_pool@[k],
            r is Ok ==> ({
                let n0 = old(self).shielded_pool@[input_note_id@];
                &&& final(self).shielded_pool@ == old(self).shielded_pool@.insert(
                    input_note_id@,
                    spent_note(n0, nullifier),
                )
                &&& final(self).used_nullifiers@ == old(self).used_nullifiers@.push(nullifier)
                &&& final(self).transfers@.dom() =~= old(self).transfers@.dom().insert(
                    transfer_id@,
                )
                &&& forall|k: Seq<char>|
                    k != transfer_id@ && old(self).transfers@.contains_key(k) ==> final(self).transfers@[k] == old(self).transfers@[k]
                &&& final(self).transfers@.contains_key(transfer_id@)
                &&& ({
                    let t = final(self).transfers@[transfer_id@];
                    &&& t.transfer_id == transfer_id
                    &&& t.sender@ == "shielded"@
                    &&& t.recipient@ == "shielded"@
                    &&& t.amount == n0.amount
                    &&& t.transfer_type is Shielded
                    &&& t.status is Completed
                    &&& t.commitment == Some(recipient_commitment)
                    &&& t.nullifier == Some(nullifier)
                    &&& t.memo == memo
                    &&& t.timestamp == now
                })
                &&& final(self).user_transfers == old(self).user_transfers
                &&& final(self).owner == old(self).owner
                &&& final(self).fee_percentage == old(self).fee_percentage
                &&& final(self).fee_recipient == old(self).fee_recipient
                &&& final(self).emitted == old(self).emitted
            }),
    {
        if self.transfers.contains(&transfer_id) {
            return Err(CustodyError::DuplicateId);
        }
        if proof_data.as_str().is_empty() {
            return Err(CustodyError::Parameter);
        }
        let note = match self.shielded_pool.get(&input_note_id) {
            Some(n) => n.clone(),
            None => {
                return Err(CustodyError::NotFound);
            },
        };
        if note.spent {
            return Err(CustodyError::WrongState);
        }
        if !(key64_check(&nullifier) && key64_check(&new_commitment) && key64_check(
            &recipient_commitment,
        )) {
            return Err(CustodyError::Parameter);
        }
        if contains_account(&self.used_nullifiers, &nullifier) {
            return Err(CustodyError::DuplicateId);
        }
        let updated = ShieldedNote { spent: true, nullifier: Some(nullifier.clone()), ..note };
        proof {
            self.shielded_pool.lemma_kv_view();
        }
        let ghost prekv = self.shielded_pool.kv();
        self.shielded_pool.insert(input_note_id.clone(), updated);
        proof {
            let i = choose|i: int|
                0 <= i < prekv.len() && prekv[i].0@ == input_note_id@ && self.shielded_pool.kv()
                    == prekv.update(i, (input_note_id, updated));
            lemma_map_of_index(prekv, i);
            lemma_spent_sum_update(prekv, i, (input_note_id, updated));
        }
        self.used_nullifiers.push(nullifier.clone());
        proof {
            lemma_spend_step(
                old(self).shielded_pool@,
                self.shielded_pool@,
                old(self).used_nullifiers@,
                self.used_nullifiers@,
                input_note_id@,
                nullifier,
            );
        }
        let record = Transfer {
            transfer_id: transfer_id.clone(),
            sender: String::from_str("shielded"),
            recipient: String::from_str("shielded"),
            amount: note.amount,
            transfer_type: TransferType::Shielded,
            status: TransferStatus::Completed,
            commitment: Some(recipient_commitment),
            nullifier: Some(nullifier),
            memo: memo,
            timestamp: now,
        };
        let ghost pretkv = self.transfers.kv();
        self.transfers.insert(transfer_id, record);
        proof {
            lemma_transfer_sums_push(pretkv, (transfer_id, record));
        }
        Ok(())
    }

    /// Withdraw a pool note to a revealed recipient: the note is consumed
    /// under the given nullifier and its amount is settled, a basis-point fee
    /// to the fee recipient and the rest to the recipient. The record keeps
    /// the net payout.
    pub fn shield_withdraw(
        &mut self,
        now: u64,
        transfer_id: String,
        note_id: String,
        nullifier: String,
        recipient: String,
        proof_data: String,
    ) -> (r: Result<Vec<OutboundTransfer>, CustodyError>)
        requires
            old(self).wf(),
        ensures
            final(self).wf(),
            r is Ok <==> (!old(self).transfers@.contains_key(transfer_id@) && old(self).shielded_pool@.contains_key(note_id@) && !old(self).shielded_pool@[note_id@].spent
                && !has_account(old(self).used_nullifiers@, nullifier@)),
            old(self).transfers@.contains_key(transfer_id@) ==> r == Err::<
                Vec<OutboundTransfer>,
                CustodyError,
            >(CustodyError::DuplicateId),
            !old(self).transfers@.contains_key(transfer_id@) && !old(self).shielded_pool@.contains_key(note_id@) ==> r == Err::<
                Vec<OutboundTransfer>,
                CustodyError,
            >(CustodyError::NotFound),
            !old(self).transfers@.contains_key(transfer_id@) && old(self).shielded_pool@.contains_key(note_id@) && old(self).shielded_pool@[note_id@].spent
                ==> r == Err::<Vec<OutboundTransfer>, CustodyError>(CustodyError::WrongState),
            !old(self).transfers@.contains_key(transfer_id@) && old(self).shielded_pool@.contains_key(note_id@) && !old(self).shielded_pool@[note_id@].spent
                && has_account(old(self).used_nullifiers@, nullifier@) ==> r == Err::<
                Vec<OutboundTransfer>,
                CustodyError,
            >(CustodyError::DuplicateId),
            r is Err ==> *final(self) == *old(self),
            forall|k: Seq<char>| #[trigger]
                old(self).shielded_pool@.contains_key(k) && old(self).shielded_pool@[k].spent
                    ==> final(self).shielded_pool@.contains_key(k) && final(self).shielded_pool@[k]
                    == old(self).shielded_pool@[k],
            r matches Ok(ts) ==> ({
                let n0 = old(self).shielded_pool@[note_id@];
                let fee = fee_of(n0.amount, old(self).fee_percentage);
                &&& final(self).shielded_pool@ == old(self).shielded_pool@.insert(
                    note_id@,
                    spent_note(n0, nullifier),
                )
                &&& final(self).used_nullifiers@ == old(self).used_nullifiers@.push(nullifier)
                &&& (fee > 0 ==> ts@.len() == 2 && ts@[0].recipient == old(self).fee_recipient
                    && ts@[0].amount == fee && ts@[1].recipient == recipient && ts@[1].amount
                    == payout_of(n0.amount, old(self).fee_percentage))
                &&& (fee == 0 ==> ts@.len() == 1 && ts@[0].recipient == recipient
                    && ts@[0].amount == n0.amount)
                &&& final(self).emitted@ == old(self).emitted@ + n0.amount
                &&& final(self).transfers@.dom() =~= old(self).transfers@.dom().insert(
                    transfer_id@,
                )
                &&& forall|k: Seq<char>|
                    k != transfer_id@ && old(self).transfers@.contains_key(k) ==> final(self).transfers@[k] == old(self).transfers@[k]
                &&& final(self).transfers@.contains_key(transfer_id@)
                &&& ({
                    let t = final(self).transfers@[transfer_id@];
                    &&& t.transfer_id == transfer_id
                    &&& t.sender@ == "shielded"@
                    &&& t.recipient == recipient
                    &&& t.amount == payout_of(n0.amount, old(self).fee_percentage)
                    &&& t.transfer_type is Shielded
                    &&& t.status is Completed
                    &&& t.commitment is None
                    &&& t.nullifier == Some(nullifier)
                    &&& t.memo@ == "Shielded withdrawal"@
                    &&& t.timestamp == now
                })
                &&& Self::index_list(final(self).user_transfers@, recipient@) == Self::index_list(
                    old(self).user_transfers@,
                    recipient@,
                ).push(transfer_id)
                &&& forall|a: Seq<char>|
                    a != recipient@ ==> Self::index_list(final(self).user_transfers@, a)
                        == Self::index_list(old(self).user_transfers@, a)
                &&& final(self).owner == old(self).owner
                &&& final(self).fee_percentage == old(self).fee_percentage
                &&& final(self).fee_recipient == old(self).fee_recipient
            }),
    {
        if self.transfers.contains(&transfer_id) {
            return Err(CustodyError::DuplicateId);
        }
        let note = match self.shielded_pool.get(&note_id) {
            Some(n) => n.clone(),
            None => {
                return Err(CustodyError::NotFound);
            },
        };
        if note.spent {
            return Err(CustodyError::WrongState);
        }
        if contains_account(&self.used_nullifiers, &nullifier) {
            return Err(CustodyError::DuplicateId);
        }
        proof {
            lemma_fee_bounds(note.amount, self.fee_percentage);
        }
        let fee: u128 = (note.amount * (self.fee_percentage as u128)) / 10000;
        let payout: u128 = note.amount - fee;
        let updated = ShieldedNote { spent: true, nullifier: Some(nullifier.clone()), ..note };
        proof {
            self.shielded_pool.lemma_kv_view();
        }
        let ghost prekv = self.shielded_pool.kv();
        self.shielded_pool.insert(note_id.clone(), updated);
        proof {
            let i = choose|i: int|
                0 <= i < prekv.len() && prekv[i].0@ == note_id@ && self.shielded_pool.kv()
                    == prekv.update(i, (note_id, updated));
            lemma_map_of_index(prekv, i);
            lemma_spent_sum_update(prekv, i, (note_id, updated));
        }
        self.used_nullifiers.push(nullifier.clone());
        proof {
            lemma_spend_step(
                old(self).shielded_pool@,
                self.shielded_pool@,
                old(self).used_nullifiers@,
                self.used_nullifiers@,
                note_id@,
                nullifier,
            );
        }
        let record = Transfer {
            transfer_id: transfer_id.clone(),
            sender: String::from_str("shielded"),
            recipient: recipient.clone(),
            amount: payout,
            transfer_type: TransferType::Shielded,
            status: TransferStatus::Completed,
            commitment: None,
            nullifier: Some(nullifier),
            memo: String::from_str("Shielded withdrawal"),
            timestamp: now,
        };
        let ghost pretkv = self.transfers.kv();
        self.transfers.insert(transfer_id.clone(), record);
        proof {
            lemma_transfer_sums_push(pretkv, (transfer_id, record));
        }
        self.push_user_transfer(recipient.clone(), transfer_id);
        self.emitted = Ghost(self.emitted@ + note.amount as nat);
        let mut ts: Vec<OutboundTransfer> = Vec::new();
        if fee > 0 {
            ts.push(OutboundTransfer { recipient: self.fee_recipient.clone(), amount: fee });
        }
        ts.push(OutboundTransfer { recipient: recipient, amount: payout });
        Ok(ts)
    }

    /// Owner only: change the fee, capped at 500 basis points.
    pub fn set_fee_percentage(&mut self, caller: String, fee_percentage: u16) -> (r: Result<
        (),
        CustodyError,
    >)
        requires
            old(self).wf(),
        ensures
            final(self).wf(),
            r is Ok <==> (caller@ == old(self).owner@ && fee_percentage <= DIRECT_FEE_CAP),
            caller@ != old(self).owner@ ==> r == Err::<(), CustodyError>(
                CustodyError::Unauthorized,
            ),
            caller@ == old(self).owner@ && fee_percentage > DIRECT_FEE_CAP ==> r == Err::<
                (),
                CustodyError,
            >(CustodyError::Parameter),
            r is Err ==> *final(self) == *old(self),
            r is Ok ==> final(self).fee_percentage == fee_percentage && final(self).transfers
                == old(self).transfers && final(self).user_transfers == old(self).user_transfers
                && final(self).shielded_pool == old(self).shielded_pool && final(self).used_nullifiers == old(self).used_nullifiers && final(self).owner == old(self).owner
                && final(self).fee_recipient == old(self).fee_recipient && final(self).emitted
                == old(self).emitted,
    {
        if !(caller == self.owner) {
            return Err(CustodyError::Unauthorized);
        }
        if fee_percentage > DIRECT_FEE_CAP {
            return Err(CustodyError::Parameter);
        }
        self.fee_percentage = fee_percentage;
        Ok(())
    }

    /// Owner only: change where fees go.
    pub fn set_fee_recipient(&mut self, caller: String, fee_recipient: String) -> (r: Result<
        (),
        CustodyError,
    >)
        requires
            old(self).wf(),
        ensures
            final(self).wf(),
            r is Ok <==> caller@ == old(self).owner@,
            r is Err ==> r == Err::<(), CustodyError>(CustodyError::Unauthorized) && *final(self)
                == *old(self),
            r is Ok ==> final(self).fee_recipient == fee_recipient && final(self).transfers == old(self).transfers && final(self).user_transfers == old(self).user_transfers && final(self).shielded_pool == old(self).shielded_pool && final(self).used_nullifiers == old(self).used_nullifiers && final(self).owner == old(self).owner && final(self).fee_percentage
                == old(self).fee_percentage && final(self).emitted == old(self).emitted,
    {
        if !(caller == self.owner) {
            return Err(CustodyError::Unauthorized);
        }
        self.fee_recipient = fee_recipient;
        Ok(())
    }

    /// The stored transfers for a list of ids, skipping ids with no record.
    pub open spec fn gathered(ids: Seq<String>, m: Map<Seq<char>, Transfer>) -> Seq<Transfer>
        decreases ids.len(),
    {
        if ids.len() == 0 {
            Seq::empty()
        } else {
            let rest = Self::gathered(ids.drop_last(), m);
            if m.contains_key(ids.last()@) {
                rest.push(m[ids.last()@])
            } else {
                rest
            }
        }
    }

    /// All transfers recorded under an account.
    pub fn get_user_transfers(&self, account_id: String) -> (r: Vec<Transfer>)
        requires
            self.wf(),
        ensures
            r@ == Self::gathered(
                Self::index_list(self.user_transfers@, account_id@),
                self.transfers@,
            ),
    {
        let ids: Vec<String> = match self.user_transfers.get(&account_id) {
            Some(v) => clone_id_list(v),
            None => Vec::new(),
        };
        let mut out: Vec<Transfer> = Vec::new();
        let n = ids.len();
        let mut i: usize = 0;
        while i < n
            invariant
                self.wf(),
                n == ids@.len(),
                i <= n,
                out@ == Self::gathered(ids@.subrange(0, i as int), self.transfers@),
            decreases n - i,
        {
            match self.transfers.get(&ids[i]) {
                Some(t) => {
                    out.push(t.clone());
                },
                None => {},
            }
            proof {
                assert(ids@.subrange(0, i + 1 as int).drop_last() =~= ids@.subrange(0, i as int));
                assert(ids@.subrange(0, i + 1 as int).last() == ids@[i as int]);
            }
            i = i + 1;
        }
        proof {
            assert(ids@.subrange(0, n as int) =~= ids@);
        }
        out
    }

    /// Look a transfer up.
    pub fn get_transfer(&self, transfer_id: String) -> (r: Option<Transfer>)
        requires
            self.wf(),
        ensures
            match r {
                Some(t) => self.transfers@.contains_key(transfer_id@) && t == self.transfers@[
                    transfer_id@
                ],
                None => !self.transfers@.contains_key(transfer_id@),
            },
    {
        match self.transfers.get(&transfer_id) {
            Some(t) => Some(t.clone()),
            None => None,
        }
    }

    /// Look a note up.
    pub fn get_shielded_note(&self, note_id: String) -> (r: Option<ShieldedNote>)
        requires
            self.wf(),
        ensures
            match r {
                Some(n) => self.shielded_pool@.contains_key(note_id@) && n == self.shielded_pool@[
                    note_id@
                ],
                None => !self.shielded_pool@.contains_key(note_id@),
            },
    {
        match self.shielded_pool.get(&note_id) {
            Some(n) => Some(n.clone()),
            None => None,
        }
    }

    /// Has this nullifier ever been consumed? With the module invariant this
    /// is exactly whether some note was spent with it.
    pub fn is_nullifier_used(&self, nullifier: String) -> (r: bool)
        requires
            self.wf(),
        ensures
            r == has_account(self.used_nullifiers@, nullifier@),
    {
        contains_account(&self.used_nullifiers, &nullifier)
    }
}

/// Law: a stored note is spent exactly when it carries a nullifier.
pub proof fn lemma_note_spent_iff_nullifier(c: &P2PTransferContract, k: Seq<char>)
    requires
        c.wf(),
        c.shielded_pool@.contains_key(k),
    ensures
        c.shielded_pool@[k].spent <==> c.shielded_pool@[k].nullifier is Some,
{
}

/// Law: no two stored notes are ever spent with the same nullifier.
pub proof fn lemma_no_nullifier_reuse(c: &P2PTransferContract, k1: Seq<char>, k2: Seq<char>)
    requires
        c.wf(),
        c.shielded_pool@.contains_key(k1),
        c.shielded_pool@.contains_key(k2),
        k1 != k2,
    ensures
        nullifier_differs(c.shielded_pool@[k1], c.shielded_pool@[k2]),
{
}

/// Law: the recipient payout of a direct transfer is determined by the
/// attached value and the fee rate alone — two completed direct transfers
/// with the same attached value under the same rate pay the same amount.
pub proof fn lemma_direct_payout_deterministic(a1: u128, bp1: u16, a2: u128, bp2: u16)
    requires
        a1 == a2,
        bp1 == bp2,
    ensures
        payout_of(a1, bp1) == payout_of(a2, bp2),
{
}

/// Law: conservation over the transfer module. Everything it has ever paid
/// out, plus what hidden transfers keep pooled, equals the gross deposits of
/// its transparent records plus the deposits of its spent notes.
pub proof fn lemma_transfer_conservation(c: &P2PTransferContract)
    requires
        c.wf(),
    ensures
        c.emitted@ + pooled_sum(c.transfers.kv()) == direct_sum(c.transfers.kv()) + spent_sum(
            c.shielded_pool.kv(),
        ),
{
}

} // verus!
