//! Hash-time-locked atomic swap.
//!
//! A swap freezes the value attached at initiation behind a hash lock and a
//! time lock. On the happy path the participant locks the swap and then
//! opens it with the secret before the time lock expires; the module then
//! pays the participant, minus a basis-point fee. After expiry the initiator
//! may reclaim the full amount. Two hash families are supported: SHA-256,
//! checked in the module itself, and Poseidon, which the module cannot
//! compute, so completion of a Poseidon swap is gated on a prior attestation
//! by the configured oracle account.

use vstd::prelude::*;
use crate::errors::CustodyError;
use crate::strmap::StrMap;
use crate::strmap::lemma_map_of_index;
use crate::OutboundTransfer;
use crate::MAX_AMOUNT;
use crate::hashing::hash_lock_of;
use crate::hashing::hash_secret;
use crate::hashing::is_key64;
use crate::hashing::key64_check;
use crate::clone_id_list;
use crate::fee_of;
use crate::payout_of;
use crate::lemma_fee_bounds;
use vstd::arithmetic::mul::lemma_mul_inequality;

verus! {

/// Shortest accepted time-lock duration, in seconds.
pub const MIN_TIME_LOCK_SECS: u64 = 3600;

/// Longest accepted time-lock duration, in seconds.
pub const MAX_TIME_LOCK_SECS: u64 = 86400;

pub const NANOS_PER_SEC: u64 = 1_000_000_000;

/// Swap fees may not exceed 1000 basis points (10%).
pub const SWAP_FEE_CAP: u16 = 1000;

#[derive(Clone, Copy, PartialEq, Eq, Structural, Debug)]
pub enum HashAlgorithm {
    SHA256,
    Poseidon,
}

#[derive(Clone, Copy, PartialEq, Eq, Structural, Debug)]
pub enum SwapStatus {
    Initiated,
    Locked,
    Completed,
    Refunded,
    Cancelled,
}

/// A terminal swap never changes again.
pub open spec fn swap_terminal(s: SwapStatus) -> bool {
    s is Completed || s is Refunded
}

pub struct AtomicSwap {
    pub swap_id: String,
    pub initiator: String,
    pub participant: String,
    pub amount: u128,
    pub hash_lock: String,
    pub hash_algorithm: HashAlgorithm,
    pub time_lock: u64,
    pub status: SwapStatus,
    pub secret: Option<String>,
    pub target_chain: String,
    pub target_address: String,
    pub counterparty_swap_id: Option<String>,
    pub created_at: u64,
}

impl Clone for AtomicSwap {
    fn clone(&self) -> (r: Self)
        ensures
            r == *self,
    {
        AtomicSwap {
            swap_id: self.swap_id.clone(),
            initiator: self.initiator.clone(),
            participant: self.participant.clone(),
            amount: self.amount,
            hash_lock: self.hash_lock.clone(),
            hash_algorithm: self.hash_algorithm,
            time_lock: self.time_lock,
            status: self.status,
            secret: match &self.secret {
                Some(s) => Some(s.clone()),
                None => None,
            },
            target_chain: self.target_chain.clone(),
            target_address: self.target_address.clone(),
            counterparty_swap_id: match &self.counterparty_swap_id {
                Some(c) => Some(c.clone()),
                None => None,
            },
            created_at: self.created_at,
        }
    }
}

/// The same swap with another status.
pub open spec fn swap_with_status(s: AtomicSwap, st: SwapStatus) -> AtomicSwap {
    AtomicSwap {
        swap_id: s.swap_id,
        initiator: s.initiator,
        participant: s.participant,
        amount: s.amount,
        hash_lock: s.hash_lock,
        hash_algorithm: s.hash_algorithm,
        time_lock: s.time_lock,
        status: st,
        secret: s.secret,
        target_chain: s.target_chain,
        target_address: s.target_address,
        counterparty_swap_id: s.counterparty_swap_id,
        created_at: s.created_at,
    }
}

/// The same swap completed with the revealed secret.
pub open spec fn swap_completed(s: AtomicSwap, secret: String) -> AtomicSwap {
    AtomicSwap {
        swap_id: s.swap_id,
        initiator: s.initiator,
        participant: s.participant,
        amount: s.amount,
        hash_lock: s.hash_lock,
        hash_algorithm: s.hash_algorithm,
        time_lock: s.time_lock,
        status: SwapStatus::Completed,
        secret: Some(secret),
        target_chain: s.target_chain,
        target_address: s.target_address,
        counterparty_swap_id: s.counterparty_swap_id,
        created_at: s.created_at,
    }
}

/// An oracle attestation that a Poseidon preimage matches.
pub struct PoseidonVerification {
    pub swap_id: String,
    pub poseidon_hash: String,
    pub verified: bool,
    pub verified_at: Option<u64>,
}

impl Clone for PoseidonVerification {
    fn clone(&self) -> (r: Self)
        ensures
            r == *self,
    {
        PoseidonVerification {
            swap_id: self.swap_id.clone(),
            poseidon_hash: self.poseidon_hash.clone(),
            verified: self.verified,
            verified_at: self.verified_at,
        }
    }
}

/// The deposit a record has settled: its full amount once terminal, nothing
/// before.
pub open spec fn swap_value(s: AtomicSwap) -> nat {
    if swap_terminal(s.status) {
        s.amount as nat
    } else {
        0
    }
}

/// Sum of the settled deposits over stored records.
pub open spec fn swap_terminal_sum(s: Seq<(String, AtomicSwap)>) -> nat
    decreases s.len(),
{
    if s.len() == 0 {
        0
    } else {
        swap_terminal_sum(s.drop_last()) + swap_value(s.last().1)
    }
}

pub proof fn lemma_swap_sum_update(s: Seq<(String, AtomicSwap)>, i: int, e: (String, AtomicSwap))
    requires
        0 <= i < s.len(),
    ensures
        swap_terminal_sum(s.update(i, e)) + swap_value(s[i].1) == swap_terminal_sum(s)
            + swap_value(e.1),
    decreases s.len(),
{
    if i == s.len() - 1 {
        assert(s.update(i, e).drop_last() =~= s.drop_last());
        assert(s.update(i, e).last() == e);
    } else {
        assert(s.update(i, e).drop_last() =~= s.drop_last().update(i, e));
        assert(s.drop_last()[i] == s[i]);
        lemma_swap_sum_update(s.drop_last(), i, e);
        assert(s.update(i, e).last() == s.last());
    }
}

pub proof fn lemma_swap_sum_push(s: Seq<(String, AtomicSwap)>, e: (String, AtomicSwap))
    ensures
        swap_terminal_sum(s.push(e)) == swap_terminal_sum(s) + swap_value(e.1),
{
    assert(s.push(e).drop_last() =~= s);
    assert(s.push(e).last() == e);
}

/// What holds of every stored swap. A completed swap always carries its
/// revealed secret, and for the SHA-256 family the secret provably opens the
/// stored hash lock.
pub open spec fn swap_record_ok(k: Seq<char>, s: AtomicSwap) -> bool {
    &&& s.swap_id@ == k
    &&& 0 < s.amount <= MAX_AMOUNT
    &&& is_key64(s.hash_lock@)
    &&& (s.status is Completed <==> s.secret is Some)
    &&& (s.status is Completed && s.hash_algorithm is SHA256 ==> (s.secret matches Some(sec)
        && hash_lock_of(sec@) == s.hash_lock@))
}

/// One swap module instance.
pub struct SwapContract {
    pub swaps: StrMap<AtomicSwap>,
    pub swaps_by_initiator: StrMap<Vec<String>>,
    pub swaps_by_participant: StrMap<Vec<String>>,
    pub oracle_verifications: StrMap<PoseidonVerification>,
    pub owner: String,
    pub oracle_account: String,
    pub fee_recipient: String,
    pub fee_percentage: u16,
    pub min_time_lock: u64,
    pub max_time_lock: u64,
    /// Total value of the outbound transfers this instance has queued.
    pub emitted: Ghost<nat>,
}

impl SwapContract {
    /// The module invariant: well-formed stores, a capped fee, bounded
    /// time-lock limits, every stored swap well formed, and everything ever
    /// paid out equal to the settled deposits of the terminal records.
    pub open spec fn wf(&self) -> bool {
        &&& self.swaps.wf()
        &&& self.swaps_by_initiator.wf()
        &&& self.swaps_by_participant.wf()
        &&& self.oracle_verifications.wf()
        &&& self.fee_percentage <= SWAP_FEE_CAP
        &&& 0 < self.min_time_lock <= self.max_time_lock <= MAX_TIME_LOCK_SECS
        &&& forall|k: Seq<char>| #[trigger]
            self.swaps@.contains_key(k) ==> swap_record_ok(k, self.swaps@[k])
        &&& self.emitted@ == swap_terminal_sum(self.swaps.kv())
    }

    /// A fresh instance: 30 basis points fee to the owner, time locks
    /// between one hour and one day.
    pub fn new(owner: String, oracle_account: String) -> (r: SwapContract)
        ensures
            r.wf(),
            r.swaps@ =~= Map::<Seq<char>, AtomicSwap>::empty(),
            r.swaps_by_initiator@ =~= Map::<Seq<char>, Vec<String>>::empty(),
            r.swaps_by_participant@ =~= Map::<Seq<char>, Vec<String>>::empty(),
            r.oracle_verifications@ =~= Map::<Seq<char>, PoseidonVerification>::empty(),
            r.owner == owner,
            r.oracle_account == oracle_account,
            r.fee_recipient == owner,
            r.fee_percentage == 30,
            r.min_time_lock == MIN_TIME_LOCK_SECS,
            r.max_time_lock == MAX_TIME_LOCK_SECS,
            r.emitted@ == 0,
    {
        let fee_recipient = owner.clone();
        SwapContract {
            swaps: StrMap::new(),
            swaps_by_initiator: StrMap::new(),
            swaps_by_participant: StrMap::new(),
            oracle_verifications: StrMap::new(),
            owner,
            oracle_account,
            fee_recipient,
            fee_percentage: 30,
            min_time_lock: MIN_TIME_LOCK_SECS,
            max_time_lock: MAX_TIME_LOCK_SECS,
            emitted: Ghost(0),
        }
    }

    /// The ids indexed under an account, as stored.
    pub open spec fn index_list(m: Map<Seq<char>, Vec<String>>, a: Seq<char>) -> Seq<String> {
        if m.contains_key(a) {
            m[a]@
        } else {
            Seq::empty()
        }
    }

    /// Freeze the attached value behind `hash_lock` until `now +
    /// time_lock_duration` seconds. The record's amount is exactly the
    /// attached value.
    pub fn initiate_swap(
        &mut self,
        caller: String,
        now: u64,
        attached: u128,
        swap_id: String,
        participant: String,
        hash_lock: String,
        hash_algorithm: HashAlgorithm,
        time_lock_duration: u64,
        target_chain: String,
        target_address: String,
        counterparty_swap_id: Option<String>,
    ) -> (r: Result<AtomicSwap, CustodyError>)
        requires
            old(self).wf(),
            attached <= MAX_AMOUNT,
            now <= u64::MAX - MAX_TIME_LOCK_SECS * NANOS_PER_SEC,
        ensures
            final(self).wf(),
            r is Ok <==> (attached > 0 && !old(self).swaps@.contains_key(swap_id@) && old(self).min_time_lock <= time_lock_duration <= old(self).max_time_lock && is_key64(
                hash_lock@,
            )),
            attached == 0 ==> r == Err::<AtomicSwap, CustodyError>(CustodyError::Parameter),
            attached > 0 && old(self).swaps@.contains_key(swap_id@) ==> r == Err::<
                AtomicSwap,
                CustodyError,
            >(CustodyError::DuplicateId),
            attached > 0 && !old(self).swaps@.contains_key(swap_id@) && !(old(self).min_time_lock
                <= time_lock_duration <= old(self).max_time_lock) ==> r == Err::<
                AtomicSwap,
                CustodyError,
            >(CustodyError::Parameter),
            attached > 0 && !old(self).swaps@.contains_key(swap_id@) && old(self).min_time_lock
                <= time_lock_duration <= old(self).max_time_lock && !is_key64(hash_lock@) ==> r
                == Err::<AtomicSwap, CustodyError>(CustodyError::Parameter),
            r is Err ==> *final(self) == *old(self),
            r matches Ok(s) ==> ({
                &&& s == (AtomicSwap {
                    swap_id: swap_id,
                    initiator: caller,
                    participant: participant,
                    amount: attached,
                    hash_lock: hash_lock,
                    hash_algorithm: hash_algorithm,
                    time_lock: (now + time_lock_duration * NANOS_PER_SEC) as u64,
                    status: SwapStatus::Initiated,
                    secret: None,
                    target_chain: target_chain,
                    target_address: target_address,
                    counterparty_swap_id: counterparty_swap_id,
                    created_at: now,
                })
                &&& final(self).swaps@ == old(self).swaps@.insert(swap_id@, s)
                &&& Self::index_list(final(self).swaps_by_initiator@, caller@) == Self::index_list(
                    old(self).swaps_by_initiator@,
                    caller@,
                ).push(swap_id)
                &&& Self::index_list(final(self).swaps_by_participant@, participant@)
                    == Self::index_list(old(self).swaps_by_participant@, participant@).push(swap_id)
                &&& forall|a: Seq<char>|
                    a != caller@ ==> Self::index_list(final(self).swaps_by_initiator@, a)
                        == Self::index_list(old(self).swaps_by_initiator@, a)
                &&& forall|a: Seq<char>|
                    a != participant@ ==> Self::index_list(final(self).swaps_by_participant@, a)
                        == Self::index_list(old(self).swaps_by_participant@, a)
                &&& final(self).oracle_verifications == old(self).oracle_verifications
                &&& final(self).owner == old(self).owner
                &&& final(self).oracle_account == old(self).oracle_account
                &&& final(self).fee_recipient == old(self).fee_recipient
                &&& final(self).fee_percentage == old(self).fee_percentage
                &&& final(self).emitted == old(self).emitted
            }),
    {
        if attached == 0 {
            return Err(CustodyError::Parameter);
        }
        if self.swaps.contains(&swap_id) {
            return Err(CustodyError::DuplicateId);
        }
        if time_lock_duration < self.min_time_lock || time_lock_duration > self.max_time_lock {
            return Err(CustodyError::Parameter);
        }
        if !key64_check(&hash_lock) {
            return Err(CustodyError::Parameter);
        }
        proof {
            lemma_mul_inequality(
                time_lock_duration as int,
                MAX_TIME_LOCK_SECS as int,
                NANOS_PER_SEC as int,
            );
        }
        let time_lock = now + time_lock_duration * NANOS_PER_SEC;
        let record = AtomicSwap {
            swap_id: swap_id.clone(),
            initiator: caller.clone(),
            participant: participant.clone(),
            amount: attached,
            hash_lock: hash_lock,
            hash_algorithm: hash_algorithm,
            time_lock: time_lock,
            status: SwapStatus::Initiated,
            secret: None,
            target_chain: target_chain,
            target_address: target_address,
            counterparty_swap_id: counterparty_swap_id,
            created_at: now,
        };
        let result = record.clone();
        let ghost prekv = self.swaps.kv();
        self.swaps.insert(swap_id.clone(), record);
        proof {
            lemma_swap_sum_push(prekv, (swap_id, record));
        }
        self.push_index_initiator(caller, swap_id.clone());
        self.push_index_participant(participant, swap_id);
        Ok(result)
    }

    /// Append a swap id to the initiator index of an account.
    fn push_index_initiator(&mut self, account: String, id: String)
        requires
            old(self).swaps_by_initiator.wf(),
        ensures
            final(self).swaps_by_initiator.wf(),
            Self::index_list(final(self).swaps_by_initiator@, account@) == Self::index_list(
                old(self).swaps_by_initiator@,
                account@,
            ).push(id),
            forall|a: Seq<char>|
                a != account@ ==> Self::index_list(final(self).swaps_by_initiator@, a)
                    == Self::index_list(old(self).swaps_by_initiator@, a),
            final(self).swaps == old(self).swaps,
            final(self).swaps_by_participant == old(self).swaps_by_participant,
            final(self).oracle_verifications == old(self).oracle_verifications,
            final(self).owner == old(self).owner,
            final(self).oracle_account == old(self).oracle_account,
            final(self).fee_recipient == old(self).fee_recipient,
            final(self).fee_percentage == old(self).fee_percentage,
            final(self).min_time_lock == old(self).min_time_lock,
            final(self).max_time_lock == old(self).max_time_lock,
            final(self).emitted == old(self).emitted,
    {
        let mut list: Vec<String> = match self.swaps_by_initiator.get(&account) {
            Some(v) => clone_id_list(v),
            None => Vec::new(),
        };
        list.push(id);
        self.swaps_by_initiator.insert(account, list);
    }

    /// Append a swap id to the participant index of an account.
    fn push_index_participant(&mut self, account: String, id: String)
        requires
            old(self).swaps_by_participant.wf(),
        ensures
            final(self).swaps_by_participant.wf(),
            Self::index_list(final(self).swaps_by_participant@, account@) == Self::index_list(
                old(self).swaps_by_participant@,
                account@,
            ).push(id),
            forall|a: Seq<char>|
                a != account@ ==> Self::index_list(final(self).swaps_by_participant@, a)
                    == Self::index_list(old(self).swaps_by_participant@, a),
            final(self).swaps == old(self).swaps,
            final(self).swaps_by_initiator == old(self).swaps_by_initiator,
            final(self).oracle_verifications == old(self).oracle_verifications,
            final(self).owner == old(self).owner,
            final(self).oracle_account == old(self).oracle_account,
            final(self).fee_recipient == old(self).fee_recipient,
            final(self).fee_percentage == old(self).fee_percentage,
            final(self).min_time_lock == old(self).min_time_lock,
            final(self).max_time_lock == old(self).max_time_lock,
            final(self).emitted == old(self).emitted,
    {
        let mut list: Vec<String> = match self.swaps_by_participant.get(&account) {
            Some(v) => clone_id_list(v),
            None => Vec::new(),
        };
        list.push(id);
        self.swaps_by_participant.insert(account, list);
    }

    /// The participant locks their side of the swap before the time lock
    /// expires.
    pub fn lock_swap(&mut self, caller: String, now: u64, swap_id: String) -> (r: Result<
        (),
        CustodyError,
    >)
        requires
            old(self).wf(),
        ensures
            final(self).wf(),
            r is Ok <==> (old(self).swaps@.contains_key(swap_id@) && caller@ == old(self).swaps@[
                swap_id@
            ].participant@ && old(self).swaps@[swap_id@].status is Initiated && now < old(self).swaps@[swap_id@].time_lock),
            !old(self).swaps@.contains_key(swap_id@) ==> r == Err::<(), CustodyError>(
                CustodyError::NotFound,
            ),
            old(self).swaps@.contains_key(swap_id@) && caller@ != old(self).swaps@[
                swap_id@
            ].participant@ ==> r == Err::<(), CustodyError>(CustodyError::Unauthorized),
            old(self).swaps@.contains_key(swap_id@) && caller@ == old(self).swaps@[
                swap_id@
            ].participant@ && !(old(self).swaps@[swap_id@].status is Initiated) ==> r == Err::<
                (),
                CustodyError,
            >(CustodyError::WrongState),
            old(self).swaps@.contains_key(swap_id@) && caller@ == old(self).swaps@[
                swap_id@
            ].participant@ && old(self).swaps@[swap_id@].status is Initiated && now >= old(self).swaps@[swap_id@].time_lock ==> r == Err::<(), CustodyError>(CustodyError::Temporal),
            r is Err ==> *final(self) == *old(self),
            r is Ok ==> ({
                &&& final(self).swaps@ == old(self).swaps@.insert(
                    swap_id@,
                    swap_with_status(old(self).swaps@[swap_id@], SwapStatus::Locked),
                )
                &&& final(self).swaps_by_initiator == old(self).swaps_by_initiator
                &&& final(self).swaps_by_participant == old(self).swaps_by_participant
                &&& final(self).oracle_verifications == old(self).oracle_verifications
                &&& final(self).owner == old(self).owner
                &&& final(self).oracle_account == old(self).oracle_account
                &&& final(self).fee_recipient == old(self).fee_recipient
                &&& final(self).fee_percentage == old(self).fee_percentage
                &&& final(self).emitted == old(self).emitted
            }),
            forall|k: Seq<char>| #[trigger]
                old(self).swaps@.contains_key(k) && swap_terminal(old(self).swaps@[k].status)
                    ==> final(self).swaps@.contains_key(k) && final(self).swaps@[k] == old(self).swaps@[k],
    {
        let s = match self.swaps.get(&swap_id) {
            Some(x) => x.clone(),
            None => {
                return Err(CustodyError::NotFound);
            },
        };
        if !(caller == s.participant) {
            return Err(CustodyError::Unauthorized);
        }
        if !(s.status == SwapStatus::Initiated) {
            return Err(CustodyError::WrongState);
        }
        if now >= s.time_lock {
            return Err(CustodyError::Temporal);
        }
        let updated = AtomicSwap { status: SwapStatus::Locked, ..s };
        proof {
            self.swaps.lemma_kv_view();
        }
        let ghost prekv = self.swaps.kv();
        self.swaps.insert(swap_id, updated);
        proof {
            let i = choose|i: int|
                0 <= i < prekv.len() && prekv[i].0@ == swap_id@ && self.swaps.kv() == prekv.update(
                    i,
                    (swap_id, updated),
                );
            lemma_map_of_index(prekv, i);
            lemma_swap_sum_update(prekv, i, (swap_id, updated));
        }
        Ok(())
    }

    /// Whether a candidate secret opens the lock of the stored swap `k`: for
    /// SHA-256 the module checks the hash itself; for Poseidon, which it
    /// cannot compute, it goes by the oracle's attestation.
    pub open spec fn completion_ok(self, k: Seq<char>, secret: Seq<char>) -> bool
        recommends
            self.swaps@.contains_key(k),
    {
        if self.swaps@[k].hash_algorithm is Poseidon {
            self.oracle_verifications@.contains_key(k) && self.oracle_verifications@[k].verified
        } else {
            hash_lock_of(secret) == self.swaps@[k].hash_lock@
        }
    }

    /// Open a locked swap with the secret before expiry. Settlement: the
    /// basis-point fee goes to the fee recipient, the remainder to the
    /// participant; together they are exactly the frozen amount.
    pub fn complete_swap_with_oracle_verification(
        &mut self,
        now: u64,
        swap_id: String,
        secret: String,
    ) -> (r: Result<Vec<OutboundTransfer>, CustodyError>)
        requires
            old(self).wf(),
        ensures
            final(self).wf(),
            r is Ok <==> (old(self).swaps@.contains_key(swap_id@) && old(self).completion_ok(
                swap_id@,
                secret@,
            ) && old(self).swaps@[swap_id@].status is Locked && now < old(self).swaps@[
                swap_id@
            ].time_lock),
            !old(self).swaps@.contains_key(swap_id@) ==> r == Err::<
                Vec<OutboundTransfer>,
                CustodyError,
            >(CustodyError::NotFound),
            old(self).swaps@.contains_key(swap_id@) && !old(self).completion_ok(swap_id@, secret@)
                && old(self).swaps@[swap_id@].hash_algorithm is Poseidon ==> r == Err::<
                Vec<OutboundTransfer>,
                CustodyError,
            >(CustodyError::MissingOracleVerification),
            old(self).swaps@.contains_key(swap_id@) && !old(self).completion_ok(swap_id@, secret@)
                && old(self).swaps@[swap_id@].hash_algorithm is SHA256 ==> r == Err::<
                Vec<OutboundTransfer>,
                CustodyError,
            >(CustodyError::Unauthorized),
            old(self).swaps@.contains_key(swap_id@) && old(self).completion_ok(swap_id@, secret@)
                && !(old(self).swaps@[swap_id@].status is Locked) ==> r == Err::<
                Vec<OutboundTransfer>,
                CustodyError,
            >(CustodyError::WrongState),
            old(self).swaps@.contains_key(swap_id@) && old(self).completion_ok(swap_id@, secret@)
                && old(self).swaps@[swap_id@].status is Locked && now >= old(self).swaps@[
                swap_id@
            ].time_lock ==> r == Err::<Vec<OutboundTransfer>, CustodyError>(CustodyError::Temporal),
            r is Err ==> *final(self) == *old(self),
            r matches Ok(ts) ==> ({
                let s0 = old(self).swaps@[swap_id@];
                let fee = fee_of(s0.amount, old(self).fee_percentage);
                &&& final(self).swaps@ == old(self).swaps@.insert(
                    swap_id@,
                    swap_completed(s0, secret),
                )
                &&& final(self).emitted@ == old(self).emitted@ + s0.amount
                &&& (fee > 0 ==> ts@.len() == 2 && ts@[0].recipient == old(self).fee_recipient
                    && ts@[0].amount == fee && ts@[1].recipient == s0.participant && ts@[1].amount
                    == payout_of(s0.amount, old(self).fee_percentage))
                &&& (fee == 0 ==> ts@.len() == 1 && ts@[0].recipient == s0.participant
                    && ts@[0].amount == s0.amount)
                &&& final(self).swaps_by_initiator == old(self).swaps_by_initiator
                &&& final(self).swaps_by_participant == old(self).swaps_by_participant
                &&& final(self).oracle_verifications == old(self).oracle_verifications
                &&& final(self).owner == old(self).owner
                &&& final(self).oracle_account == old(self).oracle_account
                &&& final(self).fee_recipient == old(self).fee_recipient
                &&& final(self).fee_percentage == old(self).fee_percentage
            }),
            forall|k: Seq<char>| #[trigger]
                old(self).swaps@.contains_key(k) && swap_terminal(old(self).swaps@[k].status)
                    ==> final(self).swaps@.contains_key(k) && final(self).swaps@[k] == old(self).swaps@[k],
    {
        let s = match self.swaps.get(&swap_id) {
            Some(x) => x.clone(),
            None => {
                return Err(CustodyError::NotFound);
            },
        };
        let ok = if s.hash_algorithm == HashAlgorithm::Poseidon {
            match self.oracle_verifications.get(&swap_id) {
                Some(v) => v.verified,
                None => false,
            }
        } else {
            let computed = hash_secret(secret.as_str());
            computed == s.hash_lock
        };
        if !ok {
            if s.hash_algorithm == HashAlgorithm::Poseidon {
                return Err(CustodyError::MissingOracleVerification);
            }
            return Err(CustodyError::Unauthorized);
        }
        if !(s.status == SwapStatus::Locked) {
            return Err(CustodyError::WrongState);
        }
        if now >= s.time_lock {
            return Err(CustodyError::Temporal);
        }
        proof {
            lemma_fee_bounds(s.amount, self.fee_percentage);
        }
        let fee: u128 = (s.amount * (self.fee_percentage as u128)) / 10000;
        let payout: u128 = s.amount - fee;
        let participant = s.participant.clone();
        let amount = s.amount;
        let updated = AtomicSwap { status: SwapStatus::Completed, secret: Some(secret), ..s };
        proof {
            self.swaps.lemma_kv_view();
        }
        let ghost prekv = self.swaps.kv();
        self.swaps.insert(swap_id, updated);
        proof {
            let i = choose|i: int|
                0 <= i < prekv.len() && prekv[i].0@ == swap_id@ && self.swaps.kv() == prekv.update(
                    i,
                    (swap_id, updated),
                );
            lemma_map_of_index(prekv, i);
            lemma_swap_sum_update(prekv, i, (swap_id, updated));
        }
        self.emitted = Ghost(self.emitted@ + amount as nat);
        let mut ts: Vec<OutboundTransfer> = Vec::new();
        if fee > 0 {
            ts.push(OutboundTransfer { recipient: self.fee_recipient.clone(), amount: fee });
        }
        ts.push(OutboundTransfer { recipient: participant, amount: payout });
        Ok(ts)
    }

    /// Open a locked swap with the secret before expiry. The same transition
    /// as `complete_swap_with_oracle_verification`, under the name the
    /// single-family module surface uses.
    pub fn complete_swap(&mut self, now: u64, swap_id: String, secret: String) -> (r: Result<
        Vec<OutboundTransfer>,
        CustodyError,
    >)
        requires
            old(self).wf(),
        ensures
            final(self).wf(),
            r is Ok <==> (old(self).swaps@.contains_key(swap_id@) && old(self).completion_ok(
                swap_id@,
                secret@,
            ) && old(self).swaps@[swap_id@].status is Locked && now < old(self).swaps@[
                swap_id@
            ].time_lock),
            !old(self).swaps@.contains_key(swap_id@) ==> r == Err::<
                Vec<OutboundTransfer>,
                CustodyError,
            >(CustodyError::NotFound),
            old(self).swaps@.contains_key(swap_id@) && !old(self).completion_ok(swap_id@, secret@)
                && old(self).swaps@[swap_id@].hash_algorithm is Poseidon ==> r == Err::<
                Vec<OutboundTransfer>,
                CustodyError,
            >(CustodyError::MissingOracleVerification),
            old(self).swaps@.contains_key(swap_id@) && !old(self).completion_ok(swap_id@, secret@)
                && old(self).swaps@[swap_id@].hash_algorithm is SHA256 ==> r == Err::<
                Vec<OutboundTransfer>,
                CustodyError,
            >(CustodyError::Unauthorized),
            old(self).swaps@.contains_key(swap_id@) && old(self).completion_ok(swap_id@, secret@)
                && !(old(self).swaps@[swap_id@].status is Locked) ==> r == Err::<
                Vec<OutboundTransfer>,
                CustodyError,
            >(CustodyError::WrongState),
            old(self).swaps@.contains_key(swap_id@) && old(self).completion_ok(swap_id@, secret@)
                && old(self).swaps@[swap_id@].status is Locked && now >= old(self).swaps@[
                swap_id@
            ].time_lock ==> r == Err::<Vec<OutboundTransfer>, CustodyError>(CustodyError::Temporal),
            r is Err ==> *final(self) == *old(self),
            r matches Ok(ts) ==> ({
                let s0 = old(self).swaps@[swap_id@];
                let fee = fee_of(s0.amount, old(self).fee_percentage);
                &&& final(self).swaps@ == old(self).swaps@.insert(
                    swap_id@,
                    swap_completed(s0, secret),
                )
                &&& final(self).emitted@ == old(self).emitted@ + s0.amount
                &&& (fee > 0 ==> ts@.len() == 2 && ts@[0].recipient == old(self).fee_recipient
                    && ts@[0].amount == fee && ts@[1].recipient == s0.participant && ts@[1].amount
                    == payout_of(s0.amount, old(self).fee_percentage))
                &&& (fee == 0 ==> ts@.len() == 1 && ts@[0].recipient == s0.participant
                    && ts@[0].amount == s0.amount)
                &&& final(self).swaps_by_initiator == old(self).swaps_by_initiator
                &&& final(self).swaps_by_participant == old(self).swaps_by_participant
                &&& final(self).oracle_verifications == old(self).oracle_verifications
                &&& final(self).owner == old(self).owner
                &&& final(self).oracle_account == old(self).oracle_account
                &&& final(self).fee_recipient == old(self).fee_recipient
                &&& final(self).fee_percentage == old(self).fee_percentage
            }),
            forall|k: Seq<char>| #[trigger]
                old(self).swaps@.contains_key(k) && swap_terminal(old(self).swaps@[k].status)
                    ==> final(self).swaps@.contains_key(k) && final(self).swaps@[k] == old(self).swaps@[k],
    {
        self.complete_swap_with_oracle_verification(now, swap_id, secret)
    }

    /// The configured oracle records whether a Poseidon preimage matches.
    /// Overwriting an earlier attestation is permitted.
    pub fn submit_oracle_verification(
        &mut self,
        caller: String,
        now: u64,
        swap_id: String,
        poseidon_hash: String,
        secret_matches: bool,
    ) -> (r: Result<(), CustodyError>)
        requires
            old(self).wf(),
        ensures
            final(self).wf(),
            r is Ok <==> (caller@ == old(self).oracle_account@ && old(self).swaps@.contains_key(
                swap_id@,
            ) && old(self).swaps@[swap_id@].hash_algorithm is Poseidon),
            caller@ != old(self).oracle_account@ ==> r == Err::<(), CustodyError>(
                CustodyError::Unauthorized,
            ),
            caller@ == old(self).oracle_account@ && !old(self).swaps@.contains_key(swap_id@) ==> r
                == Err::<(), CustodyError>(CustodyError::NotFound),
            caller@ == old(self).oracle_account@ && old(self).swaps@.contains_key(swap_id@) && !(
            old(self).swaps@[swap_id@].hash_algorithm is Poseidon) ==> r == Err::<(), CustodyError>(
                CustodyError::Parameter,
            ),
            r is Err ==> *final(self) == *old(self),
            r is Ok ==> ({
                &&& final(self).oracle_verifications@ == old(self).oracle_verifications@.insert(
                    swap_id@,
                    (PoseidonVerification {
                        swap_id: swap_id,
                        poseidon_hash: poseidon_hash,
                        verified: secret_matches,
                        verified_at: Some(now),
                    }),
                )
                &&& final(self).swaps == old(self).swaps
                &&& final(self).swaps_by_initiator == old(self).swaps_by_initiator
                &&& final(self).swaps_by_participant == old(self).swaps_by_participant
                &&& final(self).owner == old(self).owner
                &&& final(self).oracle_account == old(self).oracle_account
                &&& final(self).fee_recipient == old(self).fee_recipient
                &&& final(self).fee_percentage == old(self).fee_percentage
                &&& final(self).emitted == old(self).emitted
            }),
    {
        if !(caller == self.oracle_account) {
            return Err(CustodyError::Unauthorized);
        }
        let s = match self.swaps.get(&swap_id) {
            Some(x) => x.clone(),
            None => {
                return Err(CustodyError::NotFound);
            },
        };
        if !(s.hash_algorithm == HashAlgorithm::Poseidon) {
            return Err(CustodyError::Parameter);
        }
        let record = PoseidonVerification {
            swap_id: swap_id.clone(),
            poseidon_hash: poseidon_hash,
            verified: secret_matches,
            verified_at: Some(now),
        };
        self.oracle_verifications.insert(swap_id, record);
        Ok(())
    }

    /// After the time lock expires the initiator reclaims the full amount:
    /// no fee is taken from a refund.
    pub fn refund_swap(&mut self, caller: String, now: u64, swap_id: String) -> (r: Result<
        OutboundTransfer,
        CustodyError,
    >)
        requires
            old(self).wf(),
        ensures
            final(self).wf(),
            r is Ok <==> (old(self).swaps@.contains_key(swap_id@) && caller@ == old(self).swaps@[
                swap_id@
            ].initiator@ && !swap_terminal(old(self).swaps@[swap_id@].status) && now >= old(self).swaps@[swap_id@].time_lock),
            !old(self).swaps@.contains_key(swap_id@) ==> r == Err::<
                OutboundTransfer,
                CustodyError,
            >(CustodyError::NotFound),
            old(self).swaps@.contains_key(swap_id@) && caller@ != old(self).swaps@[
                swap_id@
            ].initiator@ ==> r == Err::<OutboundTransfer, CustodyError>(CustodyError::Unauthorized),
            old(self).swaps@.contains_key(swap_id@) && caller@ == old(self).swaps@[
                swap_id@
            ].initiator@ && swap_terminal(old(self).swaps@[swap_id@].status) ==> r == Err::<
                OutboundTransfer,
                CustodyError,
            >(CustodyError::WrongState),
            old(self).swaps@.contains_key(swap_id@) && caller@ == old(self).swaps@[
                swap_id@
            ].initiator@ && !swap_terminal(old(self).swaps@[swap_id@].status) && now < old(self).swaps@[swap_id@].time_lock ==> r == Err::<OutboundTransfer, CustodyError>(
                CustodyError::Temporal,
            ),
            r is Err ==> *final(self) == *old(self),
            r matches Ok(t) ==> ({
                let s0 = old(self).swaps@[swap_id@];
                &&& t.recipient == s0.initiator
                &&& t.amount == s0.amount
                &&& final(self).swaps@ == old(self).swaps@.insert(
                    swap_id@,
                    swap_with_status(s0, SwapStatus::Refunded),
                )
                &&& final(self).emitted@ == old(self).emitted@ + s0.amount
                &&& final(self).swaps_by_initiator == old(self).swaps_by_initiator
                &&& final(self).swaps_by_participant == old(self).swaps_by_participant
                &&& final(self).oracle_verifications == old(self).oracle_verifications
                &&& final(self).owner == old(self).owner
                &&& final(self).oracle_account == old(self).oracle_account
                &&& final(self).fee_recipient == old(self).fee_recipient
                &&& final(self).fee_percentage == old(self).fee_percentage
            }),
            forall|k: Seq<char>| #[trigger]
                old(self).swaps@.contains_key(k) && swap_terminal(old(self).swaps@[k].status)
                    ==> final(self).swaps@.contains_key(k) && final(self).swaps@[k] == old(self).swaps@[k],
    {
        let s = match self.swaps.get(&swap_id) {
            Some(x) => x.clone(),
            None => {
                return Err(CustodyError::NotFound);
            },
        };
        if !(caller == s.initiator) {
            return Err(CustodyError::Unauthorized);
        }
        if s.status == SwapStatus::Completed || s.status == SwapStatus::Refunded {
            return Err(CustodyError::WrongState);
        }
        if now < s.time_lock {
            return Err(CustodyError::Temporal);
        }
        let updated = AtomicSwap { status: SwapStatus::Refunded, ..s };
        let recipient = updated.initiator.clone();
        let amount = updated.amount;
        proof {
            self.swaps.lemma_kv_view();
        }
        let ghost prekv = self.swaps.kv();
        self.swaps.insert(swap_id, updated);
        proof {
            let i = choose|i: int|
                0 <= i < prekv.len() && prekv[i].0@ == swap_id@ && self.swaps.kv() == prekv.update(
                    i,
                    (swap_id, updated),
                );
            lemma_map_of_index(prekv, i);
            lemma_swap_sum_update(prekv, i, (swap_id, updated));
        }
        self.emitted = Ghost(self.emitted@ + amount as nat);
        Ok(OutboundTransfer { recipient, amount })
    }

    /// Owner only: change the fee, capped at 1000 basis points.
    pub fn set_fee_percentage(&mut self, caller: String, fee_percentage: u16) -> (r: Result<
        (),
        CustodyError,
    >)
        requires
            old(self).wf(),
        ensures
            final(self).wf(),
            r is Ok <==> (caller@ == old(self).owner@ && fee_percentage <= SWAP_FEE_CAP),
            caller@ != old(self).owner@ ==> r == Err::<(), CustodyError>(
                CustodyError::Unauthorized,
            ),
            caller@ == old(self).owner@ && fee_percentage > SWAP_FEE_CAP ==> r == Err::<
                (),
                CustodyError,
            >(CustodyError::Parameter),
            r is Err ==> *final(self) == *old(self),
            r is Ok ==> final(self).fee_percentage == fee_percentage && final(self).swaps == old(self).swaps && final(self).swaps_by_initiator == old(self).swaps_by_initiator && final(self).swaps_by_participant == old(self).swaps_by_participant && final(self).oracle_verifications == old(self).oracle_verifications && final(self).owner == old(self).owner && final(self).oracle_account == old(self).oracle_account && final(self).fee_recipient == old(self).fee_recipient && final(self).emitted == old(self).emitted,
    {
        if !(caller == self.owner) {
            return Err(CustodyError::Unauthorized);
        }
        if fee_percentage > SWAP_FEE_CAP {
            return Err(CustodyError::Parameter);
        }
        self.fee_percentage = fee_percentage;
        Ok(())
    }

    /// Owner only: change where fees go.
    pub fn set_fee_recipient(&mut self, caller: String, fee_recipient: String) -> (r: Result<
        (),
        CustodyError,
    >)
        requires
            old(self).wf(),
        ensures
            final(self).wf(),
            r is Ok <==> caller@ == old(self).owner@,
            r is Err ==> r == Err::<(), CustodyError>(CustodyError::Unauthorized) && *final(self)
                == *old(self),
            r is Ok ==> final(self).fee_recipient == fee_recipient && final(self).swaps == old(self).swaps && final(self).swaps_by_initiator == old(self).swaps_by_initiator && final(self).swaps_by_participant == old(self).swaps_by_participant && final(self).oracle_verifications == old(self).oracle_verifications && final(self).owner == old(self).owner && final(self).oracle_account == old(self).oracle_account && final(self).fee_percentage == old(self).fee_percentage && final(self).emitted == old(self).emitted,
    {
        if !(caller == self.owner) {
            return Err(CustodyError::Unauthorized);
        }
        self.fee_recipient = fee_recipient;
        Ok(())
    }

    /// Owner only: change which account the module believes as oracle.
    pub fn set_oracle_account(&mut self, caller: String, oracle_account: String) -> (r: Result<
        (),
        CustodyError,
    >)
        requires
            old(self).wf(),
        ensures
            final(self).wf(),
            r is Ok <==> caller@ == old(self).owner@,
            r is Err ==> r == Err::<(), CustodyError>(CustodyError::Unauthorized) && *final(self)
                == *old(self),
            r is Ok ==> final(self).oracle_account == oracle_account && final(self).swaps == old(self).swaps && final(self).swaps_by_initiator == old(self).swaps_by_initiator && final(self).swaps_by_participant == old(self).swaps_by_participant && final(self).oracle_verifications == old(self).oracle_verifications && final(self).owner == old(self).owner && final(self).fee_recipient == old(self).fee_recipient && final(self).fee_percentage == old(self).fee_percentage && final(self).emitted == old(self).emitted,
    {
        if !(caller == self.owner) {
            return Err(CustodyError::Unauthorized);
        }
        self.oracle_account = oracle_account;
        Ok(())
    }

    /// Look the oracle's attestation for a swap up.
    pub fn get_oracle_verification(&self, swap_id: String) -> (r: Option<PoseidonVerification>)
        requires
            self.wf(),
        ensures
            match r {
                Some(v) => self.oracle_verifications@.contains_key(swap_id@) && v
                    == self.oracle_verifications@[swap_id@],
                None => !self.oracle_verifications@.contains_key(swap_id@),
            },
    {
        match self.oracle_verifications.get(&swap_id) {
            Some(v) => Some(v.clone()),
            None => None,
        }
    }

    /// The stored swaps for a list of ids, skipping ids with no record.
    pub open spec fn gathered(ids: Seq<String>, m: Map<Seq<char>, AtomicSwap>) -> Seq<AtomicSwap>
        decreases ids.len(),
    {
        if ids.len() == 0 {
            Seq::empty()
        } else {
            let rest = Self::gathered(ids.drop_last(), m);
            if m.contains_key(ids.last()@) {
                rest.push(m[ids.last()@])
            } else {
                rest
            }
        }
    }

    /// All swaps an account has initiated.
    pub fn get_swaps_by_initiator(&self, account_id: String) -> (r: Vec<AtomicSwap>)
        requires
            self.wf(),
        ensures
            r@ == Self::gathered(
                Self::index_list(self.swaps_by_initiator@, account_id@),
                self.swaps@,
            ),
    {
        let ids: Vec<String> = match self.swaps_by_initiator.get(&account_id) {
            Some(v) => clone_id_list(v),
            None => Vec::new(),
        };
        self.gather(ids)
    }

    /// All swaps an account participates in.
    pub fn get_swaps_by_participant(&self, account_id: String) -> (r: Vec<AtomicSwap>)
        requires
            self.wf(),
        ensures
            r@ == Self::gathered(
                Self::index_list(self.swaps_by_participant@, account_id@),
                self.swaps@,
            ),
    {
        let ids: Vec<String> = match self.swaps_by_participant.get(&account_id) {
            Some(v) => clone_id_list(v),
            None => Vec::new(),
        };
        self.gather(ids)
    }

    /// Resolve a list of swap ids against the store.
    fn gather(&self, ids: Vec<String>) -> (r: Vec<AtomicSwap>)
        requires
            self.wf(),
        ensures
            r@ == Self::gathered(ids@, self.swaps@),
    {
        let mut out: Vec<AtomicSwap> = Vec::new();
        let n = ids.len();
        let mut i: usize = 0;
        while i < n
            invariant
                self.wf(),
                n == ids@.len(),
                i <= n,
                out@ == Self::gathered(ids@.subrange(0, i as int), self.swaps@),
            decreases n - i,
        {
            match self.swaps.get(&ids[i]) {
                Some(s) => {
                    out.push(s.clone());
                },
                None => {},
            }
            proof {
                assert(ids@.subrange(0, i + 1 as int).drop_last() =~= ids@.subrange(0, i as int));
                assert(ids@.subrange(0, i + 1 as int).last() == ids@[i as int]);
            }
            i = i + 1;
        }
        proof {
            assert(ids@.subrange(0, n as int) =~= ids@);
        }
        out
    }

    /// Look a swap up.
    pub fn get_swap(&self, swap_id: String) -> (r: Option<AtomicSwap>)
        requires
            self.wf(),
        ensures
            match r {
                Some(s) => self.swaps@.contains_key(swap_id@) && s == self.swaps@[swap_id@],
                None => !self.swaps@.contains_key(swap_id@),
            },
    {
        match self.swaps.get(&swap_id) {
            Some(s) => Some(s.clone()),
            None => None,
        }
    }
}

/// Law: a completed swap always carries its revealed secret, and for the
/// SHA-256 family the stored secret provably hashes to the stored lock.
pub proof fn lemma_completed_swap_secret(c: &SwapContract, k: Seq<char>)
    requires
        c.wf(),
        c.swaps@.contains_key(k),
        c.swaps@[k].status is Completed,
    ensures
        c.swaps@[k].secret is Some,
        c.swaps@[k].hash_algorithm is SHA256 ==> (c.swaps@[k].secret matches Some(sec)
            && hash_lock_of(sec@) == c.swaps@[k].hash_lock@),
{
}

/// Law: conservation over the swap module. Everything it has ever paid out
/// equals the frozen deposits of its terminal swaps: a completed swap's fee
/// and payout add up to its amount, and a refund returns it whole.
pub proof fn lemma_swap_conservation(c: &SwapContract)
    requires
        c.wf(),
    ensures
        c.emitted@ == swap_terminal_sum(c.swaps.kv()),
{
}

} // verus!
