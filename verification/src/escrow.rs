//! Time- and proof-gated escrow.
//!
//! An escrow freezes the value attached at creation until either the release
//! time has passed or a cross-chain proof has been verified, at which point
//! the beneficiary (or, at any time, the arbiter) may release it; after the
//! release time, and only while no verified proof exists, the depositor may
//! reclaim it. A dispute halts the machine until the arbiter acts.

use vstd::prelude::*;
use crate::errors::CustodyError;
use crate::strmap::StrMap;
use crate::strmap::lemma_map_of_index;
use crate::OutboundTransfer;
use crate::MAX_AMOUNT;
use crate::has_account;
use crate::distinct_accounts;
use crate::contains_account;
use vstd::string::StringExecFns;

verus! {

#[derive(Clone, Copy, PartialEq, Eq, Structural, Debug)]
pub enum EscrowStatus {
    Active,
    Completed,
    Disputed,
    Refunded,
}

/// A terminal escrow never changes again.
pub open spec fn escrow_terminal(s: EscrowStatus) -> bool {
    s is Completed || s is Refunded
}

/// An external-chain event submitted for an escrow. Lifecycle: submitted
/// unverified, then verified exactly once; a verified proof is never
/// replaced.
pub struct CrossChainProof {
    pub chain_id: String,
    pub tx_hash: String,
    pub block_number: u64,
    pub proof_data: String,
    pub verified: bool,
    pub verified_at: Option<u64>,
}

impl Clone for CrossChainProof {
    fn clone(&self) -> (r: Self)
        ensures
            r == *self,
    {
        CrossChainProof {
            chain_id: self.chain_id.clone(),
            tx_hash: self.tx_hash.clone(),
            block_number: self.block_number,
            proof_data: self.proof_data.clone(),
            verified: self.verified,
            verified_at: self.verified_at,
        }
    }
}

pub struct Escrow {
    pub escrow_id: String,
    pub depositor: String,
    pub beneficiary: String,
    pub amount: u128,
    pub release_time: u64,
    pub status: EscrowStatus,
    pub cross_chain_proof: Option<CrossChainProof>,
    pub arbiter: Option<String>,
    pub created_at: u64,
    pub metadata: String,
}

impl Clone for Escrow {
    fn clone(&self) -> (r: Self)
        ensures
            r == *self,
    {
        Escrow {
            escrow_id: self.escrow_id.clone(),
            depositor: self.depositor.clone(),
            beneficiary: self.beneficiary.clone(),
            amount: self.amount,
            release_time: self.release_time,
            status: self.status,
            cross_chain_proof: match &self.cross_chain_proof {
                Some(p) => Some(p.clone()),
                None => None,
            },
            arbiter: match &self.arbiter {
                Some(a) => Some(a.clone()),
                None => None,
            },
            created_at: self.created_at,
            metadata: self.metadata.clone(),
        }
    }
}

/// The same escrow with another status.
pub open spec fn with_status(e: Escrow, s: EscrowStatus) -> Escrow {
    Escrow {
        escrow_id: e.escrow_id,
        depositor: e.depositor,
        beneficiary: e.beneficiary,
        amount: e.amount,
        release_time: e.release_time,
        status: s,
        cross_chain_proof: e.cross_chain_proof,
        arbiter: e.arbiter,
        created_at: e.created_at,
        metadata: e.metadata,
    }
}

/// The same escrow with another proof slot.
pub open spec fn with_proof(e: Escrow, p: Option<CrossChainProof>) -> Escrow {
    Escrow {
        escrow_id: e.escrow_id,
        depositor: e.depositor,
        beneficiary: e.beneficiary,
        amount: e.amount,
        release_time: e.release_time,
        status: e.status,
        cross_chain_proof: p,
        arbiter: e.arbiter,
        created_at: e.created_at,
        metadata: e.metadata,
    }
}

/// An escrow holds a verified proof.
pub open spec fn proof_is_verified(e: Escrow) -> bool {
    e.cross_chain_proof matches Some(p) && p.verified
}

/// The release condition: the beneficiary once the time gate or a verified
/// proof opens it, or the arbiter at any time.
pub open spec fn may_release(e: Escrow, caller: Seq<char>, now: u64) -> bool {
    ||| (caller == e.beneficiary@ && (now >= e.release_time || proof_is_verified(e)))
    ||| (e.arbiter matches Some(a) && caller == a@)
}

/// Who may ask for a refund: the depositor or the arbiter.
pub open spec fn may_refund(e: Escrow, caller: Seq<char>) -> bool {
    caller == e.depositor@ || (e.arbiter matches Some(a) && caller == a@)
}

/// The deposit a record has settled: its full amount once terminal, nothing
/// before.
pub open spec fn escrow_value(e: Escrow) -> nat {
    if escrow_terminal(e.status) {
        e.amount as nat
    } else {
        0
    }
}

/// Sum of the settled deposits over stored records.
pub open spec fn escrow_terminal_sum(s: Seq<(String, Escrow)>) -> nat
    decreases s.len(),
{
    if s.len() == 0 {
        0
    } else {
        escrow_terminal_sum(s.drop_last()) + escrow_value(s.last().1)
    }
}

pub proof fn lemma_escrow_sum_update(s: Seq<(String, Escrow)>, i: int, e: (String, Escrow))
    requires
        0 <= i < s.len(),
    ensures
        escrow_terminal_sum(s.update(i, e)) + escrow_value(s[i].1) == escrow_terminal_sum(s)
            + escrow_value(e.1),
    decreases s.len(),
{
    if i == s.len() - 1 {
        assert(s.update(i, e).drop_last() =~= s.drop_last());
        assert(s.update(i, e).last() == e);
    } else {
        assert(s.update(i, e).drop_last() =~= s.drop_last().update(i, e));
        assert(s.drop_last()[i] == s[i]);
        lemma_escrow_sum_update(s.drop_last(), i, e);
        assert(s.update(i, e).last() == s.last());
    }
}

pub proof fn lemma_escrow_sum_push(s: Seq<(String, Escrow)>, e: (String, Escrow))
    ensures
        escrow_terminal_sum(s.push(e)) == escrow_terminal_sum(s) + escrow_value(e.1),
{
    assert(s.push(e).drop_last() =~= s);
    assert(s.push(e).last() == e);
}

/// What holds of every stored record.
pub open spec fn escrow_record_ok(k: Seq<char>, e: Escrow) -> bool {
    &&& e.escrow_id@ == k
    &&& 0 < e.amount <= MAX_AMOUNT
    &&& (e.cross_chain_proof matches Some(p) ==> (p.verified <==> p.verified_at is Some))
}

/// The key under which a consumed external-chain event is remembered.
pub open spec fn proof_key(chain_id: Seq<char>, tx_hash: Seq<char>) -> Seq<char> {
    chain_id + ":"@ + tx_hash
}

/// One escrow module instance.
pub struct EscrowContract {
    pub escrows: StrMap<Escrow>,
    pub proof_verifications: StrMap<bool>,
    pub owner: String,
    pub trusted_verifiers: Vec<String>,
    /// Total value of the outbound transfers this instance has queued.
    pub emitted: Ghost<nat>,
}

impl EscrowContract {
    /// The module invariant. Besides well-formed stores it carries the
    /// library's laws: every record owns a positive frozen amount no larger
    /// than `MAX_AMOUNT`, a proof is verified exactly when it is dated, and
    /// everything ever paid out equals the settled deposits of the terminal
    /// records.
    pub open spec fn wf(&self) -> bool {
        &&& self.escrows.wf()
        &&& self.proof_verifications.wf()
        &&& distinct_accounts(self.trusted_verifiers@)
        &&& forall|k: Seq<char>| #[trigger]
            self.escrows@.contains_key(k) ==> escrow_record_ok(k, self.escrows@[k])
        &&& self.emitted@ == escrow_terminal_sum(self.escrows.kv())
    }

    /// A fresh instance. The owner starts as the only trusted verifier.
    pub fn new(owner: String) -> (r: EscrowContract)
        ensures
            r.wf(),
            r.escrows@ =~= Map::<Seq<char>, Escrow>::empty(),
            r.proof_verifications@ =~= Map::<Seq<char>, bool>::empty(),
            r.owner == owner,
            r.trusted_verifiers@.len() == 1 && r.trusted_verifiers@[0] == owner,
            r.emitted@ == 0,
    {
        let mut verifiers: Vec<String> = Vec::new();
        verifiers.push(owner.clone());
        EscrowContract {
            escrows: StrMap::new(),
            proof_verifications: StrMap::new(),
            owner,
            trusted_verifiers: verifiers,
            emitted: Ghost(0),
        }
    }

    /// Freeze the attached value for `beneficiary` until `release_time` or a
    /// verified proof. The record's amount is exactly the attached value.
    pub fn create_escrow(
        &mut self,
        caller: String,
        now: u64,
        attached: u128,
        escrow_id: String,
        beneficiary: String,
        release_time: u64,
        arbiter: Option<String>,
        metadata: String,
    ) -> (r: Result<Escrow, CustodyError>)
        requires
            old(self).wf(),
            attached <= MAX_AMOUNT,
        ensures
            final(self).wf(),
            r is Ok <==> (attached > 0 && !old(self).escrows@.contains_key(escrow_id@)
                && release_time > now),
            attached == 0 ==> r == Err::<Escrow, CustodyError>(CustodyError::Parameter),
            attached > 0 && old(self).escrows@.contains_key(escrow_id@) ==> r == Err::<
                Escrow,
                CustodyError,
            >(CustodyError::DuplicateId),
            attached > 0 && !old(self).escrows@.contains_key(escrow_id@) && release_time <= now
                ==> r == Err::<Escrow, CustodyError>(CustodyError::Temporal),
            r is Err ==> *final(self) == *old(self),
            r matches Ok(e) ==> ({
                &&& e == (Escrow {
                    escrow_id: escrow_id,
                    depositor: caller,
                    beneficiary: beneficiary,
                    amount: attached,
                    release_time: release_time,
                    status: EscrowStatus::Active,
                    cross_chain_proof: None,
                    arbiter: arbiter,
                    created_at: now,
                    metadata: metadata,
                })
                &&& final(self).escrows@ == old(self).escrows@.insert(escrow_id@, e)
                &&& final(self).proof_verifications == old(self).proof_verifications
                &&& final(self).owner == old(self).owner
                &&& final(self).trusted_verifiers == old(self).trusted_verifiers
                &&& final(self).emitted == old(self).emitted
            }),
    {
        if attached == 0 {
            return Err(CustodyError::Parameter);
        }
        if self.escrows.contains(&escrow_id) {
            return Err(CustodyError::DuplicateId);
        }
        if release_time <= now {
            return Err(CustodyError::Temporal);
        }
        let record = Escrow {
            escrow_id: escrow_id.clone(),
            depositor: caller,
            beneficiary: beneficiary,
            amount: attached,
            release_time: release_time,
            status: EscrowStatus::Active,
            cross_chain_proof: None,
            arbiter: arbiter,
            created_at: now,
            metadata: metadata,
        };
        let result = record.clone();
        let ghost prekv = self.escrows.kv();
        self.escrows.insert(escrow_id, record);
        proof {
            lemma_escrow_sum_push(prekv, (escrow_id, record));
        }
        Ok(result)
    }

    /// Submit an external-chain event for an active escrow. The slot stays
    /// overwritable while unverified; a verified proof is never replaced.
    pub fn submit_cross_chain_proof(
        &mut self,
        escrow_id: String,
        chain_id: String,
        tx_hash: String,
        block_number: u64,
        proof_data: String,
    ) -> (r: Result<(), CustodyError>)
        requires
            old(self).wf(),
        ensures
            final(self).wf(),
            r is Ok <==> (old(self).escrows@.contains_key(escrow_id@) && old(self).escrows@[
                escrow_id@
            ].status is Active && !proof_is_verified(old(self).escrows@[escrow_id@])),
            !old(self).escrows@.contains_key(escrow_id@) ==> r == Err::<(), CustodyError>(
                CustodyError::NotFound,
            ),
            old(self).escrows@.contains_key(escrow_id@) && !(old(self).escrows@[
                escrow_id@
            ].status is Active) ==> r == Err::<(), CustodyError>(CustodyError::WrongState),
            old(self).escrows@.contains_key(escrow_id@) && old(self).escrows@[
                escrow_id@
            ].status is Active && proof_is_verified(old(self).escrows@[escrow_id@]) ==> r == Err::<
                (),
                CustodyError,
            >(CustodyError::WrongState),
            r is Err ==> *final(self) == *old(self),
            r is Ok ==> ({
                let e0 = old(self).escrows@[escrow_id@];
                &&& final(self).escrows@ == old(self).escrows@.insert(
                    escrow_id@,
                    with_proof(
                        e0,
                        Some(
                            CrossChainProof {
                                chain_id: chain_id,
                                tx_hash: tx_hash,
                                block_number: block_number,
                                proof_data: proof_data,
                                verified: false,
                                verified_at: None,
                            },
                        ),
                    ),
                )
                &&& final(self).proof_verifications == old(self).proof_verifications
                &&& final(self).owner == old(self).owner
                &&& final(self).trusted_verifiers == old(self).trusted_verifiers
                &&& final(self).emitted == old(self).emitted
            }),
            forall|k: Seq<char>| #[trigger]
                old(self).escrows@.contains_key(k) && escrow_terminal(
                    old(self).escrows@[k].status,
                ) ==> final(self).escrows@.contains_key(k) && final(self).escrows@[k] == old(self).escrows@[k],
    {
        let e = match self.escrows.get(&escrow_id) {
            Some(x) => x.clone(),
            None => {
                return Err(CustodyError::NotFound);
            },
        };
        if !(e.status == EscrowStatus::Active) {
            return Err(CustodyError::WrongState);
        }
        let already_verified = match &e.cross_chain_proof {
            Some(p) => p.verified,
            None => false,
        };
        if already_verified {
            return Err(CustodyError::WrongState);
        }
        let updated = Escrow {
            cross_chain_proof: Some(
                CrossChainProof {
                    chain_id: chain_id,
                    tx_hash: tx_hash,
                    block_number: block_number,
                    proof_data: proof_data,
                    verified: false,
                    verified_at: None,
                },
            ),
            ..e
        };
        proof {
            self.escrows.lemma_kv_view();
        }
        let ghost prekv = self.escrows.kv();
        self.escrows.insert(escrow_id, updated);
        proof {
            let i = choose|i: int|
                0 <= i < prekv.len() && prekv[i].0@ == escrow_id@ && self.escrows.kv()
                    == prekv.update(i, (escrow_id, updated));
            lemma_map_of_index(prekv, i);
            lemma_escrow_sum_update(prekv, i, (escrow_id, updated));
        }
        Ok(())
    }

    /// Mark the submitted proof verified and remember that the external
    /// event has been consumed. Restricted to the owner and the trusted
    /// verifiers.
    pub fn verify_proof(&mut self, caller: String, now: u64, escrow_id: String) -> (r: Result<
        (),
        CustodyError,
    >)
        requires
            old(self).wf(),
        ensures
            final(self).wf(),
            r is Ok <==> ((has_account(old(self).trusted_verifiers@, caller@) || caller@ == old(self).owner@) && old(self).escrows@.contains_key(escrow_id@) && !escrow_terminal(
                old(self).escrows@[escrow_id@].status,
            ) && old(self).escrows@[escrow_id@].cross_chain_proof is Some),
            !(has_account(old(self).trusted_verifiers@, caller@) || caller@ == old(self).owner@)
                ==> r == Err::<(), CustodyError>(CustodyError::Unauthorized),
            (has_account(old(self).trusted_verifiers@, caller@) || caller@ == old(self).owner@)
                && !old(self).escrows@.contains_key(escrow_id@) ==> r == Err::<(), CustodyError>(
                CustodyError::NotFound,
            ),
            (has_account(old(self).trusted_verifiers@, caller@) || caller@ == old(self).owner@)
                && old(self).escrows@.contains_key(escrow_id@) && (escrow_terminal(
                old(self).escrows@[escrow_id@].status,
            ) || old(self).escrows@[escrow_id@].cross_chain_proof is None) ==> r == Err::<
                (),
                CustodyError,
            >(CustodyError::WrongState),
            r is Err ==> *final(self) == *old(self),
            r is Ok ==> ({
                let e0 = old(self).escrows@[escrow_id@];
                e0.cross_chain_proof matches Some(p0) ==> ({
                    &&& final(self).escrows@ == old(self).escrows@.insert(
                        escrow_id@,
                        with_proof(
                            e0,
                            Some(
                                CrossChainProof {
                                    chain_id: p0.chain_id,
                                    tx_hash: p0.tx_hash,
                                    block_number: p0.block_number,
                                    proof_data: p0.proof_data,
                                    verified: true,
                                    verified_at: Some(now),
                                },
                            ),
                        ),
                    )
                    &&& final(self).proof_verifications@ == old(self).proof_verifications@.insert(proof_key(p0.chain_id@, p0.tx_hash@), true)
                    &&& final(self).owner == old(self).owner
                    &&& final(self).trusted_verifiers == old(self).trusted_verifiers
                    &&& final(self).emitted == old(self).emitted
                })
            }),
            forall|k: Seq<char>| #[trigger]
                old(self).escrows@.contains_key(k) && escrow_terminal(
                    old(self).escrows@[k].status,
                ) ==> final(self).escrows@.contains_key(k) && final(self).escrows@[k] == old(self).escrows@[k],
    {
        let authorized = contains_account(&self.trusted_verifiers, &caller) || caller
            == self.owner;
        if !authorized {
            return Err(CustodyError::Unauthorized);
        }
        let e = match self.escrows.get(&escrow_id) {
            Some(x) => x.clone(),
            None => {
                return Err(CustodyError::NotFound);
            },
        };
        if e.status == EscrowStatus::Completed || e.status == EscrowStatus::Refunded {
            return Err(CustodyError::WrongState);
        }
        let p = match &e.cross_chain_proof {
            Some(p) => p.clone(),
            None => {
                return Err(CustodyError::WrongState);
            },
        };
        let new_proof = CrossChainProof {
            chain_id: p.chain_id.clone(),
            tx_hash: p.tx_hash.clone(),
            block_number: p.block_number,
            proof_data: p.proof_data,
            verified: true,
            verified_at: Some(now),
        };
        let key = p.chain_id.concat(":").concat(p.tx_hash.as_str());
        let updated = Escrow { cross_chain_proof: Some(new_proof), ..e };
        proof {
            self.escrows.lemma_kv_view();
        }
        let ghost prekv = self.escrows.kv();
        self.escrows.insert(escrow_id, updated);
        proof {
            let i = choose|i: int|
                0 <= i < prekv.len() && prekv[i].0@ == escrow_id@ && self.escrows.kv()
                    == prekv.update(i, (escrow_id, updated));
            lemma_map_of_index(prekv, i);
            lemma_escrow_sum_update(prekv, i, (escrow_id, updated));
        }
        self.proof_verifications.insert(key, true);
        Ok(())
    }

    /// Release the frozen amount to the beneficiary. Allowed for the
    /// beneficiary once the release time has passed or a proof is verified,
    /// and for the arbiter at any time; the escrow must still be active.
    pub fn release_funds(&mut self, caller: String, now: u64, escrow_id: String) -> (r: Result<
        OutboundTransfer,
        CustodyError,
    >)
        requires
            old(self).wf(),
        ensures
            final(self).wf(),
            r is Ok <==> (old(self).escrows@.contains_key(escrow_id@) && may_release(
                old(self).escrows@[escrow_id@],
                caller@,
                now,
            ) && old(self).escrows@[escrow_id@].status is Active),
            !old(self).escrows@.contains_key(escrow_id@) ==> r == Err::<
                OutboundTransfer,
                CustodyError,
            >(CustodyError::NotFound),
            old(self).escrows@.contains_key(escrow_id@) && !may_release(
                old(self).escrows@[escrow_id@],
                caller@,
                now,
            ) ==> r == Err::<OutboundTransfer, CustodyError>(CustodyError::Unauthorized),
            old(self).escrows@.contains_key(escrow_id@) && may_release(
                old(self).escrows@[escrow_id@],
                caller@,
                now,
            ) && !(old(self).escrows@[escrow_id@].status is Active) ==> r == Err::<
                OutboundTransfer,
                CustodyError,
            >(CustodyError::WrongState),
            r is Err ==> *final(self) == *old(self),
            r matches Ok(t) ==> ({
                let e0 = old(self).escrows@[escrow_id@];
                &&& t.recipient == e0.beneficiary
                &&& t.amount == e0.amount
                &&& final(self).escrows@ == old(self).escrows@.insert(
                    escrow_id@,
                    with_status(e0, EscrowStatus::Completed),
                )
                &&& final(self).emitted@ == old(self).emitted@ + e0.amount
                &&& final(self).proof_verifications == old(self).proof_verifications
                &&& final(self).owner == old(self).owner
                &&& final(self).trusted_verifiers == old(self).trusted_verifiers
            }),
            forall|k: Seq<char>| #[trigger]
                old(self).escrows@.contains_key(k) && escrow_terminal(
                    old(self).escrows@[k].status,
                ) ==> final(self).escrows@.contains_key(k) && final(self).escrows@[k] == old(self).escrows@[k],
    {
        let e = match self.escrows.get(&escrow_id) {
            Some(x) => x.clone(),
            None => {
                return Err(CustodyError::NotFound);
            },
        };
        let is_beneficiary = caller == e.beneficiary;
        let time_passed = now >= e.release_time;
        let verified = match &e.cross_chain_proof {
            Some(p) => p.verified,
            None => false,
        };
        let is_arbiter = match &e.arbiter {
            Some(a) => *a == caller,
            None => false,
        };
        if !((is_beneficiary && (time_passed || verified)) || is_arbiter) {
            return Err(CustodyError::Unauthorized);
        }
        if !(e.status == EscrowStatus::Active) {
            return Err(CustodyError::WrongState);
        }
        let updated = Escrow { status: EscrowStatus::Completed, ..e };
        let recipient = updated.beneficiary.clone();
        let amount = updated.amount;
        proof {
            self.escrows.lemma_kv_view();
        }
        let ghost prekv = self.escrows.kv();
        self.escrows.insert(escrow_id, updated);
        proof {
            let i = choose|i: int|
                0 <= i < prekv.len() && prekv[i].0@ == escrow_id@ && self.escrows.kv()
                    == prekv.update(i, (escrow_id, updated));
            lemma_map_of_index(prekv, i);
            lemma_escrow_sum_update(prekv, i, (escrow_id, updated));
        }
        self.emitted = Ghost(self.emitted@ + amount as nat);
        Ok(OutboundTransfer { recipient, amount })
    }

    /// Return the frozen amount, in full, to the depositor: allowed for the
    /// depositor or the arbiter once the release time has passed, while the
    /// escrow is active and no proof has been verified.
    pub fn refund_escrow(&mut self, caller: String, now: u64, escrow_id: String) -> (r: Result<
        OutboundTransfer,
        CustodyError,
    >)
        requires
            old(self).wf(),
        ensures
            final(self).wf(),
            r is Ok <==> (old(self).escrows@.contains_key(escrow_id@) && may_refund(
                old(self).escrows@[escrow_id@],
                caller@,
            ) && old(self).escrows@[escrow_id@].status is Active && now >= old(self).escrows@[
                escrow_id@
            ].release_time && !proof_is_verified(old(self).escrows@[escrow_id@])),
            !old(self).escrows@.contains_key(escrow_id@) ==> r == Err::<
                OutboundTransfer,
                CustodyError,
            >(CustodyError::NotFound),
            old(self).escrows@.contains_key(escrow_id@) && !may_refund(
                old(self).escrows@[escrow_id@],
                caller@,
            ) ==> r == Err::<OutboundTransfer, CustodyError>(CustodyError::Unauthorized),
            old(self).escrows@.contains_key(escrow_id@) && may_refund(
                old(self).escrows@[escrow_id@],
                caller@,
            ) && !(old(self).escrows@[escrow_id@].status is Active) ==> r == Err::<
                OutboundTransfer,
                CustodyError,
            >(CustodyError::WrongState),
            old(self).escrows@.contains_key(escrow_id@) && may_refund(
                old(self).escrows@[escrow_id@],
                caller@,
            ) && old(self).escrows@[escrow_id@].status is Active && now < old(self).escrows@[
                escrow_id@
            ].release_time ==> r == Err::<OutboundTransfer, CustodyError>(CustodyError::Temporal),
            old(self).escrows@.contains_key(escrow_id@) && may_refund(
                old(self).escrows@[escrow_id@],
                caller@,
            ) && old(self).escrows@[escrow_id@].status is Active && now >= old(self).escrows@[
                escrow_id@
            ].release_time && proof_is_verified(old(self).escrows@[escrow_id@]) ==> r == Err::<
                OutboundTransfer,
                CustodyError,
            >(CustodyError::WrongState),
            r is Err ==> *final(self) == *old(self),
            r matches Ok(t) ==> ({
                let e0 = old(self).escrows@[escrow_id@];
                &&& t.recipient == e0.depositor
                &&& t.amount == e0.amount
                &&& final(self).escrows@ == old(self).escrows@.insert(
                    escrow_id@,
                    with_status(e0, EscrowStatus::Refunded),
                )
                &&& final(self).emitted@ == old(self).emitted@ + e0.amount
                &&& final(self).proof_verifications == old(self).proof_verifications
                &&& final(self).owner == old(self).owner
                &&& final(self).trusted_verifiers == old(self).trusted_verifiers
            }),
            forall|k: Seq<char>| #[trigger]
                old(self).escrows@.contains_key(k) && escrow_terminal(
                    old(self).escrows@[k].status,
                ) ==> final(self).escrows@.contains_key(k) && final(self).escrows@[k] == old(self).escrows@[k],
    {
        let e = match self.escrows.get(&escrow_id) {
            Some(x) => x.clone(),
            None => {
                return Err(CustodyError::NotFound);
            },
        };
        let is_depositor = caller == e.depositor;
        let is_arbiter = match &e.arbiter {
            Some(a) => *a == caller,
            None => false,
        };
        if !(is_depositor || is_arbiter) {
            return Err(CustodyError::Unauthorized);
        }
        if !(e.status == EscrowStatus::Active) {
            return Err(CustodyError::WrongState);
        }
        if now < e.release_time {
            return Err(CustodyError::Temporal);
        }
        let verified = match &e.cross_chain_proof {
            Some(p) => p.verified,
            None => false,
        };
        if verified {
            return Err(CustodyError::WrongState);
        }
        let updated = Escrow { status: EscrowStatus::Refunded, ..e };
        let recipient = updated.depositor.clone();
        let amount = updated.amount;
        proof {
            self.escrows.lemma_kv_view();
        }
        let ghost prekv = self.escrows.kv();
        self.escrows.insert(escrow_id, updated);
        proof {
            let i = choose|i: int|
                0 <= i < prekv.len() && prekv[i].0@ == escrow_id@ && self.escrows.kv()
                    == prekv.update(i, (escrow_id, updated));
            lemma_map_of_index(prekv, i);
            lemma_escrow_sum_update(prekv, i, (escrow_id, updated));
        }
        self.emitted = Ghost(self.emitted@ + amount as nat);
        Ok(OutboundTransfer { recipient, amount })
    }

    /// Halt an active escrow. Only the two parties may raise a dispute; from
    /// then on only the arbiter path of `release_funds` could move value, and
    /// only after off-chain resolution recreates an active state.
    pub fn raise_dispute(&mut self, caller: String, escrow_id: String) -> (r: Result<
        (),
        CustodyError,
    >)
        requires
            old(self).wf(),
        ensures
            final(self).wf(),
            r is Ok <==> (old(self).escrows@.contains_key(escrow_id@) && (caller@ == old(self).escrows@[escrow_id@].depositor@ || caller@ == old(self).escrows@[
                escrow_id@
            ].beneficiary@) && old(self).escrows@[escrow_id@].status is Active),
            !old(self).escrows@.contains_key(escrow_id@) ==> r == Err::<(), CustodyError>(
                CustodyError::NotFound,
            ),
            old(self).escrows@.contains_key(escrow_id@) && !(caller@ == old(self).escrows@[
                escrow_id@
            ].depositor@ || caller@ == old(self).escrows@[escrow_id@].beneficiary@) ==> r == Err::<
                (),
                CustodyError,
            >(CustodyError::Unauthorized),
            old(self).escrows@.contains_key(escrow_id@) && (caller@ == old(self).escrows@[
                escrow_id@
            ].depositor@ || caller@ == old(self).escrows@[escrow_id@].beneficiary@) && !(old(self).escrows@[escrow_id@].status is Active) ==> r == Err::<(), CustodyError>(
                CustodyError::WrongState,
            ),
            r is Err ==> *final(self) == *old(self),
            r is Ok ==> ({
                let e0 = old(self).escrows@[escrow_id@];
                &&& final(self).escrows@ == old(self).escrows@.insert(
                    escrow_id@,
                    with_status(e0, EscrowStatus::Disputed),
                )
                &&& final(self).proof_verifications == old(self).proof_verifications
                &&& final(self).owner == old(self).owner
                &&& final(self).trusted_verifiers == old(self).trusted_verifiers
                &&& final(self).emitted == old(self).emitted
            }),
            forall|k: Seq<char>| #[trigger]
                old(self).escrows@.contains_key(k) && escrow_terminal(
                    old(self).escrows@[k].status,
                ) ==> final(self).escrows@.contains_key(k) && final(self).escrows@[k] == old(self).escrows@[k],
    {
        let e = match self.escrows.get(&escrow_id) {
            Some(x) => x.clone(),
            None => {
                return Err(CustodyError::NotFound);
            },
        };
        if !(caller == e.depositor || caller == e.beneficiary) {
            return Err(CustodyError::Unauthorized);
        }
        if !(e.status == EscrowStatus::Active) {
            return Err(CustodyError::WrongState);
        }
        let updated = Escrow { status: EscrowStatus::Disputed, ..e };
        proof {
            self.escrows.lemma_kv_view();
        }
        let ghost prekv = self.escrows.kv();
        self.escrows.insert(escrow_id, updated);
        proof {
            let i = choose|i: int|
                0 <= i < prekv.len() && prekv[i].0@ == escrow_id@ && self.escrows.kv()
                    == prekv.update(i, (escrow_id, updated));
            lemma_map_of_index(prekv, i);
            lemma_escrow_sum_update(prekv, i, (escrow_id, updated));
        }
        Ok(())
    }

    /// Has the external event `chain_id:tx_hash` been consumed by a verified
    /// proof?
    pub fn is_proof_verified(&self, chain_id: String, tx_hash: String) -> (r: bool)
        requires
            self.wf(),
        ensures
            r == (self.proof_verifications@.contains_key(proof_key(chain_id@, tx_hash@))
                && self.proof_verifications@[proof_key(chain_id@, tx_hash@)]),
    {
        let key = chain_id.concat(":").concat(tx_hash.as_str());
        match self.proof_verifications.get(&key) {
            Some(b) => *b,
            None => false,
        }
    }

    /// Owner only: allow one more account to verify proofs.
    pub fn add_trusted_verifier(&mut self, caller: String, verifier: String) -> (r: Result<
        (),
        CustodyError,
    >)
        requires
            old(self).wf(),
        ensures
            final(self).wf(),
            r is Ok <==> caller@ == old(self).owner@,
            r is Err ==> r == Err::<(), CustodyError>(CustodyError::Unauthorized) && *final(self)
                == *old(self),
            r is Ok ==> ({
                &&& has_account(final(self).trusted_verifiers@, verifier@)
                &&& (has_account(old(self).trusted_verifiers@, verifier@) ==> *final(self) == *old(self))
                &&& (!has_account(old(self).trusted_verifiers@, verifier@) ==> final(self).trusted_verifiers@ == old(self).trusted_verifiers@.push(verifier))
                &&& final(self).escrows == old(self).escrows
                &&& final(self).proof_verifications == old(self).proof_verifications
                &&& final(self).owner == old(self).owner
                &&& final(self).emitted == old(self).emitted
            }),
    {
        if !(caller == self.owner) {
            return Err(CustodyError::Unauthorized);
        }
        if !contains_account(&self.trusted_verifiers, &verifier) {
            self.trusted_verifiers.push(verifier);
            proof {
                let n = self.trusted_verifiers@.len() - 1;
                assert(self.trusted_verifiers@[n]@ == verifier@);
            }
        }
        Ok(())
    }

    /// Owner only: withdraw an account's right to verify proofs.
    pub fn remove_trusted_verifier(&mut self, caller: String, verifier: String) -> (r: Result<
        (),
        CustodyError,
    >)
        requires
            old(self).wf(),
        ensures
            final(self).wf(),
            r is Ok <==> caller@ == old(self).owner@,
            r is Err ==> r == Err::<(), CustodyError>(CustodyError::Unauthorized) && *final(self)
                == *old(self),
            r is Ok ==> ({
                &&& !has_account(final(self).trusted_verifiers@, verifier@)
                &&& (has_account(old(self).trusted_verifiers@, verifier@) ==> exists|i: int|
                    0 <= i < old(self).trusted_verifiers@.len() && old(self).trusted_verifiers@[i]@
                        == verifier@ && final(self).trusted_verifiers@ == old(self).trusted_verifiers@.remove(i))
                &&& (!has_account(old(self).trusted_verifiers@, verifier@) ==> *final(self) == *old(self))
                &&& final(self).escrows == old(self).escrows
                &&& final(self).proof_verifications == old(self).proof_verifications
                &&& final(self).owner == old(self).owner
                &&& final(self).emitted == old(self).emitted
            }),
    {
        if !(caller == self.owner) {
            return Err(CustodyError::Unauthorized);
        }
        match crate::find_account(&self.trusted_verifiers, &verifier) {
            Some(i) => {
                let ghost pre = self.trusted_verifiers@;
                self.trusted_verifiers.remove(i);
                proof {
                    assert forall|j: int|
                        0 <= j < self.trusted_verifiers@.len() implies self.trusted_verifiers@[j]@
                        != verifier@ by {
                        if j < i {
                            assert(self.trusted_verifiers@[j] == pre[j]);
                        } else {
                            assert(self.trusted_verifiers@[j] == pre[j + 1]);
                        }
                    }
                    assert(distinct_accounts(self.trusted_verifiers@)) by {
                        assert forall|p: int, q: int|
                            0 <= p < q < self.trusted_verifiers@.len() implies self.trusted_verifiers@[p]@
                            != self.trusted_verifiers@[q]@ by {
                            let p0: int = if p < i { p } else { p + 1 };
                            let q0: int = if q < i { q } else { q + 1 };
                            assert(self.trusted_verifiers@[p] == pre[p0]);
                            assert(self.trusted_verifiers@[q] == pre[q0]);
                        }
                    }
                }
            },
            None => {},
        }
        Ok(())
    }

    /// Look an escrow up.
    pub fn get_escrow(&self, escrow_id: String) -> (r: Option<Escrow>)
        requires
            self.wf(),
        ensures
            match r {
                Some(e) => self.escrows@.contains_key(escrow_id@)
                    && e == self.escrows@[escrow_id@],
                None => !self.escrows@.contains_key(escrow_id@),
            },
    {
        match self.escrows.get(&escrow_id) {
            Some(e) => Some(e.clone()),
            None => None,
        }
    }
}

/// Law: conservation over the escrow module. Everything it has ever paid out
/// equals the frozen deposits of its terminal escrows — a release or refund
/// moves the full amount, exactly once.
pub proof fn lemma_escrow_conservation(c: &EscrowContract)
    requires
        c.wf(),
    ensures
        c.emitted@ == escrow_terminal_sum(c.escrows.kv()),
{
}

} // verus!
