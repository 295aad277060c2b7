use custody::errors::CustodyError;
use custody::escrow::EscrowContract;
use custody::escrow::EscrowStatus;

fn s(x: &str) -> String {
    x.to_string()
}

const HOUR_NS: u64 = 3_600_000_000_000;
const START: u64 = 1_000_000_000;

#[test]
fn escrow_release_by_time() {
    let mut c = EscrowContract::new(s("owner"));
    let release_time = START + HOUR_NS;
    let e = c
        .create_escrow(s("alice"), START, 10, s("e1"), s("bob"), release_time, None, s(""))
        .unwrap();
    assert_eq!(e.amount, 10);
    assert_eq!(e.depositor, s("alice"));
    assert!(matches!(e.status, EscrowStatus::Active));
    let t = c.release_funds(s("bob"), release_time + 1, s("e1")).unwrap();
    assert_eq!(t.recipient, s("bob"));
    assert_eq!(t.amount, 10);
    let stored = c.get_escrow(s("e1")).unwrap();
    assert!(matches!(stored.status, EscrowStatus::Completed));
}

#[test]
fn escrow_release_by_proof() {
    let mut c = EscrowContract::new(s("owner"));
    let release_time = START + HOUR_NS;
    c.create_escrow(s("alice"), START, 10, s("e1"), s("bob"), release_time, None, s(""))
        .unwrap();
    c.submit_cross_chain_proof(s("e1"), s("eth"), s("0xabc"), 77, s("proofbytes")).unwrap();
    let five_min = START + 300_000_000_000;
    c.verify_proof(s("owner"), five_min, s("e1")).unwrap();
    let t = c.release_funds(s("bob"), five_min, s("e1")).unwrap();
    assert_eq!(t.recipient, s("bob"));
    assert_eq!(t.amount, 10);
    assert!(c.is_proof_verified(s("eth"), s("0xabc")));
    assert!(!c.is_proof_verified(s("eth"), s("0xdef")));
    let stored = c.get_escrow(s("e1")).unwrap();
    assert!(matches!(stored.status, EscrowStatus::Completed));
    let p = stored.cross_chain_proof.unwrap();
    assert!(p.verified);
    assert_eq!(p.verified_at, Some(five_min));
}

#[test]
fn escrow_refund_full_amount() {
    let mut c = EscrowContract::new(s("owner"));
    let release_time = START + HOUR_NS;
    c.create_escrow(s("alice"), START, 7, s("e1"), s("bob"), release_time, None, s(""))
        .unwrap();
    let t = c.refund_escrow(s("alice"), release_time, s("e1")).unwrap();
    assert_eq!(t.recipient, s("alice"));
    assert_eq!(t.amount, 7);
    let stored = c.get_escrow(s("e1")).unwrap();
    assert!(matches!(stored.status, EscrowStatus::Refunded));
}

#[test]
fn escrow_refund_too_early_is_temporal() {
    let mut c = EscrowContract::new(s("owner"));
    let release_time = START + HOUR_NS;
    c.create_escrow(s("alice"), START, 7, s("e1"), s("bob"), release_time, None, s(""))
        .unwrap();
    let r = c.refund_escrow(s("alice"), release_time - 1, s("e1"));
    assert!(matches!(r, Err(CustodyError::Temporal)));
}

#[test]
fn escrow_refund_blocked_by_verified_proof() {
    let mut c = EscrowContract::new(s("owner"));
    let release_time = START + HOUR_NS;
    c.create_escrow(s("alice"), START, 7, s("e1"), s("bob"), release_time, None, s(""))
        .unwrap();
    c.submit_cross_chain_proof(s("e1"), s("eth"), s("0xabc"), 77, s("p")).unwrap();
    c.verify_proof(s("owner"), START + 1, s("e1")).unwrap();
    let r = c.refund_escrow(s("alice"), release_time + 1, s("e1"));
    assert!(matches!(r, Err(CustodyError::WrongState)));
}

#[test]
fn escrow_duplicate_id_rejected() {
    let mut c = EscrowContract::new(s("owner"));
    let release_time = START + HOUR_NS;
    c.create_escrow(s("alice"), START, 5, s("e1"), s("bob"), release_time, None, s(""))
        .unwrap();
    let r = c.create_escrow(s("carol"), START, 5, s("e1"), s("dan"), release_time, None, s(""));
    assert!(matches!(r, Err(CustodyError::DuplicateId)));
}

#[test]
fn escrow_zero_value_rejected() {
    let mut c = EscrowContract::new(s("owner"));
    let r = c.create_escrow(s("alice"), START, 0, s("e1"), s("bob"), START + 1, None, s(""));
    assert!(matches!(r, Err(CustodyError::Parameter)));
}

#[test]
fn escrow_past_release_rejected() {
    let mut c = EscrowContract::new(s("owner"));
    let r = c.create_escrow(s("alice"), START, 5, s("e1"), s("bob"), START, None, s(""));
    assert!(matches!(r, Err(CustodyError::Temporal)));
}

#[test]
fn escrow_unknown_id_not_found() {
    let mut c = EscrowContract::new(s("owner"));
    let r = c.release_funds(s("bob"), START, s("missing"));
    assert!(matches!(r, Err(CustodyError::NotFound)));
}

#[test]
fn escrow_release_needs_authorization() {
    let mut c = EscrowContract::new(s("owner"));
    let release_time = START + HOUR_NS;
    c.create_escrow(s("alice"), START, 5, s("e1"), s("bob"), release_time, None, s(""))
        .unwrap();
    // Neither the beneficiary before release time nor a stranger ever.
    let early = c.release_funds(s("bob"), START + 1, s("e1"));
    assert!(matches!(early, Err(CustodyError::Unauthorized)));
    let stranger = c.release_funds(s("mallory"), release_time + 1, s("e1"));
    assert!(matches!(stranger, Err(CustodyError::Unauthorized)));
}

#[test]
fn escrow_arbiter_releases_any_time() {
    let mut c = EscrowContract::new(s("owner"));
    let release_time = START + HOUR_NS;
    c.create_escrow(s("alice"), START, 5, s("e1"), s("bob"), release_time, Some(s("judge")), s(""))
        .unwrap();
    let t = c.release_funds(s("judge"), START + 1, s("e1")).unwrap();
    assert_eq!(t.recipient, s("bob"));
    assert_eq!(t.amount, 5);
}

#[test]
fn escrow_dispute_blocks_release() {
    let mut c = EscrowContract::new(s("owner"));
    let release_time = START + HOUR_NS;
    c.create_escrow(s("alice"), START, 5, s("e1"), s("bob"), release_time, None, s(""))
        .unwrap();
    c.raise_dispute(s("alice"), s("e1")).unwrap();
    let stored = c.get_escrow(s("e1")).unwrap();
    assert!(matches!(stored.status, EscrowStatus::Disputed));
    let release = c.release_funds(s("bob"), release_time + 1, s("e1"));
    assert!(matches!(release, Err(CustodyError::WrongState)));
    let refund = c.refund_escrow(s("alice"), release_time + 1, s("e1"));
    assert!(matches!(refund, Err(CustodyError::WrongState)));
}

#[test]
fn escrow_terminal_record_immutable() {
    let mut c = EscrowContract::new(s("owner"));
    let release_time = START + HOUR_NS;
    c.create_escrow(s("alice"), START, 10, s("e1"), s("bob"), release_time, None, s(""))
        .unwrap();
    c.release_funds(s("bob"), release_time + 1, s("e1")).unwrap();
    let before = c.get_escrow(s("e1")).unwrap();
    let again = c.release_funds(s("bob"), release_time + 2, s("e1"));
    assert!(matches!(again, Err(CustodyError::WrongState)));
    let refund = c.refund_escrow(s("alice"), release_time + 2, s("e1"));
    assert!(matches!(refund, Err(CustodyError::WrongState)));
    let dispute = c.raise_dispute(s("alice"), s("e1"));
    assert!(matches!(dispute, Err(CustodyError::WrongState)));
    let submit = c.submit_cross_chain_proof(s("e1"), s("eth"), s("0x1"), 1, s("p"));
    assert!(matches!(submit, Err(CustodyError::WrongState)));
    let after = c.get_escrow(s("e1")).unwrap();
    assert!(matches!(after.status, EscrowStatus::Completed));
    assert_eq!(after.amount, before.amount);
    assert_eq!(after.beneficiary, before.beneficiary);
}

#[test]
fn escrow_verified_proof_not_overwritten() {
    let mut c = EscrowContract::new(s("owner"));
    let release_time = START + HOUR_NS;
    c.create_escrow(s("alice"), START, 5, s("e1"), s("bob"), release_time, None, s(""))
        .unwrap();
    c.submit_cross_chain_proof(s("e1"), s("eth"), s("0xabc"), 77, s("p")).unwrap();
    // Unverified proofs may be replaced.
    c.submit_cross_chain_proof(s("e1"), s("eth"), s("0xdef"), 78, s("q")).unwrap();
    c.verify_proof(s("owner"), START + 1, s("e1")).unwrap();
    let r = c.submit_cross_chain_proof(s("e1"), s("eth"), s("0x999"), 79, s("r"));
    assert!(matches!(r, Err(CustodyError::WrongState)));
}

#[test]
fn escrow_trusted_verifier_rotation() {
    let mut c = EscrowContract::new(s("owner"));
    let release_time = START + HOUR_NS;
    c.create_escrow(s("alice"), START, 5, s("e1"), s("bob"), release_time, None, s(""))
        .unwrap();
    c.submit_cross_chain_proof(s("e1"), s("eth"), s("0xabc"), 77, s("p")).unwrap();
    // Not yet trusted.
    let r = c.verify_proof(s("vera"), START + 1, s("e1"));
    assert!(matches!(r, Err(CustodyError::Unauthorized)));
    // Only the owner may rotate.
    let r = c.add_trusted_verifier(s("bob"), s("vera"));
    assert!(matches!(r, Err(CustodyError::Unauthorized)));
    c.add_trusted_verifier(s("owner"), s("vera")).unwrap();
    c.remove_trusted_verifier(s("owner"), s("vera")).unwrap();
    let r = c.verify_proof(s("vera"), START + 1, s("e1"));
    assert!(matches!(r, Err(CustodyError::Unauthorized)));
    c.add_trusted_verifier(s("owner"), s("vera")).unwrap();
    c.verify_proof(s("vera"), START + 1, s("e1")).unwrap();
}

#[test]
fn escrow_outbound_equals_terminal_deposits() {
    let mut c = EscrowContract::new(s("owner"));
    let release_time = START + HOUR_NS;
    c.create_escrow(s("alice"), START, 10, s("e1"), s("bob"), release_time, None, s(""))
        .unwrap();
    c.create_escrow(s("alice"), START, 7, s("e2"), s("bob"), release_time, None, s(""))
        .unwrap();
    c.create_escrow(s("alice"), START, 3, s("e3"), s("bob"), release_time, None, s(""))
        .unwrap();
    let mut outbound: u128 = 0;
    outbound += c.release_funds(s("bob"), release_time + 1, s("e1")).unwrap().amount;
    outbound += c.refund_escrow(s("alice"), release_time + 1, s("e2")).unwrap().amount;
    // e3 stays active and contributes nothing.
    let mut terminal: u128 = 0;
    for id in ["e1", "e2", "e3"] {
        let e = c.get_escrow(s(id)).unwrap();
        if matches!(e.status, EscrowStatus::Completed | EscrowStatus::Refunded) {
            terminal += e.amount;
        }
    }
    assert_eq!(outbound, 17);
    assert_eq!(outbound, terminal);
}
