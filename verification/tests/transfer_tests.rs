use custody::errors::CustodyError;
use custody::hashing::key64_check;
use custody::transfer::P2PTransferContract;
use custody::transfer::TransferStatus;
use custody::transfer::TransferType;

fn s(x: &str) -> String {
    x.to_string()
}

const START: u64 = 1_000_000_000;

fn c64(ch: &str) -> String {
    ch.repeat(64)
}

#[test]
fn direct_transfer_splits_fee() {
    let mut c = P2PTransferContract::new(s("owner"));
    // Default rate is 10 basis points: 10_000 gross pays 10 fee, 9_990 net.
    let ts = c.send_direct(s("alice"), START, 10_000, s("t1"), s("bob"), s("hi")).unwrap();
    assert_eq!(ts.len(), 2);
    assert_eq!(ts[0].recipient, s("owner"));
    assert_eq!(ts[0].amount, 10);
    assert_eq!(ts[1].recipient, s("bob"));
    assert_eq!(ts[1].amount, 9_990);
    let t = c.get_transfer(s("t1")).unwrap();
    assert_eq!(t.amount, 10_000);
    assert_eq!(t.sender, s("alice"));
    assert_eq!(t.recipient, s("bob"));
    assert!(matches!(t.transfer_type, TransferType::Direct));
    assert!(matches!(t.status, TransferStatus::Completed));
}

#[test]
fn direct_transfer_payout_deterministic() {
    let mut c = P2PTransferContract::new(s("owner"));
    let a = c.send_direct(s("alice"), START, 12_345, s("t1"), s("bob"), s("")).unwrap();
    let b = c.send_direct(s("carol"), START + 5, 12_345, s("t2"), s("dan"), s("")).unwrap();
    assert_eq!(a.last().unwrap().amount, b.last().unwrap().amount);
}

#[test]
fn direct_transfer_small_amount_no_fee() {
    let mut c = P2PTransferContract::new(s("owner"));
    // 10 bp of 100 rounds down to zero: a single transfer, nothing withheld.
    let ts = c.send_direct(s("alice"), START, 100, s("t1"), s("bob"), s("")).unwrap();
    assert_eq!(ts.len(), 1);
    assert_eq!(ts[0].recipient, s("bob"));
    assert_eq!(ts[0].amount, 100);
}

#[test]
fn direct_transfer_rejections() {
    let mut c = P2PTransferContract::new(s("owner"));
    let r = c.send_direct(s("alice"), START, 0, s("t1"), s("bob"), s(""));
    assert!(matches!(r, Err(CustodyError::Parameter)));
    c.send_direct(s("alice"), START, 5, s("t1"), s("bob"), s("")).unwrap();
    let r = c.send_direct(s("alice"), START, 5, s("t1"), s("bob"), s(""));
    assert!(matches!(r, Err(CustodyError::DuplicateId)));
}

#[test]
fn shield_deposit_and_withdraw() {
    let mut c = P2PTransferContract::new(s("owner"));
    let n = c.shield_deposit(START, 1_000, s("note1"), c64("a")).unwrap();
    assert_eq!(n.amount, 1_000);
    assert!(!n.spent);
    assert!(n.nullifier.is_none());
    let nf = c64("b");
    let ts = c
        .shield_withdraw(START + 10, s("w1"), s("note1"), nf.clone(), s("ruth"), s("zk"))
        .unwrap();
    // 10 bp of 1_000 is 1.
    assert_eq!(ts.len(), 2);
    assert_eq!(ts[0].recipient, s("owner"));
    assert_eq!(ts[0].amount, 1);
    assert_eq!(ts[1].recipient, s("ruth"));
    assert_eq!(ts[1].amount, 999);
    let stored = c.get_shielded_note(s("note1")).unwrap();
    assert!(stored.spent);
    assert_eq!(stored.nullifier, Some(nf.clone()));
    assert!(c.is_nullifier_used(nf));
    // The withdrawal record reveals the recipient and keeps the net amount.
    let t = c.get_transfer(s("w1")).unwrap();
    assert_eq!(t.sender, s("shielded"));
    assert_eq!(t.recipient, s("ruth"));
    assert_eq!(t.amount, 999);
    assert_eq!(t.memo, s("Shielded withdrawal"));
    // A second withdrawal of the same note fails on its state.
    let r = c.shield_withdraw(START + 20, s("w2"), s("note1"), c64("c"), s("ruth"), s("zk"));
    assert!(matches!(r, Err(CustodyError::WrongState)));
}

#[test]
fn shield_transfer_spends_note_without_outbound() {
    let mut c = P2PTransferContract::new(s("owner"));
    c.shield_deposit(START, 500, s("note1"), c64("a")).unwrap();
    c.shield_transfer(
        START + 1,
        s("t1"),
        s("note1"),
        c64("b"),
        c64("c"),
        c64("d"),
        s("zkproof"),
        s("memo"),
    )
    .unwrap();
    let note = c.get_shielded_note(s("note1")).unwrap();
    assert!(note.spent);
    assert_eq!(note.nullifier, Some(c64("b")));
    let t = c.get_transfer(s("t1")).unwrap();
    assert_eq!(t.sender, s("shielded"));
    assert_eq!(t.recipient, s("shielded"));
    assert_eq!(t.amount, 500);
    assert_eq!(t.commitment, Some(c64("d")));
    assert_eq!(t.nullifier, Some(c64("b")));
    assert!(matches!(t.transfer_type, TransferType::Shielded));
}

#[test]
fn shield_transfer_rejections() {
    let mut c = P2PTransferContract::new(s("owner"));
    c.shield_deposit(START, 500, s("note1"), c64("a")).unwrap();
    // Proof must be present.
    let r = c.shield_transfer(
        START,
        s("t1"),
        s("note1"),
        c64("b"),
        c64("c"),
        c64("d"),
        s(""),
        s(""),
    );
    assert!(matches!(r, Err(CustodyError::Parameter)));
    // The input note must exist.
    let r = c.shield_transfer(
        START,
        s("t1"),
        s("nope"),
        c64("b"),
        c64("c"),
        c64("d"),
        s("zk"),
        s(""),
    );
    assert!(matches!(r, Err(CustodyError::NotFound)));
    // Nullifier and commitments must be 64 characters.
    let r = c.shield_transfer(
        START,
        s("t1"),
        s("note1"),
        s("bb"),
        c64("c"),
        c64("d"),
        s("zk"),
        s(""),
    );
    assert!(matches!(r, Err(CustodyError::Parameter)));
}

#[test]
fn nullifier_reuse_rejected_across_notes() {
    let mut c = P2PTransferContract::new(s("owner"));
    c.shield_deposit(START, 500, s("note1"), c64("a")).unwrap();
    c.shield_deposit(START, 600, s("note2"), c64("e")).unwrap();
    let nf = c64("b");
    assert!(!c.is_nullifier_used(nf.clone()));
    c.shield_withdraw(START + 1, s("w1"), s("note1"), nf.clone(), s("ruth"), s("zk")).unwrap();
    // The same nullifier cannot spend a different note.
    let r = c.shield_withdraw(START + 2, s("w2"), s("note2"), nf.clone(), s("ruth"), s("zk"));
    assert!(matches!(r, Err(CustodyError::DuplicateId)));
    let r = c.shield_transfer(
        START + 3,
        s("t1"),
        s("note2"),
        nf,
        c64("c"),
        c64("d"),
        s("zk"),
        s(""),
    );
    assert!(matches!(r, Err(CustodyError::DuplicateId)));
}

#[test]
fn shield_deposit_rejections() {
    let mut c = P2PTransferContract::new(s("owner"));
    let r = c.shield_deposit(START, 0, s("n1"), c64("a"));
    assert!(matches!(r, Err(CustodyError::Parameter)));
    let r = c.shield_deposit(START, 5, s("n1"), s("abc"));
    assert!(matches!(r, Err(CustodyError::Parameter)));
    c.shield_deposit(START, 5, s("n1"), c64("a")).unwrap();
    let r = c.shield_deposit(START, 5, s("n1"), c64("a"));
    assert!(matches!(r, Err(CustodyError::DuplicateId)));
}

#[test]
fn key64_shape_check() {
    assert!(key64_check(&c64("a")));
    assert!(key64_check(&s("2cf24dba5fb0a30e26e83b2ac5b9e29e1b161e5c1fa7425e73043362938b9824")));
    assert!(!key64_check(&"a".repeat(63)));
    assert!(!key64_check(&"a".repeat(65)));
    // 64 characters, but not ASCII.
    assert!(!key64_check(&"ё".repeat(64)));
}

#[test]
fn user_transfer_index() {
    let mut c = P2PTransferContract::new(s("owner"));
    c.send_direct(s("alice"), START, 100, s("t1"), s("bob"), s("")).unwrap();
    c.send_direct(s("bob"), START, 200, s("t2"), s("carol"), s("")).unwrap();
    let bobs = c.get_user_transfers(s("bob"));
    assert_eq!(bobs.len(), 2);
    assert_eq!(bobs[0].transfer_id, s("t1"));
    assert_eq!(bobs[1].transfer_id, s("t2"));
    assert_eq!(c.get_user_transfers(s("dan")).len(), 0);
}

#[test]
fn transfer_fee_admin() {
    let mut c = P2PTransferContract::new(s("owner"));
    let r = c.set_fee_percentage(s("mallory"), 1);
    assert!(matches!(r, Err(CustodyError::Unauthorized)));
    let r = c.set_fee_percentage(s("owner"), 501);
    assert!(matches!(r, Err(CustodyError::Parameter)));
    c.set_fee_percentage(s("owner"), 500).unwrap();
    c.set_fee_recipient(s("owner"), s("treasury")).unwrap();
    let ts = c.send_direct(s("alice"), START, 10_000, s("t1"), s("bob"), s("")).unwrap();
    assert_eq!(ts[0].recipient, s("treasury"));
    assert_eq!(ts[0].amount, 500);
    assert_eq!(ts[1].amount, 9_500);
}

#[test]
fn largest_accepted_amount_settles_exactly() {
    let mut c = P2PTransferContract::new(s("owner"));
    c.set_fee_percentage(s("owner"), 500).unwrap();
    let ts = c
        .send_direct(s("alice"), START, custody::MAX_AMOUNT, s("t1"), s("bob"), s(""))
        .unwrap();
    assert_eq!(ts.len(), 2);
    // Nothing is lost or created at the largest accepted deposit.
    assert_eq!(ts[0].amount + ts[1].amount, custody::MAX_AMOUNT);
}

#[test]
fn pool_value_conservation() {
    let mut c = P2PTransferContract::new(s("owner"));
    let mut outbound: u128 = 0;
    for t in c.send_direct(s("alice"), START, 10_000, s("t1"), s("bob"), s("")).unwrap() {
        outbound += t.amount;
    }
    c.shield_deposit(START, 1_000, s("n1"), c64("a")).unwrap();
    c.shield_deposit(START, 2_000, s("n2"), c64("b")).unwrap();
    for t in c.shield_withdraw(START + 1, s("w1"), s("n1"), c64("c"), s("ruth"), s("zk")).unwrap()
    {
        outbound += t.amount;
    }
    // The direct gross and the withdrawn note left in full; the second
    // deposit is still pooled and contributes nothing outbound.
    assert_eq!(outbound, 10_000 + 1_000);
}
