use custody::errors::CustodyError;
use custody::hashing::hash_secret;
use custody::swap::HashAlgorithm;
use custody::swap::SwapContract;
use custody::swap::SwapStatus;

fn s(x: &str) -> String {
    x.to_string()
}

const START: u64 = 1_000_000_000;
const HOUR_NS: u64 = 3_600_000_000_000;

fn hello_lock() -> String {
    hex::encode(<sha2::Sha256 as sha2::Digest>::digest("hello".as_bytes()))
}

#[test]
fn test_initiate_swap() {
    let mut contract = SwapContract::new(s("alice"), s("oracle"));
    let swap = contract
        .initiate_swap(
            s("alice"),
            START,
            10_000,
            s("swap1"),
            s("bob"),
            hello_lock(),
            HashAlgorithm::SHA256,
            3600,
            s("starknet"),
            s("0xtarget"),
            None,
        )
        .unwrap();
    assert_eq!(swap.swap_id, s("swap1"));
    assert_eq!(swap.initiator, s("alice"));
    assert_eq!(swap.participant, s("bob"));
    assert_eq!(swap.amount, 10_000);
    assert_eq!(swap.time_lock, START + HOUR_NS);
    assert!(matches!(swap.status, SwapStatus::Initiated));
    assert!(swap.secret.is_none());
}

#[test]
fn hash_secret_matches_reference_digest() {
    // The known SHA-256 digest of "hello", in lowercase hex.
    let expected = "2cf24dba5fb0a30e26e83b2ac5b9e29e1b161e5c1fa7425e73043362938b9824";
    assert_eq!(hash_secret("hello"), expected.to_string());
    assert_eq!(hello_lock(), expected.to_string());
    // The empty input also has a fixed digest.
    assert_eq!(
        hash_secret(""),
        "e3b0c44298fc1c149afbf4c8996fb92427ae41e4649b934ca495991b7852b855".to_string()
    );
}

#[test]
fn sha256_swap_happy_path() {
    let mut c = SwapContract::new(s("owner"), s("oracle"));
    c.initiate_swap(
        s("alice"),
        START,
        10_000,
        s("swap1"),
        s("bob"),
        hello_lock(),
        HashAlgorithm::SHA256,
        3600,
        s("starknet"),
        s("0xtarget"),
        None,
    )
    .unwrap();
    c.lock_swap(s("bob"), START + 1, s("swap1")).unwrap();
    let ts = c.complete_swap(START + 2, s("swap1"), s("hello")).unwrap();
    // 30 basis points of 10_000 is 30; the participant receives the rest.
    assert_eq!(ts.len(), 2);
    assert_eq!(ts[0].recipient, s("owner"));
    assert_eq!(ts[0].amount, 30);
    assert_eq!(ts[1].recipient, s("bob"));
    assert_eq!(ts[1].amount, 9_970);
    let stored = c.get_swap(s("swap1")).unwrap();
    assert!(matches!(stored.status, SwapStatus::Completed));
    assert_eq!(stored.secret, Some(s("hello")));
    assert_eq!(stored.hash_lock, hash_secret("hello"));
}

#[test]
fn swap_wrong_secret_rejected() {
    let mut c = SwapContract::new(s("owner"), s("oracle"));
    c.initiate_swap(
        s("alice"),
        START,
        10_000,
        s("swap1"),
        s("bob"),
        hello_lock(),
        HashAlgorithm::SHA256,
        3600,
        s("starknet"),
        s("0xtarget"),
        None,
    )
    .unwrap();
    c.lock_swap(s("bob"), START + 1, s("swap1")).unwrap();
    let r = c.complete_swap(START + 2, s("swap1"), s("goodbye"));
    assert!(matches!(r, Err(CustodyError::Unauthorized)));
    let stored = c.get_swap(s("swap1")).unwrap();
    assert!(matches!(stored.status, SwapStatus::Locked));
    assert!(stored.secret.is_none());
}

#[test]
fn swap_refund_after_timeout() {
    let mut c = SwapContract::new(s("owner"), s("oracle"));
    c.initiate_swap(
        s("alice"),
        START,
        10_000,
        s("swap1"),
        s("bob"),
        hello_lock(),
        HashAlgorithm::SHA256,
        3600,
        s("starknet"),
        s("0xtarget"),
        None,
    )
    .unwrap();
    let t = c.refund_swap(s("alice"), START + HOUR_NS, s("swap1")).unwrap();
    assert_eq!(t.recipient, s("alice"));
    assert_eq!(t.amount, 10_000);
    let stored = c.get_swap(s("swap1")).unwrap();
    assert!(matches!(stored.status, SwapStatus::Refunded));
}

#[test]
fn swap_refund_too_early_is_temporal() {
    let mut c = SwapContract::new(s("owner"), s("oracle"));
    c.initiate_swap(
        s("alice"),
        START,
        10_000,
        s("swap1"),
        s("bob"),
        hello_lock(),
        HashAlgorithm::SHA256,
        3600,
        s("starknet"),
        s("0xtarget"),
        None,
    )
    .unwrap();
    let r = c.refund_swap(s("alice"), START + HOUR_NS - 1, s("swap1"));
    assert!(matches!(r, Err(CustodyError::Temporal)));
}

#[test]
fn swap_expired_cannot_complete() {
    let mut c = SwapContract::new(s("owner"), s("oracle"));
    c.initiate_swap(
        s("alice"),
        START,
        10_000,
        s("swap1"),
        s("bob"),
        hello_lock(),
        HashAlgorithm::SHA256,
        3600,
        s("starknet"),
        s("0xtarget"),
        None,
    )
    .unwrap();
    c.lock_swap(s("bob"), START + 1, s("swap1")).unwrap();
    let r = c.complete_swap(START + HOUR_NS, s("swap1"), s("hello"));
    assert!(matches!(r, Err(CustodyError::Temporal)));
}

#[test]
fn swap_poseidon_needs_oracle() {
    let mut c = SwapContract::new(s("owner"), s("oracle"));
    let lock: String = "ab".repeat(32);
    c.initiate_swap(
        s("alice"),
        START,
        10_000,
        s("swap1"),
        s("bob"),
        lock.clone(),
        HashAlgorithm::Poseidon,
        3600,
        s("aztec"),
        s("0xtarget"),
        Some(s("counter-1")),
    )
    .unwrap();
    c.lock_swap(s("bob"), START + 1, s("swap1")).unwrap();
    let r = c.complete_swap_with_oracle_verification(START + 2, s("swap1"), s("zk-secret"));
    assert!(matches!(r, Err(CustodyError::MissingOracleVerification)));
    // Only the oracle account may attest.
    let r = c.submit_oracle_verification(s("mallory"), START + 2, s("swap1"), lock.clone(), true);
    assert!(matches!(r, Err(CustodyError::Unauthorized)));
    c.submit_oracle_verification(s("oracle"), START + 2, s("swap1"), lock.clone(), true)
        .unwrap();
    let v = c.get_oracle_verification(s("swap1")).unwrap();
    assert!(v.verified);
    assert_eq!(v.poseidon_hash, lock);
    let ts = c
        .complete_swap_with_oracle_verification(START + 3, s("swap1"), s("zk-secret"))
        .unwrap();
    assert_eq!(ts.len(), 2);
    assert_eq!(ts[0].amount + ts[1].amount, 10_000);
    let stored = c.get_swap(s("swap1")).unwrap();
    assert!(matches!(stored.status, SwapStatus::Completed));
    assert_eq!(stored.secret, Some(s("zk-secret")));
}

#[test]
fn swap_parameter_checks() {
    let mut c = SwapContract::new(s("owner"), s("oracle"));
    // Hash lock must be 64 characters.
    let r = c.initiate_swap(
        s("alice"),
        START,
        10_000,
        s("swap1"),
        s("bob"),
        s("abc"),
        HashAlgorithm::SHA256,
        3600,
        s("starknet"),
        s("0xtarget"),
        None,
    );
    assert!(matches!(r, Err(CustodyError::Parameter)));
    // Duration must stay within the configured bounds.
    let r = c.initiate_swap(
        s("alice"),
        START,
        10_000,
        s("swap1"),
        s("bob"),
        hello_lock(),
        HashAlgorithm::SHA256,
        3599,
        s("starknet"),
        s("0xtarget"),
        None,
    );
    assert!(matches!(r, Err(CustodyError::Parameter)));
    let r = c.initiate_swap(
        s("alice"),
        START,
        10_000,
        s("swap1"),
        s("bob"),
        hello_lock(),
        HashAlgorithm::SHA256,
        86_401,
        s("starknet"),
        s("0xtarget"),
        None,
    );
    assert!(matches!(r, Err(CustodyError::Parameter)));
    // Value must be attached.
    let r = c.initiate_swap(
        s("alice"),
        START,
        0,
        s("swap1"),
        s("bob"),
        hello_lock(),
        HashAlgorithm::SHA256,
        3600,
        s("starknet"),
        s("0xtarget"),
        None,
    );
    assert!(matches!(r, Err(CustodyError::Parameter)));
}

#[test]
fn swap_only_participant_locks() {
    let mut c = SwapContract::new(s("owner"), s("oracle"));
    c.initiate_swap(
        s("alice"),
        START,
        10_000,
        s("swap1"),
        s("bob"),
        hello_lock(),
        HashAlgorithm::SHA256,
        3600,
        s("starknet"),
        s("0xtarget"),
        None,
    )
    .unwrap();
    let r = c.lock_swap(s("carol"), START + 1, s("swap1"));
    assert!(matches!(r, Err(CustodyError::Unauthorized)));
    c.lock_swap(s("bob"), START + 1, s("swap1")).unwrap();
    let r = c.lock_swap(s("bob"), START + 2, s("swap1"));
    assert!(matches!(r, Err(CustodyError::WrongState)));
}

#[test]
fn swap_admin_and_fee_rotation() {
    let mut c = SwapContract::new(s("owner"), s("oracle"));
    let r = c.set_fee_percentage(s("mallory"), 100);
    assert!(matches!(r, Err(CustodyError::Unauthorized)));
    let r = c.set_fee_percentage(s("owner"), 1001);
    assert!(matches!(r, Err(CustodyError::Parameter)));
    c.set_fee_percentage(s("owner"), 0).unwrap();
    c.set_fee_recipient(s("owner"), s("treasury")).unwrap();
    c.set_oracle_account(s("owner"), s("oracle2")).unwrap();
    c.initiate_swap(
        s("alice"),
        START,
        10_000,
        s("swap1"),
        s("bob"),
        hello_lock(),
        HashAlgorithm::SHA256,
        3600,
        s("starknet"),
        s("0xtarget"),
        None,
    )
    .unwrap();
    c.lock_swap(s("bob"), START + 1, s("swap1")).unwrap();
    // With a zero fee the whole amount goes to the participant in one transfer.
    let ts = c.complete_swap(START + 2, s("swap1"), s("hello")).unwrap();
    assert_eq!(ts.len(), 1);
    assert_eq!(ts[0].recipient, s("bob"));
    assert_eq!(ts[0].amount, 10_000);
}

#[test]
fn swap_indices_list_records() {
    let mut c = SwapContract::new(s("owner"), s("oracle"));
    for (id, who) in [("s1", "bob"), ("s2", "carol")] {
        c.initiate_swap(
            s("alice"),
            START,
            1_000,
            s(id),
            s(who),
            hello_lock(),
            HashAlgorithm::SHA256,
            3600,
            s("starknet"),
            s("0xtarget"),
            None,
        )
        .unwrap();
    }
    let by_alice = c.get_swaps_by_initiator(s("alice"));
    assert_eq!(by_alice.len(), 2);
    assert_eq!(by_alice[0].swap_id, s("s1"));
    assert_eq!(by_alice[1].swap_id, s("s2"));
    let by_bob = c.get_swaps_by_participant(s("bob"));
    assert_eq!(by_bob.len(), 1);
    assert_eq!(by_bob[0].swap_id, s("s1"));
    assert_eq!(c.get_swaps_by_participant(s("dan")).len(), 0);
}

#[test]
fn swap_fee_and_payout_add_up_at_boundary() {
    let mut c = SwapContract::new(s("owner"), s("oracle"));
    c.set_fee_percentage(s("owner"), 1000).unwrap();
    c.initiate_swap(
        s("alice"),
        START,
        custody::MAX_AMOUNT,
        s("swap1"),
        s("bob"),
        hello_lock(),
        HashAlgorithm::SHA256,
        3600,
        s("starknet"),
        s("0xtarget"),
        None,
    )
    .unwrap();
    c.lock_swap(s("bob"), START + 1, s("swap1")).unwrap();
    let ts = c.complete_swap(START + 2, s("swap1"), s("hello")).unwrap();
    assert_eq!(ts.len(), 2);
    assert_eq!(ts[0].amount + ts[1].amount, custody::MAX_AMOUNT);
}

#[test]
fn swap_not_found_and_duplicate() {
    let mut c = SwapContract::new(s("owner"), s("oracle"));
    let r = c.lock_swap(s("bob"), START, s("missing"));
    assert!(matches!(r, Err(CustodyError::NotFound)));
    c.initiate_swap(
        s("alice"),
        START,
        1_000,
        s("swap1"),
        s("bob"),
        hello_lock(),
        HashAlgorithm::SHA256,
        3600,
        s("starknet"),
        s("0xtarget"),
        None,
    )
    .unwrap();
    let r = c.initiate_swap(
        s("alice"),
        START,
        1_000,
        s("swap1"),
        s("bob"),
        hello_lock(),
        HashAlgorithm::SHA256,
        3600,
        s("starknet"),
        s("0xtarget"),
        None,
    );
    assert!(matches!(r, Err(CustodyError::DuplicateId)));
}
