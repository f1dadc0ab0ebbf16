use atomic_swap_spl::{
    check_redeem, commitment_of, initialize, plan_initialize, plan_redeem, plan_refund, redeem,
    redeem_with_digest, refund, Address, AtomicSwap, AtomicSwapError, Authority, CustodianProof,
    Endpoint, Initialize, Redeem, Refund, SwapState, TransferOrder,
};

const T: i64 = 1_700_000_000;

fn alice() -> Address {
    Address::new([1u8; 32])
}

fn bob() -> Address {
    Address::new([2u8; 32])
}

fn mallory() -> Address {
    Address::new([3u8; 32])
}

fn secret() -> [u8; 32] {
    [7u8; 32]
}

fn init_ctx() -> Initialize {
    Initialize { signer: alice(), custodian: CustodianProof { bump: 254 } }
}

fn created(amount: u64, expiry: i64) -> AtomicSwap {
    let mut slot = None;
    let r = initialize(&mut slot, &init_ctx(), bob(), commitment_of(&secret()), amount, expiry, Ok(()));
    assert!(r.is_ok());
    slot.unwrap()
}

fn release(to: Address, amount: u64) -> TransferOrder {
    TransferOrder {
        from: Endpoint::Vault,
        to: Endpoint::Wallet(to),
        authority: Authority::Custodian(CustodianProof { bump: 254 }),
        amount,
    }
}

#[test]
fn commitment_is_sha256_of_the_secret() {
    let zero = commitment_of(&[0u8; 32]);
    assert_eq!(
        zero,
        [
            102, 104, 122, 173, 248, 98, 189, 119, 108, 143, 193, 139, 142, 159, 142, 32, 8, 151,
            20, 133, 110, 226, 51, 179, 144, 42, 89, 29, 13, 95, 41, 37
        ]
    );
    assert_eq!(
        commitment_of(&secret()),
        [
            75, 176, 111, 142, 78, 58, 119, 21, 210, 1, 213, 115, 208, 170, 66, 55, 98, 229, 93,
            171, 214, 26, 44, 2, 39, 143, 165, 108, 198, 210, 148, 224
        ]
    );
}

#[test]
fn initialize_funds_the_vault_and_records_the_escrow() {
    let mut slot = None;
    let commitment = commitment_of(&secret());
    let r = initialize(&mut slot, &init_ctx(), bob(), commitment, 100, T + 3600, Ok(()));
    assert_eq!(
        r,
        Ok(TransferOrder {
            from: Endpoint::Wallet(alice()),
            to: Endpoint::Vault,
            authority: Authority::Owner(alice()),
            amount: 100,
        })
    );
    let swap = slot.unwrap();
    assert_eq!(swap.initiator, alice());
    assert_eq!(swap.recipient, bob());
    assert_eq!(swap.secret_commitment, commitment);
    assert_eq!(swap.disclosed_secret, None);
    assert_eq!(swap.amount, 100);
    assert_eq!(swap.expiry, T + 3600);
    assert_eq!(swap.state, SwapState::Created);
    assert_eq!(swap.custodian, CustodianProof { bump: 254 });
}

#[test]
fn initialize_into_occupied_slot_is_duplicate() {
    let existing = created(100, T + 3600);
    let mut slot = Some(existing);
    let plan = plan_initialize(&slot, &init_ctx(), 5);
    assert_eq!(plan, Err(AtomicSwapError::DuplicateEscrow));
    for _ in 0..3 {
        let r = initialize(&mut slot, &init_ctx(), mallory(), [0u8; 32], 5, T, Ok(()));
        assert_eq!(r, Err(AtomicSwapError::DuplicateEscrow));
        assert_eq!(slot, Some(existing));
    }
}

#[test]
fn initialize_with_refused_transfer_commits_nothing() {
    let mut slot = None;
    let r = initialize(&mut slot, &init_ctx(), bob(), [0u8; 32], 100, T, Err(1));
    assert_eq!(r, Err(AtomicSwapError::TransferFailed(1)));
    assert_eq!(slot, None);
}

#[test]
fn redeem_then_refund_is_invalid_state() {
    let mut swap = created(100, T + 3600);
    let ctx = Redeem { redeemer_wallet_owner: bob() };
    assert_eq!(plan_redeem(&swap, &ctx, &secret()), Ok(release(bob(), 100)));
    let r = redeem(&mut swap, &ctx, secret(), Ok(()));
    assert_eq!(r, Ok(release(bob(), 100)));
    assert_eq!(swap.state, SwapState::Redeemed);
    assert_eq!(swap.disclosed_secret, Some(secret()));
    let back = Refund { refunder_wallet_owner: alice(), now: T + 20 };
    assert_eq!(refund(&mut swap, &back, Ok(())), Err(AtomicSwapError::InvalidState));
    let late = Refund { refunder_wallet_owner: alice(), now: T + 7200 };
    assert_eq!(refund(&mut swap, &late, Ok(())), Err(AtomicSwapError::InvalidState));
    assert_eq!(swap.state, SwapState::Redeemed);
}

#[test]
fn refund_then_redeem_is_invalid_state() {
    let mut swap = created(100, T + 3600);
    let back = Refund { refunder_wallet_owner: alice(), now: T + 3601 };
    assert_eq!(plan_refund(&swap, &back), Ok(release(alice(), 100)));
    assert_eq!(refund(&mut swap, &back, Ok(())), Ok(release(alice(), 100)));
    assert_eq!(swap.state, SwapState::Refunded);
    assert_eq!(swap.disclosed_secret, None);
    let ctx = Redeem { redeemer_wallet_owner: bob() };
    assert_eq!(redeem(&mut swap, &ctx, secret(), Ok(())), Err(AtomicSwapError::InvalidState));
    assert_eq!(swap.state, SwapState::Refunded);
}

#[test]
fn second_redeem_and_second_refund_fail() {
    let mut swap = created(100, T + 3600);
    let ctx = Redeem { redeemer_wallet_owner: bob() };
    assert!(redeem(&mut swap, &ctx, secret(), Ok(())).is_ok());
    assert_eq!(redeem(&mut swap, &ctx, secret(), Ok(())), Err(AtomicSwapError::InvalidState));

    let mut other = created(100, T + 3600);
    let back = Refund { refunder_wallet_owner: alice(), now: T + 4000 };
    assert!(refund(&mut other, &back, Ok(())).is_ok());
    assert_eq!(refund(&mut other, &back, Ok(())), Err(AtomicSwapError::InvalidState));
}

#[test]
fn wrong_secret_is_mismatch_and_retry_works() {
    let mut swap = created(100, T + 3600);
    let before = swap;
    let ctx = Redeem { redeemer_wallet_owner: bob() };
    for _ in 0..3 {
        assert_eq!(redeem(&mut swap, &ctx, [8u8; 32], Ok(())), Err(AtomicSwapError::SecretMismatch));
        assert_eq!(swap, before);
    }
    // The commitment itself is not the secret.
    let commitment = swap.secret_commitment;
    assert_eq!(redeem(&mut swap, &ctx, commitment, Ok(())), Err(AtomicSwapError::SecretMismatch));
    assert_eq!(redeem(&mut swap, &ctx, secret(), Ok(())), Ok(release(bob(), 100)));
}

#[test]
fn digest_must_match_in_full() {
    let swap = created(100, T + 3600);
    let ctx = Redeem { redeemer_wallet_owner: bob() };
    let mut digest = swap.secret_commitment;
    assert_eq!(check_redeem(&swap, &ctx, &digest), Ok(release(bob(), 100)));
    digest[31] ^= 1;
    assert_eq!(check_redeem(&swap, &ctx, &digest), Err(AtomicSwapError::SecretMismatch));
    digest[31] ^= 1;
    digest[0] ^= 0x80;
    assert_eq!(check_redeem(&swap, &ctx, &digest), Err(AtomicSwapError::SecretMismatch));
}

#[test]
fn redeem_with_digest_records_the_secret() {
    let mut swap = created(100, T + 3600);
    let ctx = Redeem { redeemer_wallet_owner: bob() };
    let digest = swap.secret_commitment;
    let r = redeem_with_digest(&mut swap, &ctx, secret(), &digest, Ok(()));
    assert_eq!(r, Ok(release(bob(), 100)));
    assert_eq!(swap.disclosed_secret, Some(secret()));
    assert_eq!(swap.state, SwapState::Redeemed);
}

#[test]
fn redeem_to_foreign_account_is_invalid_recipient() {
    let mut swap = created(100, T + 3600);
    let before = swap;
    let ctx = Redeem { redeemer_wallet_owner: mallory() };
    assert_eq!(redeem(&mut swap, &ctx, secret(), Ok(())), Err(AtomicSwapError::InvalidRecipient));
    assert_eq!(swap, before);
}

#[test]
fn redeem_with_refused_transfer_changes_nothing() {
    let mut swap = created(100, T + 3600);
    let before = swap;
    let ctx = Redeem { redeemer_wallet_owner: bob() };
    assert_eq!(redeem(&mut swap, &ctx, secret(), Err(6)), Err(AtomicSwapError::TransferFailed(6)));
    assert_eq!(swap, before);
    assert!(redeem(&mut swap, &ctx, secret(), Ok(())).is_ok());
}

#[test]
fn refund_at_or_before_expiry_is_not_expired() {
    let mut swap = created(100, T + 3600);
    let before = swap;
    for now in [T, T + 10, T + 3599, T + 3600] {
        let back = Refund { refunder_wallet_owner: alice(), now };
        assert_eq!(refund(&mut swap, &back, Ok(())), Err(AtomicSwapError::NotExpired));
        assert_eq!(swap, before);
    }
    let back = Refund { refunder_wallet_owner: alice(), now: T + 3601 };
    assert_eq!(refund(&mut swap, &back, Ok(())), Ok(release(alice(), 100)));
}

#[test]
fn refund_to_foreign_account_is_invalid_initiator() {
    let mut swap = created(100, T + 3600);
    let before = swap;
    let back = Refund { refunder_wallet_owner: bob(), now: T + 3601 };
    assert_eq!(refund(&mut swap, &back, Ok(())), Err(AtomicSwapError::InvalidInitiator));
    assert_eq!(swap, before);
}

#[test]
fn refund_with_refused_transfer_changes_nothing() {
    let mut swap = created(100, T + 3600);
    let before = swap;
    let back = Refund { refunder_wallet_owner: alice(), now: T + 3601 };
    assert_eq!(refund(&mut swap, &back, Err(3)), Err(AtomicSwapError::TransferFailed(3)));
    assert_eq!(swap, before);
}

#[test]
fn expiry_at_creation_instant_refunds_one_tick_later() {
    let mut swap = created(100, T);
    let same = Refund { refunder_wallet_owner: alice(), now: T };
    assert_eq!(refund(&mut swap, &same, Ok(())), Err(AtomicSwapError::NotExpired));
    let next = Refund { refunder_wallet_owner: alice(), now: T + 1 };
    assert_eq!(refund(&mut swap, &next, Ok(())), Ok(release(alice(), 100)));
}

#[test]
fn past_expiry_at_creation_refunds_at_once() {
    let mut swap = created(100, T - 60);
    let back = Refund { refunder_wallet_owner: alice(), now: T };
    assert_eq!(refund(&mut swap, &back, Ok(())), Ok(release(alice(), 100)));
    assert_eq!(swap.state, SwapState::Refunded);
}

#[test]
fn extreme_values() {
    let mut swap = created(u64::MAX, i64::MAX);
    let back = Refund { refunder_wallet_owner: alice(), now: i64::MAX };
    assert_eq!(refund(&mut swap, &back, Ok(())), Err(AtomicSwapError::NotExpired));
    let ctx = Redeem { redeemer_wallet_owner: bob() };
    assert_eq!(redeem(&mut swap, &ctx, secret(), Ok(())), Ok(release(bob(), u64::MAX)));

    let mut early = created(1, i64::MIN);
    let back = Refund { refunder_wallet_owner: alice(), now: i64::MIN + 1 };
    assert_eq!(refund(&mut early, &back, Ok(())), Ok(release(alice(), 1)));
}

#[test]
fn scenario_redeem_before_expiry() {
    let mut slot = None;
    let funding = initialize(&mut slot, &init_ctx(), bob(), commitment_of(&secret()), 100, T + 3600, Ok(()));
    assert_eq!(funding.map(|o| o.amount), Ok(100));
    let mut swap = slot.unwrap();
    let ctx = Redeem { redeemer_wallet_owner: bob() };
    assert_eq!(redeem(&mut swap, &ctx, secret(), Ok(())), Ok(release(bob(), 100)));
    assert_eq!(swap.state, SwapState::Redeemed);
    let back = Refund { refunder_wallet_owner: alice(), now: T + 3601 };
    assert_eq!(refund(&mut swap, &back, Ok(())), Err(AtomicSwapError::InvalidState));
}

#[test]
fn scenario_refund_after_expiry() {
    let mut swap = created(100, T + 3600);
    let back = Refund { refunder_wallet_owner: alice(), now: T + 3601 };
    assert_eq!(refund(&mut swap, &back, Ok(())), Ok(release(alice(), 100)));
    assert_eq!(swap.state, SwapState::Refunded);
    let ctx = Redeem { redeemer_wallet_owner: bob() };
    assert_eq!(redeem(&mut swap, &ctx, secret(), Ok(())), Err(AtomicSwapError::InvalidState));
}

#[test]
fn addresses_compare_by_bytes() {
    let mut bytes = [2u8; 32];
    assert!(Address::new(bytes).same_as(&bob()));
    bytes[17] = 0;
    assert!(!Address::new(bytes).same_as(&bob()));
}
