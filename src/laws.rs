//! Properties of the escrow engine that span several transitions.
use vstd::prelude::*;

use crate::address::Address;
use crate::digest::sha256_of;
use crate::swap::{
    created_record, initialize_next, initialize_result, redeem_next, redeem_plan, redeem_result,
    redeemed, refund_next, refund_result, refunded, AtomicSwap, AtomicSwapError, Authority, Endpoint,
    Initialize, Redeem, Refund, SwapState, TransferOrder,
};

verus! {

/// A fresh escrow, funded and then redeemed with a secret whose digest is the
/// commitment, to an account of the recipient: the funding moves `amount`
/// from the initiator into the holding account, the redemption moves the
/// same `amount` from the holding account to the recipient, and no
/// redemption succeeds after it.
pub proof fn lemma_initiate_then_redeem(
    ctx: Initialize,
    recipient: Address,
    secret_commitment: [u8; 32],
    amount: u64,
    expiry: i64,
    secret: [u8; 32],
    redeem_ctx: Redeem,
)
    requires
        amount > 0,
        sha256_of(secret@) == secret_commitment@,
        redeem_ctx.redeemer_wallet_owner == recipient,
    ensures
        ({
            let swap = created_record(ctx, recipient, secret_commitment, amount, expiry);
            let done = redeem_next(swap, redeem_ctx, sha256_of(secret@), secret, Ok(()));
            &&& initialize_result(None, ctx, amount, Ok(())) == Ok::<TransferOrder, AtomicSwapError>(
                TransferOrder {
                    from: Endpoint::Wallet(ctx.signer),
                    to: Endpoint::Vault,
                    authority: Authority::Owner(ctx.signer),
                    amount,
                },
            )
            &&& initialize_next(
                None,
                ctx,
                recipient,
                secret_commitment,
                amount,
                expiry,
                Ok(()),
            ) == Some(swap)
            &&& swap.wf()
            &&& redeem_result(swap, redeem_ctx, sha256_of(secret@), Ok(())) == Ok::<
                TransferOrder,
                AtomicSwapError,
            >(
                TransferOrder {
                    from: Endpoint::Vault,
                    to: Endpoint::Wallet(recipient),
                    authority: Authority::Custodian(ctx.custodian),
                    amount,
                },
            )
            &&& done == redeemed(swap, secret)
            &&& done.wf()
            &&& forall|c: Redeem, d: Seq<u8>, s: Result<(), u64>|
                #[trigger] redeem_result(done, c, d, s) == Err::<TransferOrder, AtomicSwapError>(
                    AtomicSwapError::InvalidState,
                )
        }),
{
}

/// A record that has left `Created` refuses every redemption and every
/// refund with `InvalidState`, and stays as it is.
pub proof fn lemma_terminal_rejects(swap: AtomicSwap)
    requires
        swap.state != SwapState::Created,
    ensures
        forall|c: Redeem, d: Seq<u8>, s: Result<(), u64>|
            #[trigger] redeem_result(swap, c, d, s) == Err::<TransferOrder, AtomicSwapError>(
                AtomicSwapError::InvalidState,
            ),
        forall|c: Redeem, d: Seq<u8>, x: [u8; 32], s: Result<(), u64>|
            #[trigger] redeem_next(swap, c, d, x, s) == swap,
        forall|c: Refund, s: Result<(), u64>|
            #[trigger] refund_result(swap, c, s) == Err::<TransferOrder, AtomicSwapError>(
                AtomicSwapError::InvalidState,
            ),
        forall|c: Refund, s: Result<(), u64>| #[trigger] refund_next(swap, c, s) == swap,
{
}

/// Of a redemption and a refund of the same record, at most one succeeds:
/// after either has succeeded, a second attempt at either fails with
/// `InvalidState`.
pub proof fn lemma_mutual_exclusion(
    swap: AtomicSwap,
    redeem_ctx: Redeem,
    digest: Seq<u8>,
    secret: [u8; 32],
    redeem_settled: Result<(), u64>,
    refund_ctx: Refund,
    refund_settled: Result<(), u64>,
)
    ensures
        redeem_result(swap, redeem_ctx, digest, redeem_settled) is Ok ==> {
            let after = redeem_next(swap, redeem_ctx, digest, secret, redeem_settled);
            &&& forall|c: Redeem, d: Seq<u8>, s: Result<(), u64>|
                #[trigger] redeem_result(after, c, d, s) == Err::<TransferOrder, AtomicSwapError>(
                    AtomicSwapError::InvalidState,
                )
            &&& forall|c: Refund, s: Result<(), u64>|
                #[trigger] refund_result(after, c, s) == Err::<TransferOrder, AtomicSwapError>(
                    AtomicSwapError::InvalidState,
                )
        },
        refund_result(swap, refund_ctx, refund_settled) is Ok ==> {
            let after = refund_next(swap, refund_ctx, refund_settled);
            &&& forall|c: Redeem, d: Seq<u8>, s: Result<(), u64>|
                #[trigger] redeem_result(after, c, d, s) == Err::<TransferOrder, AtomicSwapError>(
                    AtomicSwapError::InvalidState,
                )
            &&& forall|c: Refund, s: Result<(), u64>|
                #[trigger] refund_result(after, c, s) == Err::<TransferOrder, AtomicSwapError>(
                    AtomicSwapError::InvalidState,
                )
        },
{
}

/// On a `Created` record, a secret whose digest differs from the commitment
/// is refused with `SecretMismatch`: no transfer is planned and the record
/// is left unchanged.
pub proof fn lemma_wrong_secret(
    swap: AtomicSwap,
    ctx: Redeem,
    secret: [u8; 32],
    settled: Result<(), u64>,
)
    requires
        swap.state == SwapState::Created,
        sha256_of(secret@) != swap.secret_commitment@,
    ensures
        redeem_plan(swap, ctx, sha256_of(secret@)) == Err::<TransferOrder, AtomicSwapError>(
            AtomicSwapError::SecretMismatch,
        ),
        redeem_result(swap, ctx, sha256_of(secret@), settled) == Err::<
            TransferOrder,
            AtomicSwapError,
        >(AtomicSwapError::SecretMismatch),
        redeem_next(swap, ctx, sha256_of(secret@), secret, settled) == swap,
{
}

/// On a `Created` record, a refund at or before the deadline is refused with
/// `NotExpired` and changes nothing.
pub proof fn lemma_refund_too_early(swap: AtomicSwap, ctx: Refund, settled: Result<(), u64>)
    requires
        swap.state == SwapState::Created,
        ctx.now <= swap.expiry,
    ensures
        refund_result(swap, ctx, settled) == Err::<TransferOrder, AtomicSwapError>(
            AtomicSwapError::NotExpired,
        ),
        refund_next(swap, ctx, settled) == swap,
{
}

/// On a `Created` record, a refund strictly after the deadline, to an
/// account of the initiator, that the ledger carries out, succeeds: it moves
/// `amount` from the holding account back to the initiator and leaves the
/// record `Refunded`.
pub proof fn lemma_refund_after_expiry(swap: AtomicSwap, ctx: Refund)
    requires
        swap.state == SwapState::Created,
        ctx.now > swap.expiry,
        ctx.refunder_wallet_owner == swap.initiator,
    ensures
        refund_result(swap, ctx, Ok(())) == Ok::<TransferOrder, AtomicSwapError>(
            TransferOrder {
                from: Endpoint::Vault,
                to: Endpoint::Wallet(swap.initiator),
                authority: Authority::Custodian(swap.custodian),
                amount: swap.amount,
            },
        ),
        refund_next(swap, ctx, Ok(())) == refunded(swap),
{
}

/// A refused call leaves its record (or slot) exactly as it was, so the same
/// call, repeated any number of times, is refused again with the same error.
pub proof fn lemma_failure_is_idempotent(
    swap: AtomicSwap,
    redeem_ctx: Redeem,
    digest: Seq<u8>,
    secret: [u8; 32],
    redeem_settled: Result<(), u64>,
    refund_ctx: Refund,
    refund_settled: Result<(), u64>,
    slot: Option<AtomicSwap>,
    init_ctx: Initialize,
    recipient: Address,
    secret_commitment: [u8; 32],
    amount: u64,
    expiry: i64,
    init_settled: Result<(), u64>,
)
    ensures
        redeem_result(swap, redeem_ctx, digest, redeem_settled) is Err ==> {
            let after = redeem_next(swap, redeem_ctx, digest, secret, redeem_settled);
            &&& after == swap
            &&& redeem_result(after, redeem_ctx, digest, redeem_settled) == redeem_result(
                swap,
                redeem_ctx,
                digest,
                redeem_settled,
            )
        },
        refund_result(swap, refund_ctx, refund_settled) is Err ==> {
            let after = refund_next(swap, refund_ctx, refund_settled);
            &&& after == swap
            &&& refund_result(after, refund_ctx, refund_settled) == refund_result(
                swap,
                refund_ctx,
                refund_settled,
            )
        },
        initialize_result(slot, init_ctx, amount, init_settled) is Err ==> {
            let after = initialize_next(
                slot,
                init_ctx,
                recipient,
                secret_commitment,
                amount,
                expiry,
                init_settled,
            );
            &&& after == slot
            &&& initialize_result(after, init_ctx, amount, init_settled) == initialize_result(
                slot,
                init_ctx,
                amount,
                init_settled,
            )
        },
        slot.is_some() ==> initialize_result(slot, init_ctx, amount, init_settled) == Err::<
            TransferOrder,
            AtomicSwapError,
        >(AtomicSwapError::DuplicateEscrow),
{
}

} // verus!
