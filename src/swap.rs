//! The escrow record and its three transitions.
//!
//! Each transition comes in two steps. The planning step checks the record
//! and the supplied accounts without touching anything, and names the
//! balance transfer that the ledger must carry out. The committing step takes
//! the ledger's answer to that transfer and commits the new record only when
//! both the checks and the transfer went through: on any failure the record
//! is left exactly as it was.
use vstd::prelude::*;

use crate::address::{bytes_equal, Address};
use crate::digest::{sha256, sha256_of};

verus! {

/// Where an escrow stands in its life.
#[derive(Clone, Copy, Debug, PartialEq, Eq, Structural)]
pub enum SwapState {
    /// Funded and awaiting either redemption or refund.
    Created,
    /// Released to the recipient; terminal.
    Redeemed,
    /// Returned to the initiator; terminal.
    Refunded,
}

/// Every way a transition can be refused.
#[derive(Clone, Copy, Debug, PartialEq, Eq, Structural)]
pub enum AtomicSwapError {
    /// The escrow slot is already occupied.
    DuplicateEscrow,
    /// The record is no longer `Created`.
    InvalidState,
    /// The secret does not hash to the commitment.
    SecretMismatch,
    /// The deadline has not passed yet.
    NotExpired,
    /// The destination account is not owned by the recipient.
    InvalidRecipient,
    /// The destination account is not owned by the initiator.
    InvalidInitiator,
    /// The ledger refused the balance transfer; carries its error code.
    TransferFailed(u64),
}

/// The capability by which the engine signs for the escrow's holding
/// account: the bump seed of the holding account's derived address,
/// produced once when the escrow is created.
#[derive(Clone, Copy, Debug, PartialEq, Eq, Structural)]
pub struct CustodianProof {
    pub bump: u8,
}

/// One end of a balance transfer.
#[derive(Clone, Copy, Debug, PartialEq, Eq)]
pub enum Endpoint {
    /// A token account owned by the given identity.
    Wallet(Address),
    /// The escrow's custodial holding account.
    Vault,
}

/// Who authorizes a balance transfer.
#[derive(Clone, Copy, Debug, PartialEq, Eq)]
pub enum Authority {
    /// The personal signature of the given identity.
    Owner(Address),
    /// The engine itself, as custodian of the holding account.
    Custodian(CustodianProof),
}

/// A balance transfer for the ledger to carry out.
#[derive(Clone, Copy, Debug, PartialEq, Eq)]
pub struct TransferOrder {
    pub from: Endpoint,
    pub to: Endpoint,
    pub authority: Authority,
    pub amount: u64,
}

/// The persisted state of one escrow.
#[derive(Clone, Copy, Debug, PartialEq, Eq)]
pub struct AtomicSwap {
    /// Lets the engine sign for the holding account.
    pub custodian: CustodianProof,
    /// Funded the escrow; entitled to the refund.
    pub initiator: Address,
    /// Entitled to redeem on disclosure of the secret.
    pub recipient: Address,
    /// The SHA-256 digest of the secret.
    pub secret_commitment: [u8; 32],
    /// The secret, once a redemption has disclosed it.
    pub disclosed_secret: Option<[u8; 32]>,
    /// The quantity held in escrow.
    pub amount: u64,
    /// The timestamp after which a refund is allowed.
    pub expiry: i64,
    pub state: SwapState,
}

/// The accounts of a creation: who funds the escrow, and the capability over
/// the holding account derived for that funder.
#[derive(Clone, Copy, Debug, PartialEq, Eq)]
pub struct Initialize {
    pub signer: Address,
    pub custodian: CustodianProof,
}

/// The accounts of a redemption: the owner of the destination account.
#[derive(Clone, Copy, Debug, PartialEq, Eq)]
pub struct Redeem {
    pub redeemer_wallet_owner: Address,
}

/// The accounts of a refund: the owner of the destination account, and the
/// current time as the clock reports it.
#[derive(Clone, Copy, Debug, PartialEq, Eq)]
pub struct Refund {
    pub refunder_wallet_owner: Address,
    pub now: i64,
}

impl AtomicSwap {
    /// A secret is recorded exactly when the escrow has been redeemed.
    pub open spec fn wf(&self) -> bool {
        (self.state == SwapState::Redeemed) == self.disclosed_secret.is_some()
    }
}

/// The record that a creation with these arguments commits.
pub open spec fn created_record(
    ctx: Initialize,
    recipient: Address,
    secret_commitment: [u8; 32],
    amount: u64,
    expiry: i64,
) -> AtomicSwap {
    AtomicSwap {
        custodian: ctx.custodian,
        initiator: ctx.signer,
        recipient,
        secret_commitment,
        disclosed_secret: None,
        amount,
        expiry,
        state: SwapState::Created,
    }
}

/// The transfer that funds a new escrow: from the signer's own account into
/// the holding account, under the signer's own signature.
pub open spec fn funding_order(ctx: Initialize, amount: u64) -> TransferOrder {
    TransferOrder {
        from: Endpoint::Wallet(ctx.signer),
        to: Endpoint::Vault,
        authority: Authority::Owner(ctx.signer),
        amount,
    }
}

/// The transfer that releases an escrow to `to`, signed by the engine as
/// custodian.
pub open spec fn release_order(swap: AtomicSwap, to: Address) -> TransferOrder {
    TransferOrder {
        from: Endpoint::Vault,
        to: Endpoint::Wallet(to),
        authority: Authority::Custodian(swap.custodian),
        amount: swap.amount,
    }
}

/// What a creation decides, before the ledger is asked.
pub open spec fn initialize_plan(slot: Option<AtomicSwap>, ctx: Initialize, amount: u64) -> Result<
    TransferOrder,
    AtomicSwapError,
> {
    if slot.is_some() {
        Err(AtomicSwapError::DuplicateEscrow)
    } else {
        Ok(funding_order(ctx, amount))
    }
}

/// What a redemption decides, before the ledger is asked, given the digest
/// of the offered secret.
pub open spec fn redeem_plan(swap: AtomicSwap, ctx: Redeem, digest: Seq<u8>) -> Result<
    TransferOrder,
    AtomicSwapError,
> {
    if swap.state != SwapState::Created {
        Err(AtomicSwapError::InvalidState)
    } else if digest != swap.secret_commitment@ {
        Err(AtomicSwapError::SecretMismatch)
    } else if ctx.redeemer_wallet_owner != swap.recipient {
        Err(AtomicSwapError::InvalidRecipient)
    } else {
        Ok(release_order(swap, swap.recipient))
    }
}

/// What a refund decides, before the ledger is asked.
pub open spec fn refund_plan(swap: AtomicSwap, ctx: Refund) -> Result<TransferOrder, AtomicSwapError> {
    if swap.state != SwapState::Created {
        Err(AtomicSwapError::InvalidState)
    } else if ctx.now <= swap.expiry {
        Err(AtomicSwapError::NotExpired)
    } else if ctx.refunder_wallet_owner != swap.initiator {
        Err(AtomicSwapError::InvalidInitiator)
    } else {
        Ok(release_order(swap, swap.initiator))
    }
}

/// The outcome of a transition: the planned transfer when both the checks and
/// the ledger accepted it, else the first refusal.
pub open spec fn settle(
    plan: Result<TransferOrder, AtomicSwapError>,
    settled: Result<(), u64>,
) -> Result<TransferOrder, AtomicSwapError> {
    match plan {
        Err(e) => Err(e),
        Ok(order) => match settled {
            Ok(_) => Ok(order),
            Err(code) => Err(AtomicSwapError::TransferFailed(code)),
        },
    }
}

/// The record after a successful redemption with `secret`.
pub open spec fn redeemed(swap: AtomicSwap, secret: [u8; 32]) -> AtomicSwap {
    AtomicSwap { disclosed_secret: Some(secret), state: SwapState::Redeemed, ..swap }
}

/// The record after a successful refund.
pub open spec fn refunded(swap: AtomicSwap) -> AtomicSwap {
    AtomicSwap { state: SwapState::Refunded, ..swap }
}

/// What a creation returns, given the ledger's answer to the funding.
pub open spec fn initialize_result(
    slot: Option<AtomicSwap>,
    ctx: Initialize,
    amount: u64,
    settled: Result<(), u64>,
) -> Result<TransferOrder, AtomicSwapError> {
    settle(initialize_plan(slot, ctx, amount), settled)
}

/// The slot after a creation.
pub open spec fn initialize_next(
    slot: Option<AtomicSwap>,
    ctx: Initialize,
    recipient: Address,
    secret_commitment: [u8; 32],
    amount: u64,
    expiry: i64,
    settled: Result<(), u64>,
) -> Option<AtomicSwap> {
    if initialize_result(slot, ctx, amount, settled) is Ok {
        Some(created_record(ctx, recipient, secret_commitment, amount, expiry))
    } else {
        slot
    }
}

/// What a redemption returns, given the digest of the offered secret and the
/// ledger's answer to the release.
pub open spec fn redeem_result(
    swap: AtomicSwap,
    ctx: Redeem,
    digest: Seq<u8>,
    settled: Result<(), u64>,
) -> Result<TransferOrder, AtomicSwapError> {
    settle(redeem_plan(swap, ctx, digest), settled)
}

/// The record after a redemption.
pub open spec fn redeem_next(
    swap: AtomicSwap,
    ctx: Redeem,
    digest: Seq<u8>,
    secret: [u8; 32],
    settled: Result<(), u64>,
) -> AtomicSwap {
    if redeem_result(swap, ctx, digest, settled) is Ok {
        redeemed(swap, secret)
    } else {
        swap
    }
}

/// What a refund returns, given the ledger's answer to the release.
pub open spec fn refund_result(swap: AtomicSwap, ctx: Refund, settled: Result<(), u64>) -> Result<
    TransferOrder,
    AtomicSwapError,
> {
    settle(refund_plan(swap, ctx), settled)
}

/// The record after a refund.
pub open spec fn refund_next(swap: AtomicSwap, ctx: Refund, settled: Result<(), u64>) -> AtomicSwap {
    if refund_result(swap, ctx, settled) is Ok {
        refunded(swap)
    } else {
        swap
    }
}

/// Joins a plan with the ledger's answer to its transfer.
fn settle_plan(plan: Result<TransferOrder, AtomicSwapError>, settled: Result<(), u64>) -> (r: Result<
    TransferOrder,
    AtomicSwapError,
>)
    ensures
        r == settle(plan, settled),
{
    match plan {
        Err(e) => Err(e),
        Ok(order) => match settled {
            Ok(_) => Ok(order),
            Err(code) => Err(AtomicSwapError::TransferFailed(code)),
        },
    }
}

/// Checks a creation: the slot must be empty. Names the funding transfer.
pub fn plan_initialize(slot: &Option<AtomicSwap>, ctx: &Initialize, amount: u64) -> (r: Result<
    TransferOrder,
    AtomicSwapError,
>)
    ensures
        r == initialize_plan(*slot, *ctx, amount),
{
    if slot.is_some() {
        Err(AtomicSwapError::DuplicateEscrow)
    } else {
        Ok(
            TransferOrder {
                from: Endpoint::Wallet(ctx.signer),
                to: Endpoint::Vault,
                authority: Authority::Owner(ctx.signer),
                amount,
            },
        )
    }
}

/// Creates an escrow in an empty slot once the ledger has answered the
/// funding transfer. The record is committed only when the slot was empty
/// and the transfer went through; a deadline at or before the present is
/// accepted and makes the escrow refundable at once.
pub fn initialize(
    slot: &mut Option<AtomicSwap>,
    ctx: &Initialize,
    recipient: Address,
    secret_commitment: [u8; 32],
    amount: u64,
    expiry: i64,
    settled: Result<(), u64>,
) -> (r: Result<TransferOrder, AtomicSwapError>)
    requires
        amount > 0,
    ensures
        r == initialize_result(*old(slot), *ctx, amount, settled),
        *final(slot) == initialize_next(
            *old(slot),
            *ctx,
            recipient,
            secret_commitment,
            amount,
            expiry,
            settled,
        ),
{
    let r = settle_plan(plan_initialize(slot, ctx, amount), settled);
    if r.is_ok() {
        *slot = Some(
            AtomicSwap {
                custodian: ctx.custodian,
                initiator: ctx.signer,
                recipient,
                secret_commitment,
                disclosed_secret: None,
                amount,
                expiry,
                state: SwapState::Created,
            },
        );
    }
    r
}

/// Checks a redemption against the digest of the offered secret: the record
/// must be `Created`, the digest must equal the commitment in full, and the
/// destination account must belong to the recipient. Names the release
/// transfer.
pub fn check_redeem(swap: &AtomicSwap, ctx: &Redeem, digest: &[u8; 32]) -> (r: Result<
    TransferOrder,
    AtomicSwapError,
>)
    ensures
        r == redeem_plan(*swap, *ctx, digest@),
{
    if swap.state != SwapState::Created {
        Err(AtomicSwapError::InvalidState)
    } else if !bytes_equal(digest, &swap.secret_commitment) {
        Err(AtomicSwapError::SecretMismatch)
    } else if !ctx.redeemer_wallet_owner.same_as(&swap.recipient) {
        Err(AtomicSwapError::InvalidRecipient)
    } else {
        Ok(
            TransferOrder {
                from: Endpoint::Vault,
                to: Endpoint::Wallet(swap.recipient),
                authority: Authority::Custodian(swap.custodian),
                amount: swap.amount,
            },
        )
    }
}

/// Checks a redemption with the given secret; see `check_redeem`.
pub fn plan_redeem(swap: &AtomicSwap, ctx: &Redeem, secret: &[u8; 32]) -> (r: Result<
    TransferOrder,
    AtomicSwapError,
>)
    ensures
        r == redeem_plan(*swap, *ctx, sha256_of(secret@)),
{
    let digest = sha256(secret);
    check_redeem(swap, ctx, &digest)
}

/// Redeems with a secret whose digest is given, once the ledger has answered
/// the release transfer: on success the secret is recorded and the record
/// becomes `Redeemed`; on any failure it is left unchanged.
pub fn redeem_with_digest(
    swap: &mut AtomicSwap,
    ctx: &Redeem,
    secret: [u8; 32],
    digest: &[u8; 32],
    settled: Result<(), u64>,
) -> (r: Result<TransferOrder, AtomicSwapError>)
    ensures
        r == redeem_result(*old(swap), *ctx, digest@, settled),
        *final(swap) == redeem_next(*old(swap), *ctx, digest@, secret, settled),
        old(swap).wf() ==> final(swap).wf(),
{
    let r = settle_plan(check_redeem(swap, ctx, digest), settled);
    if r.is_ok() {
        swap.disclosed_secret = Some(secret);
        swap.state = SwapState::Redeemed;
    }
    r
}

/// Redeems with the given secret; see `redeem_with_digest`. A success
/// discloses a secret whose digest is the commitment.
pub fn redeem(swap: &mut AtomicSwap, ctx: &Redeem, secret: [u8; 32], settled: Result<(), u64>) -> (r:
    Result<TransferOrder, AtomicSwapError>)
    ensures
        r == redeem_result(*old(swap), *ctx, sha256_of(secret@), settled),
        *final(swap) == redeem_next(*old(swap), *ctx, sha256_of(secret@), secret, settled),
        r is Ok ==> sha256_of(secret@) == old(swap).secret_commitment@,
        old(swap).wf() ==> final(swap).wf(),
{
    let digest = sha256(&secret);
    redeem_with_digest(swap, ctx, secret, &digest, settled)
}

/// Checks a refund: the record must be `Created`, the clock must be strictly
/// past the deadline, and the destination account must belong to the
/// initiator. Names the release transfer.
pub fn plan_refund(swap: &AtomicSwap, ctx: &Refund) -> (r: Result<TransferOrder, AtomicSwapError>)
    ensures
        r == refund_plan(*swap, *ctx),
{
    if swap.state != SwapState::Created {
        Err(AtomicSwapError::InvalidState)
    } else if ctx.now <= swap.expiry {
        Err(AtomicSwapError::NotExpired)
    } else if !ctx.refunder_wallet_owner.same_as(&swap.initiator) {
        Err(AtomicSwapError::InvalidInitiator)
    } else {
        Ok(
            TransferOrder {
                from: Endpoint::Vault,
                to: Endpoint::Wallet(swap.initiator),
                authority: Authority::Custodian(swap.custodian),
                amount: swap.amount,
            },
        )
    }
}

/// Refunds an expired escrow once the ledger has answered the release
/// transfer: on success the record becomes `Refunded`; on any failure it is
/// left unchanged.
pub fn refund(swap: &mut AtomicSwap, ctx: &Refund, settled: Result<(), u64>) -> (r: Result<
    TransferOrder,
    AtomicSwapError,
>)
    ensures
        r == refund_result(*old(swap), *ctx, settled),
        *final(swap) == refund_next(*old(swap), *ctx, settled),
        old(swap).wf() ==> final(swap).wf(),
{
    let r = settle_plan(plan_refund(swap, ctx), settled);
    if r.is_ok() {
        swap.state = SwapState::Refunded;
    }
    r
}

} // verus!
