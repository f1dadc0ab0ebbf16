//! A hash time-locked escrow: funds locked under a secret commitment and a
//! deadline, released to the recipient on disclosure of the secret or returned
//! to the initiator once the deadline has passed.
pub mod address;
pub mod digest;
pub mod laws;
pub mod swap;

pub use address::Address;
pub use digest::commitment_of;
pub use swap::{
    check_redeem, initialize, plan_initialize, plan_redeem, plan_refund, redeem,
    redeem_with_digest, refund, AtomicSwap, AtomicSwapError, Authority, CustodianProof, Endpoint,
    Initialize, Redeem, Refund, SwapState, TransferOrder,
};
