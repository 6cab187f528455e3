use vstd::prelude::*;

verus! {

/// Every guard of the escrow state machine produces its own error kind, so a
/// caller can tell "you are not authorized" from "this offer has already
/// closed".  A transition that fails leaves the offer, the vaults and every
/// token account exactly as they were.
#[derive(Clone, Copy, PartialEq, Eq, Structural, Debug)]
pub enum GrpxProtocolError {
    /// The caller does not own the account that is to fund the trade.
    Unauthorized,
    /// The transition is not permitted from the offer's current status.
    InvalidOfferStatus,
    /// Only the consumer who accepted the offer can confirm the delivery.
    UnauthorizedConfirmation,
    /// Only the producer or the current consumer can request a refund.
    UnauthorizedRefund,
    /// The offer has already been completed or refunded.
    OfferAlreadySettled,
    /// An account holds a different asset kind than the transition requires.
    MintMismatch,
    /// The funding account holds less than the amount to be escrowed.
    InsufficientBalance,
    /// A destination account does not belong to the party owed the funds.
    InvalidDestination,
    /// Releasing the funds would overflow a destination account's balance.
    BalanceOverflow,
}

} // verus!
