//! The escrow state machine: the four transitions `open`, `accept`,
//! `confirm` and `refund`, each validating authorization and current status
//! before mutating the offer and moving custody.
//!
//! Each transition has a guard spec function (`*_check`) giving the exact
//! error it reports — guards are evaluated in order, status conflicts first,
//! so that no asset movement is ever attempted from a wrong status — and a
//! relation spec function (`*_rel`) saying precisely how the trade and the
//! touched token accounts change on success.  A failed transition changes
//! nothing: every transition commits whole or not at all.

use crate::error::GrpxProtocolError;
use crate::state::{AccountId, Offer, OfferStatus, TokenAccount, Trade, Vault};
use vstd::prelude::*;

verus! {

/// The guard of `open`: why opening an offer would fail, or `None` if it
/// must succeed.  The caller must own the funding account, the account must
/// hold the declared asset kind, and it must cover the offered amount.
pub open spec fn open_check(
    caller: AccountId,
    source: TokenAccount,
    token_mint_a: AccountId,
    token_a_offered_amount: u64,
) -> Option<GrpxProtocolError> {
    if source.owner != caller {
        Some(GrpxProtocolError::Unauthorized)
    } else if source.mint != token_mint_a {
        Some(GrpxProtocolError::MintMismatch)
    } else if source.amount < token_a_offered_amount {
        Some(GrpxProtocolError::InsufficientBalance)
    } else {
        None
    }
}

/// How `open` changes the world on success: a fresh offer in `Created`
/// status, the producer-leg vault funded with exactly the offered amount,
/// and that amount debited from the producer's account.  Nothing else moves.
pub open spec fn open_rel(
    t: Trade,
    caller: AccountId,
    id: u64,
    token_mint_a: AccountId,
    token_mint_b: AccountId,
    token_a_offered_amount: u64,
    token_b_desired_amount: u64,
    bump: u8,
    source_pre: TokenAccount,
    source_post: TokenAccount,
) -> bool {
    &&& open_check(caller, source_pre, token_mint_a, token_a_offered_amount) is None
    &&& t.offer == (Offer {
        id,
        producer: caller,
        consumer: None,
        token_mint_a,
        token_mint_b,
        token_a_offered_amount,
        token_b_desired_amount,
        status: OfferStatus::Created,
        bump,
    })
    &&& t.vault_a == Some(Vault { mint: token_mint_a, amount: token_a_offered_amount })
    &&& t.vault_b is None
    &&& source_post == (TokenAccount {
        owner: source_pre.owner,
        mint: source_pre.mint,
        amount: (source_pre.amount - token_a_offered_amount) as u64,
    })
}

/// `open`: the producer creates the offer record and funds the producer-leg
/// vault in one atomic step.  The record and the vault come into being
/// together; the exact declared amount moves, so the vault balance and the
/// offer bookkeeping cannot drift apart.
pub fn open(
    caller: AccountId,
    id: u64,
    token_mint_a: AccountId,
    token_mint_b: AccountId,
    token_a_offered_amount: u64,
    token_b_desired_amount: u64,
    bump: u8,
    producer_token_account_a: &mut TokenAccount,
) -> (r: Result<Trade, GrpxProtocolError>)
    ensures
        r is Err <==> open_check(
            caller,
            *old(producer_token_account_a),
            token_mint_a,
            token_a_offered_amount,
        ) is Some,
        r matches Err(e) ==> Some(e) == open_check(
            caller,
            *old(producer_token_account_a),
            token_mint_a,
            token_a_offered_amount,
        ) && *final(producer_token_account_a) == *old(producer_token_account_a),
        r matches Ok(t) ==> open_rel(
            t,
            caller,
            id,
            token_mint_a,
            token_mint_b,
            token_a_offered_amount,
            token_b_desired_amount,
            bump,
            *old(producer_token_account_a),
            *final(producer_token_account_a),
        ),
        r matches Ok(t) ==> t.wf(),
{
    if producer_token_account_a.owner != caller {
        return Err(GrpxProtocolError::Unauthorized);
    }
    if producer_token_account_a.mint != token_mint_a {
        return Err(GrpxProtocolError::MintMismatch);
    }
    if producer_token_account_a.amount < token_a_offered_amount {
        return Err(GrpxProtocolError::InsufficientBalance);
    }
    producer_token_account_a.amount = producer_token_account_a.amount - token_a_offered_amount;
    let offer = Offer {
        id,
        producer: caller,
        consumer: None,
        token_mint_a,
        token_mint_b,
        token_a_offered_amount,
        token_b_desired_amount,
        status: OfferStatus::Created,
        bump,
    };
    Ok(Trade {
        offer,
        vault_a: Some(Vault { mint: token_mint_a, amount: token_a_offered_amount }),
        vault_b: None,
    })
}

/// The guard of `accept`: the offer must still be open to acceptance (status
/// conflicts are reported before anything else, a settled offer
/// distinctly), the caller must own the payment account, and the account
/// must hold enough of the demanded payment asset.
pub open spec fn accept_check(
    t: Trade,
    caller: AccountId,
    payment: TokenAccount,
) -> Option<GrpxProtocolError> {
    if t.offer.status.is_terminal() {
        Some(GrpxProtocolError::OfferAlreadySettled)
    } else if !(t.offer.status is Created) {
        Some(GrpxProtocolError::InvalidOfferStatus)
    } else if payment.owner != caller {
        Some(GrpxProtocolError::Unauthorized)
    } else if payment.mint != t.offer.token_mint_b {
        Some(GrpxProtocolError::MintMismatch)
    } else if payment.amount < t.offer.token_b_desired_amount {
        Some(GrpxProtocolError::InsufficientBalance)
    } else {
        None
    }
}

/// How `accept` changes the world on success: the demanded payment moves
/// from the consumer's account into a fresh consumer-leg vault, the caller
/// is recorded as the consumer, and the status flips to `Accepted`.  The
/// producer-leg vault and all trade terms are untouched.
pub open spec fn accept_rel(
    pre: Trade,
    post: Trade,
    caller: AccountId,
    payment_pre: TokenAccount,
    payment_post: TokenAccount,
) -> bool {
    &&& accept_check(pre, caller, payment_pre) is None
    &&& post.offer == (Offer {
        consumer: Some(caller),
        status: OfferStatus::Accepted,
        ..pre.offer
    })
    &&& post.vault_a == pre.vault_a
    &&& post.vault_b == Some(
        Vault { mint: pre.offer.token_mint_b, amount: pre.offer.token_b_desired_amount },
    )
    &&& payment_post == (TokenAccount {
        owner: payment_pre.owner,
        mint: payment_pre.mint,
        amount: (payment_pre.amount - pre.offer.token_b_desired_amount) as u64,
    })
}

/// `accept`: a consumer takes the offer, funding the consumer-leg vault with
/// exactly the demanded payment in the same atomic step that records them
/// and flips the status.
pub fn accept(
    t: &mut Trade,
    caller: AccountId,
    consumer_token_account_b: &mut TokenAccount,
) -> (r: Result<(), GrpxProtocolError>)
    requires
        old(t).wf(),
    ensures
        final(t).wf(),
        r is Err <==> accept_check(*old(t), caller, *old(consumer_token_account_b)) is Some,
        r matches Err(e) ==> Some(e) == accept_check(
            *old(t),
            caller,
            *old(consumer_token_account_b),
        ) && *final(t) == *old(t) && *final(consumer_token_account_b) == *old(
            consumer_token_account_b,
        ),
        r is Ok ==> accept_rel(
            *old(t),
            *final(t),
            caller,
            *old(consumer_token_account_b),
            *final(consumer_token_account_b),
        ),
{
    match t.offer.status {
        OfferStatus::Completed => {
            return Err(GrpxProtocolError::OfferAlreadySettled);
        },
        OfferStatus::Refunded => {
            return Err(GrpxProtocolError::OfferAlreadySettled);
        },
        OfferStatus::Accepted => {
            return Err(GrpxProtocolError::InvalidOfferStatus);
        },
        OfferStatus::Created => {},
    }
    if consumer_token_account_b.owner != caller {
        return Err(GrpxProtocolError::Unauthorized);
    }
    if consumer_token_account_b.mint != t.offer.token_mint_b {
        return Err(GrpxProtocolError::MintMismatch);
    }
    if consumer_token_account_b.amount < t.offer.token_b_desired_amount {
        return Err(GrpxProtocolError::InsufficientBalance);
    }
    consumer_token_account_b.amount =
        consumer_token_account_b.amount - t.offer.token_b_desired_amount;
    t.vault_b = Some(
        Vault { mint: t.offer.token_mint_b, amount: t.offer.token_b_desired_amount },
    );
    t.offer.consumer = Some(caller);
    t.offer.status = OfferStatus::Accepted;
    Ok(())
}

/// The guard of `confirm`: the offer must be accepted and not yet settled,
/// only the recorded consumer — the receiver of the asset, the party with
/// the most to lose from a false confirmation — may confirm, each released
/// leg must go to an account of its new owner holding the right asset kind,
/// and neither destination balance may overflow.
pub open spec fn confirm_check(
    t: Trade,
    caller: AccountId,
    consumer_dest_a: TokenAccount,
    producer_dest_b: TokenAccount,
) -> Option<GrpxProtocolError> {
    if t.offer.status.is_terminal() {
        Some(GrpxProtocolError::OfferAlreadySettled)
    } else if !(t.offer.status is Accepted) {
        Some(GrpxProtocolError::InvalidOfferStatus)
    } else if t.offer.consumer != Some(caller) {
        Some(GrpxProtocolError::UnauthorizedConfirmation)
    } else if consumer_dest_a.owner != caller {
        Some(GrpxProtocolError::InvalidDestination)
    } else if consumer_dest_a.mint != t.offer.token_mint_a {
        Some(GrpxProtocolError::MintMismatch)
    } else if producer_dest_b.owner != t.offer.producer {
        Some(GrpxProtocolError::InvalidDestination)
    } else if producer_dest_b.mint != t.offer.token_mint_b {
        Some(GrpxProtocolError::MintMismatch)
    } else if consumer_dest_a.amount + t.offer.token_a_offered_amount > u64::MAX {
        Some(GrpxProtocolError::BalanceOverflow)
    } else if producer_dest_b.amount + t.offer.token_b_desired_amount > u64::MAX {
        Some(GrpxProtocolError::BalanceOverflow)
    } else {
        None
    }
}

/// How `confirm` changes the world on success: the escrowed asset goes whole
/// to the consumer, the escrowed payment goes whole to the producer, both
/// vaults close, and the status flips to `Completed`.  The amounts moved are
/// the vaults' own balances, so nothing can be left behind or double-drawn.
pub open spec fn confirm_rel(
    pre: Trade,
    post: Trade,
    caller: AccountId,
    consumer_dest_a_pre: TokenAccount,
    consumer_dest_a_post: TokenAccount,
    producer_dest_b_pre: TokenAccount,
    producer_dest_b_post: TokenAccount,
) -> bool {
    &&& confirm_check(pre, caller, consumer_dest_a_pre, producer_dest_b_pre) is None
    &&& post.offer == (Offer { status: OfferStatus::Completed, ..pre.offer })
    &&& post.vault_a is None
    &&& post.vault_b is None
    &&& consumer_dest_a_post == (TokenAccount {
        owner: consumer_dest_a_pre.owner,
        mint: consumer_dest_a_pre.mint,
        amount: (consumer_dest_a_pre.amount + pre.offer.token_a_offered_amount) as u64,
    })
    &&& producer_dest_b_post == (TokenAccount {
        owner: producer_dest_b_pre.owner,
        mint: producer_dest_b_pre.mint,
        amount: (producer_dest_b_pre.amount + pre.offer.token_b_desired_amount) as u64,
    })
}

/// `confirm`: the consumer confirms receipt of the asset, which releases the
/// payment to the producer and the asset to the consumer, closes both vaults
/// and completes the offer — all in one atomic step, re-checking the status
/// first so that of two racing settlements exactly one can succeed.
pub fn confirm(
    t: &mut Trade,
    caller: AccountId,
    consumer_token_account_a: &mut TokenAccount,
    producer_token_account_b: &mut TokenAccount,
) -> (r: Result<(), GrpxProtocolError>)
    requires
        old(t).wf(),
    ensures
        final(t).wf(),
        r is Err <==> confirm_check(
            *old(t),
            caller,
            *old(consumer_token_account_a),
            *old(producer_token_account_b),
        ) is Some,
        r matches Err(e) ==> Some(e) == confirm_check(
            *old(t),
            caller,
            *old(consumer_token_account_a),
            *old(producer_token_account_b),
        ) && *final(t) == *old(t) && *final(consumer_token_account_a) == *old(
            consumer_token_account_a,
        ) && *final(producer_token_account_b) == *old(producer_token_account_b),
        r is Ok ==> confirm_rel(
            *old(t),
            *final(t),
            caller,
            *old(consumer_token_account_a),
            *final(consumer_token_account_a),
            *old(producer_token_account_b),
            *final(producer_token_account_b),
        ),
{
    match t.offer.status {
        OfferStatus::Completed => {
            return Err(GrpxProtocolError::OfferAlreadySettled);
        },
        OfferStatus::Refunded => {
            return Err(GrpxProtocolError::OfferAlreadySettled);
        },
        OfferStatus::Created => {
            return Err(GrpxProtocolError::InvalidOfferStatus);
        },
        OfferStatus::Accepted => {},
    }
    let authorized = match t.offer.consumer {
        Some(consumer) => consumer == caller,
        None => false,
    };
    if !authorized {
        return Err(GrpxProtocolError::UnauthorizedConfirmation);
    }
    if consumer_token_account_a.owner != caller {
        return Err(GrpxProtocolError::InvalidDestination);
    }
    if consumer_token_account_a.mint != t.offer.token_mint_a {
        return Err(GrpxProtocolError::MintMismatch);
    }
    if producer_token_account_b.owner != t.offer.producer {
        return Err(GrpxProtocolError::InvalidDestination);
    }
    if producer_token_account_b.mint != t.offer.token_mint_b {
        return Err(GrpxProtocolError::MintMismatch);
    }
    if t.offer.token_a_offered_amount > u64::MAX - consumer_token_account_a.amount {
        return Err(GrpxProtocolError::BalanceOverflow);
    }
    if t.offer.token_b_desired_amount > u64::MAX - producer_token_account_b.amount {
        return Err(GrpxProtocolError::BalanceOverflow);
    }
    // Release each leg by the vault's own balance, then close the vault.
    let vault_a = t.vault_a.unwrap();
    let vault_b = t.vault_b.unwrap();
    consumer_token_account_a.amount = consumer_token_account_a.amount + vault_a.amount;
    producer_token_account_b.amount = producer_token_account_b.amount + vault_b.amount;
    t.vault_a = None;
    t.vault_b = None;
    t.offer.status = OfferStatus::Completed;
    Ok(())
}

/// The guard of `refund`: a settled offer cannot be refunded again, only the
/// producer or the current consumer may initiate, the producer's asset must
/// return to an account of the producer holding that asset kind, the payment
/// — when a consumer leg exists — to an account of the consumer, and no
/// destination balance may overflow.
pub open spec fn refund_check(
    t: Trade,
    caller: AccountId,
    producer_dest_a: TokenAccount,
    consumer_dest_b: TokenAccount,
) -> Option<GrpxProtocolError> {
    if t.offer.status.is_terminal() {
        Some(GrpxProtocolError::OfferAlreadySettled)
    } else if caller != t.offer.producer && Some(caller) != t.offer.consumer {
        Some(GrpxProtocolError::UnauthorizedRefund)
    } else if producer_dest_a.owner != t.offer.producer {
        Some(GrpxProtocolError::InvalidDestination)
    } else if producer_dest_a.mint != t.offer.token_mint_a {
        Some(GrpxProtocolError::MintMismatch)
    } else if t.vault_b is Some && Some(consumer_dest_b.owner) != t.offer.consumer {
        Some(GrpxProtocolError::InvalidDestination)
    } else if t.vault_b is Some && consumer_dest_b.mint != t.offer.token_mint_b {
        Some(GrpxProtocolError::MintMismatch)
    } else if producer_dest_a.amount + t.offer.token_a_offered_amount > u64::MAX {
        Some(GrpxProtocolError::BalanceOverflow)
    } else if t.vault_b is Some && consumer_dest_b.amount + t.offer.token_b_desired_amount
        > u64::MAX {
        Some(GrpxProtocolError::BalanceOverflow)
    } else {
        None
    }
}

/// How `refund` changes the world on success: whichever legs are funded
/// return whole to their original owners — the asset to the producer always,
/// the payment to the consumer exactly when a consumer leg exists — every
/// vault closes, and the status flips to `Refunded`.  An account for a leg
/// that was never funded is untouched.
pub open spec fn refund_rel(
    pre: Trade,
    post: Trade,
    caller: AccountId,
    producer_dest_a_pre: TokenAccount,
    producer_dest_a_post: TokenAccount,
    consumer_dest_b_pre: TokenAccount,
    consumer_dest_b_post: TokenAccount,
) -> bool {
    &&& refund_check(pre, caller, producer_dest_a_pre, consumer_dest_b_pre) is None
    &&& post.offer == (Offer { status: OfferStatus::Refunded, ..pre.offer })
    &&& post.vault_a is None
    &&& post.vault_b is None
    &&& producer_dest_a_post == (TokenAccount {
        owner: producer_dest_a_pre.owner,
        mint: producer_dest_a_pre.mint,
        amount: (producer_dest_a_pre.amount + pre.offer.token_a_offered_amount) as u64,
    })
    &&& pre.vault_b is Some ==> consumer_dest_b_post == (TokenAccount {
        owner: consumer_dest_b_pre.owner,
        mint: consumer_dest_b_pre.mint,
        amount: (consumer_dest_b_pre.amount + pre.offer.token_b_desired_amount) as u64,
    })
    &&& pre.vault_b is None ==> consumer_dest_b_post == consumer_dest_b_pre
}

/// `refund`: the producer or the current consumer unwinds a trade that has
/// not completed.  Before acceptance only the producer leg exists and only
/// it is returned; after acceptance both legs return to their original
/// owners.  The status is re-checked first, so a refund racing a
/// confirmation settles the offer exactly once.
pub fn refund(
    t: &mut Trade,
    caller: AccountId,
    producer_token_account_a: &mut TokenAccount,
    consumer_token_account_b: &mut TokenAccount,
) -> (r: Result<(), GrpxProtocolError>)
    requires
        old(t).wf(),
    ensures
        final(t).wf(),
        r is Err <==> refund_check(
            *old(t),
            caller,
            *old(producer_token_account_a),
            *old(consumer_token_account_b),
        ) is Some,
        r matches Err(e) ==> Some(e) == refund_check(
            *old(t),
            caller,
            *old(producer_token_account_a),
            *old(consumer_token_account_b),
        ) && *final(t) == *old(t) && *final(producer_token_account_a) == *old(
            producer_token_account_a,
        ) && *final(consumer_token_account_b) == *old(consumer_token_account_b),
        r is Ok ==> refund_rel(
            *old(t),
            *final(t),
            caller,
            *old(producer_token_account_a),
            *final(producer_token_account_a),
            *old(consumer_token_account_b),
            *final(consumer_token_account_b),
        ),
{
    match t.offer.status {
        OfferStatus::Completed => {
            return Err(GrpxProtocolError::OfferAlreadySettled);
        },
        OfferStatus::Refunded => {
            return Err(GrpxProtocolError::OfferAlreadySettled);
        },
        OfferStatus::Created => {},
        OfferStatus::Accepted => {},
    }
    let is_producer = caller == t.offer.producer;
    let is_consumer = match t.offer.consumer {
        Some(consumer) => consumer == caller,
        None => false,
    };
    if !is_producer && !is_consumer {
        return Err(GrpxProtocolError::UnauthorizedRefund);
    }
    if producer_token_account_a.owner != t.offer.producer {
        return Err(GrpxProtocolError::InvalidDestination);
    }
    if producer_token_account_a.mint != t.offer.token_mint_a {
        return Err(GrpxProtocolError::MintMismatch);
    }
    // The consumer leg is optional data: it exists only for an accepted
    // offer, and its destination is validated only when it exists.
    let has_vault_b = t.vault_b.is_some();
    if has_vault_b {
        let consumer_ok = match t.offer.consumer {
            Some(consumer) => consumer_token_account_b.owner == consumer,
            None => false,
        };
        if !consumer_ok {
            return Err(GrpxProtocolError::InvalidDestination);
        }
        if consumer_token_account_b.mint != t.offer.token_mint_b {
            return Err(GrpxProtocolError::MintMismatch);
        }
    }
    if t.offer.token_a_offered_amount > u64::MAX - producer_token_account_a.amount {
        return Err(GrpxProtocolError::BalanceOverflow);
    }
    if has_vault_b {
        if t.offer.token_b_desired_amount > u64::MAX - consumer_token_account_b.amount {
            return Err(GrpxProtocolError::BalanceOverflow);
        }
    }
    // Return each funded leg by the vault's own balance, closing as we go.
    let vault_a = t.vault_a.unwrap();
    producer_token_account_a.amount = producer_token_account_a.amount + vault_a.amount;
    t.vault_a = None;
    if has_vault_b {
        let vault_b = t.vault_b.unwrap();
        consumer_token_account_b.amount = consumer_token_account_b.amount + vault_b.amount;
        t.vault_b = None;
    }
    t.offer.status = OfferStatus::Refunded;
    Ok(())
}

} // verus!
