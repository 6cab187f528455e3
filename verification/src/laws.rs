//! The laws of the escrow state machine, stated over the transition
//! relations of [`crate::machine`] and proved once and for all: conservation
//! of value, no double release, status monotonicity, authorization
//! enforcement, and the vault lifecycle invariant.

use crate::error::GrpxProtocolError;
use crate::machine::{
    accept_check, accept_rel, confirm_check, confirm_rel, open_check, open_rel, refund_check,
    refund_rel,
};
use crate::state::{AccountId, OfferStatus, TokenAccount, Trade, Vault};
use vstd::prelude::*;

verus! {

/// Some consumer accepted the offer, taking `pre` to `post`.
pub open spec fn accept_step(pre: Trade, post: Trade) -> bool {
    exists|caller: AccountId, pay0: TokenAccount, pay1: TokenAccount|
        accept_rel(pre, post, caller, pay0, pay1)
}

/// Some caller confirmed the delivery, taking `pre` to `post`.
pub open spec fn confirm_step(pre: Trade, post: Trade) -> bool {
    exists|caller: AccountId, ca0: TokenAccount, ca1: TokenAccount, pb0: TokenAccount, pb1:
        TokenAccount| confirm_rel(pre, post, caller, ca0, ca1, pb0, pb1)
}

/// Some caller refunded the trade, taking `pre` to `post`.
pub open spec fn refund_step(pre: Trade, post: Trade) -> bool {
    exists|caller: AccountId, pa0: TokenAccount, pa1: TokenAccount, cb0: TokenAccount, cb1:
        TokenAccount| refund_rel(pre, post, caller, pa0, pa1, cb0, cb1)
}

/// Any one transition of an existing trade.
pub open spec fn reachable_step(pre: Trade, post: Trade) -> bool {
    accept_step(pre, post) || confirm_step(pre, post) || refund_step(pre, post)
}

/// How far along its lifecycle an offer has come.
pub open spec fn status_rank(s: OfferStatus) -> int {
    match s {
        OfferStatus::Created => 0,
        OfferStatus::Accepted => 1,
        OfferStatus::Completed => 2,
        OfferStatus::Refunded => 2,
    }
}

/// Opening an offer establishes the well-formedness invariant: the trade
/// starts in `Created` with exactly the producer-leg vault funded.
pub proof fn lemma_open_establishes_wf(
    t: Trade,
    caller: AccountId,
    id: u64,
    token_mint_a: AccountId,
    token_mint_b: AccountId,
    token_a_offered_amount: u64,
    token_b_desired_amount: u64,
    bump: u8,
    source_pre: TokenAccount,
    source_post: TokenAccount,
)
    requires
        open_rel(
            t,
            caller,
            id,
            token_mint_a,
            token_mint_b,
            token_a_offered_amount,
            token_b_desired_amount,
            bump,
            source_pre,
            source_post,
        ),
    ensures
        t.wf(),
        t.offer.status is Created,
{
}

/// Every transition preserves the well-formedness invariant, so it holds of
/// every reachable trade.
pub proof fn lemma_step_preserves_wf(pre: Trade, post: Trade)
    requires
        pre.wf(),
        reachable_step(pre, post),
    ensures
        post.wf(),
{
    if accept_step(pre, post) {
        let (caller, pay0, pay1) = choose|caller: AccountId, pay0: TokenAccount, pay1:
            TokenAccount| accept_rel(pre, post, caller, pay0, pay1);
    } else if confirm_step(pre, post) {
        let (caller, ca0, ca1, pb0, pb1) = choose|caller: AccountId, ca0: TokenAccount, ca1:
            TokenAccount, pb0: TokenAccount, pb1: TokenAccount| confirm_rel(
            pre,
            post,
            caller,
            ca0,
            ca1,
            pb0,
            pb1,
        );
    } else {
        let (caller, pa0, pa1, cb0, cb1) = choose|caller: AccountId, pa0: TokenAccount, pa1:
            TokenAccount, cb0: TokenAccount, cb1: TokenAccount| refund_rel(
            pre,
            post,
            caller,
            pa0,
            pa1,
            cb0,
            cb1,
        );
    }
}

/// Status monotonicity: the status never regresses, and
/// `Created → Accepted → Completed` and `Created | Accepted → Refunded` are
/// the only edges a transition can take.
pub proof fn lemma_status_monotonic(pre: Trade, post: Trade)
    requires
        reachable_step(pre, post),
    ensures
        status_rank(pre.offer.status) < status_rank(post.offer.status),
        !pre.offer.status.is_terminal(),
        pre.offer.status is Created ==> (post.offer.status is Accepted || post.offer.status
            is Refunded),
        pre.offer.status is Accepted ==> (post.offer.status is Completed || post.offer.status
            is Refunded),
        accept_step(pre, post) ==> pre.offer.status is Created && post.offer.status is Accepted,
        confirm_step(pre, post) ==> pre.offer.status is Accepted && post.offer.status
            is Completed,
        refund_step(pre, post) ==> post.offer.status is Refunded,
{
    if accept_step(pre, post) {
        let (caller, pay0, pay1) = choose|caller: AccountId, pay0: TokenAccount, pay1:
            TokenAccount| accept_rel(pre, post, caller, pay0, pay1);
    }
    if confirm_step(pre, post) {
        let (caller, ca0, ca1, pb0, pb1) = choose|caller: AccountId, ca0: TokenAccount, ca1:
            TokenAccount, pb0: TokenAccount, pb1: TokenAccount| confirm_rel(
            pre,
            post,
            caller,
            ca0,
            ca1,
            pb0,
            pb1,
        );
    }
    if refund_step(pre, post) {
        let (caller, pa0, pa1, cb0, cb1) = choose|caller: AccountId, pa0: TokenAccount, pa1:
            TokenAccount, cb0: TokenAccount, cb1: TokenAccount| refund_rel(
            pre,
            post,
            caller,
            pa0,
            pa1,
            cb0,
            cb1,
        );
    }
}

/// The only paths: every chain of transitions that starts at a freshly
/// created trade and reaches a terminal status is one of
/// `Created → Refunded`, `Created → Accepted → Completed` or
/// `Created → Accepted → Refunded` — nothing longer, nothing else.
pub proof fn lemma_only_lifecycle_paths(states: Seq<Trade>)
    requires
        states.len() >= 1,
        states[0].offer.status is Created,
        states.last().offer.status.is_terminal(),
        forall|i: int|
            0 <= i < states.len() - 1 ==> #[trigger] reachable_step(states[i], states[i + 1]),
    ensures
        2 <= states.len() <= 3,
        states.len() == 2 ==> states[1].offer.status is Refunded,
        states.len() == 3 ==> states[1].offer.status is Accepted && (states[2].offer.status
            is Completed || states[2].offer.status is Refunded),
{
    if states.len() >= 2 {
        assert(reachable_step(states[0], states[0int + 1]));
        lemma_status_monotonic(states[0], states[1]);
    }
    if states.len() >= 3 {
        assert(reachable_step(states[1], states[1int + 1]));
        lemma_status_monotonic(states[1], states[2]);
    }
    if states.len() >= 4 {
        assert(reachable_step(states[2], states[2int + 1]));
        lemma_status_monotonic(states[2], states[3]);
    }
    if states.len() == 2 {
        assert(states.last() == states[1]);
    }
    if states.len() == 3 {
        assert(states.last() == states[2]);
    }
}

/// No double-release: once an offer is settled — and a successful `confirm`
/// or `refund` always leaves it settled, by [`lemma_status_monotonic`] —
/// every further `accept`, `confirm` or `refund` reports
/// `OfferAlreadySettled`, and by the transitions' contracts an erring call
/// moves no funds at all; no transition leads out of a settled trade.
pub proof fn lemma_no_double_release(t: Trade)
    requires
        t.offer.status.is_terminal(),
    ensures
        forall|caller: AccountId, pay: TokenAccount|
            #[trigger] accept_check(t, caller, pay) == Some(
                GrpxProtocolError::OfferAlreadySettled,
            ),
        forall|caller: AccountId, ca: TokenAccount, pb: TokenAccount|
            #[trigger] confirm_check(t, caller, ca, pb) == Some(
                GrpxProtocolError::OfferAlreadySettled,
            ),
        forall|caller: AccountId, pa: TokenAccount, cb: TokenAccount|
            #[trigger] refund_check(t, caller, pa, cb) == Some(
                GrpxProtocolError::OfferAlreadySettled,
            ),
        forall|post: Trade| !(#[trigger] reachable_step(t, post)),
{
    assert forall|post: Trade| !(#[trigger] reachable_step(t, post)) by {
        if accept_step(t, post) {
            let (caller, pay0, pay1) = choose|caller: AccountId, pay0: TokenAccount, pay1:
                TokenAccount| accept_rel(t, post, caller, pay0, pay1);
        }
        if confirm_step(t, post) {
            let (caller, ca0, ca1, pb0, pb1) = choose|caller: AccountId, ca0: TokenAccount, ca1:
                TokenAccount, pb0: TokenAccount, pb1: TokenAccount| confirm_rel(
                t,
                post,
                caller,
                ca0,
                ca1,
                pb0,
                pb1,
            );
        }
        if refund_step(t, post) {
            let (caller, pa0, pa1, cb0, cb1) = choose|caller: AccountId, pa0: TokenAccount, pa1:
                TokenAccount, cb0: TokenAccount, cb1: TokenAccount| refund_rel(
                t,
                post,
                caller,
                pa0,
                pa1,
                cb0,
                cb1,
            );
        }
    }
}

/// Authorization enforcement: a transition invoked by any identity other
/// than its permitted party reports that transition's authorization error —
/// and, by the transitions' contracts, an erring call has zero side effects.
/// `open` may only be invoked by the owner of the funding account; `accept`
/// only by the owner of the payment account; `confirm` only by the recorded
/// consumer; `refund` only by the producer or the recorded consumer.
pub proof fn lemma_authorization_enforced(t: Trade, caller: AccountId)
    ensures
        forall|source: TokenAccount, mint_a: AccountId, amount: u64|
            source.owner != caller ==> #[trigger] open_check(caller, source, mint_a, amount)
                == Some(GrpxProtocolError::Unauthorized),
        t.offer.status is Created ==> forall|payment: TokenAccount|
            payment.owner != caller ==> #[trigger] accept_check(t, caller, payment) == Some(
                GrpxProtocolError::Unauthorized,
            ),
        t.offer.status is Accepted && t.offer.consumer != Some(caller) ==> forall|
            ca: TokenAccount,
            pb: TokenAccount,
        |
            #[trigger] confirm_check(t, caller, ca, pb) == Some(
                GrpxProtocolError::UnauthorizedConfirmation,
            ),
        !t.offer.status.is_terminal() && caller != t.offer.producer && Some(caller)
            != t.offer.consumer ==> forall|pa: TokenAccount, cb: TokenAccount|
            #[trigger] refund_check(t, caller, pa, cb) == Some(
                GrpxProtocolError::UnauthorizedRefund,
            ),
{
}

/// Vault lifecycle: in every well-formed trade a vault exists exactly while
/// its leg is escrowed, holding exactly the declared amount of the declared
/// asset kind, and a settled trade keeps no vault open.
pub proof fn lemma_vault_lifecycle(t: Trade)
    requires
        t.wf(),
    ensures
        t.vault_a is Some <==> (t.offer.status is Created || t.offer.status is Accepted),
        t.vault_b is Some <==> t.offer.status is Accepted,
        t.offer.status.is_terminal() ==> t.vault_a is None && t.vault_b is None,
        t.vault_a is Some ==> t.vault_a == Some(
            Vault { mint: t.offer.token_mint_a, amount: t.offer.token_a_offered_amount },
        ),
        t.vault_b is Some ==> t.vault_b == Some(
            Vault { mint: t.offer.token_mint_b, amount: t.offer.token_b_desired_amount },
        ),
{
}

/// Conservation along the completed path: after open, accept and confirm,
/// both vaults are gone, the consumer's asset account gained exactly the
/// offered amount, the producer's payment account gained exactly the
/// demanded amount, and each leg's total across the parties' accounts is
/// what it was before the trade — no value created or destroyed.
pub proof fn lemma_conservation_completed(
    t1: Trade,
    t2: Trade,
    t3: Trade,
    producer: AccountId,
    id: u64,
    token_mint_a: AccountId,
    token_mint_b: AccountId,
    amount_a: u64,
    amount_b: u64,
    bump: u8,
    pa0: TokenAccount,
    pa1: TokenAccount,
    consumer: AccountId,
    cb0: TokenAccount,
    cb1: TokenAccount,
    confirmer: AccountId,
    ca0: TokenAccount,
    ca1: TokenAccount,
    pb0: TokenAccount,
    pb1: TokenAccount,
)
    requires
        open_rel(t1, producer, id, token_mint_a, token_mint_b, amount_a, amount_b, bump, pa0, pa1),
        accept_rel(t1, t2, consumer, cb0, cb1),
        confirm_rel(t2, t3, confirmer, ca0, ca1, pb0, pb1),
    ensures
        t3.offer.status is Completed,
        t3.vault_a is None && t3.vault_b is None,
        ca1.amount == ca0.amount + amount_a,
        pb1.amount == pb0.amount + amount_b,
        pa1.amount == pa0.amount - amount_a,
        cb1.amount == cb0.amount - amount_b,
        pa1.amount + ca1.amount == pa0.amount + ca0.amount,
        cb1.amount + pb1.amount == cb0.amount + pb0.amount,
{
}

/// Conservation along a refund before acceptance: only the producer leg was
/// ever funded; it returns whole, the consumer-leg account is untouched, and
/// refunding into the account that funded the offer restores its balance
/// exactly.
pub proof fn lemma_conservation_refunded_created(
    t1: Trade,
    t2: Trade,
    producer: AccountId,
    id: u64,
    token_mint_a: AccountId,
    token_mint_b: AccountId,
    amount_a: u64,
    amount_b: u64,
    bump: u8,
    pa0: TokenAccount,
    pa1: TokenAccount,
    refunder: AccountId,
    pr0: TokenAccount,
    pr1: TokenAccount,
    cx0: TokenAccount,
    cx1: TokenAccount,
)
    requires
        open_rel(t1, producer, id, token_mint_a, token_mint_b, amount_a, amount_b, bump, pa0, pa1),
        refund_rel(t1, t2, refunder, pr0, pr1, cx0, cx1),
    ensures
        t2.offer.status is Refunded,
        t2.vault_a is None && t2.vault_b is None,
        pr1.amount == pr0.amount + amount_a,
        cx1 == cx0,
        pr0 == pa1 ==> pr1.amount == pa0.amount,
{
}

/// Conservation along a refund after acceptance: both legs return whole to
/// their original owners, and refunding into the accounts that funded the
/// trade restores both balances exactly.
pub proof fn lemma_conservation_refunded_accepted(
    t1: Trade,
    t2: Trade,
    t3: Trade,
    producer: AccountId,
    id: u64,
    token_mint_a: AccountId,
    token_mint_b: AccountId,
    amount_a: u64,
    amount_b: u64,
    bump: u8,
    pa0: TokenAccount,
    pa1: TokenAccount,
    consumer: AccountId,
    cb0: TokenAccount,
    cb1: TokenAccount,
    refunder: AccountId,
    pr0: TokenAccount,
    pr1: TokenAccount,
    cr0: TokenAccount,
    cr1: TokenAccount,
)
    requires
        open_rel(t1, producer, id, token_mint_a, token_mint_b, amount_a, amount_b, bump, pa0, pa1),
        accept_rel(t1, t2, consumer, cb0, cb1),
        refund_rel(t2, t3, refunder, pr0, pr1, cr0, cr1),
    ensures
        t3.offer.status is Refunded,
        t3.vault_a is None && t3.vault_b is None,
        pr1.amount == pr0.amount + amount_a,
        cr1.amount == cr0.amount + amount_b,
        pr0 == pa1 ==> pr1.amount == pa0.amount,
        cr0 == cb1 ==> cr1.amount == cb0.amount,
{
}

} // verus!
