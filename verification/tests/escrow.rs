use grpx_dprotocols::{accept, confirm, open, refund};
use grpx_dprotocols::{AccountId, GrpxProtocolError, OfferStatus, TokenAccount, Trade, Vault};

fn account(owner: u64, mint: u64, amount: u64) -> TokenAccount {
    TokenAccount { owner: AccountId(owner), mint: AccountId(mint), amount }
}

const PRODUCER: u64 = 1;
const CONSUMER: u64 = 2;
const OUTSIDER: u64 = 3;
const MINT_A: u64 = 10;
const MINT_B: u64 = 11;

fn opened(id: u64, offered: u64, desired: u64, source: &mut TokenAccount) -> Trade {
    open(
        AccountId(PRODUCER),
        id,
        AccountId(MINT_A),
        AccountId(MINT_B),
        offered,
        desired,
        255,
        source,
    )
    .expect("opening a funded offer succeeds")
}

#[test]
fn completed_trade_swaps_both_legs() {
    let mut producer_a = account(PRODUCER, MINT_A, 1);
    let mut t = opened(1, 1, 100, &mut producer_a);
    assert_eq!(producer_a.amount, 0);
    assert_eq!(t.offer.status, OfferStatus::Created);
    assert_eq!(t.vault_a, Some(Vault { mint: AccountId(MINT_A), amount: 1 }));
    assert_eq!(t.vault_b, None);

    let mut consumer_b = account(CONSUMER, MINT_B, 100);
    assert_eq!(accept(&mut t, AccountId(CONSUMER), &mut consumer_b), Ok(()));
    assert_eq!(consumer_b.amount, 0);
    assert_eq!(t.offer.status, OfferStatus::Accepted);
    assert_eq!(t.offer.consumer, Some(AccountId(CONSUMER)));
    assert_eq!(t.vault_b, Some(Vault { mint: AccountId(MINT_B), amount: 100 }));

    let mut consumer_a = account(CONSUMER, MINT_A, 0);
    let mut producer_b = account(PRODUCER, MINT_B, 0);
    assert_eq!(confirm(&mut t, AccountId(CONSUMER), &mut consumer_a, &mut producer_b), Ok(()));
    assert_eq!(producer_b.amount, 100);
    assert_eq!(consumer_a.amount, 1);
    assert_eq!(t.vault_a, None);
    assert_eq!(t.vault_b, None);
    assert_eq!(t.offer.status, OfferStatus::Completed);

    assert_eq!(
        confirm(&mut t, AccountId(CONSUMER), &mut consumer_a, &mut producer_b),
        Err(GrpxProtocolError::OfferAlreadySettled)
    );
    assert_eq!(
        refund(&mut t, AccountId(PRODUCER), &mut producer_a, &mut consumer_b),
        Err(GrpxProtocolError::OfferAlreadySettled)
    );
    assert_eq!(producer_a.amount, 0);
    assert_eq!(producer_b.amount, 100);
    assert_eq!(consumer_a.amount, 1);
    assert_eq!(consumer_b.amount, 0);
    assert_eq!(t.offer.status, OfferStatus::Completed);
}

#[test]
fn refund_before_acceptance_returns_the_asset() {
    let mut producer_a = account(PRODUCER, MINT_A, 1);
    let mut t = opened(2, 1, 100, &mut producer_a);
    assert_eq!(producer_a.amount, 0);
    assert_eq!(t.vault_b, None);

    let mut untouched = account(OUTSIDER, MINT_B, 7);
    assert_eq!(refund(&mut t, AccountId(PRODUCER), &mut producer_a, &mut untouched), Ok(()));
    assert_eq!(producer_a.amount, 1);
    assert_eq!(untouched.amount, 7);
    assert_eq!(t.offer.status, OfferStatus::Refunded);
    assert_eq!(t.vault_a, None);
    assert_eq!(t.vault_b, None);
    assert_eq!(t.offer.consumer, None);
}

#[test]
fn refund_after_acceptance_returns_both_legs() {
    let mut producer_a = account(PRODUCER, MINT_A, 1);
    let mut t = opened(3, 1, 100, &mut producer_a);
    let mut consumer_b = account(CONSUMER, MINT_B, 120);
    assert_eq!(accept(&mut t, AccountId(CONSUMER), &mut consumer_b), Ok(()));
    assert_eq!(consumer_b.amount, 20);

    assert_eq!(refund(&mut t, AccountId(CONSUMER), &mut producer_a, &mut consumer_b), Ok(()));
    assert_eq!(producer_a.amount, 1);
    assert_eq!(consumer_b.amount, 120);
    assert_eq!(t.offer.status, OfferStatus::Refunded);
    assert_eq!(t.vault_a, None);
    assert_eq!(t.vault_b, None);
}

#[test]
fn a_second_refund_fails_and_moves_nothing() {
    let mut producer_a = account(PRODUCER, MINT_A, 1);
    let mut t = opened(2, 1, 100, &mut producer_a);
    let mut dummy = account(OUTSIDER, MINT_B, 0);
    assert_eq!(refund(&mut t, AccountId(PRODUCER), &mut producer_a, &mut dummy), Ok(()));
    assert_eq!(
        refund(&mut t, AccountId(PRODUCER), &mut producer_a, &mut dummy),
        Err(GrpxProtocolError::OfferAlreadySettled)
    );
    let mut consumer_a = account(PRODUCER, MINT_A, 0);
    let mut producer_b = account(PRODUCER, MINT_B, 0);
    assert_eq!(
        accept(&mut t, AccountId(CONSUMER), &mut producer_b),
        Err(GrpxProtocolError::OfferAlreadySettled)
    );
    assert_eq!(
        confirm(&mut t, AccountId(CONSUMER), &mut consumer_a, &mut producer_b),
        Err(GrpxProtocolError::OfferAlreadySettled)
    );
    assert_eq!(producer_a.amount, 1);
    assert_eq!(t.offer.status, OfferStatus::Refunded);
}

#[test]
fn either_party_may_refund_an_accepted_offer() {
    let mut producer_a = account(PRODUCER, MINT_A, 1);
    let mut t = opened(3, 1, 100, &mut producer_a);
    let mut consumer_b = account(CONSUMER, MINT_B, 100);
    assert_eq!(accept(&mut t, AccountId(CONSUMER), &mut consumer_b), Ok(()));

    assert_eq!(refund(&mut t, AccountId(PRODUCER), &mut producer_a, &mut consumer_b), Ok(()));
    assert_eq!(producer_a.amount, 1);
    assert_eq!(consumer_b.amount, 100);
}

#[test]
fn open_rejects_a_caller_who_does_not_own_the_source() {
    let mut producer_a = account(PRODUCER, MINT_A, 1);
    let r = open(
        AccountId(OUTSIDER),
        1,
        AccountId(MINT_A),
        AccountId(MINT_B),
        1,
        100,
        255,
        &mut producer_a,
    );
    assert_eq!(r, Err(GrpxProtocolError::Unauthorized));
    assert_eq!(producer_a.amount, 1);
}

#[test]
fn open_rejects_a_source_of_the_wrong_mint() {
    let mut producer_b = account(PRODUCER, MINT_B, 1);
    let r = open(
        AccountId(PRODUCER),
        1,
        AccountId(MINT_A),
        AccountId(MINT_B),
        1,
        100,
        255,
        &mut producer_b,
    );
    assert_eq!(r, Err(GrpxProtocolError::MintMismatch));
    assert_eq!(producer_b.amount, 1);
}

#[test]
fn open_rejects_an_underfunded_source() {
    let mut producer_a = account(PRODUCER, MINT_A, 1);
    let r = open(
        AccountId(PRODUCER),
        1,
        AccountId(MINT_A),
        AccountId(MINT_B),
        2,
        100,
        255,
        &mut producer_a,
    );
    assert_eq!(r, Err(GrpxProtocolError::InsufficientBalance));
    assert_eq!(producer_a.amount, 1);
}

#[test]
fn accept_rejects_an_unauthorized_caller() {
    let mut producer_a = account(PRODUCER, MINT_A, 1);
    let mut t = opened(1, 1, 100, &mut producer_a);
    let mut consumer_b = account(CONSUMER, MINT_B, 100);
    assert_eq!(
        accept(&mut t, AccountId(OUTSIDER), &mut consumer_b),
        Err(GrpxProtocolError::Unauthorized)
    );
    assert_eq!(consumer_b.amount, 100);
    assert_eq!(t.offer.status, OfferStatus::Created);
}

#[test]
fn accept_rejects_payment_of_the_wrong_mint() {
    let mut producer_a = account(PRODUCER, MINT_A, 1);
    let mut t = opened(1, 1, 100, &mut producer_a);
    let mut consumer_a = account(CONSUMER, MINT_A, 100);
    assert_eq!(
        accept(&mut t, AccountId(CONSUMER), &mut consumer_a),
        Err(GrpxProtocolError::MintMismatch)
    );
    assert_eq!(t.vault_b, None);
}

#[test]
fn accept_rejects_an_underfunded_payment() {
    let mut producer_a = account(PRODUCER, MINT_A, 1);
    let mut t = opened(1, 1, 100, &mut producer_a);
    let mut consumer_b = account(CONSUMER, MINT_B, 99);
    assert_eq!(
        accept(&mut t, AccountId(CONSUMER), &mut consumer_b),
        Err(GrpxProtocolError::InsufficientBalance)
    );
    assert_eq!(consumer_b.amount, 99);
}

#[test]
fn accept_rejects_an_already_accepted_offer() {
    let mut producer_a = account(PRODUCER, MINT_A, 1);
    let mut t = opened(1, 1, 100, &mut producer_a);
    let mut consumer_b = account(CONSUMER, MINT_B, 200);
    assert_eq!(accept(&mut t, AccountId(CONSUMER), &mut consumer_b), Ok(()));
    assert_eq!(
        accept(&mut t, AccountId(CONSUMER), &mut consumer_b),
        Err(GrpxProtocolError::InvalidOfferStatus)
    );
    assert_eq!(consumer_b.amount, 100);
}

#[test]
fn confirm_rejects_a_created_offer() {
    let mut producer_a = account(PRODUCER, MINT_A, 1);
    let mut t = opened(1, 1, 100, &mut producer_a);
    let mut consumer_a = account(CONSUMER, MINT_A, 0);
    let mut producer_b = account(PRODUCER, MINT_B, 0);
    assert_eq!(
        confirm(&mut t, AccountId(CONSUMER), &mut consumer_a, &mut producer_b),
        Err(GrpxProtocolError::InvalidOfferStatus)
    );
    assert_eq!(t.offer.status, OfferStatus::Created);
}

#[test]
fn only_the_consumer_may_confirm() {
    let mut producer_a = account(PRODUCER, MINT_A, 1);
    let mut t = opened(1, 1, 100, &mut producer_a);
    let mut consumer_b = account(CONSUMER, MINT_B, 100);
    assert_eq!(accept(&mut t, AccountId(CONSUMER), &mut consumer_b), Ok(()));
    let mut consumer_a = account(CONSUMER, MINT_A, 0);
    let mut producer_b = account(PRODUCER, MINT_B, 0);
    assert_eq!(
        confirm(&mut t, AccountId(PRODUCER), &mut consumer_a, &mut producer_b),
        Err(GrpxProtocolError::UnauthorizedConfirmation)
    );
    assert_eq!(
        confirm(&mut t, AccountId(OUTSIDER), &mut consumer_a, &mut producer_b),
        Err(GrpxProtocolError::UnauthorizedConfirmation)
    );
    assert_eq!(t.offer.status, OfferStatus::Accepted);
    assert_eq!(producer_b.amount, 0);
    assert_eq!(consumer_a.amount, 0);
}

#[test]
fn confirm_rejects_destinations_of_the_wrong_party_or_mint() {
    let mut producer_a = account(PRODUCER, MINT_A, 1);
    let mut t = opened(1, 1, 100, &mut producer_a);
    let mut consumer_b = account(CONSUMER, MINT_B, 100);
    assert_eq!(accept(&mut t, AccountId(CONSUMER), &mut consumer_b), Ok(()));

    let mut outsider_a = account(OUTSIDER, MINT_A, 0);
    let mut producer_b = account(PRODUCER, MINT_B, 0);
    assert_eq!(
        confirm(&mut t, AccountId(CONSUMER), &mut outsider_a, &mut producer_b),
        Err(GrpxProtocolError::InvalidDestination)
    );

    let mut consumer_wrong_mint = account(CONSUMER, MINT_B, 0);
    assert_eq!(
        confirm(&mut t, AccountId(CONSUMER), &mut consumer_wrong_mint, &mut producer_b),
        Err(GrpxProtocolError::MintMismatch)
    );

    let mut consumer_a = account(CONSUMER, MINT_A, 0);
    let mut outsider_b = account(OUTSIDER, MINT_B, 0);
    assert_eq!(
        confirm(&mut t, AccountId(CONSUMER), &mut consumer_a, &mut outsider_b),
        Err(GrpxProtocolError::InvalidDestination)
    );
    assert_eq!(t.offer.status, OfferStatus::Accepted);
}

#[test]
fn confirm_rejects_an_overflowing_destination() {
    let mut producer_a = account(PRODUCER, MINT_A, 1);
    let mut t = opened(1, 1, 100, &mut producer_a);
    let mut consumer_b = account(CONSUMER, MINT_B, 100);
    assert_eq!(accept(&mut t, AccountId(CONSUMER), &mut consumer_b), Ok(()));
    let mut consumer_a = account(CONSUMER, MINT_A, u64::MAX);
    let mut producer_b = account(PRODUCER, MINT_B, 0);
    assert_eq!(
        confirm(&mut t, AccountId(CONSUMER), &mut consumer_a, &mut producer_b),
        Err(GrpxProtocolError::BalanceOverflow)
    );
    assert_eq!(consumer_a.amount, u64::MAX);
    assert_eq!(t.offer.status, OfferStatus::Accepted);
}

#[test]
fn refund_rejects_an_outsider() {
    let mut producer_a = account(PRODUCER, MINT_A, 1);
    let mut t = opened(1, 1, 100, &mut producer_a);
    let mut dummy = account(OUTSIDER, MINT_B, 0);
    assert_eq!(
        refund(&mut t, AccountId(OUTSIDER), &mut producer_a, &mut dummy),
        Err(GrpxProtocolError::UnauthorizedRefund)
    );
    assert_eq!(producer_a.amount, 0);
    assert_eq!(t.offer.status, OfferStatus::Created);
}

#[test]
fn refund_of_a_created_offer_rejects_the_future_consumer() {
    let mut producer_a = account(PRODUCER, MINT_A, 1);
    let mut t = opened(1, 1, 100, &mut producer_a);
    let mut dummy = account(CONSUMER, MINT_B, 0);
    assert_eq!(
        refund(&mut t, AccountId(CONSUMER), &mut producer_a, &mut dummy),
        Err(GrpxProtocolError::UnauthorizedRefund)
    );
}

#[test]
fn refund_rejects_a_producer_destination_of_the_wrong_mint() {
    let mut producer_a = account(PRODUCER, MINT_A, 1);
    let mut t = opened(1, 1, 100, &mut producer_a);
    let mut producer_b = account(PRODUCER, MINT_B, 0);
    let mut dummy = account(OUTSIDER, MINT_B, 0);
    assert_eq!(
        refund(&mut t, AccountId(PRODUCER), &mut producer_b, &mut dummy),
        Err(GrpxProtocolError::MintMismatch)
    );
}

#[test]
fn refund_rejects_an_overflowing_producer_destination() {
    let mut producer_a = account(PRODUCER, MINT_A, 1);
    let mut t = opened(1, 1, 100, &mut producer_a);
    let mut producer_full = account(PRODUCER, MINT_A, u64::MAX);
    let mut dummy = account(OUTSIDER, MINT_B, 0);
    assert_eq!(
        refund(&mut t, AccountId(PRODUCER), &mut producer_full, &mut dummy),
        Err(GrpxProtocolError::BalanceOverflow)
    );
    assert_eq!(t.offer.status, OfferStatus::Created);
}

#[test]
fn a_trade_of_the_largest_amounts_completes() {
    let mut producer_a = account(PRODUCER, MINT_A, u64::MAX);
    let mut t = opened(1, u64::MAX, u64::MAX, &mut producer_a);
    assert_eq!(producer_a.amount, 0);
    let mut consumer_b = account(CONSUMER, MINT_B, u64::MAX);
    assert_eq!(accept(&mut t, AccountId(CONSUMER), &mut consumer_b), Ok(()));
    let mut consumer_a = account(CONSUMER, MINT_A, 0);
    let mut producer_b = account(PRODUCER, MINT_B, 0);
    assert_eq!(confirm(&mut t, AccountId(CONSUMER), &mut consumer_a, &mut producer_b), Ok(()));
    assert_eq!(consumer_a.amount, u64::MAX);
    assert_eq!(producer_b.amount, u64::MAX);
}

#[test]
fn a_trade_of_both_legs_in_one_mint_conserves_it() {
    let mut producer_a = account(PRODUCER, MINT_A, 3);
    let r = open(
        AccountId(PRODUCER),
        4,
        AccountId(MINT_A),
        AccountId(MINT_A),
        1,
        2,
        255,
        &mut producer_a,
    );
    let mut t = r.expect("opening a funded offer succeeds");
    let mut consumer_b = account(CONSUMER, MINT_A, 2);
    assert_eq!(accept(&mut t, AccountId(CONSUMER), &mut consumer_b), Ok(()));
    let mut consumer_a = account(CONSUMER, MINT_A, 0);
    let mut producer_b = account(PRODUCER, MINT_A, 0);
    assert_eq!(confirm(&mut t, AccountId(CONSUMER), &mut consumer_a, &mut producer_b), Ok(()));
    let producer_total = producer_a.amount + producer_b.amount;
    let consumer_total = consumer_b.amount + consumer_a.amount;
    assert_eq!(producer_total + consumer_total, 5);
    assert_eq!(producer_total, 4);
    assert_eq!(consumer_total, 1);
}

#[test]
fn producer_may_accept_their_own_offer() {
    let mut producer_a = account(PRODUCER, MINT_A, 1);
    let mut t = opened(5, 1, 100, &mut producer_a);
    let mut producer_b = account(PRODUCER, MINT_B, 100);
    assert_eq!(accept(&mut t, AccountId(PRODUCER), &mut producer_b), Ok(()));
    assert_eq!(t.offer.consumer, Some(AccountId(PRODUCER)));
}

#[test]
fn a_zero_amount_offer_still_follows_the_lifecycle() {
    let mut producer_a = account(PRODUCER, MINT_A, 0);
    let mut t = opened(6, 0, 0, &mut producer_a);
    let mut consumer_b = account(CONSUMER, MINT_B, 0);
    assert_eq!(accept(&mut t, AccountId(CONSUMER), &mut consumer_b), Ok(()));
    let mut consumer_a = account(CONSUMER, MINT_A, 0);
    let mut producer_b = account(PRODUCER, MINT_B, 0);
    assert_eq!(confirm(&mut t, AccountId(CONSUMER), &mut consumer_a, &mut producer_b), Ok(()));
    assert_eq!(t.offer.status, OfferStatus::Completed);
    assert_eq!(consumer_a.amount, 0);
    assert_eq!(producer_b.amount, 0);
}
