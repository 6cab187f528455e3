//! The persisted layout of an offer record: fixed-width fields in the order
//! they are declared on [`Offer`], with `status` as a one-byte discriminant
//! and `consumer` as a present/absent flag followed by the identity bytes
//! (zero when absent).  Every multi-byte number is little-endian, so a
//! record is always exactly [`OFFER_RECORD_LEN`] bytes.
//!
//! [`encode_offer`] produces exactly this layout and [`decode_offer`]
//! recognizes exactly its image: decoding what was encoded gives the record
//! back, and decoding rejects every byte string no record encodes to.

use crate::state::{AccountId, Offer, OfferStatus};
use vstd::bytes::{
    lemma_auto_spec_u64_to_from_le_bytes, spec_u64_from_le_bytes, spec_u64_to_le_bytes,
    u64_from_le_bytes, u64_to_le_bytes,
};
use vstd::prelude::*;
use vstd::slice::{slice_index_get, slice_subrange};

verus! {

/// The size of an encoded offer record: six 8-byte numbers, the 9-byte
/// consumer field, the status byte and the bump byte.
pub const OFFER_RECORD_LEN: usize = 59;

/// The one-byte discriminant of a status.
pub open spec fn spec_status_byte(status: OfferStatus) -> u8 {
    match status {
        OfferStatus::Created => 0u8,
        OfferStatus::Accepted => 1u8,
        OfferStatus::Completed => 2u8,
        OfferStatus::Refunded => 3u8,
    }
}

/// The status a discriminant byte stands for, if any.
pub open spec fn spec_status_of_byte(b: u8) -> Option<OfferStatus> {
    if b == 0 {
        Some(OfferStatus::Created)
    } else if b == 1 {
        Some(OfferStatus::Accepted)
    } else if b == 2 {
        Some(OfferStatus::Completed)
    } else if b == 3 {
        Some(OfferStatus::Refunded)
    } else {
        None
    }
}

/// The present/absent flag of the consumer field.
pub open spec fn spec_consumer_flag(consumer: Option<AccountId>) -> u8 {
    match consumer {
        Some(_) => 1u8,
        None => 0u8,
    }
}

/// The identity carried by the consumer field, zero when absent.
pub open spec fn spec_consumer_id(consumer: Option<AccountId>) -> u64 {
    match consumer {
        Some(consumer) => consumer.0,
        None => 0u64,
    }
}

/// The bytes of an offer record.
pub open spec fn spec_encode_offer(offer: Offer) -> Seq<u8> {
    spec_u64_to_le_bytes(offer.id) + spec_u64_to_le_bytes(offer.producer.0) + seq![
        spec_consumer_flag(offer.consumer),
    ] + spec_u64_to_le_bytes(spec_consumer_id(offer.consumer)) + spec_u64_to_le_bytes(
        offer.token_mint_a.0,
    ) + spec_u64_to_le_bytes(offer.token_mint_b.0) + spec_u64_to_le_bytes(
        offer.token_a_offered_amount,
    ) + spec_u64_to_le_bytes(offer.token_b_desired_amount) + seq![
        spec_status_byte(offer.status),
    ] + seq![offer.bump]
}

/// Where each field of the record lies: the record is 59 bytes, and each
/// projection below reads the field written there.
pub proof fn lemma_encode_offer_fields(offer: Offer)
    ensures
        spec_encode_offer(offer).len() == 59,
        spec_encode_offer(offer).subrange(0, 8) == spec_u64_to_le_bytes(offer.id),
        spec_encode_offer(offer).subrange(8, 16) == spec_u64_to_le_bytes(offer.producer.0),
        spec_encode_offer(offer)[16] == spec_consumer_flag(offer.consumer),
        spec_encode_offer(offer).subrange(17, 25) == spec_u64_to_le_bytes(
            spec_consumer_id(offer.consumer),
        ),
        spec_encode_offer(offer).subrange(25, 33) == spec_u64_to_le_bytes(offer.token_mint_a.0),
        spec_encode_offer(offer).subrange(33, 41) == spec_u64_to_le_bytes(offer.token_mint_b.0),
        spec_encode_offer(offer).subrange(41, 49) == spec_u64_to_le_bytes(
            offer.token_a_offered_amount,
        ),
        spec_encode_offer(offer).subrange(49, 57) == spec_u64_to_le_bytes(
            offer.token_b_desired_amount,
        ),
        spec_encode_offer(offer)[57] == spec_status_byte(offer.status),
        spec_encode_offer(offer)[58] == offer.bump,
{
    lemma_auto_spec_u64_to_from_le_bytes();
    let e = spec_encode_offer(offer);
    assert(e.subrange(0, 8) =~= spec_u64_to_le_bytes(offer.id));
    assert(e.subrange(8, 16) =~= spec_u64_to_le_bytes(offer.producer.0));
    assert(e.subrange(17, 25) =~= spec_u64_to_le_bytes(spec_consumer_id(offer.consumer)));
    assert(e.subrange(25, 33) =~= spec_u64_to_le_bytes(offer.token_mint_a.0));
    assert(e.subrange(33, 41) =~= spec_u64_to_le_bytes(offer.token_mint_b.0));
    assert(e.subrange(41, 49) =~= spec_u64_to_le_bytes(offer.token_a_offered_amount));
    assert(e.subrange(49, 57) =~= spec_u64_to_le_bytes(offer.token_b_desired_amount));
}

/// No two distinct records have the same bytes.
pub proof fn lemma_offer_encoding_injective(o1: Offer, o2: Offer)
    requires
        spec_encode_offer(o1) == spec_encode_offer(o2),
    ensures
        o1 == o2,
{
    lemma_auto_spec_u64_to_from_le_bytes();
    lemma_encode_offer_fields(o1);
    lemma_encode_offer_fields(o2);
    assert(spec_u64_from_le_bytes(spec_u64_to_le_bytes(o1.id)) == o1.id);
    assert(spec_u64_from_le_bytes(spec_u64_to_le_bytes(o1.producer.0)) == o1.producer.0);
    assert(spec_u64_from_le_bytes(spec_u64_to_le_bytes(spec_consumer_id(o1.consumer)))
        == spec_consumer_id(o1.consumer));
    assert(spec_u64_from_le_bytes(spec_u64_to_le_bytes(o1.token_mint_a.0)) == o1.token_mint_a.0);
    assert(spec_u64_from_le_bytes(spec_u64_to_le_bytes(o1.token_mint_b.0)) == o1.token_mint_b.0);
    assert(spec_u64_from_le_bytes(spec_u64_to_le_bytes(o1.token_a_offered_amount))
        == o1.token_a_offered_amount);
    assert(spec_u64_from_le_bytes(spec_u64_to_le_bytes(o1.token_b_desired_amount))
        == o1.token_b_desired_amount);
}

/// The discriminant byte of a status.
pub fn status_byte(status: OfferStatus) -> (b: u8)
    ensures
        b == spec_status_byte(status),
{
    match status {
        OfferStatus::Created => 0,
        OfferStatus::Accepted => 1,
        OfferStatus::Completed => 2,
        OfferStatus::Refunded => 3,
    }
}

/// The status a discriminant byte stands for, if any.
pub fn status_of_byte(b: u8) -> (r: Option<OfferStatus>)
    ensures
        r == spec_status_of_byte(b),
{
    if b == 0 {
        Some(OfferStatus::Created)
    } else if b == 1 {
        Some(OfferStatus::Accepted)
    } else if b == 2 {
        Some(OfferStatus::Completed)
    } else if b == 3 {
        Some(OfferStatus::Refunded)
    } else {
        None
    }
}

/// An offer record as its persisted bytes, exactly [`spec_encode_offer`].
pub fn encode_offer(offer: &Offer) -> (bytes: Vec<u8>)
    ensures
        bytes@ == spec_encode_offer(*offer),
        bytes@.len() == 59,
{
    let mut bytes: Vec<u8> = Vec::new();
    let mut field: Vec<u8> = u64_to_le_bytes(offer.id);
    bytes.append(&mut field);
    let mut field: Vec<u8> = u64_to_le_bytes(offer.producer.0);
    bytes.append(&mut field);
    match offer.consumer {
        Some(consumer) => {
            bytes.push(1);
            let mut field: Vec<u8> = u64_to_le_bytes(consumer.0);
            bytes.append(&mut field);
        },
        None => {
            bytes.push(0);
            let mut field: Vec<u8> = u64_to_le_bytes(0);
            bytes.append(&mut field);
        },
    }
    let mut field: Vec<u8> = u64_to_le_bytes(offer.token_mint_a.0);
    bytes.append(&mut field);
    let mut field: Vec<u8> = u64_to_le_bytes(offer.token_mint_b.0);
    bytes.append(&mut field);
    let mut field: Vec<u8> = u64_to_le_bytes(offer.token_a_offered_amount);
    bytes.append(&mut field);
    let mut field: Vec<u8> = u64_to_le_bytes(offer.token_b_desired_amount);
    bytes.append(&mut field);
    bytes.push(status_byte(offer.status));
    bytes.push(offer.bump);
    proof {
        assert(bytes@ =~= spec_encode_offer(*offer));
        lemma_encode_offer_fields(*offer);
    }
    bytes
}

/// The little-endian number written at `start`.
fn read_u64_at(bytes: &[u8], start: usize) -> (x: u64)
    requires
        start + 8 <= bytes@.len() <= usize::MAX,
    ensures
        x == spec_u64_from_le_bytes(bytes@.subrange(start as int, start as int + 8)),
{
    let field: &[u8] = slice_subrange(bytes, start, start + 8);
    u64_from_le_bytes(field)
}

/// The offer record these bytes persist, or `None` when no record encodes
/// to these bytes: decoding recognizes exactly the image of
/// [`spec_encode_offer`] and inverts it.
pub fn decode_offer(bytes: &[u8]) -> (r: Option<Offer>)
    ensures
        r matches Some(offer) ==> bytes@ == spec_encode_offer(offer),
        r is None ==> forall|offer: Offer| bytes@ != spec_encode_offer(offer),
{
    proof {
        lemma_auto_spec_u64_to_from_le_bytes();
    }
    if bytes.len() != 59 {
        proof {
            assert forall|offer: Offer| bytes@ != spec_encode_offer(offer) by {
                lemma_encode_offer_fields(offer);
            }
        }
        return None;
    }
    let flag: u8 = *slice_index_get(bytes, 16);
    if flag != 0 && flag != 1 {
        proof {
            assert forall|offer: Offer| bytes@ != spec_encode_offer(offer) by {
                lemma_encode_offer_fields(offer);
            }
        }
        return None;
    }
    let consumer_id: u64 = read_u64_at(bytes, 17);
    if flag == 0 && consumer_id != 0 {
        proof {
            assert forall|offer: Offer| bytes@ != spec_encode_offer(offer) by {
                lemma_encode_offer_fields(offer);
                if bytes@ == spec_encode_offer(offer) {
                    assert(spec_consumer_flag(offer.consumer) == 0);
                    assert(offer.consumer is None);
                    assert(bytes@.subrange(17, 25) == spec_u64_to_le_bytes(0u64));
                }
            }
        }
        return None;
    }
    let status_b: u8 = *slice_index_get(bytes, 57);
    let status = match status_of_byte(status_b) {
        Some(status) => status,
        None => {
            proof {
                assert forall|offer: Offer| bytes@ != spec_encode_offer(offer) by {
                    lemma_encode_offer_fields(offer);
                }
            }
            return None;
        },
    };
    let consumer: Option<AccountId> = if flag == 1 {
        Some(AccountId(consumer_id))
    } else {
        None
    };
    let offer = Offer {
        id: read_u64_at(bytes, 0),
        producer: AccountId(read_u64_at(bytes, 8)),
        consumer,
        token_mint_a: AccountId(read_u64_at(bytes, 25)),
        token_mint_b: AccountId(read_u64_at(bytes, 33)),
        token_a_offered_amount: read_u64_at(bytes, 41),
        token_b_desired_amount: read_u64_at(bytes, 49),
        status,
        bump: *slice_index_get(bytes, 58),
    };
    proof {
        lemma_encode_offer_fields(offer);
        let e = spec_encode_offer(offer);
        assert(spec_u64_to_le_bytes(offer.id) == bytes@.subrange(0, 8));
        assert(spec_u64_to_le_bytes(offer.producer.0) == bytes@.subrange(8, 16));
        assert(spec_u64_to_le_bytes(spec_consumer_id(offer.consumer)) == bytes@.subrange(17, 25));
        assert(spec_u64_to_le_bytes(offer.token_mint_a.0) == bytes@.subrange(25, 33));
        assert(spec_u64_to_le_bytes(offer.token_mint_b.0) == bytes@.subrange(33, 41));
        assert(spec_u64_to_le_bytes(offer.token_a_offered_amount) == bytes@.subrange(41, 49));
        assert(spec_u64_to_le_bytes(offer.token_b_desired_amount) == bytes@.subrange(49, 57));
        assert forall|i: int| 0 <= i < 59 implies e[i] == bytes@[i] by {
            if i < 8 {
                assert(e[i] == e.subrange(0, 8)[i]);
                assert(bytes@[i] == bytes@.subrange(0, 8)[i]);
            } else if i < 16 {
                assert(e[i] == e.subrange(8, 16)[i - 8]);
                assert(bytes@[i] == bytes@.subrange(8, 16)[i - 8]);
            } else if i == 16 {
            } else if i < 25 {
                assert(e[i] == e.subrange(17, 25)[i - 17]);
                assert(bytes@[i] == bytes@.subrange(17, 25)[i - 17]);
            } else if i < 33 {
                assert(e[i] == e.subrange(25, 33)[i - 25]);
                assert(bytes@[i] == bytes@.subrange(25, 33)[i - 25]);
            } else if i < 41 {
                assert(e[i] == e.subrange(33, 41)[i - 33]);
                assert(bytes@[i] == bytes@.subrange(33, 41)[i - 33]);
            } else if i < 49 {
                assert(e[i] == e.subrange(41, 49)[i - 41]);
                assert(bytes@[i] == bytes@.subrange(41, 49)[i - 41]);
            } else if i < 57 {
                assert(e[i] == e.subrange(49, 57)[i - 49]);
                assert(bytes@[i] == bytes@.subrange(49, 57)[i - 49]);
            }
        }
        assert(bytes@ =~= e);
    }
    Some(offer)
}

} // verus!
