//! Escrow core for a trustless bilateral asset exchange.
//!
//! A producer locks a uniquely identified asset into a per-offer custody
//! vault and names a price in a fungible payment asset; a consumer locks the
//! payment into a second vault; the consumer then either confirms delivery,
//! which releases each leg to its new owner, or either party refunds, which
//! returns whichever legs are funded to their original owners.  The offer
//! record, the vaults, and the four transitions are modelled here over plain
//! values, with the rules of the state machine stated as contracts.

pub mod authority;
pub mod error;
pub mod laws;
pub mod machine;
pub mod record;
pub mod state;

pub use authority::{offer_authority, offer_signer_seed_bytes};
pub use error::GrpxProtocolError;
pub use machine::{accept, confirm, open, refund};
pub use record::{decode_offer, encode_offer};
pub use state::{AccountId, Offer, OfferStatus, TokenAccount, Trade, Vault};
