use vstd::prelude::*;

verus! {

/// An opaque numeric identity: a party, an asset kind (a mint), or any other
/// account handle the escrow core needs to tell apart.  The core only ever
/// compares identities and feeds them into the authority derivation seed.
#[derive(Clone, Copy, PartialEq, Eq, Structural, Debug)]
pub struct AccountId(pub u64);

/// Lifecycle of an offer.  `Completed` and `Refunded` are terminal.
#[derive(Clone, Copy, PartialEq, Eq, Structural, Debug)]
pub enum OfferStatus {
    Created,
    Accepted,
    Completed,
    Refunded,
}

impl OfferStatus {
    /// A settled offer admits no further transition.
    pub open spec fn is_terminal(self) -> bool {
        self is Completed || self is Refunded
    }
}

/// A party-held token account: a balance of one asset kind held by one owner.
/// Transitions debit and credit these; they never change owner or mint.
#[derive(Clone, Copy, PartialEq, Eq, Structural, Debug)]
pub struct TokenAccount {
    pub owner: AccountId,
    pub mint: AccountId,
    pub amount: u64,
}

/// A custody vault: a holding account bound to exactly one offer, holding one
/// side of the trade.  Its sole authorized mover is the offer's derived
/// authority, which only the four transitions can wield, so a vault value
/// lives inside a [`Trade`] and nowhere else.  A vault is closed — dropped
/// from the trade — the moment its funds are fully withdrawn.
#[derive(Clone, Copy, PartialEq, Eq, Structural, Debug)]
pub struct Vault {
    pub mint: AccountId,
    pub amount: u64,
}

/// The persistent offer record: trade terms, parties, and lifecycle status.
/// All fields but `consumer` and `status` are fixed at creation; `consumer`
/// is set exactly once, when the offer is accepted.
#[derive(Clone, Copy, PartialEq, Eq, Debug)]
pub struct Offer {
    /// Chosen by the producer at creation, unique per producer; part of the
    /// vault-authority derivation seed.
    pub id: u64,
    /// The party who opened the offer.
    pub producer: AccountId,
    /// The party who accepted it; `None` until acceptance.
    pub consumer: Option<AccountId>,
    /// Asset kind of the producer's leg.
    pub token_mint_a: AccountId,
    /// Asset kind of the payment leg.
    pub token_mint_b: AccountId,
    /// Quantity of the producer's asset placed in escrow.
    pub token_a_offered_amount: u64,
    /// Quantity of payment asset the producer demands.
    pub token_b_desired_amount: u64,
    pub status: OfferStatus,
    /// Derivation salt: together with the producer and the id it makes the
    /// offer's identity double as the authority controlling its vaults.
    pub bump: u8,
}

/// One trade in flight: the offer record together with the custody vaults
/// that currently exist for it.  The record is retained after settlement as
/// an audit trail; the vaults are not.
#[derive(Clone, Copy, PartialEq, Eq, Debug)]
pub struct Trade {
    pub offer: Offer,
    /// Producer-leg vault; exists exactly while the producer's asset is
    /// escrowed.
    pub vault_a: Option<Vault>,
    /// Consumer-leg vault; exists exactly while the payment is escrowed.
    pub vault_b: Option<Vault>,
}

impl Trade {
    /// Well-formedness: what every reachable trade satisfies.
    ///
    /// A vault exists if and only if its leg is currently funded, it holds
    /// exactly the declared quantity of the declared asset kind, the
    /// consumer is recorded from acceptance on, and a settled trade keeps no
    /// vault open.
    pub open spec fn wf(self) -> bool {
        &&& self.offer.status is Created ==> {
            &&& self.offer.consumer is None
            &&& self.vault_a == Some(
                Vault {
                    mint: self.offer.token_mint_a,
                    amount: self.offer.token_a_offered_amount,
                },
            )
            &&& self.vault_b is None
        }
        &&& self.offer.status is Accepted ==> {
            &&& self.offer.consumer is Some
            &&& self.vault_a == Some(
                Vault {
                    mint: self.offer.token_mint_a,
                    amount: self.offer.token_a_offered_amount,
                },
            )
            &&& self.vault_b == Some(
                Vault {
                    mint: self.offer.token_mint_b,
                    amount: self.offer.token_b_desired_amount,
                },
            )
        }
        &&& self.offer.status is Completed ==> {
            &&& self.offer.consumer is Some
            &&& self.vault_a is None
            &&& self.vault_b is None
        }
        &&& self.offer.status is Refunded ==> {
            &&& self.vault_a is None
            &&& self.vault_b is None
        }
    }
}

} // verus!
