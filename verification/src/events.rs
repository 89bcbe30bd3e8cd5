//! What each successful operation announces to off-ledger watchers.

use vstd::prelude::*;
use crate::state::Address;

verus! {

/// A source order was created and funded.
#[derive(Clone, Copy, Debug, PartialEq, Eq)]
pub struct OrderCreatedSource {
    pub order_id: [u8; 32],
    pub maker: Address,
    pub resolver: Address,
    pub token_mint_source: Address,
    pub amount: u64,
    pub safety_deposit_sol: u64,
    pub hash_secret: [u8; 32],
    pub timeout_timestamp: i64,
}

/// The resolver took the source order; the secret is now public.
#[derive(Clone, Copy, Debug, PartialEq, Eq)]
pub struct OrderWithdrawnSource {
    pub order_id: [u8; 32],
    pub resolver: Address,
    pub secret: [u8; 32],
}

/// The source order was refunded to its maker.
#[derive(Clone, Copy, Debug, PartialEq, Eq)]
pub struct OrderCancelledSource {
    pub order_id: [u8; 32],
    pub canceller: Address,
}

/// A destination order was filled and funded by the resolver.
#[derive(Clone, Copy, Debug, PartialEq, Eq)]
pub struct OrderFilledDestination {
    pub order_id: [u8; 32],
    pub maker_on_source: Address,
    pub resolver: Address,
    pub token_mint_destination: Address,
    pub amount_on_destination: u64,
    pub safety_deposit_sol: u64,
    pub hash_secret: [u8; 32],
    pub timeout_timestamp: i64,
}

/// The maker claimed the destination order; the secret is now public.
#[derive(Clone, Copy, Debug, PartialEq, Eq)]
pub struct MakerWithdrawnDestination {
    pub order_id: [u8; 32],
    pub maker: Address,
    pub secret: [u8; 32],
}

/// The destination order was refunded to its resolver.
#[derive(Clone, Copy, Debug, PartialEq, Eq)]
pub struct OrderCancelledByResolverDestination {
    pub order_id: [u8; 32],
    pub resolver: Address,
}

} // verus!
