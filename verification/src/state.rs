//! The order records, one kind per ledger side.

use vstd::prelude::*;

verus! {

/// A 32-byte account address.
pub type Address = [u8; 32];

/// The maker's order on the source side.
#[derive(Clone, Copy, Debug, PartialEq, Eq)]
pub struct OrderStateSource {
    pub order_id: [u8; 32],
    pub maker: Address,
    pub resolver: Address,
    pub token_mint_source: Address,
    pub amount: u64,
    pub safety_deposit_sol: u64,
    pub hash_secret: [u8; 32],
    pub creation_timestamp: i64,
    pub timeout_duration_seconds: i64,
    pub is_withdrawn: bool,
    pub is_cancelled: bool,
    pub escrow_authority_bump: u8,
}

impl OrderStateSource {
    /// Bytes of storage one record takes: an 8-byte tag and then the fields.
    pub const LEN: usize = 8 + 32 + 32 + 32 + 32 + 8 + 8 + 32 + 8 + 8 + 1 + 1 + 1;

    /// The instant from which the order can only be refunded.
    pub open spec fn deadline(self) -> int {
        self.creation_timestamp + self.timeout_duration_seconds
    }

    /// Neither paid out nor refunded yet.
    pub open spec fn is_open(self) -> bool {
        !self.is_withdrawn && !self.is_cancelled
    }

    /// Paid out or refunded, and never both.
    pub open spec fn is_terminal(self) -> bool {
        self.is_withdrawn != self.is_cancelled
    }

    /// At most one of the two terminal flags is set.
    pub open spec fn wf(self) -> bool {
        !(self.is_withdrawn && self.is_cancelled)
    }
}

/// The resolver's order on the destination side.
#[derive(Clone, Copy, Debug, PartialEq, Eq)]
pub struct OrderStateDestination {
    pub order_id: [u8; 32],
    pub maker_on_source: Address,
    pub resolver: Address,
    pub token_mint_destination: Address,
    pub amount_on_destination: u64,
    pub safety_deposit_sol: u64,
    pub hash_secret: [u8; 32],
    pub creation_timestamp: i64,
    pub timeout_duration_seconds: i64,
    pub is_withdrawn_by_maker: bool,
    pub is_cancelled_by_resolver: bool,
    pub escrow_authority_bump: u8,
}

impl OrderStateDestination {
    /// Bytes of storage one record takes: an 8-byte tag and then the fields.
    pub const LEN: usize = 8 + 32 + 32 + 32 + 32 + 8 + 8 + 32 + 8 + 8 + 1 + 1 + 1;

    /// The instant from which the order can only be refunded.
    pub open spec fn deadline(self) -> int {
        self.creation_timestamp + self.timeout_duration_seconds
    }

    /// Neither claimed nor refunded yet.
    pub open spec fn is_open(self) -> bool {
        !self.is_withdrawn_by_maker && !self.is_cancelled_by_resolver
    }

    /// Claimed or refunded, and never both.
    pub open spec fn is_terminal(self) -> bool {
        self.is_withdrawn_by_maker != self.is_cancelled_by_resolver
    }

    /// At most one of the two terminal flags is set.
    pub open spec fn wf(self) -> bool {
        !(self.is_withdrawn_by_maker && self.is_cancelled_by_resolver)
    }
}

} // verus!
