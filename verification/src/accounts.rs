//! The accounts each operation works on, as plain values.

use vstd::prelude::*;
use crate::state::{Address, OrderStateDestination, OrderStateSource};

verus! {

/// The balance locked for one order on one side. Only its authority may
/// debit it.
#[derive(Clone, Copy, Debug, PartialEq, Eq)]
pub struct HoldingAccount {
    /// The asset the account holds.
    pub mint: Address,
    /// The derived address that controls the account.
    pub authority: Address,
    /// Units of the asset.
    pub asset_balance: u64,
    /// Units of native currency: the safety deposit.
    pub native_balance: u64,
}

impl HoldingAccount {
    /// Nothing is left in the account.
    pub open spec fn is_empty(self) -> bool {
        self.asset_balance == 0 && self.native_balance == 0
    }
}

/// What a terminated order hands to its recipient.
#[derive(Clone, Copy, Debug, PartialEq, Eq)]
pub struct Payout {
    pub recipient: Address,
    /// The order's amount of the asset.
    pub asset_amount: u64,
    /// The order's safety deposit, in native currency.
    pub safety_deposit: u64,
    /// Asset units the holding account held beyond the order's amount.
    pub residual_asset: u64,
    /// Native units the holding account held beyond the safety deposit.
    pub residual_native: u64,
}

/// Accounts of `create_order_source`. The two slots are `None` while the
/// order identifier is free.
#[derive(Clone, Copy, Debug, PartialEq, Eq)]
pub struct CreateOrderSourceAccounts {
    pub order_state_source: Option<OrderStateSource>,
    pub maker: Address,
    pub escrow_token_account_source: Option<HoldingAccount>,
    pub escrow_authority: Address,
    pub escrow_authority_bump: u8,
    pub token_mint_source: Address,
}

/// Accounts of `withdraw_source`.
#[derive(Clone, Copy, Debug, PartialEq, Eq)]
pub struct WithdrawSourceAccounts {
    pub order_state_source: OrderStateSource,
    /// The caller.
    pub resolver: Address,
    pub escrow_token_account_source: HoldingAccount,
    pub escrow_authority: Address,
}

/// Accounts of `cancel_source`.
#[derive(Clone, Copy, Debug, PartialEq, Eq)]
pub struct CancelSourceAccounts {
    pub order_state_source: OrderStateSource,
    /// The caller; anyone may be.
    pub canceller: Address,
    pub escrow_token_account_source: HoldingAccount,
    pub escrow_authority: Address,
}

/// Accounts of `fill_order_destination`. The two slots are `None` while the
/// order identifier is free.
#[derive(Clone, Copy, Debug, PartialEq, Eq)]
pub struct FillOrderDestinationAccounts {
    pub order_state_destination: Option<OrderStateDestination>,
    pub resolver: Address,
    pub escrow_token_account_destination: Option<HoldingAccount>,
    pub escrow_authority: Address,
    pub escrow_authority_bump: u8,
    pub token_mint_destination: Address,
}

/// Accounts of `withdraw_destination`.
#[derive(Clone, Copy, Debug, PartialEq, Eq)]
pub struct WithdrawDestinationAccounts {
    pub order_state_destination: OrderStateDestination,
    /// The caller, who signs on this ledger as the maker.
    pub maker_on_destination_chain_signer: Address,
    pub escrow_token_account_destination: HoldingAccount,
    pub escrow_authority: Address,
}

/// Accounts of `cancel_destination`.
#[derive(Clone, Copy, Debug, PartialEq, Eq)]
pub struct CancelDestinationAccounts {
    pub order_state_destination: OrderStateDestination,
    /// The caller.
    pub resolver: Address,
    pub escrow_token_account_destination: HoldingAccount,
    pub escrow_authority: Address,
}

} // verus!
