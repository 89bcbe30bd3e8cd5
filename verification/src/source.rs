//! The source side: the maker's asset, locked for the resolver.

use vstd::prelude::*;
use crate::accounts::{
    CancelSourceAccounts, CreateOrderSourceAccounts, HoldingAccount, Payout,
    WithdrawSourceAccounts,
};
use crate::errors::EscrowError;
use crate::events::{OrderCancelledSource, OrderCreatedSource, OrderWithdrawnSource};
use crate::policy::{
    bytes_equal, deadline, deadline_fits, deadline_not_passed, deadline_passed, digest_matches,
    hash_secret, keccak256, release, release_payout, release_rejection,
};
use crate::state::{Address, OrderStateSource};

verus! {

/// Why `create_order_source` refuses, if it does.
pub open spec fn create_source_rejection(
    ctx: CreateOrderSourceAccounts,
    now: i64,
    amount: u64,
    timeout_duration_seconds: i64,
    safety_deposit_sol: u64,
) -> Option<EscrowError> {
    if ctx.order_state_source.is_some() || ctx.escrow_token_account_source.is_some() {
        Some(EscrowError::OrderAlreadyExists)
    } else if amount == 0 || safety_deposit_sol == 0 {
        Some(EscrowError::ZeroAmount)
    } else if !deadline_fits(now, timeout_duration_seconds) {
        Some(EscrowError::Overflow)
    } else {
        None
    }
}

/// The record a successful `create_order_source` stores.
pub open spec fn created_source_order(
    ctx: CreateOrderSourceAccounts,
    now: i64,
    order_id: [u8; 32],
    resolver_address: Address,
    amount: u64,
    hash_secret: [u8; 32],
    timeout_duration_seconds: i64,
    safety_deposit_sol: u64,
) -> OrderStateSource {
    OrderStateSource {
        order_id,
        maker: ctx.maker,
        resolver: resolver_address,
        token_mint_source: ctx.token_mint_source,
        amount,
        safety_deposit_sol,
        hash_secret,
        creation_timestamp: now,
        timeout_duration_seconds,
        is_withdrawn: false,
        is_cancelled: false,
        escrow_authority_bump: ctx.escrow_authority_bump,
    }
}

/// The holding account a successful `create_order_source` opens: it holds
/// the order's amount and safety deposit and nothing else.
pub open spec fn funded_source_holding(
    ctx: CreateOrderSourceAccounts,
    amount: u64,
    safety_deposit_sol: u64,
) -> HoldingAccount {
    HoldingAccount {
        mint: ctx.token_mint_source,
        authority: ctx.escrow_authority,
        asset_balance: amount,
        native_balance: safety_deposit_sol,
    }
}

/// The accounts after `create_order_source`: unchanged where it refuses,
/// else with the new record and its funded holding account.
pub open spec fn create_source_after(
    ctx: CreateOrderSourceAccounts,
    now: i64,
    order_id: [u8; 32],
    resolver_address: Address,
    amount: u64,
    hash_secret: [u8; 32],
    timeout_duration_seconds: i64,
    safety_deposit_sol: u64,
) -> CreateOrderSourceAccounts {
    if create_source_rejection(ctx, now, amount, timeout_duration_seconds, safety_deposit_sol)
        is Some {
        ctx
    } else {
        CreateOrderSourceAccounts {
            order_state_source: Some(
                created_source_order(
                    ctx,
                    now,
                    order_id,
                    resolver_address,
                    amount,
                    hash_secret,
                    timeout_duration_seconds,
                    safety_deposit_sol,
                ),
            ),
            escrow_token_account_source: Some(
                funded_source_holding(ctx, amount, safety_deposit_sol),
            ),
            ..ctx
        }
    }
}

/// What `create_order_source` returns: the error, or the event that
/// announces the order with its deadline.
pub open spec fn create_source_outcome(
    ctx: CreateOrderSourceAccounts,
    now: i64,
    order_id: [u8; 32],
    resolver_address: Address,
    amount: u64,
    hash_secret: [u8; 32],
    timeout_duration_seconds: i64,
    safety_deposit_sol: u64,
) -> Result<OrderCreatedSource, EscrowError> {
    match create_source_rejection(ctx, now, amount, timeout_duration_seconds, safety_deposit_sol) {
        Some(e) => Err(e),
        None => Ok(
            OrderCreatedSource {
                order_id,
                maker: ctx.maker,
                resolver: resolver_address,
                token_mint_source: ctx.token_mint_source,
                amount,
                safety_deposit_sol,
                hash_secret,
                timeout_timestamp: (now + timeout_duration_seconds) as i64,
            },
        ),
    }
}

/// Opens the maker's order at time `now` and funds its holding account
/// with `amount` of the asset and `safety_deposit_sol` of native currency.
///
/// Refused, with nothing changed, where the identifier is taken, where
/// either amount is zero, or where the deadline is no timestamp.
pub fn create_order_source(
    ctx: &mut CreateOrderSourceAccounts,
    now: i64,
    order_id: [u8; 32],
    resolver_address: Address,
    amount: u64,
    hash_secret: [u8; 32],
    timeout_duration_seconds: i64,
    safety_deposit_sol: u64,
) -> (created: Result<OrderCreatedSource, EscrowError>)
    ensures
        created == create_source_outcome(
            *old(ctx),
            now,
            order_id,
            resolver_address,
            amount,
            hash_secret,
            timeout_duration_seconds,
            safety_deposit_sol,
        ),
        *final(ctx) == create_source_after(
            *old(ctx),
            now,
            order_id,
            resolver_address,
            amount,
            hash_secret,
            timeout_duration_seconds,
            safety_deposit_sol,
        ),
{
    if ctx.order_state_source.is_some() || ctx.escrow_token_account_source.is_some() {
        return Err(EscrowError::OrderAlreadyExists);
    }
    if amount == 0 || safety_deposit_sol == 0 {
        return Err(EscrowError::ZeroAmount);
    }
    let timeout_timestamp = match deadline(now, timeout_duration_seconds) {
        Some(at) => at,
        None => {
            return Err(EscrowError::Overflow);
        },
    };
    let order = OrderStateSource {
        order_id,
        maker: ctx.maker,
        resolver: resolver_address,
        token_mint_source: ctx.token_mint_source,
        amount,
        safety_deposit_sol,
        hash_secret,
        creation_timestamp: now,
        timeout_duration_seconds,
        is_withdrawn: false,
        is_cancelled: false,
        escrow_authority_bump: ctx.escrow_authority_bump,
    };
    ctx.order_state_source = Some(order);
    ctx.escrow_token_account_source = Some(
        HoldingAccount {
            mint: ctx.token_mint_source,
            authority: ctx.escrow_authority,
            asset_balance: amount,
            native_balance: safety_deposit_sol,
        },
    );
    Ok(
        OrderCreatedSource {
            order_id,
            maker: order.maker,
            resolver: order.resolver,
            token_mint_source: order.token_mint_source,
            amount,
            safety_deposit_sol,
            hash_secret,
            timeout_timestamp,
        },
    )
}

/// Why a withdrawal on the source side is refused, if it is, given the
/// digest of the secret that the caller revealed. The checks come in this
/// order: the identifier, the order's state, the caller, the deadline, the
/// secret, and the holding account.
pub open spec fn withdraw_source_rejection(
    ctx: WithdrawSourceAccounts,
    now: i64,
    order_id: [u8; 32],
    digest: Seq<u8>,
) -> Option<EscrowError> {
    let order = ctx.order_state_source;
    if order_id@ != order.order_id@ {
        Some(EscrowError::OrderDoesNotExist)
    } else if order.is_withdrawn {
        Some(EscrowError::AlreadyWithdrawn)
    } else if order.is_cancelled {
        Some(EscrowError::AlreadyCancelled)
    } else if ctx.resolver@ != order.resolver@ {
        Some(EscrowError::CallerNotResolver)
    } else if !deadline_fits(order.creation_timestamp, order.timeout_duration_seconds) {
        Some(EscrowError::Overflow)
    } else if now >= order.deadline() {
        Some(EscrowError::TimeoutExpired)
    } else if digest != order.hash_secret@ {
        Some(EscrowError::InvalidSecret)
    } else {
        release_rejection(
            ctx.escrow_token_account_source,
            ctx.escrow_authority,
            order.token_mint_source,
            order.amount,
            order.safety_deposit_sol,
        )
    }
}

/// The accounts after a withdrawal that was not refused: the order is
/// marked withdrawn and its holding account is empty.
pub open spec fn withdrawn_source(ctx: WithdrawSourceAccounts) -> WithdrawSourceAccounts {
    WithdrawSourceAccounts {
        order_state_source: OrderStateSource { is_withdrawn: true, ..ctx.order_state_source },
        escrow_token_account_source: HoldingAccount {
            asset_balance: 0,
            native_balance: 0,
            ..ctx.escrow_token_account_source
        },
        ..ctx
    }
}

/// What a withdrawal that was not refused pays to the resolver.
pub open spec fn withdraw_source_payout(ctx: WithdrawSourceAccounts) -> Payout {
    release_payout(
        ctx.escrow_token_account_source,
        ctx.order_state_source.resolver,
        ctx.order_state_source.amount,
        ctx.order_state_source.safety_deposit_sol,
    )
}

/// The accounts after a withdrawal: unchanged where it is refused, else
/// as `withdrawn_source` says.
pub open spec fn withdraw_source_after(
    ctx: WithdrawSourceAccounts,
    now: i64,
    order_id: [u8; 32],
    digest: Seq<u8>,
) -> WithdrawSourceAccounts {
    if withdraw_source_rejection(ctx, now, order_id, digest) is Some {
        ctx
    } else {
        withdrawn_source(ctx)
    }
}

/// What a withdrawal returns: the error, or the event that reveals the
/// secret together with the payout to the resolver.
pub open spec fn withdraw_source_outcome(
    ctx: WithdrawSourceAccounts,
    now: i64,
    order_id: [u8; 32],
    secret: [u8; 32],
    digest: Seq<u8>,
) -> Result<(OrderWithdrawnSource, Payout), EscrowError> {
    match withdraw_source_rejection(ctx, now, order_id, digest) {
        Some(e) => Err(e),
        None => Ok(
            (
                OrderWithdrawnSource {
                    order_id: ctx.order_state_source.order_id,
                    resolver: ctx.order_state_source.resolver,
                    secret,
                },
                withdraw_source_payout(ctx),
            ),
        ),
    }
}

/// The withdrawal itself, for a secret whose digest is already at hand.
///
/// Where `withdraw_source_rejection` names an error, that error comes back
/// and nothing changes. Otherwise the order is marked withdrawn, the
/// holding account is emptied towards the resolver, and the event carries
/// the secret.
pub fn withdraw_source_with_digest(
    ctx: &mut WithdrawSourceAccounts,
    now: i64,
    order_id: [u8; 32],
    secret: [u8; 32],
    digest: [u8; 32],
) -> (withdrawn: Result<(OrderWithdrawnSource, Payout), EscrowError>)
    ensures
        withdrawn == withdraw_source_outcome(*old(ctx), now, order_id, secret, digest@),
        *final(ctx) == withdraw_source_after(*old(ctx), now, order_id, digest@),
{
    let order = ctx.order_state_source;
    if !bytes_equal(&order_id, &order.order_id) {
        return Err(EscrowError::OrderDoesNotExist);
    }
    if order.is_withdrawn {
        return Err(EscrowError::AlreadyWithdrawn);
    }
    if order.is_cancelled {
        return Err(EscrowError::AlreadyCancelled);
    }
    if !bytes_equal(&ctx.resolver, &order.resolver) {
        return Err(EscrowError::CallerNotResolver);
    }
    let timeout_timestamp = match deadline(
        order.creation_timestamp,
        order.timeout_duration_seconds,
    ) {
        Some(at) => at,
        None => {
            return Err(EscrowError::Overflow);
        },
    };
    if !deadline_not_passed(now, timeout_timestamp) {
        return Err(EscrowError::TimeoutExpired);
    }
    if !digest_matches(&digest, &order.hash_secret) {
        return Err(EscrowError::InvalidSecret);
    }
    let mut holding = ctx.escrow_token_account_source;
    let paid = match release(
        &mut holding,
        &ctx.escrow_authority,
        &order.token_mint_source,
        order.amount,
        order.safety_deposit_sol,
        order.resolver,
    ) {
        Ok(paid) => paid,
        Err(e) => {
            return Err(e);
        },
    };
    ctx.order_state_source.is_withdrawn = true;
    ctx.escrow_token_account_source = holding;
    Ok((OrderWithdrawnSource { order_id: order.order_id, resolver: order.resolver, secret }, paid))
}

/// The resolver takes the order by revealing the secret, at time `now`.
///
/// Succeeds exactly where the identifier names the order, the caller is
/// its resolver, `now` is before the deadline, the order is still open,
/// the secret hashes to the committed digest, and the holding account,
/// under its authority, covers the amount and the deposit.
pub fn withdraw_source(
    ctx: &mut WithdrawSourceAccounts,
    now: i64,
    order_id: [u8; 32],
    secret: [u8; 32],
) -> (withdrawn: Result<(OrderWithdrawnSource, Payout), EscrowError>)
    ensures
        withdrawn == withdraw_source_outcome(
            *old(ctx),
            now,
            order_id,
            secret,
            keccak256(secret@),
        ),
        *final(ctx) == withdraw_source_after(*old(ctx), now, order_id, keccak256(secret@)),
{
    let digest = hash_secret(&secret);
    withdraw_source_with_digest(ctx, now, order_id, secret, digest)
}

/// Why a refund on the source side is refused, if it is. Any caller may
/// ask. The checks come in this order: the identifier, the order's state,
/// the deadline, and the holding account.
pub open spec fn cancel_source_rejection(
    ctx: CancelSourceAccounts,
    now: i64,
    order_id: [u8; 32],
) -> Option<EscrowError> {
    let order = ctx.order_state_source;
    if order_id@ != order.order_id@ {
        Some(EscrowError::OrderDoesNotExist)
    } else if order.is_withdrawn {
        Some(EscrowError::AlreadyWithdrawn)
    } else if order.is_cancelled {
        Some(EscrowError::AlreadyCancelled)
    } else if !deadline_fits(order.creation_timestamp, order.timeout_duration_seconds) {
        Some(EscrowError::Overflow)
    } else if now < order.deadline() {
        Some(EscrowError::TimeoutNotExpired)
    } else {
        release_rejection(
            ctx.escrow_token_account_source,
            ctx.escrow_authority,
            order.token_mint_source,
            order.amount,
            order.safety_deposit_sol,
        )
    }
}

/// The accounts after a refund that was not refused: the order is marked
/// cancelled and its holding account is empty.
pub open spec fn cancelled_source(ctx: CancelSourceAccounts) -> CancelSourceAccounts {
    CancelSourceAccounts {
        order_state_source: OrderStateSource { is_cancelled: true, ..ctx.order_state_source },
        escrow_token_account_source: HoldingAccount {
            asset_balance: 0,
            native_balance: 0,
            ..ctx.escrow_token_account_source
        },
        ..ctx
    }
}

/// What a refund that was not refused pays back to the maker.
pub open spec fn cancel_source_payout(ctx: CancelSourceAccounts) -> Payout {
    release_payout(
        ctx.escrow_token_account_source,
        ctx.order_state_source.maker,
        ctx.order_state_source.amount,
        ctx.order_state_source.safety_deposit_sol,
    )
}

/// The accounts after a refund request: unchanged where it is refused,
/// else as `cancelled_source` says.
pub open spec fn cancel_source_after(
    ctx: CancelSourceAccounts,
    now: i64,
    order_id: [u8; 32],
) -> CancelSourceAccounts {
    if cancel_source_rejection(ctx, now, order_id) is Some {
        ctx
    } else {
        cancelled_source(ctx)
    }
}

/// What a refund request returns: the error, or the event that names the
/// caller together with the payout.
pub open spec fn cancel_source_outcome(
    ctx: CancelSourceAccounts,
    now: i64,
    order_id: [u8; 32],
) -> Result<(OrderCancelledSource, Payout), EscrowError> {
    match cancel_source_rejection(ctx, now, order_id) {
        Some(e) => Err(e),
        None => Ok(
            (
                OrderCancelledSource {
                    order_id: ctx.order_state_source.order_id,
                    canceller: ctx.canceller,
                },
                cancel_source_payout(ctx),
            ),
        ),
    }
}

/// Refunds the maker once the deadline is reached, whoever asks.
///
/// Where `cancel_source_rejection` names an error, that error comes back
/// and nothing changes. Otherwise the order is marked cancelled and the
/// holding account is emptied towards the maker.
pub fn cancel_source(ctx: &mut CancelSourceAccounts, now: i64, order_id: [u8; 32]) -> (cancelled:
    Result<(OrderCancelledSource, Payout), EscrowError>)
    ensures
        cancelled == cancel_source_outcome(*old(ctx), now, order_id),
        *final(ctx) == cancel_source_after(*old(ctx), now, order_id),
{
    let order = ctx.order_state_source;
    if !bytes_equal(&order_id, &order.order_id) {
        return Err(EscrowError::OrderDoesNotExist);
    }
    if order.is_withdrawn {
        return Err(EscrowError::AlreadyWithdrawn);
    }
    if order.is_cancelled {
        return Err(EscrowError::AlreadyCancelled);
    }
    let timeout_timestamp = match deadline(
        order.creation_timestamp,
        order.timeout_duration_seconds,
    ) {
        Some(at) => at,
        None => {
            return Err(EscrowError::Overflow);
        },
    };
    if !deadline_passed(now, timeout_timestamp) {
        return Err(EscrowError::TimeoutNotExpired);
    }
    let mut holding = ctx.escrow_token_account_source;
    let paid = match release(
        &mut holding,
        &ctx.escrow_authority,
        &order.token_mint_source,
        order.amount,
        order.safety_deposit_sol,
        order.maker,
    ) {
        Ok(paid) => paid,
        Err(e) => {
            return Err(e);
        },
    };
    ctx.order_state_source.is_cancelled = true;
    ctx.escrow_token_account_source = holding;
    Ok((OrderCancelledSource { order_id: order.order_id, canceller: ctx.canceller }, paid))
}

} // verus!
