//! The destination side: the resolver's asset, locked for the maker.

use vstd::prelude::*;
use crate::accounts::{
    CancelDestinationAccounts, FillOrderDestinationAccounts, HoldingAccount, Payout,
    WithdrawDestinationAccounts,
};
use crate::errors::EscrowError;
use crate::events::{
    MakerWithdrawnDestination, OrderCancelledByResolverDestination, OrderFilledDestination,
};
use crate::policy::{
    bytes_equal, deadline, deadline_fits, deadline_not_passed, deadline_passed, digest_matches,
    hash_secret, keccak256, release, release_payout, release_rejection,
};
use crate::state::{Address, OrderStateDestination};

verus! {

/// Why `fill_order_destination` refuses, if it does.
pub open spec fn fill_destination_rejection(
    ctx: FillOrderDestinationAccounts,
    now: i64,
    amount_on_destination: u64,
    timeout_duration_seconds: i64,
    safety_deposit_sol: u64,
) -> Option<EscrowError> {
    if ctx.order_state_destination.is_some() || ctx.escrow_token_account_destination.is_some() {
        Some(EscrowError::OrderAlreadyExists)
    } else if amount_on_destination == 0 || safety_deposit_sol == 0 {
        Some(EscrowError::ZeroAmount)
    } else if !deadline_fits(now, timeout_duration_seconds) {
        Some(EscrowError::Overflow)
    } else {
        None
    }
}

/// The record a successful `fill_order_destination` stores.
pub open spec fn filled_destination_order(
    ctx: FillOrderDestinationAccounts,
    now: i64,
    order_id: [u8; 32],
    maker_on_source: Address,
    amount_on_destination: u64,
    hash_secret: [u8; 32],
    timeout_duration_seconds: i64,
    safety_deposit_sol: u64,
) -> OrderStateDestination {
    OrderStateDestination {
        order_id,
        maker_on_source,
        resolver: ctx.resolver,
        token_mint_destination: ctx.token_mint_destination,
        amount_on_destination,
        safety_deposit_sol,
        hash_secret,
        creation_timestamp: now,
        timeout_duration_seconds,
        is_withdrawn_by_maker: false,
        is_cancelled_by_resolver: false,
        escrow_authority_bump: ctx.escrow_authority_bump,
    }
}

/// The holding account a successful `fill_order_destination` opens: it
/// holds the order's amount and safety deposit and nothing else.
pub open spec fn funded_destination_holding(
    ctx: FillOrderDestinationAccounts,
    amount_on_destination: u64,
    safety_deposit_sol: u64,
) -> HoldingAccount {
    HoldingAccount {
        mint: ctx.token_mint_destination,
        authority: ctx.escrow_authority,
        asset_balance: amount_on_destination,
        native_balance: safety_deposit_sol,
    }
}

/// The accounts after `fill_order_destination`: unchanged where it refuses,
/// else with the new record and its funded holding account.
pub open spec fn fill_destination_after(
    ctx: FillOrderDestinationAccounts,
    now: i64,
    order_id: [u8; 32],
    maker_on_source: Address,
    amount_on_destination: u64,
    hash_secret: [u8; 32],
    timeout_duration_seconds: i64,
    safety_deposit_sol: u64,
) -> FillOrderDestinationAccounts {
    if fill_destination_rejection(
        ctx,
        now,
        amount_on_destination,
        timeout_duration_seconds,
        safety_deposit_sol,
    ) is Some {
        ctx
    } else {
        FillOrderDestinationAccounts {
            order_state_destination: Some(
                filled_destination_order(
                    ctx,
                    now,
                    order_id,
                    maker_on_source,
                    amount_on_destination,
                    hash_secret,
                    timeout_duration_seconds,
                    safety_deposit_sol,
                ),
            ),
            escrow_token_account_destination: Some(
                funded_destination_holding(ctx, amount_on_destination, safety_deposit_sol),
            ),
            ..ctx
        }
    }
}

/// What `fill_order_destination` returns: the error, or the event that
/// announces the order with its deadline.
pub open spec fn fill_destination_outcome(
    ctx: FillOrderDestinationAccounts,
    now: i64,
    order_id: [u8; 32],
    maker_on_source: Address,
    amount_on_destination: u64,
    hash_secret: [u8; 32],
    timeout_duration_seconds: i64,
    safety_deposit_sol: u64,
) -> Result<OrderFilledDestination, EscrowError> {
    match fill_destination_rejection(
        ctx,
        now,
        amount_on_destination,
        timeout_duration_seconds,
        safety_deposit_sol,
    ) {
        Some(e) => Err(e),
        None => Ok(
            OrderFilledDestination {
                order_id,
                maker_on_source,
                resolver: ctx.resolver,
                token_mint_destination: ctx.token_mint_destination,
                amount_on_destination,
                safety_deposit_sol,
                hash_secret,
                timeout_timestamp: (now + timeout_duration_seconds) as i64,
            },
        ),
    }
}

/// Opens the resolver's matching order at time `now` and funds its holding
/// account with `amount_on_destination` of the asset and
/// `safety_deposit_sol` of native currency.
///
/// Refused, with nothing changed, where the identifier is taken, where
/// either amount is zero, or where the deadline is no timestamp.
pub fn fill_order_destination(
    ctx: &mut FillOrderDestinationAccounts,
    now: i64,
    order_id: [u8; 32],
    maker_on_source: Address,
    amount_on_destination: u64,
    hash_secret: [u8; 32],
    timeout_duration_seconds: i64,
    safety_deposit_sol: u64,
) -> (created: Result<OrderFilledDestination, EscrowError>)
    ensures
        created == fill_destination_outcome(
            *old(ctx),
            now,
            order_id,
            maker_on_source,
            amount_on_destination,
            hash_secret,
            timeout_duration_seconds,
            safety_deposit_sol,
        ),
        *final(ctx) == fill_destination_after(
            *old(ctx),
            now,
            order_id,
            maker_on_source,
            amount_on_destination,
            hash_secret,
            timeout_duration_seconds,
            safety_deposit_sol,
        ),
{
    if ctx.order_state_destination.is_some() || ctx.escrow_token_account_destination.is_some() {
        return Err(EscrowError::OrderAlreadyExists);
    }
    if amount_on_destination == 0 || safety_deposit_sol == 0 {
        return Err(EscrowError::ZeroAmount);
    }
    let timeout_timestamp = match deadline(now, timeout_duration_seconds) {
        Some(at) => at,
        None => {
            return Err(EscrowError::Overflow);
        },
    };
    let order = OrderStateDestination {
        order_id,
        maker_on_source,
        resolver: ctx.resolver,
        token_mint_destination: ctx.token_mint_destination,
        amount_on_destination,
        safety_deposit_sol,
        hash_secret,
        creation_timestamp: now,
        timeout_duration_seconds,
        is_withdrawn_by_maker: false,
        is_cancelled_by_resolver: false,
        escrow_authority_bump: ctx.escrow_authority_bump,
    };
    ctx.order_state_destination = Some(order);
    ctx.escrow_token_account_destination = Some(
        HoldingAccount {
            mint: ctx.token_mint_destination,
            authority: ctx.escrow_authority,
            asset_balance: amount_on_destination,
            native_balance: safety_deposit_sol,
        },
    );
    Ok(
        OrderFilledDestination {
            order_id,
            maker_on_source,
            resolver: order.resolver,
            token_mint_destination: order.token_mint_destination,
            amount_on_destination,
            safety_deposit_sol,
            hash_secret,
            timeout_timestamp,
        },
    )
}

/// Why a withdrawal on the destination side is refused, if it is, given the
/// digest of the secret that the caller revealed. The checks come in this
/// order: the identifier, the order's state, the caller, the deadline, the
/// secret, and the holding account.
pub open spec fn withdraw_destination_rejection(
    ctx: WithdrawDestinationAccounts,
    now: i64,
    order_id: [u8; 32],
    digest: Seq<u8>,
) -> Option<EscrowError> {
    let order = ctx.order_state_destination;
    if order_id@ != order.order_id@ {
        Some(EscrowError::OrderDoesNotExist)
    } else if order.is_withdrawn_by_maker {
        Some(EscrowError::AlreadyWithdrawnByMaker)
    } else if order.is_cancelled_by_resolver {
        Some(EscrowError::AlreadyCancelledByResolver)
    } else if ctx.maker_on_destination_chain_signer@ != order.maker_on_source@ {
        Some(EscrowError::CallerNotMaker)
    } else if !deadline_fits(order.creation_timestamp, order.timeout_duration_seconds) {
        Some(EscrowError::Overflow)
    } else if now >= order.deadline() {
        Some(EscrowError::TimeoutExpired)
    } else if digest != order.hash_secret@ {
        Some(EscrowError::InvalidSecret)
    } else {
        release_rejection(
            ctx.escrow_token_account_destination,
            ctx.escrow_authority,
            order.token_mint_destination,
            order.amount_on_destination,
            order.safety_deposit_sol,
        )
    }
}

/// The accounts after a withdrawal that was not refused: the order is
/// marked withdrawn and its holding account is empty.
pub open spec fn withdrawn_destination(
    ctx: WithdrawDestinationAccounts,
) -> WithdrawDestinationAccounts {
    WithdrawDestinationAccounts {
        order_state_destination: OrderStateDestination {
            is_withdrawn_by_maker: true,
            ..ctx.order_state_destination
        },
        escrow_token_account_destination: HoldingAccount {
            asset_balance: 0,
            native_balance: 0,
            ..ctx.escrow_token_account_destination
        },
        ..ctx
    }
}

/// What a withdrawal that was not refused pays to the maker.
pub open spec fn withdraw_destination_payout(ctx: WithdrawDestinationAccounts) -> Payout {
    release_payout(
        ctx.escrow_token_account_destination,
        ctx.order_state_destination.maker_on_source,
        ctx.order_state_destination.amount_on_destination,
        ctx.order_state_destination.safety_deposit_sol,
    )
}

/// The accounts after a withdrawal: unchanged where it is refused, else
/// as `withdrawn_destination` says.
pub open spec fn withdraw_destination_after(
    ctx: WithdrawDestinationAccounts,
    now: i64,
    order_id: [u8; 32],
    digest: Seq<u8>,
) -> WithdrawDestinationAccounts {
    if withdraw_destination_rejection(ctx, now, order_id, digest) is Some {
        ctx
    } else {
        withdrawn_destination(ctx)
    }
}

/// What a withdrawal returns: the error, or the event that reveals the
/// secret together with the payout to the maker.
pub open spec fn withdraw_destination_outcome(
    ctx: WithdrawDestinationAccounts,
    now: i64,
    order_id: [u8; 32],
    secret: [u8; 32],
    digest: Seq<u8>,
) -> Result<(MakerWithdrawnDestination, Payout), EscrowError> {
    match withdraw_destination_rejection(ctx, now, order_id, digest) {
        Some(e) => Err(e),
        None => Ok(
            (
                MakerWithdrawnDestination {
                    order_id: ctx.order_state_destination.order_id,
                    maker: ctx.order_state_destination.maker_on_source,
                    secret,
                },
                withdraw_destination_payout(ctx),
            ),
        ),
    }
}

/// The withdrawal itself, for a secret whose digest is already at hand.
///
/// Where `withdraw_destination_rejection` names an error, that error comes
/// back and nothing changes. Otherwise the order is marked withdrawn, the
/// holding account is emptied towards the maker, and the event carries
/// the secret.
pub fn withdraw_destination_with_digest(
    ctx: &mut WithdrawDestinationAccounts,
    now: i64,
    order_id: [u8; 32],
    secret: [u8; 32],
    digest: [u8; 32],
) -> (withdrawn: Result<(MakerWithdrawnDestination, Payout), EscrowError>)
    ensures
        withdrawn == withdraw_destination_outcome(*old(ctx), now, order_id, secret, digest@),
        *final(ctx) == withdraw_destination_after(*old(ctx), now, order_id, digest@),
{
    let order = ctx.order_state_destination;
    if !bytes_equal(&order_id, &order.order_id) {
        return Err(EscrowError::OrderDoesNotExist);
    }
    if order.is_withdrawn_by_maker {
        return Err(EscrowError::AlreadyWithdrawnByMaker);
    }
    if order.is_cancelled_by_resolver {
        return Err(EscrowError::AlreadyCancelledByResolver);
    }
    if !bytes_equal(&ctx.maker_on_destination_chain_signer, &order.maker_on_source) {
        return Err(EscrowError::CallerNotMaker);
    }
    let timeout_timestamp = match deadline(
        order.creation_timestamp,
        order.timeout_duration_seconds,
    ) {
        Some(at) => at,
        None => {
            return Err(EscrowError::Overflow);
        },
    };
    if !deadline_not_passed(now, timeout_timestamp) {
        return Err(EscrowError::TimeoutExpired);
    }
    if !digest_matches(&digest, &order.hash_secret) {
        return Err(EscrowError::InvalidSecret);
    }
    let mut holding = ctx.escrow_token_account_destination;
    let paid = match release(
        &mut holding,
        &ctx.escrow_authority,
        &order.token_mint_destination,
        order.amount_on_destination,
        order.safety_deposit_sol,
        order.maker_on_source,
    ) {
        Ok(paid) => paid,
        Err(e) => {
            return Err(e);
        },
    };
    ctx.order_state_destination.is_withdrawn_by_maker = true;
    ctx.escrow_token_account_destination = holding;
    Ok(
        (
            MakerWithdrawnDestination {
                order_id: order.order_id,
                maker: order.maker_on_source,
                secret,
            },
            paid,
        ),
    )
}

/// The maker claims the order by revealing the secret, at time `now`.
///
/// Succeeds exactly where the identifier names the order, the caller is
/// the signer for its maker, `now` is before the deadline, the order is
/// still open, the secret hashes to the committed digest, and the holding
/// account, under its authority, covers the amount and the deposit.
pub fn withdraw_destination(
    ctx: &mut WithdrawDestinationAccounts,
    now: i64,
    order_id: [u8; 32],
    secret: [u8; 32],
) -> (withdrawn: Result<(MakerWithdrawnDestination, Payout), EscrowError>)
    ensures
        withdrawn == withdraw_destination_outcome(
            *old(ctx),
            now,
            order_id,
            secret,
            keccak256(secret@),
        ),
        *final(ctx) == withdraw_destination_after(*old(ctx), now, order_id, keccak256(secret@)),
{
    let digest = hash_secret(&secret);
    withdraw_destination_with_digest(ctx, now, order_id, secret, digest)
}

/// Why a refund on the destination side is refused, if it is. Only the
/// resolver may ask. The checks come in this order: the identifier, the
/// order's state, the caller, the deadline, and the holding account.
pub open spec fn cancel_destination_rejection(
    ctx: CancelDestinationAccounts,
    now: i64,
    order_id: [u8; 32],
) -> Option<EscrowError> {
    let order = ctx.order_state_destination;
    if order_id@ != order.order_id@ {
        Some(EscrowError::OrderDoesNotExist)
    } else if order.is_withdrawn_by_maker {
        Some(EscrowError::AlreadyWithdrawnByMaker)
    } else if order.is_cancelled_by_resolver {
        Some(EscrowError::AlreadyCancelledByResolver)
    } else if ctx.resolver@ != order.resolver@ {
        Some(EscrowError::CallerNotResolver)
    } else if !deadline_fits(order.creation_timestamp, order.timeout_duration_seconds) {
        Some(EscrowError::Overflow)
    } else if now < order.deadline() {
        Some(EscrowError::TimeoutNotExpired)
    } else {
        release_rejection(
            ctx.escrow_token_account_destination,
            ctx.escrow_authority,
            order.token_mint_destination,
            order.amount_on_destination,
            order.safety_deposit_sol,
        )
    }
}

/// The accounts after a refund that was not refused: the order is marked
/// cancelled and its holding account is empty.
pub open spec fn cancelled_destination(
    ctx: CancelDestinationAccounts,
) -> CancelDestinationAccounts {
    CancelDestinationAccounts {
        order_state_destination: OrderStateDestination {
            is_cancelled_by_resolver: true,
            ..ctx.order_state_destination
        },
        escrow_token_account_destination: HoldingAccount {
            asset_balance: 0,
            native_balance: 0,
            ..ctx.escrow_token_account_destination
        },
        ..ctx
    }
}

/// What a refund that was not refused pays back to the resolver.
pub open spec fn cancel_destination_payout(ctx: CancelDestinationAccounts) -> Payout {
    release_payout(
        ctx.escrow_token_account_destination,
        ctx.order_state_destination.resolver,
        ctx.order_state_destination.amount_on_destination,
        ctx.order_state_destination.safety_deposit_sol,
    )
}

/// The accounts after a refund request: unchanged where it is refused,
/// else as `cancelled_destination` says.
pub open spec fn cancel_destination_after(
    ctx: CancelDestinationAccounts,
    now: i64,
    order_id: [u8; 32],
) -> CancelDestinationAccounts {
    if cancel_destination_rejection(ctx, now, order_id) is Some {
        ctx
    } else {
        cancelled_destination(ctx)
    }
}

/// What a refund request returns: the error, or the event that names the
/// resolver together with the payout.
pub open spec fn cancel_destination_outcome(
    ctx: CancelDestinationAccounts,
    now: i64,
    order_id: [u8; 32],
) -> Result<(OrderCancelledByResolverDestination, Payout), EscrowError> {
    match cancel_destination_rejection(ctx, now, order_id) {
        Some(e) => Err(e),
        None => Ok(
            (
                OrderCancelledByResolverDestination {
                    order_id: ctx.order_state_destination.order_id,
                    resolver: ctx.order_state_destination.resolver,
                },
                cancel_destination_payout(ctx),
            ),
        ),
    }
}

/// Refunds the resolver, on the resolver's own request, once the deadline
/// is reached.
///
/// Where `cancel_destination_rejection` names an error, that error comes
/// back and nothing changes. Otherwise the order is marked cancelled and the
/// holding account is emptied towards the resolver.
pub fn cancel_destination(
    ctx: &mut CancelDestinationAccounts,
    now: i64,
    order_id: [u8; 32],
) -> (cancelled: Result<(OrderCancelledByResolverDestination, Payout), EscrowError>)
    ensures
        cancelled == cancel_destination_outcome(*old(ctx), now, order_id),
        *final(ctx) == cancel_destination_after(*old(ctx), now, order_id),
{
    let order = ctx.order_state_destination;
    if !bytes_equal(&order_id, &order.order_id) {
        return Err(EscrowError::OrderDoesNotExist);
    }
    if order.is_withdrawn_by_maker {
        return Err(EscrowError::AlreadyWithdrawnByMaker);
    }
    if order.is_cancelled_by_resolver {
        return Err(EscrowError::AlreadyCancelledByResolver);
    }
    if !bytes_equal(&ctx.resolver, &order.resolver) {
        return Err(EscrowError::CallerNotResolver);
    }
    let timeout_timestamp = match deadline(
        order.creation_timestamp,
        order.timeout_duration_seconds,
    ) {
        Some(at) => at,
        None => {
            return Err(EscrowError::Overflow);
        },
    };
    if !deadline_passed(now, timeout_timestamp) {
        return Err(EscrowError::TimeoutNotExpired);
    }
    let mut holding = ctx.escrow_token_account_destination;
    let paid = match release(
        &mut holding,
        &ctx.escrow_authority,
        &order.token_mint_destination,
        order.amount_on_destination,
        order.safety_deposit_sol,
        order.resolver,
    ) {
        Ok(paid) => paid,
        Err(e) => {
            return Err(e);
        },
    };
    ctx.order_state_destination.is_cancelled_by_resolver = true;
    ctx.escrow_token_account_destination = holding;
    Ok(
        (
            OrderCancelledByResolverDestination {
                order_id: order.order_id,
                resolver: order.resolver,
            },
            paid,
        ),
    )
}

} // verus!
