//! What holds of the escrow operations on every input: when each is
//! accepted, that an order terminates once and pays once, and that a
//! refused call leaves no trace.

use vstd::prelude::*;
use crate::accounts::{
    CancelDestinationAccounts, CancelSourceAccounts, CreateOrderSourceAccounts,
    FillOrderDestinationAccounts, WithdrawDestinationAccounts, WithdrawSourceAccounts,
};
use crate::authority::{authority_of, CustodyAuthority};
use crate::destination::{
    cancel_destination_after, cancel_destination_outcome, cancel_destination_rejection,
    fill_destination_after, fill_destination_outcome, fill_destination_rejection,
    withdraw_destination_after, withdraw_destination_outcome, withdraw_destination_rejection,
};
use crate::errors::EscrowError;
use crate::ledger::{
    held_at, push_keeps_positions, without_custody, DestinationEntry, DestinationEscrow,
    SourceEntry, SourceEscrow,
};
use crate::policy::{deadline_fits, release_rejection};
use crate::source::{
    cancel_source_after, cancel_source_outcome, cancel_source_rejection, create_source_after,
    create_source_outcome, create_source_rejection, withdraw_source_after,
    withdraw_source_outcome, withdraw_source_rejection,
};
use crate::state::Address;

verus! {

/// The holding account of a source order can be released: it is under the
/// presented authority, holds the order's asset, and covers the amount and
/// the safety deposit.
pub open spec fn source_release_ready(ctx: WithdrawSourceAccounts) -> bool {
    release_rejection(
        ctx.escrow_token_account_source,
        ctx.escrow_authority,
        ctx.order_state_source.token_mint_source,
        ctx.order_state_source.amount,
        ctx.order_state_source.safety_deposit_sol,
    ) is None
}

/// The same of the accounts presented for a refund on the source side.
pub open spec fn source_refund_ready(ctx: CancelSourceAccounts) -> bool {
    release_rejection(
        ctx.escrow_token_account_source,
        ctx.escrow_authority,
        ctx.order_state_source.token_mint_source,
        ctx.order_state_source.amount,
        ctx.order_state_source.safety_deposit_sol,
    ) is None
}

/// The holding account of a destination order can be released.
pub open spec fn destination_release_ready(ctx: WithdrawDestinationAccounts) -> bool {
    release_rejection(
        ctx.escrow_token_account_destination,
        ctx.escrow_authority,
        ctx.order_state_destination.token_mint_destination,
        ctx.order_state_destination.amount_on_destination,
        ctx.order_state_destination.safety_deposit_sol,
    ) is None
}

/// The same of the accounts presented for a refund on the destination side.
pub open spec fn destination_refund_ready(ctx: CancelDestinationAccounts) -> bool {
    release_rejection(
        ctx.escrow_token_account_destination,
        ctx.escrow_authority,
        ctx.order_state_destination.token_mint_destination,
        ctx.order_state_destination.amount_on_destination,
        ctx.order_state_destination.safety_deposit_sol,
    ) is None
}

/// Every accepted `create_order_source` leaves an open order whose holding
/// account holds exactly the amount and the safety deposit.
pub proof fn created_source_order_is_open_and_funded(
    ctx: CreateOrderSourceAccounts,
    now: i64,
    order_id: [u8; 32],
    resolver_address: Address,
    amount: u64,
    hash_secret: [u8; 32],
    timeout_duration_seconds: i64,
    safety_deposit_sol: u64,
)
    requires
        create_source_rejection(ctx, now, amount, timeout_duration_seconds, safety_deposit_sol)
            is None,
    ensures
        ({
            let after = create_source_after(
                ctx,
                now,
                order_id,
                resolver_address,
                amount,
                hash_secret,
                timeout_duration_seconds,
                safety_deposit_sol,
            );
            &&& after.order_state_source is Some
            &&& !after.order_state_source.unwrap().is_withdrawn
            &&& !after.order_state_source.unwrap().is_cancelled
            &&& after.order_state_source.unwrap().deadline() == now + timeout_duration_seconds
            &&& after.escrow_token_account_source is Some
            &&& after.escrow_token_account_source.unwrap().asset_balance == amount
            &&& after.escrow_token_account_source.unwrap().native_balance == safety_deposit_sol
            &&& amount > 0
            &&& safety_deposit_sol > 0
        }),
{
}

/// Every accepted `fill_order_destination` leaves an open order whose
/// holding account holds exactly the amount and the safety deposit.
pub proof fn filled_destination_order_is_open_and_funded(
    ctx: FillOrderDestinationAccounts,
    now: i64,
    order_id: [u8; 32],
    maker_on_source: Address,
    amount_on_destination: u64,
    hash_secret: [u8; 32],
    timeout_duration_seconds: i64,
    safety_deposit_sol: u64,
)
    requires
        fill_destination_rejection(
            ctx,
            now,
            amount_on_destination,
            timeout_duration_seconds,
            safety_deposit_sol,
        ) is None,
    ensures
        ({
            let after = fill_destination_after(
                ctx,
                now,
                order_id,
                maker_on_source,
                amount_on_destination,
                hash_secret,
                timeout_duration_seconds,
                safety_deposit_sol,
            );
            &&& after.order_state_destination is Some
            &&& !after.order_state_destination.unwrap().is_withdrawn_by_maker
            &&& !after.order_state_destination.unwrap().is_cancelled_by_resolver
            &&& after.order_state_destination.unwrap().deadline() == now
                + timeout_duration_seconds
            &&& after.escrow_token_account_destination is Some
            &&& after.escrow_token_account_destination.unwrap().asset_balance
                == amount_on_destination
            &&& after.escrow_token_account_destination.unwrap().native_balance
                == safety_deposit_sol
            &&& amount_on_destination > 0
            &&& safety_deposit_sol > 0
        }),
{
}

/// An order just created can be taken: presented with the holding account
/// that `create_order_source` opened, under the same authority, it lets
/// its resolver withdraw with a matching digest at any time before the
/// deadline, and lets anyone trigger the refund from the deadline on.
pub proof fn created_source_order_can_terminate(
    ctx: CreateOrderSourceAccounts,
    now: i64,
    order_id: [u8; 32],
    resolver_address: Address,
    amount: u64,
    hash_secret: [u8; 32],
    timeout_duration_seconds: i64,
    safety_deposit_sol: u64,
    later: i64,
    caller: Address,
)
    requires
        create_source_rejection(ctx, now, amount, timeout_duration_seconds, safety_deposit_sol)
            is None,
    ensures
        ({
            let after = create_source_after(
                ctx,
                now,
                order_id,
                resolver_address,
                amount,
                hash_secret,
                timeout_duration_seconds,
                safety_deposit_sol,
            );
            let taking = WithdrawSourceAccounts {
                order_state_source: after.order_state_source.unwrap(),
                resolver: resolver_address,
                escrow_token_account_source: after.escrow_token_account_source.unwrap(),
                escrow_authority: after.escrow_authority,
            };
            let refunding = CancelSourceAccounts {
                order_state_source: after.order_state_source.unwrap(),
                canceller: caller,
                escrow_token_account_source: after.escrow_token_account_source.unwrap(),
                escrow_authority: after.escrow_authority,
            };
            &&& later < now + timeout_duration_seconds ==> withdraw_source_rejection(
                taking,
                later,
                order_id,
                hash_secret@,
            ) is None
            &&& later >= now + timeout_duration_seconds ==> cancel_source_rejection(
                refunding,
                later,
                order_id,
            ) is None
        }),
{
}

/// An order just filled can be taken: presented with the holding account
/// that `fill_order_destination` opened, under the same authority, it lets
/// the maker's signer withdraw with a matching digest at any time before
/// the deadline, and lets the resolver take the refund from the deadline on.
pub proof fn filled_destination_order_can_terminate(
    ctx: FillOrderDestinationAccounts,
    now: i64,
    order_id: [u8; 32],
    maker_on_source: Address,
    amount_on_destination: u64,
    hash_secret: [u8; 32],
    timeout_duration_seconds: i64,
    safety_deposit_sol: u64,
    later: i64,
)
    requires
        fill_destination_rejection(
            ctx,
            now,
            amount_on_destination,
            timeout_duration_seconds,
            safety_deposit_sol,
        ) is None,
    ensures
        ({
            let after = fill_destination_after(
                ctx,
                now,
                order_id,
                maker_on_source,
                amount_on_destination,
                hash_secret,
                timeout_duration_seconds,
                safety_deposit_sol,
            );
            let taking = WithdrawDestinationAccounts {
                order_state_destination: after.order_state_destination.unwrap(),
                maker_on_destination_chain_signer: maker_on_source,
                escrow_token_account_destination: after.escrow_token_account_destination.unwrap(),
                escrow_authority: after.escrow_authority,
            };
            let refunding = CancelDestinationAccounts {
                order_state_destination: after.order_state_destination.unwrap(),
                resolver: after.resolver,
                escrow_token_account_destination: after.escrow_token_account_destination.unwrap(),
                escrow_authority: after.escrow_authority,
            };
            &&& later < now + timeout_duration_seconds ==> withdraw_destination_rejection(
                taking,
                later,
                order_id,
                hash_secret@,
            ) is None
            &&& later >= now + timeout_duration_seconds ==> cancel_destination_rejection(
                refunding,
                later,
                order_id,
            ) is None
        }),
{
}

/// For an order presented under its own identifier by its resolver, with
/// a deadline that is a timestamp and a holding account ready for release:
/// the withdrawal is accepted exactly where the digest is the committed
/// one, the deadline is still ahead, and the order is open.
pub proof fn withdraw_source_accepted_iff(
    ctx: WithdrawSourceAccounts,
    now: i64,
    order_id: [u8; 32],
    digest: Seq<u8>,
)
    requires
        order_id@ == ctx.order_state_source.order_id@,
        ctx.resolver@ == ctx.order_state_source.resolver@,
        deadline_fits(
            ctx.order_state_source.creation_timestamp,
            ctx.order_state_source.timeout_duration_seconds,
        ),
        source_release_ready(ctx),
    ensures
        withdraw_source_rejection(ctx, now, order_id, digest) is None <==> (digest
            == ctx.order_state_source.hash_secret@ && now < ctx.order_state_source.deadline()
            && ctx.order_state_source.is_open()),
{
}

/// For an order presented under its own identifier by its resolver, with
/// a deadline that is a timestamp: where exactly one of the three
/// conditions of a withdrawal fails, the error names that one, and the
/// accounts stay as they were.
pub proof fn withdraw_source_single_violation(
    ctx: WithdrawSourceAccounts,
    now: i64,
    order_id: [u8; 32],
    digest: Seq<u8>,
)
    requires
        order_id@ == ctx.order_state_source.order_id@,
        ctx.resolver@ == ctx.order_state_source.resolver@,
        deadline_fits(
            ctx.order_state_source.creation_timestamp,
            ctx.order_state_source.timeout_duration_seconds,
        ),
    ensures
        ({
            let order = ctx.order_state_source;
            let rejection = withdraw_source_rejection(ctx, now, order_id, digest);
            let in_time = now < order.deadline();
            let revealed = digest == order.hash_secret@;
            &&& !in_time && order.is_open() && revealed ==> rejection == Some(
                EscrowError::TimeoutExpired,
            )
            &&& in_time && order.is_withdrawn && !order.is_cancelled && revealed ==> rejection
                == Some(EscrowError::AlreadyWithdrawn)
            &&& in_time && !order.is_withdrawn && order.is_cancelled && revealed ==> rejection
                == Some(EscrowError::AlreadyCancelled)
            &&& in_time && order.is_open() && !revealed ==> rejection == Some(
                EscrowError::InvalidSecret,
            )
            &&& !(in_time && order.is_open() && revealed) ==> withdraw_source_after(
                ctx,
                now,
                order_id,
                digest,
            ) == ctx
        }),
{
}

/// The same law on the destination side, where the caller is the signer
/// for the maker.
pub proof fn withdraw_destination_accepted_iff(
    ctx: WithdrawDestinationAccounts,
    now: i64,
    order_id: [u8; 32],
    digest: Seq<u8>,
)
    requires
        order_id@ == ctx.order_state_destination.order_id@,
        ctx.maker_on_destination_chain_signer@ == ctx.order_state_destination.maker_on_source@,
        deadline_fits(
            ctx.order_state_destination.creation_timestamp,
            ctx.order_state_destination.timeout_duration_seconds,
        ),
        destination_release_ready(ctx),
    ensures
        withdraw_destination_rejection(ctx, now, order_id, digest) is None <==> (digest
            == ctx.order_state_destination.hash_secret@ && now
            < ctx.order_state_destination.deadline() && ctx.order_state_destination.is_open()),
{
}

/// Where exactly one of the three conditions of a withdrawal on the
/// destination side fails, the error names that one, and the accounts stay
/// as they were.
pub proof fn withdraw_destination_single_violation(
    ctx: WithdrawDestinationAccounts,
    now: i64,
    order_id: [u8; 32],
    digest: Seq<u8>,
)
    requires
        order_id@ == ctx.order_state_destination.order_id@,
        ctx.maker_on_destination_chain_signer@ == ctx.order_state_destination.maker_on_source@,
        deadline_fits(
            ctx.order_state_destination.creation_timestamp,
            ctx.order_state_destination.timeout_duration_seconds,
        ),
    ensures
        ({
            let order = ctx.order_state_destination;
            let rejection = withdraw_destination_rejection(ctx, now, order_id, digest);
            let in_time = now < order.deadline();
            let revealed = digest == order.hash_secret@;
            &&& !in_time && order.is_open() && revealed ==> rejection == Some(
                EscrowError::TimeoutExpired,
            )
            &&& in_time && order.is_withdrawn_by_maker && !order.is_cancelled_by_resolver
                && revealed ==> rejection == Some(EscrowError::AlreadyWithdrawnByMaker)
            &&& in_time && !order.is_withdrawn_by_maker && order.is_cancelled_by_resolver
                && revealed ==> rejection == Some(EscrowError::AlreadyCancelledByResolver)
            &&& in_time && order.is_open() && !revealed ==> rejection == Some(
                EscrowError::InvalidSecret,
            )
            &&& !(in_time && order.is_open() && revealed) ==> withdraw_destination_after(
                ctx,
                now,
                order_id,
                digest,
            ) == ctx
        }),
{
}

/// For a source order presented under its own identifier, with a deadline
/// that is a timestamp and a holding account ready for release: the refund
/// is accepted exactly where the deadline is reached and the order is
/// open, whoever the caller is.
pub proof fn cancel_source_accepted_iff(ctx: CancelSourceAccounts, now: i64, order_id: [u8; 32])
    requires
        order_id@ == ctx.order_state_source.order_id@,
        deadline_fits(
            ctx.order_state_source.creation_timestamp,
            ctx.order_state_source.timeout_duration_seconds,
        ),
        source_refund_ready(ctx),
    ensures
        cancel_source_rejection(ctx, now, order_id) is None <==> (now
            >= ctx.order_state_source.deadline() && ctx.order_state_source.is_open()),
{
}

/// No refund on the source side is accepted before the deadline, on any
/// input.
pub proof fn cancel_source_never_before_deadline(
    ctx: CancelSourceAccounts,
    now: i64,
    order_id: [u8; 32],
)
    ensures
        now < ctx.order_state_source.deadline() ==> cancel_source_rejection(ctx, now, order_id)
            is Some,
        cancel_source_rejection(ctx, now, order_id) is None ==> now
            >= ctx.order_state_source.deadline(),
{
}

/// For a destination order presented under its own identifier by its
/// resolver, with a deadline that is a timestamp and a holding account
/// ready for release: the refund is accepted exactly where the deadline is
/// reached and the order is open.
pub proof fn cancel_destination_accepted_iff(
    ctx: CancelDestinationAccounts,
    now: i64,
    order_id: [u8; 32],
)
    requires
        order_id@ == ctx.order_state_destination.order_id@,
        ctx.resolver@ == ctx.order_state_destination.resolver@,
        deadline_fits(
            ctx.order_state_destination.creation_timestamp,
            ctx.order_state_destination.timeout_duration_seconds,
        ),
        destination_refund_ready(ctx),
    ensures
        cancel_destination_rejection(ctx, now, order_id) is None <==> (now
            >= ctx.order_state_destination.deadline()
            && ctx.order_state_destination.is_open()),
{
}

/// No refund on the destination side is accepted before the deadline, nor
/// from anyone but the resolver, on any input.
pub proof fn cancel_destination_never_before_deadline(
    ctx: CancelDestinationAccounts,
    now: i64,
    order_id: [u8; 32],
)
    ensures
        cancel_destination_rejection(ctx, now, order_id) is None ==> now
            >= ctx.order_state_destination.deadline() && ctx.resolver@
            == ctx.order_state_destination.resolver@,
{
}

/// After an accepted withdrawal on the source side, every refund asked
/// for under the order's identifier fails with `AlreadyWithdrawn`, whatever
/// accounts, caller and time come with it, and finds the holding account
/// empty.
pub proof fn no_cancel_after_withdraw_source(
    ctx: WithdrawSourceAccounts,
    now: i64,
    order_id: [u8; 32],
    digest: Seq<u8>,
    later_ctx: CancelSourceAccounts,
    later: i64,
)
    requires
        withdraw_source_rejection(ctx, now, order_id, digest) is None,
        later_ctx.order_state_source == withdraw_source_after(
            ctx,
            now,
            order_id,
            digest,
        ).order_state_source,
    ensures
        cancel_source_rejection(later_ctx, later, order_id) == Some(
            EscrowError::AlreadyWithdrawn,
        ),
        withdraw_source_after(ctx, now, order_id, digest).escrow_token_account_source.is_empty(),
{
}

/// After an accepted refund on the source side, every withdrawal asked
/// for under the order's identifier fails with `AlreadyCancelled`, whatever
/// accounts, caller, secret and time come with it, and finds the holding
/// account empty.
pub proof fn no_withdraw_after_cancel_source(
    ctx: CancelSourceAccounts,
    now: i64,
    order_id: [u8; 32],
    later_ctx: WithdrawSourceAccounts,
    later: i64,
    digest: Seq<u8>,
)
    requires
        cancel_source_rejection(ctx, now, order_id) is None,
        later_ctx.order_state_source == cancel_source_after(ctx, now, order_id).order_state_source,
    ensures
        withdraw_source_rejection(later_ctx, later, order_id, digest) == Some(
            EscrowError::AlreadyCancelled,
        ),
        cancel_source_after(ctx, now, order_id).escrow_token_account_source.is_empty(),
{
}

/// After an accepted withdrawal on the destination side, every refund
/// asked for under the order's identifier fails with
/// `AlreadyWithdrawnByMaker`, whatever accounts, caller and time come with
/// it, and finds the holding account empty.
pub proof fn no_cancel_after_withdraw_destination(
    ctx: WithdrawDestinationAccounts,
    now: i64,
    order_id: [u8; 32],
    digest: Seq<u8>,
    later_ctx: CancelDestinationAccounts,
    later: i64,
)
    requires
        withdraw_destination_rejection(ctx, now, order_id, digest) is None,
        later_ctx.order_state_destination == withdraw_destination_after(
            ctx,
            now,
            order_id,
            digest,
        ).order_state_destination,
    ensures
        cancel_destination_rejection(later_ctx, later, order_id) == Some(
            EscrowError::AlreadyWithdrawnByMaker,
        ),
        withdraw_destination_after(
            ctx,
            now,
            order_id,
            digest,
        ).escrow_token_account_destination.is_empty(),
{
}

/// After an accepted refund on the destination side, every withdrawal
/// asked for under the order's identifier fails with
/// `AlreadyCancelledByResolver`, whatever accounts, caller, secret and time
/// come with it, and finds the holding account empty.
pub proof fn no_withdraw_after_cancel_destination(
    ctx: CancelDestinationAccounts,
    now: i64,
    order_id: [u8; 32],
    later_ctx: WithdrawDestinationAccounts,
    later: i64,
    digest: Seq<u8>,
)
    requires
        cancel_destination_rejection(ctx, now, order_id) is None,
        later_ctx.order_state_destination == cancel_destination_after(
            ctx,
            now,
            order_id,
        ).order_state_destination,
    ensures
        withdraw_destination_rejection(later_ctx, later, order_id, digest) == Some(
            EscrowError::AlreadyCancelledByResolver,
        ),
        cancel_destination_after(ctx, now, order_id).escrow_token_account_destination.is_empty(),
{
}

/// The state of an order is told before anything else about a call: under
/// its identifier, a withdrawn order meets every withdrawal and every
/// refund with `AlreadyWithdrawn`, and a cancelled one with
/// `AlreadyCancelled`, whoever asks, whenever, and whatever the holding
/// account holds.
pub proof fn terminated_source_order_tells_its_state(
    w: WithdrawSourceAccounts,
    c: CancelSourceAccounts,
    now: i64,
    order_id: [u8; 32],
    digest: Seq<u8>,
)
    ensures
        ({
            let a = w.order_state_source;
            let b = c.order_state_source;
            let told_a = withdraw_source_rejection(w, now, order_id, digest);
            let told_b = cancel_source_rejection(c, now, order_id);
            &&& order_id@ == a.order_id@ && a.is_withdrawn ==> told_a == Some(
                EscrowError::AlreadyWithdrawn,
            )
            &&& order_id@ == a.order_id@ && !a.is_withdrawn && a.is_cancelled
                ==> told_a == Some(EscrowError::AlreadyCancelled)
            &&& order_id@ == b.order_id@ && b.is_withdrawn ==> told_b == Some(
                EscrowError::AlreadyWithdrawn,
            )
            &&& order_id@ == b.order_id@ && !b.is_withdrawn && b.is_cancelled
                ==> told_b == Some(EscrowError::AlreadyCancelled)
        }),
{
}

/// An authority that is not the holding account's own gets nothing
/// released on the source side: a call that presents it comes to what the
/// same call with the account's own authority comes to, except that the
/// release is refused on its asset leg.
pub proof fn foreign_authority_releases_nothing_source(
    w: WithdrawSourceAccounts,
    c: CancelSourceAccounts,
    foreign: Address,
    now: i64,
    order_id: [u8; 32],
    digest: Seq<u8>,
)
    requires
        foreign@ != w.escrow_token_account_source.authority@,
        foreign@ != c.escrow_token_account_source.authority@,
    ensures
        withdraw_source_rejection(
            WithdrawSourceAccounts { escrow_authority: foreign, ..w },
            now,
            order_id,
            digest,
        ) == without_custody(
            withdraw_source_rejection(
                WithdrawSourceAccounts {
                    escrow_authority: w.escrow_token_account_source.authority,
                    ..w
                },
                now,
                order_id,
                digest,
            ),
        ),
        cancel_source_rejection(
            CancelSourceAccounts { escrow_authority: foreign, ..c },
            now,
            order_id,
        ) == without_custody(
            cancel_source_rejection(
                CancelSourceAccounts {
                    escrow_authority: c.escrow_token_account_source.authority,
                    ..c
                },
                now,
                order_id,
            ),
        ),
{
}

/// The state of an order is told before anything else about a call: under
/// its identifier, a withdrawn order meets every withdrawal and every
/// refund with `AlreadyWithdrawnByMaker`, and a cancelled one with
/// `AlreadyCancelledByResolver`, whoever asks, whenever, and whatever the holding
/// account holds.
pub proof fn terminated_destination_order_tells_its_state(
    w: WithdrawDestinationAccounts,
    c: CancelDestinationAccounts,
    now: i64,
    order_id: [u8; 32],
    digest: Seq<u8>,
)
    ensures
        ({
            let a = w.order_state_destination;
            let b = c.order_state_destination;
            let told_a = withdraw_destination_rejection(w, now, order_id, digest);
            let told_b = cancel_destination_rejection(c, now, order_id);
            &&& order_id@ == a.order_id@ && a.is_withdrawn_by_maker ==> told_a == Some(
                EscrowError::AlreadyWithdrawnByMaker,
            )
            &&& order_id@ == a.order_id@ && !a.is_withdrawn_by_maker && a.is_cancelled_by_resolver
                ==> told_a == Some(EscrowError::AlreadyCancelledByResolver)
            &&& order_id@ == b.order_id@ && b.is_withdrawn_by_maker ==> told_b == Some(
                EscrowError::AlreadyWithdrawnByMaker,
            )
            &&& order_id@ == b.order_id@ && !b.is_withdrawn_by_maker && b.is_cancelled_by_resolver
                ==> told_b == Some(EscrowError::AlreadyCancelledByResolver)
        }),
{
}

/// An authority that is not the holding account's own gets nothing
/// released on the destination side: a call that presents it comes to what the
/// same call with the account's own authority comes to, except that the
/// release is refused on its asset leg.
pub proof fn foreign_authority_releases_nothing_destination(
    w: WithdrawDestinationAccounts,
    c: CancelDestinationAccounts,
    foreign: Address,
    now: i64,
    order_id: [u8; 32],
    digest: Seq<u8>,
)
    requires
        foreign@ != w.escrow_token_account_destination.authority@,
        foreign@ != c.escrow_token_account_destination.authority@,
    ensures
        withdraw_destination_rejection(
            WithdrawDestinationAccounts { escrow_authority: foreign, ..w },
            now,
            order_id,
            digest,
        ) == without_custody(
            withdraw_destination_rejection(
                WithdrawDestinationAccounts {
                    escrow_authority: w.escrow_token_account_destination.authority,
                    ..w
                },
                now,
                order_id,
                digest,
            ),
        ),
        cancel_destination_rejection(
            CancelDestinationAccounts { escrow_authority: foreign, ..c },
            now,
            order_id,
        ) == without_custody(
            cancel_destination_rejection(
                CancelDestinationAccounts {
                    escrow_authority: c.escrow_token_account_destination.authority,
                    ..c
                },
                now,
                order_id,
            ),
        ),
{
}

/// An order that is no longer open accepts neither operation again, and
/// neither operation ever clears a flag or sets both.
pub proof fn source_order_terminates_once(
    w: WithdrawSourceAccounts,
    c: CancelSourceAccounts,
    now: i64,
    order_id: [u8; 32],
    digest: Seq<u8>,
)
    ensures
        !w.order_state_source.is_open() ==> withdraw_source_rejection(w, now, order_id, digest)
            is Some,
        !c.order_state_source.is_open() ==> cancel_source_rejection(c, now, order_id) is Some,
        w.order_state_source.wf() ==> withdraw_source_after(
            w,
            now,
            order_id,
            digest,
        ).order_state_source.wf(),
        c.order_state_source.wf() ==> cancel_source_after(c, now, order_id).order_state_source.wf(),
        w.order_state_source.is_withdrawn ==> withdraw_source_after(
            w,
            now,
            order_id,
            digest,
        ).order_state_source.is_withdrawn,
        w.order_state_source.is_cancelled ==> withdraw_source_after(
            w,
            now,
            order_id,
            digest,
        ).order_state_source.is_cancelled,
        c.order_state_source.is_withdrawn ==> cancel_source_after(
            c,
            now,
            order_id,
        ).order_state_source.is_withdrawn,
        c.order_state_source.is_cancelled ==> cancel_source_after(
            c,
            now,
            order_id,
        ).order_state_source.is_cancelled,
{
}

/// The same on the destination side.
pub proof fn destination_order_terminates_once(
    w: WithdrawDestinationAccounts,
    c: CancelDestinationAccounts,
    now: i64,
    order_id: [u8; 32],
    digest: Seq<u8>,
)
    ensures
        !w.order_state_destination.is_open() ==> withdraw_destination_rejection(
            w,
            now,
            order_id,
            digest,
        ) is Some,
        !c.order_state_destination.is_open() ==> cancel_destination_rejection(c, now, order_id)
            is Some,
        w.order_state_destination.wf() ==> withdraw_destination_after(
            w,
            now,
            order_id,
            digest,
        ).order_state_destination.wf(),
        c.order_state_destination.wf() ==> cancel_destination_after(
            c,
            now,
            order_id,
        ).order_state_destination.wf(),
        w.order_state_destination.is_withdrawn_by_maker ==> withdraw_destination_after(
            w,
            now,
            order_id,
            digest,
        ).order_state_destination.is_withdrawn_by_maker,
        w.order_state_destination.is_cancelled_by_resolver ==> withdraw_destination_after(
            w,
            now,
            order_id,
            digest,
        ).order_state_destination.is_cancelled_by_resolver,
        c.order_state_destination.is_withdrawn_by_maker ==> cancel_destination_after(
            c,
            now,
            order_id,
        ).order_state_destination.is_withdrawn_by_maker,
        c.order_state_destination.is_cancelled_by_resolver ==> cancel_destination_after(
            c,
            now,
            order_id,
        ).order_state_destination.is_cancelled_by_resolver,
{
}

/// In a source escrow, an accepted order is kept under its identifier,
/// open, funded with exactly its amount and safety deposit, and in the
/// custody of the authority derived from its identifier; every other
/// identifier keeps the order it had.
pub proof fn source_escrow_keeps_created_order(
    before: SourceEscrow,
    after: SourceEscrow,
    maker: Address,
    token_mint_source: Address,
    authority: CustodyAuthority,
    now: i64,
    order_id: [u8; 32],
    resolver_address: Address,
    amount: u64,
    hash_secret: [u8; 32],
    timeout_duration_seconds: i64,
    safety_deposit_sol: u64,
)
    requires
        before.wf(),
        after.program_id() == before.program_id(),
        before.create_rejection(
            order_id@,
            now,
            amount,
            timeout_duration_seconds,
            safety_deposit_sol,
        ) is None,
        authority_of(before.derived(order_id@), Some(authority)),
        after@ == before@.push(
            SourceEntry {
                order: create_source_after(
                    SourceEscrow::create_accounts(maker, token_mint_source, authority),
                    now,
                    order_id,
                    resolver_address,
                    amount,
                    hash_secret,
                    timeout_duration_seconds,
                    safety_deposit_sol,
                ).order_state_source.unwrap(),
                holding: create_source_after(
                    SourceEscrow::create_accounts(maker, token_mint_source, authority),
                    now,
                    order_id,
                    resolver_address,
                    amount,
                    hash_secret,
                    timeout_duration_seconds,
                    safety_deposit_sol,
                ).escrow_token_account_source.unwrap(),
            },
        ),
    ensures
        after.wf(),
        after.entry(order_id@) is Some,
        after.entry(order_id@).unwrap().order.is_open(),
        after.entry(order_id@).unwrap().order.order_id == order_id,
        after.entry(order_id@).unwrap().holding.asset_balance == amount,
        after.entry(order_id@).unwrap().holding.native_balance == safety_deposit_sol,
        after.entry(order_id@).unwrap().in_custody(after.derived(order_id@)),
        forall|other: Seq<u8>|
            other != order_id@ ==> #[trigger] after.entry(other) == before.entry(other),
{
    assert(after.identifiers() =~= before.identifiers().push(order_id@));
    push_keeps_positions(before.identifiers(), order_id@);
    assert forall|other: Seq<u8>| other != order_id@ implies #[trigger] after.entry(other)
        == before.entry(other) by {
        assert(after.position(other) == before.position(other));
        if before.position(other) is Some {
            assert(held_at(before.identifiers(), other, before.position(other).unwrap()));
        }
    }
}

/// In a source escrow, an order that was withdrawn stays under its
/// identifier, with an empty holding account, and meets every later
/// withdrawal and every later refund under that identifier with
/// `AlreadyWithdrawn`, whoever asks and whenever: no call pays twice.
pub proof fn source_escrow_pays_once_after_withdraw(
    before: SourceEscrow,
    after: SourceEscrow,
    i: int,
    caller: Address,
    now: i64,
    order_id: [u8; 32],
    digest: Seq<u8>,
    later_caller: Address,
    later: i64,
    later_digest: Seq<u8>,
)
    requires
        before.wf(),
        after.program_id() == before.program_id(),
        before.position(order_id@) == Some(i),
        before.withdraw_rejection(i, caller, now, order_id, digest) is None,
        after@ == before@.update(
            i,
            SourceEntry {
                order: withdraw_source_after(
                    before@[i].withdraw_accounts(caller),
                    now,
                    order_id,
                    digest,
                ).order_state_source,
                holding: withdraw_source_after(
                    before@[i].withdraw_accounts(caller),
                    now,
                    order_id,
                    digest,
                ).escrow_token_account_source,
            },
        ),
    ensures
        after.wf(),
        after.position(order_id@) == Some(i),
        after@[i].holding.is_empty(),
        after@[i].order.is_withdrawn && !after@[i].order.is_cancelled,
        after.cancel_rejection(i, later_caller, later, order_id) == Some(
            EscrowError::AlreadyWithdrawn,
        ),
        after.withdraw_rejection(i, later_caller, later, order_id, later_digest) == Some(
            EscrowError::AlreadyWithdrawn,
        ),
{
    assert(held_at(before.identifiers(), order_id@, i));
    assert(after.identifiers() =~= before.identifiers());
}

/// In a source escrow, an order that was refunded stays under its
/// identifier, with an empty holding account, and meets every later
/// withdrawal and every later refund under that identifier with
/// `AlreadyCancelled`, whoever asks and whenever.
pub proof fn source_escrow_pays_once_after_cancel(
    before: SourceEscrow,
    after: SourceEscrow,
    i: int,
    caller: Address,
    now: i64,
    order_id: [u8; 32],
    later_caller: Address,
    later: i64,
    later_digest: Seq<u8>,
)
    requires
        before.wf(),
        after.program_id() == before.program_id(),
        before.position(order_id@) == Some(i),
        before.cancel_rejection(i, caller, now, order_id) is None,
        after@ == before@.update(
            i,
            SourceEntry {
                order: cancel_source_after(
                    before@[i].cancel_accounts(caller),
                    now,
                    order_id,
                ).order_state_source,
                holding: cancel_source_after(
                    before@[i].cancel_accounts(caller),
                    now,
                    order_id,
                ).escrow_token_account_source,
            },
        ),
    ensures
        after.wf(),
        after.position(order_id@) == Some(i),
        after@[i].holding.is_empty(),
        after@[i].order.is_cancelled && !after@[i].order.is_withdrawn,
        after.cancel_rejection(i, later_caller, later, order_id) == Some(
            EscrowError::AlreadyCancelled,
        ),
        after.withdraw_rejection(i, later_caller, later, order_id, later_digest) == Some(
            EscrowError::AlreadyCancelled,
        ),
{
    assert(held_at(before.identifiers(), order_id@, i));
    assert(after.identifiers() =~= before.identifiers());
}

/// In a source escrow, an order whose holding account is not under the
/// authority derived from its identifier is never released: every
/// withdrawal and every refund of it is refused.
pub proof fn source_escrow_releases_to_derived_authority_alone(
    escrow: SourceEscrow,
    i: int,
    caller: Address,
    now: i64,
    order_id: [u8; 32],
    digest: Seq<u8>,
)
    requires
        !escrow@[i].in_custody(escrow.derived(order_id@)),
    ensures
        escrow.withdraw_rejection(i, caller, now, order_id, digest) is Some,
        escrow.cancel_rejection(i, caller, now, order_id) is Some,
{
}

/// In a destination escrow, an accepted order is kept under its identifier,
/// open, funded with exactly its amount and safety deposit, and in the
/// custody of the authority derived from its identifier; every other
/// identifier keeps the order it had.
pub proof fn destination_escrow_keeps_filled_order(
    before: DestinationEscrow,
    after: DestinationEscrow,
    resolver: Address,
    token_mint_destination: Address,
    authority: CustodyAuthority,
    now: i64,
    order_id: [u8; 32],
    maker_on_source: Address,
    amount_on_destination: u64,
    hash_secret: [u8; 32],
    timeout_duration_seconds: i64,
    safety_deposit_sol: u64,
)
    requires
        before.wf(),
        after.program_id() == before.program_id(),
        before.fill_rejection(
            order_id@,
            now,
            amount_on_destination,
            timeout_duration_seconds,
            safety_deposit_sol,
        ) is None,
        authority_of(before.derived(order_id@), Some(authority)),
        after@ == before@.push(
            DestinationEntry {
                order: fill_destination_after(
                    DestinationEscrow::fill_accounts(resolver, token_mint_destination, authority),
                    now,
                    order_id,
                    maker_on_source,
                    amount_on_destination,
                    hash_secret,
                    timeout_duration_seconds,
                    safety_deposit_sol,
                ).order_state_destination.unwrap(),
                holding: fill_destination_after(
                    DestinationEscrow::fill_accounts(resolver, token_mint_destination, authority),
                    now,
                    order_id,
                    maker_on_source,
                    amount_on_destination,
                    hash_secret,
                    timeout_duration_seconds,
                    safety_deposit_sol,
                ).escrow_token_account_destination.unwrap(),
            },
        ),
    ensures
        after.wf(),
        after.entry(order_id@) is Some,
        after.entry(order_id@).unwrap().order.is_open(),
        after.entry(order_id@).unwrap().order.order_id == order_id,
        after.entry(order_id@).unwrap().holding.asset_balance == amount_on_destination,
        after.entry(order_id@).unwrap().holding.native_balance == safety_deposit_sol,
        after.entry(order_id@).unwrap().in_custody(after.derived(order_id@)),
        forall|other: Seq<u8>|
            other != order_id@ ==> #[trigger] after.entry(other) == before.entry(other),
{
    assert(after.identifiers() =~= before.identifiers().push(order_id@));
    push_keeps_positions(before.identifiers(), order_id@);
    assert forall|other: Seq<u8>| other != order_id@ implies #[trigger] after.entry(other)
        == before.entry(other) by {
        assert(after.position(other) == before.position(other));
        if before.position(other) is Some {
            assert(held_at(before.identifiers(), other, before.position(other).unwrap()));
        }
    }
}

/// In a destination escrow, an order that was withdrawn stays under its
/// identifier, with an empty holding account, and meets every later
/// withdrawal and every later refund under that identifier with
/// `AlreadyWithdrawnByMaker`, whoever asks and whenever: no call pays twice.
pub proof fn destination_escrow_pays_once_after_withdraw(
    before: DestinationEscrow,
    after: DestinationEscrow,
    i: int,
    caller: Address,
    now: i64,
    order_id: [u8; 32],
    digest: Seq<u8>,
    later_caller: Address,
    later: i64,
    later_digest: Seq<u8>,
)
    requires
        before.wf(),
        after.program_id() == before.program_id(),
        before.position(order_id@) == Some(i),
        before.withdraw_rejection(i, caller, now, order_id, digest) is None,
        after@ == before@.update(
            i,
            DestinationEntry {
                order: withdraw_destination_after(
                    before@[i].withdraw_accounts(caller),
                    now,
                    order_id,
                    digest,
                ).order_state_destination,
                holding: withdraw_destination_after(
                    before@[i].withdraw_accounts(caller),
                    now,
                    order_id,
                    digest,
                ).escrow_token_account_destination,
            },
        ),
    ensures
        after.wf(),
        after.position(order_id@) == Some(i),
        after@[i].holding.is_empty(),
        after@[i].order.is_withdrawn_by_maker && !after@[i].order.is_cancelled_by_resolver,
        after.cancel_rejection(i, later_caller, later, order_id) == Some(
            EscrowError::AlreadyWithdrawnByMaker,
        ),
        after.withdraw_rejection(i, later_caller, later, order_id, later_digest) == Some(
            EscrowError::AlreadyWithdrawnByMaker,
        ),
{
    assert(held_at(before.identifiers(), order_id@, i));
    assert(after.identifiers() =~= before.identifiers());
}

/// In a destination escrow, an order that was refunded stays under its
/// identifier, with an empty holding account, and meets every later
/// withdrawal and every later refund under that identifier with
/// `AlreadyCancelledByResolver`, whoever asks and whenever.
pub proof fn destination_escrow_pays_once_after_cancel(
    before: DestinationEscrow,
    after: DestinationEscrow,
    i: int,
    caller: Address,
    now: i64,
    order_id: [u8; 32],
    later_caller: Address,
    later: i64,
    later_digest: Seq<u8>,
)
    requires
        before.wf(),
        after.program_id() == before.program_id(),
        before.position(order_id@) == Some(i),
        before.cancel_rejection(i, caller, now, order_id) is None,
        after@ == before@.update(
            i,
            DestinationEntry {
                order: cancel_destination_after(
                    before@[i].cancel_accounts(caller),
                    now,
                    order_id,
                ).order_state_destination,
                holding: cancel_destination_after(
                    before@[i].cancel_accounts(caller),
                    now,
                    order_id,
                ).escrow_token_account_destination,
            },
        ),
    ensures
        after.wf(),
        after.position(order_id@) == Some(i),
        after@[i].holding.is_empty(),
        after@[i].order.is_cancelled_by_resolver && !after@[i].order.is_withdrawn_by_maker,
        after.cancel_rejection(i, later_caller, later, order_id) == Some(
            EscrowError::AlreadyCancelledByResolver,
        ),
        after.withdraw_rejection(i, later_caller, later, order_id, later_digest) == Some(
            EscrowError::AlreadyCancelledByResolver,
        ),
{
    assert(held_at(before.identifiers(), order_id@, i));
    assert(after.identifiers() =~= before.identifiers());
}

/// In a destination escrow, an order whose holding account is not under the
/// authority derived from its identifier is never released: every
/// withdrawal and every refund of it is refused.
pub proof fn destination_escrow_releases_to_derived_authority_alone(
    escrow: DestinationEscrow,
    i: int,
    caller: Address,
    now: i64,
    order_id: [u8; 32],
    digest: Seq<u8>,
)
    requires
        !escrow@[i].in_custody(escrow.derived(order_id@)),
    ensures
        escrow.withdraw_rejection(i, caller, now, order_id, digest) is Some,
        escrow.cancel_rejection(i, caller, now, order_id) is Some,
{
}

/// A refused `create_order_source` changes nothing, so the same call on
/// what it left is refused with the same error.
pub proof fn failed_create_source_repeats(
    ctx: CreateOrderSourceAccounts,
    now: i64,
    order_id: [u8; 32],
    resolver_address: Address,
    amount: u64,
    hash_secret: [u8; 32],
    timeout_duration_seconds: i64,
    safety_deposit_sol: u64,
)
    requires
        create_source_outcome(
            ctx,
            now,
            order_id,
            resolver_address,
            amount,
            hash_secret,
            timeout_duration_seconds,
            safety_deposit_sol,
        ) is Err,
    ensures
        ({
            let after = create_source_after(
                ctx,
                now,
                order_id,
                resolver_address,
                amount,
                hash_secret,
                timeout_duration_seconds,
                safety_deposit_sol,
            );
            &&& after == ctx
            &&& create_source_outcome(
                after,
                now,
                order_id,
                resolver_address,
                amount,
                hash_secret,
                timeout_duration_seconds,
                safety_deposit_sol,
            ) == create_source_outcome(
                ctx,
                now,
                order_id,
                resolver_address,
                amount,
                hash_secret,
                timeout_duration_seconds,
                safety_deposit_sol,
            )
        }),
{
}

/// A refused withdrawal on the source side changes nothing, so the same
/// call on what it left is refused with the same error.
pub proof fn failed_withdraw_source_repeats(
    ctx: WithdrawSourceAccounts,
    now: i64,
    order_id: [u8; 32],
    secret: [u8; 32],
    digest: Seq<u8>,
)
    requires
        withdraw_source_outcome(ctx, now, order_id, secret, digest) is Err,
    ensures
        withdraw_source_after(ctx, now, order_id, digest) == ctx,
        withdraw_source_outcome(
            withdraw_source_after(ctx, now, order_id, digest),
            now,
            order_id,
            secret,
            digest,
        ) == withdraw_source_outcome(ctx, now, order_id, secret, digest),
{
}

/// A refused refund on the source side changes nothing, so the same call
/// on what it left is refused with the same error.
pub proof fn failed_cancel_source_repeats(ctx: CancelSourceAccounts, now: i64, order_id: [u8; 32])
    requires
        cancel_source_outcome(ctx, now, order_id) is Err,
    ensures
        cancel_source_after(ctx, now, order_id) == ctx,
        cancel_source_outcome(cancel_source_after(ctx, now, order_id), now, order_id)
            == cancel_source_outcome(ctx, now, order_id),
{
}

/// A refused `fill_order_destination` changes nothing, so the same call on
/// what it left is refused with the same error.
pub proof fn failed_fill_destination_repeats(
    ctx: FillOrderDestinationAccounts,
    now: i64,
    order_id: [u8; 32],
    maker_on_source: Address,
    amount_on_destination: u64,
    hash_secret: [u8; 32],
    timeout_duration_seconds: i64,
    safety_deposit_sol: u64,
)
    requires
        fill_destination_outcome(
            ctx,
            now,
            order_id,
            maker_on_source,
            amount_on_destination,
            hash_secret,
            timeout_duration_seconds,
            safety_deposit_sol,
        ) is Err,
    ensures
        ({
            let after = fill_destination_after(
                ctx,
                now,
                order_id,
                maker_on_source,
                amount_on_destination,
                hash_secret,
                timeout_duration_seconds,
                safety_deposit_sol,
            );
            &&& after == ctx
            &&& fill_destination_outcome(
                after,
                now,
                order_id,
                maker_on_source,
                amount_on_destination,
                hash_secret,
                timeout_duration_seconds,
                safety_deposit_sol,
            ) == fill_destination_outcome(
                ctx,
                now,
                order_id,
                maker_on_source,
                amount_on_destination,
                hash_secret,
                timeout_duration_seconds,
                safety_deposit_sol,
            )
        }),
{
}

/// A refused withdrawal on the destination side changes nothing, so the
/// same call on what it left is refused with the same error.
pub proof fn failed_withdraw_destination_repeats(
    ctx: WithdrawDestinationAccounts,
    now: i64,
    order_id: [u8; 32],
    secret: [u8; 32],
    digest: Seq<u8>,
)
    requires
        withdraw_destination_outcome(ctx, now, order_id, secret, digest) is Err,
    ensures
        withdraw_destination_after(ctx, now, order_id, digest) == ctx,
        withdraw_destination_outcome(
            withdraw_destination_after(ctx, now, order_id, digest),
            now,
            order_id,
            secret,
            digest,
        ) == withdraw_destination_outcome(ctx, now, order_id, secret, digest),
{
}

/// A refused refund on the destination side changes nothing, so the same
/// call on what it left is refused with the same error.
pub proof fn failed_cancel_destination_repeats(
    ctx: CancelDestinationAccounts,
    now: i64,
    order_id: [u8; 32],
)
    requires
        cancel_destination_outcome(ctx, now, order_id) is Err,
    ensures
        cancel_destination_after(ctx, now, order_id) == ctx,
        cancel_destination_outcome(cancel_destination_after(ctx, now, order_id), now, order_id)
            == cancel_destination_outcome(ctx, now, order_id),
{
}

} // verus!
