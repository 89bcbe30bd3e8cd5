use fusion_escrow_solana::accounts::{
    CancelSourceAccounts, CreateOrderSourceAccounts, HoldingAccount, WithdrawSourceAccounts,
};
use fusion_escrow_solana::errors::EscrowError;
use fusion_escrow_solana::policy::hash_secret;
use fusion_escrow_solana::source::{
    cancel_source, create_order_source, withdraw_source, withdraw_source_with_digest,
};
use fusion_escrow_solana::state::OrderStateSource;

const ID: [u8; 32] = [0x58; 32];
const MAKER: [u8; 32] = [1; 32];
const RESOLVER: [u8; 32] = [2; 32];
const MINT: [u8; 32] = [3; 32];
const AUTHORITY: [u8; 32] = [4; 32];
const STRANGER: [u8; 32] = [5; 32];
const SECRET: [u8; 32] = [0x73; 32];
const WRONG_SECRET: [u8; 32] = [0x74; 32];

fn free_slot() -> CreateOrderSourceAccounts {
    CreateOrderSourceAccounts {
        order_state_source: None,
        maker: MAKER,
        escrow_token_account_source: None,
        escrow_authority: AUTHORITY,
        escrow_authority_bump: 254,
        token_mint_source: MINT,
    }
}

fn created(now: i64, timeout: i64) -> CreateOrderSourceAccounts {
    let mut ctx = free_slot();
    create_order_source(&mut ctx, now, ID, RESOLVER, 100, hash_secret(&SECRET), timeout, 5)
        .unwrap();
    ctx
}

fn for_withdraw(ctx: &CreateOrderSourceAccounts, caller: [u8; 32]) -> WithdrawSourceAccounts {
    WithdrawSourceAccounts {
        order_state_source: ctx.order_state_source.unwrap(),
        resolver: caller,
        escrow_token_account_source: ctx.escrow_token_account_source.unwrap(),
        escrow_authority: ctx.escrow_authority,
    }
}

fn for_cancel(ctx: &CreateOrderSourceAccounts, caller: [u8; 32]) -> CancelSourceAccounts {
    CancelSourceAccounts {
        order_state_source: ctx.order_state_source.unwrap(),
        canceller: caller,
        escrow_token_account_source: ctx.escrow_token_account_source.unwrap(),
        escrow_authority: ctx.escrow_authority,
    }
}

#[test]
fn create_source_stores_open_order_and_funds_holding() {
    let mut ctx = free_slot();
    let digest = hash_secret(&SECRET);
    let event = create_order_source(&mut ctx, 1_000, ID, RESOLVER, 100, digest, 60, 5).unwrap();
    let order = ctx.order_state_source.unwrap();
    assert_eq!(
        order,
        OrderStateSource {
            order_id: ID,
            maker: MAKER,
            resolver: RESOLVER,
            token_mint_source: MINT,
            amount: 100,
            safety_deposit_sol: 5,
            hash_secret: digest,
            creation_timestamp: 1_000,
            timeout_duration_seconds: 60,
            is_withdrawn: false,
            is_cancelled: false,
            escrow_authority_bump: 254,
        }
    );
    assert_eq!(
        ctx.escrow_token_account_source.unwrap(),
        HoldingAccount { mint: MINT, authority: AUTHORITY, asset_balance: 100, native_balance: 5 }
    );
    assert_eq!(event.order_id, ID);
    assert_eq!(event.maker, MAKER);
    assert_eq!(event.resolver, RESOLVER);
    assert_eq!(event.token_mint_source, MINT);
    assert_eq!(event.amount, 100);
    assert_eq!(event.safety_deposit_sol, 5);
    assert_eq!(event.hash_secret, digest);
    assert_eq!(event.timeout_timestamp, 1_060);
}

#[test]
fn create_source_rejects_zero_amount() {
    let mut ctx = free_slot();
    let r = create_order_source(&mut ctx, 0, ID, RESOLVER, 0, [9; 32], 60, 5);
    assert_eq!(r.unwrap_err(), EscrowError::ZeroAmount);
    assert_eq!(ctx, free_slot());
}

#[test]
fn create_source_rejects_zero_deposit() {
    let mut ctx = free_slot();
    let r = create_order_source(&mut ctx, 0, ID, RESOLVER, 100, [9; 32], 60, 0);
    assert_eq!(r.unwrap_err(), EscrowError::ZeroAmount);
    assert_eq!(ctx, free_slot());
}

#[test]
fn create_source_rejects_taken_identifier() {
    let mut ctx = created(1_000, 60);
    let before = ctx;
    let r = create_order_source(&mut ctx, 1_001, ID, RESOLVER, 7, [9; 32], 60, 1);
    assert_eq!(r.unwrap_err(), EscrowError::OrderAlreadyExists);
    assert_eq!(ctx, before);
}

#[test]
fn create_source_reports_taken_identifier_before_zero_amount() {
    let mut ctx = created(1_000, 60);
    let r = create_order_source(&mut ctx, 1_001, ID, RESOLVER, 0, [9; 32], 60, 0);
    assert_eq!(r.unwrap_err(), EscrowError::OrderAlreadyExists);
}

#[test]
fn create_source_rejects_deadline_out_of_range() {
    let mut ctx = free_slot();
    let r = create_order_source(&mut ctx, i64::MAX, ID, RESOLVER, 100, [9; 32], 1, 5);
    assert_eq!(r.unwrap_err(), EscrowError::Overflow);
    assert_eq!(ctx, free_slot());
    let r = create_order_source(&mut ctx, i64::MIN, ID, RESOLVER, 100, [9; 32], -1, 5);
    assert_eq!(r.unwrap_err(), EscrowError::Overflow);
    let r = create_order_source(&mut ctx, i64::MAX, ID, RESOLVER, 100, [9; 32], 0, 5);
    assert_eq!(r.unwrap().timeout_timestamp, i64::MAX);
}

#[test]
fn withdraw_source_pays_resolver_and_reveals_secret() {
    let ctx = created(1_000, 60);
    let mut w = for_withdraw(&ctx, RESOLVER);
    let (event, paid) = withdraw_source(&mut w, 1_059, ID, SECRET).unwrap();
    assert_eq!(event.order_id, ID);
    assert_eq!(event.resolver, RESOLVER);
    assert_eq!(event.secret, SECRET);
    assert_eq!(paid.recipient, RESOLVER);
    assert_eq!(paid.asset_amount, 100);
    assert_eq!(paid.safety_deposit, 5);
    assert_eq!(paid.residual_asset, 0);
    assert_eq!(paid.residual_native, 0);
    assert!(w.order_state_source.is_withdrawn);
    assert!(!w.order_state_source.is_cancelled);
    assert_eq!(w.escrow_token_account_source.asset_balance, 0);
    assert_eq!(w.escrow_token_account_source.native_balance, 0);
    assert_eq!(w.escrow_token_account_source.mint, MINT);
    assert_eq!(w.escrow_token_account_source.authority, AUTHORITY);
}

#[test]
fn withdraw_source_hands_out_residual_balances() {
    let ctx = created(1_000, 60);
    let mut w = for_withdraw(&ctx, RESOLVER);
    w.escrow_token_account_source.asset_balance = 130;
    w.escrow_token_account_source.native_balance = 12;
    let (_, paid) = withdraw_source(&mut w, 1_000, ID, SECRET).unwrap();
    assert_eq!(paid.asset_amount, 100);
    assert_eq!(paid.safety_deposit, 5);
    assert_eq!(paid.residual_asset, 30);
    assert_eq!(paid.residual_native, 7);
    assert_eq!(w.escrow_token_account_source.asset_balance, 0);
    assert_eq!(w.escrow_token_account_source.native_balance, 0);
}

#[test]
fn withdraw_source_rejects_unknown_identifier() {
    let ctx = created(1_000, 60);
    let mut w = for_withdraw(&ctx, RESOLVER);
    let before = w;
    let mut other = ID;
    other[31] = 0x59;
    assert_eq!(
        withdraw_source(&mut w, 1_010, other, SECRET).unwrap_err(),
        EscrowError::OrderDoesNotExist
    );
    assert_eq!(w, before);
}

#[test]
fn withdraw_source_rejects_other_caller() {
    let ctx = created(1_000, 60);
    let mut w = for_withdraw(&ctx, STRANGER);
    let before = w;
    assert_eq!(
        withdraw_source(&mut w, 1_010, ID, SECRET).unwrap_err(),
        EscrowError::CallerNotResolver
    );
    assert_eq!(w, before);
    let mut w = for_withdraw(&ctx, MAKER);
    assert_eq!(
        withdraw_source(&mut w, 1_010, ID, SECRET).unwrap_err(),
        EscrowError::CallerNotResolver
    );
}

#[test]
fn withdraw_source_rejects_at_and_after_deadline() {
    let ctx = created(1_000, 60);
    let mut w = for_withdraw(&ctx, RESOLVER);
    let before = w;
    assert_eq!(
        withdraw_source(&mut w, 1_060, ID, SECRET).unwrap_err(),
        EscrowError::TimeoutExpired
    );
    assert_eq!(
        withdraw_source(&mut w, 9_999, ID, SECRET).unwrap_err(),
        EscrowError::TimeoutExpired
    );
    assert_eq!(w, before);
    assert!(withdraw_source(&mut w, 1_059, ID, SECRET).is_ok());
}

#[test]
fn withdraw_source_rejects_wrong_secret() {
    let ctx = created(1_000, 60);
    let mut w = for_withdraw(&ctx, RESOLVER);
    let before = w;
    assert_eq!(
        withdraw_source(&mut w, 1_010, ID, WRONG_SECRET).unwrap_err(),
        EscrowError::InvalidSecret
    );
    assert_eq!(w, before);
}

#[test]
fn withdraw_source_rejects_the_digest_in_place_of_the_secret() {
    let ctx = created(1_000, 60);
    let mut w = for_withdraw(&ctx, RESOLVER);
    let digest = hash_secret(&SECRET);
    assert_eq!(
        withdraw_source(&mut w, 1_010, ID, digest).unwrap_err(),
        EscrowError::InvalidSecret
    );
}

#[test]
fn withdraw_source_with_digest_compares_the_digest_given() {
    let ctx = created(1_000, 60);
    let mut w = for_withdraw(&ctx, RESOLVER);
    assert_eq!(
        withdraw_source_with_digest(&mut w, 1_010, ID, SECRET, [0; 32]).unwrap_err(),
        EscrowError::InvalidSecret
    );
    let (event, paid) =
        withdraw_source_with_digest(&mut w, 1_010, ID, SECRET, hash_secret(&SECRET)).unwrap();
    assert_eq!(event.secret, SECRET);
    assert_eq!(paid.asset_amount, 100);
}

#[test]
fn withdraw_source_rejects_twice() {
    let ctx = created(1_000, 60);
    let mut w = for_withdraw(&ctx, RESOLVER);
    withdraw_source(&mut w, 1_010, ID, SECRET).unwrap();
    let after_first = w;
    assert_eq!(
        withdraw_source(&mut w, 1_011, ID, SECRET).unwrap_err(),
        EscrowError::AlreadyWithdrawn
    );
    assert_eq!(w, after_first);
}

#[test]
fn withdraw_source_rejects_foreign_authority() {
    let ctx = created(1_000, 60);
    let mut w = for_withdraw(&ctx, RESOLVER);
    w.escrow_authority = STRANGER;
    let before = w;
    assert_eq!(
        withdraw_source(&mut w, 1_010, ID, SECRET).unwrap_err(),
        EscrowError::TokenTransferFailed
    );
    assert_eq!(w, before);
}

#[test]
fn withdraw_source_rejects_other_asset() {
    let ctx = created(1_000, 60);
    let mut w = for_withdraw(&ctx, RESOLVER);
    w.escrow_token_account_source.mint = STRANGER;
    assert_eq!(
        withdraw_source(&mut w, 1_010, ID, SECRET).unwrap_err(),
        EscrowError::TokenTransferFailed
    );
}

#[test]
fn withdraw_source_rejects_short_asset_balance() {
    let ctx = created(1_000, 60);
    let mut w = for_withdraw(&ctx, RESOLVER);
    w.escrow_token_account_source.asset_balance = 99;
    let before = w;
    assert_eq!(
        withdraw_source(&mut w, 1_010, ID, SECRET).unwrap_err(),
        EscrowError::TokenTransferFailed
    );
    assert_eq!(w, before);
}

#[test]
fn withdraw_source_rejects_short_native_balance() {
    let ctx = created(1_000, 60);
    let mut w = for_withdraw(&ctx, RESOLVER);
    w.escrow_token_account_source.native_balance = 4;
    let before = w;
    assert_eq!(
        withdraw_source(&mut w, 1_010, ID, SECRET).unwrap_err(),
        EscrowError::InsufficientEscrowBalance
    );
    assert_eq!(w, before);
}

#[test]
fn withdraw_source_rejects_record_with_deadline_out_of_range() {
    let ctx = created(1_000, 60);
    let mut w = for_withdraw(&ctx, RESOLVER);
    w.order_state_source.creation_timestamp = i64::MAX;
    assert_eq!(withdraw_source(&mut w, 1_010, ID, SECRET).unwrap_err(), EscrowError::Overflow);
    let mut c = for_cancel(&ctx, STRANGER);
    c.order_state_source.creation_timestamp = i64::MAX;
    assert_eq!(cancel_source(&mut c, 1_010, ID).unwrap_err(), EscrowError::Overflow);
}

#[test]
fn cancel_source_refunds_maker_whoever_asks() {
    let ctx = created(1_000, 60);
    let mut c = for_cancel(&ctx, STRANGER);
    let (event, paid) = cancel_source(&mut c, 1_060, ID).unwrap();
    assert_eq!(event.order_id, ID);
    assert_eq!(event.canceller, STRANGER);
    assert_eq!(paid.recipient, MAKER);
    assert_eq!(paid.asset_amount, 100);
    assert_eq!(paid.safety_deposit, 5);
    assert_eq!(paid.residual_asset, 0);
    assert_eq!(paid.residual_native, 0);
    assert!(c.order_state_source.is_cancelled);
    assert!(!c.order_state_source.is_withdrawn);
    assert_eq!(c.escrow_token_account_source.asset_balance, 0);
    assert_eq!(c.escrow_token_account_source.native_balance, 0);
}

#[test]
fn cancel_source_rejects_before_deadline() {
    let ctx = created(1_000, 60);
    let mut c = for_cancel(&ctx, MAKER);
    let before = c;
    assert_eq!(cancel_source(&mut c, 1_059, ID).unwrap_err(), EscrowError::TimeoutNotExpired);
    assert_eq!(cancel_source(&mut c, i64::MIN, ID).unwrap_err(), EscrowError::TimeoutNotExpired);
    assert_eq!(c, before);
}

#[test]
fn deadline_instant_permits_cancel_and_not_withdraw() {
    let ctx = created(1_000, 60);
    let mut w = for_withdraw(&ctx, RESOLVER);
    assert_eq!(
        withdraw_source(&mut w, 1_060, ID, SECRET).unwrap_err(),
        EscrowError::TimeoutExpired
    );
    let mut c = for_cancel(&ctx, MAKER);
    assert!(cancel_source(&mut c, 1_060, ID).is_ok());
}

#[test]
fn cancel_source_rejects_unknown_identifier() {
    let ctx = created(1_000, 60);
    let mut c = for_cancel(&ctx, MAKER);
    assert_eq!(cancel_source(&mut c, 2_000, [0; 32]).unwrap_err(), EscrowError::OrderDoesNotExist);
}

#[test]
fn cancel_source_rejects_twice() {
    let ctx = created(1_000, 60);
    let mut c = for_cancel(&ctx, MAKER);
    cancel_source(&mut c, 1_060, ID).unwrap();
    let after_first = c;
    assert_eq!(cancel_source(&mut c, 1_061, ID).unwrap_err(), EscrowError::AlreadyCancelled);
    assert_eq!(c, after_first);
}

#[test]
fn cancel_source_rejects_short_balances() {
    let ctx = created(1_000, 60);
    let mut c = for_cancel(&ctx, MAKER);
    c.escrow_token_account_source.asset_balance = 0;
    assert_eq!(cancel_source(&mut c, 1_060, ID).unwrap_err(), EscrowError::TokenTransferFailed);
    let mut c = for_cancel(&ctx, MAKER);
    c.escrow_token_account_source.native_balance = 0;
    let before = c;
    assert_eq!(
        cancel_source(&mut c, 1_060, ID).unwrap_err(),
        EscrowError::InsufficientEscrowBalance
    );
    assert_eq!(c, before);
}

#[test]
fn cancel_after_withdraw_source_is_rejected() {
    let ctx = created(1_000, 60);
    let mut w = for_withdraw(&ctx, RESOLVER);
    withdraw_source(&mut w, 1_010, ID, SECRET).unwrap();
    let mut c = CancelSourceAccounts {
        order_state_source: w.order_state_source,
        canceller: MAKER,
        escrow_token_account_source: w.escrow_token_account_source,
        escrow_authority: w.escrow_authority,
    };
    let before = c;
    assert_eq!(cancel_source(&mut c, 1_060, ID).unwrap_err(), EscrowError::AlreadyWithdrawn);
    assert_eq!(cancel_source(&mut c, 1_020, ID).unwrap_err(), EscrowError::AlreadyWithdrawn);
    assert_eq!(cancel_source(&mut c, i64::MAX, ID).unwrap_err(), EscrowError::AlreadyWithdrawn);
    assert_eq!(c, before);
}

#[test]
fn withdraw_after_cancel_source_is_rejected() {
    let ctx = created(1_000, 60);
    let mut c = for_cancel(&ctx, MAKER);
    cancel_source(&mut c, 1_060, ID).unwrap();
    let mut w = WithdrawSourceAccounts {
        order_state_source: c.order_state_source,
        resolver: RESOLVER,
        escrow_token_account_source: c.escrow_token_account_source,
        escrow_authority: c.escrow_authority,
    };
    let before = w;
    assert_eq!(
        withdraw_source(&mut w, 1_059, ID, SECRET).unwrap_err(),
        EscrowError::AlreadyCancelled
    );
    assert_eq!(
        withdraw_source(&mut w, 1_061, ID, SECRET).unwrap_err(),
        EscrowError::AlreadyCancelled
    );
    assert_eq!(
        withdraw_source(&mut w, 1_061, ID, WRONG_SECRET).unwrap_err(),
        EscrowError::AlreadyCancelled
    );
    assert_eq!(w, before);
}

#[test]
fn failed_source_calls_fail_the_same_way_again() {
    let ctx = created(1_000, 60);
    let mut w = for_withdraw(&ctx, RESOLVER);
    let first = withdraw_source(&mut w, 1_010, ID, WRONG_SECRET);
    let second = withdraw_source(&mut w, 1_010, ID, WRONG_SECRET);
    assert_eq!(first, second);
    assert_eq!(first.unwrap_err(), EscrowError::InvalidSecret);
    let mut c = for_cancel(&ctx, MAKER);
    let first = cancel_source(&mut c, 1_010, ID);
    let second = cancel_source(&mut c, 1_010, ID);
    assert_eq!(first, second);
    assert_eq!(first.unwrap_err(), EscrowError::TimeoutNotExpired);
    let mut taken = ctx;
    let first = create_order_source(&mut taken, 1, ID, RESOLVER, 1, [0; 32], 1, 1);
    let second = create_order_source(&mut taken, 1, ID, RESOLVER, 1, [0; 32], 1, 1);
    assert_eq!(first, second);
    assert_eq!(taken, ctx);
}

#[test]
fn timeout_path_refunds_at_once() {
    let mut ctx = free_slot();
    let id = [0x59; 32];
    create_order_source(&mut ctx, 500, id, RESOLVER, 100, hash_secret(&SECRET), 0, 5).unwrap();
    let mut c = for_cancel(&ctx, MAKER);
    let (event, paid) = cancel_source(&mut c, 500, id).unwrap();
    assert_eq!(event.order_id, id);
    assert_eq!(paid.recipient, MAKER);
    assert_eq!(paid.asset_amount, 100);
    assert_eq!(paid.safety_deposit, 5);
    assert!(c.order_state_source.is_cancelled);
}

#[test]
fn wrong_secret_leaves_order_withdrawable() {
    let ctx = created(1_000, 60);
    let mut w = for_withdraw(&ctx, RESOLVER);
    let before = w;
    assert_eq!(
        withdraw_source(&mut w, 1_010, ID, WRONG_SECRET).unwrap_err(),
        EscrowError::InvalidSecret
    );
    assert_eq!(w, before);
    let (event, paid) = withdraw_source(&mut w, 1_011, ID, SECRET).unwrap();
    assert_eq!(event.secret, SECRET);
    assert_eq!(paid.asset_amount, 100);
    assert_eq!(paid.safety_deposit, 5);
}

#[test]
fn source_record_takes_203_bytes() {
    assert_eq!(OrderStateSource::LEN, 203);
}

#[test]
fn negative_timeout_puts_the_deadline_in_the_past() {
    let ctx = created(1_000, -10);
    assert_eq!(ctx.order_state_source.unwrap().timeout_duration_seconds, -10);
    let mut w = for_withdraw(&ctx, RESOLVER);
    assert_eq!(
        withdraw_source(&mut w, 1_000, ID, SECRET).unwrap_err(),
        EscrowError::TimeoutExpired
    );
    assert!(withdraw_source(&mut w, 989, ID, SECRET).is_ok());
    let mut c = for_cancel(&ctx, MAKER);
    assert_eq!(cancel_source(&mut c, 989, ID).unwrap_err(), EscrowError::TimeoutNotExpired);
    assert!(cancel_source(&mut c, 990, ID).is_ok());
}

#[test]
fn terminal_state_is_reported_at_any_later_time() {
    let ctx = created(1_000, 3_600);
    let mut w = for_withdraw(&ctx, RESOLVER);
    withdraw_source(&mut w, 1_500, ID, SECRET).unwrap();
    let mut c = CancelSourceAccounts {
        order_state_source: w.order_state_source,
        canceller: STRANGER,
        escrow_token_account_source: w.escrow_token_account_source,
        escrow_authority: w.escrow_authority,
    };
    assert_eq!(cancel_source(&mut c, 1_600, ID).unwrap_err(), EscrowError::AlreadyWithdrawn);
    assert_eq!(cancel_source(&mut c, 4_600, ID).unwrap_err(), EscrowError::AlreadyWithdrawn);

    let mut c = for_cancel(&ctx, MAKER);
    cancel_source(&mut c, 4_600, ID).unwrap();
    let mut w = WithdrawSourceAccounts {
        order_state_source: c.order_state_source,
        resolver: RESOLVER,
        escrow_token_account_source: c.escrow_token_account_source,
        escrow_authority: c.escrow_authority,
    };
    assert_eq!(
        withdraw_source(&mut w, 4_700, ID, SECRET).unwrap_err(),
        EscrowError::AlreadyCancelled
    );
}

#[test]
fn terminal_state_is_reported_before_caller_and_deadline_range() {
    let ctx = created(1_000, 60);
    let mut w = for_withdraw(&ctx, RESOLVER);
    withdraw_source(&mut w, 1_010, ID, SECRET).unwrap();
    w.resolver = STRANGER;
    assert_eq!(
        withdraw_source(&mut w, 1_011, ID, SECRET).unwrap_err(),
        EscrowError::AlreadyWithdrawn
    );
    w.order_state_source.creation_timestamp = i64::MAX;
    assert_eq!(
        withdraw_source(&mut w, 1_011, ID, SECRET).unwrap_err(),
        EscrowError::AlreadyWithdrawn
    );
    let mut other = ID;
    other[0] = 0;
    assert_eq!(
        withdraw_source(&mut w, 1_011, other, SECRET).unwrap_err(),
        EscrowError::OrderDoesNotExist
    );
}
