use fusion_escrow_solana::accounts::HoldingAccount;
use fusion_escrow_solana::authority::derive_authority;
use fusion_escrow_solana::errors::EscrowError;
use fusion_escrow_solana::ledger::{DestinationEscrow, SourceEscrow};
use fusion_escrow_solana::policy::hash_secret;

const X: [u8; 32] = [0x58; 32];
const Y: [u8; 32] = [0x59; 32];
const MAKER: [u8; 32] = [1; 32];
const RESOLVER: [u8; 32] = [2; 32];
const MINT_A: [u8; 32] = [3; 32];
const MINT_B: [u8; 32] = [6; 32];
const STRANGER: [u8; 32] = [5; 32];
const SECRET: [u8; 32] = [0x73; 32];
const WRONG_SECRET: [u8; 32] = [0x74; 32];
const PROGRAM: [u8; 32] = [0x0d; 32];

fn source_with_x(now: i64, timeout: i64) -> SourceEscrow {
    let mut escrow = SourceEscrow::new(PROGRAM);
    escrow
        .create(MAKER, MINT_A, now, X, RESOLVER, 100, hash_secret(&SECRET), timeout, 5)
        .unwrap();
    escrow
}

#[test]
fn store_starts_empty() {
    let escrow = SourceEscrow::new(PROGRAM);
    assert_eq!(escrow.len(), 0);
    assert_eq!(escrow.get(&X), None);
    let escrow = DestinationEscrow::new(PROGRAM);
    assert_eq!(escrow.len(), 0);
    assert_eq!(escrow.get(&X), None);
}

#[test]
fn store_keeps_created_order_under_its_identifier() {
    let escrow = source_with_x(1_000, 60);
    assert_eq!(escrow.len(), 1);
    let entry = escrow.get(&X).unwrap();
    assert_eq!(entry.order.order_id, X);
    assert_eq!(entry.order.maker, MAKER);
    assert_eq!(entry.order.resolver, RESOLVER);
    let authority = derive_authority(&X, &PROGRAM).unwrap();
    assert_eq!(entry.order.escrow_authority_bump, authority.bump);
    assert!(!entry.order.is_withdrawn);
    assert!(!entry.order.is_cancelled);
    assert_eq!(
        entry.holding,
        HoldingAccount {
            mint: MINT_A,
            authority: authority.address,
            asset_balance: 100,
            native_balance: 5
        }
    );
    assert_eq!(escrow.get(&Y), None);
}

#[test]
fn store_rejects_identifier_collision() {
    let mut escrow = source_with_x(1_000, 60);
    let before = escrow.get(&X);
    let r = escrow.create(STRANGER, MINT_B, 2_000, X, STRANGER, 7, [0; 32], 1, 1);
    assert_eq!(r.unwrap_err(), EscrowError::OrderAlreadyExists);
    assert_eq!(escrow.len(), 1);
    assert_eq!(escrow.get(&X), before);
}

#[test]
fn store_rejects_zero_amount_and_stores_nothing() {
    let mut escrow = SourceEscrow::new(PROGRAM);
    let r = escrow.create(MAKER, MINT_A, 0, X, RESOLVER, 0, [0; 32], 1, 1);
    assert_eq!(r.unwrap_err(), EscrowError::ZeroAmount);
    assert_eq!(escrow.len(), 0);
    let mut escrow = DestinationEscrow::new(PROGRAM);
    let r = escrow.fill(RESOLVER, MINT_B, 0, X, MAKER, 1, [0; 32], 1, 0);
    assert_eq!(r.unwrap_err(), EscrowError::ZeroAmount);
    assert_eq!(escrow.len(), 0);
}

#[test]
fn store_rejects_unknown_identifier() {
    let mut escrow = source_with_x(1_000, 60);
    assert_eq!(
        escrow.withdraw(RESOLVER, 1_010, Y, SECRET).unwrap_err(),
        EscrowError::OrderDoesNotExist
    );
    assert_eq!(
        escrow.cancel(MAKER, 1_060, Y).unwrap_err(),
        EscrowError::OrderDoesNotExist
    );
    let mut escrow = DestinationEscrow::new(PROGRAM);
    assert_eq!(
        escrow.withdraw(MAKER, 1_010, X, SECRET).unwrap_err(),
        EscrowError::OrderDoesNotExist
    );
    assert_eq!(
        escrow.cancel(RESOLVER, 1_060, X).unwrap_err(),
        EscrowError::OrderDoesNotExist
    );
}

#[test]
fn store_happy_path_by_identifier() {
    let commitment = hash_secret(&SECRET);
    let mut source = SourceEscrow::new(PROGRAM);
    source.create(MAKER, MINT_A, 1_000, X, RESOLVER, 100, commitment, 600, 5).unwrap();
    let mut destination = DestinationEscrow::new(PROGRAM);
    destination.fill(RESOLVER, MINT_B, 1_010, X, MAKER, 90, commitment, 300, 5).unwrap();

    let (revealed, to_maker) =
        destination.withdraw(MAKER, 1_100, X, SECRET).unwrap();
    assert_eq!(revealed.secret, SECRET);
    assert_eq!(to_maker.recipient, MAKER);
    assert_eq!(to_maker.asset_amount, 90);
    assert_eq!(to_maker.safety_deposit, 5);

    let (_, to_resolver) =
        source.withdraw(RESOLVER, 1_200, X, revealed.secret).unwrap();
    assert_eq!(to_resolver.recipient, RESOLVER);
    assert_eq!(to_resolver.asset_amount, 100);
    assert_eq!(to_resolver.safety_deposit, 5);

    let kept = source.get(&X).unwrap();
    assert!(kept.order.is_withdrawn);
    assert_eq!(kept.holding.asset_balance, 0);
    assert_eq!(kept.holding.native_balance, 0);
    let kept = destination.get(&X).unwrap();
    assert!(kept.order.is_withdrawn_by_maker);
    assert_eq!(kept.holding.asset_balance, 0);
    assert_eq!(kept.holding.native_balance, 0);
}

#[test]
fn store_timeout_path_by_identifier() {
    let mut source = SourceEscrow::new(PROGRAM);
    source
        .create(MAKER, MINT_A, 500, Y, RESOLVER, 100, hash_secret(&SECRET), 0, 5)
        .unwrap();
    let (event, paid) = source.cancel(STRANGER, 500, Y).unwrap();
    assert_eq!(event.canceller, STRANGER);
    assert_eq!(paid.recipient, MAKER);
    assert_eq!(paid.asset_amount, 100);
    assert_eq!(paid.safety_deposit, 5);
    assert!(source.get(&Y).unwrap().order.is_cancelled);
}

#[test]
fn store_wrong_secret_then_right_secret() {
    let mut source = source_with_x(1_000, 60);
    let before = source.get(&X);
    assert_eq!(
        source.withdraw(RESOLVER, 1_010, X, WRONG_SECRET).unwrap_err(),
        EscrowError::InvalidSecret
    );
    assert_eq!(source.get(&X), before);
    assert!(source.withdraw(RESOLVER, 1_011, X, SECRET).is_ok());
}

#[test]
fn store_pays_an_order_once() {
    let mut source = source_with_x(1_000, 60);
    source.withdraw(RESOLVER, 1_010, X, SECRET).unwrap();
    let kept = source.get(&X);
    assert_eq!(
        source.cancel(MAKER, 1_060, X).unwrap_err(),
        EscrowError::AlreadyWithdrawn
    );
    assert_eq!(
        source.cancel(MAKER, 1_020, X).unwrap_err(),
        EscrowError::AlreadyWithdrawn
    );
    assert_eq!(
        source.withdraw(RESOLVER, 1_011, X, SECRET).unwrap_err(),
        EscrowError::AlreadyWithdrawn
    );
    assert_eq!(source.get(&X), kept);

    let mut source = source_with_x(1_000, 60);
    source.cancel(MAKER, 1_060, X).unwrap();
    assert_eq!(
        source.cancel(MAKER, 1_061, X).unwrap_err(),
        EscrowError::AlreadyCancelled
    );
    assert_eq!(
        source.withdraw(RESOLVER, 1_061, X, SECRET).unwrap_err(),
        EscrowError::AlreadyCancelled
    );
    assert_eq!(
        source.withdraw(RESOLVER, 1_059, X, SECRET).unwrap_err(),
        EscrowError::AlreadyCancelled
    );
}

#[test]
fn store_leaves_other_orders_alone() {
    let mut source = source_with_x(1_000, 60);
    source
        .create(MAKER, MINT_A, 1_000, Y, RESOLVER, 40, hash_secret(&SECRET), 60, 2)
        .unwrap();
    assert_eq!(source.len(), 2);
    let other = source.get(&Y);
    source.withdraw(RESOLVER, 1_010, X, SECRET).unwrap();
    assert_eq!(source.get(&Y), other);
    let (_, paid) = source.withdraw(RESOLVER, 1_010, Y, SECRET).unwrap();
    assert_eq!(paid.asset_amount, 40);
    assert_eq!(paid.safety_deposit, 2);
}

#[test]
fn destination_store_gates_callers() {
    let mut destination = DestinationEscrow::new(PROGRAM);
    destination
        .fill(RESOLVER, MINT_B, 2_000, X, MAKER, 90, hash_secret(&SECRET), 30, 5)
        .unwrap();
    assert_eq!(
        destination.fill(RESOLVER, MINT_B, 2_000, X, MAKER, 90, [0; 32], 30, 5)
            .unwrap_err(),
        EscrowError::OrderAlreadyExists
    );
    assert_eq!(
        destination.withdraw(RESOLVER, 2_010, X, SECRET).unwrap_err(),
        EscrowError::CallerNotMaker
    );
    assert_eq!(
        destination.cancel(MAKER, 2_030, X).unwrap_err(),
        EscrowError::CallerNotResolver
    );
    assert_eq!(
        destination.cancel(RESOLVER, 2_029, X).unwrap_err(),
        EscrowError::TimeoutNotExpired
    );
    let (event, paid) = destination.cancel(RESOLVER, 2_030, X).unwrap();
    assert_eq!(event.resolver, RESOLVER);
    assert_eq!(paid.recipient, RESOLVER);
    assert_eq!(paid.asset_amount, 90);
    assert_eq!(
        destination.cancel(RESOLVER, 2_031, X).unwrap_err(),
        EscrowError::AlreadyCancelledByResolver
    );
}

#[test]
fn store_puts_each_order_under_its_own_derived_authority() {
    let mut source = source_with_x(1_000, 60);
    source.create(MAKER, MINT_A, 1_000, Y, RESOLVER, 40, hash_secret(&SECRET), 60, 2).unwrap();
    let x = source.get(&X).unwrap();
    let y = source.get(&Y).unwrap();
    assert_eq!(x.holding.authority, derive_authority(&X, &PROGRAM).unwrap().address);
    assert_eq!(y.holding.authority, derive_authority(&Y, &PROGRAM).unwrap().address);
    assert_ne!(x.holding.authority, y.holding.authority);

    let mut elsewhere = SourceEscrow::new([0x0e; 32]);
    elsewhere.create(MAKER, MINT_A, 1_000, X, RESOLVER, 100, hash_secret(&SECRET), 60, 5).unwrap();
    assert_ne!(elsewhere.get(&X).unwrap().holding.authority, x.holding.authority);

    let mut destination = DestinationEscrow::new(PROGRAM);
    destination.fill(RESOLVER, MINT_B, 1_000, X, MAKER, 90, hash_secret(&SECRET), 60, 5).unwrap();
    let filled = destination.get(&X).unwrap();
    assert_eq!(filled.holding.authority, x.holding.authority);
    assert_eq!(filled.order.escrow_authority_bump, x.order.escrow_authority_bump);
}

#[test]
fn store_reports_the_terminal_state_at_any_later_time() {
    let mut source = source_with_x(1_000, 3_600);
    source.withdraw(RESOLVER, 1_500, X, SECRET).unwrap();
    assert_eq!(source.cancel(MAKER, 1_600, X).unwrap_err(), EscrowError::AlreadyWithdrawn);
    assert_eq!(source.cancel(STRANGER, 4_600, X).unwrap_err(), EscrowError::AlreadyWithdrawn);

    let mut source = source_with_x(1_000, 3_600);
    source.cancel(MAKER, 4_600, X).unwrap();
    assert_eq!(
        source.withdraw(RESOLVER, 4_700, X, SECRET).unwrap_err(),
        EscrowError::AlreadyCancelled
    );
    assert_eq!(
        source.withdraw(STRANGER, 4_700, X, WRONG_SECRET).unwrap_err(),
        EscrowError::AlreadyCancelled
    );

    let mut destination = DestinationEscrow::new(PROGRAM);
    destination.fill(RESOLVER, MINT_B, 2_000, X, MAKER, 90, hash_secret(&SECRET), 30, 5).unwrap();
    destination.withdraw(MAKER, 2_010, X, SECRET).unwrap();
    assert_eq!(
        destination.cancel(RESOLVER, 2_020, X).unwrap_err(),
        EscrowError::AlreadyWithdrawnByMaker
    );
    let mut destination = DestinationEscrow::new(PROGRAM);
    destination.fill(RESOLVER, MINT_B, 2_000, X, MAKER, 90, hash_secret(&SECRET), 30, 5).unwrap();
    destination.cancel(RESOLVER, 2_030, X).unwrap();
    assert_eq!(
        destination.withdraw(MAKER, 2_031, X, SECRET).unwrap_err(),
        EscrowError::AlreadyCancelledByResolver
    );
}
