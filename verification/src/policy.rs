//! The hashlock and the timelock: the checks both sides share.

use vstd::prelude::*;
use crate::accounts::{HoldingAccount, Payout};
use crate::errors::EscrowError;
use crate::state::Address;

verus! {

/// The Keccak-256 digest of a byte string.
pub uninterp spec fn keccak256(data: Seq<u8>) -> Seq<u8>;

/// Calls `anchor_lang::solana_program::keccak::hash` on the 32 bytes and
/// takes the digest's bytes. Trusted: the result is the Keccak-256 digest
/// of the input, a function of the input alone.
#[verifier::external_body]
fn keccak_digest(secret: &[u8; 32]) -> (digest: [u8; 32])
    ensures
        digest@ == keccak256(secret@),
{
    anchor_lang::solana_program::keccak::hash(secret).to_bytes()
}

/// Whether two 32-byte strings hold the same bytes.
pub fn bytes_equal(a: &[u8; 32], b: &[u8; 32]) -> (same: bool)
    ensures
        same == (a@ == b@),
{
    let mut i: usize = 0;
    while i < 32
        invariant
            i <= 32,
            forall|j: int| 0 <= j < i ==> a@[j] == b@[j],
        decreases 32 - i,
    {
        if a[i] != b[i] {
            return false;
        }
        i += 1;
    }
    proof {
        assert(a@ =~= b@);
    }
    true
}

/// The digest of a secret, as the orders commit to it.
pub fn hash_secret(secret: &[u8; 32]) -> (digest: [u8; 32])
    ensures
        digest@ == keccak256(secret@),
{
    keccak_digest(secret)
}

/// Whether a digest is the one an order committed to.
pub fn digest_matches(digest: &[u8; 32], committed: &[u8; 32]) -> (matches: bool)
    ensures
        matches == (digest@ == committed@),
{
    bytes_equal(digest, committed)
}

/// Whether a secret hashes to the committed digest.
pub fn secret_matches(secret: &[u8; 32], committed: &[u8; 32]) -> (matches: bool)
    ensures
        matches == (keccak256(secret@) == committed@),
{
    let digest = keccak_digest(secret);
    digest_matches(&digest, committed)
}

/// Whether the sum of creation time and timeout is a timestamp.
pub open spec fn deadline_fits(created_at: i64, timeout_seconds: i64) -> bool {
    i64::MIN <= created_at + timeout_seconds <= i64::MAX
}

/// Creation time plus timeout, or `None` where the sum is no timestamp.
pub fn deadline(created_at: i64, timeout_seconds: i64) -> (at: Option<i64>)
    ensures
        at.is_some() == deadline_fits(created_at, timeout_seconds),
        at.is_some() ==> at.unwrap() == created_at + timeout_seconds,
{
    created_at.checked_add(timeout_seconds)
}

/// Withdrawal is open strictly before the deadline.
pub fn deadline_not_passed(now: i64, deadline: i64) -> (open: bool)
    ensures
        open == (now < deadline),
{
    now < deadline
}

/// Refund is open from the deadline on, the deadline included.
pub fn deadline_passed(now: i64, deadline: i64) -> (due: bool)
    ensures
        due == (now >= deadline),
{
    now >= deadline
}

/// Why a release of `amount` and `deposit` from a holding account is
/// refused, if it is: the asset leg is tried first, then the native one.
pub open spec fn release_rejection(
    holding: HoldingAccount,
    authority: Address,
    mint: Address,
    amount: u64,
    deposit: u64,
) -> Option<EscrowError> {
    if holding.authority@ != authority@ || holding.mint@ != mint@ || holding.asset_balance
        < amount {
        Some(EscrowError::TokenTransferFailed)
    } else if holding.native_balance < deposit {
        Some(EscrowError::InsufficientEscrowBalance)
    } else {
        None
    }
}

/// What a release pays, where it is not refused.
pub open spec fn release_payout(
    holding: HoldingAccount,
    recipient: Address,
    amount: u64,
    deposit: u64,
) -> Payout {
    Payout {
        recipient,
        asset_amount: amount,
        safety_deposit: deposit,
        residual_asset: (holding.asset_balance - amount) as u64,
        residual_native: (holding.native_balance - deposit) as u64,
    }
}

/// Empties a holding account towards `recipient`: the order's amount and
/// deposit, and whatever the account held beyond them. Only the account's
/// own authority, presented for the order's asset, may do so; a refused
/// release changes nothing.
pub fn release(
    holding: &mut HoldingAccount,
    authority: &Address,
    mint: &Address,
    amount: u64,
    deposit: u64,
    recipient: Address,
) -> (paid: Result<Payout, EscrowError>)
    ensures
        match release_rejection(*old(holding), *authority, *mint, amount, deposit) {
            Some(e) => paid == Err::<Payout, EscrowError>(e) && *final(holding) == *old(holding),
            None => paid == Ok::<Payout, EscrowError>(
                release_payout(*old(holding), recipient, amount, deposit),
            ) && final(holding).is_empty() && final(holding).mint == old(holding).mint
                && final(holding).authority == old(holding).authority,
        },
{
    if !bytes_equal(&holding.authority, authority) || !bytes_equal(&holding.mint, mint)
        || holding.asset_balance < amount {
        return Err(EscrowError::TokenTransferFailed);
    }
    if holding.native_balance < deposit {
        return Err(EscrowError::InsufficientEscrowBalance);
    }
    let paid = Payout {
        recipient,
        asset_amount: amount,
        safety_deposit: deposit,
        residual_asset: holding.asset_balance - amount,
        residual_native: holding.native_balance - deposit,
    };
    holding.asset_balance = 0;
    holding.native_balance = 0;
    Ok(paid)
}

} // verus!
