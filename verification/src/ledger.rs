//! The orders of each ledger side, kept by identifier. Every operation
//! loads the order under its identifier, decides, and stores what was
//! decided, in one step. A terminated order keeps its record, with its
//! flag set, so its identifier is never taken again and a late call meets
//! the flag. The holding account of an order is under the authority
//! derived from its identifier, and is released to that authority alone.

use vstd::prelude::*;
use crate::accounts::{
    CancelDestinationAccounts, CancelSourceAccounts, CreateOrderSourceAccounts,
    FillOrderDestinationAccounts, HoldingAccount, Payout, WithdrawDestinationAccounts,
    WithdrawSourceAccounts,
};
use crate::authority::{
    authority_seeds, derive_authority, is_custody_authority, program_address, CustodyAuthority,
};
use crate::destination::{
    cancel_destination, cancel_destination_after, cancel_destination_outcome,
    cancel_destination_rejection, fill_destination_after, fill_destination_outcome,
    fill_order_destination, withdraw_destination, withdraw_destination_after,
    withdraw_destination_outcome, withdraw_destination_rejection,
};
use crate::errors::EscrowError;
use crate::events::{
    MakerWithdrawnDestination, OrderCancelledByResolverDestination, OrderCancelledSource,
    OrderCreatedSource, OrderFilledDestination, OrderWithdrawnSource,
};
use crate::policy::{bytes_equal, deadline_fits, keccak256};
use crate::source::{
    cancel_source, cancel_source_after, cancel_source_outcome, cancel_source_rejection,
    create_order_source, create_source_after, create_source_outcome, withdraw_source,
    withdraw_source_after, withdraw_source_outcome, withdraw_source_rejection,
};
use crate::state::{Address, OrderStateDestination, OrderStateSource};

verus! {

/// No identifier occurs twice.
pub open spec fn distinct(identifiers: Seq<Seq<u8>>) -> bool {
    forall|i: int, j: int|
        0 <= i < j < identifiers.len() ==> #[trigger] identifiers[i] != #[trigger] identifiers[j]
}

/// Whether `order_id` stands at `i`.
pub open spec fn held_at(identifiers: Seq<Seq<u8>>, order_id: Seq<u8>, i: int) -> bool {
    0 <= i < identifiers.len() && identifiers[i] == order_id
}

/// Where `order_id` stands, if it does.
pub open spec fn position_of(identifiers: Seq<Seq<u8>>, order_id: Seq<u8>) -> Option<int> {
    if exists|i: int| held_at(identifiers, order_id, i) {
        Some(choose|i: int| held_at(identifiers, order_id, i))
    } else {
        None
    }
}

/// What a call comes to where the holding account's authority is not the
/// derived one: the release is refused on its asset leg, and every earlier
/// refusal stands.
pub open spec fn without_custody(rejection: Option<EscrowError>) -> Option<EscrowError> {
    match rejection {
        None => Some(EscrowError::TokenTransferFailed),
        Some(EscrowError::InsufficientEscrowBalance) => Some(EscrowError::TokenTransferFailed),
        Some(e) => Some(e),
    }
}

/// Among distinct identifiers, the place where one stands is its position.
pub proof fn position_is_unique(identifiers: Seq<Seq<u8>>, order_id: Seq<u8>, i: int)
    requires
        distinct(identifiers),
        held_at(identifiers, order_id, i),
    ensures
        position_of(identifiers, order_id) == Some(i),
{
    let chosen = choose|k: int| held_at(identifiers, order_id, k);
    assert(held_at(identifiers, order_id, chosen));
    assert(identifiers[chosen] == identifiers[i]);
}

/// A free identifier, once appended, stands last, and every other
/// identifier stands where it stood.
pub proof fn push_keeps_positions(identifiers: Seq<Seq<u8>>, order_id: Seq<u8>)
    requires
        distinct(identifiers),
        position_of(identifiers, order_id) is None,
    ensures
        distinct(identifiers.push(order_id)),
        position_of(identifiers.push(order_id), order_id) == Some(identifiers.len() as int),
        forall|other: Seq<u8>|
            other != order_id ==> #[trigger] position_of(identifiers.push(order_id), other)
                == position_of(identifiers, other),
{
    let after = identifiers.push(order_id);
    assert forall|k: int| 0 <= k < identifiers.len() implies identifiers[k] != order_id by {
        assert(!held_at(identifiers, order_id, k));
    }
    assert(held_at(after, order_id, identifiers.len() as int));
    position_is_unique(after, order_id, identifiers.len() as int);
    assert forall|other: Seq<u8>| other != order_id implies #[trigger] position_of(after, other)
        == position_of(identifiers, other) by {
        if exists|k: int| held_at(identifiers, other, k) {
            let k = choose|k: int| held_at(identifiers, other, k);
            assert(held_at(after, other, k));
            position_is_unique(after, other, k);
        } else {
            assert forall|k: int| !held_at(after, other, k) by {
                if 0 <= k < identifiers.len() {
                    assert(!held_at(identifiers, other, k));
                }
            }
        }
    }
}

/// One source order with its holding account.
#[derive(Clone, Copy, Debug, PartialEq, Eq)]
pub struct SourceEntry {
    pub order: OrderStateSource,
    pub holding: HoldingAccount,
}

impl SourceEntry {
    /// The accounts of a withdrawal of this order by `caller`, with the
    /// holding account's own authority presented.
    pub open spec fn withdraw_accounts(self, caller: Address) -> WithdrawSourceAccounts {
        WithdrawSourceAccounts {
            order_state_source: self.order,
            resolver: caller,
            escrow_token_account_source: self.holding,
            escrow_authority: self.holding.authority,
        }
    }

    /// The accounts of a refund of this order asked for by `caller`, with
    /// the holding account's own authority presented.
    pub open spec fn cancel_accounts(self, caller: Address) -> CancelSourceAccounts {
        CancelSourceAccounts {
            order_state_source: self.order,
            canceller: caller,
            escrow_token_account_source: self.holding,
            escrow_authority: self.holding.authority,
        }
    }

    /// Whether the holding account's authority and the stored index are
    /// the ones derived for the order.
    pub open spec fn in_custody(self, derived: Option<(Seq<u8>, u8)>) -> bool {
        match derived {
            Some((address, bump)) => address == self.holding.authority@ && bump
                == self.order.escrow_authority_bump,
            None => false,
        }
    }
}

/// The source side of the escrow under one program: every order the
/// makers opened.
pub struct SourceEscrow {
    program_id: Address,
    entries: Vec<SourceEntry>,
}

impl View for SourceEscrow {
    type V = Seq<SourceEntry>;

    closed spec fn view(&self) -> Seq<SourceEntry> {
        self.entries@
    }
}

impl SourceEscrow {
    /// The program under which every authority is derived.
    pub closed spec fn program_id(&self) -> Address {
        self.program_id
    }

    /// The identifiers of the orders, in the order they were opened.
    pub open spec fn identifiers(&self) -> Seq<Seq<u8>> {
        Seq::new(self@.len(), |i: int| self@[i].order.order_id@)
    }

    /// No two orders share an identifier.
    pub open spec fn wf(&self) -> bool {
        distinct(self.identifiers())
    }

    /// Where the order under `order_id` is kept, if there is one.
    pub open spec fn position(&self, order_id: Seq<u8>) -> Option<int> {
        position_of(self.identifiers(), order_id)
    }

    /// The order under `order_id` with its holding account, if there is one.
    pub open spec fn entry(&self, order_id: Seq<u8>) -> Option<SourceEntry> {
        match self.position(order_id) {
            Some(i) => Some(self@[i]),
            None => None,
        }
    }

    /// What the ledger derives as the authority of `order_id`.
    pub open spec fn derived(&self, order_id: Seq<u8>) -> Option<(Seq<u8>, u8)> {
        program_address(authority_seeds(order_id), self.program_id()@)
    }

    /// The accounts that `create` presents for a new order: both slots free.
    pub open spec fn create_accounts(
        maker: Address,
        token_mint_source: Address,
        authority: CustodyAuthority,
    ) -> CreateOrderSourceAccounts {
        CreateOrderSourceAccounts {
            order_state_source: None,
            maker,
            escrow_token_account_source: None,
            escrow_authority: authority.address,
            escrow_authority_bump: authority.bump,
            token_mint_source,
        }
    }

    /// Why `create` refuses, if it does: the identifier is taken, no
    /// authority can be derived for it, or the order itself is refused.
    pub open spec fn create_rejection(
        &self,
        order_id: Seq<u8>,
        now: i64,
        amount: u64,
        timeout_duration_seconds: i64,
        safety_deposit_sol: u64,
    ) -> Option<EscrowError> {
        if self.position(order_id) is Some {
            Some(EscrowError::OrderAlreadyExists)
        } else if self.derived(order_id) is None {
            Some(EscrowError::TokenTransferFailed)
        } else if amount == 0 || safety_deposit_sol == 0 {
            Some(EscrowError::ZeroAmount)
        } else if !deadline_fits(now, timeout_duration_seconds) {
            Some(EscrowError::Overflow)
        } else {
            None
        }
    }

    /// Why `withdraw` refuses the order kept at `i`, if it does: as
    /// `withdraw_source` does, with the holding account closed to an
    /// authority that is not the derived one.
    pub open spec fn withdraw_rejection(
        &self,
        i: int,
        caller: Address,
        now: i64,
        order_id: [u8; 32],
        digest: Seq<u8>,
    ) -> Option<EscrowError> {
        let rejection = withdraw_source_rejection(
            self@[i].withdraw_accounts(caller),
            now,
            order_id,
            digest,
        );
        if self@[i].in_custody(self.derived(order_id@)) {
            rejection
        } else {
            without_custody(rejection)
        }
    }

    /// Why `cancel` refuses the order kept at `i`, if it does: as
    /// `cancel_source` does, with the holding account closed to an
    /// authority that is not the derived one.
    pub open spec fn cancel_rejection(
        &self,
        i: int,
        caller: Address,
        now: i64,
        order_id: [u8; 32],
    ) -> Option<EscrowError> {
        let rejection = cancel_source_rejection(
            self@[i].cancel_accounts(caller),
            now,
            order_id,
        );
        if self@[i].in_custody(self.derived(order_id@)) {
            rejection
        } else {
            without_custody(rejection)
        }
    }

    /// An escrow with no orders, under the program `program_id`.
    pub fn new(program_id: Address) -> (escrow: Self)
        ensures
            escrow@ == Seq::<SourceEntry>::empty(),
            escrow.program_id() == program_id,
            escrow.wf(),
    {
        SourceEscrow { program_id, entries: Vec::new() }
    }

    /// How many orders were ever opened.
    pub fn len(&self) -> (n: usize)
        ensures
            n == self@.len(),
    {
        self.entries.len()
    }

    fn find(&self, order_id: &[u8; 32]) -> (at: Option<usize>)
        requires
            self.wf(),
        ensures
            match at {
                Some(i) => self.position(order_id@) == Some(i as int) && i < self@.len()
                    && self@[i as int].order.order_id@ == order_id@,
                None => self.position(order_id@) is None,
            },
    {
        let mut i: usize = 0;
        while i < self.entries.len()
            invariant
                i <= self@.len(),
                self@ == self.entries@,
                self.wf(),
                forall|j: int| 0 <= j < i ==> !held_at(self.identifiers(), order_id@, j),
            decreases self@.len() - i,
        {
            if bytes_equal(&self.entries[i].order.order_id, order_id) {
                proof {
                    position_is_unique(self.identifiers(), order_id@, i as int);
                }
                return Some(i);
            }
            i += 1;
        }
        None
    }

    /// The order under `order_id` with its holding account, if there is one.
    pub fn get(&self, order_id: &[u8; 32]) -> (found: Option<SourceEntry>)
        requires
            self.wf(),
        ensures
            found == self.entry(order_id@),
    {
        match self.find(order_id) {
            Some(i) => Some(self.entries[i]),
            None => None,
        }
    }

    /// The maker opens an order under a free identifier, at time `now`.
    ///
    /// Refused, with nothing stored, as `create_rejection` says. Otherwise
    /// the authority derived for the identifier takes the holding account,
    /// and the order is stored as `create_order_source` leaves it. No other
    /// order changes.
    pub fn create(
        &mut self,
        maker: Address,
        token_mint_source: Address,
        now: i64,
        order_id: [u8; 32],
        resolver_address: Address,
        amount: u64,
        hash_secret: [u8; 32],
        timeout_duration_seconds: i64,
        safety_deposit_sol: u64,
    ) -> (created: Result<OrderCreatedSource, EscrowError>)
        requires
            old(self).wf(),
        ensures
            final(self).wf(),
            final(self).program_id() == old(self).program_id(),
            match old(self).create_rejection(
                order_id@,
                now,
                amount,
                timeout_duration_seconds,
                safety_deposit_sol,
            ) {
                Some(e) => created == Err::<OrderCreatedSource, EscrowError>(e) && final(self)@
                    == old(self)@,
                None => {
                    let stored = final(self)@.last();
                    let authority = CustodyAuthority {
                        address: stored.holding.authority,
                        bump: stored.order.escrow_authority_bump,
                    };
                    let ctx = Self::create_accounts(maker, token_mint_source, authority);
                    let after = create_source_after(
                        ctx,
                        now,
                        order_id,
                        resolver_address,
                        amount,
                        hash_secret,
                        timeout_duration_seconds,
                        safety_deposit_sol,
                    );
                    &&& stored.in_custody(old(self).derived(order_id@))
                    &&& created == create_source_outcome(
                        ctx,
                        now,
                        order_id,
                        resolver_address,
                        amount,
                        hash_secret,
                        timeout_duration_seconds,
                        safety_deposit_sol,
                    )
                    &&& final(self)@ == old(self)@.push(
                        SourceEntry {
                            order: after.order_state_source.unwrap(),
                            holding: after.escrow_token_account_source.unwrap(),
                        },
                    )
                },
            },
    {
        if self.find(&order_id).is_some() {
            return Err(EscrowError::OrderAlreadyExists);
        }
        let authority = match derive_authority(&order_id, &self.program_id) {
            Some(authority) => authority,
            None => {
                return Err(EscrowError::TokenTransferFailed);
            },
        };
        let mut ctx = CreateOrderSourceAccounts {
            order_state_source: None,
            maker,
            escrow_token_account_source: None,
            escrow_authority: authority.address,
            escrow_authority_bump: authority.bump,
            token_mint_source,
        };
        let created = create_order_source(
            &mut ctx,
            now,
            order_id,
            resolver_address,
            amount,
            hash_secret,
            timeout_duration_seconds,
            safety_deposit_sol,
        );
        if created.is_ok() {
            match (ctx.order_state_source, ctx.escrow_token_account_source) {
                (Some(order), Some(holding)) => {
                    let ghost before = self.identifiers();
                    self.entries.push(SourceEntry { order, holding });
                    proof {
                        assert(self.identifiers() =~= before.push(order_id@));
                        push_keeps_positions(before, order_id@);
                    }
                },
                _ => {},
            }
        }
        created
    }

    /// The resolver takes the order under `order_id` by revealing the
    /// secret, at time `now`.
    ///
    /// Where no order is kept under the identifier the error is
    /// `OrderDoesNotExist`; otherwise the call is refused as
    /// `withdraw_rejection` says, or the outcome is that of
    /// `withdraw_source` and what it leaves is stored. No other order
    /// changes.
    pub fn withdraw(
        &mut self,
        caller: Address,
        now: i64,
        order_id: [u8; 32],
        secret: [u8; 32],
    ) -> (withdrawn: Result<(OrderWithdrawnSource, Payout), EscrowError>)
        requires
            old(self).wf(),
        ensures
            final(self).wf(),
            final(self).program_id() == old(self).program_id(),
            match old(self).position(order_id@) {
                None => withdrawn == Err::<
                    (OrderWithdrawnSource, Payout),
                    EscrowError,
                >(EscrowError::OrderDoesNotExist) && final(self)@ == old(self)@,
                Some(i) => {
                    let ctx = old(self)@[i].withdraw_accounts(caller);
                    let digest = keccak256(secret@);
                    let after = withdraw_source_after(ctx, now, order_id, digest);
                    match old(self).withdraw_rejection(i, caller, now, order_id, digest) {
                        Some(e) => withdrawn == Err::<
                            (OrderWithdrawnSource, Payout),
                            EscrowError,
                        >(e) && final(self)@ == old(self)@,
                        None => withdrawn == withdraw_source_outcome(
                            ctx,
                            now,
                            order_id,
                            secret,
                            digest,
                        ) && final(self)@ == old(self)@.update(
                            i,
                            SourceEntry {
                                order: after.order_state_source,
                                holding: after.escrow_token_account_source,
                            },
                        ),
                    }
                },
            },
    {
        let i = match self.find(&order_id) {
            Some(i) => i,
            None => {
                return Err(EscrowError::OrderDoesNotExist);
            },
        };
        let entry = self.entries[i];
        let proved = is_custody_authority(
            &order_id,
            &self.program_id,
            &entry.holding.authority,
            entry.order.escrow_authority_bump,
        );
        let mut ctx = WithdrawSourceAccounts {
            order_state_source: entry.order,
            resolver: caller,
            escrow_token_account_source: entry.holding,
            escrow_authority: entry.holding.authority,
        };
        let withdrawn = withdraw_source(&mut ctx, now, order_id, secret);
        if !proved {
            return match withdrawn {
                Ok(_) => Err(EscrowError::TokenTransferFailed),
                Err(EscrowError::InsufficientEscrowBalance) => Err(
                    EscrowError::TokenTransferFailed,
                ),
                Err(e) => Err(e),
            };
        }
        let ghost before = self.identifiers();
        self.entries.set(
            i,
            SourceEntry {
                order: ctx.order_state_source,
                holding: ctx.escrow_token_account_source,
            },
        );
        proof {
            assert(self.identifiers() =~= before);
            if withdrawn is Err {
                assert(self@ =~= old(self)@);
            }
        }
        withdrawn
    }

    /// Anyone has the order under `order_id` refunded to its maker, at time
    /// `now`.
    ///
    /// Where no order is kept under the identifier the error is
    /// `OrderDoesNotExist`; otherwise the call is refused as
    /// `cancel_rejection` says, or the outcome is that of `cancel_source`
    /// and what it leaves is stored. No other order changes.
    pub fn cancel(
        &mut self,
        caller: Address,
        now: i64,
        order_id: [u8; 32],
    ) -> (cancelled: Result<(OrderCancelledSource, Payout), EscrowError>)
        requires
            old(self).wf(),
        ensures
            final(self).wf(),
            final(self).program_id() == old(self).program_id(),
            match old(self).position(order_id@) {
                None => cancelled == Err::<
                    (OrderCancelledSource, Payout),
                    EscrowError,
                >(EscrowError::OrderDoesNotExist) && final(self)@ == old(self)@,
                Some(i) => {
                    let ctx = old(self)@[i].cancel_accounts(caller);
                    let after = cancel_source_after(ctx, now, order_id);
                    match old(self).cancel_rejection(i, caller, now, order_id) {
                        Some(e) => cancelled == Err::<
                            (OrderCancelledSource, Payout),
                            EscrowError,
                        >(e) && final(self)@ == old(self)@,
                        None => cancelled == cancel_source_outcome(ctx, now, order_id)
                            && final(self)@ == old(self)@.update(
                            i,
                            SourceEntry {
                                order: after.order_state_source,
                                holding: after.escrow_token_account_source,
                            },
                        ),
                    }
                },
            },
    {
        let i = match self.find(&order_id) {
            Some(i) => i,
            None => {
                return Err(EscrowError::OrderDoesNotExist);
            },
        };
        let entry = self.entries[i];
        let proved = is_custody_authority(
            &order_id,
            &self.program_id,
            &entry.holding.authority,
            entry.order.escrow_authority_bump,
        );
        let mut ctx = CancelSourceAccounts {
            order_state_source: entry.order,
            canceller: caller,
            escrow_token_account_source: entry.holding,
            escrow_authority: entry.holding.authority,
        };
        let cancelled = cancel_source(&mut ctx, now, order_id);
        if !proved {
            return match cancelled {
                Ok(_) => Err(EscrowError::TokenTransferFailed),
                Err(EscrowError::InsufficientEscrowBalance) => Err(
                    EscrowError::TokenTransferFailed,
                ),
                Err(e) => Err(e),
            };
        }
        let ghost before = self.identifiers();
        self.entries.set(
            i,
            SourceEntry {
                order: ctx.order_state_source,
                holding: ctx.escrow_token_account_source,
            },
        );
        proof {
            assert(self.identifiers() =~= before);
            if cancelled is Err {
                assert(self@ =~= old(self)@);
            }
        }
        cancelled
    }
}

/// One destination order with its holding account.
#[derive(Clone, Copy, Debug, PartialEq, Eq)]
pub struct DestinationEntry {
    pub order: OrderStateDestination,
    pub holding: HoldingAccount,
}

impl DestinationEntry {
    /// The accounts of a withdrawal of this order by `caller`, with the
    /// holding account's own authority presented.
    pub open spec fn withdraw_accounts(self, caller: Address) -> WithdrawDestinationAccounts {
        WithdrawDestinationAccounts {
            order_state_destination: self.order,
            maker_on_destination_chain_signer: caller,
            escrow_token_account_destination: self.holding,
            escrow_authority: self.holding.authority,
        }
    }

    /// The accounts of a refund of this order asked for by `caller`, with
    /// the holding account's own authority presented.
    pub open spec fn cancel_accounts(self, caller: Address) -> CancelDestinationAccounts {
        CancelDestinationAccounts {
            order_state_destination: self.order,
            resolver: caller,
            escrow_token_account_destination: self.holding,
            escrow_authority: self.holding.authority,
        }
    }

    /// Whether the holding account's authority and the stored index are
    /// the ones derived for the order.
    pub open spec fn in_custody(self, derived: Option<(Seq<u8>, u8)>) -> bool {
        match derived {
            Some((address, bump)) => address == self.holding.authority@ && bump
                == self.order.escrow_authority_bump,
            None => false,
        }
    }
}

/// The destination side of the escrow under one program: every order the
/// resolvers filled.
pub struct DestinationEscrow {
    program_id: Address,
    entries: Vec<DestinationEntry>,
}

impl View for DestinationEscrow {
    type V = Seq<DestinationEntry>;

    closed spec fn view(&self) -> Seq<DestinationEntry> {
        self.entries@
    }
}

impl DestinationEscrow {
    /// The program under which every authority is derived.
    pub closed spec fn program_id(&self) -> Address {
        self.program_id
    }

    /// The identifiers of the orders, in the order they were filled.
    pub open spec fn identifiers(&self) -> Seq<Seq<u8>> {
        Seq::new(self@.len(), |i: int| self@[i].order.order_id@)
    }

    /// No two orders share an identifier.
    pub open spec fn wf(&self) -> bool {
        distinct(self.identifiers())
    }

    /// Where the order under `order_id` is kept, if there is one.
    pub open spec fn position(&self, order_id: Seq<u8>) -> Option<int> {
        position_of(self.identifiers(), order_id)
    }

    /// The order under `order_id` with its holding account, if there is one.
    pub open spec fn entry(&self, order_id: Seq<u8>) -> Option<DestinationEntry> {
        match self.position(order_id) {
            Some(i) => Some(self@[i]),
            None => None,
        }
    }

    /// What the ledger derives as the authority of `order_id`.
    pub open spec fn derived(&self, order_id: Seq<u8>) -> Option<(Seq<u8>, u8)> {
        program_address(authority_seeds(order_id), self.program_id()@)
    }

    /// The accounts that `fill` presents for a new order: both slots free.
    pub open spec fn fill_accounts(
        resolver: Address,
        token_mint_destination: Address,
        authority: CustodyAuthority,
    ) -> FillOrderDestinationAccounts {
        FillOrderDestinationAccounts {
            order_state_destination: None,
            resolver,
            escrow_token_account_destination: None,
            escrow_authority: authority.address,
            escrow_authority_bump: authority.bump,
            token_mint_destination,
        }
    }

    /// Why `fill` refuses, if it does: the identifier is taken, no
    /// authority can be derived for it, or the order itself is refused.
    pub open spec fn fill_rejection(
        &self,
        order_id: Seq<u8>,
        now: i64,
        amount_on_destination: u64,
        timeout_duration_seconds: i64,
        safety_deposit_sol: u64,
    ) -> Option<EscrowError> {
        if self.position(order_id) is Some {
            Some(EscrowError::OrderAlreadyExists)
        } else if self.derived(order_id) is None {
            Some(EscrowError::TokenTransferFailed)
        } else if amount_on_destination == 0 || safety_deposit_sol == 0 {
            Some(EscrowError::ZeroAmount)
        } else if !deadline_fits(now, timeout_duration_seconds) {
            Some(EscrowError::Overflow)
        } else {
            None
        }
    }

    /// Why `withdraw` refuses the order kept at `i`, if it does: as
    /// `withdraw_destination` does, with the holding account closed to an
    /// authority that is not the derived one.
    pub open spec fn withdraw_rejection(
        &self,
        i: int,
        caller: Address,
        now: i64,
        order_id: [u8; 32],
        digest: Seq<u8>,
    ) -> Option<EscrowError> {
        let rejection = withdraw_destination_rejection(
            self@[i].withdraw_accounts(caller),
            now,
            order_id,
            digest,
        );
        if self@[i].in_custody(self.derived(order_id@)) {
            rejection
        } else {
            without_custody(rejection)
        }
    }

    /// Why `cancel` refuses the order kept at `i`, if it does: as
    /// `cancel_destination` does, with the holding account closed to an
    /// authority that is not the derived one.
    pub open spec fn cancel_rejection(
        &self,
        i: int,
        caller: Address,
        now: i64,
        order_id: [u8; 32],
    ) -> Option<EscrowError> {
        let rejection = cancel_destination_rejection(
            self@[i].cancel_accounts(caller),
            now,
            order_id,
        );
        if self@[i].in_custody(self.derived(order_id@)) {
            rejection
        } else {
            without_custody(rejection)
        }
    }

    /// An escrow with no orders, under the program `program_id`.
    pub fn new(program_id: Address) -> (escrow: Self)
        ensures
            escrow@ == Seq::<DestinationEntry>::empty(),
            escrow.program_id() == program_id,
            escrow.wf(),
    {
        DestinationEscrow { program_id, entries: Vec::new() }
    }

    /// How many orders were ever filled.
    pub fn len(&self) -> (n: usize)
        ensures
            n == self@.len(),
    {
        self.entries.len()
    }

    fn find(&self, order_id: &[u8; 32]) -> (at: Option<usize>)
        requires
            self.wf(),
        ensures
            match at {
                Some(i) => self.position(order_id@) == Some(i as int) && i < self@.len()
                    && self@[i as int].order.order_id@ == order_id@,
                None => self.position(order_id@) is None,
            },
    {
        let mut i: usize = 0;
        while i < self.entries.len()
            invariant
                i <= self@.len(),
                self@ == self.entries@,
                self.wf(),
                forall|j: int| 0 <= j < i ==> !held_at(self.identifiers(), order_id@, j),
            decreases self@.len() - i,
        {
            if bytes_equal(&self.entries[i].order.order_id, order_id) {
                proof {
                    position_is_unique(self.identifiers(), order_id@, i as int);
                }
                return Some(i);
            }
            i += 1;
        }
        None
    }

    /// The order under `order_id` with its holding account, if there is one.
    pub fn get(&self, order_id: &[u8; 32]) -> (found: Option<DestinationEntry>)
        requires
            self.wf(),
        ensures
            found == self.entry(order_id@),
    {
        match self.find(order_id) {
            Some(i) => Some(self.entries[i]),
            None => None,
        }
    }

    /// The resolver fills an order under a free identifier, at time `now`.
    ///
    /// Refused, with nothing stored, as `fill_rejection` says. Otherwise
    /// the authority derived for the identifier takes the holding account,
    /// and the order is stored as `fill_order_destination` leaves it. No other
    /// order changes.
    pub fn fill(
        &mut self,
        resolver: Address,
        token_mint_destination: Address,
        now: i64,
        order_id: [u8; 32],
        maker_on_source: Address,
        amount_on_destination: u64,
        hash_secret: [u8; 32],
        timeout_duration_seconds: i64,
        safety_deposit_sol: u64,
    ) -> (created: Result<OrderFilledDestination, EscrowError>)
        requires
            old(self).wf(),
        ensures
            final(self).wf(),
            final(self).program_id() == old(self).program_id(),
            match old(self).fill_rejection(
                order_id@,
                now,
                amount_on_destination,
                timeout_duration_seconds,
                safety_deposit_sol,
            ) {
                Some(e) => created == Err::<OrderFilledDestination, EscrowError>(e) && final(self)@
                    == old(self)@,
                None => {
                    let stored = final(self)@.last();
                    let authority = CustodyAuthority {
                        address: stored.holding.authority,
                        bump: stored.order.escrow_authority_bump,
                    };
                    let ctx = Self::fill_accounts(resolver, token_mint_destination, authority);
                    let after = fill_destination_after(
                        ctx,
                        now,
                        order_id,
                        maker_on_source,
                        amount_on_destination,
                        hash_secret,
                        timeout_duration_seconds,
                        safety_deposit_sol,
                    );
                    &&& stored.in_custody(old(self).derived(order_id@))
                    &&& created == fill_destination_outcome(
                        ctx,
                        now,
                        order_id,
                        maker_on_source,
                        amount_on_destination,
                        hash_secret,
                        timeout_duration_seconds,
                        safety_deposit_sol,
                    )
                    &&& final(self)@ == old(self)@.push(
                        DestinationEntry {
                            order: after.order_state_destination.unwrap(),
                            holding: after.escrow_token_account_destination.unwrap(),
                        },
                    )
                },
            },
    {
        if self.find(&order_id).is_some() {
            return Err(EscrowError::OrderAlreadyExists);
        }
        let authority = match derive_authority(&order_id, &self.program_id) {
            Some(authority) => authority,
            None => {
                return Err(EscrowError::TokenTransferFailed);
            },
        };
        let mut ctx = FillOrderDestinationAccounts {
            order_state_destination: None,
            resolver,
            escrow_token_account_destination: None,
            escrow_authority: authority.address,
            escrow_authority_bump: authority.bump,
            token_mint_destination,
        };
        let created = fill_order_destination(
            &mut ctx,
            now,
            order_id,
            maker_on_source,
            amount_on_destination,
            hash_secret,
            timeout_duration_seconds,
            safety_deposit_sol,
        );
        if created.is_ok() {
            match (ctx.order_state_destination, ctx.escrow_token_account_destination) {
                (Some(order), Some(holding)) => {
                    let ghost before = self.identifiers();
                    self.entries.push(DestinationEntry { order, holding });
                    proof {
                        assert(self.identifiers() =~= before.push(order_id@));
                        push_keeps_positions(before, order_id@);
                    }
                },
                _ => {},
            }
        }
        created
    }

    /// The maker claims the order under `order_id` by revealing the
    /// secret, at time `now`.
    ///
    /// Where no order is kept under the identifier the error is
    /// `OrderDoesNotExist`; otherwise the call is refused as
    /// `withdraw_rejection` says, or the outcome is that of
    /// `withdraw_destination` and what it leaves is stored. No other order
    /// changes.
    pub fn withdraw(
        &mut self,
        caller: Address,
        now: i64,
        order_id: [u8; 32],
        secret: [u8; 32],
    ) -> (withdrawn: Result<(MakerWithdrawnDestination, Payout), EscrowError>)
        requires
            old(self).wf(),
        ensures
            final(self).wf(),
            final(self).program_id() == old(self).program_id(),
            match old(self).position(order_id@) {
                None => withdrawn == Err::<
                    (MakerWithdrawnDestination, Payout),
                    EscrowError,
                >(EscrowError::OrderDoesNotExist) && final(self)@ == old(self)@,
                Some(i) => {
                    let ctx = old(self)@[i].withdraw_accounts(caller);
                    let digest = keccak256(secret@);
                    let after = withdraw_destination_after(ctx, now, order_id, digest);
                    match old(self).withdraw_rejection(i, caller, now, order_id, digest) {
                        Some(e) => withdrawn == Err::<
                            (MakerWithdrawnDestination, Payout),
                            EscrowError,
                        >(e) && final(self)@ == old(self)@,
                        None => withdrawn == withdraw_destination_outcome(
                            ctx,
                            now,
                            order_id,
                            secret,
                            digest,
                        ) && final(self)@ == old(self)@.update(
                            i,
                            DestinationEntry {
                                order: after.order_state_destination,
                                holding: after.escrow_token_account_destination,
                            },
                        ),
                    }
                },
            },
    {
        let i = match self.find(&order_id) {
            Some(i) => i,
            None => {
                return Err(EscrowError::OrderDoesNotExist);
            },
        };
        let entry = self.entries[i];
        let proved = is_custody_authority(
            &order_id,
            &self.program_id,
            &entry.holding.authority,
            entry.order.escrow_authority_bump,
        );
        let mut ctx = WithdrawDestinationAccounts {
            order_state_destination: entry.order,
            maker_on_destination_chain_signer: caller,
            escrow_token_account_destination: entry.holding,
            escrow_authority: entry.holding.authority,
        };
        let withdrawn = withdraw_destination(&mut ctx, now, order_id, secret);
        if !proved {
            return match withdrawn {
                Ok(_) => Err(EscrowError::TokenTransferFailed),
                Err(EscrowError::InsufficientEscrowBalance) => Err(
                    EscrowError::TokenTransferFailed,
                ),
                Err(e) => Err(e),
            };
        }
        let ghost before = self.identifiers();
        self.entries.set(
            i,
            DestinationEntry {
                order: ctx.order_state_destination,
                holding: ctx.escrow_token_account_destination,
            },
        );
        proof {
            assert(self.identifiers() =~= before);
            if withdrawn is Err {
                assert(self@ =~= old(self)@);
            }
        }
        withdrawn
    }

    /// The resolver has the order under `order_id` refunded, at time `now`.
    ///
    /// Where no order is kept under the identifier the error is
    /// `OrderDoesNotExist`; otherwise the call is refused as
    /// `cancel_rejection` says, or the outcome is that of `cancel_destination`
    /// and what it leaves is stored. No other order changes.
    pub fn cancel(
        &mut self,
        caller: Address,
        now: i64,
        order_id: [u8; 32],
    ) -> (cancelled: Result<(OrderCancelledByResolverDestination, Payout), EscrowError>)
        requires
            old(self).wf(),
        ensures
            final(self).wf(),
            final(self).program_id() == old(self).program_id(),
            match old(self).position(order_id@) {
                None => cancelled == Err::<
                    (OrderCancelledByResolverDestination, Payout),
                    EscrowError,
                >(EscrowError::OrderDoesNotExist) && final(self)@ == old(self)@,
                Some(i) => {
                    let ctx = old(self)@[i].cancel_accounts(caller);
                    let after = cancel_destination_after(ctx, now, order_id);
                    match old(self).cancel_rejection(i, caller, now, order_id) {
                        Some(e) => cancelled == Err::<
                            (OrderCancelledByResolverDestination, Payout),
                            EscrowError,
                        >(e) && final(self)@ == old(self)@,
                        None => cancelled == cancel_destination_outcome(ctx, now, order_id)
                            && final(self)@ == old(self)@.update(
                            i,
                            DestinationEntry {
                                order: after.order_state_destination,
                                holding: after.escrow_token_account_destination,
                            },
                        ),
                    }
                },
            },
    {
        let i = match self.find(&order_id) {
            Some(i) => i,
            None => {
                return Err(EscrowError::OrderDoesNotExist);
            },
        };
        let entry = self.entries[i];
        let proved = is_custody_authority(
            &order_id,
            &self.program_id,
            &entry.holding.authority,
            entry.order.escrow_authority_bump,
        );
        let mut ctx = CancelDestinationAccounts {
            order_state_destination: entry.order,
            resolver: caller,
            escrow_token_account_destination: entry.holding,
            escrow_authority: entry.holding.authority,
        };
        let cancelled = cancel_destination(&mut ctx, now, order_id);
        if !proved {
            return match cancelled {
                Ok(_) => Err(EscrowError::TokenTransferFailed),
                Err(EscrowError::InsufficientEscrowBalance) => Err(
                    EscrowError::TokenTransferFailed,
                ),
                Err(e) => Err(e),
            };
        }
        let ghost before = self.identifiers();
        self.entries.set(
            i,
            DestinationEntry {
                order: ctx.order_state_destination,
                holding: ctx.escrow_token_account_destination,
            },
        );
        proof {
            assert(self.identifiers() =~= before);
            if cancelled is Err {
                assert(self@ =~= old(self)@);
            }
        }
        cancelled
    }
}

} // verus!
