//! Withdrawing ticket proceeds: a stated amount leaves the treasury vault for
//! the organizer. The gain vault is not touched.

use crate::collections::event::EventLedger;
use crate::collections::event::Party;
use crate::collections::event::Vault;
use crate::error::EventError;
use vstd::prelude::*;

verus! {

/// What a withdrawal touches: the event with its sub-accounts, and the caller.
#[derive(Clone, Debug, PartialEq, Eq)]
pub struct WithdrawFunds {
    pub ledger: EventLedger,
    pub authority: Party,
}

/// Why a withdrawal of `amount` is refused, or `None` where it goes through.
/// The checks stand in the order in which they are made.
pub open spec fn rejection(ctx: WithdrawFunds, amount: u64) -> Option<EventError> {
    if !ctx.authority.is_signer {
        Some(EventError::MissingSigner)
    } else if ctx.authority.key@ != ctx.ledger.event.authority@ {
        Some(EventError::Unauthorized)
    } else if !ctx.ledger.event_verifies() || !ctx.ledger.treasury_vault_verifies() {
        Some(EventError::AddressMismatch)
    } else if !ctx.ledger.treasury_vault_held() {
        Some(EventError::CustodyMismatch)
    } else if amount > ctx.ledger.treasury_vault.balance {
        Some(EventError::InsufficientFunds)
    } else if ctx.authority.funds + amount > u64::MAX {
        Some(EventError::Overflow)
    } else {
        None
    }
}

/// The accounts after a withdrawal of `amount` that went through.
pub open spec fn outcome(ctx: WithdrawFunds, amount: u64) -> WithdrawFunds {
    WithdrawFunds {
        ledger: EventLedger {
            treasury_vault: Vault {
                balance: (ctx.ledger.treasury_vault.balance - amount) as u64,
                ..ctx.ledger.treasury_vault
            },
            ..ctx.ledger
        },
        authority: Party { funds: (ctx.authority.funds + amount) as u64, ..ctx.authority },
    }
}

/// Moves `amount` from the treasury vault to the caller, who must be the
/// event's authority. The event may be live or closed.
pub fn handle(ctx: &mut WithdrawFunds, amount: u64) -> (r: Result<(), EventError>)
    ensures
        match r {
            Ok(()) => rejection(*old(ctx), amount) is None
                && *final(ctx) == outcome(*old(ctx), amount),
            Err(e) => rejection(*old(ctx), amount) == Some(e) && *final(ctx) == *old(ctx),
        },
        old(ctx).authority.key@ != old(ctx).ledger.event.authority@ ==> r is Err && *final(ctx)
            == *old(ctx),
        final(ctx).ledger.event == old(ctx).ledger.event,
{
    if !ctx.authority.is_signer {
        return Err(EventError::MissingSigner);
    }
    if !ctx.authority.key.same(&ctx.ledger.event.authority) {
        return Err(EventError::Unauthorized);
    }
    if !ctx.ledger.check_event() || !ctx.ledger.check_treasury_vault() {
        return Err(EventError::AddressMismatch);
    }
    if !ctx.ledger.holds_treasury_vault() {
        return Err(EventError::CustodyMismatch);
    }
    if amount > ctx.ledger.treasury_vault.balance {
        return Err(EventError::InsufficientFunds);
    }
    match ctx.authority.funds.checked_add(amount) {
        Some(f) => {
            ctx.authority.funds = f;
            ctx.ledger.treasury_vault.balance = ctx.ledger.treasury_vault.balance - amount;
            Ok(())
        },
        None => Err(EventError::Overflow),
    }
}

} // verus!
