//! Withdrawing sponsor contributions: the whole balance of the gain vault
//! leaves for the organizer. The treasury vault is not touched.

use crate::collections::event::EventLedger;
use crate::collections::event::Party;
use crate::collections::event::Vault;
use crate::error::EventError;
use vstd::prelude::*;

verus! {

/// What a sweep touches: the event with its sub-accounts, and the caller.
#[derive(Clone, Debug, PartialEq, Eq)]
pub struct WithdrawEarnings {
    pub ledger: EventLedger,
    pub authority: Party,
}

/// Why a sweep of the gain vault is refused, or `None` where it goes through.
/// The checks stand in the order in which they are made.
pub open spec fn rejection(ctx: WithdrawEarnings) -> Option<EventError> {
    if !ctx.authority.is_signer {
        Some(EventError::MissingSigner)
    } else if ctx.authority.key@ != ctx.ledger.event.authority@ {
        Some(EventError::Unauthorized)
    } else if !ctx.ledger.event_verifies() || !ctx.ledger.gain_vault_verifies() {
        Some(EventError::AddressMismatch)
    } else if !ctx.ledger.gain_vault_held() {
        Some(EventError::CustodyMismatch)
    } else if ctx.authority.funds + ctx.ledger.gain_vault.balance > u64::MAX {
        Some(EventError::Overflow)
    } else {
        None
    }
}

/// The accounts after a sweep that went through: the gain vault is empty, and
/// what it held has been added to the caller's funds.
pub open spec fn outcome(ctx: WithdrawEarnings) -> WithdrawEarnings {
    WithdrawEarnings {
        ledger: EventLedger {
            gain_vault: Vault { balance: 0, ..ctx.ledger.gain_vault },
            ..ctx.ledger
        },
        authority: Party {
            funds: (ctx.authority.funds + ctx.ledger.gain_vault.balance) as u64,
            ..ctx.authority
        },
    }
}

/// Moves the gain vault's whole balance to the caller, who must be the event's
/// authority. The event may be live or closed.
pub fn handle(ctx: &mut WithdrawEarnings) -> (r: Result<(), EventError>)
    ensures
        match r {
            Ok(()) => rejection(*old(ctx)) is None && *final(ctx) == outcome(*old(ctx)),
            Err(e) => rejection(*old(ctx)) == Some(e) && *final(ctx) == *old(ctx),
        },
        old(ctx).authority.key@ != old(ctx).ledger.event.authority@ ==> r is Err && *final(ctx)
            == *old(ctx),
        final(ctx).ledger.event == old(ctx).ledger.event,
{
    if !ctx.authority.is_signer {
        return Err(EventError::MissingSigner);
    }
    if !ctx.authority.key.same(&ctx.ledger.event.authority) {
        return Err(EventError::Unauthorized);
    }
    if !ctx.ledger.check_event() || !ctx.ledger.check_gain_vault() {
        return Err(EventError::AddressMismatch);
    }
    if !ctx.ledger.holds_gain_vault() {
        return Err(EventError::CustodyMismatch);
    }
    match ctx.authority.funds.checked_add(ctx.ledger.gain_vault.balance) {
        Some(f) => {
            ctx.authority.funds = f;
            ctx.ledger.gain_vault.balance = 0;
            Ok(())
        },
        None => Err(EventError::Overflow),
    }
}

} // verus!
