//! Sponsoring: a contribution moves from the sponsor to the gain vault.

use crate::collections::event::Event;
use crate::collections::event::EventLedger;
use crate::collections::event::Party;
use crate::collections::event::Vault;
use crate::error::EventError;
use vstd::prelude::*;

verus! {

/// What a sponsorship touches: the event with its sub-accounts, and the sponsor.
#[derive(Clone, Debug, PartialEq, Eq)]
pub struct Sponsor {
    pub ledger: EventLedger,
    pub payer: Party,
}

/// Why a contribution of `quantity` is refused, or `None` where it goes through.
/// The checks stand in the order in which they are made.
pub open spec fn rejection(ctx: Sponsor, quantity: u64) -> Option<EventError> {
    if !ctx.payer.is_signer {
        Some(EventError::MissingSigner)
    } else if !ctx.ledger.event_verifies() || !ctx.ledger.gain_vault_verifies() {
        Some(EventError::AddressMismatch)
    } else if !ctx.ledger.gain_vault_held() {
        Some(EventError::CustodyMismatch)
    } else if !ctx.ledger.event.active {
        Some(EventError::InactiveEvent)
    } else if quantity == 0 {
        Some(EventError::ZeroQuantity)
    } else if ctx.payer.funds < quantity {
        Some(EventError::InsufficientFunds)
    } else if ctx.ledger.gain_vault.balance + quantity > u64::MAX
        || ctx.ledger.event.sponsors + 1 > u64::MAX {
        Some(EventError::Overflow)
    } else {
        None
    }
}

/// The accounts after a contribution of `quantity` that went through: it has
/// moved from the sponsor to the gain vault, and the event counts one more
/// sponsorship, whatever its size. No ticket units are issued.
pub open spec fn outcome(ctx: Sponsor, quantity: u64) -> Sponsor {
    Sponsor {
        ledger: EventLedger {
            gain_vault: Vault {
                balance: (ctx.ledger.gain_vault.balance + quantity) as u64,
                ..ctx.ledger.gain_vault
            },
            event: Event { sponsors: (ctx.ledger.event.sponsors + 1) as u64, ..ctx.ledger.event },
            ..ctx.ledger
        },
        payer: Party { funds: (ctx.payer.funds - quantity) as u64, ..ctx.payer },
    }
}

/// Takes a contribution of `quantity` from the payer. Only a live event can be
/// sponsored.
pub fn handle(ctx: &mut Sponsor, quantity: u64) -> (r: Result<(), EventError>)
    ensures
        match r {
            Ok(()) => rejection(*old(ctx), quantity) is None
                && *final(ctx) == outcome(*old(ctx), quantity),
            Err(e) => rejection(*old(ctx), quantity) == Some(e) && *final(ctx) == *old(ctx),
        },
        !old(ctx).ledger.event.active || quantity == 0 ==> r is Err && *final(ctx) == *old(ctx),
{
    if !ctx.payer.is_signer {
        return Err(EventError::MissingSigner);
    }
    if !ctx.ledger.check_event() || !ctx.ledger.check_gain_vault() {
        return Err(EventError::AddressMismatch);
    }
    if !ctx.ledger.holds_gain_vault() {
        return Err(EventError::CustodyMismatch);
    }
    if !ctx.ledger.event.active {
        return Err(EventError::InactiveEvent);
    }
    if quantity == 0 {
        return Err(EventError::ZeroQuantity);
    }
    if ctx.payer.funds < quantity {
        return Err(EventError::InsufficientFunds);
    }
    let gain: Option<u64> = ctx.ledger.gain_vault.balance.checked_add(quantity);
    let sponsors: Option<u64> = ctx.ledger.event.sponsors.checked_add(1);
    match (gain, sponsors) {
        (Some(g), Some(s)) => {
            ctx.payer.funds = ctx.payer.funds - quantity;
            ctx.ledger.gain_vault.balance = g;
            ctx.ledger.event.sponsors = s;
            Ok(())
        },
        _ => Err(EventError::Overflow),
    }
}

} // verus!
