//! Closing an event. Closing is final, and it does not ask that the vaults be
//! empty: what they hold can still be withdrawn afterwards.

use crate::collections::event::Event;
use crate::collections::event::EventLedger;
use crate::collections::event::Party;
use crate::error::EventError;
use vstd::prelude::*;

verus! {

/// What closing touches: the event record, and the caller.
#[derive(Clone, Debug, PartialEq, Eq)]
pub struct CloseEvent {
    pub ledger: EventLedger,
    pub authority: Party,
}

/// Why closing is refused, or `None` where it goes through.
/// The checks stand in the order in which they are made.
pub open spec fn rejection(ctx: CloseEvent) -> Option<EventError> {
    if !ctx.authority.is_signer {
        Some(EventError::MissingSigner)
    } else if ctx.authority.key@ != ctx.ledger.event.authority@ {
        Some(EventError::Unauthorized)
    } else if !ctx.ledger.event_verifies() {
        Some(EventError::AddressMismatch)
    } else if !ctx.ledger.event.active {
        Some(EventError::EventAlreadyClosed)
    } else {
        None
    }
}

/// The accounts after a closing that went through.
pub open spec fn outcome(ctx: CloseEvent) -> CloseEvent {
    CloseEvent {
        ledger: EventLedger { event: Event { active: false, ..ctx.ledger.event }, ..ctx.ledger },
        ..ctx
    }
}

/// Closes the event for the caller, who must be its authority. A closed event
/// cannot be closed again.
pub fn handle(ctx: &mut CloseEvent) -> (r: Result<(), EventError>)
    ensures
        match r {
            Ok(()) => rejection(*old(ctx)) is None && *final(ctx) == outcome(*old(ctx)),
            Err(e) => rejection(*old(ctx)) == Some(e) && *final(ctx) == *old(ctx),
        },
        r is Ok ==> old(ctx).ledger.event.active && !final(ctx).ledger.event.active,
{
    if !ctx.authority.is_signer {
        return Err(EventError::MissingSigner);
    }
    if !ctx.authority.key.same(&ctx.ledger.event.authority) {
        return Err(EventError::Unauthorized);
    }
    if !ctx.ledger.check_event() {
        return Err(EventError::AddressMismatch);
    }
    if !ctx.ledger.event.active {
        return Err(EventError::EventAlreadyClosed);
    }
    ctx.ledger.event.active = false;
    Ok(())
}

} // verus!
