//! Selling tickets: the buyer pays the treasury vault and receives ticket units.

use crate::collections::event::EventLedger;
use crate::collections::event::Party;
use crate::collections::event::TicketMint;
use crate::collections::event::Vault;
use crate::error::EventError;
use vstd::prelude::*;

verus! {

/// What a ticket sale touches: the event with its sub-accounts, and the buyer.
#[derive(Clone, Debug, PartialEq, Eq)]
pub struct BuyTickets {
    pub ledger: EventLedger,
    pub payer: Party,
}

/// The price of `quantity` tickets of the event, as a mathematical integer.
pub open spec fn cost(ledger: EventLedger, quantity: u64) -> int {
    quantity as int * ledger.event.ticket_price as int
}

/// Why a sale of `quantity` tickets is refused, or `None` where it goes through.
/// The checks stand in the order in which they are made.
pub open spec fn rejection(ctx: BuyTickets, quantity: u64) -> Option<EventError> {
    if !ctx.payer.is_signer {
        Some(EventError::MissingSigner)
    } else if !ctx.ledger.event_verifies() || !ctx.ledger.event_mint_verifies()
        || !ctx.ledger.treasury_vault_verifies() {
        Some(EventError::AddressMismatch)
    } else if !ctx.ledger.event_mint_held() || !ctx.ledger.treasury_vault_held() {
        Some(EventError::CustodyMismatch)
    } else if !ctx.ledger.event.active {
        Some(EventError::InactiveEvent)
    } else if quantity == 0 {
        Some(EventError::ZeroQuantity)
    } else if cost(ctx.ledger, quantity) > u64::MAX {
        Some(EventError::Overflow)
    } else if ctx.payer.funds < cost(ctx.ledger, quantity) {
        Some(EventError::InsufficientFunds)
    } else if ctx.ledger.treasury_vault.balance + cost(ctx.ledger, quantity) > u64::MAX
        || ctx.ledger.event_mint.supply + quantity > u64::MAX
        || ctx.payer.tickets + quantity > u64::MAX {
        Some(EventError::Overflow)
    } else {
        None
    }
}

/// The accounts after a sale of `quantity` tickets that went through: the cost
/// has moved from the buyer to the treasury vault, and `quantity` ticket units
/// have been issued to the buyer.
pub open spec fn outcome(ctx: BuyTickets, quantity: u64) -> BuyTickets {
    BuyTickets {
        ledger: EventLedger {
            treasury_vault: Vault {
                balance: (ctx.ledger.treasury_vault.balance + cost(ctx.ledger, quantity)) as u64,
                ..ctx.ledger.treasury_vault
            },
            event_mint: TicketMint {
                supply: (ctx.ledger.event_mint.supply + quantity) as u64,
                ..ctx.ledger.event_mint
            },
            ..ctx.ledger
        },
        payer: Party {
            funds: (ctx.payer.funds - cost(ctx.ledger, quantity)) as u64,
            tickets: (ctx.payer.tickets + quantity) as u64,
            ..ctx.payer
        },
    }
}

/// Sells `quantity` tickets to the payer. Either the payment and the issuance
/// both happen, or the accounts stay as they were.
pub fn handle(ctx: &mut BuyTickets, quantity: u64) -> (r: Result<(), EventError>)
    ensures
        match r {
            Ok(()) => rejection(*old(ctx), quantity) is None
                && *final(ctx) == outcome(*old(ctx), quantity),
            Err(e) => rejection(*old(ctx), quantity) == Some(e) && *final(ctx) == *old(ctx),
        },
        !old(ctx).ledger.event.active || quantity == 0 ==> r is Err && *final(ctx) == *old(ctx),
{
    if !ctx.payer.is_signer {
        return Err(EventError::MissingSigner);
    }
    if !ctx.ledger.check_event() || !ctx.ledger.check_event_mint()
        || !ctx.ledger.check_treasury_vault() {
        return Err(EventError::AddressMismatch);
    }
    if !ctx.ledger.holds_event_mint() || !ctx.ledger.holds_treasury_vault() {
        return Err(EventError::CustodyMismatch);
    }
    if !ctx.ledger.event.active {
        return Err(EventError::InactiveEvent);
    }
    if quantity == 0 {
        return Err(EventError::ZeroQuantity);
    }
    let price: u64 = match quantity.checked_mul(ctx.ledger.event.ticket_price) {
        Some(p) => p,
        None => {
            return Err(EventError::Overflow);
        },
    };
    if ctx.payer.funds < price {
        return Err(EventError::InsufficientFunds);
    }
    let treasury: Option<u64> = ctx.ledger.treasury_vault.balance.checked_add(price);
    let supply: Option<u64> = ctx.ledger.event_mint.supply.checked_add(quantity);
    let tickets: Option<u64> = ctx.payer.tickets.checked_add(quantity);
    match (treasury, supply, tickets) {
        (Some(t), Some(s), Some(k)) => {
            ctx.payer.funds = ctx.payer.funds - price;
            ctx.payer.tickets = k;
            ctx.ledger.treasury_vault.balance = t;
            ctx.ledger.event_mint.supply = s;
            Ok(())
        },
        _ => Err(EventError::Overflow),
    }
}

} // verus!
