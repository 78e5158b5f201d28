//! Escrow accounting for ticketed events: an event record, its two custody
//! vaults and its ticket mint, and the operations that move value through them.
//!
//! Every operation checks its accounts first and then either applies all of
//! its changes or none. Moving the assets themselves is the host's work: an
//! operation that returns `Ok` tells the host, by the accounts it leaves, what
//! was paid, issued or withdrawn.

use vstd::prelude::*;

pub mod collections;
pub mod deriver;
pub mod error;
pub mod history;
pub mod instructions;

pub use crate::deriver::id;

use crate::error::EventError;
use crate::instructions::BuyTickets;
use crate::instructions::CloseEvent;
use crate::instructions::CreateEvent;
use crate::instructions::Sponsor;
use crate::instructions::WithdrawEarnings;
use crate::instructions::WithdrawFunds;

verus! {

/// Registers an event under `name`, with tickets at `ticket_price`.
pub fn create_event(ctx: &mut CreateEvent, name: String, ticket_price: u64) -> (r: Result<
    (),
    EventError,
>)
    ensures
        final(ctx).authority == old(ctx).authority,
        final(ctx).accepted_mint == old(ctx).accepted_mint,
        match r {
            Ok(()) => {
                &&& instructions::create_event::rejection(*old(ctx), name@) is None
                &&& final(ctx).ledger is Some
                &&& instructions::create_event::is_created(
                    final(ctx).ledger->0,
                    *old(ctx),
                    name@,
                    ticket_price,
                )
                &&& final(ctx).ledger->0.wf()
                &&& final(ctx).ledger->0.event_verifies()
                &&& final(ctx).ledger->0.event_mint_verifies()
                &&& final(ctx).ledger->0.treasury_vault_verifies()
                &&& final(ctx).ledger->0.gain_vault_verifies()
            },
            Err(e) => instructions::create_event::rejection(*old(ctx), name@) == Some(e)
                && *final(ctx) == *old(ctx),
        },
{
    instructions::create_event::handle(ctx, name, ticket_price)
}

/// Takes a contribution of `quantity` from a sponsor into the gain vault.
pub fn sponsor_event(ctx: &mut Sponsor, quantity: u64) -> (r: Result<(), EventError>)
    ensures
        match r {
            Ok(()) => instructions::sponsor::rejection(*old(ctx), quantity) is None
                && *final(ctx) == instructions::sponsor::outcome(*old(ctx), quantity),
            Err(e) => instructions::sponsor::rejection(*old(ctx), quantity) == Some(e)
                && *final(ctx) == *old(ctx),
        },
        !old(ctx).ledger.event.active || quantity == 0 ==> r is Err && *final(ctx) == *old(ctx),
{
    instructions::sponsor::handle(ctx, quantity)
}

/// Sells `quantity` tickets to a buyer against payment into the treasury vault.
pub fn buy_tickets(ctx: &mut BuyTickets, quantity: u64) -> (r: Result<(), EventError>)
    ensures
        match r {
            Ok(()) => instructions::buy_tickets::rejection(*old(ctx), quantity) is None
                && *final(ctx) == instructions::buy_tickets::outcome(*old(ctx), quantity),
            Err(e) => instructions::buy_tickets::rejection(*old(ctx), quantity) == Some(e)
                && *final(ctx) == *old(ctx),
        },
        !old(ctx).ledger.event.active || quantity == 0 ==> r is Err && *final(ctx) == *old(ctx),
{
    instructions::buy_tickets::handle(ctx, quantity)
}

/// Pays `amount` out of the treasury vault to the event's authority.
pub fn withdraw_funds(ctx: &mut WithdrawFunds, amount: u64) -> (r: Result<(), EventError>)
    ensures
        match r {
            Ok(()) => instructions::withdraw_funds::rejection(*old(ctx), amount) is None
                && *final(ctx) == instructions::withdraw_funds::outcome(*old(ctx), amount),
            Err(e) => instructions::withdraw_funds::rejection(*old(ctx), amount) == Some(e)
                && *final(ctx) == *old(ctx),
        },
        old(ctx).authority.key@ != old(ctx).ledger.event.authority@ ==> r is Err && *final(ctx)
            == *old(ctx),
        final(ctx).ledger.event == old(ctx).ledger.event,
{
    instructions::withdraw_funds::handle(ctx, amount)
}

/// Closes the event: from then on it sells no ticket and takes no sponsorship.
pub fn close_event(ctx: &mut CloseEvent) -> (r: Result<(), EventError>)
    ensures
        match r {
            Ok(()) => instructions::close_event::rejection(*old(ctx)) is None && *final(ctx)
                == instructions::close_event::outcome(*old(ctx)),
            Err(e) => instructions::close_event::rejection(*old(ctx)) == Some(e) && *final(ctx)
                == *old(ctx),
        },
        r is Ok ==> old(ctx).ledger.event.active && !final(ctx).ledger.event.active,
{
    instructions::close_event::handle(ctx)
}

/// Pays the whole gain vault out to the event's authority.
pub fn withdraw_earnings(ctx: &mut WithdrawEarnings) -> (r: Result<(), EventError>)
    ensures
        match r {
            Ok(()) => instructions::withdraw_earnings::rejection(*old(ctx)) is None && *final(ctx)
                == instructions::withdraw_earnings::outcome(*old(ctx)),
            Err(e) => instructions::withdraw_earnings::rejection(*old(ctx)) == Some(e)
                && *final(ctx) == *old(ctx),
        },
        old(ctx).authority.key@ != old(ctx).ledger.event.authority@ ==> r is Err && *final(ctx)
            == *old(ctx),
        final(ctx).ledger.event == old(ctx).ledger.event,
{
    instructions::withdraw_earnings::handle(ctx)
}

} // verus!
