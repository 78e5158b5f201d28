//! Registering an event: the record and its three sub-accounts come into being
//! together, at derived addresses, with nothing in the vaults.

use crate::collections::event::Event;
use crate::collections::event::EventLedger;
use crate::collections::event::Party;
use crate::collections::event::TicketMint;
use crate::collections::event::Vault;
use crate::deriver::derivation;
use crate::deriver::Address;
use crate::error::EventError;
use vstd::prelude::*;

verus! {

/// What a registration touches: the organizer, the asset the event will trade
/// in, and the place at the event's derived address.
#[derive(Clone, Debug, PartialEq, Eq)]
pub struct CreateEvent {
    /// The organizer, who must co-sign.
    pub authority: Party,
    /// The asset in which tickets are priced and contributions are made.
    pub accepted_mint: Address,
    /// What stands at the event's address: `None` until the event is created.
    pub ledger: Option<EventLedger>,
}

/// Whether an address can be derived for the event of `authority` and for each
/// of its three sub-accounts.
pub open spec fn derivable(authority: Seq<u8>) -> bool {
    match derivation(Event::SEED_EVENT@, authority) {
        Some((at, _)) => derivation(Event::SEED_EVENT_MINT@, at) is Some && derivation(
            Event::SEED_TREASURY_VAULT@,
            at,
        ) is Some && derivation(Event::SEED_GAIN_VAULT@, at) is Some,
        None => false,
    }
}

/// Whether the four addresses and the four stored nonces of `ledger` are the
/// ones that derivation gives, starting from the event's authority.
pub open spec fn derived(ledger: EventLedger) -> bool {
    &&& derivation(Event::SEED_EVENT@, ledger.event.authority@) == Some(
        (ledger.address@, ledger.event.event_bump),
    )
    &&& derivation(Event::SEED_EVENT_MINT@, ledger.address@) == Some(
        (ledger.event_mint.address@, ledger.event.event_mint_bump),
    )
    &&& derivation(Event::SEED_TREASURY_VAULT@, ledger.address@) == Some(
        (ledger.treasury_vault.address@, ledger.event.treasury_vault_bump),
    )
    &&& derivation(Event::SEED_GAIN_VAULT@, ledger.address@) == Some(
        (ledger.gain_vault.address@, ledger.event.gain_vault_bump),
    )
}

/// Why a registration under `name` is refused, or `None` where it goes through.
/// The checks stand in the order in which they are made.
pub open spec fn rejection(ctx: CreateEvent, name: Seq<char>) -> Option<EventError> {
    if !ctx.authority.is_signer {
        Some(EventError::MissingSigner)
    } else if name.len() > Event::MAX_NAME_LEN {
        Some(EventError::NameTooLong)
    } else if ctx.ledger is Some {
        Some(EventError::EventAlreadyExists)
    } else if !derivable(ctx.authority.key@) {
        Some(EventError::DerivationFailed)
    } else {
        None
    }
}

/// Whether `ledger` is the event that `ctx.authority` registers under `name`
/// at `ticket_price`: live, unsponsored, at the derived addresses, its vaults
/// empty, in its custody and of the accepted asset, and no ticket issued from
/// a mint that only the event can issue from.
pub open spec fn is_created(
    ledger: EventLedger,
    ctx: CreateEvent,
    name: Seq<char>,
    ticket_price: u64,
) -> bool {
    &&& ledger.event.name@ == name
    &&& ledger.event.ticket_price == ticket_price
    &&& ledger.event.active
    &&& ledger.event.sponsors == 0
    &&& ledger.event.authority@ == ctx.authority.key@
    &&& ledger.event.accepted_mint@ == ctx.accepted_mint@
    &&& derived(ledger)
    &&& ledger.event_mint_held()
    &&& ledger.treasury_vault_held()
    &&& ledger.gain_vault_held()
    &&& ledger.event_mint.supply == 0
    &&& ledger.treasury_vault.balance == 0
    &&& ledger.gain_vault.balance == 0
}

/// Registers the event of `ctx.authority`. On success the record and its
/// sub-accounts stand in `ctx.ledger`, and each of them passes the address
/// check that the later operations make. No funds move.
pub fn handle(ctx: &mut CreateEvent, name: String, ticket_price: u64) -> (r: Result<
    (),
    EventError,
>)
    ensures
        final(ctx).authority == old(ctx).authority,
        final(ctx).accepted_mint == old(ctx).accepted_mint,
        match r {
            Ok(()) => {
                &&& rejection(*old(ctx), name@) is None
                &&& final(ctx).ledger is Some
                &&& is_created(final(ctx).ledger->0, *old(ctx), name@, ticket_price)
                &&& final(ctx).ledger->0.wf()
                &&& final(ctx).ledger->0.event_verifies()
                &&& final(ctx).ledger->0.event_mint_verifies()
                &&& final(ctx).ledger->0.treasury_vault_verifies()
                &&& final(ctx).ledger->0.gain_vault_verifies()
            },
            Err(e) => rejection(*old(ctx), name@) == Some(e) && *final(ctx) == *old(ctx),
        },
{
    if !ctx.authority.is_signer {
        return Err(EventError::MissingSigner);
    }
    if name.as_str().unicode_len() > Event::MAX_NAME_LEN {
        return Err(EventError::NameTooLong);
    }
    if ctx.ledger.is_some() {
        return Err(EventError::EventAlreadyExists);
    }
    let (address, event_bump) = match crate::deriver::derive(Event::SEED_EVENT, &ctx.authority.key) {
        Some(found) => found,
        None => {
            return Err(EventError::DerivationFailed);
        },
    };
    let (event_mint, event_mint_bump) = match crate::deriver::derive(Event::SEED_EVENT_MINT, &address) {
        Some(found) => found,
        None => {
            return Err(EventError::DerivationFailed);
        },
    };
    let (treasury_vault, treasury_vault_bump) = match crate::deriver::derive(Event::SEED_TREASURY_VAULT, &address) {
        Some(found) => found,
        None => {
            return Err(EventError::DerivationFailed);
        },
    };
    let (gain_vault, gain_vault_bump) = match crate::deriver::derive(Event::SEED_GAIN_VAULT, &address) {
        Some(found) => found,
        None => {
            return Err(EventError::DerivationFailed);
        },
    };
    ctx.ledger = Some(
        EventLedger {
            address,
            event: Event {
                name,
                ticket_price,
                active: true,
                sponsors: 0,
                authority: ctx.authority.key,
                accepted_mint: ctx.accepted_mint,
                event_bump,
                event_mint_bump,
                treasury_vault_bump,
                gain_vault_bump,
            },
            event_mint: TicketMint { address: event_mint, authority: Some(address), supply: 0 },
            treasury_vault: Vault {
                address: treasury_vault,
                mint: ctx.accepted_mint,
                owner: address,
                balance: 0,
            },
            gain_vault: Vault {
                address: gain_vault,
                mint: ctx.accepted_mint,
                owner: address,
                balance: 0,
            },
        },
    );
    Ok(())
}

} // verus!
