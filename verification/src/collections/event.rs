//! The event record, its sub-accounts, and the parties that deal with them.

use crate::deriver::verifies;
use crate::deriver::verify;
use crate::deriver::Address;
use vstd::prelude::*;

verus! {

/// The persistent record of one event.
#[derive(Clone, Debug, PartialEq, Eq)]
pub struct Event {
    /// Display label, at most `Event::MAX_NAME_LEN` characters.
    pub name: String,
    /// Price of one ticket, in the smallest unit of the accepted asset.
    pub ticket_price: u64,
    /// `true` from creation until the event is closed.
    pub active: bool,
    /// How many sponsorships the event has received.
    pub sponsors: u64,
    /// The organizer: the only identity that may withdraw or close.
    pub authority: Address,
    /// The asset in which the event trades.
    pub accepted_mint: Address,
    /// Nonce of the event record's own address.
    pub event_bump: u8,
    /// Nonce of the ticket mint's address.
    pub event_mint_bump: u8,
    /// Nonce of the treasury vault's address.
    pub treasury_vault_bump: u8,
    /// Nonce of the gain vault's address.
    pub gain_vault_bump: u8,
}

impl Event {
    pub const SEED_EVENT: &'static str = "event";

    pub const SEED_EVENT_MINT: &'static str = "event_mint";

    pub const SEED_TREASURY_VAULT: &'static str = "treasury_vault";

    pub const SEED_GAIN_VAULT: &'static str = "gain_vault";

    pub const MAX_NAME_LEN: usize = 40;
}

/// A custody account: a balance of the accepted asset that only the event can spend.
#[derive(Clone, Copy, Debug, PartialEq, Eq)]
pub struct Vault {
    pub address: Address,
    /// The asset that the vault holds.
    pub mint: Address,
    /// Who can spend from the vault.
    pub owner: Address,
    pub balance: u64,
}

/// The issuance counter of an event's ticket units. It has no decimals, and
/// only the event can issue from it.
#[derive(Clone, Copy, Debug, PartialEq, Eq)]
pub struct TicketMint {
    pub address: Address,
    /// Who can issue ticket units, if anyone still can.
    pub authority: Option<Address>,
    pub supply: u64,
}

/// A party to an operation: who it is, whether it co-signed, and what it holds.
#[derive(Clone, Copy, Debug, PartialEq, Eq)]
pub struct Party {
    pub key: Address,
    pub is_signer: bool,
    /// Its holding of the accepted asset.
    pub funds: u64,
    /// Its holding of the event's ticket units.
    pub tickets: u64,
}

/// An event together with its three sub-accounts, as one operation sees them.
#[derive(Clone, Debug, PartialEq, Eq)]
pub struct EventLedger {
    /// Where the event record stands.
    pub address: Address,
    pub event: Event,
    pub event_mint: TicketMint,
    pub treasury_vault: Vault,
    pub gain_vault: Vault,
}

impl EventLedger {
    /// The event record stands at the address that its authority and stored nonce give.
    pub open spec fn event_verifies(self) -> bool {
        verifies(Event::SEED_EVENT@, self.event.authority@, self.event.event_bump, self.address@)
    }

    /// The ticket mint stands at the address that the event and its stored nonce give.
    pub open spec fn event_mint_verifies(self) -> bool {
        verifies(
            Event::SEED_EVENT_MINT@,
            self.address@,
            self.event.event_mint_bump,
            self.event_mint.address@,
        )
    }

    /// The treasury vault stands at the address that the event and its stored nonce give.
    pub open spec fn treasury_vault_verifies(self) -> bool {
        verifies(
            Event::SEED_TREASURY_VAULT@,
            self.address@,
            self.event.treasury_vault_bump,
            self.treasury_vault.address@,
        )
    }

    /// The gain vault stands at the address that the event and its stored nonce give.
    pub open spec fn gain_vault_verifies(self) -> bool {
        verifies(
            Event::SEED_GAIN_VAULT@,
            self.address@,
            self.event.gain_vault_bump,
            self.gain_vault.address@,
        )
    }

    /// The event is the one that can issue from the ticket mint.
    pub open spec fn event_mint_held(self) -> bool {
        self.event_mint.authority matches Some(a) && a@ == self.address@
    }

    /// The event is the one that can spend from the treasury vault, and the
    /// vault holds the accepted asset.
    pub open spec fn treasury_vault_held(self) -> bool {
        self.treasury_vault.owner@ == self.address@ && self.treasury_vault.mint@
            == self.event.accepted_mint@
    }

    /// The event is the one that can spend from the gain vault, and the vault
    /// holds the accepted asset.
    pub open spec fn gain_vault_held(self) -> bool {
        self.gain_vault.owner@ == self.address@ && self.gain_vault.mint@
            == self.event.accepted_mint@
    }

    /// The record's own invariant: the name fits.
    pub open spec fn wf(self) -> bool {
        self.event.name@.len() <= Event::MAX_NAME_LEN
    }

    /// Recomputes the event record's address.
    pub fn check_event(&self) -> (ok: bool)
        ensures
            ok == self.event_verifies(),
    {
        verify(Event::SEED_EVENT, &self.event.authority, self.event.event_bump, &self.address)
    }

    /// Recomputes the ticket mint's address.
    pub fn check_event_mint(&self) -> (ok: bool)
        ensures
            ok == self.event_mint_verifies(),
    {
        verify(
            Event::SEED_EVENT_MINT,
            &self.address,
            self.event.event_mint_bump,
            &self.event_mint.address,
        )
    }

    /// Recomputes the treasury vault's address.
    pub fn check_treasury_vault(&self) -> (ok: bool)
        ensures
            ok == self.treasury_vault_verifies(),
    {
        verify(
            Event::SEED_TREASURY_VAULT,
            &self.address,
            self.event.treasury_vault_bump,
            &self.treasury_vault.address,
        )
    }

    /// Looks at who can issue from the ticket mint.
    pub fn holds_event_mint(&self) -> (ok: bool)
        ensures
            ok == self.event_mint_held(),
    {
        match &self.event_mint.authority {
            Some(a) => a.same(&self.address),
            None => false,
        }
    }

    /// Looks at who can spend from the treasury vault, and at what it holds.
    pub fn holds_treasury_vault(&self) -> (ok: bool)
        ensures
            ok == self.treasury_vault_held(),
    {
        self.treasury_vault.owner.same(&self.address) && self.treasury_vault.mint.same(
            &self.event.accepted_mint,
        )
    }

    /// Looks at who can spend from the gain vault, and at what it holds.
    pub fn holds_gain_vault(&self) -> (ok: bool)
        ensures
            ok == self.gain_vault_held(),
    {
        self.gain_vault.owner.same(&self.address) && self.gain_vault.mint.same(
            &self.event.accepted_mint,
        )
    }

    /// Recomputes the gain vault's address.
    pub fn check_gain_vault(&self) -> (ok: bool)
        ensures
            ok == self.gain_vault_verifies(),
    {
        verify(
            Event::SEED_GAIN_VAULT,
            &self.address,
            self.event.gain_vault_bump,
            &self.gain_vault.address,
        )
    }
}

} // verus!
