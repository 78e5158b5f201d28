//! The records that the ledger keeps.

pub mod event;

pub use event::Event;
pub use event::EventLedger;
pub use event::Party;
pub use event::TicketMint;
pub use event::Vault;
