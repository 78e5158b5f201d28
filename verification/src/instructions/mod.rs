//! The operations on an event, one module each.

pub mod buy_tickets;
pub mod close_event;
pub mod create_event;
pub mod sponsor;
pub mod withdraw_earnings;
pub mod withdraw_funds;

pub use buy_tickets::BuyTickets;
pub use close_event::CloseEvent;
pub use create_event::CreateEvent;
pub use sponsor::Sponsor;
pub use withdraw_earnings::WithdrawEarnings;
pub use withdraw_funds::WithdrawFunds;
