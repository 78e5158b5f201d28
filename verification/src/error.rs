//! The named failures of the ledger's operations.

use vstd::prelude::*;

verus! {

/// Why an operation was refused. A refused operation changes nothing.
#[derive(Clone, Copy, Debug, PartialEq, Eq, Structural)]
pub enum EventError {
    /// The event's name is longer than `Event::MAX_NAME_LEN` characters.
    NameTooLong,
    /// A record already stands at the event's address.
    EventAlreadyExists,
    /// No nonce gives a usable address for one of the sub-accounts.
    DerivationFailed,
    /// The party that had to co-sign did not.
    MissingSigner,
    /// The caller is not the event's authority.
    Unauthorized,
    /// The event has been closed.
    InactiveEvent,
    /// The event was to be closed and is closed already.
    EventAlreadyClosed,
    /// The quantity is zero.
    ZeroQuantity,
    /// The paying party or the vault holds less than the amount asked for.
    InsufficientFunds,
    /// A presented account is not at the address that its stored nonce gives.
    AddressMismatch,
    /// A sub-account is not in the event's custody, or holds another asset
    /// than the event accepts.
    CustodyMismatch,
    /// A product, a balance or a counter would leave the range of `u64`.
    Overflow,
}

} // verus!
