//! Histories of one event: what holds after any sequence of operations.
//!
//! A history is a sequence of calls made on the event's ledger, by any
//! parties and with any arguments. A call that is refused leaves the ledger as
//! it was. The laws below are stated over the same rejection and outcome
//! functions that the operations' own contracts use.

use crate::collections::event::EventLedger;
use crate::collections::event::Party;
use crate::error::EventError;
use crate::instructions::buy_tickets;
use crate::instructions::buy_tickets::BuyTickets;
use crate::instructions::close_event;
use crate::instructions::close_event::CloseEvent;
use crate::instructions::sponsor;
use crate::instructions::sponsor::Sponsor;
use crate::instructions::withdraw_earnings;
use crate::instructions::withdraw_earnings::WithdrawEarnings;
use crate::instructions::withdraw_funds;
use crate::instructions::withdraw_funds::WithdrawFunds;
use vstd::prelude::*;

verus! {

/// One call on an existing event, with the party that makes it.
#[derive(Clone, Copy, Debug, PartialEq, Eq)]
pub enum Call {
    BuyTickets { payer: Party, quantity: u64 },
    Sponsor { payer: Party, quantity: u64 },
    WithdrawFunds { authority: Party, amount: u64 },
    WithdrawEarnings { authority: Party },
    CloseEvent { authority: Party },
}

/// Whether `call` goes through on `ledger`.
pub open spec fn accepted(ledger: EventLedger, call: Call) -> bool {
    match call {
        Call::BuyTickets { payer, quantity } => buy_tickets::rejection(
            (BuyTickets { ledger, payer }),
            quantity,
        ) is None,
        Call::Sponsor { payer, quantity } => sponsor::rejection(
            (Sponsor { ledger, payer }),
            quantity,
        ) is None,
        Call::WithdrawFunds { authority, amount } => withdraw_funds::rejection(
            (WithdrawFunds { ledger, authority }),
            amount,
        ) is None,
        Call::WithdrawEarnings { authority } => withdraw_earnings::rejection(
            (WithdrawEarnings { ledger, authority }),
        ) is None,
        Call::CloseEvent { authority } => close_event::rejection(
            (CloseEvent { ledger, authority }),
        ) is None,
    }
}

/// The ledger after `call` was made on `ledger`.
pub open spec fn after(ledger: EventLedger, call: Call) -> EventLedger {
    if !accepted(ledger, call) {
        ledger
    } else {
        match call {
            Call::BuyTickets { payer, quantity } => buy_tickets::outcome(
                (BuyTickets { ledger, payer }),
                quantity,
            ).ledger,
            Call::Sponsor { payer, quantity } => sponsor::outcome(
                (Sponsor { ledger, payer }),
                quantity,
            ).ledger,
            Call::WithdrawFunds { authority, amount } => withdraw_funds::outcome(
                (WithdrawFunds { ledger, authority }),
                amount,
            ).ledger,
            Call::WithdrawEarnings { authority } => withdraw_earnings::outcome(
                (WithdrawEarnings { ledger, authority }),
            ).ledger,
            Call::CloseEvent { authority } => close_event::outcome(
                (CloseEvent { ledger, authority }),
            ).ledger,
        }
    }
}

/// The ledger after all of `calls` were made on `ledger`, in order.
pub open spec fn run(ledger: EventLedger, calls: Seq<Call>) -> EventLedger
    decreases calls.len(),
{
    if calls.len() == 0 {
        ledger
    } else {
        after(run(ledger, calls.drop_last()), calls.last())
    }
}

/// Makes `call` on `ledger` and hands the ledger back: changed as the call's
/// operation says where it went through, untouched where it was refused.
pub fn apply(ledger: EventLedger, call: Call) -> (r: (EventLedger, Result<(), EventError>))
    ensures
        r.0 == after(ledger, call),
        r.1 is Ok <==> accepted(ledger, call),
{
    match call {
        Call::BuyTickets { payer, quantity } => {
            let mut ctx = BuyTickets { ledger, payer };
            let done = buy_tickets::handle(&mut ctx, quantity);
            (ctx.ledger, done)
        },
        Call::Sponsor { payer, quantity } => {
            let mut ctx = Sponsor { ledger, payer };
            let done = sponsor::handle(&mut ctx, quantity);
            (ctx.ledger, done)
        },
        Call::WithdrawFunds { authority, amount } => {
            let mut ctx = WithdrawFunds { ledger, authority };
            let done = withdraw_funds::handle(&mut ctx, amount);
            (ctx.ledger, done)
        },
        Call::WithdrawEarnings { authority } => {
            let mut ctx = WithdrawEarnings { ledger, authority };
            let done = withdraw_earnings::handle(&mut ctx);
            (ctx.ledger, done)
        },
        Call::CloseEvent { authority } => {
            let mut ctx = CloseEvent { ledger, authority };
            let done = close_event::handle(&mut ctx);
            (ctx.ledger, done)
        },
    }
}

/// Makes all of `calls` on `ledger`, in order, going on after a refusal.
pub fn replay(ledger: EventLedger, calls: &Vec<Call>) -> (r: EventLedger)
    ensures
        r == run(ledger, calls@),
{
    let mut current = ledger;
    let mut i: usize = 0;
    while i < calls.len()
        invariant
            i <= calls.len(),
            current == run(ledger, calls@.take(i as int)),
        decreases calls.len() - i,
    {
        proof {
            assert(calls@.take(i + 1).drop_last() =~= calls@.take(i as int));
        }
        let (next, _) = apply(current, calls[i]);
        current = next;
        i += 1;
    }
    proof {
        assert(calls@.take(i as int) =~= calls@);
    }
    current
}

/// The tickets that `call` sells on `ledger`: its quantity where it is a sale
/// that goes through, else none.
pub open spec fn sold(ledger: EventLedger, call: Call) -> int {
    match call {
        Call::BuyTickets { payer, quantity } if accepted(ledger, call) => quantity as int,
        _ => 0,
    }
}

/// What `call` takes out of the treasury vault of `ledger`: its amount where
/// it is a withdrawal of ticket proceeds that goes through, else nothing.
pub open spec fn drawn(ledger: EventLedger, call: Call) -> int {
    match call {
        Call::WithdrawFunds { authority, amount } if accepted(ledger, call) => amount as int,
        _ => 0,
    }
}

/// What `call` adds to the gain vault of `ledger`: its quantity where it is a
/// sponsorship that goes through, else nothing.
pub open spec fn contributed(ledger: EventLedger, call: Call) -> int {
    match call {
        Call::Sponsor { payer, quantity } if accepted(ledger, call) => quantity as int,
        _ => 0,
    }
}

/// Whether `call` is a sponsorship that goes through on `ledger`, as a count.
pub open spec fn sponsored(ledger: EventLedger, call: Call) -> int {
    match call {
        Call::Sponsor { payer, quantity } if accepted(ledger, call) => 1,
        _ => 0,
    }
}

/// What `call` takes out of the gain vault of `ledger`: the vault's balance
/// where it is a sweep that goes through, else nothing.
pub open spec fn swept(ledger: EventLedger, call: Call) -> int {
    match call {
        Call::WithdrawEarnings { authority } if accepted(ledger, call) => ledger.gain_vault.balance as int,
        _ => 0,
    }
}

/// The tickets sold over the whole history.
pub open spec fn total_sold(ledger: EventLedger, calls: Seq<Call>) -> int
    decreases calls.len(),
{
    if calls.len() == 0 {
        0
    } else {
        total_sold(ledger, calls.drop_last()) + sold(run(ledger, calls.drop_last()), calls.last())
    }
}

/// What left the treasury vault over the whole history.
pub open spec fn total_drawn(ledger: EventLedger, calls: Seq<Call>) -> int
    decreases calls.len(),
{
    if calls.len() == 0 {
        0
    } else {
        total_drawn(ledger, calls.drop_last()) + drawn(
            run(ledger, calls.drop_last()),
            calls.last(),
        )
    }
}

/// What entered the gain vault over the whole history.
pub open spec fn total_contributed(ledger: EventLedger, calls: Seq<Call>) -> int
    decreases calls.len(),
{
    if calls.len() == 0 {
        0
    } else {
        total_contributed(ledger, calls.drop_last()) + contributed(
            run(ledger, calls.drop_last()),
            calls.last(),
        )
    }
}

/// How many sponsorships went through over the whole history.
pub open spec fn total_sponsored(ledger: EventLedger, calls: Seq<Call>) -> int
    decreases calls.len(),
{
    if calls.len() == 0 {
        0
    } else {
        total_sponsored(ledger, calls.drop_last()) + sponsored(
            run(ledger, calls.drop_last()),
            calls.last(),
        )
    }
}

/// What left the gain vault over the whole history.
pub open spec fn total_swept(ledger: EventLedger, calls: Seq<Call>) -> int
    decreases calls.len(),
{
    if calls.len() == 0 {
        0
    } else {
        total_swept(ledger, calls.drop_last()) + swept(
            run(ledger, calls.drop_last()),
            calls.last(),
        )
    }
}

/// Whether two ledgers are of the same event: same name, price, authority,
/// asset, nonces and addresses, and the same custody of the sub-accounts.
pub open spec fn same_event(a: EventLedger, b: EventLedger) -> bool {
    &&& a.address == b.address
    &&& a.event.name == b.event.name
    &&& a.event.ticket_price == b.event.ticket_price
    &&& a.event.authority == b.event.authority
    &&& a.event.accepted_mint == b.event.accepted_mint
    &&& a.event.event_bump == b.event.event_bump
    &&& a.event.event_mint_bump == b.event.event_mint_bump
    &&& a.event.treasury_vault_bump == b.event.treasury_vault_bump
    &&& a.event.gain_vault_bump == b.event.gain_vault_bump
    &&& a.event_mint.address == b.event_mint.address
    &&& a.treasury_vault.address == b.treasury_vault.address
    &&& a.gain_vault.address == b.gain_vault.address
    &&& a.event_mint.authority == b.event_mint.authority
    &&& a.treasury_vault.mint == b.treasury_vault.mint
    &&& a.treasury_vault.owner == b.treasury_vault.owner
    &&& a.gain_vault.mint == b.gain_vault.mint
    &&& a.gain_vault.owner == b.gain_vault.owner
}

/// No history changes what identifies an event: its name, price, authority,
/// asset, nonces, addresses and custody are those it started with. So the
/// accounts that passed an operation's address and custody checks once pass
/// them ever after.
pub proof fn lemma_event_is_immutable(ledger: EventLedger, calls: Seq<Call>)
    ensures
        same_event(run(ledger, calls), ledger),
        run(ledger, calls).wf() == ledger.wf(),
        run(ledger, calls).event_verifies() == ledger.event_verifies(),
        run(ledger, calls).event_mint_verifies() == ledger.event_mint_verifies(),
        run(ledger, calls).treasury_vault_verifies() == ledger.treasury_vault_verifies(),
        run(ledger, calls).gain_vault_verifies() == ledger.gain_vault_verifies(),
        run(ledger, calls).event_mint_held() == ledger.event_mint_held(),
        run(ledger, calls).treasury_vault_held() == ledger.treasury_vault_held(),
        run(ledger, calls).gain_vault_held() == ledger.gain_vault_held(),
    decreases calls.len(),
{
    if calls.len() > 0 {
        lemma_event_is_immutable(ledger, calls.drop_last());
    }
}

/// A closed event stays closed: no history brings `active` back to `true`.
/// So over any history `active` falls at most once.
pub proof fn lemma_closed_stays_closed(ledger: EventLedger, calls: Seq<Call>)
    requires
        !ledger.event.active,
    ensures
        !run(ledger, calls).event.active,
    decreases calls.len(),
{
    if calls.len() > 0 {
        lemma_closed_stays_closed(ledger, calls.drop_last());
    }
}

/// On a closed event every sale and every sponsorship is refused, and neither
/// a vault nor a counter moves, however often they are tried.
pub proof fn lemma_closed_takes_nothing(ledger: EventLedger, calls: Seq<Call>)
    requires
        !ledger.event.active,
    ensures
        total_sold(ledger, calls) == 0,
        total_contributed(ledger, calls) == 0,
        total_sponsored(ledger, calls) == 0,
        run(ledger, calls).event.sponsors == ledger.event.sponsors,
        run(ledger, calls).event_mint.supply == ledger.event_mint.supply,
        run(ledger, calls).treasury_vault.balance <= ledger.treasury_vault.balance,
        run(ledger, calls).gain_vault.balance <= ledger.gain_vault.balance,
    decreases calls.len(),
{
    if calls.len() > 0 {
        lemma_closed_takes_nothing(ledger, calls.drop_last());
        lemma_closed_stays_closed(ledger, calls.drop_last());
    }
}

/// Over any history, what the treasury vault holds plus what was withdrawn
/// from it is what it held at the start plus the price of every ticket sold.
/// The ticket mint has issued exactly the tickets sold.
pub proof fn lemma_treasury_is_conserved(ledger: EventLedger, calls: Seq<Call>)
    ensures
        run(ledger, calls).treasury_vault.balance + total_drawn(ledger, calls)
            == ledger.treasury_vault.balance + total_sold(ledger, calls)
            * ledger.event.ticket_price,
        run(ledger, calls).event_mint.supply == ledger.event_mint.supply + total_sold(
            ledger,
            calls,
        ),
    decreases calls.len(),
{
    if calls.len() > 0 {
        let before = calls.drop_last();
        lemma_treasury_is_conserved(ledger, before);
        lemma_event_is_immutable(ledger, before);
        let price = ledger.event.ticket_price as int;
        let n = total_sold(ledger, before);
        let q = sold(run(ledger, before), calls.last());
        assert((n + q) * price == n * price + q * price) by (nonlinear_arith);
    }
}

/// Over any history, what the gain vault holds plus what was swept from it is
/// what it held at the start plus every contribution, and the sponsor counter
/// has risen by one for each sponsorship that went through.
pub proof fn lemma_gain_is_conserved(ledger: EventLedger, calls: Seq<Call>)
    ensures
        run(ledger, calls).gain_vault.balance + total_swept(ledger, calls)
            == ledger.gain_vault.balance + total_contributed(ledger, calls),
        run(ledger, calls).event.sponsors == ledger.event.sponsors + total_sponsored(
            ledger,
            calls,
        ),
    decreases calls.len(),
{
    if calls.len() > 0 {
        lemma_gain_is_conserved(ledger, calls.drop_last());
    }
}

} // verus!
