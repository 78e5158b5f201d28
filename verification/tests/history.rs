use events_manager::collections::EventLedger;
use events_manager::collections::Party;
use events_manager::create_event;
use events_manager::deriver::Address;
use events_manager::error::EventError;
use events_manager::history::apply;
use events_manager::history::replay;
use events_manager::history::Call;
use events_manager::instructions::CreateEvent;

fn party(seed: u8, funds: u64) -> Party {
    Party { key: Address { bytes: [seed; 32] }, is_signer: true, funds, tickets: 0 }
}

fn fresh(ticket_price: u64) -> EventLedger {
    let mut ctx = CreateEvent {
        authority: party(1, 0),
        accepted_mint: Address { bytes: [200; 32] },
        ledger: None,
    };
    assert_eq!(create_event(&mut ctx, "Fair".to_string(), ticket_price), Ok(()));
    ctx.ledger.unwrap()
}

#[test]
fn apply_hands_back_the_changed_ledger() {
    let (ledger, done) = apply(fresh(100), Call::BuyTickets { payer: party(2, 500), quantity: 4 });
    assert_eq!(done, Ok(()));
    assert_eq!(ledger.treasury_vault.balance, 400);
    assert_eq!(ledger.event_mint.supply, 4);
}

#[test]
fn apply_hands_back_the_ledger_untouched_on_refusal() {
    let before = fresh(100);
    let (ledger, done) =
        apply(before.clone(), Call::WithdrawFunds { authority: party(1, 0), amount: 1 });
    assert_eq!(done, Err(EventError::InsufficientFunds));
    assert_eq!(ledger, before);
    let (ledger, done) = apply(ledger, Call::CloseEvent { authority: party(5, 0) });
    assert_eq!(done, Err(EventError::Unauthorized));
    assert_eq!(ledger, before);
}

#[test]
fn replay_keeps_the_treasury_in_balance() {
    let calls = vec![
        Call::BuyTickets { payer: party(2, 1_000), quantity: 3 },
        Call::Sponsor { payer: party(3, 1_000), quantity: 500 },
        Call::BuyTickets { payer: party(4, 10), quantity: 1 },
        Call::WithdrawFunds { authority: party(9, 0), amount: 50 },
        Call::WithdrawFunds { authority: party(1, 0), amount: 120 },
        Call::BuyTickets { payer: party(5, 1_000), quantity: 0 },
        Call::BuyTickets { payer: party(5, 1_000), quantity: 2 },
        Call::Sponsor { payer: party(6, 1_000), quantity: 20 },
    ];
    let ledger = replay(fresh(100), &calls);
    // sold 3 + 2 tickets at 100, withdrew 120
    assert_eq!(ledger.treasury_vault.balance + 120, 5 * 100);
    assert_eq!(ledger.event_mint.supply, 5);
    assert_eq!(ledger.gain_vault.balance, 520);
    assert_eq!(ledger.event.sponsors, 2);
    assert!(ledger.event.active);
    assert_eq!(ledger.event.ticket_price, 100);
    assert_eq!(ledger.event.name, "Fair");
}

#[test]
fn replay_never_reopens_a_closed_event() {
    let calls = vec![
        Call::BuyTickets { payer: party(2, 1_000), quantity: 3 },
        Call::Sponsor { payer: party(3, 1_000), quantity: 500 },
        Call::CloseEvent { authority: party(1, 0) },
        Call::BuyTickets { payer: party(2, 1_000), quantity: 1 },
        Call::Sponsor { payer: party(3, 1_000), quantity: 1 },
        Call::CloseEvent { authority: party(1, 0) },
        Call::WithdrawEarnings { authority: party(1, 0) },
        Call::WithdrawFunds { authority: party(1, 0), amount: 300 },
    ];
    let ledger = replay(fresh(100), &calls);
    assert!(!ledger.event.active);
    assert_eq!(ledger.treasury_vault.balance, 0);
    assert_eq!(ledger.gain_vault.balance, 0);
    assert_eq!(ledger.event_mint.supply, 3);
    assert_eq!(ledger.event.sponsors, 1);
}

#[test]
fn replay_of_nothing_changes_nothing() {
    let before = fresh(7);
    assert_eq!(replay(before.clone(), &Vec::new()), before);
}
