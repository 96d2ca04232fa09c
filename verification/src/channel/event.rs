//! The events that a channel publishes.

use vstd::prelude::*;

use crate::host::Address;

verus! {

/// A channel was opened.
#[derive(Clone, Copy, Debug, PartialEq, Eq)]
pub struct Open {
    pub from: Address,
    pub commitment_key: [u8; 32],
    pub to: Address,
    pub token: Address,
    pub amount: i128,
    pub refund_waiting_period: u32,
}

/// The funder deposited tokens.
#[derive(Clone, Copy, Debug, PartialEq, Eq)]
pub struct Deposit {
    pub from: Address,
    pub amount: i128,
}

/// The recipient withdrew tokens.
#[derive(Clone, Copy, Debug, PartialEq, Eq)]
pub struct Withdraw {
    pub to: Address,
    pub amount: i128,
}

/// The channel is closed from the given ledger on.
#[derive(Clone, Copy, Debug, PartialEq, Eq)]
pub struct Close {
    pub effective_at_ledger: u32,
}

/// The funder was refunded.
#[derive(Clone, Copy, Debug, PartialEq, Eq)]
pub struct Refund {
    pub from: Address,
    pub amount: i128,
}

/// Anything that a channel publishes.
#[derive(Clone, Copy, Debug, PartialEq, Eq)]
pub enum Event {
    Open(Open),
    Deposit(Deposit),
    Withdraw(Withdraw),
    Close(Close),
    Refund(Refund),
}

impl Event {
    /// The first topic of the event: its name.
    pub fn name(&self) -> (name: &'static str)
        ensures
            name@ == match *self {
                Event::Open(_) => "open"@,
                Event::Deposit(_) => "deposit"@,
                Event::Withdraw(_) => "withdraw"@,
                Event::Close(_) => "close"@,
                Event::Refund(_) => "refund"@,
            },
    {
        match *self {
            Event::Open(_) => "open",
            Event::Deposit(_) => "deposit",
            Event::Withdraw(_) => "withdraw",
            Event::Close(_) => "close",
            Event::Refund(_) => "refund",
        }
    }

    /// The topics after the name: the parties that the event concerns, the
    /// funder before the recipient.
    pub fn topics(&self) -> (topics: Vec<Address>)
        ensures
            topics@ == match *self {
                Event::Open(e) => seq![e.from, e.to],
                Event::Deposit(e) => seq![e.from],
                Event::Withdraw(e) => seq![e.to],
                Event::Close(_) => seq![],
                Event::Refund(e) => seq![e.from],
            },
    {
        let mut topics: Vec<Address> = Vec::new();
        match *self {
            Event::Open(e) => {
                topics.push(e.from);
                topics.push(e.to);
            },
            Event::Deposit(e) => topics.push(e.from),
            Event::Withdraw(e) => topics.push(e.to),
            Event::Close(_) => {},
            Event::Refund(e) => topics.push(e.from),
        }
        topics
    }
}

} // verus!
