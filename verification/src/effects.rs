//! What a successful call asks of the host: a ledger transfer and an event.

use vstd::prelude::*;
use crate::types::Address;

verus! {

/// The version of the event layout, carried by settlement events.
pub const SCHEMA_VERSION: u32 = 1;

/// The host's view of the ledger at the time of a call.
#[derive(Clone, Copy, Debug, PartialEq, Eq)]
pub struct Clock {
    /// The number of the current ledger entry.
    pub sequence: u32,
    /// The current time, in seconds.
    pub timestamp: u64,
}

/// A movement of funds between a party and the engine's custody, to be
/// carried out on the ledger.
#[derive(Clone, Copy, Debug, PartialEq, Eq)]
pub enum Transfer {
    /// From a sender into custody, when a remittance is created.
    Deposit { from: Address, amount: i128 },
    /// From custody to the agent, at settlement.
    Payout { to: Address, amount: i128 },
    /// From custody back to the sender, when a remittance fails or is cancelled.
    Refund { to: Address, amount: i128 },
    /// The accumulated fees, from custody to a recipient.
    FeeWithdrawal { to: Address, amount: i128 },
}

impl Transfer {
    /// The amount that moves.
    pub open spec fn spec_amount(&self) -> i128 {
        match *self {
            Transfer::Deposit { amount, .. } => amount,
            Transfer::Payout { amount, .. } => amount,
            Transfer::Refund { amount, .. } => amount,
            Transfer::FeeWithdrawal { amount, .. } => amount,
        }
    }

    /// The party on the other side of custody.
    pub open spec fn spec_party(&self) -> Address {
        match *self {
            Transfer::Deposit { from, .. } => from,
            Transfer::Payout { to, .. } => to,
            Transfer::Refund { to, .. } => to,
            Transfer::FeeWithdrawal { to, .. } => to,
        }
    }

    /// Whether the funds move into custody rather than out of it.
    pub open spec fn spec_is_inbound(&self) -> bool {
        *self is Deposit
    }

    /// The amount that moves.
    #[verifier::when_used_as_spec(spec_amount)]
    pub fn amount(&self) -> (a: i128)
        ensures
            a == self.spec_amount(),
    {
        match *self {
            Transfer::Deposit { amount, .. } => amount,
            Transfer::Payout { amount, .. } => amount,
            Transfer::Refund { amount, .. } => amount,
            Transfer::FeeWithdrawal { amount, .. } => amount,
        }
    }

    /// The party on the other side of custody.
    #[verifier::when_used_as_spec(spec_party)]
    pub fn party(&self) -> (p: Address)
        ensures
            p == self.spec_party(),
    {
        match *self {
            Transfer::Deposit { from, .. } => from,
            Transfer::Payout { to, .. } => to,
            Transfer::Refund { to, .. } => to,
            Transfer::FeeWithdrawal { to, .. } => to,
        }
    }

    /// Whether the funds move into custody rather than out of it.
    #[verifier::when_used_as_spec(spec_is_inbound)]
    pub fn is_inbound(&self) -> (inbound: bool)
        ensures
            inbound == self.spec_is_inbound(),
    {
        match *self {
            Transfer::Deposit { .. } => true,
            _ => false,
        }
    }
}

/// A notice for downstream observers. The order of the fields of each kind
/// is fixed.
#[derive(Clone, Copy, Debug, PartialEq, Eq)]
pub enum Event {
    AgentRegistered { actor: Address },
    RemittanceCreated { id: u64, sender: Address, agent: Address, amount: i128, fee: i128 },
    RemittanceCancelled { id: u64, sender: Address, agent: Address, amount: i128 },
    RemittanceFailed { id: u64, sender: Address, agent: Address, amount: i128 },
    SettlementCompleted {
        schema_version: u32,
        sequence: u32,
        timestamp: u64,
        sender: Address,
        agent: Address,
        token: Address,
        payout_amount: i128,
    },
    RemittanceFinalized { id: u64 },
}

/// What the host must do after a successful call.
#[derive(Clone, Copy, Debug, PartialEq, Eq)]
pub struct Effects {
    /// The transfer to carry out on the ledger, if the call moves funds.
    pub transfer: Option<Transfer>,
    /// The event to publish, if the call has one.
    pub event: Option<Event>,
}

impl Effects {
    /// No transfer and no event.
    pub open spec fn spec_none() -> Effects {
        Effects { transfer: None, event: None }
    }

    /// No transfer and no event.
    #[verifier::when_used_as_spec(spec_none)]
    pub fn none() -> (e: Effects)
        ensures
            e == Effects::spec_none(),
    {
        Effects { transfer: None, event: None }
    }
}

} // verus!
