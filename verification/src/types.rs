//! Identities, remittance records and their lifecycle states.

use vstd::prelude::*;

verus! {

/// Whether an identity names an account or a contract.
#[derive(Clone, Copy, Debug, PartialEq, Eq, Hash, Structural)]
pub enum AddressKind {
    Account,
    Contract,
}

/// The identity of a party: a 256-bit key, held as two halves, and its kind.
///
/// The engine only ever compares identities; it never verifies one.
#[derive(Clone, Copy, Debug, PartialEq, Eq, Hash, Structural)]
pub struct Address {
    pub kind: AddressKind,
    pub hi: u128,
    pub lo: u128,
}

impl Address {
    /// The account identity with the given key.
    pub fn account(hi: u128, lo: u128) -> (a: Address)
        ensures
            a == (Address { kind: AddressKind::Account, hi, lo }),
    {
        Address { kind: AddressKind::Account, hi, lo }
    }

    /// The contract identity with the given key.
    pub fn contract(hi: u128, lo: u128) -> (a: Address)
        ensures
            a == (Address { kind: AddressKind::Contract, hi, lo }),
    {
        Address { kind: AddressKind::Contract, hi, lo }
    }
}

/// Where a remittance stands in its lifecycle.
#[derive(Clone, Copy, Debug, PartialEq, Eq, Hash, Structural)]
pub enum RemittanceStatus {
    Pending,
    Authorized,
    Settled,
    Finalized,
    Failed,
}

impl RemittanceStatus {
    /// The transition table: the five moves a remittance may make.
    pub open spec fn spec_can_transition_to(&self, next: &RemittanceStatus) -> bool {
        ||| (*self == RemittanceStatus::Pending && *next == RemittanceStatus::Authorized)
        ||| (*self == RemittanceStatus::Pending && *next == RemittanceStatus::Failed)
        ||| (*self == RemittanceStatus::Authorized && *next == RemittanceStatus::Settled)
        ||| (*self == RemittanceStatus::Authorized && *next == RemittanceStatus::Failed)
        ||| (*self == RemittanceStatus::Settled && *next == RemittanceStatus::Finalized)
    }

    /// A state that no transition leaves.
    pub open spec fn spec_is_terminal(&self) -> bool {
        *self == RemittanceStatus::Finalized || *self == RemittanceStatus::Failed
    }

    /// Whether the table allows a move from `self` to `next`.
    #[verifier::when_used_as_spec(spec_can_transition_to)]
    pub fn can_transition_to(&self, next: &RemittanceStatus) -> (allowed: bool)
        ensures
            allowed == self.spec_can_transition_to(next),
    {
        match (self, next) {
            (RemittanceStatus::Pending, RemittanceStatus::Authorized) => true,
            (RemittanceStatus::Pending, RemittanceStatus::Failed) => true,
            (RemittanceStatus::Authorized, RemittanceStatus::Settled) => true,
            (RemittanceStatus::Authorized, RemittanceStatus::Failed) => true,
            (RemittanceStatus::Settled, RemittanceStatus::Finalized) => true,
            _ => false,
        }
    }

    /// Whether the state is `Finalized` or `Failed`.
    #[verifier::when_used_as_spec(spec_is_terminal)]
    pub fn is_terminal(&self) -> (terminal: bool)
        ensures
            terminal == self.spec_is_terminal(),
    {
        match self {
            RemittanceStatus::Finalized => true,
            RemittanceStatus::Failed => true,
            _ => false,
        }
    }
}

/// One escrowed transfer instruction from a sender to an agent.
///
/// A record is never deleted; after creation only `status` changes.
#[derive(Clone, Copy, Debug, PartialEq, Eq)]
pub struct Remittance {
    pub id: u64,
    pub sender: Address,
    pub agent: Address,
    pub amount: i128,
    pub fee: i128,
    pub status: RemittanceStatus,
    pub expiry: Option<u64>,
}

impl Remittance {
    /// The same record in another lifecycle state.
    pub open spec fn spec_with_status(self, status: RemittanceStatus) -> Remittance {
        Remittance { status, ..self }
    }

    /// What the agent receives at settlement: the amount less the fee.
    pub open spec fn spec_payout(self) -> int {
        self.amount - self.fee
    }

    /// Field invariants of a stored record: a positive amount and a fee
    /// between zero and the amount.
    pub open spec fn well_formed(self) -> bool {
        0 < self.amount && 0 <= self.fee <= self.amount
    }

    /// The same record in another lifecycle state.
    #[verifier::when_used_as_spec(spec_with_status)]
    pub fn with_status(self, status: RemittanceStatus) -> (r: Remittance)
        ensures
            r == self.spec_with_status(status),
    {
        Remittance {
            id: self.id,
            sender: self.sender,
            agent: self.agent,
            amount: self.amount,
            fee: self.fee,
            status,
            expiry: self.expiry,
        }
    }

    /// What the agent receives at settlement: the amount less the fee.
    pub fn payout(&self) -> (p: i128)
        requires
            self.well_formed(),
        ensures
            p == self.spec_payout(),
            0 <= p <= self.amount,
            p + self.fee == self.amount,
    {
        self.amount - self.fee
    }
}

/// The platform's settings: the ledger token and the fee rate.
#[derive(Clone, Copy, Debug, PartialEq, Eq)]
pub struct PlatformConfig {
    pub token: Address,
    pub fee_bps: u32,
}

} // verus!
