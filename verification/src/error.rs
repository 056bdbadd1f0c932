//! The ways a call can be refused.

use vstd::prelude::*;

verus! {

/// Why a call was refused. A refused call changes nothing.
#[derive(Clone, Copy, Debug, PartialEq, Eq, Hash, Structural)]
pub enum Error {
    /// `initialize` was called on an engine that is already set up.
    AlreadyInitialized,
    /// The engine has not been set up yet.
    NotInitialized,
    /// The amount of a remittance is zero or negative.
    InvalidAmount,
    /// The fee rate is above 10000 basis points.
    InvalidFeeBps,
    /// The named agent is not in the agent registry.
    AgentNotRegistered,
    /// The agent is already in the agent registry.
    AgentAlreadyRegistered,
    /// No remittance has the given id.
    RemittanceNotFound,
    /// The caller does not hold the role that the call asks for.
    Unauthorized,
    /// The remittance's expiry lies before the current time.
    SettlementExpired,
    /// The remittance has already been paid out.
    DuplicateSettlement,
    /// Fund-moving calls are switched off.
    ContractPaused,
    /// The identity is already an administrator.
    AdminAlreadyExists,
    /// The identity is not an administrator.
    AdminNotFound,
    /// Removing the administrator would leave none.
    CannotRemoveLastAdmin,
    /// The transition table has no move from the current state to the requested one.
    InvalidStateTransition,
    /// No fees have accumulated.
    NoFeesAvailable,
}

} // verus!
