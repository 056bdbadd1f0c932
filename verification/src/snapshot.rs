//! The engine's state as plain values, for keeping it between calls.

use vstd::prelude::*;
use crate::model::State;
use crate::types::{Address, PlatformConfig, Remittance};

verus! {

/// Everything the engine remembers, as it is written to and read from the
/// host's storage.
#[derive(Clone, Debug, PartialEq, Eq)]
pub struct Snapshot {
    /// The platform's settings; `None` until the engine is set up.
    pub config: Option<PlatformConfig>,
    /// The administrators.
    pub admins: Vec<Address>,
    /// The registered agents.
    pub agents: Vec<Address>,
    /// Every remittance, in the order of the ids.
    pub remittances: Vec<Remittance>,
    /// The ids that the settlement guard has marked.
    pub settled: Vec<u64>,
    /// The fees not yet withdrawn.
    pub accumulated_fees: i128,
    /// Whether fund-moving calls are switched off.
    pub paused: bool,
}

impl View for Snapshot {
    type V = State;

    /// The state that the snapshot describes. The order of the
    /// administrators, of the agents and of the marked ids, and repeats among
    /// them, do not matter.
    open spec fn view(&self) -> State {
        State {
            config: self.config,
            admins: self.admins@.to_set(),
            agents: self.agents@.to_set(),
            remittances: self.remittances@,
            settled: self.settled@.to_set(),
            accumulated_fees: self.accumulated_fees as int,
            paused: self.paused,
        }
    }
}

} // verus!
