//! The engine as a mathematical state machine: its state, the invariant that
//! every reachable state meets, and what each call does.
//!
//! A call `x` is described by up to three functions. `x_refusal` says why the
//! call is refused, if it is: its tests are made from top to bottom, and the
//! first that fails names the error. `x_state` is the state after a call that
//! is not refused, and `x_effects` is what such a call asks of the host. A
//! call without `x_effects` asks for nothing.

use vstd::prelude::*;
use crate::effects::{Clock, Effects, Event, Transfer, SCHEMA_VERSION};
use crate::error::Error;
use crate::fees::spec_fee;
use crate::types::{Address, PlatformConfig, Remittance, RemittanceStatus};

verus! {

/// Everything the engine remembers between calls.
pub struct State {
    /// The platform's settings; `None` until the engine is set up.
    pub config: Option<PlatformConfig>,
    /// The administrators, all with the same rights.
    pub admins: Set<Address>,
    /// The agents that a new remittance may name.
    pub agents: Set<Address>,
    /// Every remittance ever created; the one with id `n` stands at `n - 1`.
    pub remittances: Seq<Remittance>,
    /// The settlement guard: the ids that have been paid out.
    pub settled: Set<u64>,
    /// The fees owed to the platform and not yet withdrawn.
    pub accumulated_fees: int,
    /// Whether fund-moving calls are switched off.
    pub paused: bool,
}

/// Whether a record still has its amount in custody: it is neither paid out
/// nor refunded.
pub open spec fn holds_escrow(r: Remittance, settled: Set<u64>) -> bool {
    &&& r.status == RemittanceStatus::Pending || r.status == RemittanceStatus::Authorized
    &&& !settled.contains(r.id)
}

/// What a record contributes to custody.
pub open spec fn escrow_of(r: Remittance, settled: Set<u64>) -> int {
    if holds_escrow(r, settled) {
        r.amount as int
    } else {
        0
    }
}

/// The sum of the amounts that the records still have in custody.
pub open spec fn escrow_sum(records: Seq<Remittance>, settled: Set<u64>) -> int
    decreases records.len(),
{
    if records.len() == 0 {
        0
    } else {
        escrow_sum(records.drop_last(), settled) + escrow_of(records.last(), settled)
    }
}

/// What a transfer adds to custody: a deposit adds its amount, every other
/// transfer takes its amount away.
pub open spec fn custody_change(transfer: Option<Transfer>) -> int {
    match transfer {
        None => 0,
        Some(Transfer::Deposit { amount, .. }) => amount as int,
        Some(Transfer::Payout { amount, .. }) => -(amount as int),
        Some(Transfer::Refund { amount, .. }) => -(amount as int),
        Some(Transfer::FeeWithdrawal { amount, .. }) => -(amount as int),
    }
}

/// Whether a record can no longer be settled at the given time.
pub open spec fn expired(r: Remittance, clock: Clock) -> bool {
    r.expiry is Some && clock.timestamp > r.expiry->Some_0
}

impl State {
    /// The state of an engine that has not been set up.
    pub open spec fn initial() -> State {
        State {
            config: None,
            admins: Set::empty(),
            agents: Set::empty(),
            remittances: Seq::empty(),
            settled: Set::empty(),
            accumulated_fees: 0,
            paused: false,
        }
    }

    /// Whether the engine has been set up.
    pub open spec fn is_initialized(self) -> bool {
        self.config is Some
    }

    /// The fee rate in force.
    pub open spec fn fee_bps(self) -> u32 {
        self.config->Some_0.fee_bps
    }

    /// The ledger token.
    pub open spec fn token(self) -> Address {
        self.config->Some_0.token
    }

    /// Whether a remittance with this id exists.
    pub open spec fn has(self, id: u64) -> bool {
        1 <= id <= self.remittances.len()
    }

    /// The remittance with this id.
    pub open spec fn record(self, id: u64) -> Remittance
        recommends
            self.has(id),
    {
        self.remittances[id - 1]
    }

    /// The id that the next remittance gets.
    pub open spec fn next_id(self) -> u64 {
        (self.remittances.len() + 1) as u64
    }

    /// The same state with one remittance moved to another lifecycle state.
    pub open spec fn with_status(self, id: u64, status: RemittanceStatus) -> State
        recommends
            self.has(id),
    {
        State {
            remittances: self.remittances.update(id - 1, self.record(id).with_status(status)),
            ..self
        }
    }

    /// The sum of the amounts held for remittances that are neither paid out
    /// nor refunded.
    pub open spec fn escrowed(self) -> int {
        escrow_sum(self.remittances, self.settled)
    }

    /// All that the engine holds on the ledger: the escrowed amounts and the
    /// fees not yet withdrawn.
    pub open spec fn custody(self) -> int {
        self.escrowed() + self.accumulated_fees
    }

    /// Whether one more remittance of this amount stays within the machine's
    /// number ranges: an id is left for it, and custody can hold its amount.
    pub open spec fn has_room_for(self, amount: i128) -> bool {
        &&& self.remittances.len() < u64::MAX
        &&& self.custody() + amount <= i128::MAX
    }

    /// The invariant of every reachable state.
    pub open spec fn wf(self) -> bool {
        &&& self.admins.finite()
        &&& self.agents.finite()
        &&& self.settled.finite()
        &&& match self.config {
            Some(c) => c.fee_bps <= 10000 && self.admins.len() >= 1,
            None => self == State::initial(),
        }
        &&& self.remittances.len() <= u64::MAX
        &&& forall|i: int|
            0 <= i < self.remittances.len() ==> {
                let r = #[trigger] self.remittances[i];
                &&& r.id == i + 1
                &&& r.well_formed()
                &&& (r.status == RemittanceStatus::Settled || r.status
                    == RemittanceStatus::Finalized) ==> self.settled.contains(r.id)
            }
        &&& forall|id: u64| #[trigger] self.settled.contains(id) ==> self.has(id)
        &&& 0 <= self.accumulated_fees
        &&& self.custody() <= i128::MAX
    }
}

/// Why a call that only an administrator may make is refused before it looks
/// at its arguments.
pub open spec fn admin_refusal(s: State, caller: Address) -> Option<Error> {
    if !s.is_initialized() {
        Some(Error::NotInitialized)
    } else if !s.admins.contains(caller) {
        Some(Error::Unauthorized)
    } else {
        None
    }
}

// ---------------------------------------------------------------------------
// Setting up, administrators, agents, fee rate, circuit breaker
// ---------------------------------------------------------------------------

pub open spec fn initialize_refusal(s: State, fee_bps: u32) -> Option<Error> {
    if s.is_initialized() {
        Some(Error::AlreadyInitialized)
    } else if fee_bps > 10000 {
        Some(Error::InvalidFeeBps)
    } else {
        None
    }
}

pub open spec fn initialize_state(
    s: State,
    first_admin: Address,
    token: Address,
    fee_bps: u32,
) -> State {
    State {
        config: Some(PlatformConfig { token, fee_bps }),
        admins: s.admins.insert(first_admin),
        ..s
    }
}

pub open spec fn add_admin_refusal(s: State, caller: Address, new_admin: Address) -> Option<
    Error,
> {
    if admin_refusal(s, caller) is Some {
        admin_refusal(s, caller)
    } else if s.admins.contains(new_admin) {
        Some(Error::AdminAlreadyExists)
    } else {
        None
    }
}

pub open spec fn add_admin_state(s: State, new_admin: Address) -> State {
    State { admins: s.admins.insert(new_admin), ..s }
}

pub open spec fn remove_admin_refusal(s: State, caller: Address, target: Address) -> Option<
    Error,
> {
    if admin_refusal(s, caller) is Some {
        admin_refusal(s, caller)
    } else if !s.admins.contains(target) {
        Some(Error::AdminNotFound)
    } else if s.admins.len() <= 1 {
        Some(Error::CannotRemoveLastAdmin)
    } else {
        None
    }
}

pub open spec fn remove_admin_state(s: State, target: Address) -> State {
    State { admins: s.admins.remove(target), ..s }
}

pub open spec fn register_agent_refusal(s: State, caller: Address, agent: Address) -> Option<
    Error,
> {
    if admin_refusal(s, caller) is Some {
        admin_refusal(s, caller)
    } else if s.agents.contains(agent) {
        Some(Error::AgentAlreadyRegistered)
    } else {
        None
    }
}

pub open spec fn register_agent_state(s: State, agent: Address) -> State {
    State { agents: s.agents.insert(agent), ..s }
}

pub open spec fn register_agent_effects(agent: Address) -> Effects {
    Effects { transfer: None, event: Some(Event::AgentRegistered { actor: agent }) }
}

pub open spec fn remove_agent_refusal(s: State, caller: Address, agent: Address) -> Option<
    Error,
> {
    if admin_refusal(s, caller) is Some {
        admin_refusal(s, caller)
    } else if !s.agents.contains(agent) {
        Some(Error::AgentNotRegistered)
    } else {
        None
    }
}

pub open spec fn remove_agent_state(s: State, agent: Address) -> State {
    State { agents: s.agents.remove(agent), ..s }
}

pub open spec fn update_fee_refusal(s: State, caller: Address, fee_bps: u32) -> Option<Error> {
    if admin_refusal(s, caller) is Some {
        admin_refusal(s, caller)
    } else if fee_bps > 10000 {
        Some(Error::InvalidFeeBps)
    } else {
        None
    }
}

pub open spec fn update_fee_state(s: State, fee_bps: u32) -> State {
    State { config: Some(PlatformConfig { token: s.token(), fee_bps }), ..s }
}

pub open spec fn set_paused_state(s: State, paused: bool) -> State {
    State { paused, ..s }
}

// ---------------------------------------------------------------------------
// The remittance lifecycle
// ---------------------------------------------------------------------------

pub open spec fn create_refusal(s: State, agent: Address, amount: i128) -> Option<Error> {
    if !s.is_initialized() {
        Some(Error::NotInitialized)
    } else if s.paused {
        Some(Error::ContractPaused)
    } else if amount <= 0 {
        Some(Error::InvalidAmount)
    } else if !s.agents.contains(agent) {
        Some(Error::AgentNotRegistered)
    } else {
        None
    }
}

/// The record that a creation stores: the next id, the fee at the rate in
/// force, and the state `Pending`.
pub open spec fn created_record(
    s: State,
    sender: Address,
    agent: Address,
    amount: i128,
    expiry: Option<u64>,
) -> Remittance {
    Remittance {
        id: s.next_id(),
        sender,
        agent,
        amount,
        fee: spec_fee(amount as int, s.fee_bps() as int) as i128,
        status: RemittanceStatus::Pending,
        expiry,
    }
}

pub open spec fn create_state(
    s: State,
    sender: Address,
    agent: Address,
    amount: i128,
    expiry: Option<u64>,
) -> State {
    State {
        remittances: s.remittances.push(created_record(s, sender, agent, amount, expiry)),
        ..s
    }
}

pub open spec fn create_effects(
    s: State,
    sender: Address,
    agent: Address,
    amount: i128,
    expiry: Option<u64>,
) -> Effects {
    let r = created_record(s, sender, agent, amount, expiry);
    Effects {
        transfer: Some(Transfer::Deposit { from: sender, amount }),
        event: Some(
            Event::RemittanceCreated { id: r.id, sender, agent, amount, fee: r.fee },
        ),
    }
}

/// Why a move of one remittance by an administrator is refused.
pub open spec fn admin_move_refusal(
    s: State,
    caller: Address,
    id: u64,
    next: RemittanceStatus,
) -> Option<Error> {
    if admin_refusal(s, caller) is Some {
        admin_refusal(s, caller)
    } else if !s.has(id) {
        Some(Error::RemittanceNotFound)
    } else if !s.record(id).status.can_transition_to(&next) {
        Some(Error::InvalidStateTransition)
    } else {
        None
    }
}

pub open spec fn authorize_refusal(s: State, caller: Address, id: u64) -> Option<Error> {
    admin_move_refusal(s, caller, id, RemittanceStatus::Authorized)
}

pub open spec fn authorize_state(s: State, id: u64) -> State {
    s.with_status(id, RemittanceStatus::Authorized)
}

pub open spec fn settle_refusal(s: State, caller: Address, id: u64, clock: Clock) -> Option<
    Error,
> {
    if !s.is_initialized() {
        Some(Error::NotInitialized)
    } else if s.paused {
        Some(Error::ContractPaused)
    } else if !s.has(id) {
        Some(Error::RemittanceNotFound)
    } else if s.record(id).agent != caller {
        Some(Error::Unauthorized)
    } else if s.settled.contains(id) {
        Some(Error::DuplicateSettlement)
    } else if !s.record(id).status.can_transition_to(&RemittanceStatus::Settled) {
        Some(Error::InvalidStateTransition)
    } else if expired(s.record(id), clock) {
        Some(Error::SettlementExpired)
    } else {
        None
    }
}

pub open spec fn settle_state(s: State, id: u64) -> State {
    State {
        remittances: s.remittances.update(
            id - 1,
            s.record(id).with_status(RemittanceStatus::Settled),
        ),
        settled: s.settled.insert(id),
        accumulated_fees: s.accumulated_fees + s.record(id).fee,
        ..s
    }
}

pub open spec fn settle_effects(s: State, id: u64, clock: Clock) -> Effects {
    let r = s.record(id);
    Effects {
        transfer: Some(Transfer::Payout { to: r.agent, amount: (r.amount - r.fee) as i128 }),
        event: Some(
            Event::SettlementCompleted {
                schema_version: SCHEMA_VERSION,
                sequence: clock.sequence,
                timestamp: clock.timestamp,
                sender: r.sender,
                agent: r.agent,
                token: s.token(),
                payout_amount: (r.amount - r.fee) as i128,
            },
        ),
    }
}

pub open spec fn finalize_refusal(s: State, caller: Address, id: u64) -> Option<Error> {
    admin_move_refusal(s, caller, id, RemittanceStatus::Finalized)
}

pub open spec fn finalize_state(s: State, id: u64) -> State {
    s.with_status(id, RemittanceStatus::Finalized)
}

pub open spec fn finalize_effects(id: u64) -> Effects {
    Effects { transfer: None, event: Some(Event::RemittanceFinalized { id }) }
}

pub open spec fn fail_refusal(s: State, caller: Address, id: u64) -> Option<Error> {
    admin_move_refusal(s, caller, id, RemittanceStatus::Failed)
}

pub open spec fn cancel_refusal(s: State, caller: Address, id: u64) -> Option<Error> {
    if !s.is_initialized() {
        Some(Error::NotInitialized)
    } else if !s.has(id) {
        Some(Error::RemittanceNotFound)
    } else if s.record(id).sender != caller {
        Some(Error::Unauthorized)
    } else if s.record(id).status != RemittanceStatus::Pending {
        Some(Error::InvalidStateTransition)
    } else {
        None
    }
}

/// The state after a remittance has failed or been cancelled.
pub open spec fn fail_state(s: State, id: u64) -> State {
    s.with_status(id, RemittanceStatus::Failed)
}

/// The refund owed when a remittance fails or is cancelled: the whole
/// amount, unless the guard says that it has been paid out.
pub open spec fn refund_of(s: State, id: u64) -> Option<Transfer> {
    if s.settled.contains(id) {
        None
    } else {
        Some(Transfer::Refund { to: s.record(id).sender, amount: s.record(id).amount })
    }
}

pub open spec fn fail_effects(s: State, id: u64) -> Effects {
    let r = s.record(id);
    Effects {
        transfer: refund_of(s, id),
        event: Some(
            Event::RemittanceFailed { id, sender: r.sender, agent: r.agent, amount: r.amount },
        ),
    }
}

pub open spec fn cancel_effects(s: State, id: u64) -> Effects {
    let r = s.record(id);
    Effects {
        transfer: refund_of(s, id),
        event: Some(
            Event::RemittanceCancelled {
                id,
                sender: r.sender,
                agent: r.agent,
                amount: r.amount,
            },
        ),
    }
}

pub open spec fn withdraw_fees_refusal(s: State, caller: Address) -> Option<Error> {
    if admin_refusal(s, caller) is Some {
        admin_refusal(s, caller)
    } else if s.paused {
        Some(Error::ContractPaused)
    } else if s.accumulated_fees <= 0 {
        Some(Error::NoFeesAvailable)
    } else {
        None
    }
}

pub open spec fn withdraw_fees_state(s: State) -> State {
    State { accumulated_fees: 0, ..s }
}

pub open spec fn withdraw_fees_effects(s: State, recipient: Address) -> Effects {
    Effects {
        transfer: Some(
            Transfer::FeeWithdrawal { to: recipient, amount: s.accumulated_fees as i128 },
        ),
        event: None,
    }
}

// ---------------------------------------------------------------------------
// Calls as values
// ---------------------------------------------------------------------------

/// One call on the engine with its arguments. The `caller` of a call is the
/// identity that the host has verified for it; a creation's caller is its
/// sender.
#[derive(Clone, Copy, Debug, PartialEq, Eq)]
pub enum Call {
    Initialize { first_admin: Address, token: Address, fee_bps: u32 },
    AddAdmin { caller: Address, new_admin: Address },
    RemoveAdmin { caller: Address, target: Address },
    RegisterAgent { caller: Address, agent: Address },
    RemoveAgent { caller: Address, agent: Address },
    UpdateFee { caller: Address, fee_bps: u32 },
    Pause { caller: Address },
    Unpause { caller: Address },
    Create { sender: Address, agent: Address, amount: i128, expiry: Option<u64> },
    Authorize { caller: Address, id: u64 },
    Settle { caller: Address, id: u64, clock: Clock },
    Finalize { caller: Address, id: u64 },
    Fail { caller: Address, id: u64 },
    Cancel { caller: Address, id: u64 },
    WithdrawFees { caller: Address, recipient: Address },
}

/// Why the call is refused in state `s`, if it is.
pub open spec fn refusal(s: State, call: Call) -> Option<Error> {
    match call {
        Call::Initialize { fee_bps, .. } => initialize_refusal(s, fee_bps),
        Call::AddAdmin { caller, new_admin } => add_admin_refusal(s, caller, new_admin),
        Call::RemoveAdmin { caller, target } => remove_admin_refusal(s, caller, target),
        Call::RegisterAgent { caller, agent } => register_agent_refusal(s, caller, agent),
        Call::RemoveAgent { caller, agent } => remove_agent_refusal(s, caller, agent),
        Call::UpdateFee { caller, fee_bps } => update_fee_refusal(s, caller, fee_bps),
        Call::Pause { caller } => admin_refusal(s, caller),
        Call::Unpause { caller } => admin_refusal(s, caller),
        Call::Create { agent, amount, .. } => create_refusal(s, agent, amount),
        Call::Authorize { caller, id } => authorize_refusal(s, caller, id),
        Call::Settle { caller, id, clock } => settle_refusal(s, caller, id, clock),
        Call::Finalize { caller, id } => finalize_refusal(s, caller, id),
        Call::Fail { caller, id } => fail_refusal(s, caller, id),
        Call::Cancel { caller, id } => cancel_refusal(s, caller, id),
        Call::WithdrawFees { caller, .. } => withdraw_fees_refusal(s, caller),
    }
}

/// The state after the call: the state before it, if the call is refused.
pub open spec fn next_state(s: State, call: Call) -> State {
    if refusal(s, call) is Some {
        s
    } else {
        match call {
            Call::Initialize { first_admin, token, fee_bps } => initialize_state(
                s,
                first_admin,
                token,
                fee_bps,
            ),
            Call::AddAdmin { new_admin, .. } => add_admin_state(s, new_admin),
            Call::RemoveAdmin { target, .. } => remove_admin_state(s, target),
            Call::RegisterAgent { agent, .. } => register_agent_state(s, agent),
            Call::RemoveAgent { agent, .. } => remove_agent_state(s, agent),
            Call::UpdateFee { fee_bps, .. } => update_fee_state(s, fee_bps),
            Call::Pause { .. } => set_paused_state(s, true),
            Call::Unpause { .. } => set_paused_state(s, false),
            Call::Create { sender, agent, amount, expiry } => create_state(
                s,
                sender,
                agent,
                amount,
                expiry,
            ),
            Call::Authorize { id, .. } => authorize_state(s, id),
            Call::Settle { id, .. } => settle_state(s, id),
            Call::Finalize { id, .. } => finalize_state(s, id),
            Call::Fail { id, .. } => fail_state(s, id),
            Call::Cancel { id, .. } => fail_state(s, id),
            Call::WithdrawFees { .. } => withdraw_fees_state(s),
        }
    }
}

/// What the call asks of the host: nothing, if the call is refused.
pub open spec fn effects_of(s: State, call: Call) -> Effects {
    if refusal(s, call) is Some {
        Effects::none()
    } else {
        match call {
            Call::RegisterAgent { agent, .. } => register_agent_effects(agent),
            Call::Create { sender, agent, amount, expiry } => create_effects(
                s,
                sender,
                agent,
                amount,
                expiry,
            ),
            Call::Settle { id, clock, .. } => settle_effects(s, id, clock),
            Call::Finalize { id, .. } => finalize_effects(id),
            Call::Fail { id, .. } => fail_effects(s, id),
            Call::Cancel { id, .. } => cancel_effects(s, id),
            Call::WithdrawFees { recipient, .. } => withdraw_fees_effects(s, recipient),
            _ => Effects::none(),
        }
    }
}

/// Whether the call stays within the machine's number ranges: a creation
/// that is not refused needs room for its record.
pub open spec fn within_limits(s: State, call: Call) -> bool {
    match call {
        Call::Create { amount, .. } => refusal(s, call) is None ==> s.has_room_for(amount),
        _ => true,
    }
}

// ---------------------------------------------------------------------------
// Facts about the escrow sum
// ---------------------------------------------------------------------------

/// The escrow sum of well-formed records is not negative.
pub proof fn lemma_escrow_sum_nonnegative(records: Seq<Remittance>, settled: Set<u64>)
    requires
        forall|i: int| 0 <= i < records.len() ==> (#[trigger] records[i]).well_formed(),
    ensures
        0 <= escrow_sum(records, settled),
    decreases records.len(),
{
    if records.len() > 0 {
        lemma_escrow_sum_nonnegative(records.drop_last(), settled);
    }
}

/// A new record adds its own contribution to the escrow sum and nothing else.
pub proof fn lemma_escrow_sum_push(records: Seq<Remittance>, r: Remittance, settled: Set<u64>)
    ensures
        escrow_sum(records.push(r), settled) == escrow_sum(records, settled) + escrow_of(
            r,
            settled,
        ),
{
    assert(records.push(r).drop_last() =~= records);
}

/// Two lists of records that contribute alike at every place but `k` differ
/// in their escrow sums by the difference of the contributions at `k`.
pub proof fn lemma_escrow_sum_change(
    before: Seq<Remittance>,
    settled_before: Set<u64>,
    after: Seq<Remittance>,
    settled_after: Set<u64>,
    k: int,
)
    requires
        before.len() == after.len(),
        forall|i: int|
            0 <= i < before.len() && i != k ==> escrow_of(#[trigger] before[i], settled_before)
                == escrow_of(after[i], settled_after),
    ensures
        0 <= k < before.len() ==> escrow_sum(after, settled_after) - escrow_sum(
            before,
            settled_before,
        ) == escrow_of(after[k], settled_after) - escrow_of(before[k], settled_before),
        !(0 <= k < before.len()) ==> escrow_sum(after, settled_after) == escrow_sum(
            before,
            settled_before,
        ),
    decreases before.len(),
{
    if before.len() > 0 {
        lemma_escrow_sum_change(
            before.drop_last(),
            settled_before,
            after.drop_last(),
            settled_after,
            k,
        );
    }
}

/// A record that holds escrow accounts for no more than the escrow sum.
pub proof fn lemma_escrow_sum_covers(records: Seq<Remittance>, settled: Set<u64>, k: int)
    requires
        forall|i: int| 0 <= i < records.len() ==> (#[trigger] records[i]).well_formed(),
        0 <= k < records.len(),
    ensures
        escrow_of(records[k], settled) <= escrow_sum(records, settled),
    decreases records.len(),
{
    let last = records.len() - 1;
    lemma_escrow_sum_nonnegative(records.drop_last(), settled);
    if k < last {
        lemma_escrow_sum_covers(records.drop_last(), settled, k);
    }
}

/// The escrow sum of the first `n` records grows with `n` by the
/// contribution of each record in turn.
pub proof fn lemma_escrow_sum_prefix(records: Seq<Remittance>, settled: Set<u64>, n: int)
    requires
        0 < n <= records.len(),
    ensures
        escrow_sum(records.take(n), settled) == escrow_sum(records.take(n - 1), settled)
            + escrow_of(records[n - 1], settled),
{
    assert(records.take(n).drop_last() =~= records.take(n - 1));
}

/// The escrow sum of the first `n` well-formed records is at most that of all.
pub proof fn lemma_escrow_sum_prefix_bound(records: Seq<Remittance>, settled: Set<u64>, n: int)
    requires
        forall|i: int| 0 <= i < records.len() ==> (#[trigger] records[i]).well_formed(),
        0 <= n <= records.len(),
    ensures
        escrow_sum(records.take(n), settled) <= escrow_sum(records, settled),
    decreases records.len() - n,
{
    if n == records.len() {
        assert(records.take(n) =~= records);
    } else {
        lemma_escrow_sum_prefix_bound(records, settled, n + 1);
        lemma_escrow_sum_prefix(records, settled, n + 1);
    }
}

} // verus!
