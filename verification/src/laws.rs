//! What holds of the engine whatever is called on it.

use vstd::prelude::*;
use crate::effects::{Clock, Transfer};
use crate::error::Error;
use crate::fees::{lemma_fee_bounds, spec_fee};
use crate::model::{
    admin_refusal, authorize_refusal, cancel_refusal, create_refusal, created_record,
    custody_change, effects_of, fail_refusal, finalize_refusal, lemma_escrow_sum_nonnegative,
    next_state, refund_of, refusal, remove_admin_refusal, set_paused_state, settle_refusal,
    settle_state, within_limits, withdraw_fees_refusal, Call, State,
};
use crate::preservation::{
    lemma_add_admin_keeps_wf, lemma_authorize_keeps_wf, lemma_create_keeps_wf,
    lemma_fail_keeps_wf, lemma_finalize_keeps_wf, lemma_initialize_keeps_wf,
    lemma_register_agent_keeps_wf, lemma_remove_admin_keeps_wf, lemma_remove_agent_keeps_wf,
    lemma_set_paused_keeps_wf, lemma_settle_keeps_wf, lemma_update_fee_keeps_wf,
    lemma_withdraw_fees_keeps_wf,
};
use crate::types::{Address, RemittanceStatus};

verus! {

// ---------------------------------------------------------------------------
// The invariant
// ---------------------------------------------------------------------------

/// Every call within the machine's number ranges keeps the state invariant.
pub proof fn lemma_call_keeps_wf(s: State, call: Call)
    requires
        s.wf(),
        within_limits(s, call),
    ensures
        next_state(s, call).wf(),
{
    if refusal(s, call) is None {
        match call {
            Call::Initialize { first_admin, token, fee_bps } => {
                lemma_initialize_keeps_wf(s, first_admin, token, fee_bps);
            },
            Call::AddAdmin { caller, new_admin } => {
                lemma_add_admin_keeps_wf(s, caller, new_admin);
            },
            Call::RemoveAdmin { caller, target } => {
                lemma_remove_admin_keeps_wf(s, caller, target);
            },
            Call::RegisterAgent { caller, agent } => {
                lemma_register_agent_keeps_wf(s, caller, agent);
            },
            Call::RemoveAgent { caller, agent } => {
                lemma_remove_agent_keeps_wf(s, caller, agent);
            },
            Call::UpdateFee { caller, fee_bps } => {
                lemma_update_fee_keeps_wf(s, caller, fee_bps);
            },
            Call::Pause { caller } => {
                lemma_set_paused_keeps_wf(s, caller, true);
            },
            Call::Unpause { caller } => {
                lemma_set_paused_keeps_wf(s, caller, false);
            },
            Call::Create { sender, agent, amount, expiry } => {
                lemma_create_keeps_wf(s, sender, agent, amount, expiry);
            },
            Call::Authorize { caller, id } => {
                lemma_authorize_keeps_wf(s, caller, id);
            },
            Call::Settle { caller, id, clock } => {
                lemma_settle_keeps_wf(s, caller, id, clock);
            },
            Call::Finalize { caller, id } => {
                lemma_finalize_keeps_wf(s, caller, id);
            },
            Call::Fail { caller, id } => {
                lemma_fail_keeps_wf(s, id);
            },
            Call::Cancel { caller, id } => {
                lemma_fail_keeps_wf(s, id);
            },
            Call::WithdrawFees { caller, recipient } => {
                lemma_withdraw_fees_keeps_wf(s, caller);
            },
        }
    }
}

// ---------------------------------------------------------------------------
// Creation and the fee
// ---------------------------------------------------------------------------

/// A creation that is not refused takes exactly `amount` from the sender,
/// stores the fee `floor(amount * bps / 10000)` at the rate in force, and
/// fee and payout of the stored record make up the amount.
pub proof fn lemma_creation_is_exact(
    s: State,
    sender: Address,
    agent: Address,
    amount: i128,
    expiry: Option<u64>,
)
    requires
        s.wf(),
        create_refusal(s, agent, amount) is None,
    ensures
        ({
            let call = Call::Create { sender, agent, amount, expiry };
            let r = created_record(s, sender, agent, amount, expiry);
            &&& effects_of(s, call).transfer == Some(Transfer::Deposit { from: sender, amount })
            &&& r.amount == amount
            &&& r.fee == spec_fee(amount as int, s.fee_bps() as int)
            &&& r.fee + r.spec_payout() == amount
            &&& 0 <= r.fee <= amount
            &&& 0 <= r.spec_payout() <= amount
        }),
{
    lemma_fee_bounds(amount as int, s.fee_bps() as int);
}

/// A later change of the fee rate leaves the fee of a stored remittance as it
/// was, as does every other call.
pub proof fn lemma_fee_is_frozen(s: State, call: Call, id: u64)
    requires
        s.wf(),
        s.has(id),
    ensures
        next_state(s, call).has(id),
        next_state(s, call).record(id).fee == s.record(id).fee,
        next_state(s, call).record(id).amount == s.record(id).amount,
{
}

/// The accumulated fees change by a settlement, which adds the fee of the
/// settled remittance, and by a withdrawal, which takes all of them, and by
/// nothing else.
pub proof fn lemma_fees_change_by_settlement_and_withdrawal(s: State, call: Call)
    requires
        s.wf(),
    ensures
        next_state(s, call).accumulated_fees == if refusal(s, call) is Some {
            s.accumulated_fees
        } else if call is Settle {
            s.accumulated_fees + s.record(call->Settle_id).fee
        } else if call is WithdrawFees {
            0
        } else {
            s.accumulated_fees
        },
{
}

// ---------------------------------------------------------------------------
// The state machine
// ---------------------------------------------------------------------------

/// The table has these five moves and no other.
pub proof fn lemma_transition_table(from: RemittanceStatus, to: RemittanceStatus)
    ensures
        from.can_transition_to(&to) <==> {
            ||| (from, to) == (RemittanceStatus::Pending, RemittanceStatus::Authorized)
            ||| (from, to) == (RemittanceStatus::Pending, RemittanceStatus::Failed)
            ||| (from, to) == (RemittanceStatus::Authorized, RemittanceStatus::Settled)
            ||| (from, to) == (RemittanceStatus::Authorized, RemittanceStatus::Failed)
            ||| (from, to) == (RemittanceStatus::Settled, RemittanceStatus::Finalized)
        },
{
}

/// `Finalized` and `Failed` admit no further move, and they are the only
/// states that admit none.
pub proof fn lemma_terminal_states(from: RemittanceStatus)
    ensures
        from.is_terminal() <==> forall|to: RemittanceStatus| !from.can_transition_to(&to),
{
    if !from.is_terminal() {
        match from {
            RemittanceStatus::Pending => {
                assert(from.can_transition_to(&RemittanceStatus::Failed));
            },
            RemittanceStatus::Authorized => {
                assert(from.can_transition_to(&RemittanceStatus::Failed));
            },
            _ => {
                assert(from.can_transition_to(&RemittanceStatus::Finalized));
            },
        }
    }
}

/// No call deletes a remittance or changes anything of it but its state, and
/// a state changes only by a move of the table.
pub proof fn lemma_moves_follow_table(s: State, call: Call, id: u64)
    requires
        s.wf(),
        s.has(id),
    ensures
        ({
            let before = s.record(id);
            let after = next_state(s, call).record(id);
            &&& next_state(s, call).has(id)
            &&& after == before.with_status(after.status)
            &&& after.status == before.status || before.status.can_transition_to(&after.status)
        }),
{
}

/// A call that asks for a move outside the table is refused with
/// `InvalidStateTransition`, once the caller and the id have passed: for an
/// administrator's `authorize`, `finalize` and `fail`, for the agent's
/// `settle` of a remittance that is not paid out, and for the sender's
/// `cancel`.
pub proof fn lemma_illegal_move_is_refused(s: State, caller: Address, id: u64, clock: Clock)
    requires
        s.wf(),
        s.is_initialized(),
        s.has(id),
    ensures
        s.admins.contains(caller) && !s.record(id).status.can_transition_to(
            &RemittanceStatus::Authorized,
        ) ==> authorize_refusal(s, caller, id) == Some(Error::InvalidStateTransition),
        s.admins.contains(caller) && !s.record(id).status.can_transition_to(
            &RemittanceStatus::Finalized,
        ) ==> finalize_refusal(s, caller, id) == Some(Error::InvalidStateTransition),
        s.admins.contains(caller) && !s.record(id).status.can_transition_to(
            &RemittanceStatus::Failed,
        ) ==> fail_refusal(s, caller, id) == Some(Error::InvalidStateTransition),
        !s.paused && s.record(id).agent == caller && !s.settled.contains(id) && !s.record(
            id,
        ).status.can_transition_to(&RemittanceStatus::Settled) ==> settle_refusal(
            s,
            caller,
            id,
            clock,
        ) == Some(Error::InvalidStateTransition),
        s.record(id).sender == caller && s.record(id).status != RemittanceStatus::Pending
            ==> cancel_refusal(s, caller, id) == Some(Error::InvalidStateTransition),
{
}

// ---------------------------------------------------------------------------
// The settlement guard
// ---------------------------------------------------------------------------

/// No call takes an id out of the guard.
pub proof fn lemma_guard_only_grows(s: State, call: Call, id: u64)
    requires
        s.settled.contains(id),
    ensures
        next_state(s, call).settled.contains(id),
{
}

/// After a settlement, the agent's next attempt to settle the same id is
/// refused with `DuplicateSettlement`, whatever state the record has been
/// put into in between and whatever the time: the guard alone decides.
pub proof fn lemma_second_settlement_is_refused(
    s: State,
    caller: Address,
    id: u64,
    clock: Clock,
    reset_to: RemittanceStatus,
    later: Clock,
)
    requires
        s.wf(),
        settle_refusal(s, caller, id, clock) is None,
    ensures
        settle_refusal(settle_state(s, id), caller, id, later) == Some(
            Error::DuplicateSettlement,
        ),
        settle_refusal(settle_state(s, id).with_status(id, reset_to), caller, id, later) == Some(
            Error::DuplicateSettlement,
        ),
{
}

/// Whenever the guard has marked an id, a settlement of it by its agent on
/// an engine that is not paused is refused with `DuplicateSettlement`.
pub proof fn lemma_guard_decides(s: State, caller: Address, id: u64, clock: Clock)
    requires
        s.is_initialized(),
        !s.paused,
        s.has(id),
        s.record(id).agent == caller,
        s.settled.contains(id),
    ensures
        settle_refusal(s, caller, id, clock) == Some(Error::DuplicateSettlement),
{
}

// ---------------------------------------------------------------------------
// Administrators
// ---------------------------------------------------------------------------

/// An engine that has been set up has at least one administrator.
pub proof fn lemma_admins_never_empty(s: State)
    requires
        s.wf(),
        s.is_initialized(),
    ensures
        s.admins.len() >= 1,
        exists|a: Address| s.admins.contains(a),
{
    if forall|a: Address| !s.admins.contains(a) {
        assert(s.admins =~= Set::<Address>::empty());
    }
}

/// The only administrator cannot be removed: the attempt is refused, with
/// `CannotRemoveLastAdmin` when an administrator names the last one, and the
/// set stays as it is.
pub proof fn lemma_last_admin_stays(s: State, caller: Address, target: Address)
    requires
        s.wf(),
        s.is_initialized(),
        s.admins.len() == 1,
    ensures
        remove_admin_refusal(s, caller, target) is Some,
        s.admins.contains(caller) && s.admins.contains(target) ==> remove_admin_refusal(
            s,
            caller,
            target,
        ) == Some(Error::CannotRemoveLastAdmin),
        next_state(s, Call::RemoveAdmin { caller, target }) == s,
{
}

// ---------------------------------------------------------------------------
// The circuit breaker
// ---------------------------------------------------------------------------

/// While the engine is paused, every creation and every settlement is
/// refused with `ContractPaused`, and so is every withdrawal of fees by an
/// administrator.
pub proof fn lemma_pause_blocks_fund_movement(
    s: State,
    sender: Address,
    agent: Address,
    amount: i128,
    caller: Address,
    id: u64,
    clock: Clock,
)
    requires
        s.is_initialized(),
        s.paused,
    ensures
        create_refusal(s, agent, amount) == Some(Error::ContractPaused),
        settle_refusal(s, caller, id, clock) == Some(Error::ContractPaused),
        s.admins.contains(caller) ==> withdraw_fees_refusal(s, caller) == Some(
            Error::ContractPaused,
        ),
{
}

/// Pausing changes nothing but the switch, and pausing and unpausing an
/// engine that was not paused gives back the very state it had, so that
/// every call then does what it would have done before.
pub proof fn lemma_unpause_restores(s: State, pauser: Address, unpauser: Address, call: Call)
    requires
        s.wf(),
        !s.paused,
        admin_refusal(s, pauser) is None,
        admin_refusal(s, unpauser) is None,
    ensures
        ({
            let paused = next_state(s, Call::Pause { caller: pauser });
            let resumed = next_state(paused, Call::Unpause { caller: unpauser });
            &&& paused == set_paused_state(s, true)
            &&& resumed == s
            &&& refusal(resumed, call) == refusal(s, call)
            &&& next_state(resumed, call) == next_state(s, call)
            &&& effects_of(resumed, call) == effects_of(s, call)
        }),
{
}

// ---------------------------------------------------------------------------
// Conservation of funds
// ---------------------------------------------------------------------------

/// The sums of all transfers that the engine has asked for so far, by kind.
pub struct Flows {
    /// All amounts ever deposited by senders.
    pub deposited: int,
    /// All payouts to agents.
    pub paid_out: int,
    /// All refunds to senders.
    pub refunded: int,
    /// All fees handed out.
    pub withdrawn: int,
}

impl Flows {
    /// Before any transfer.
    pub open spec fn zero() -> Flows {
        Flows { deposited: 0, paid_out: 0, refunded: 0, withdrawn: 0 }
    }

    /// The sums after one more transfer, if there is one.
    pub open spec fn with(self, transfer: Option<Transfer>) -> Flows {
        match transfer {
            None => self,
            Some(Transfer::Deposit { amount, .. }) => Flows {
                deposited: self.deposited + amount,
                ..self
            },
            Some(Transfer::Payout { amount, .. }) => Flows {
                paid_out: self.paid_out + amount,
                ..self
            },
            Some(Transfer::Refund { amount, .. }) => Flows {
                refunded: self.refunded + amount,
                ..self
            },
            Some(Transfer::FeeWithdrawal { amount, .. }) => Flows {
                withdrawn: self.withdrawn + amount,
                ..self
            },
        }
    }
}

/// Whether the state accounts for every unit that the transfers moved: what
/// is in escrow, what was paid out, refunded and withdrawn, and the fees not
/// yet withdrawn, make up what was deposited.
pub open spec fn balanced(s: State, flows: Flows) -> bool {
    s.escrowed() + flows.paid_out + flows.refunded + s.accumulated_fees + flows.withdrawn
        == flows.deposited
}

/// A call keeps the books balanced: the transfer that it asks for moves
/// exactly what its change of state accounts for.
pub proof fn lemma_call_conserves(s: State, call: Call, flows: Flows)
    requires
        s.wf(),
        within_limits(s, call),
        balanced(s, flows),
    ensures
        balanced(next_state(s, call), flows.with(effects_of(s, call).transfer)),
{
    if refusal(s, call) is None {
        match call {
            Call::Create { sender, agent, amount, expiry } => {
                lemma_create_keeps_wf(s, sender, agent, amount, expiry);
            },
            Call::Authorize { caller, id } => {
                lemma_authorize_keeps_wf(s, caller, id);
            },
            Call::Settle { caller, id, clock } => {
                lemma_settle_keeps_wf(s, caller, id, clock);
            },
            Call::Finalize { caller, id } => {
                lemma_finalize_keeps_wf(s, caller, id);
            },
            Call::Fail { caller, id } => {
                lemma_fail_keeps_wf(s, id);
            },
            Call::Cancel { caller, id } => {
                lemma_fail_keeps_wf(s, id);
            },
            Call::WithdrawFees { .. } => {
                lemma_escrow_sum_nonnegative(s.remittances, s.settled);
            },
            _ => {},
        }
    }
}

/// Custody changes by what the call's transfer moves, and by nothing else:
/// a deposit adds its amount, every other transfer takes its amount away.
pub proof fn lemma_custody_follows_transfers(s: State, call: Call)
    requires
        s.wf(),
        within_limits(s, call),
    ensures
        next_state(s, call).custody() == s.custody() + custody_change(
            effects_of(s, call).transfer,
        ),
{
    lemma_call_conserves(
        s,
        call,
        Flows { deposited: s.custody(), paid_out: 0, refunded: 0, withdrawn: 0 },
    );
}

/// The state that a list of calls leads to from an engine that has not been
/// set up.
pub open spec fn state_after(calls: Seq<Call>) -> State
    decreases calls.len(),
{
    if calls.len() == 0 {
        State::initial()
    } else {
        next_state(state_after(calls.drop_last()), calls.last())
    }
}

/// The sums of the transfers that a list of calls has asked for.
pub open spec fn flows_after(calls: Seq<Call>) -> Flows
    decreases calls.len(),
{
    if calls.len() == 0 {
        Flows::zero()
    } else {
        flows_after(calls.drop_last()).with(
            effects_of(state_after(calls.drop_last()), calls.last()).transfer,
        )
    }
}

/// Whether each call of the list stays within the machine's number ranges
/// in the state in which it is made.
pub open spec fn all_within_limits(calls: Seq<Call>) -> bool
    decreases calls.len(),
{
    calls.len() > 0 ==> all_within_limits(calls.drop_last()) && within_limits(
        state_after(calls.drop_last()),
        calls.last(),
    )
}

/// At all times the state invariant holds and the books are balanced: the
/// escrowed amounts, the payouts, the refunds, the accumulated fees and the
/// withdrawn fees make up the deposits.
pub proof fn lemma_conservation(calls: Seq<Call>)
    requires
        all_within_limits(calls),
    ensures
        state_after(calls).wf(),
        balanced(state_after(calls), flows_after(calls)),
    decreases calls.len(),
{
    if calls.len() > 0 {
        lemma_conservation(calls.drop_last());
        lemma_call_keeps_wf(state_after(calls.drop_last()), calls.last());
        lemma_call_conserves(
            state_after(calls.drop_last()),
            calls.last(),
            flows_after(calls.drop_last()),
        );
    }
}

/// As long as no fees have been withdrawn, the escrowed amounts, the
/// payouts, the refunds and the accumulated fees make up the deposits.
pub proof fn lemma_conservation_before_withdrawal(calls: Seq<Call>)
    requires
        all_within_limits(calls),
        flows_after(calls).withdrawn == 0,
    ensures
        ({
            let s = state_after(calls);
            let flows = flows_after(calls);
            s.escrowed() + flows.paid_out + flows.refunded + s.accumulated_fees
                == flows.deposited
        }),
{
    lemma_conservation(calls);
}

/// At all times an engine that has been set up has an administrator.
pub proof fn lemma_always_an_admin(calls: Seq<Call>)
    requires
        all_within_limits(calls),
        state_after(calls).is_initialized(),
    ensures
        state_after(calls).admins.len() >= 1,
{
    lemma_conservation(calls);
}

// ---------------------------------------------------------------------------
// Each remittance's amount leaves custody at most once
// ---------------------------------------------------------------------------

/// Whether the call pays the remittance `id` out to its agent.
pub open spec fn pays_out(s: State, call: Call, id: u64) -> bool {
    &&& refusal(s, call) is None
    &&& call is Settle
    &&& call->Settle_id == id
}

/// Whether the call refunds the remittance `id` to its sender.
pub open spec fn refunds(s: State, call: Call, id: u64) -> bool {
    &&& refusal(s, call) is None
    &&& (call is Fail && call->Fail_id == id) || (call is Cancel && call->Cancel_id == id)
    &&& refund_of(s, id) is Some
}

/// A payout is asked for by a settlement only, goes to the remittance's
/// agent and is the amount less the fee; a refund is asked for by a failure
/// or a cancellation only, goes to the remittance's sender and is the whole
/// amount.
pub proof fn lemma_transfers_match_calls(s: State, call: Call)
    requires
        s.wf(),
    ensures
        match effects_of(s, call).transfer {
            Some(Transfer::Deposit { from, amount }) => {
                &&& call is Create
                &&& from == call->Create_sender
                &&& amount == call->Create_amount
            },
            Some(Transfer::Payout { to, amount }) => {
                &&& call is Settle
                &&& pays_out(s, call, call->Settle_id)
                &&& to == s.record(call->Settle_id).agent
                &&& amount == s.record(call->Settle_id).spec_payout()
            },
            Some(Transfer::Refund { to, amount }) => exists|id: u64|
                {
                    &&& #[trigger] refunds(s, call, id)
                    &&& to == s.record(id).sender
                    &&& amount == s.record(id).amount
                },
            Some(Transfer::FeeWithdrawal { to, amount }) => {
                &&& call is WithdrawFees
                &&& to == call->WithdrawFees_recipient
                &&& amount == s.accumulated_fees
            },
            None => forall|id: u64| !pays_out(s, call, id) && !refunds(s, call, id),
        },
{
    if refusal(s, call) is None {
        match call {
            Call::Fail { id, .. } => {
                if refund_of(s, id) is Some {
                    assert(refunds(s, call, id));
                }
            },
            Call::Cancel { id, .. } => {
                if refund_of(s, id) is Some {
                    assert(refunds(s, call, id));
                }
            },
            Call::WithdrawFees { .. } => {
                lemma_escrow_sum_nonnegative(s.remittances, s.settled);
            },
            _ => {},
        }
    }
}

/// How often the calls of the list have paid the remittance `id` out.
pub open spec fn payouts_of(calls: Seq<Call>, id: u64) -> nat
    decreases calls.len(),
{
    if calls.len() == 0 {
        0
    } else if pays_out(state_after(calls.drop_last()), calls.last(), id) {
        payouts_of(calls.drop_last(), id) + 1
    } else {
        payouts_of(calls.drop_last(), id)
    }
}

/// How often the calls of the list have refunded the remittance `id`.
pub open spec fn refunds_of(calls: Seq<Call>, id: u64) -> nat
    decreases calls.len(),
{
    if calls.len() == 0 {
        0
    } else if refunds(state_after(calls.drop_last()), calls.last(), id) {
        refunds_of(calls.drop_last(), id) + 1
    } else {
        refunds_of(calls.drop_last(), id)
    }
}

/// At all times a remittance has been paid out once if the guard has marked
/// its id and never if not; it has been refunded at most once, and then it
/// is `Failed`; and it has never been both paid out and refunded.
pub proof fn lemma_amount_leaves_custody_once(calls: Seq<Call>, id: u64)
    requires
        all_within_limits(calls),
    ensures
        payouts_of(calls, id) == if state_after(calls).settled.contains(id) {
            1nat
        } else {
            0nat
        },
        refunds_of(calls, id) <= 1,
        payouts_of(calls, id) + refunds_of(calls, id) <= 1,
        refunds_of(calls, id) == 1 ==> state_after(calls).has(id) && state_after(calls).record(
            id,
        ).status == RemittanceStatus::Failed,
    decreases calls.len(),
{
    if calls.len() > 0 {
        let before = calls.drop_last();
        let s = state_after(before);
        let call = calls.last();
        lemma_amount_leaves_custody_once(before, id);
        lemma_conservation(before);
        if s.has(id) {
            lemma_moves_follow_table(s, call, id);
        }
    }
}

} // verus!
