//! Every call keeps the state invariant.

use vstd::prelude::*;
use crate::effects::Clock;
use crate::fees::lemma_fee_bounds;
use crate::model::{
    add_admin_refusal, add_admin_state, admin_refusal, authorize_refusal, authorize_state,
    create_refusal, create_state, created_record, fail_state, finalize_refusal,
    finalize_state, initialize_refusal, initialize_state, lemma_escrow_sum_change,
    lemma_escrow_sum_covers, lemma_escrow_sum_nonnegative, lemma_escrow_sum_push, refund_of,
    register_agent_refusal, register_agent_state, remove_admin_refusal, remove_admin_state,
    remove_agent_refusal, remove_agent_state, set_paused_state, settle_refusal, settle_state,
    update_fee_refusal, update_fee_state, withdraw_fees_refusal, withdraw_fees_state, State,
};
use crate::types::{Address, RemittanceStatus};

verus! {

pub proof fn lemma_initialize_keeps_wf(s: State, first_admin: Address, token: Address, fee_bps: u32)
    requires
        s.wf(),
        initialize_refusal(s, fee_bps) is None,
    ensures
        initialize_state(s, first_admin, token, fee_bps).wf(),
{
}

pub proof fn lemma_add_admin_keeps_wf(s: State, caller: Address, new_admin: Address)
    requires
        s.wf(),
        add_admin_refusal(s, caller, new_admin) is None,
    ensures
        add_admin_state(s, new_admin).wf(),
{
}

pub proof fn lemma_remove_admin_keeps_wf(s: State, caller: Address, target: Address)
    requires
        s.wf(),
        remove_admin_refusal(s, caller, target) is None,
    ensures
        remove_admin_state(s, target).wf(),
{
}

pub proof fn lemma_register_agent_keeps_wf(s: State, caller: Address, agent: Address)
    requires
        s.wf(),
        register_agent_refusal(s, caller, agent) is None,
    ensures
        register_agent_state(s, agent).wf(),
{
}

pub proof fn lemma_remove_agent_keeps_wf(s: State, caller: Address, agent: Address)
    requires
        s.wf(),
        remove_agent_refusal(s, caller, agent) is None,
    ensures
        remove_agent_state(s, agent).wf(),
{
}

pub proof fn lemma_update_fee_keeps_wf(s: State, caller: Address, fee_bps: u32)
    requires
        s.wf(),
        update_fee_refusal(s, caller, fee_bps) is None,
    ensures
        update_fee_state(s, fee_bps).wf(),
{
}

pub proof fn lemma_set_paused_keeps_wf(s: State, caller: Address, paused: bool)
    requires
        s.wf(),
        admin_refusal(s, caller) is None,
    ensures
        set_paused_state(s, paused).wf(),
{
}

/// A creation keeps the invariant as long as there is an id left for the new
/// record and custody can hold its amount; custody then grows by exactly the
/// amount.
pub proof fn lemma_create_keeps_wf(
    s: State,
    sender: Address,
    agent: Address,
    amount: i128,
    expiry: Option<u64>,
)
    requires
        s.wf(),
        create_refusal(s, agent, amount) is None,
        s.has_room_for(amount),
    ensures
        create_state(s, sender, agent, amount, expiry).wf(),
        create_state(s, sender, agent, amount, expiry).escrowed() == s.escrowed() + amount,
        created_record(s, sender, agent, amount, expiry).well_formed(),
{
    let r = created_record(s, sender, agent, amount, expiry);
    lemma_fee_bounds(amount as int, s.fee_bps() as int);
    lemma_escrow_sum_push(s.remittances, r, s.settled);
}

/// A move between `Pending` and `Authorized` leaves the escrow sum as it is.
pub proof fn lemma_authorize_keeps_wf(s: State, caller: Address, id: u64)
    requires
        s.wf(),
        authorize_refusal(s, caller, id) is None,
    ensures
        authorize_state(s, id).wf(),
        authorize_state(s, id).escrowed() == s.escrowed(),
{
    let t = authorize_state(s, id);
    lemma_escrow_sum_change(s.remittances, s.settled, t.remittances, t.settled, id - 1);
}

/// A settlement takes the amount out of escrow and adds the fee to the
/// accumulated fees.
pub proof fn lemma_settle_keeps_wf(s: State, caller: Address, id: u64, clock: Clock)
    requires
        s.wf(),
        settle_refusal(s, caller, id, clock) is None,
    ensures
        settle_state(s, id).wf(),
        settle_state(s, id).escrowed() == s.escrowed() - s.record(id).amount,
        s.record(id).amount <= s.escrowed(),
{
    let t = settle_state(s, id);
    lemma_escrow_sum_change(s.remittances, s.settled, t.remittances, t.settled, id - 1);
    lemma_escrow_sum_covers(s.remittances, s.settled, id - 1);
}

pub proof fn lemma_finalize_keeps_wf(s: State, caller: Address, id: u64)
    requires
        s.wf(),
        finalize_refusal(s, caller, id) is None,
    ensures
        finalize_state(s, id).wf(),
        finalize_state(s, id).escrowed() == s.escrowed(),
{
    let t = finalize_state(s, id);
    lemma_escrow_sum_change(s.remittances, s.settled, t.remittances, t.settled, id - 1);
}

/// A failure or cancellation takes out of escrow exactly what is refunded.
pub proof fn lemma_fail_keeps_wf(s: State, id: u64)
    requires
        s.wf(),
        s.has(id),
        s.record(id).status.can_transition_to(&RemittanceStatus::Failed),
    ensures
        fail_state(s, id).wf(),
        refund_of(s, id) is Some ==> fail_state(s, id).escrowed() == s.escrowed() - s.record(
            id,
        ).amount,
        refund_of(s, id) is None ==> fail_state(s, id).escrowed() == s.escrowed(),
{
    let t = fail_state(s, id);
    lemma_escrow_sum_change(s.remittances, s.settled, t.remittances, t.settled, id - 1);
}

pub proof fn lemma_withdraw_fees_keeps_wf(s: State, caller: Address)
    requires
        s.wf(),
        withdraw_fees_refusal(s, caller) is None,
    ensures
        withdraw_fees_state(s).wf(),
{
    lemma_escrow_sum_nonnegative(s.remittances, s.settled);
}

} // verus!
