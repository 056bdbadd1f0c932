//! The engine: the state machine in executable form.

use vstd::prelude::*;
use crate::effects::{Clock, Effects, Event, Transfer, SCHEMA_VERSION};
use crate::error::Error;
use crate::fees::{calculate_fee, spec_fee};
use crate::guard::SettlementGuard;
use crate::model::{
    add_admin_refusal, add_admin_state, admin_refusal, authorize_refusal, authorize_state,
    cancel_effects, cancel_refusal, create_effects, create_refusal, create_state,
    custody_change, effects_of, escrow_sum, fail_effects, fail_refusal, fail_state,
    finalize_effects, finalize_refusal, finalize_state, initialize_refusal, initialize_state,
    lemma_escrow_sum_nonnegative, lemma_escrow_sum_prefix, lemma_escrow_sum_prefix_bound,
    next_state, refund_of, refusal, register_agent_effects, register_agent_refusal,
    register_agent_state, remove_admin_refusal, remove_admin_state, remove_agent_refusal,
    remove_agent_state, set_paused_state, settle_effects, settle_refusal, settle_state,
    update_fee_refusal, update_fee_state, within_limits, withdraw_fees_effects,
    withdraw_fees_refusal, withdraw_fees_state, Call, State,
};
use crate::preservation::{
    lemma_add_admin_keeps_wf, lemma_authorize_keeps_wf, lemma_create_keeps_wf,
    lemma_fail_keeps_wf, lemma_finalize_keeps_wf, lemma_initialize_keeps_wf,
    lemma_register_agent_keeps_wf, lemma_remove_admin_keeps_wf, lemma_remove_agent_keeps_wf,
    lemma_set_paused_keeps_wf, lemma_settle_keeps_wf, lemma_update_fee_keeps_wf,
    lemma_withdraw_fees_keeps_wf,
};
use crate::registry::Registry;
use crate::snapshot::Snapshot;
use crate::types::{Address, PlatformConfig, Remittance, RemittanceStatus};

verus! {

/// The escrow and settlement engine.
///
/// Every call that changes the engine either succeeds, and then returns what
/// the host must carry out, or is refused, and then leaves the engine as it
/// was. The caller named in a call is the identity whose authorization for
/// that very call the host has verified.
#[derive(Clone, Debug)]
pub struct Engine {
    config: Option<PlatformConfig>,
    admins: Registry,
    agents: Registry,
    remittances: Vec<Remittance>,
    guard: SettlementGuard,
    accumulated_fees: i128,
    paused: bool,
}

/// The id of a newly created remittance, with what the host must carry out.
#[derive(Clone, Copy, Debug, PartialEq, Eq)]
pub struct Created {
    pub id: u64,
    pub effects: Effects,
}

impl View for Engine {
    type V = State;

    closed spec fn view(&self) -> State {
        State {
            config: self.config,
            admins: self.admins@,
            agents: self.agents@,
            remittances: self.remittances@,
            settled: self.guard@,
            accumulated_fees: self.accumulated_fees as int,
            paused: self.paused,
        }
    }
}

impl Engine {
    /// The lists behind the registries and the guard hold nothing twice.
    pub closed spec fn inv(&self) -> bool {
        &&& self.admins.wf()
        &&& self.agents.wf()
        &&& self.guard.wf()
    }

    /// The engine's invariant: its state meets the state invariant. `new`
    /// and `restore` establish it and every call keeps it.
    pub open spec fn wf(&self) -> bool {
        &&& self.inv()
        &&& self@.wf()
    }

    /// An engine that has not been set up.
    pub fn new() -> (e: Engine)
        ensures
            e.wf(),
            e@ == State::initial(),
    {
        let e = Engine {
            config: None,
            admins: Registry::new(),
            agents: Registry::new(),
            remittances: Vec::new(),
            guard: SettlementGuard::new(),
            accumulated_fees: 0,
            paused: false,
        };
        e
    }

    // -----------------------------------------------------------------------
    // Queries
    // -----------------------------------------------------------------------

    /// Whether the engine has been set up.
    pub fn is_initialized(&self) -> (b: bool)
        ensures
            b == self@.is_initialized(),
    {
        self.config.is_some()
    }

    /// Whether fund-moving calls are switched off.
    pub fn is_paused(&self) -> (b: bool)
        ensures
            b == self@.paused,
    {
        self.paused
    }

    /// Whether `who` is an administrator.
    pub fn is_admin(&self, who: Address) -> (b: bool)
        ensures
            b == self@.admins.contains(who),
    {
        self.admins.contains(who)
    }

    /// Whether `who` is a registered agent.
    pub fn is_agent_registered(&self, who: Address) -> (b: bool)
        ensures
            b == self@.agents.contains(who),
    {
        self.agents.contains(who)
    }

    /// The fee rate in force, in basis points.
    pub fn get_platform_fee_bps(&self) -> (res: Result<u32, Error>)
        ensures
            match res {
                Ok(bps) => self@.is_initialized() && bps == self@.fee_bps(),
                Err(e) => !self@.is_initialized() && e == Error::NotInitialized,
            },
    {
        match self.config {
            Some(c) => Ok(c.fee_bps),
            None => Err(Error::NotInitialized),
        }
    }

    /// The ledger token that the engine was set up with.
    pub fn get_token(&self) -> (res: Result<Address, Error>)
        ensures
            match res {
                Ok(token) => self@.is_initialized() && token == self@.token(),
                Err(e) => !self@.is_initialized() && e == Error::NotInitialized,
            },
    {
        match self.config {
            Some(c) => Ok(c.token),
            None => Err(Error::NotInitialized),
        }
    }

    /// The fees owed to the platform and not yet withdrawn.
    pub fn get_accumulated_fees(&self) -> (res: Result<i128, Error>)
        ensures
            match res {
                Ok(fees) => self@.is_initialized() && fees == self@.accumulated_fees,
                Err(e) => !self@.is_initialized() && e == Error::NotInitialized,
            },
    {
        match self.config {
            Some(_) => Ok(self.accumulated_fees),
            None => Err(Error::NotInitialized),
        }
    }

    /// The number of remittances created so far, which is also the id of the
    /// latest.
    pub fn remittance_count(&self) -> (n: u64)
        ensures
            n == self@.remittances.len(),
    {
        self.remittances.len() as u64
    }

    /// The remittance with the given id.
    pub fn get_remittance(&self, id: u64) -> (res: Result<Remittance, Error>)
        ensures
            match res {
                Ok(r) => self@.has(id) && r == self@.record(id),
                Err(e) => !self@.has(id) && e == Error::RemittanceNotFound,
            },
    {
        match self.slot(id) {
            Some(i) => Ok(self.remittances[i]),
            None => Err(Error::RemittanceNotFound),
        }
    }

    /// The remittance with the given id, as it stands after the latest call.
    pub fn get_settlement(&self, id: u64) -> (res: Result<Remittance, Error>)
        ensures
            match res {
                Ok(r) => self@.has(id) && r == self@.record(id),
                Err(e) => !self@.has(id) && e == Error::RemittanceNotFound,
            },
    {
        self.get_remittance(id)
    }

    /// Whether the guard has marked the remittance as paid out.
    pub fn is_settled(&self, id: u64) -> (b: bool)
        ensures
            b == self@.settled.contains(id),
    {
        self.guard.contains(id)
    }

    /// Where the remittance with this id stands, if there is one.
    fn slot(&self, id: u64) -> (at: Option<usize>)
        ensures
            match at {
                Some(i) => self@.has(id) && i == id - 1,
                None => !self@.has(id),
            },
    {
        if id == 0 {
            return None;
        }
        let n: usize = self.remittances.len();
        if id - 1 < n as u64 {
            Some((id - 1) as usize)
        } else {
            None
        }
    }

    /// Why a call that only an administrator may make is refused, if it is.
    fn check_admin(&self, caller: Address) -> (res: Result<PlatformConfig, Error>)
        ensures
            match res {
                Ok(c) => admin_refusal(self@, caller) is None && self@.config == Some(c),
                Err(e) => admin_refusal(self@, caller) == Some(e),
            },
    {
        match self.config {
            None => Err(Error::NotInitialized),
            Some(c) => {
                if self.admins.contains(caller) {
                    Ok(c)
                } else {
                    Err(Error::Unauthorized)
                }
            },
        }
    }

    // -----------------------------------------------------------------------
    // Setting up and administration
    // -----------------------------------------------------------------------

    /// Sets the engine up, once: `first_admin` becomes the only
    /// administrator, and the token and the fee rate are stored.
    ///
    /// Refused with `AlreadyInitialized` on an engine that is set up, and
    /// otherwise with `InvalidFeeBps` for a rate above 10000.
    pub fn initialize(&mut self, first_admin: Address, token: Address, fee_bps: u32) -> (res:
        Result<(), Error>)
        requires
            old(self).wf(),
        ensures
            final(self).wf(),
            match res {
                Ok(_) => {
                    &&& initialize_refusal(old(self)@, fee_bps) is None
                    &&& final(self)@ == initialize_state(old(self)@, first_admin, token, fee_bps)
                },
                Err(e) => {
                    &&& initialize_refusal(old(self)@, fee_bps) == Some(e)
                    &&& final(self)@ == old(self)@
                },
            },
    {
        if self.config.is_some() {
            return Err(Error::AlreadyInitialized);
        }
        if fee_bps > 10000 {
            return Err(Error::InvalidFeeBps);
        }
        self.config = Some(PlatformConfig { token, fee_bps });
        self.admins.insert(first_admin);
        proof {
            lemma_initialize_keeps_wf(old(self)@, first_admin, token, fee_bps);
        }
        Ok(())
    }

    /// Makes `new_admin` an administrator.
    ///
    /// Refused with `NotInitialized` before setting up, with `Unauthorized`
    /// when `caller` is no administrator, and with `AdminAlreadyExists` when
    /// `new_admin` is one already.
    pub fn add_admin(&mut self, caller: Address, new_admin: Address) -> (res: Result<(), Error>)
        requires
            old(self).wf(),
        ensures
            final(self).wf(),
            match res {
                Ok(_) => {
                    &&& add_admin_refusal(old(self)@, caller, new_admin) is None
                    &&& final(self)@ == add_admin_state(old(self)@, new_admin)
                },
                Err(e) => {
                    &&& add_admin_refusal(old(self)@, caller, new_admin) == Some(e)
                    &&& final(self)@ == old(self)@
                },
            },
    {
        match self.check_admin(caller) {
            Err(e) => {
                return Err(e);
            },
            Ok(_) => {},
        }
        if self.admins.contains(new_admin) {
            return Err(Error::AdminAlreadyExists);
        }
        self.admins.insert(new_admin);
        proof {
            lemma_add_admin_keeps_wf(old(self)@, caller, new_admin);
        }
        Ok(())
    }

    /// Takes `target` out of the administrators.
    ///
    /// Refused with `NotInitialized` before setting up, with `Unauthorized`
    /// when `caller` is no administrator, with `AdminNotFound` when `target`
    /// is none, and with `CannotRemoveLastAdmin` when `target` is the only
    /// one.
    pub fn remove_admin(&mut self, caller: Address, target: Address) -> (res: Result<(), Error>)
        requires
            old(self).wf(),
        ensures
            final(self).wf(),
            match res {
                Ok(_) => {
                    &&& remove_admin_refusal(old(self)@, caller, target) is None
                    &&& final(self)@ == remove_admin_state(old(self)@, target)
                },
                Err(e) => {
                    &&& remove_admin_refusal(old(self)@, caller, target) == Some(e)
                    &&& final(self)@ == old(self)@
                },
            },
    {
        match self.check_admin(caller) {
            Err(e) => {
                return Err(e);
            },
            Ok(_) => {},
        }
        if !self.admins.contains(target) {
            return Err(Error::AdminNotFound);
        }
        if self.admins.len() <= 1 {
            return Err(Error::CannotRemoveLastAdmin);
        }
        self.admins.remove(target);
        proof {
            lemma_remove_admin_keeps_wf(old(self)@, caller, target);
        }
        Ok(())
    }

    /// Registers `agent` as a payout agent.
    ///
    /// Refused with `NotInitialized` before setting up, with `Unauthorized`
    /// when `caller` is no administrator, and with `AgentAlreadyRegistered`
    /// when `agent` is registered already.
    pub fn register_agent(&mut self, caller: Address, agent: Address) -> (res: Result<
        Effects,
        Error,
    >)
        requires
            old(self).wf(),
        ensures
            final(self).wf(),
            match res {
                Ok(effects) => {
                    &&& register_agent_refusal(old(self)@, caller, agent) is None
                    &&& final(self)@ == register_agent_state(old(self)@, agent)
                    &&& effects == register_agent_effects(agent)
                },
                Err(e) => {
                    &&& register_agent_refusal(old(self)@, caller, agent) == Some(e)
                    &&& final(self)@ == old(self)@
                },
            },
    {
        match self.check_admin(caller) {
            Err(e) => {
                return Err(e);
            },
            Ok(_) => {},
        }
        if self.agents.contains(agent) {
            return Err(Error::AgentAlreadyRegistered);
        }
        self.agents.insert(agent);
        proof {
            lemma_register_agent_keeps_wf(old(self)@, caller, agent);
        }
        Ok(Effects { transfer: None, event: Some(Event::AgentRegistered { actor: agent }) })
    }

    /// Takes `agent` out of the payout agents. Remittances that name it stay
    /// as they are.
    ///
    /// Refused with `NotInitialized` before setting up, with `Unauthorized`
    /// when `caller` is no administrator, and with `AgentNotRegistered` when
    /// `agent` is not registered.
    pub fn remove_agent(&mut self, caller: Address, agent: Address) -> (res: Result<(), Error>)
        requires
            old(self).wf(),
        ensures
            final(self).wf(),
            match res {
                Ok(_) => {
                    &&& remove_agent_refusal(old(self)@, caller, agent) is None
                    &&& final(self)@ == remove_agent_state(old(self)@, agent)
                },
                Err(e) => {
                    &&& remove_agent_refusal(old(self)@, caller, agent) == Some(e)
                    &&& final(self)@ == old(self)@
                },
            },
    {
        match self.check_admin(caller) {
            Err(e) => {
                return Err(e);
            },
            Ok(_) => {},
        }
        if !self.agents.contains(agent) {
            return Err(Error::AgentNotRegistered);
        }
        self.agents.remove(agent);
        proof {
            lemma_remove_agent_keeps_wf(old(self)@, caller, agent);
        }
        Ok(())
    }

    /// Sets the fee rate for remittances created from now on.
    ///
    /// Refused with `NotInitialized` before setting up, with `Unauthorized`
    /// when `caller` is no administrator, and with `InvalidFeeBps` for a rate
    /// above 10000.
    pub fn update_fee(&mut self, caller: Address, fee_bps: u32) -> (res: Result<(), Error>)
        requires
            old(self).wf(),
        ensures
            final(self).wf(),
            match res {
                Ok(_) => {
                    &&& update_fee_refusal(old(self)@, caller, fee_bps) is None
                    &&& final(self)@ == update_fee_state(old(self)@, fee_bps)
                },
                Err(e) => {
                    &&& update_fee_refusal(old(self)@, caller, fee_bps) == Some(e)
                    &&& final(self)@ == old(self)@
                },
            },
    {
        let config = match self.check_admin(caller) {
            Err(e) => {
                return Err(e);
            },
            Ok(c) => c,
        };
        if fee_bps > 10000 {
            return Err(Error::InvalidFeeBps);
        }
        self.config = Some(PlatformConfig { token: config.token, fee_bps });
        proof {
            lemma_update_fee_keeps_wf(old(self)@, caller, fee_bps);
        }
        Ok(())
    }

    /// Switches fund-moving calls off.
    ///
    /// Refused with `NotInitialized` before setting up and with
    /// `Unauthorized` when `caller` is no administrator.
    pub fn pause(&mut self, caller: Address) -> (res: Result<(), Error>)
        requires
            old(self).wf(),
        ensures
            final(self).wf(),
            match res {
                Ok(_) => {
                    &&& admin_refusal(old(self)@, caller) is None
                    &&& final(self)@ == set_paused_state(old(self)@, true)
                },
                Err(e) => {
                    &&& admin_refusal(old(self)@, caller) == Some(e)
                    &&& final(self)@ == old(self)@
                },
            },
    {
        match self.check_admin(caller) {
            Err(e) => {
                return Err(e);
            },
            Ok(_) => {},
        }
        self.paused = true;
        proof {
            lemma_set_paused_keeps_wf(old(self)@, caller, true);
        }
        Ok(())
    }

    /// Switches fund-moving calls back on.
    ///
    /// Refused with `NotInitialized` before setting up and with
    /// `Unauthorized` when `caller` is no administrator.
    pub fn unpause(&mut self, caller: Address) -> (res: Result<(), Error>)
        requires
            old(self).wf(),
        ensures
            final(self).wf(),
            match res {
                Ok(_) => {
                    &&& admin_refusal(old(self)@, caller) is None
                    &&& final(self)@ == set_paused_state(old(self)@, false)
                },
                Err(e) => {
                    &&& admin_refusal(old(self)@, caller) == Some(e)
                    &&& final(self)@ == old(self)@
                },
            },
    {
        match self.check_admin(caller) {
            Err(e) => {
                return Err(e);
            },
            Ok(_) => {},
        }
        self.paused = false;
        proof {
            lemma_set_paused_keeps_wf(old(self)@, caller, false);
        }
        Ok(())
    }

    // -----------------------------------------------------------------------
    // The remittance lifecycle
    // -----------------------------------------------------------------------

    /// Whether one more remittance of this amount stays within the machine's
    /// number ranges.
    pub fn has_room_for(&self, amount: i128) -> (fits: bool)
        requires
            self.wf(),
        ensures
            fits == self@.has_room_for(amount),
    {
        let held = self.custody();
        let count = self.remittance_count();
        count < u64::MAX && (amount <= 0 || held <= i128::MAX - amount)
    }

    /// All that the engine holds on the ledger: the escrowed amounts and the
    /// fees not yet withdrawn.
    pub fn custody(&self) -> (total: i128)
        requires
            self.wf(),
        ensures
            total == self@.custody(),
    {
        let mut total: i128 = self.accumulated_fees;
        let mut i: usize = 0;
        proof {
            lemma_escrow_sum_nonnegative(self@.remittances, self@.settled);
        }
        while i < self.remittances.len()
            invariant
                self.wf(),
                i <= self.remittances@.len(),
                total == self.accumulated_fees + escrow_sum(
                    self.remittances@.take(i as int),
                    self.guard@,
                ),
            decreases self.remittances@.len() - i,
        {
            let r = self.remittances[i];
            let open = match r.status {
                RemittanceStatus::Pending => true,
                RemittanceStatus::Authorized => true,
                _ => false,
            };
            proof {
                let all = self.remittances@;
                lemma_escrow_sum_prefix(all, self.guard@, i + 1);
                lemma_escrow_sum_prefix_bound(all, self.guard@, i + 1);
            }
            if open && !self.guard.contains(r.id) {
                total = total + r.amount;
            }
            i += 1;
        }
        assert(self.remittances@.take(i as int) =~= self.remittances@);
        total
    }

    /// Why a creation is refused, if it is.
    fn check_create(&self, agent: Address, amount: i128) -> (res: Result<PlatformConfig, Error>)
        ensures
            match res {
                Ok(c) => create_refusal(self@, agent, amount) is None && self@.config == Some(c),
                Err(e) => create_refusal(self@, agent, amount) == Some(e),
            },
    {
        let config = match self.config {
            None => {
                return Err(Error::NotInitialized);
            },
            Some(c) => c,
        };
        if self.paused {
            return Err(Error::ContractPaused);
        }
        if amount <= 0 {
            return Err(Error::InvalidAmount);
        }
        if !self.agents.contains(agent) {
            return Err(Error::AgentNotRegistered);
        }
        Ok(config)
    }

    /// Takes `amount` into escrow for `agent` on behalf of `sender`, the
    /// caller, and stores a new remittance in state `Pending`. The fee is
    /// fixed now, at the rate in force; ids count up from 1.
    ///
    /// Refused with `NotInitialized` before setting up, with `ContractPaused`
    /// while paused, with `InvalidAmount` for an amount of zero or less, and
    /// with `AgentNotRegistered` when `agent` is not registered, in this
    /// order. A call that is not refused asks the host for the deposit of
    /// exactly `amount` from `sender`.
    ///
    /// A call that is not refused needs room for the new record: see
    /// `has_room_for`.
    pub fn create_remittance(
        &mut self,
        sender: Address,
        agent: Address,
        amount: i128,
        expiry: Option<u64>,
    ) -> (res: Result<Created, Error>)
        requires
            old(self).wf(),
            create_refusal(old(self)@, agent, amount) is None ==> old(self)@.has_room_for(
                amount,
            ),
        ensures
            final(self).wf(),
            match res {
                Ok(created) => {
                    &&& create_refusal(old(self)@, agent, amount) is None
                    &&& final(self)@ == create_state(old(self)@, sender, agent, amount, expiry)
                    &&& created.id == old(self)@.next_id()
                    &&& created.id == old(self)@.remittances.len() + 1
                    &&& created.effects == create_effects(
                        old(self)@,
                        sender,
                        agent,
                        amount,
                        expiry,
                    )
                    &&& created.effects.transfer == Some(Transfer::Deposit { from: sender, amount })
                    &&& final(self)@.record(created.id).fee == spec_fee(
                        amount as int,
                        old(self)@.fee_bps() as int,
                    )
                    &&& final(self)@.custody() == old(self)@.custody() + amount
                },
                Err(e) => {
                    &&& create_refusal(old(self)@, agent, amount) == Some(e)
                    &&& final(self)@ == old(self)@
                },
            },
    {
        let config = match self.check_create(agent, amount) {
            Err(e) => {
                return Err(e);
            },
            Ok(c) => c,
        };
        let fee = match calculate_fee(amount, config.fee_bps) {
            Ok(fee) => fee,
            // Not reached: the amount is positive and the stored rate is valid.
            Err(e) => {
                return Err(e);
            },
        };
        let id: u64 = self.remittances.len() as u64 + 1;
        let record = Remittance {
            id,
            sender,
            agent,
            amount,
            fee,
            status: RemittanceStatus::Pending,
            expiry,
        };
        self.remittances.push(record);
        proof {
            lemma_create_keeps_wf(old(self)@, sender, agent, amount, expiry);
        }
        Ok(
            Created {
                id,
                effects: Effects {
                    transfer: Some(Transfer::Deposit { from: sender, amount }),
                    event: Some(Event::RemittanceCreated { id, sender, agent, amount, fee }),
                },
            },
        )
    }

    /// As `create_remittance`, for a caller that does not know whether there
    /// is room for the new record: where there is none and the call would not
    /// be refused, the result is `None` and the engine stays as it was.
    pub fn try_create_remittance(
        &mut self,
        sender: Address,
        agent: Address,
        amount: i128,
        expiry: Option<u64>,
    ) -> (res: Option<Result<Created, Error>>)
        requires
            old(self).wf(),
        ensures
            final(self).wf(),
            match res {
                None => {
                    &&& create_refusal(old(self)@, agent, amount) is None
                    &&& !old(self)@.has_room_for(amount)
                    &&& final(self)@ == old(self)@
                },
                Some(Ok(created)) => {
                    &&& create_refusal(old(self)@, agent, amount) is None
                    &&& old(self)@.has_room_for(amount)
                    &&& final(self)@ == create_state(old(self)@, sender, agent, amount, expiry)
                    &&& created.id == old(self)@.next_id()
                    &&& created.effects == create_effects(
                        old(self)@,
                        sender,
                        agent,
                        amount,
                        expiry,
                    )
                    &&& final(self)@.custody() == old(self)@.custody() + amount
                },
                Some(Err(e)) => {
                    &&& create_refusal(old(self)@, agent, amount) == Some(e)
                    &&& final(self)@ == old(self)@
                },
            },
    {
        match self.check_create(agent, amount) {
            Err(e) => Some(Err(e)),
            Ok(_) => {
                if self.has_room_for(amount) {
                    Some(self.create_remittance(sender, agent, amount, expiry))
                } else {
                    None
                }
            },
        }
    }

    /// Moves the remittance to the given state, which the table allows.
    fn set_status(&mut self, at: usize, id: u64, status: RemittanceStatus)
        requires
            old(self)@.has(id),
            at == id - 1,
        ensures
            final(self)@ == old(self)@.with_status(id, status),
            final(self).admins == old(self).admins,
            final(self).agents == old(self).agents,
            final(self).guard == old(self).guard,
            final(self).remittances@ == old(self).remittances@.update(
                at as int,
                old(self).remittances@[at as int].with_status(status),
            ),
    {
        let moved = self.remittances[at].with_status(status);
        self.remittances[at] = moved;
    }

    /// Moves a `Pending` remittance to `Authorized`.
    ///
    /// Refused with `NotInitialized` before setting up, with `Unauthorized`
    /// when `caller` is no administrator, with `RemittanceNotFound` for an
    /// unknown id, and with `InvalidStateTransition` when the remittance is
    /// not `Pending`.
    pub fn authorize_remittance(&mut self, caller: Address, id: u64) -> (res: Result<(), Error>)
        requires
            old(self).wf(),
        ensures
            final(self).wf(),
            match res {
                Ok(_) => {
                    &&& authorize_refusal(old(self)@, caller, id) is None
                    &&& final(self)@ == authorize_state(old(self)@, id)
                    &&& final(self)@.custody() == old(self)@.custody()
                },
                Err(e) => {
                    &&& authorize_refusal(old(self)@, caller, id) == Some(e)
                    &&& final(self)@ == old(self)@
                },
            },
    {
        match self.check_admin(caller) {
            Err(e) => {
                return Err(e);
            },
            Ok(_) => {},
        }
        let at = match self.slot(id) {
            None => {
                return Err(Error::RemittanceNotFound);
            },
            Some(at) => at,
        };
        if !self.remittances[at].status.can_transition_to(&RemittanceStatus::Authorized) {
            return Err(Error::InvalidStateTransition);
        }
        self.set_status(at, id, RemittanceStatus::Authorized);
        proof {
            lemma_authorize_keeps_wf(old(self)@, caller, id);
        }
        Ok(())
    }

    /// Pays an `Authorized` remittance out to its agent, the caller: the
    /// amount less the fee goes to the agent, the fee joins the accumulated
    /// fees, the remittance becomes `Settled` and the guard marks its id.
    ///
    /// Refused, in this order, with `NotInitialized` before setting up, with
    /// `ContractPaused` while paused, with `RemittanceNotFound` for an
    /// unknown id, with `Unauthorized` when `caller` is not the remittance's
    /// agent, with `DuplicateSettlement` when the guard has marked the id,
    /// whatever the remittance's state, with `InvalidStateTransition` when
    /// the remittance is not `Authorized`, and with `SettlementExpired` when
    /// the remittance has an expiry and the clock's time is past it.
    pub fn settle_remittance(&mut self, caller: Address, id: u64, clock: Clock) -> (res: Result<
        Effects,
        Error,
    >)
        requires
            old(self).wf(),
        ensures
            final(self).wf(),
            match res {
                Ok(effects) => {
                    &&& settle_refusal(old(self)@, caller, id, clock) is None
                    &&& final(self)@ == settle_state(old(self)@, id)
                    &&& effects == settle_effects(old(self)@, id, clock)
                    &&& effects.transfer->Some_0.amount() + old(self)@.record(id).fee
                        == old(self)@.record(id).amount
                    &&& final(self)@.settled.contains(id)
                    &&& final(self)@.custody() == old(self)@.custody() + custody_change(
                        effects.transfer,
                    )
                },
                Err(e) => {
                    &&& settle_refusal(old(self)@, caller, id, clock) == Some(e)
                    &&& final(self)@ == old(self)@
                },
            },
    {
        let config = match self.config {
            None => {
                return Err(Error::NotInitialized);
            },
            Some(c) => c,
        };
        if self.paused {
            return Err(Error::ContractPaused);
        }
        let at = match self.slot(id) {
            None => {
                return Err(Error::RemittanceNotFound);
            },
            Some(at) => at,
        };
        let r = self.remittances[at];
        if r.agent != caller {
            return Err(Error::Unauthorized);
        }
        if self.guard.contains(id) {
            return Err(Error::DuplicateSettlement);
        }
        if !r.status.can_transition_to(&RemittanceStatus::Settled) {
            return Err(Error::InvalidStateTransition);
        }
        match r.expiry {
            Some(deadline) => {
                if clock.timestamp > deadline {
                    return Err(Error::SettlementExpired);
                }
            },
            None => {},
        }
        proof {
            lemma_settle_keeps_wf(old(self)@, caller, id, clock);
        }
        let payout = r.payout();
        self.accumulated_fees = self.accumulated_fees + r.fee;
        self.set_status(at, id, RemittanceStatus::Settled);
        self.guard.mark(id);
        Ok(
            Effects {
                transfer: Some(Transfer::Payout { to: r.agent, amount: payout }),
                event: Some(
                    Event::SettlementCompleted {
                        schema_version: SCHEMA_VERSION,
                        sequence: clock.sequence,
                        timestamp: clock.timestamp,
                        sender: r.sender,
                        agent: r.agent,
                        token: config.token,
                        payout_amount: payout,
                    },
                ),
            },
        )
    }

    /// The agent's confirmation that it has paid the recipient: the same call
    /// as `settle_remittance`.
    pub fn confirm_payout(&mut self, caller: Address, id: u64, clock: Clock) -> (res: Result<
        Effects,
        Error,
    >)
        requires
            old(self).wf(),
        ensures
            final(self).wf(),
            match res {
                Ok(effects) => {
                    &&& settle_refusal(old(self)@, caller, id, clock) is None
                    &&& final(self)@ == settle_state(old(self)@, id)
                    &&& effects == settle_effects(old(self)@, id, clock)
                    &&& final(self)@.custody() == old(self)@.custody() + custody_change(
                        effects.transfer,
                    )
                },
                Err(e) => {
                    &&& settle_refusal(old(self)@, caller, id, clock) == Some(e)
                    &&& final(self)@ == old(self)@
                },
            },
    {
        self.settle_remittance(caller, id, clock)
    }

    /// Moves a `Settled` remittance to `Finalized`. No funds move.
    ///
    /// Refused with `NotInitialized` before setting up, with `Unauthorized`
    /// when `caller` is no administrator, with `RemittanceNotFound` for an
    /// unknown id, and with `InvalidStateTransition` when the remittance is
    /// not `Settled`.
    pub fn finalize_remittance(&mut self, caller: Address, id: u64) -> (res: Result<
        Effects,
        Error,
    >)
        requires
            old(self).wf(),
        ensures
            final(self).wf(),
            match res {
                Ok(effects) => {
                    &&& finalize_refusal(old(self)@, caller, id) is None
                    &&& final(self)@ == finalize_state(old(self)@, id)
                    &&& effects == finalize_effects(id)
                    &&& final(self)@.custody() == old(self)@.custody() + custody_change(
                        effects.transfer,
                    )
                },
                Err(e) => {
                    &&& finalize_refusal(old(self)@, caller, id) == Some(e)
                    &&& final(self)@ == old(self)@
                },
            },
    {
        match self.check_admin(caller) {
            Err(e) => {
                return Err(e);
            },
            Ok(_) => {},
        }
        let at = match self.slot(id) {
            None => {
                return Err(Error::RemittanceNotFound);
            },
            Some(at) => at,
        };
        if !self.remittances[at].status.can_transition_to(&RemittanceStatus::Finalized) {
            return Err(Error::InvalidStateTransition);
        }
        self.set_status(at, id, RemittanceStatus::Finalized);
        proof {
            lemma_finalize_keeps_wf(old(self)@, caller, id);
        }
        Ok(Effects { transfer: None, event: Some(Event::RemittanceFinalized { id }) })
    }

    /// The refund owed when the remittance at `at` fails or is cancelled.
    fn refund(&self, at: usize, id: u64) -> (transfer: Option<Transfer>)
        requires
            self@.has(id),
            at == id - 1,
        ensures
            transfer == refund_of(self@, id),
    {
        let r = self.remittances[at];
        if self.guard.contains(id) {
            None
        } else {
            Some(Transfer::Refund { to: r.sender, amount: r.amount })
        }
    }

    /// Fails a remittance that is `Pending` or `Authorized`: it becomes
    /// `Failed`, and its whole amount goes back to the sender unless the
    /// guard says that it has been paid out.
    ///
    /// Refused with `NotInitialized` before setting up, with `Unauthorized`
    /// when `caller` is no administrator, with `RemittanceNotFound` for an
    /// unknown id, and with `InvalidStateTransition` when the remittance is
    /// neither `Pending` nor `Authorized`.
    pub fn fail_remittance(&mut self, caller: Address, id: u64) -> (res: Result<Effects, Error>)
        requires
            old(self).wf(),
        ensures
            final(self).wf(),
            match res {
                Ok(effects) => {
                    &&& fail_refusal(old(self)@, caller, id) is None
                    &&& final(self)@ == fail_state(old(self)@, id)
                    &&& effects == fail_effects(old(self)@, id)
                    &&& final(self)@.custody() == old(self)@.custody() + custody_change(
                        effects.transfer,
                    )
                },
                Err(e) => {
                    &&& fail_refusal(old(self)@, caller, id) == Some(e)
                    &&& final(self)@ == old(self)@
                },
            },
    {
        match self.check_admin(caller) {
            Err(e) => {
                return Err(e);
            },
            Ok(_) => {},
        }
        let at = match self.slot(id) {
            None => {
                return Err(Error::RemittanceNotFound);
            },
            Some(at) => at,
        };
        let r = self.remittances[at];
        if !r.status.can_transition_to(&RemittanceStatus::Failed) {
            return Err(Error::InvalidStateTransition);
        }
        let transfer = self.refund(at, id);
        self.set_status(at, id, RemittanceStatus::Failed);
        proof {
            lemma_fail_keeps_wf(old(self)@, id);
        }
        Ok(
            Effects {
                transfer,
                event: Some(
                    Event::RemittanceFailed {
                        id,
                        sender: r.sender,
                        agent: r.agent,
                        amount: r.amount,
                    },
                ),
            },
        )
    }

    /// The sender, the caller, takes back a remittance that is still
    /// `Pending`: it becomes `Failed`, and its whole amount goes back to the
    /// sender unless the guard says that it has been paid out.
    ///
    /// Refused with `NotInitialized` before setting up, with
    /// `RemittanceNotFound` for an unknown id, with `Unauthorized` when
    /// `caller` is not the remittance's sender, and with
    /// `InvalidStateTransition` when the remittance is not `Pending`.
    pub fn cancel_remittance(&mut self, caller: Address, id: u64) -> (res: Result<Effects, Error>)
        requires
            old(self).wf(),
        ensures
            final(self).wf(),
            match res {
                Ok(effects) => {
                    &&& cancel_refusal(old(self)@, caller, id) is None
                    &&& final(self)@ == fail_state(old(self)@, id)
                    &&& effects == cancel_effects(old(self)@, id)
                    &&& final(self)@.custody() == old(self)@.custody() + custody_change(
                        effects.transfer,
                    )
                },
                Err(e) => {
                    &&& cancel_refusal(old(self)@, caller, id) == Some(e)
                    &&& final(self)@ == old(self)@
                },
            },
    {
        if self.config.is_none() {
            return Err(Error::NotInitialized);
        }
        let at = match self.slot(id) {
            None => {
                return Err(Error::RemittanceNotFound);
            },
            Some(at) => at,
        };
        let r = self.remittances[at];
        if r.sender != caller {
            return Err(Error::Unauthorized);
        }
        match r.status {
            RemittanceStatus::Pending => {},
            _ => {
                return Err(Error::InvalidStateTransition);
            },
        }
        let transfer = self.refund(at, id);
        self.set_status(at, id, RemittanceStatus::Failed);
        proof {
            lemma_fail_keeps_wf(old(self)@, id);
        }
        Ok(
            Effects {
                transfer,
                event: Some(
                    Event::RemittanceCancelled {
                        id,
                        sender: r.sender,
                        agent: r.agent,
                        amount: r.amount,
                    },
                ),
            },
        )
    }

    /// Hands all accumulated fees to `recipient` and sets them to zero.
    ///
    /// Refused with `NotInitialized` before setting up, with `Unauthorized`
    /// when `caller` is no administrator, with `ContractPaused` while paused,
    /// and with `NoFeesAvailable` when no fees have accumulated.
    pub fn withdraw_fees(&mut self, caller: Address, recipient: Address) -> (res: Result<
        Effects,
        Error,
    >)
        requires
            old(self).wf(),
        ensures
            final(self).wf(),
            match res {
                Ok(effects) => {
                    &&& withdraw_fees_refusal(old(self)@, caller) is None
                    &&& final(self)@ == withdraw_fees_state(old(self)@)
                    &&& effects == withdraw_fees_effects(old(self)@, recipient)
                    &&& final(self)@.custody() == old(self)@.custody() + custody_change(
                        effects.transfer,
                    )
                },
                Err(e) => {
                    &&& withdraw_fees_refusal(old(self)@, caller) == Some(e)
                    &&& final(self)@ == old(self)@
                },
            },
    {
        match self.check_admin(caller) {
            Err(e) => {
                return Err(e);
            },
            Ok(_) => {},
        }
        if self.paused {
            return Err(Error::ContractPaused);
        }
        if self.accumulated_fees <= 0 {
            return Err(Error::NoFeesAvailable);
        }
        let amount = self.accumulated_fees;
        self.accumulated_fees = 0;
        proof {
            lemma_withdraw_fees_keeps_wf(old(self)@, caller);
        }
        Ok(
            Effects {
                transfer: Some(Transfer::FeeWithdrawal { to: recipient, amount }),
                event: None,
            },
        )
    }

    // -----------------------------------------------------------------------
    // Calls as values
    // -----------------------------------------------------------------------

    /// Makes the call: the method of the call's name with the call's
    /// arguments. A call that asks nothing of the host returns no effects.
    pub fn apply(&mut self, call: Call) -> (res: Result<Effects, Error>)
        requires
            old(self).wf(),
            within_limits(old(self)@, call),
        ensures
            final(self).wf(),
            final(self)@ == next_state(old(self)@, call),
            match res {
                Ok(effects) => {
                    &&& refusal(old(self)@, call) is None
                    &&& effects == effects_of(old(self)@, call)
                    &&& final(self)@.custody() == old(self)@.custody() + custody_change(
                        effects.transfer,
                    )
                },
                Err(e) => refusal(old(self)@, call) == Some(e),
            },
    {
        match call {
            Call::Initialize { first_admin, token, fee_bps } => {
                match self.initialize(first_admin, token, fee_bps) {
                    Ok(_) => Ok(Effects::none()),
                    Err(e) => Err(e),
                }
            },
            Call::AddAdmin { caller, new_admin } => {
                match self.add_admin(caller, new_admin) {
                    Ok(_) => Ok(Effects::none()),
                    Err(e) => Err(e),
                }
            },
            Call::RemoveAdmin { caller, target } => {
                match self.remove_admin(caller, target) {
                    Ok(_) => Ok(Effects::none()),
                    Err(e) => Err(e),
                }
            },
            Call::RegisterAgent { caller, agent } => self.register_agent(caller, agent),
            Call::RemoveAgent { caller, agent } => {
                match self.remove_agent(caller, agent) {
                    Ok(_) => Ok(Effects::none()),
                    Err(e) => Err(e),
                }
            },
            Call::UpdateFee { caller, fee_bps } => {
                match self.update_fee(caller, fee_bps) {
                    Ok(_) => Ok(Effects::none()),
                    Err(e) => Err(e),
                }
            },
            Call::Pause { caller } => {
                match self.pause(caller) {
                    Ok(_) => Ok(Effects::none()),
                    Err(e) => Err(e),
                }
            },
            Call::Unpause { caller } => {
                match self.unpause(caller) {
                    Ok(_) => Ok(Effects::none()),
                    Err(e) => Err(e),
                }
            },
            Call::Create { sender, agent, amount, expiry } => {
                match self.create_remittance(sender, agent, amount, expiry) {
                    Ok(created) => Ok(created.effects),
                    Err(e) => Err(e),
                }
            },
            Call::Authorize { caller, id } => {
                match self.authorize_remittance(caller, id) {
                    Ok(_) => Ok(Effects::none()),
                    Err(e) => Err(e),
                }
            },
            Call::Settle { caller, id, clock } => self.settle_remittance(caller, id, clock),
            Call::Finalize { caller, id } => self.finalize_remittance(caller, id),
            Call::Fail { caller, id } => self.fail_remittance(caller, id),
            Call::Cancel { caller, id } => self.cancel_remittance(caller, id),
            Call::WithdrawFees { caller, recipient } => self.withdraw_fees(caller, recipient),
        }
    }

    // -----------------------------------------------------------------------
    // Keeping the state between calls
    // -----------------------------------------------------------------------

    /// The engine's state as plain values.
    pub fn snapshot(&self) -> (snap: Snapshot)
        requires
            self.wf(),
        ensures
            snap@ == self@,
            snap@.wf(),
    {
        let mut remittances: Vec<Remittance> = Vec::new();
        let mut i: usize = 0;
        while i < self.remittances.len()
            invariant
                i <= self.remittances@.len(),
                remittances@ == self.remittances@.take(i as int),
            decreases self.remittances@.len() - i,
        {
            remittances.push(self.remittances[i]);
            i += 1;
        }
        assert(remittances@ =~= self.remittances@);
        Snapshot {
            config: self.config,
            admins: self.admins.to_vec(),
            agents: self.agents.to_vec(),
            remittances,
            settled: self.guard.to_vec(),
            accumulated_fees: self.accumulated_fees,
            paused: self.paused,
        }
    }

    /// The engine in the state that the snapshot describes, if that state
    /// meets the state invariant; `None` if it does not.
    pub fn restore(snap: Snapshot) -> (res: Option<Engine>)
        ensures
            match res {
                Some(e) => snap@.wf() && e.wf() && e@ == snap@,
                None => !snap@.wf(),
            },
    {
        let ghost state = snap@;
        proof {
            vstd::seq_lib::seq_to_set_is_finite(snap.admins@);
            vstd::seq_lib::seq_to_set_is_finite(snap.agents@);
            vstd::seq_lib::seq_to_set_is_finite(snap.settled@);
        }
        match snap.config {
            Some(c) => {
                if c.fee_bps > 10000 {
                    return None;
                }
                if snap.admins.len() == 0 {
                    assert(state.admins =~= Set::<Address>::empty());
                    return None;
                }
                assert(state.admins.contains(snap.admins@[0]));
            },
            None => {
                if snap.admins.len() != 0 {
                    assert(state.admins.contains(snap.admins@[0]));
                    return None;
                }
                if snap.agents.len() != 0 {
                    assert(state.agents.contains(snap.agents@[0]));
                    return None;
                }
                if snap.settled.len() != 0 {
                    assert(state.settled.contains(snap.settled@[0]));
                    return None;
                }
                if snap.remittances.len() != 0 || snap.accumulated_fees != 0 || snap.paused {
                    return None;
                }
                assert(state.admins =~= Set::<Address>::empty());
                assert(state.agents =~= Set::<Address>::empty());
                assert(state.settled =~= Set::<u64>::empty());
                assert(state.remittances =~= Seq::<Remittance>::empty());
            },
        }
        if snap.accumulated_fees < 0 {
            return None;
        }
        let count: usize = snap.remittances.len();
        let guard = SettlementGuard::from_vec(&snap.settled);
        let mut k: usize = 0;
        while k < snap.settled.len()
            invariant
                k <= snap.settled@.len(),
                state == snap@,
                count == snap.remittances@.len(),
                forall|j: int| 0 <= j < k ==> state.has(#[trigger] snap.settled@[j]),
            decreases snap.settled@.len() - k,
        {
            let id = snap.settled[k];
            if id == 0 || id - 1 >= count as u64 {
                assert(state.settled.contains(id));
                return None;
            }
            k += 1;
        }
        let mut total: i128 = snap.accumulated_fees;
        let mut i: usize = 0;
        while i < count
            invariant
                i <= count,
                state == snap@,
                guard@ == state.settled,
                count == snap.remittances@.len(),
                0 <= snap.accumulated_fees <= total,
                total == snap.accumulated_fees + escrow_sum(
                    state.remittances.take(i as int),
                    state.settled,
                ),
                forall|j: int|
                    0 <= j < i ==> {
                        let r = #[trigger] state.remittances[j];
                        &&& r.id == j + 1
                        &&& r.well_formed()
                        &&& (r.status == RemittanceStatus::Settled || r.status
                            == RemittanceStatus::Finalized) ==> state.settled.contains(r.id)
                    },
            decreases count - i,
        {
            let r = snap.remittances[i];
            if r.id != i as u64 + 1 || r.amount <= 0 || r.fee < 0 || r.fee > r.amount {
                return None;
            }
            let paid = guard.contains(r.id);
            let held = match r.status {
                RemittanceStatus::Pending => !paid,
                RemittanceStatus::Authorized => !paid,
                RemittanceStatus::Settled => {
                    if !paid {
                        return None;
                    }
                    false
                },
                RemittanceStatus::Finalized => {
                    if !paid {
                        return None;
                    }
                    false
                },
                RemittanceStatus::Failed => false,
            };
            proof {
                lemma_escrow_sum_prefix(state.remittances, state.settled, i + 1);
            }
            if held {
                if total > i128::MAX - r.amount {
                    proof {
                        if state.wf() {
                            lemma_escrow_sum_prefix_bound(
                                state.remittances,
                                state.settled,
                                i + 1,
                            );
                        }
                    }
                    return None;
                }
                total = total + r.amount;
            }
            i += 1;
        }
        assert(state.remittances.take(i as int) =~= state.remittances);
        Some(
            Engine {
                config: snap.config,
                admins: Registry::from_vec(&snap.admins),
                agents: Registry::from_vec(&snap.agents),
                remittances: snap.remittances,
                guard,
                accumulated_fees: snap.accumulated_fees,
                paused: snap.paused,
            },
        )
    }
}

} // verus!
