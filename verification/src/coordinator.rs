//! The call dispatcher and the upgrade coordinator.
//!
//! A registry instance lives in a durable store. An ordinary mutating call
//! works against the state in memory and its effect reaches the store only
//! when the whole call succeeds: any error — a failed guard, a missing
//! player, a rejected event — aborts the call with no partial effect, and a
//! state change counts as having happened only if its event was durably
//! recorded in the same call.
//!
//! The upgrade path is the one operation that opts out of that automatic
//! snapshot commit. It authorizes against the admin as freshly read from the
//! durable store, swaps the code backing the instance, and optionally invokes
//! a migration entrypoint that runs under the new code and may rewrite the
//! durable state wholesale. A failed migration aborts the entire upgrade,
//! code swap included; a successful one must never be overwritten by an
//! auto-commit of the stale pre-migration snapshot. Here both rules are part
//! of the one contract on `upgrade`: on any error the ledger is exactly its
//! old value, and after a committed migration the state is exactly what the
//! migration wrote.
//!
//! What the host decides — whether the event sink accepts an event, whether
//! the code swap finds a fitting module, what a migration running under code
//! this model has never seen does — enters as an outcome value, and the
//! contracts state what holds for every such outcome.
use vstd::prelude::*;

use crate::guard::{check_access, spec_guard};
use crate::registry::{
    battle_counters_ok, spec_initial_state, spec_set_paused, spec_set_player_data,
    spec_update_admin, spec_update_battle_result, State, StateView,
};
use crate::standards::spec_set_implementors;
use crate::types::{
    AccountAddress, Address, BattleResult, ContractAddress, ContractError, Event,
    ModuleReference, PlayerState, StandardIdentifier,
};

verus! {

/// A migration target: an entrypoint of the new module and its argument,
/// both opaque payloads.
#[derive(Debug, Clone, PartialEq, Eq)]
pub struct MigrationCall {
    pub entrypoint: Vec<u8>,
    pub parameter: Vec<u8>,
}

/// The payload of an upgrade request: the target module and, optionally, a
/// migration call to invoke under the new code.
#[derive(Debug, Clone, PartialEq, Eq)]
pub struct UpgradeParams {
    pub module: ModuleReference,
    pub migrate: Option<MigrationCall>,
}

/// What the host reported for the code swap.
#[derive(Debug, Clone, Copy, PartialEq, Eq, Structural)]
pub enum CodeSwapOutcome {
    /// The code backing the instance now is the target module.
    Swapped,
    /// The target module does not exist.
    MissingModule,
    /// The target module has no contract matching this registry's name.
    MissingContract,
    /// The target module's version is not supported.
    UnsupportedModuleVersion,
}

/// What the migration entrypoint, running under the new module, did. The new
/// code is beyond this model, so a committed migration carries the durable
/// state it left behind — arbitrary, including any re-entrant calls it made
/// back into the registry — and nothing relates it to the state before.
pub enum MigrationOutcome {
    /// The migration succeeded and left this durable state.
    Committed(State),
    /// The migration failed; the whole transaction rolls back.
    Rejected,
}

/// What the event sink decided for one event.
#[derive(Debug, Clone, Copy, PartialEq, Eq, Structural)]
pub enum SinkOutcome {
    Accepted,
    Full,
    Malformed,
}

/// One mutating request, as it reaches the registry after the wire payload
/// was parsed.
pub enum Request {
    SetPlayerData { player: Address, status: PlayerState },
    UpdateBattleResult { player: Address, result: BattleResult },
    UpdateAdmin { new_admin: Address },
    SetPaused { paused: bool },
    SetImplementors { id: StandardIdentifier, implementers: Vec<ContractAddress> },
    Upgrade { params: UpgradeParams },
}

/// The host-decided outcomes one call may consume; a call reads only the
/// ones its path reaches.
pub struct CallEnv {
    pub sink: SinkOutcome,
    pub swap: CodeSwapOutcome,
    pub migration: MigrationOutcome,
}

/// The durable store backing one registry instance: the committed state, the
/// module whose code serves the instance, and the event log.
pub struct Ledger {
    pub(crate) state: State,
    pub(crate) module: ModuleReference,
    pub(crate) events: Vec<Event>,
}

/// The durable store as contracts speak of it.
#[verifier::ext_equal]
pub struct LedgerView {
    pub state: StateView,
    pub module: ModuleReference,
    pub events: Seq<Event>,
}

impl View for Ledger {
    type V = LedgerView;

    open(crate) spec fn view(&self) -> LedgerView {
        LedgerView { state: self.state@, module: self.module, events: self.events@ }
    }
}

/// The error an event earns from the sink, if any.
pub open spec fn spec_sink(sink: SinkOutcome) -> Result<(), ContractError> {
    match sink {
        SinkOutcome::Accepted => Ok(()),
        SinkOutcome::Full => Err(ContractError::LogFull),
        SinkOutcome::Malformed => Err(ContractError::LogMalformed),
    }
}

/// The error a code-swap outcome maps to, if any.
pub open spec fn spec_swap(outcome: CodeSwapOutcome) -> Result<(), ContractError> {
    match outcome {
        CodeSwapOutcome::Swapped => Ok(()),
        CodeSwapOutcome::MissingModule => Err(ContractError::FailedUpgradeMissingModule),
        CodeSwapOutcome::MissingContract => Err(ContractError::FailedUpgradeMissingContract),
        CodeSwapOutcome::UnsupportedModuleVersion => Err(
            ContractError::FailedUpgradeUnsupportedModuleVersion,
        ),
    }
}

/// Full outcome of `upgrade`: authorization against the freshly read admin
/// (pause-exempt), then the code swap, then — if requested — the migration.
/// Any error leaves the ledger exactly as it was, the code swap rolled back
/// with everything else; on success with a migration, the durable state is
/// exactly what the migration committed, never the stale pre-migration
/// snapshot.
pub open spec fn spec_upgrade(
    l: LedgerView,
    sender: Address,
    params: UpgradeParams,
    swap: CodeSwapOutcome,
    migration: MigrationOutcome,
) -> (Result<(), ContractError>, LedgerView) {
    match spec_guard(l.state.paused, l.state.admin, sender, false) {
        Err(e) => (Err(e), l),
        Ok(_) => match spec_swap(swap) {
            Err(e) => (Err(e), l),
            Ok(_) => match params.migrate {
                None => (Ok(()), LedgerView { module: params.module, ..l }),
                Some(_) => match migration {
                    MigrationOutcome::Rejected => (Err(ContractError::InvokeContractError), l),
                    MigrationOutcome::Committed(s) => (
                        Ok(()),
                        LedgerView { state: s@, module: params.module, ..l },
                    ),
                },
            },
        },
    }
}

/// The ledger a successful creation leaves: fresh state under the deploying
/// account, served by the given module, with the creation event recorded —
/// or the sink's error, and no instance at all.
pub open spec fn spec_init(
    deployer: AccountAddress,
    module: ModuleReference,
    sink: SinkOutcome,
) -> Result<LedgerView, ContractError> {
    match spec_sink(sink) {
        Err(e) => Err(e),
        Ok(_) => Ok(
            LedgerView {
                state: spec_initial_state(Address::Account(deployer)),
                module,
                events: seq![Event::NewAdmin { new_admin: Address::Account(deployer) }],
            },
        ),
    }
}

/// Full outcome of one dispatched call: the request's own outcome, with the
/// event sink's decision folded in for the operations that record an event, and
/// the ledger the call leaves behind. Every error leaves the ledger exactly
/// as it was.
pub open spec fn spec_execute(l: LedgerView, sender: Address, req: Request, env: CallEnv) -> (
    Result<(), ContractError>,
    LedgerView,
) {
    match req {
        Request::SetPlayerData { player, status } => {
            let o = spec_set_player_data(l.state, sender, player, status);
            match o.0 {
                Ok(_) => (Ok(()), LedgerView { state: o.1, ..l }),
                Err(e) => (Err(e), l),
            }
        },
        Request::UpdateBattleResult { player, result } => {
            let o = spec_update_battle_result(l.state, sender, player, result);
            match o.0 {
                Err(e) => (Err(e), l),
                Ok(ev) => match spec_sink(env.sink) {
                    Err(e) => (Err(e), l),
                    Ok(_) => (Ok(()), LedgerView { state: o.1, events: l.events.push(ev), ..l }),
                },
            }
        },
        Request::UpdateAdmin { new_admin } => {
            let o = spec_update_admin(l.state, sender, new_admin);
            match o.0 {
                Err(e) => (Err(e), l),
                Ok(ev) => match spec_sink(env.sink) {
                    Err(e) => (Err(e), l),
                    Ok(_) => (Ok(()), LedgerView { state: o.1, events: l.events.push(ev), ..l }),
                },
            }
        },
        Request::SetPaused { paused } => {
            let o = spec_set_paused(l.state, sender, paused);
            match o.0 {
                Ok(_) => (Ok(()), LedgerView { state: o.1, ..l }),
                Err(e) => (Err(e), l),
            }
        },
        Request::SetImplementors { id, implementers } => {
            let o = spec_set_implementors(l.state, sender, id@, implementers@);
            match o.0 {
                Ok(_) => (Ok(()), LedgerView { state: o.1, ..l }),
                Err(e) => (Err(e), l),
            }
        },
        Request::Upgrade { params } => spec_upgrade(l, sender, params, env.swap, env.migration),
    }
}

/// Maps the sink's decision on one event to the call's error, if any.
fn record_event_outcome(sink: SinkOutcome) -> (r: Result<(), ContractError>)
    ensures
        r == spec_sink(sink),
{
    match sink {
        SinkOutcome::Accepted => Ok(()),
        SinkOutcome::Full => Err(ContractError::LogFull),
        SinkOutcome::Malformed => Err(ContractError::LogMalformed),
    }
}

impl Ledger {
    /// The committed registry state is well-formed.
    pub open(crate) spec fn wf(self) -> bool {
        self.state.wf()
    }

    /// Creates the registry instance. The deploying account becomes the
    /// admin; the creation counts only if its event was durably recorded.
    pub fn init(deployer: AccountAddress, module: ModuleReference, sink: SinkOutcome) -> (r:
        Result<Ledger, ContractError>)
        ensures
            match r {
                Ok(l) => l.wf() && spec_init(deployer, module, sink) == Ok::<
                    LedgerView,
                    ContractError,
                >(l@),
                Err(e) => spec_init(deployer, module, sink) == Err::<LedgerView, ContractError>(e),
            },
    {
        if let Err(e) = record_event_outcome(sink) {
            return Err(e);
        }
        let state = State::new(Address::Account(deployer));
        let mut events: Vec<Event> = Vec::new();
        events.push(Event::NewAdmin { new_admin: Address::Account(deployer) });
        let l = Ledger { state, module, events };
        proof {
            assert(l@.events =~= seq![Event::NewAdmin { new_admin: Address::Account(deployer) }]);
        }
        Ok(l)
    }

    /// The committed registry state.
    pub fn registry(&self) -> (r: &State)
        ensures
            r@ == self@.state,
            self.wf() ==> r.wf(),
    {
        &self.state
    }

    /// The module whose code serves the instance.
    pub fn current_module(&self) -> (r: ModuleReference)
        ensures
            r == self@.module,
    {
        self.module
    }

    /// How many events have been durably recorded.
    pub fn event_count(&self) -> (r: usize)
        ensures
            r == self@.events.len(),
    {
        self.events.len()
    }

    /// The event at a position of the durable log.
    pub fn event_at(&self, i: usize) -> (r: Event)
        requires
            i < self@.events.len(),
        ensures
            r == self@.events[i as int],
    {
        self.events[i]
    }

    /// Replaces the code backing this instance and optionally invokes the
    /// migration, as one atomic unit that bypasses the automatic snapshot
    /// commit. Authorization is checked against the admin as read from the
    /// durable store at this moment, not against any snapshot a calling
    /// frame might hold.
    pub fn upgrade(
        &mut self,
        sender: Address,
        params: UpgradeParams,
        swap: CodeSwapOutcome,
        migration: MigrationOutcome,
    ) -> (r: Result<(), ContractError>)
        requires
            old(self).wf(),
            migration matches MigrationOutcome::Committed(s) ==> s.wf(),
        ensures
            final(self).wf(),
            r == spec_upgrade(old(self)@, sender, params, swap, migration).0,
            final(self)@ == spec_upgrade(old(self)@, sender, params, swap, migration).1,
    {
        if let Err(e) = check_access(self.state.paused, self.state.admin, sender, false) {
            return Err(e);
        }
        match swap {
            CodeSwapOutcome::MissingModule => Err(ContractError::FailedUpgradeMissingModule),
            CodeSwapOutcome::MissingContract => Err(ContractError::FailedUpgradeMissingContract),
            CodeSwapOutcome::UnsupportedModuleVersion => Err(
                ContractError::FailedUpgradeUnsupportedModuleVersion,
            ),
            CodeSwapOutcome::Swapped => {
                match params.migrate {
                    None => {
                        self.module = params.module;
                        Ok(())
                    },
                    Some(_) => match migration {
                        MigrationOutcome::Rejected => Err(ContractError::InvokeContractError),
                        MigrationOutcome::Committed(new_state) => {
                            self.state = new_state;
                            self.module = params.module;
                            Ok(())
                        },
                    },
                }
            },
        }
    }

    /// Dispatches one mutating call against the durable store. The call's
    /// effect and its event are committed together, and only when every step
    /// succeeded; any error leaves the store exactly as it was.
    pub fn execute(&mut self, sender: Address, req: Request, env: CallEnv) -> (r: Result<
        (),
        ContractError,
    >)
        requires
            old(self).wf(),
            req matches Request::UpdateBattleResult { player, result } ==> battle_counters_ok(
                old(self)@.state,
                player,
                result,
            ),
            req is Upgrade ==> (env.migration matches MigrationOutcome::Committed(s) ==> s.wf()),
        ensures
            final(self).wf(),
            r == spec_execute(old(self)@, sender, req, env).0,
            final(self)@ == spec_execute(old(self)@, sender, req, env).1,
    {
        match req {
            Request::SetPlayerData { player, status } => self.state.set_player_data(
                sender,
                player,
                status,
            ),
            Request::UpdateBattleResult { player, result } => {
                if let Err(e) = check_access(self.state.paused, self.state.admin, sender, true) {
                    return Err(e);
                }
                if !self.state.is_added(player) {
                    return Err(ContractError::PlayerDoesNotExist);
                }
                if let Err(e) = record_event_outcome(env.sink) {
                    return Err(e);
                }
                match self.state.update_battle_result(sender, player, result) {
                    Ok(ev) => {
                        self.events.push(ev);
                        Ok(())
                    },
                    Err(e) => Err(e),
                }
            },
            Request::UpdateAdmin { new_admin } => {
                if let Err(e) = check_access(self.state.paused, self.state.admin, sender, false) {
                    return Err(e);
                }
                if let Err(e) = record_event_outcome(env.sink) {
                    return Err(e);
                }
                match self.state.update_admin(sender, new_admin) {
                    Ok(ev) => {
                        self.events.push(ev);
                        Ok(())
                    },
                    Err(e) => Err(e),
                }
            },
            Request::SetPaused { paused } => self.state.set_paused(sender, paused),
            Request::SetImplementors { id, implementers } => self.state.set_implementors(
                sender,
                id,
                implementers,
            ),
            Request::Upgrade { params } => self.upgrade(sender, params, env.swap, env.migration),
        }
    }
}

} // verus!
