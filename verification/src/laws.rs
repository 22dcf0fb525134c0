//! The laws the registry obeys, stated over the same spec functions the
//! executable operations are proved to follow.
use vstd::prelude::*;

use crate::coordinator::{
    spec_execute, spec_upgrade, CallEnv, CodeSwapOutcome, MigrationOutcome, Request, LedgerView,
    UpgradeParams,
};
use crate::guard::spec_guard;
use crate::registry::{
    spec_get_player_data, spec_is_added, spec_set_paused, spec_set_player_data, spec_update_admin,
    spec_update_battle_result, StateView,
};
use crate::standards::spec_set_implementors;
use crate::types::{
    Address, BattleResult, ContractAddress, ContractError, Event, PlayerState,
};

verus! {

/// A player is reported as added exactly when reading its data succeeds.
pub proof fn lemma_added_iff_data(v: StateView, player: Address)
    ensures
        spec_is_added(v, player) <==> spec_get_player_data(v, player) is Ok,
{
}

/// Recording a result for an account that was never added behaves
/// identically on every call: it fails — `PlayerDoesNotExist` once past the
/// guard — leaves the state untouched, and a repeated call gets the very
/// same outcome; never a silent no-op.
pub proof fn lemma_record_result_absent_always_fails(
    v: StateView,
    sender: Address,
    player: Address,
    result: BattleResult,
)
    requires
        !v.players.contains_key(player),
    ensures
        spec_update_battle_result(v, sender, player, result).0 is Err,
        spec_update_battle_result(v, sender, player, result).1 == v,
        spec_guard(v.paused, v.admin, sender, true) is Ok ==> spec_update_battle_result(
            v,
            sender,
            player,
            result,
        ).0 == Err::<Event, ContractError>(ContractError::PlayerDoesNotExist),
        spec_update_battle_result(
            spec_update_battle_result(v, sender, player, result).1,
            sender,
            player,
            result,
        ) == spec_update_battle_result(v, sender, player, result),
{
}

/// Admin rotation takes effect immediately: the rotation by the current
/// admin succeeds even while paused, the previous admin's very next call
/// fails `Unauthorized` — for a pause-gated operation, once past the pause
/// check — and the new admin's very next call passes the guard.
pub proof fn lemma_admin_rotation_immediate(
    v: StateView,
    new_admin: Address,
    player: Address,
    status: PlayerState,
    b: bool,
)
    requires
        new_admin != v.admin,
    ensures
        spec_update_admin(v, v.admin, new_admin).0 is Ok,
        spec_update_admin(v, v.admin, new_admin).1.admin == new_admin,
        spec_set_paused(spec_update_admin(v, v.admin, new_admin).1, v.admin, b).0 == Err::<
            (),
            ContractError,
        >(ContractError::Unauthorized),
        spec_update_admin(spec_update_admin(v, v.admin, new_admin).1, v.admin, v.admin).0 == Err::<
            Event,
            ContractError,
        >(ContractError::Unauthorized),
        spec_set_paused(spec_update_admin(v, v.admin, new_admin).1, new_admin, b).0 is Ok,
        !v.paused ==> spec_set_player_data(
            spec_update_admin(v, v.admin, new_admin).1,
            v.admin,
            player,
            status,
        ).0 == Err::<(), ContractError>(ContractError::Unauthorized),
        !v.paused ==> spec_set_player_data(
            spec_update_admin(v, v.admin, new_admin).1,
            new_admin,
            player,
            status,
        ).0 is Ok,
{
}

/// While the registry is paused, every pause-gated operation fails
/// `ContractPaused`, whoever calls, and leaves the state untouched.
pub proof fn lemma_paused_blocks_gated_ops(
    v: StateView,
    sender: Address,
    player: Address,
    status: PlayerState,
    result: BattleResult,
    id: Seq<u8>,
    implementers: Seq<ContractAddress>,
)
    requires
        v.paused,
    ensures
        spec_set_player_data(v, sender, player, status).0 == Err::<(), ContractError>(
            ContractError::ContractPaused,
        ),
        spec_set_player_data(v, sender, player, status).1 == v,
        spec_update_battle_result(v, sender, player, result).0 == Err::<Event, ContractError>(
            ContractError::ContractPaused,
        ),
        spec_update_battle_result(v, sender, player, result).1 == v,
        spec_set_implementors(v, sender, id, implementers).0 == Err::<(), ContractError>(
            ContractError::ContractPaused,
        ),
        spec_set_implementors(v, sender, id, implementers).1 == v,
{
}

/// Pausing and unpausing by the admin restores the registry exactly:
/// players, standards, admin and the flag itself come back unchanged, with
/// no residual corruption.
pub proof fn lemma_pause_toggle_restores(v: StateView)
    requires
        !v.paused,
    ensures
        spec_set_paused(v, v.admin, true).0 is Ok,
        spec_set_paused(v, v.admin, true).1.paused,
        spec_set_paused(spec_set_paused(v, v.admin, true).1, v.admin, false).0 is Ok,
        spec_set_paused(spec_set_paused(v, v.admin, true).1, v.admin, false).1 == v,
{
    assert(spec_set_paused(spec_set_paused(v, v.admin, true).1, v.admin, false).1 =~= v);
}

/// An upgrade whose migration call fails leaves the ledger — admin, players,
/// pause flag, standards, backing module and event log — exactly its
/// pre-upgrade value: the code swap rolls back with everything else. The
/// call itself fails, surfacing `InvokeContractError` when the failed
/// migration is what stopped it.
pub proof fn lemma_failed_migration_rolls_back(
    l: LedgerView,
    sender: Address,
    params: UpgradeParams,
    swap: CodeSwapOutcome,
)
    requires
        params.migrate is Some,
    ensures
        spec_upgrade(l, sender, params, swap, MigrationOutcome::Rejected).0 is Err,
        spec_upgrade(l, sender, params, swap, MigrationOutcome::Rejected).1 == l,
        spec_guard(l.state.paused, l.state.admin, sender, false) is Ok && swap is Swapped
            ==> spec_upgrade(l, sender, params, swap, MigrationOutcome::Rejected).0 == Err::<
            (),
            ContractError,
        >(ContractError::InvokeContractError),
{
}

/// A state change and its event are durably recorded together: a dispatched
/// call that must record an event succeeds only with the sink's acceptance
/// and extends the log by exactly that event, while a failed call changes
/// nothing — the event log is a faithful record of state transitions.
pub proof fn lemma_events_commit_with_changes(
    l: LedgerView,
    sender: Address,
    player: Address,
    result: BattleResult,
    new_admin: Address,
    env: CallEnv,
)
    ensures
        ({
            let o = spec_execute(l, sender, Request::UpdateBattleResult { player, result }, env);
            &&& o.0 is Ok ==> env.sink is Accepted && o.1.events == l.events.push(
                Event::BattleResult { player, is_win: result is Win },
            )
            &&& o.0 is Err ==> o.1 == l
        }),
        ({
            let o = spec_execute(l, sender, Request::UpdateAdmin { new_admin }, env);
            &&& o.0 is Ok ==> env.sink is Accepted && o.1.events == l.events.push(
                Event::NewAdmin { new_admin },
            ) && o.1.state.admin == new_admin
            &&& o.0 is Err ==> o.1 == l
        }),
{
}

/// All-or-nothing: whenever a dispatched call returns an error — a failed
/// guard, a missing player, a rejected event, a failed code swap or
/// migration — the durable store is exactly what it was.
pub proof fn lemma_error_leaves_ledger_unchanged(
    l: LedgerView,
    sender: Address,
    req: Request,
    env: CallEnv,
)
    ensures
        spec_execute(l, sender, req, env).0 is Err ==> spec_execute(l, sender, req, env).1 == l,
{
}

} // verus!
