//! The registry state: governance fields and the player store.
//!
//! Every mutating operation first evaluates the access guard against the
//! state as it stands at the moment the operation runs, then applies its
//! effect in full or leaves the state exactly as it was. The full outcome of
//! each operation is a pure function of the state and the arguments, written
//! down here as a `spec` function that the executable method is proved to
//! follow exactly.
use vstd::pervasive::VecAdditionalExecFns;
use vstd::prelude::*;

use crate::guard::{check_access, spec_guard};
use crate::table::{
    keys_distinct, lemma_map_of_contains, lemma_map_of_index, lemma_map_of_push,
    lemma_map_of_update, map_of,
};
use crate::types::{
    Address, BattleResult, ContractAddress, ContractError, Event, PlayerData, PlayerState,
    ReturnBasicState, StandardIdentifier,
};

verus! {

/// The registry as contracts speak of it: the two scalar governance fields
/// and the two keyed stores as maps.
#[verifier::ext_equal]
pub struct StateView {
    pub admin: Address,
    pub paused: bool,
    pub players: Map<Address, PlayerData>,
    pub implementors: Map<Seq<u8>, Seq<ContractAddress>>,
}

/// The persisted registry state. Both stores are entry vectors with
/// pairwise-distinct keys; contracts speak of their map abstraction.
pub struct State {
    pub(crate) admin: Address,
    pub(crate) paused: bool,
    pub(crate) players: Vec<(Address, PlayerData)>,
    pub(crate) implementors: Vec<(StandardIdentifier, Vec<ContractAddress>)>,
}

/// The implementors entries with identifiers and lists taken to their views.
pub open spec fn impl_entries(
    entries: Seq<(StandardIdentifier, Vec<ContractAddress>)>,
) -> Seq<(Seq<u8>, Seq<ContractAddress>)> {
    entries.map_values(|p: (StandardIdentifier, Vec<ContractAddress>)| (p.0@, p.1@))
}

impl View for State {
    type V = StateView;

    open(crate) spec fn view(&self) -> StateView {
        StateView {
            admin: self.admin,
            paused: self.paused,
            players: map_of(self.players@),
            implementors: map_of(impl_entries(self.implementors@)),
        }
    }
}

/// The state a freshly created registry starts in: the deploying caller is
/// the admin, the registry is not paused, both stores are empty.
pub open spec fn spec_initial_state(admin: Address) -> StateView {
    StateView { admin, paused: false, players: Map::empty(), implementors: Map::empty() }
}

/// Whether the counter that `result` would bump for `player` has room; the
/// original deployment aborts the whole transaction on counter overflow, so
/// the verified operation asks its caller to rule it out.
pub open spec fn battle_counters_ok(v: StateView, player: Address, result: BattleResult) -> bool {
    v.players.contains_key(player) ==> match result {
        BattleResult::Win => v.players[player].wins < u64::MAX,
        BattleResult::Loss => v.players[player].losses < u64::MAX,
    }
}

/// Full outcome of `setPlayerData`: admin-gated and pause-gated; creates the
/// record with zeroed counters when absent, else updates only the status,
/// preserving the counters. Never fails once past the guard.
pub open spec fn spec_set_player_data(
    v: StateView,
    sender: Address,
    player: Address,
    status: PlayerState,
) -> (Result<(), ContractError>, StateView) {
    match spec_guard(v.paused, v.admin, sender, true) {
        Err(e) => (Err(e), v),
        Ok(_) => {
            let data = if v.players.contains_key(player) {
                PlayerData {
                    state: status,
                    wins: v.players[player].wins,
                    losses: v.players[player].losses,
                }
            } else {
                PlayerData { state: status, wins: 0, losses: 0 }
            };
            (Ok(()), StateView { players: v.players.insert(player, data), ..v })
        },
    }
}

/// Full outcome of `updateBattleResult`: admin-gated and pause-gated; fails
/// `PlayerDoesNotExist` when the player was never added, else bumps the
/// matching counter and yields the event to record.
pub open spec fn spec_update_battle_result(
    v: StateView,
    sender: Address,
    player: Address,
    result: BattleResult,
) -> (Result<Event, ContractError>, StateView) {
    match spec_guard(v.paused, v.admin, sender, true) {
        Err(e) => (Err(e), v),
        Ok(_) => {
            if !v.players.contains_key(player) {
                (Err(ContractError::PlayerDoesNotExist), v)
            } else {
                let data = v.players[player];
                let new_data = match result {
                    BattleResult::Win => PlayerData {
                        state: data.state,
                        wins: (data.wins + 1) as u64,
                        losses: data.losses,
                    },
                    BattleResult::Loss => PlayerData {
                        state: data.state,
                        wins: data.wins,
                        losses: (data.losses + 1) as u64,
                    },
                };
                (
                    Ok(Event::BattleResult { player, is_win: result is Win }),
                    StateView { players: v.players.insert(player, new_data), ..v },
                )
            }
        },
    }
}

/// Full outcome of `getPlayerData`: read-only and unguarded; the record when
/// present, `PlayerDoesNotExist` when absent.
pub open spec fn spec_get_player_data(v: StateView, player: Address) -> Result<
    PlayerData,
    ContractError,
> {
    if v.players.contains_key(player) {
        Ok(v.players[player])
    } else {
        Err(ContractError::PlayerDoesNotExist)
    }
}

/// Outcome of `isAdded`: presence of the player; never fails.
pub open spec fn spec_is_added(v: StateView, player: Address) -> bool {
    v.players.contains_key(player)
}

/// Full outcome of `updateAdmin`: admin-gated, pause-exempt; rotates the
/// admin with immediate effect and yields the event to record.
pub open spec fn spec_update_admin(v: StateView, sender: Address, new_admin: Address) -> (
    Result<Event, ContractError>,
    StateView,
) {
    match spec_guard(v.paused, v.admin, sender, false) {
        Err(e) => (Err(e), v),
        Ok(_) => (
            Ok(Event::NewAdmin { new_admin }),
            StateView { admin: new_admin, ..v },
        ),
    }
}

/// Full outcome of `setPaused`: admin-gated, pause-exempt (it switches the
/// pause flag itself, so a paused registry can be recovered).
pub open spec fn spec_set_paused(v: StateView, sender: Address, paused: bool) -> (
    Result<(), ContractError>,
    StateView,
) {
    match spec_guard(v.paused, v.admin, sender, false) {
        Err(e) => (Err(e), v),
        Ok(_) => (Ok(()), StateView { paused, ..v }),
    }
}

/// Whether the player entries hold pairwise-distinct keys.
fn player_keys_are_distinct(entries: &Vec<(Address, PlayerData)>) -> (r: bool)
    ensures
        r == keys_distinct(entries@),
{
    let mut i: usize = 0;
    while i < entries.len()
        invariant
            i <= entries@.len(),
            forall|a: int, b: int| 0 <= a < b < i ==> entries@[a].0 != entries@[b].0,
        decreases entries@.len() - i,
    {
        let mut j: usize = 0;
        while j < i
            invariant
                i < entries@.len(),
                j <= i,
                forall|a: int, b: int| 0 <= a < b < i ==> entries@[a].0 != entries@[b].0,
                forall|a: int| 0 <= a < j ==> entries@[a].0 != entries@[i as int].0,
            decreases i - j,
        {
            if entries[j].0 == entries[i].0 {
                proof {
                    assert(entries@[j as int].0 == entries@[i as int].0);
                }
                return false;
            }
            j = j + 1;
        }
        i = i + 1;
    }
    true
}

impl State {
    /// Both stores hold pairwise-distinct keys.
    pub open(crate) spec fn wf(self) -> bool {
        keys_distinct(self.players@) && keys_distinct(impl_entries(self.implementors@))
    }

    /// Creates the registry with the deploying caller as admin, unpaused and
    /// with no player touched and no standard registered.
    pub fn new(admin: Address) -> (s: State)
        ensures
            s.wf(),
            s@ == spec_initial_state(admin),
    {
        let s = State { admin, paused: false, players: Vec::new(), implementors: Vec::new() };
        proof {
            assert(s@.players =~= Map::<Address, PlayerData>::empty());
            assert(s@.implementors =~= Map::<Seq<u8>, Seq<ContractAddress>>::empty());
            assert(s@ =~= spec_initial_state(admin));
        }
        s
    }

    /// Reconstitutes a registry from persisted entries, as the host hands
    /// them back between calls; refused when either store holds a duplicated
    /// key, which no registry ever persists.
    pub fn from_parts(
        admin: Address,
        paused: bool,
        players: Vec<(Address, PlayerData)>,
        implementors: Vec<(StandardIdentifier, Vec<ContractAddress>)>,
    ) -> (r: Option<State>)
        ensures
            match r {
                Some(s) => s.wf() && s@ == (StateView {
                    admin,
                    paused,
                    players: map_of(players@),
                    implementors: map_of(impl_entries(implementors@)),
                }),
                None => !keys_distinct(players@) || !keys_distinct(impl_entries(implementors@)),
            },
    {
        if !player_keys_are_distinct(&players) {
            return None;
        }
        if !crate::standards::implementor_keys_are_distinct(&implementors) {
            return None;
        }
        Some(State { admin, paused, players, implementors })
    }

    /// The player store as persisted entries.
    pub fn player_entries(&self) -> (r: &Vec<(Address, PlayerData)>)
        ensures
            map_of(r@) == self@.players,
            self.wf() ==> keys_distinct(r@),
    {
        &self.players
    }

    /// The standards store as persisted entries.
    pub fn implementor_entries(&self) -> (r: &Vec<(StandardIdentifier, Vec<ContractAddress>)>)
        ensures
            map_of(impl_entries(r@)) == self@.implementors,
            self.wf() ==> keys_distinct(impl_entries(r@)),
    {
        &self.implementors
    }

    /// The index of the player's entry, if any.
    fn find_player(&self, player: Address) -> (r: Option<usize>)
        ensures
            match r {
                Some(i) => i < self.players@.len() && self.players@[i as int].0 == player,
                None => forall|j: int| 0 <= j < self.players@.len() ==> self.players@[j].0 != player,
            },
    {
        let mut i: usize = 0;
        while i < self.players.len()
            invariant
                i <= self.players@.len(),
                forall|j: int| 0 <= j < i ==> self.players@[j].0 != player,
            decreases self.players@.len() - i,
        {
            if self.players[i].0 == player {
                return Some(i);
            }
            i = i + 1;
        }
        None
    }

    /// Upserts a player's status: creates the record with zeroed counters
    /// when absent, else updates only the status, preserving the counters.
    pub fn set_player_data(&mut self, sender: Address, player: Address, status: PlayerState) -> (r:
        Result<(), ContractError>)
        requires
            old(self).wf(),
        ensures
            final(self).wf(),
            r == spec_set_player_data(old(self)@, sender, player, status).0,
            final(self)@ == spec_set_player_data(old(self)@, sender, player, status).1,
    {
        if let Err(e) = check_access(self.paused, self.admin, sender, true) {
            return Err(e);
        }
        proof {
            lemma_map_of_contains(self.players@, player);
        }
        match self.find_player(player) {
            Some(i) => {
                let data = self.players[i].1;
                let new_data = PlayerData { state: status, wins: data.wins, losses: data.losses };
                proof {
                    lemma_map_of_index(self.players@, i as int);
                    lemma_map_of_update(self.players@, i as int, new_data);
                }
                self.players.set(i, (player, new_data));
            },
            None => {
                let new_data = PlayerData { state: status, wins: 0, losses: 0 };
                proof {
                    lemma_map_of_push(self.players@, player, new_data);
                }
                self.players.push((player, new_data));
            },
        }
        Ok(())
    }

    /// Records a battle outcome for an added player, bumping the matching
    /// counter, and returns the event to record; fails `PlayerDoesNotExist`
    /// on a player that was never added, identically on every call.
    pub fn update_battle_result(
        &mut self,
        sender: Address,
        player: Address,
        result: BattleResult,
    ) -> (r: Result<Event, ContractError>)
        requires
            old(self).wf(),
            battle_counters_ok(old(self)@, player, result),
        ensures
            final(self).wf(),
            r == spec_update_battle_result(old(self)@, sender, player, result).0,
            final(self)@ == spec_update_battle_result(old(self)@, sender, player, result).1,
    {
        if let Err(e) = check_access(self.paused, self.admin, sender, true) {
            return Err(e);
        }
        proof {
            lemma_map_of_contains(self.players@, player);
        }
        match self.find_player(player) {
            Some(i) => {
                let data = self.players[i].1;
                proof {
                    lemma_map_of_index(self.players@, i as int);
                }
                let is_win = match result {
                    BattleResult::Win => true,
                    BattleResult::Loss => false,
                };
                let new_data = if is_win {
                    PlayerData { state: data.state, wins: data.wins + 1, losses: data.losses }
                } else {
                    PlayerData { state: data.state, wins: data.wins, losses: data.losses + 1 }
                };
                proof {
                    lemma_map_of_update(self.players@, i as int, new_data);
                }
                self.players.set(i, (player, new_data));
                Ok(Event::BattleResult { player, is_win })
            },
            None => Err(ContractError::PlayerDoesNotExist),
        }
    }

    /// The player's record; fails `PlayerDoesNotExist` when the player was
    /// never added rather than conflating absence with a sentinel status.
    pub fn get_player_data(&self, player: Address) -> (r: Result<PlayerData, ContractError>)
        requires
            self.wf(),
        ensures
            r == spec_get_player_data(self@, player),
    {
        proof {
            lemma_map_of_contains(self.players@, player);
        }
        match self.find_player(player) {
            Some(i) => {
                proof {
                    lemma_map_of_index(self.players@, i as int);
                }
                Ok(self.players[i].1)
            },
            None => Err(ContractError::PlayerDoesNotExist),
        }
    }

    /// Whether the player has ever been touched by an add, status-set or
    /// result-update operation; never fails.
    pub fn is_added(&self, player: Address) -> (r: bool)
        ensures
            r == spec_is_added(self@, player),
    {
        proof {
            lemma_map_of_contains(self.players@, player);
        }
        self.find_player(player).is_some()
    }

    /// The pause flag; read-only and unguarded.
    pub fn get_paused(&self) -> (r: bool)
        ensures
            r == self@.paused,
    {
        self.paused
    }

    /// The basic governance overview; read-only and unguarded.
    pub fn basic_view(&self) -> (r: ReturnBasicState)
        ensures
            r.admin == self@.admin,
            r.paused == self@.paused,
    {
        ReturnBasicState { admin: self.admin, paused: self.paused }
    }

    /// Rotates the admin. Callable only by the current admin, pause-exempt;
    /// effective immediately: the previous admin loses all privileges
    /// atomically with this call's completion.
    pub fn update_admin(&mut self, sender: Address, new_admin: Address) -> (r: Result<
        Event,
        ContractError,
    >)
        requires
            old(self).wf(),
        ensures
            final(self).wf(),
            r == spec_update_admin(old(self)@, sender, new_admin).0,
            final(self)@ == spec_update_admin(old(self)@, sender, new_admin).1,
    {
        if let Err(e) = check_access(self.paused, self.admin, sender, false) {
            return Err(e);
        }
        self.admin = new_admin;
        Ok(Event::NewAdmin { new_admin })
    }

    /// Pauses or unpauses the registry. Callable only by the current admin;
    /// pause-exempt, since it switches the pause flag itself.
    pub fn set_paused(&mut self, sender: Address, paused: bool) -> (r: Result<(), ContractError>)
        requires
            old(self).wf(),
        ensures
            final(self).wf(),
            r == spec_set_paused(old(self)@, sender, paused).0,
            final(self)@ == spec_set_paused(old(self)@, sender, paused).1,
    {
        if let Err(e) = check_access(self.paused, self.admin, sender, false) {
            return Err(e);
        }
        self.paused = paused;
        Ok(())
    }
}

} // verus!
