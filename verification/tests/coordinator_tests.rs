use league_registry::coordinator::{
    CallEnv, CodeSwapOutcome, Ledger, MigrationCall, MigrationOutcome, Request, SinkOutcome,
    UpgradeParams,
};
use league_registry::registry::State;
use league_registry::types::{
    AccountAddress, Address, BattleResult, ContractError, Event, ModuleReference, PlayerData,
    PlayerState,
};

const DEPLOYER: AccountAddress = AccountAddress(2, 2, 2, 2);
const ADMIN_ADDRESS: Address = Address::Account(DEPLOYER);
const OTHER_ADDRESS: Address = Address::Account(AccountAddress(3, 3, 3, 3));
const PLAYER_ADDRESS: Address = Address::Account(AccountAddress(7, 7, 7, 7));
const MODULE_A: ModuleReference = ModuleReference(1, 1, 1, 1);
const MODULE_B: ModuleReference = ModuleReference(8, 8, 8, 8);

fn quiet_env() -> CallEnv {
    CallEnv {
        sink: SinkOutcome::Accepted,
        swap: CodeSwapOutcome::Swapped,
        migration: MigrationOutcome::Rejected,
    }
}

fn fresh_ledger() -> Ledger {
    Ledger::init(DEPLOYER, MODULE_A, SinkOutcome::Accepted).unwrap()
}

fn migration_call() -> MigrationCall {
    MigrationCall { entrypoint: b"migrate".to_vec(), parameter: vec![] }
}

/// Creation records the admin event and starts unpaused under the deployer.
#[test]
fn init_records_creation_event() {
    let ledger = fresh_ledger();
    let view = ledger.registry().basic_view();
    assert_eq!(view.admin, ADMIN_ADDRESS);
    assert!(!view.paused);
    assert_eq!(ledger.current_module(), MODULE_A);
    assert_eq!(ledger.event_count(), 1);
    assert_eq!(ledger.event_at(0), Event::NewAdmin { new_admin: ADMIN_ADDRESS });
}

/// Creation fails outright when the creation event cannot be recorded.
#[test]
fn init_fails_when_sink_rejects() {
    assert!(matches!(
        Ledger::init(DEPLOYER, MODULE_A, SinkOutcome::Full),
        Err(ContractError::LogFull)
    ));
    assert!(matches!(
        Ledger::init(DEPLOYER, MODULE_A, SinkOutcome::Malformed),
        Err(ContractError::LogMalformed)
    ));
}

/// A recorded battle result commits the state change and its event together.
#[test]
fn battle_result_commits_with_event() {
    let mut ledger = fresh_ledger();
    let r = ledger.execute(
        ADMIN_ADDRESS,
        Request::SetPlayerData { player: PLAYER_ADDRESS, status: PlayerState::Active },
        quiet_env(),
    );
    assert_eq!(r, Ok(()));
    let r = ledger.execute(
        ADMIN_ADDRESS,
        Request::UpdateBattleResult { player: PLAYER_ADDRESS, result: BattleResult::Win },
        quiet_env(),
    );
    assert_eq!(r, Ok(()));
    assert_eq!(ledger.event_count(), 2);
    assert_eq!(
        ledger.event_at(1),
        Event::BattleResult { player: PLAYER_ADDRESS, is_win: true }
    );
    assert_eq!(
        ledger.registry().get_player_data(PLAYER_ADDRESS),
        Ok(PlayerData { state: PlayerState::Active, wins: 1, losses: 0 })
    );
}

/// A rejected event aborts the call: the state change is discarded with it.
#[test]
fn rejected_event_discards_state_change() {
    let mut ledger = fresh_ledger();
    ledger
        .execute(
            ADMIN_ADDRESS,
            Request::SetPlayerData { player: PLAYER_ADDRESS, status: PlayerState::Active },
            quiet_env(),
        )
        .unwrap();

    let mut env = quiet_env();
    env.sink = SinkOutcome::Full;
    let r = ledger.execute(
        ADMIN_ADDRESS,
        Request::UpdateBattleResult { player: PLAYER_ADDRESS, result: BattleResult::Win },
        env,
    );
    assert_eq!(r, Err(ContractError::LogFull));
    assert_eq!(ledger.event_count(), 1);
    assert_eq!(
        ledger.registry().get_player_data(PLAYER_ADDRESS),
        Ok(PlayerData { state: PlayerState::Active, wins: 0, losses: 0 })
    );

    let mut env = quiet_env();
    env.sink = SinkOutcome::Malformed;
    let r = ledger.execute(
        ADMIN_ADDRESS,
        Request::UpdateAdmin { new_admin: OTHER_ADDRESS },
        env,
    );
    assert_eq!(r, Err(ContractError::LogMalformed));
    assert_eq!(ledger.registry().basic_view().admin, ADMIN_ADDRESS);
    assert_eq!(ledger.event_count(), 1);
}

/// An unauthorized pause attempt leaves the registry unpaused.
#[test]
fn unauthorized_set_paused_has_no_effect() {
    let mut ledger = fresh_ledger();
    let r = ledger.execute(OTHER_ADDRESS, Request::SetPaused { paused: true }, quiet_env());
    assert_eq!(r, Err(ContractError::Unauthorized));
    assert!(!ledger.registry().get_paused());
}

/// A plain upgrade swaps the backing module and nothing else.
#[test]
fn upgrade_without_migration_swaps_module() {
    let mut ledger = fresh_ledger();
    let r = ledger.upgrade(
        ADMIN_ADDRESS,
        UpgradeParams { module: MODULE_B, migrate: None },
        CodeSwapOutcome::Swapped,
        MigrationOutcome::Rejected,
    );
    assert_eq!(r, Ok(()));
    assert_eq!(ledger.current_module(), MODULE_B);
    assert_eq!(ledger.registry().basic_view().admin, ADMIN_ADDRESS);
    assert_eq!(ledger.event_count(), 1);
}

/// Only the admin, as freshly read from the durable store, may upgrade.
#[test]
fn upgrade_not_authorized() {
    let mut ledger = fresh_ledger();
    let r = ledger.upgrade(
        OTHER_ADDRESS,
        UpgradeParams { module: MODULE_B, migrate: None },
        CodeSwapOutcome::Swapped,
        MigrationOutcome::Rejected,
    );
    assert_eq!(r, Err(ContractError::Unauthorized));
    assert_eq!(ledger.current_module(), MODULE_A);
}

/// Each failed swap outcome surfaces its own error and changes nothing.
#[test]
fn upgrade_swap_failures_roll_back() {
    let cases = vec![
        (CodeSwapOutcome::MissingModule, ContractError::FailedUpgradeMissingModule),
        (CodeSwapOutcome::MissingContract, ContractError::FailedUpgradeMissingContract),
        (
            CodeSwapOutcome::UnsupportedModuleVersion,
            ContractError::FailedUpgradeUnsupportedModuleVersion,
        ),
    ];
    for (swap, expected) in cases {
        let mut ledger = fresh_ledger();
        let r = ledger.upgrade(
            ADMIN_ADDRESS,
            UpgradeParams { module: MODULE_B, migrate: None },
            swap,
            MigrationOutcome::Rejected,
        );
        assert_eq!(r, Err(expected));
        assert_eq!(ledger.current_module(), MODULE_A);
    }
}

/// An upgrade whose migration fails rolls back in full: admin, players,
/// pause flag, standards, the event log and the code swap itself.
#[test]
fn failed_migration_rolls_back_everything() {
    let mut ledger = fresh_ledger();
    ledger
        .execute(
            ADMIN_ADDRESS,
            Request::SetPlayerData { player: PLAYER_ADDRESS, status: PlayerState::Active },
            quiet_env(),
        )
        .unwrap();

    let r = ledger.upgrade(
        ADMIN_ADDRESS,
        UpgradeParams { module: MODULE_B, migrate: Some(migration_call()) },
        CodeSwapOutcome::Swapped,
        MigrationOutcome::Rejected,
    );
    assert_eq!(r, Err(ContractError::InvokeContractError));
    assert_eq!(ledger.current_module(), MODULE_A);
    let view = ledger.registry().basic_view();
    assert_eq!(view.admin, ADMIN_ADDRESS);
    assert!(!view.paused);
    assert_eq!(
        ledger.registry().get_player_data(PLAYER_ADDRESS),
        Ok(PlayerData { state: PlayerState::Active, wins: 0, losses: 0 })
    );
    assert_eq!(ledger.event_count(), 1);
}

/// After a committed migration the durable state is exactly what the
/// migration wrote, never the stale pre-migration snapshot.
#[test]
fn committed_migration_state_is_kept() {
    let mut ledger = fresh_ledger();
    ledger
        .execute(
            ADMIN_ADDRESS,
            Request::SetPlayerData { player: PLAYER_ADDRESS, status: PlayerState::Active },
            quiet_env(),
        )
        .unwrap();

    // What the migration, running under the new code, left behind: a
    // restructured state under a different admin with the player gone.
    let migrated = State::new(OTHER_ADDRESS);
    let r = ledger.upgrade(
        ADMIN_ADDRESS,
        UpgradeParams { module: MODULE_B, migrate: Some(migration_call()) },
        CodeSwapOutcome::Swapped,
        MigrationOutcome::Committed(migrated),
    );
    assert_eq!(r, Ok(()));
    assert_eq!(ledger.current_module(), MODULE_B);
    assert_eq!(ledger.registry().basic_view().admin, OTHER_ADDRESS);
    assert!(!ledger.registry().is_added(PLAYER_ADDRESS));
}

/// The dispatcher reaches the upgrade path like any other request, but the
/// upgrade is the one operation that bypasses the automatic commit.
#[test]
fn execute_dispatches_upgrade() {
    let mut ledger = fresh_ledger();
    let env = CallEnv {
        sink: SinkOutcome::Accepted,
        swap: CodeSwapOutcome::Swapped,
        migration: MigrationOutcome::Rejected,
    };
    let r = ledger.execute(
        ADMIN_ADDRESS,
        Request::Upgrade {
            params: UpgradeParams { module: MODULE_B, migrate: Some(migration_call()) },
        },
        env,
    );
    assert_eq!(r, Err(ContractError::InvokeContractError));
    assert_eq!(ledger.current_module(), MODULE_A);
}

/// Paused registries still accept governance recovery: rotation, unpausing
/// and upgrade remain callable while paused.
#[test]
fn pause_exempt_operations_while_paused() {
    let mut ledger = fresh_ledger();
    ledger
        .execute(ADMIN_ADDRESS, Request::SetPaused { paused: true }, quiet_env())
        .unwrap();
    assert!(ledger.registry().get_paused());

    let r = ledger.execute(
        ADMIN_ADDRESS,
        Request::SetPlayerData { player: PLAYER_ADDRESS, status: PlayerState::Active },
        quiet_env(),
    );
    assert_eq!(r, Err(ContractError::ContractPaused));

    let r = ledger.upgrade(
        ADMIN_ADDRESS,
        UpgradeParams { module: MODULE_B, migrate: None },
        CodeSwapOutcome::Swapped,
        MigrationOutcome::Rejected,
    );
    assert_eq!(r, Ok(()));

    let r = ledger.execute(
        ADMIN_ADDRESS,
        Request::UpdateAdmin { new_admin: OTHER_ADDRESS },
        quiet_env(),
    );
    assert_eq!(r, Ok(()));

    let r = ledger.execute(OTHER_ADDRESS, Request::SetPaused { paused: false }, quiet_env());
    assert_eq!(r, Ok(()));
    assert!(!ledger.registry().get_paused());
}
