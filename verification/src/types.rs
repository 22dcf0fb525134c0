//! Plain data carried through the registry: identities, player records,
//! standards-discovery payloads, events, and the error taxonomy.
use vstd::prelude::*;

verus! {

/// A 32-byte account identity, held as four 64-bit words.
#[derive(Debug, Clone, Copy, PartialEq, Eq, Structural)]
pub struct AccountAddress(pub u64, pub u64, pub u64, pub u64);

/// The address of a contract instance.
#[derive(Debug, Clone, Copy, PartialEq, Eq, Structural)]
pub struct ContractAddress {
    pub index: u64,
    pub subindex: u64,
}

/// The identity a call is made under: an account or a contract instance.
#[derive(Debug, Clone, Copy, PartialEq, Eq, Structural)]
pub enum Address {
    Account(AccountAddress),
    Contract(ContractAddress),
}

/// A 32-byte reference to a code module, held as four 64-bit words.
#[derive(Debug, Clone, Copy, PartialEq, Eq, Structural)]
pub struct ModuleReference(pub u64, pub u64, pub u64, pub u64);

/// Eligibility of one player.
#[derive(Debug, Clone, Copy, PartialEq, Eq, Structural)]
pub enum PlayerState {
    Active,
    Suspended,
}

/// Outcome of a single battle, as reported to the registry.
#[derive(Debug, Clone, Copy, PartialEq, Eq, Structural)]
pub enum BattleResult {
    Win,
    Loss,
}

/// The record kept for one player: eligibility plus cumulative counters.
#[derive(Debug, Clone, Copy, PartialEq, Eq, Structural)]
pub struct PlayerData {
    pub state: PlayerState,
    pub wins: u64,
    pub losses: u64,
}

/// Identifier of a capability standard, an opaque byte string.
#[derive(Debug, Clone, PartialEq, Eq)]
pub struct StandardIdentifier {
    pub bytes: Vec<u8>,
}

impl View for StandardIdentifier {
    type V = Seq<u8>;

    open spec fn view(&self) -> Seq<u8> {
        self.bytes@
    }
}

impl StandardIdentifier {
    /// Wraps a byte string as a standard identifier.
    pub fn new(bytes: Vec<u8>) -> (r: StandardIdentifier)
        ensures
            r@ == bytes@,
    {
        StandardIdentifier { bytes }
    }
}

/// Answer to one standards-discovery query.
#[derive(Debug, Clone, PartialEq, Eq)]
pub enum SupportResult {
    /// The standard is not supported.
    NoSupport,
    /// The standard is supported by this registry itself.
    Support,
    /// The standard is supported by the listed contract instances.
    SupportBy(Vec<ContractAddress>),
}

/// The error taxonomy. Every operation either succeeds in full or aborts
/// with exactly one of these; no partial effect ever reaches durable storage.
#[derive(Debug, Clone, Copy, PartialEq, Eq, Structural)]
pub enum ContractError {
    /// The input payload was malformed. Raised only at the wire boundary,
    /// before a request reaches the registry logic.
    ParseParams,
    /// The event sink rejected the event: it is full.
    LogFull,
    /// The event sink rejected the event: it is malformed.
    LogMalformed,
    /// The caller is not the admin.
    Unauthorized,
    /// The registry is paused.
    ContractPaused,
    /// A synchronous sub-call failed.
    InvokeContractError,
    /// The named player has never been added.
    PlayerDoesNotExist,
    /// Upgrade failed: the target module does not exist.
    FailedUpgradeMissingModule,
    /// Upgrade failed: the target module has no matching contract.
    FailedUpgradeMissingContract,
    /// Upgrade failed: the target module's version is not supported.
    FailedUpgradeUnsupportedModuleVersion,
}

/// An event recorded on the durable log. The log is a faithful record of
/// state transitions: a change counts as having happened only if its event
/// was durably recorded in the same call.
#[derive(Debug, Clone, Copy, PartialEq, Eq, Structural)]
pub enum Event {
    /// The admin identity was rotated (or set at creation).
    NewAdmin { new_admin: Address },
    /// A battle outcome was recorded for a player.
    BattleResult { player: Address, is_win: bool },
}

/// The success payload of the basic read-only overview.
#[derive(Debug, Clone, Copy, PartialEq, Eq, Structural)]
pub struct ReturnBasicState {
    pub admin: Address,
    pub paused: bool,
}

} // verus!
