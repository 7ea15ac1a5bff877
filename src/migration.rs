use vstd::prelude::*;

use crate::coin::Coin;
use crate::error::ContractError;
use crate::state::{
    account_wf, countdown_of, donation_of_option, parent_donation, parent_wf, Parent,
    ParentDonation, State,
};

verus! {

/// The name under which this contract records its identity.
pub const CONTRACT_NAME: &'static str = "counting-contract";

/// The schema version that this contract writes.
pub const CONTRACT_VERSION: &'static str = "0.4.0";

/// Every schema version that a stored account may be in.
#[derive(Clone, Copy, Debug, PartialEq, Eq, Structural)]
pub enum SchemaVersion {
    /// `0.1.0`: counter and threshold in one record, the owner in another.
    V010,
    /// `0.2.0`: counter, threshold and owner in one record.
    V020,
    /// `0.3.0`: the same fields as `0.2.0`.
    V030,
    /// The current layout, [`State`] beside an optional [`ParentDonation`].
    Current,
}

/// The stored record of a `0.1.0` account, without its owner.
#[derive(Clone, Debug, PartialEq, Eq)]
pub struct LegacyState {
    pub counter: u64,
    pub minimal_donation: Coin,
}

/// The stored record of a `0.2.0` or `0.3.0` account.
#[derive(Clone, Debug, PartialEq, Eq)]
pub struct OwnedState {
    pub counter: u64,
    pub minimal_donation: Coin,
    pub owner: String,
}

/// A stored account, in the layout of its schema version.
#[derive(Clone, Debug, PartialEq, Eq)]
pub enum StoredState {
    V010 { state: LegacyState, owner: String },
    V020(OwnedState),
    V030(OwnedState),
    /// An account in the current layout, which migration leaves alone.
    Current,
}

/// What a migration leaves to be written.
#[derive(Clone, Debug, PartialEq, Eq)]
pub enum MigrateOutcome {
    /// The account is current already: nothing is to be written.
    Unchanged,
    /// The account in the current layout, and its forwarding relationship.
    Migrated { state: State, parent_donation: Option<ParentDonation> },
}

/// The schema version that a stored version tag names, if any.
pub open spec fn version_of(version: Seq<char>) -> Option<SchemaVersion> {
    if version == "0.1.0"@ {
        Some(SchemaVersion::V010)
    } else if version == "0.2.0"@ {
        Some(SchemaVersion::V020)
    } else if version == "0.3.0"@ {
        Some(SchemaVersion::V030)
    } else if version == CONTRACT_VERSION@ {
        Some(SchemaVersion::Current)
    } else {
        None
    }
}

/// The outcome of checking a stored identity before migrating it.
pub open spec fn checked(contract: String, version: String) -> Result<SchemaVersion, ContractError> {
    if contract@ != CONTRACT_NAME@ {
        Err(ContractError::InvalidContract { contract })
    } else {
        match version_of(version@) {
            Some(v) => Ok(v),
            None => Err(ContractError::InvalidContractVersion { version }),
        }
    }
}

/// Checks the stored contract identity and version tag: a foreign contract
/// name is refused first, then a version that is not in the registry.
pub fn check_version(contract: String, version: String) -> (r: Result<SchemaVersion, ContractError>)
    ensures
        r == checked(contract, version),
{
    if contract != String::from_str(CONTRACT_NAME) {
        return Err(ContractError::InvalidContract { contract });
    }
    if version == String::from_str("0.1.0") {
        Ok(SchemaVersion::V010)
    } else if version == String::from_str("0.2.0") {
        Ok(SchemaVersion::V020)
    } else if version == String::from_str("0.3.0") {
        Ok(SchemaVersion::V030)
    } else if version == String::from_str(CONTRACT_VERSION) {
        Ok(SchemaVersion::Current)
    } else {
        Err(ContractError::InvalidContractVersion { version })
    }
}

/// The `0.2.0` record made from a `0.1.0` record and its owner.
pub open spec fn upgraded_legacy(state: LegacyState, owner: String) -> OwnedState {
    OwnedState { counter: state.counter, minimal_donation: state.minimal_donation, owner }
}

/// The `0.3.0` record made from a `0.2.0` record: the same fields.
pub open spec fn upgraded_owned(state: OwnedState) -> OwnedState {
    state
}

/// The current record made from a `0.3.0` record, with the countdown of the
/// forwarding relationship that the migration establishes, if any.
pub open spec fn upgraded_current(state: OwnedState, parent: Option<Parent>) -> State {
    State {
        counter: state.counter,
        minimal_donation: state.minimal_donation,
        owner: state.owner,
        donating_parent: countdown_of(parent),
    }
}

/// Merges a `0.1.0` record and its separately stored owner into a `0.2.0`
/// record. No forwarding relationship comes of it.
pub fn migrate_0_1_0(state: LegacyState, owner: String) -> (r: OwnedState)
    ensures
        r == upgraded_legacy(state, owner),
{
    OwnedState { counter: state.counter, minimal_donation: state.minimal_donation, owner }
}

/// Turns a `0.2.0` record into a `0.3.0` record. No forwarding relationship
/// comes of it.
pub fn migrate_0_2_0(state: OwnedState) -> (r: OwnedState)
    ensures
        r == upgraded_owned(state),
{
    OwnedState { counter: state.counter, minimal_donation: state.minimal_donation, owner: state.owner }
}

/// Turns a `0.3.0` record into the current one. A supplied parent establishes
/// a forwarding relationship, its countdown at the full period; without one
/// the account has none.
pub fn migrate_0_3_0(state: OwnedState, parent: Option<Parent>) -> (r: (
    State,
    Option<ParentDonation>,
))
    requires
        parent_wf(parent),
    ensures
        r.0 == upgraded_current(state, parent),
        r.1 == donation_of_option(parent),
        account_wf(r.0, r.1),
{
    let (donating_parent, parent_donation) = parent_donation(parent);
    (
        State {
            counter: state.counter,
            minimal_donation: state.minimal_donation,
            owner: state.owner,
            donating_parent,
        },
        parent_donation,
    )
}

/// The current account that a stored account of any older version becomes:
/// its counter, threshold and owner carried over, and the forwarding
/// relationship of `parent` where one is supplied.
pub open spec fn migrated(stored: StoredState, parent: Option<Parent>) -> MigrateOutcome {
    let carried = |counter: u64, minimal_donation: Coin, owner: String|
        MigrateOutcome::Migrated {
            state: State { counter, minimal_donation, owner, donating_parent: countdown_of(parent) },
            parent_donation: donation_of_option(parent),
        };
    match stored {
        StoredState::V010 { state, owner } => carried(state.counter, state.minimal_donation, owner),
        StoredState::V020(s) => carried(s.counter, s.minimal_donation, s.owner),
        StoredState::V030(s) => carried(s.counter, s.minimal_donation, s.owner),
        StoredState::Current => MigrateOutcome::Unchanged,
    }
}

/// Brings a stored account to the current layout through every step from its
/// version on, one after another; the result is written once, by the caller,
/// after all of them. An account that is current already is left unchanged.
pub fn migrate(stored: StoredState, parent: Option<Parent>) -> (r: MigrateOutcome)
    requires
        parent_wf(parent),
    ensures
        r == migrated(stored, parent),
        stored == StoredState::Current ==> r == MigrateOutcome::Unchanged,
        r matches MigrateOutcome::Migrated { state, parent_donation } ==> account_wf(
            state,
            parent_donation,
        ),
{
    let v030 = match stored {
        StoredState::V010 { state, owner } => migrate_0_2_0(migrate_0_1_0(state, owner)),
        StoredState::V020(s) => migrate_0_2_0(s),
        StoredState::V030(s) => s,
        StoredState::Current => return MigrateOutcome::Unchanged,
    };
    let (state, parent_donation) = migrate_0_3_0(v030, parent);
    MigrateOutcome::Migrated { state, parent_donation }
}

/// Migration is idempotent: the identity that a migration records (this
/// contract's name and the current version tag) checks as the current layout,
/// and migrating an account in the current layout leaves it unchanged, with
/// nothing to write, whatever parent is supplied.
pub proof fn lemma_migration_idempotent(contract: String, version: String, parent: Option<Parent>)
    requires
        contract@ == CONTRACT_NAME@,
        version@ == CONTRACT_VERSION@,
    ensures
        checked(contract, version) == Ok::<SchemaVersion, ContractError>(SchemaVersion::Current),
        migrated(StoredState::Current, parent) == MigrateOutcome::Unchanged,
{
    reveal_strlit("0.1.0");
    reveal_strlit("0.2.0");
    reveal_strlit("0.3.0");
    reveal_strlit("0.4.0");
    assert(CONTRACT_VERSION@ != "0.1.0"@ && CONTRACT_VERSION@ != "0.2.0"@ && CONTRACT_VERSION@
        != "0.3.0"@) by {
        assert(CONTRACT_VERSION@[2] != "0.1.0"@[2]);
        assert(CONTRACT_VERSION@[2] != "0.2.0"@[2]);
        assert(CONTRACT_VERSION@[2] != "0.3.0"@[2]);
    }
}

/// Migration composes: migrating a `0.1.0` account to the current layout in
/// one call gives the same account as migrating it to `0.2.0`, then to
/// `0.3.0`, then to the current layout, one step at a time; and each version's
/// migration is its own step followed by the migration of the next version.
pub proof fn lemma_migration_chain_composes(
    state: LegacyState,
    owner: String,
    parent: Option<Parent>,
)
    ensures
        migrated(StoredState::V010 { state, owner }, parent) == (MigrateOutcome::Migrated {
            state: upgraded_current(upgraded_owned(upgraded_legacy(state, owner)), parent),
            parent_donation: donation_of_option(parent),
        }),
        migrated(StoredState::V010 { state, owner }, parent) == migrated(
            StoredState::V020(upgraded_legacy(state, owner)),
            parent,
        ),
        migrated(StoredState::V020(upgraded_legacy(state, owner)), parent) == migrated(
            StoredState::V030(upgraded_owned(upgraded_legacy(state, owner))),
            parent,
        ),
{
}

} // verus!
