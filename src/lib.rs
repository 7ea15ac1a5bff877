//! A counting account: a counter that qualifying donations advance, an owner
//! who may reset it and withdraw the funds, an optional parent account that
//! receives a share of the funds every few donations, and the migration of the
//! stored state from every earlier schema version to the current one.
//!
//! Every function here is pure: it takes the loaded state and the facts of the
//! call as plain values, and hands back the new state and the instructions to
//! perform. Loading, saving and sending are left to the host around it.

pub mod coin;
pub mod donate;
pub mod error;
pub mod exec;
pub mod migration;
pub mod msg;
pub mod query;
pub mod state;

pub use coin::{Coin, Decimal};
pub use donate::{donate, donation_qualifies, parent_forward, Forward};
pub use error::ContractError;
pub use exec::{authorize, reset, withdraw, withdraw_to, Transfer};
pub use migration::{
    check_version, migrate, migrate_0_1_0, migrate_0_2_0, migrate_0_3_0, LegacyState,
    MigrateOutcome, OwnedState, SchemaVersion, StoredState, CONTRACT_NAME, CONTRACT_VERSION,
};
pub use msg::{ExecMsg, InstantiateMsg, MigrationMsg, QueryMsg, ValueResp};
pub use query::{incremented, value};
pub use state::{instantiate, Parent, ParentDonation, State};
