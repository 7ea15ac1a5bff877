use vstd::prelude::*;

use crate::coin::Coin;
use crate::state::Parent;

verus! {

/// The parameters of a new account.
#[derive(Clone, Debug, PartialEq, Eq)]
pub struct InstantiateMsg {
    pub counter: u64,
    pub minimal_donation: Coin,
    pub parent: Option<Parent>,
}

/// The questions an account answers.
#[derive(Clone, Debug, PartialEq, Eq)]
pub enum QueryMsg {
    /// The counter.
    Value {},
    /// The successor of `value`, without reading the account.
    Incremented { value: u64 },
}

/// The operations an account performs.
#[derive(Clone, Debug, PartialEq, Eq)]
pub enum ExecMsg {
    Donate {},
    Reset { new_value: u64 },
    Withdraw {},
    /// Funds to `recipient`, each denomination up to its cap in `funds` where
    /// any caps are given.
    WithdrawTo { recipient: String, funds: Vec<Coin> },
}

/// The answer to either query.
#[derive(Clone, Copy, Debug, PartialEq, Eq, Structural)]
pub struct ValueResp {
    pub value: u64,
}

/// The parameters of a migration: the parent relationship to establish, if any.
#[derive(Clone, Debug, PartialEq, Eq)]
pub struct MigrationMsg {
    pub parent: Option<Parent>,
}

} // verus!
