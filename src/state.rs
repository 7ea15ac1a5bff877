use vstd::prelude::*;

use crate::coin::{Coin, Decimal};

verus! {

/// The stored record of an account in the current schema.
#[derive(Clone, Debug, PartialEq, Eq)]
pub struct State {
    /// The number of qualifying donations, or the value of the last reset.
    pub counter: u64,
    /// The donation a contribution must reach to advance the counter.
    pub minimal_donation: Coin,
    /// The identity allowed to reset the counter and withdraw the funds.
    pub owner: String,
    /// Qualifying donations left before the next forward to the parent;
    /// present exactly when a parent relationship exists.
    pub donating_parent: Option<u64>,
}

/// The stored forwarding relationship to a parent account.
#[derive(Clone, Debug, PartialEq, Eq)]
pub struct ParentDonation {
    /// The parent account that receives the forwarded share.
    pub address: String,
    /// Qualifying donations between two forwards.
    pub donating_parent_period: u64,
    /// The share of every held denomination that is forwarded.
    pub part: Decimal,
}

/// A parent relationship as a caller supplies it.
#[derive(Clone, Debug, PartialEq, Eq)]
pub struct Parent {
    pub addr: String,
    pub donating_period: u64,
    pub part: Decimal,
}

impl Parent {
    /// A forwarding period of at least one donation and a share within `[0, 1]`.
    pub open spec fn wf(self) -> bool {
        self.donating_period >= 1 && self.part.is_fraction()
    }
}

impl ParentDonation {
    /// A forwarding period of at least one donation and a share within `[0, 1]`.
    pub open spec fn wf(self) -> bool {
        self.donating_parent_period >= 1 && self.part.is_fraction()
    }
}

/// An optional parent relationship that is well formed where present.
pub open spec fn parent_wf(parent: Option<Parent>) -> bool {
    match parent {
        Some(p) => p.wf(),
        None => true,
    }
}

/// The stored account: a countdown exactly when there is a forwarding
/// relationship, the countdown at least one, and the relationship well formed.
pub open spec fn account_wf(state: State, parent: Option<ParentDonation>) -> bool {
    match (state.donating_parent, parent) {
        (None, None) => true,
        (Some(countdown), Some(p)) => countdown >= 1 && p.wf(),
        _ => false,
    }
}

/// The forwarding relationship that a supplied parent establishes.
pub open spec fn donation_of(parent: Parent) -> ParentDonation {
    ParentDonation {
        address: parent.addr,
        donating_parent_period: parent.donating_period,
        part: parent.part,
    }
}

/// The countdown that a fresh relationship starts from: its full period.
pub open spec fn countdown_of(parent: Option<Parent>) -> Option<u64> {
    match parent {
        Some(p) => Some(p.donating_period),
        None => None,
    }
}

/// The forwarding relationship that an optional parent establishes, if any.
pub open spec fn donation_of_option(parent: Option<Parent>) -> Option<ParentDonation> {
    match parent {
        Some(p) => Some(donation_of(p)),
        None => None,
    }
}

/// The countdown and the stored relationship for an optional parent.
pub fn parent_donation(parent: Option<Parent>) -> (r: (Option<u64>, Option<ParentDonation>))
    ensures
        r.0 == countdown_of(parent),
        r.1 == donation_of_option(parent),
{
    match parent {
        Some(p) => (
            Some(p.donating_period),
            Some(
                ParentDonation {
                    address: p.addr,
                    donating_parent_period: p.donating_period,
                    part: p.part,
                },
            ),
        ),
        None => (None, None),
    }
}

/// The account that instantiation creates.
pub open spec fn instantiated(
    sender: String,
    counter: u64,
    minimal_donation: Coin,
    parent: Option<Parent>,
) -> State {
    State { counter, minimal_donation, owner: sender, donating_parent: countdown_of(parent) }
}

/// Creates an account owned by its creator, with the given counter and
/// threshold, and the forwarding relationship of `parent` where one is given,
/// its countdown at the full period.
pub fn instantiate(
    sender: String,
    counter: u64,
    minimal_donation: Coin,
    parent: Option<Parent>,
) -> (r: (State, Option<ParentDonation>))
    requires
        parent_wf(parent),
    ensures
        r.0 == instantiated(sender, counter, minimal_donation, parent),
        r.1 == donation_of_option(parent),
        account_wf(r.0, r.1),
{
    let (donating_parent, parent_donation) = parent_donation(parent);
    (State { counter, minimal_donation, owner: sender, donating_parent }, parent_donation)
}

} // verus!
