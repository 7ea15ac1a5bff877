use vstd::prelude::*;

use crate::coin::{scale_amount, scaled, Coin, Decimal, DECIMAL_FRACTIONAL};
use crate::state::{account_wf, ParentDonation, State};

verus! {

/// Whether a contribution counts: the threshold is zero, or some coin of the
/// contribution is of the threshold's denomination and reaches its amount.
pub open spec fn qualifies(threshold: Coin, funds: Seq<Coin>) -> bool {
    threshold.amount == 0 || exists|i: int|
        0 <= i < funds.len() && (#[trigger] funds[i]).denom@ == threshold.denom@ && funds[i].amount
            >= threshold.amount
}

/// The account after a donation of `funds`: a qualifying donation advances the
/// counter by one and, under a forwarding relationship, the countdown by one,
/// restarting it at the full period where it runs out.
pub open spec fn donated(state: State, parent: Option<ParentDonation>, funds: Seq<Coin>) -> State {
    if !qualifies(state.minimal_donation, funds) {
        state
    } else {
        let countdown = match (state.donating_parent, parent) {
            (Some(c), Some(p)) => if c == 1 {
                Some(p.donating_parent_period)
            } else {
                Some((c - 1) as u64)
            },
            _ => state.donating_parent,
        };
        State { counter: (state.counter + 1) as u64, donating_parent: countdown, ..state }
    }
}

/// Whether a donation of `funds` owes the parent a forward: it qualifies and
/// the countdown runs out with it.
pub open spec fn forward_due(state: State, funds: Seq<Coin>) -> bool {
    qualifies(state.minimal_donation, funds) && state.donating_parent == Some(1u64)
}

/// Decides whether `funds` qualify against `threshold`.
pub fn donation_qualifies(threshold: &Coin, funds: &Vec<Coin>) -> (r: bool)
    ensures
        r == qualifies(*threshold, funds@),
{
    if threshold.amount == 0 {
        return true;
    }
    let mut i: usize = 0;
    while i < funds.len()
        invariant
            0 <= i <= funds.len(),
            forall|j: int|
                0 <= j < i ==> !((#[trigger] funds@[j]).denom@ == threshold.denom@
                    && funds@[j].amount >= threshold.amount),
        decreases funds.len() - i,
    {
        if funds[i].denom == threshold.denom && funds[i].amount >= threshold.amount {
            return true;
        }
        i = i + 1;
    }
    false
}

/// Applies a donation of `funds` to the account: a qualifying one advances the
/// counter by exactly one whatever its excess, and a contribution that does not
/// qualify leaves the account as it was. Returns whether the parent is owed a
/// forward now, which happens when the countdown runs out; the countdown then
/// starts over at the full period.
pub fn donate(state: &mut State, parent: &Option<ParentDonation>, funds: &Vec<Coin>) -> (forward:
    bool)
    requires
        account_wf(*old(state), *parent),
        qualifies(old(state).minimal_donation, funds@) ==> old(state).counter < u64::MAX,
    ensures
        *final(state) == donated(*old(state), *parent, funds@),
        forward == forward_due(*old(state), funds@),
        account_wf(*final(state), *parent),
        !qualifies(old(state).minimal_donation, funds@) ==> *final(state) == *old(state),
        qualifies(old(state).minimal_donation, funds@) ==> final(state).counter == old(
            state,
        ).counter + 1,
{
    if !donation_qualifies(&state.minimal_donation, funds) {
        return false;
    }
    state.counter = state.counter + 1;
    let mut forward = false;
    match (&state.donating_parent, parent) {
        (Some(countdown), Some(p)) => {
            if *countdown == 1 {
                state.donating_parent = Some(p.donating_parent_period);
                forward = true;
            } else {
                state.donating_parent = Some(*countdown - 1);
            }
        },
        _ => {},
    }
    forward
}

/// With a forwarding period of two, of two qualifying donations made from a
/// full countdown the first forwards nothing and the second forwards; the
/// countdown is then full again, so the next two donations repeat the cycle,
/// and the counter has advanced by two.
pub proof fn lemma_forward_every_second_donation(
    state: State,
    parent: ParentDonation,
    first: Seq<Coin>,
    second: Seq<Coin>,
)
    requires
        account_wf(state, Some(parent)),
        parent.donating_parent_period == 2,
        state.donating_parent == Some(2u64),
        qualifies(state.minimal_donation, first),
        qualifies(state.minimal_donation, second),
        state.counter + 2 <= u64::MAX,
    ensures
        !forward_due(state, first),
        forward_due(donated(state, Some(parent), first), second),
        donated(donated(state, Some(parent), first), Some(parent), second) == (State {
            counter: (state.counter + 2) as u64,
            ..state
        }),
{
}

/// The share of each held coin that a forward carries: the same denomination,
/// the amount scaled by `part` and rounded down.
pub open spec fn share_of(balance: Seq<Coin>, part: Decimal) -> Seq<Coin> {
    balance.map_values(|c: Coin| Coin { denom: c.denom, amount: scaled(c.amount, part.atomics) as u128 })
}

/// A donation forwarded to a parent account: the funds it carries, handed to
/// the parent's own donate entry point in a separate call.
#[derive(Clone, Debug, PartialEq, Eq)]
pub struct Forward {
    pub contract: String,
    pub funds: Vec<Coin>,
}

/// The forward owed to `parent` when the account holds `balance`: the share
/// `part` of every held denomination, in the order held.
pub fn parent_forward(parent: &ParentDonation, balance: &Vec<Coin>) -> (r: Forward)
    requires
        parent.wf(),
    ensures
        r.contract == parent.address,
        r.funds@ == share_of(balance@, parent.part),
{
    let mut funds: Vec<Coin> = Vec::new();
    let mut i: usize = 0;
    while i < balance.len()
        invariant
            0 <= i <= balance.len(),
            parent.wf(),
            funds@ == share_of(balance@.take(i as int), parent.part),
        decreases balance.len() - i,
    {
        let c = &balance[i];
        proof {
            let a = c.amount as int;
            let t = parent.part.atomics as int;
            assert(a * t <= a * (DECIMAL_FRACTIONAL as int)) by (nonlinear_arith)
                requires
                    0 <= a,
                    0 <= t <= DECIMAL_FRACTIONAL as int,
            ;
            assert(scaled(c.amount, parent.part.atomics) <= a) by (nonlinear_arith)
                requires
                    a * t <= a * (DECIMAL_FRACTIONAL as int),
                    scaled(c.amount, parent.part.atomics) == (a * t) / (DECIMAL_FRACTIONAL as int),
                    DECIMAL_FRACTIONAL as int > 0,
            ;
        }
        let amount = scale_amount(c.amount, parent.part.atomics);
        funds.push(Coin { denom: c.denom.clone(), amount });
        proof {
            assert(balance@.take(i + 1) =~= balance@.take(i as int).push(balance@[i as int]));
            assert(funds@ =~= share_of(balance@.take(i + 1), parent.part));
        }
        i = i + 1;
    }
    proof {
        assert(balance@.take(balance.len() as int) =~= balance@);
    }
    Forward { contract: parent.address.clone(), funds }
}

} // verus!
