use vstd::prelude::*;

use crate::coin::Coin;
use crate::error::ContractError;
use crate::state::State;

verus! {

/// A transfer of funds out of the account.
#[derive(Clone, Debug, PartialEq, Eq)]
pub struct Transfer {
    pub to_address: String,
    pub amount: Vec<Coin>,
}

/// What an owner-gated operation returns to a caller other than the owner.
pub open spec fn unauthorized<T>(state: State) -> Result<T, ContractError> {
    Err(ContractError::Unauthorized { owner: state.owner })
}

/// Admits the owner of the account and refuses everyone else.
pub fn authorize(state: &State, sender: &String) -> (r: Result<(), ContractError>)
    ensures
        sender@ == state.owner@ ==> r == Ok::<(), ContractError>(()),
        sender@ != state.owner@ ==> r == unauthorized::<()>(*state),
{
    if *sender == state.owner {
        Ok(())
    } else {
        Err(ContractError::Unauthorized { owner: state.owner.clone() })
    }
}

/// Sets the counter to `new_value` at the owner's request. Nothing else of the
/// account changes, and a caller other than the owner changes nothing at all.
pub fn reset(state: &mut State, sender: &String, new_value: u64) -> (r: Result<(), ContractError>)
    ensures
        sender@ == old(state).owner@ ==> r is Ok && *final(state) == (State {
            counter: new_value,
            ..*old(state)
        }),
        sender@ != old(state).owner@ ==> r == unauthorized::<()>(*old(state)) && *final(state)
            == *old(state),
{
    authorize(state, sender)?;
    state.counter = new_value;
    Ok(())
}

/// Moves the whole `balance` of the account to its owner, at the owner's
/// request only.
pub fn withdraw(state: &State, sender: &String, balance: Vec<Coin>) -> (r: Result<
    Transfer,
    ContractError,
>)
    ensures
        sender@ == state.owner@ ==> r == Ok::<Transfer, ContractError>(
            Transfer { to_address: *sender, amount: balance },
        ),
        sender@ != state.owner@ ==> r == unauthorized::<Transfer>(*state),
{
    authorize(state, sender)?;
    Ok(Transfer { to_address: sender.clone(), amount: balance })
}

/// The cap that `caps` sets on `denom`: the amount of its first coin of that
/// denomination, and zero where it has none.
pub open spec fn cap_of(caps: Seq<Coin>, denom: Seq<char>) -> u128
    decreases caps.len(),
{
    if caps.len() == 0 {
        0
    } else if caps[0].denom@ == denom {
        caps[0].amount
    } else {
        cap_of(caps.drop_first(), denom)
    }
}

/// What a withdrawal to a recipient moves of one held coin: all of it where no
/// caps are given, else no more than the cap on its denomination.
pub open spec fn capped(held: Coin, caps: Seq<Coin>) -> Coin {
    if caps.len() == 0 {
        held
    } else {
        let cap = cap_of(caps, held.denom@);
        Coin { denom: held.denom, amount: if held.amount <= cap { held.amount } else { cap } }
    }
}

/// What a withdrawal to a recipient moves of each held coin, in the order held.
pub open spec fn capped_all(balance: Seq<Coin>, caps: Seq<Coin>) -> Seq<Coin> {
    balance.map_values(|c: Coin| capped(c, caps))
}

/// Looks up the cap that `caps` sets on `denom`.
pub fn find_cap(caps: &Vec<Coin>, denom: &String) -> (r: u128)
    ensures
        r == cap_of(caps@, denom@),
{
    let mut i: usize = 0;
    proof {
        assert(caps@.subrange(0, caps@.len() as int) =~= caps@);
    }
    while i < caps.len()
        invariant
            0 <= i <= caps.len(),
            cap_of(caps@, denom@) == cap_of(caps@.subrange(i as int, caps@.len() as int), denom@),
        decreases caps.len() - i,
    {
        let rest = Ghost(caps@.subrange(i as int, caps@.len() as int));
        if caps[i].denom == *denom {
            return caps[i].amount;
        }
        proof {
            assert(rest@.drop_first() =~= caps@.subrange(i + 1, caps@.len() as int));
        }
        i = i + 1;
    }
    0
}

/// Moves funds of the account to `recipient`, at the owner's request only.
/// With no caps the whole balance moves; with caps, each held denomination
/// moves up to its cap, and a denomination without a cap does not move.
pub fn withdraw_to(
    state: &State,
    sender: &String,
    recipient: String,
    funds: &Vec<Coin>,
    balance: Vec<Coin>,
) -> (r: Result<Transfer, ContractError>)
    ensures
        sender@ == state.owner@ ==> r is Ok && r->Ok_0.to_address == recipient
            && r->Ok_0.amount@ == capped_all(balance@, funds@),
        sender@ != state.owner@ ==> r == unauthorized::<Transfer>(*state),
{
    authorize(state, sender)?;
    let mut amount: Vec<Coin> = Vec::new();
    let mut i: usize = 0;
    while i < balance.len()
        invariant
            0 <= i <= balance.len(),
            amount@ == capped_all(balance@.take(i as int), funds@),
        decreases balance.len() - i,
    {
        let held = &balance[i];
        let moved = if funds.len() == 0 {
            held.duplicate()
        } else {
            let cap = find_cap(funds, &held.denom);
            Coin {
                denom: held.denom.clone(),
                amount: if held.amount <= cap {
                    held.amount
                } else {
                    cap
                },
            }
        };
        amount.push(moved);
        proof {
            assert(balance@.take(i + 1) =~= balance@.take(i as int).push(balance@[i as int]));
            assert(amount@ =~= capped_all(balance@.take(i + 1), funds@));
        }
        i = i + 1;
    }
    proof {
        assert(balance@.take(balance.len() as int) =~= balance@);
    }
    Ok(Transfer { to_address: recipient, amount })
}

} // verus!
