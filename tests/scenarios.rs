use counting_contract as cc;
use counting_contract::{
    check_version, incremented, instantiate, migrate, parent_forward, value, Coin,
    ContractError, Decimal, MigrateOutcome, OwnedState, Parent, ParentDonation, SchemaVersion,
    State, StoredState, ValueResp,
};

const ATOM: &str = "atom";

fn coin(amount: u128, denom: &str) -> Coin {
    Coin::new(amount, denom)
}

fn coins(amount: u128, denom: &str) -> Vec<Coin> {
    vec![coin(amount, denom)]
}

/// A bank of plain balances, enough to follow where the funds go.
struct Bank(Vec<(String, Vec<Coin>)>);

impl Bank {
    fn new(holder: &str, amount: Vec<Coin>) -> Bank {
        Bank(vec![(holder.to_string(), amount)])
    }

    fn balance(&self, holder: &str) -> Vec<Coin> {
        self.0
            .iter()
            .find(|(h, _)| h == holder)
            .map(|(_, c)| c.clone())
            .unwrap_or_default()
    }

    fn send(&mut self, from: &str, to: &str, amount: &[Coin]) {
        for c in amount {
            self.adjust(from, &c.denom, c.amount, false);
            self.adjust(to, &c.denom, c.amount, true);
        }
    }

    fn adjust(&mut self, holder: &str, denom: &str, amount: u128, add: bool) {
        if !self.0.iter().any(|(h, _)| h == holder) {
            self.0.push((holder.to_string(), vec![]));
        }
        let entry = self.0.iter_mut().find(|(h, _)| h == holder).unwrap();
        if !entry.1.iter().any(|c| c.denom == denom) {
            entry.1.push(coin(0, denom));
        }
        let c = entry.1.iter_mut().find(|c| c.denom == denom).unwrap();
        c.amount = if add { c.amount + amount } else { c.amount - amount };
        entry.1.retain(|c| c.amount > 0);
    }
}

/// A donation as the host runs it: the funds move to the account first, then
/// the account applies the donation and may forward a share to its parent.
fn donate_from(
    bank: &mut Bank,
    account: &str,
    state: &mut State,
    parent: &Option<ParentDonation>,
    sender: &str,
    funds: &[Coin],
) -> Option<(String, Vec<Coin>)> {
    bank.send(sender, account, funds);
    let forward = cc::donate(state, parent, &funds.to_vec());
    if forward {
        let p = parent.as_ref().unwrap();
        let f = parent_forward(p, &bank.balance(account));
        bank.send(account, &f.contract, &f.funds);
        Some((f.contract, f.funds))
    } else {
        None
    }
}

fn new_account(owner: &str, minimal_donation: Coin) -> State {
    instantiate(owner.to_string(), 0, minimal_donation, None).0
}

#[test]
fn query_value() {
    let state = new_account("owner", coin(10, ATOM));
    assert_eq!(value(&state), ValueResp { value: 0 });
}

#[test]
fn query_incremented() {
    let _state = new_account("owner", coin(10, ATOM));
    assert_eq!(incremented(1), ValueResp { value: 2 });
}

#[test]
fn donate() {
    let mut state = new_account("owner", coin(10, ATOM));
    let forward = cc::donate(&mut state, &None, &vec![]);
    assert!(!forward);
    assert_eq!(value(&state), ValueResp { value: 0 });
}

#[test]
fn donate_with_funds() {
    let mut bank = Bank::new("sender", coins(10, ATOM));
    let mut state = new_account("owner", coin(10, ATOM));
    donate_from(&mut bank, "contract", &mut state, &None, "sender", &coins(10, ATOM));
    assert_eq!(value(&state), ValueResp { value: 1 });
}

#[test]
fn reset() {
    let mut state = new_account("owner", coin(10, ATOM));
    cc::reset(&mut state, &"owner".to_string(), 10).unwrap();
    assert_eq!(value(&state), ValueResp { value: 10 });
}

#[test]
fn withdraw() {
    let mut bank = Bank::new("sender", coins(10, ATOM));
    let mut state = new_account("owner", coin(10, ATOM));
    donate_from(&mut bank, "contract", &mut state, &None, "sender", &coins(10, ATOM));

    let t = cc::withdraw(&state, &"owner".to_string(), bank.balance("contract")).unwrap();
    bank.send("contract", &t.to_address, &t.amount);

    assert_eq!(bank.balance("owner"), coins(10, ATOM));
    assert_eq!(bank.balance("sender"), vec![]);
    assert_eq!(bank.balance("contract"), vec![]);
}

#[test]
fn unauthorized_withdraw() {
    let mut bank = Bank::new("sender", coins(10, ATOM));
    let mut state = new_account("owner", coin(10, ATOM));
    donate_from(&mut bank, "contract", &mut state, &None, "sender", &coins(10, ATOM));

    let err = cc::withdraw(&state, &"sender".to_string(), bank.balance("contract")).unwrap_err();
    assert_eq!(ContractError::Unauthorized { owner: "owner".to_string() }, err);
    assert_eq!(bank.balance("contract"), coins(10, ATOM));
}

#[test]
fn withdraw_to() {
    let mut bank = Bank::new("sender", coins(10, ATOM));
    let mut state = new_account("owner", coin(10, ATOM));
    donate_from(&mut bank, "contract", &mut state, &None, "sender", &coins(10, ATOM));

    let t = cc::withdraw_to(
        &state,
        &"owner".to_string(),
        "recipient".to_string(),
        &coins(5, ATOM),
        bank.balance("contract"),
    )
    .unwrap();
    bank.send("contract", &t.to_address, &t.amount);

    assert_eq!(bank.balance("recipient"), coins(5, ATOM));
    assert_eq!(bank.balance("owner"), vec![]);
    assert_eq!(bank.balance("sender"), vec![]);
    assert_eq!(bank.balance("contract"), coins(5, ATOM));
}

#[test]
fn unauthorized_withdraw_to() {
    let mut bank = Bank::new("sender", coins(10, ATOM));
    let mut state = new_account("owner", coin(10, ATOM));
    donate_from(&mut bank, "contract", &mut state, &None, "sender", &coins(10, ATOM));

    let err = cc::withdraw_to(
        &state,
        &"sender".to_string(),
        "owner".to_string(),
        &coins(5, ATOM),
        bank.balance("contract"),
    )
    .unwrap_err();
    assert_eq!(ContractError::Unauthorized { owner: "owner".to_string() }, err);
}

/// An account of the previous layout, after one qualifying donation.
fn donated_0_3_0_account() -> OwnedState {
    OwnedState { counter: 1, minimal_donation: coin(10, ATOM), owner: "owner".to_string() }
}

#[test]
fn migration() {
    let version = check_version("counting-contract".to_string(), "0.3.0".to_string()).unwrap();
    assert_eq!(version, SchemaVersion::V030);
    let outcome = migrate(StoredState::V030(donated_0_3_0_account()), None);
    let MigrateOutcome::Migrated { state, parent_donation } = outcome else {
        panic!("expected a migrated account");
    };
    assert_eq!(value(&state), ValueResp { value: 1 });
    assert_eq!(
        state,
        State {
            counter: 1,
            minimal_donation: coin(10, ATOM),
            owner: "owner".to_string(),
            donating_parent: None,
        }
    );
    assert_eq!(parent_donation, None);
}

#[test]
fn migration_same_version() {
    let mut bank = Bank::new("sender", coins(10, ATOM));
    let mut state = new_account("owner", coin(10, ATOM));
    donate_from(&mut bank, "contract", &mut state, &None, "sender", &coins(10, ATOM));

    let version =
        check_version("counting-contract".to_string(), "0.4.0".to_string()).unwrap();
    assert_eq!(version, SchemaVersion::Current);
    assert_eq!(migrate(StoredState::Current, None), MigrateOutcome::Unchanged);

    assert_eq!(value(&state), ValueResp { value: 1 });
    assert_eq!(
        state,
        State {
            counter: 1,
            minimal_donation: coin(10, ATOM),
            owner: "owner".to_string(),
            donating_parent: None,
        }
    );
}

#[test]
fn donating_parent() {
    let mut bank = Bank::new("sender", coins(20, ATOM));
    let mut parent_state = new_account("owner", coin(0, ATOM));
    let (mut state, parent) = instantiate(
        "owner".to_string(),
        0,
        coin(10, ATOM),
        Some(Parent {
            addr: "parent".to_string(),
            donating_period: 2,
            part: Decimal::percent(10),
        }),
    );

    for _ in 0..2 {
        let forwarded =
            donate_from(&mut bank, "contract", &mut state, &parent, "sender", &coins(10, ATOM));
        if let Some((to, funds)) = forwarded {
            assert_eq!(to, "parent");
            // the forward reaches the parent's own donate entry point
            assert!(!cc::donate(&mut parent_state, &None, &funds));
        }
    }

    assert_eq!(value(&parent_state), ValueResp { value: 1 });
    assert_eq!(value(&state), ValueResp { value: 2 });
    assert_eq!(bank.balance("owner"), vec![]);
    assert_eq!(bank.balance("sender"), vec![]);
    assert_eq!(bank.balance("contract"), coins(18, ATOM));
    assert_eq!(bank.balance("parent"), coins(2, ATOM));
}

#[test]
fn migration_with_parent() {
    let parent = Parent {
        addr: "parent".to_string(),
        donating_period: 2,
        part: Decimal::percent(10),
    };
    let outcome = migrate(StoredState::V030(donated_0_3_0_account()), Some(parent));
    let MigrateOutcome::Migrated { state, parent_donation } = outcome else {
        panic!("expected a migrated account");
    };
    assert_eq!(value(&state), ValueResp { value: 1 });
    assert_eq!(
        state,
        State {
            counter: 1,
            minimal_donation: coin(10, ATOM),
            owner: "owner".to_string(),
            donating_parent: Some(2),
        }
    );
    assert_eq!(
        parent_donation,
        Some(ParentDonation {
            address: "parent".to_string(),
            donating_parent_period: 2,
            part: Decimal::percent(10),
        })
    );
}
