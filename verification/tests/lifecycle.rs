use covered_option::coin::Coin;
use covered_option::contract::{
    execute, execute_option, fund_option, fund_premium, instantiate, query, query_config,
    transfer_option, underwrite_option, withdraw_expired_option, withdraw_unlocked_option,
    OptionContract,
};
use covered_option::error::ContractError;
use covered_option::msg::{
    ExecuteMsg, InstantiateMsg, MessageInfo, QueryMsg, Response, TransferInstruction,
    UnderwriteOptionRequest,
};
use covered_option::state::{OptionStatus, State};

fn coin(amount: u128, denom: &str) -> Coin {
    Coin::new(amount, denom)
}

fn coins(amount: u128, denom: &str) -> Vec<Coin> {
    vec![coin(amount, denom)]
}

fn info(sender: &str, funds: &[Coin]) -> MessageInfo {
    MessageInfo { sender: sender.to_string(), funds: funds.to_vec() }
}

fn terms() -> InstantiateMsg {
    InstantiateMsg {
        asset: coins(10, "uusd"),
        collateral: coins(10, "uluna"),
        premium: coins(1, "uusd"),
        expires: 10000,
    }
}

fn claimed() -> UnderwriteOptionRequest {
    UnderwriteOptionRequest {
        asset: coins(10, "uusd"),
        collateral: coins(10, "uluna"),
        premium: coins(1, "uusd"),
        expires: 10000,
    }
}

fn pay(to: &str, amount: Vec<Coin>) -> TransferInstruction {
    TransferInstruction { to_address: to.to_string(), amount }
}

fn created(collateral_at_instantiate: bool) -> OptionContract {
    let mut c = OptionContract::new(collateral_at_instantiate);
    let funds = if collateral_at_instantiate { coins(10, "uluna") } else { vec![] };
    instantiate(&mut c, info("holder", &funds), terms()).unwrap();
    c
}

fn funded(collateral_at_instantiate: bool) -> OptionContract {
    let mut c = created(collateral_at_instantiate);
    if collateral_at_instantiate {
        fund_premium(&mut c, info("holder", &coins(1, "uusd"))).unwrap();
    } else {
        fund_option(&mut c, info("holder", &[coin(1, "uusd"), coin(10, "uluna")])).unwrap();
    }
    c
}

fn locked(collateral_at_instantiate: bool) -> OptionContract {
    let mut c = funded(collateral_at_instantiate);
    underwrite_option(&mut c, 5000, info("underwriter", &coins(10, "uusd")), claimed()).unwrap();
    c
}

fn record(c: &OptionContract) -> State {
    query_config(c).unwrap().state
}

#[test]
fn new_contract_has_no_record() {
    let c = OptionContract::new(true);
    assert!(c.collateral_at_instantiate);
    assert_eq!(c.state, None);
    assert!(c.is_well_formed());
    assert_eq!(query(&c, QueryMsg::GetOptionContract {}), Err(ContractError::NotFound {}));
    assert_eq!(query_config(&c), Err(ContractError::NotFound {}));
}

#[test]
fn commands_before_instantiation_find_nothing() {
    for mode in [true, false] {
        let mut c = OptionContract::new(mode);
        let nf = Err(ContractError::NotFound {});
        assert_eq!(fund_premium(&mut c, info("holder", &coins(1, "uusd"))), nf);
        assert_eq!(fund_option(&mut c, info("holder", &coins(1, "uusd"))), nf);
        assert_eq!(transfer_option(&mut c, info("holder", &[]), "next".to_string()), nf);
        assert_eq!(underwrite_option(&mut c, 1, info("u", &coins(10, "uusd")), claimed()), nf);
        assert_eq!(execute_option(&mut c, 1, info("holder", &[])), nf);
        assert_eq!(withdraw_expired_option(&mut c, 20000), nf);
        assert_eq!(withdraw_unlocked_option(&mut c, info("holder", &[])), nf);
        assert_eq!(c, OptionContract::new(mode));
    }
}

#[test]
fn instantiate_records_the_terms_verbatim() {
    let mut c = OptionContract::new(true);
    let msg = InstantiateMsg {
        asset: vec![coin(3, "a"), coin(4, "b")],
        collateral: vec![coin(5, "c"), coin(6, "d")],
        premium: vec![],
        expires: 0,
    };
    let res = instantiate(&mut c, info("alice", &[coin(6, "d"), coin(5, "c")]), msg.clone());
    assert_eq!(res, Ok(Response { messages: vec![] }));
    assert_eq!(
        record(&c),
        State {
            option_status: OptionStatus::CREATED,
            creator: "alice".to_string(),
            holder: "alice".to_string(),
            underwriter: None,
            asset: msg.asset,
            collateral: msg.collateral,
            premium: msg.premium,
            expires: 0,
        }
    );
    assert!(c.is_well_formed());
}

#[test]
fn instantiate_with_wrong_collateral_is_a_mismatch() {
    let mut c = OptionContract::new(true);
    let res = instantiate(&mut c, info("alice", &coins(9, "uluna")), terms());
    assert_eq!(
        res,
        Err(ContractError::CollateralPriceMismatch {
            offer: coins(9, "uluna"),
            required: coins(10, "uluna"),
        })
    );
    assert_eq!(c, OptionContract::new(true));
}

#[test]
fn instantiate_without_collateral_mode_ignores_the_deposit() {
    let mut c = OptionContract::new(false);
    assert!(instantiate(&mut c, info("alice", &coins(9, "other")), terms()).is_ok());
    assert_eq!(record(&c).option_status, OptionStatus::CREATED);
}

#[test]
fn instantiate_twice_is_refused() {
    let mut c = locked(true);
    let before = c.clone();
    let res = instantiate(&mut c, info("mallory", &coins(10, "uluna")), terms());
    assert_eq!(res, Err(ContractError::Unauthorized {}));
    assert_eq!(c, before);
}

#[test]
fn fund_premium_with_wrong_deposit_reports_both_bundles() {
    let mut c = created(true);
    let before = c.clone();
    let res = fund_premium(&mut c, info("holder", &coins(10, "token")));
    assert_eq!(
        res,
        Err(ContractError::PremiumPriceMismatch {
            offer: coins(10, "token"),
            required: coins(1, "uusd"),
        })
    );
    assert_eq!(c, before);
    assert_eq!(record(&c).option_status, OptionStatus::CREATED);
}

#[test]
fn fund_option_checks_premium_leg_then_collateral_leg() {
    let mut c = created(false);
    let before = c.clone();
    assert_eq!(
        fund_option(&mut c, info("holder", &[])),
        Err(ContractError::PremiumPriceMismatch { offer: vec![], required: coins(1, "uusd") })
    );
    assert_eq!(
        fund_option(&mut c, info("holder", &[coin(2, "uusd"), coin(10, "uluna")])),
        Err(ContractError::PremiumPriceMismatch {
            offer: vec![coin(2, "uusd"), coin(10, "uluna")],
            required: coins(1, "uusd"),
        })
    );
    assert_eq!(
        fund_option(&mut c, info("holder", &[coin(1, "uusd"), coin(9, "uluna")])),
        Err(ContractError::CollateralPriceMismatch {
            offer: vec![coin(1, "uusd"), coin(9, "uluna")],
            required: coins(10, "uluna"),
        })
    );
    assert_eq!(
        fund_option(&mut c, info("holder", &[coin(1, "uusd")])),
        Err(ContractError::CollateralPriceMismatch {
            offer: vec![coin(1, "uusd")],
            required: coins(10, "uluna"),
        })
    );
    assert_eq!(
        fund_option(&mut c, info("holder", &[coin(1, "uusd"), coin(10, "uluna"), coin(1, "x")])),
        Err(ContractError::CollateralPriceMismatch {
            offer: vec![coin(1, "uusd"), coin(10, "uluna"), coin(1, "x")],
            required: coins(10, "uluna"),
        })
    );
    assert_eq!(c, before);
    assert_eq!(
        fund_option(&mut c, info("holder", &[coin(1, "uusd"), coin(10, "uluna")])),
        Ok(Response { messages: vec![] })
    );
    assert_eq!(record(&c).option_status, OptionStatus::FUNDED);
}

#[test]
fn funding_step_belongs_to_its_mode() {
    let mut c = created(true);
    assert_eq!(
        fund_option(&mut c, info("holder", &[coin(1, "uusd"), coin(10, "uluna")])),
        Err(ContractError::Unauthorized {})
    );
    let mut c = created(false);
    assert_eq!(
        fund_premium(&mut c, info("holder", &coins(1, "uusd"))),
        Err(ContractError::Unauthorized {})
    );
    assert_eq!(record(&c).option_status, OptionStatus::CREATED);
}

#[test]
fn funding_by_a_stranger_is_unauthorized() {
    let mut c = created(true);
    assert_eq!(
        fund_premium(&mut c, info("stranger", &coins(1, "uusd"))),
        Err(ContractError::Unauthorized {})
    );
    assert_eq!(record(&c).option_status, OptionStatus::CREATED);
}

#[test]
fn funding_twice_is_unauthorized() {
    for mode in [true, false] {
        let mut c = funded(mode);
        let before = c.clone();
        assert_eq!(record(&c).option_status, OptionStatus::FUNDED);
        assert_eq!(
            fund_premium(&mut c, info("holder", &coins(1, "uusd"))),
            Err(ContractError::Unauthorized {})
        );
        assert_eq!(
            fund_option(&mut c, info("holder", &[coin(1, "uusd"), coin(10, "uluna")])),
            Err(ContractError::Unauthorized {})
        );
        assert_eq!(c, before);
    }
}

#[test]
fn underwrite_needs_a_funded_option() {
    let mut c = created(true);
    assert_eq!(
        underwrite_option(&mut c, 1, info("underwriter", &coins(10, "uusd")), claimed()),
        Err(ContractError::Unauthorized {})
    );
    let mut c = locked(true);
    assert_eq!(
        underwrite_option(&mut c, 1, info("second", &coins(10, "uusd")), claimed()),
        Err(ContractError::Unauthorized {})
    );
    assert_eq!(record(&c).underwriter, Some("underwriter".to_string()));
}

#[test]
fn underwrite_at_or_after_the_deadline_is_expired() {
    let mut c = funded(true);
    let before = c.clone();
    assert_eq!(
        underwrite_option(&mut c, 10000, info("underwriter", &coins(10, "uusd")), claimed()),
        Err(ContractError::OptionExpired { expired: 10000 })
    );
    assert_eq!(
        underwrite_option(&mut c, 12345, info("underwriter", &coins(10, "uusd")), claimed()),
        Err(ContractError::OptionExpired { expired: 10000 })
    );
    assert_eq!(c, before);
    assert!(underwrite_option(&mut c, 9999, info("underwriter", &coins(10, "uusd")), claimed())
        .is_ok());
}

#[test]
fn underwrite_with_any_differing_term_is_an_agreement_mismatch() {
    let mut c = funded(true);
    let before = c.clone();
    let mut wrong = Vec::new();
    let mut t = claimed();
    t.asset = coins(11, "uusd");
    wrong.push(t);
    let mut t = claimed();
    t.collateral = coins(10, "uusd");
    wrong.push(t);
    let mut t = claimed();
    t.premium = vec![];
    wrong.push(t);
    let mut t = claimed();
    t.expires = 10001;
    wrong.push(t);
    for t in wrong {
        assert_eq!(
            underwrite_option(&mut c, 1, info("underwriter", &coins(10, "uusd")), t),
            Err(ContractError::AgreementMismatch {})
        );
        assert_eq!(c, before);
        assert_eq!(record(&c).underwriter, None);
    }
}

#[test]
fn underwrite_with_wrong_deposit_is_an_asset_mismatch() {
    let mut c = funded(true);
    let before = c.clone();
    assert_eq!(
        underwrite_option(&mut c, 1, info("underwriter", &coins(9, "uusd")), claimed()),
        Err(ContractError::AssetPriceMismatch {
            offer: coins(9, "uusd"),
            required: coins(10, "uusd"),
        })
    );
    assert_eq!(c, before);
}

#[test]
fn underwrite_pays_the_asset_on_only_without_collateral_at_instantiation() {
    let mut c = funded(true);
    assert_eq!(
        underwrite_option(&mut c, 1, info("underwriter", &coins(10, "uusd")), claimed()),
        Ok(Response { messages: vec![] })
    );
    let mut c = funded(false);
    assert_eq!(
        underwrite_option(&mut c, 1, info("underwriter", &coins(10, "uusd")), claimed()),
        Ok(Response { messages: vec![pay("holder", coins(10, "uusd"))] })
    );
    assert_eq!(record(&c).option_status, OptionStatus::LOCKED);
    assert_eq!(record(&c).underwriter, Some("underwriter".to_string()));
    assert!(c.is_well_formed());
}

#[test]
fn execute_option_pays_and_ends_the_option() {
    let mut c = locked(true);
    assert_eq!(
        execute_option(&mut c, 9999, info("holder", &[])),
        Ok(Response {
            messages: vec![pay("holder", coins(10, "uusd")), pay("underwriter", coins(10, "uluna"))],
        })
    );
    assert_eq!(record(&c).option_status, OptionStatus::EXECUTED);
    let before = c.clone();
    assert_eq!(
        execute_option(&mut c, 9999, info("holder", &[])),
        Err(ContractError::Unauthorized {})
    );
    assert_eq!(c, before);

    let mut c = locked(false);
    assert_eq!(
        execute_option(&mut c, 0, info("holder", &[])),
        Ok(Response { messages: vec![pay("underwriter", coins(10, "uluna"))] })
    );
    assert_eq!(record(&c).option_status, OptionStatus::EXECUTED);
}

#[test]
fn execute_option_guards() {
    let mut c = locked(true);
    let before = c.clone();
    assert_eq!(
        execute_option(&mut c, 1, info("underwriter", &[])),
        Err(ContractError::Unauthorized {})
    );
    assert_eq!(
        execute_option(&mut c, 10000, info("holder", &[])),
        Err(ContractError::OptionExpired { expired: 10000 })
    );
    assert_eq!(
        execute_option(&mut c, 10001, info("holder", &[])),
        Err(ContractError::OptionExpired { expired: 10000 })
    );
    assert_eq!(c, before);
    let mut c = funded(true);
    assert_eq!(
        execute_option(&mut c, 1, info("holder", &[])),
        Err(ContractError::Unauthorized {})
    );
}

#[test]
fn happy_path_without_collateral_at_instantiation() {
    let mut c = OptionContract::new(false);
    instantiate(&mut c, info("holder", &[]), terms()).unwrap();
    execute(&mut c, 1, info("holder", &[coin(1, "uusd"), coin(10, "uluna")]), ExecuteMsg::FundOption {})
        .unwrap();
    let locked = execute(
        &mut c,
        2,
        info("underwriter", &coins(10, "uusd")),
        ExecuteMsg::UnderwriteOption { underwrite_option_req: claimed() },
    )
    .unwrap();
    assert_eq!(locked.messages, vec![pay("holder", coins(10, "uusd"))]);
    let done = execute(&mut c, 3, info("holder", &[]), ExecuteMsg::ExecuteOption {}).unwrap();
    assert_eq!(done.messages, vec![pay("underwriter", coins(10, "uluna"))]);
    assert_eq!(record(&c).option_status, OptionStatus::EXECUTED);
    assert_eq!(record(&c).holder, "holder");
    assert_eq!(record(&c).underwriter, Some("underwriter".to_string()));
}

#[test]
fn withdraw_expired_before_the_deadline_fails() {
    for mode in [true, false] {
        let mut c = locked(mode);
        let before = c.clone();
        assert_eq!(
            withdraw_expired_option(&mut c, 9999),
            Err(ContractError::OptionExpired { expired: 10000 })
        );
        assert_eq!(c, before);
    }
}

#[test]
fn withdraw_expired_settles_once() {
    let mut c = locked(true);
    assert_eq!(
        withdraw_expired_option(&mut c, 10000),
        Ok(Response {
            messages: vec![pay("holder", coins(10, "uluna")), pay("underwriter", coins(10, "uusd"))],
        })
    );
    assert_eq!(record(&c).option_status, OptionStatus::EXPIRED);
    assert_eq!(record(&c).underwriter, Some("underwriter".to_string()));
    assert!(c.is_well_formed());
    let before = c.clone();
    assert_eq!(withdraw_expired_option(&mut c, 10001), Err(ContractError::Unauthorized {}));
    assert_eq!(withdraw_expired_option(&mut c, 1), Err(ContractError::Unauthorized {}));
    assert_eq!(c, before);

    let mut c = locked(false);
    assert_eq!(
        withdraw_expired_option(&mut c, 20000),
        Ok(Response { messages: vec![pay("holder", coins(10, "uluna"))] })
    );
    assert_eq!(record(&c).option_status, OptionStatus::EXPIRED);
    assert_eq!(withdraw_expired_option(&mut c, 20000), Err(ContractError::Unauthorized {}));
}

#[test]
fn withdraw_expired_needs_a_locked_option() {
    let mut c = funded(true);
    assert_eq!(withdraw_expired_option(&mut c, 20000), Err(ContractError::Unauthorized {}));
    let mut c = created(true);
    assert_eq!(withdraw_expired_option(&mut c, 20000), Err(ContractError::Unauthorized {}));
}

#[test]
fn withdraw_unlocked_cancels_a_created_option() {
    let mut c = created(true);
    assert_eq!(
        withdraw_unlocked_option(&mut c, info("stranger", &[])),
        Err(ContractError::Unauthorized {})
    );
    assert_eq!(
        withdraw_unlocked_option(&mut c, info("holder", &[])),
        Ok(Response { messages: vec![pay("holder", coins(10, "uluna"))] })
    );
    assert_eq!(record(&c).option_status, OptionStatus::CANCELLED);
    assert_eq!(record(&c).underwriter, None);
    assert!(c.is_well_formed());
    assert_eq!(
        withdraw_unlocked_option(&mut c, info("holder", &[])),
        Err(ContractError::Unauthorized {})
    );
    assert_eq!(
        fund_premium(&mut c, info("holder", &coins(1, "uusd"))),
        Err(ContractError::Unauthorized {})
    );

    let mut c = created(false);
    assert_eq!(
        withdraw_unlocked_option(&mut c, info("holder", &[])),
        Ok(Response { messages: vec![] })
    );
    assert_eq!(record(&c).option_status, OptionStatus::CANCELLED);

    let mut c = funded(true);
    assert_eq!(
        withdraw_unlocked_option(&mut c, info("holder", &[])),
        Err(ContractError::Unauthorized {})
    );
}

#[test]
fn transfer_changes_only_the_holder() {
    for mode in [true, false] {
        let mut c = locked(mode);
        let before = record(&c);
        assert_eq!(
            transfer_option(&mut c, info("holder", &[]), "heir".to_string()),
            Ok(Response { messages: vec![] })
        );
        let after = record(&c);
        assert_eq!(after, State { holder: "heir".to_string(), ..before });
        assert_eq!(
            execute_option(&mut c, 1, info("holder", &[])),
            Err(ContractError::Unauthorized {})
        );
        assert!(execute_option(&mut c, 1, info("heir", &[])).is_ok());
    }
}

#[test]
fn transfer_then_old_holder_cannot_fund() {
    let mut c = created(true);
    transfer_option(&mut c, info("holder", &[]), "heir".to_string()).unwrap();
    assert_eq!(record(&c).creator, "holder");
    assert_eq!(record(&c).holder, "heir");
    assert_eq!(
        fund_premium(&mut c, info("holder", &coins(1, "uusd"))),
        Err(ContractError::Unauthorized {})
    );
    assert_eq!(record(&c).option_status, OptionStatus::CREATED);
    assert!(fund_premium(&mut c, info("heir", &coins(1, "uusd"))).is_ok());
}

#[test]
fn transfer_by_a_stranger_is_unauthorized() {
    let mut c = created(true);
    let before = c.clone();
    assert_eq!(
        transfer_option(&mut c, info("stranger", &[]), "stranger".to_string()),
        Err(ContractError::Unauthorized {})
    );
    assert_eq!(c, before);
}

#[test]
fn transfer_is_open_in_a_terminal_phase() {
    let mut c = locked(true);
    execute_option(&mut c, 1, info("holder", &[])).unwrap();
    assert!(transfer_option(&mut c, info("holder", &[]), "heir".to_string()).is_ok());
    assert_eq!(record(&c).option_status, OptionStatus::EXECUTED);
    assert_eq!(record(&c).holder, "heir");
}

#[test]
fn execute_dispatches_every_command() {
    let mut c = created(true);
    assert_eq!(
        execute(&mut c, 1, info("holder", &[]), ExecuteMsg::TransferOption { recipient: "heir".to_string() }),
        Ok(Response { messages: vec![] })
    );
    assert_eq!(record(&c).holder, "heir");
    assert_eq!(
        execute(&mut c, 1, info("heir", &coins(1, "uusd")), ExecuteMsg::FundOption {}),
        Err(ContractError::Unauthorized {})
    );
    assert!(execute(&mut c, 1, info("heir", &coins(1, "uusd")), ExecuteMsg::FundPremium {}).is_ok());
    assert!(execute(
        &mut c,
        1,
        info("underwriter", &coins(10, "uusd")),
        ExecuteMsg::UnderwriteOption { underwrite_option_req: claimed() }
    )
    .is_ok());
    assert_eq!(
        execute(&mut c, 1, info("heir", &[]), ExecuteMsg::WithdrawUnlockedOption {}),
        Err(ContractError::Unauthorized {})
    );
    assert_eq!(
        execute(&mut c, 1, info("anyone", &[]), ExecuteMsg::WithdrawExpiredOption {}),
        Err(ContractError::OptionExpired { expired: 10000 })
    );
    assert_eq!(
        execute(&mut c, 10000, info("anyone", &[]), ExecuteMsg::WithdrawExpiredOption {}),
        Ok(Response {
            messages: vec![pay("heir", coins(10, "uluna")), pay("underwriter", coins(10, "uusd"))],
        })
    );
    assert_eq!(
        execute(&mut c, 1, info("heir", &[]), ExecuteMsg::ExecuteOption {}),
        Err(ContractError::Unauthorized {})
    );
}

#[test]
fn bundles_in_terms_and_deposits_match_in_any_order() {
    let mut c = OptionContract::new(true);
    let msg = InstantiateMsg {
        asset: vec![coin(1, "a"), coin(2, "b")],
        collateral: vec![coin(3, "c"), coin(4, "d")],
        premium: vec![coin(5, "e"), coin(6, "f")],
        expires: 10,
    };
    instantiate(&mut c, info("holder", &[coin(4, "d"), coin(3, "c")]), msg).unwrap();
    fund_premium(&mut c, info("holder", &[coin(6, "f"), coin(5, "e")])).unwrap();
    let req = UnderwriteOptionRequest {
        asset: vec![coin(2, "b"), coin(1, "a")],
        collateral: vec![coin(4, "d"), coin(3, "c")],
        premium: vec![coin(6, "f"), coin(5, "e")],
        expires: 10,
    };
    underwrite_option(&mut c, 9, info("underwriter", &[coin(2, "b"), coin(1, "a")]), req).unwrap();
    assert_eq!(record(&c).option_status, OptionStatus::LOCKED);
}

#[test]
fn well_formedness_is_told_from_the_record() {
    let mut c = locked(true);
    assert!(c.is_well_formed());
    let mut s = record(&c);
    assert!(s.is_well_formed());
    s.underwriter = None;
    assert!(!s.is_well_formed());
    c.state = Some(s);
    assert!(!c.is_well_formed());
    let mut s = record(&created(true));
    s.underwriter = Some("early".to_string());
    assert!(!s.is_well_formed());
    assert_eq!(record(&created(true)).duplicate(), record(&created(true)));
}
