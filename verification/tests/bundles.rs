use covered_option::coin::{bundles_match, copy_bundle, copy_range, occurrences, Coin};
use covered_option::error::ContractError;

fn coin(amount: u128, denom: &str) -> Coin {
    Coin::new(amount, denom)
}

#[test]
fn coin_new_keeps_amount_and_denomination() {
    let c = coin(7, "uusd");
    assert_eq!(c.amount, 7);
    assert_eq!(c.denom, "uusd");
    assert_eq!(c, Coin { denom: "uusd".to_string(), amount: 7 });
}

#[test]
fn same_as_compares_both_fields() {
    assert!(coin(1, "uusd").same_as(&coin(1, "uusd")));
    assert!(!coin(1, "uusd").same_as(&coin(2, "uusd")));
    assert!(!coin(1, "uusd").same_as(&coin(1, "uluna")));
    assert!(coin(u128::MAX, "").same_as(&coin(u128::MAX, "")));
}

#[test]
fn duplicate_is_equal_coin() {
    let c = coin(42, "uatom");
    assert_eq!(c.duplicate(), c);
}

#[test]
fn occurrences_counts_exact_coins() {
    let bundle = vec![coin(1, "uusd"), coin(2, "uusd"), coin(1, "uusd"), coin(1, "uluna")];
    assert_eq!(occurrences(&bundle, &coin(1, "uusd")), 2);
    assert_eq!(occurrences(&bundle, &coin(2, "uusd")), 1);
    assert_eq!(occurrences(&bundle, &coin(1, "uluna")), 1);
    assert_eq!(occurrences(&bundle, &coin(3, "uusd")), 0);
    assert_eq!(occurrences(&Vec::new(), &coin(1, "uusd")), 0);
}

#[test]
fn bundles_match_ignores_order() {
    let a = vec![coin(1, "uusd"), coin(10, "uluna"), coin(5, "uatom")];
    let b = vec![coin(5, "uatom"), coin(1, "uusd"), coin(10, "uluna")];
    assert!(bundles_match(&a, &b));
    assert!(bundles_match(&b, &a));
    assert!(bundles_match(&a, &a));
}

#[test]
fn bundles_match_empty_bundles() {
    let empty: Vec<Coin> = Vec::new();
    assert!(bundles_match(&empty, &empty));
    assert!(!bundles_match(&empty, &vec![coin(1, "uusd")]));
    assert!(!bundles_match(&vec![coin(1, "uusd")], &empty));
}

#[test]
fn bundles_match_tells_amounts_and_denominations_apart() {
    assert!(!bundles_match(&vec![coin(1, "uusd")], &vec![coin(2, "uusd")]));
    assert!(!bundles_match(&vec![coin(1, "uusd")], &vec![coin(1, "uluna")]));
    assert!(!bundles_match(&vec![coin(10, "token")], &vec![coin(1, "uusd")]));
}

#[test]
fn bundles_match_counts_repeated_coins() {
    let once = vec![coin(1, "uusd")];
    let twice = vec![coin(1, "uusd"), coin(1, "uusd")];
    assert!(!bundles_match(&once, &twice));
    assert!(!bundles_match(&twice, &once));
    assert!(bundles_match(&twice, &twice));
    let mixed = vec![coin(1, "uusd"), coin(2, "uusd")];
    assert!(!bundles_match(&twice, &mixed));
}

#[test]
fn bundles_match_needs_every_coin() {
    let a = vec![coin(1, "uusd"), coin(10, "uluna")];
    let b = vec![coin(1, "uusd")];
    assert!(!bundles_match(&a, &b));
    assert!(!bundles_match(&b, &a));
}

#[test]
fn copy_bundle_keeps_coins_in_order() {
    let a = vec![coin(1, "uusd"), coin(10, "uluna"), coin(5, "uatom")];
    assert_eq!(copy_bundle(&a), a);
    assert_eq!(copy_bundle(&Vec::new()), Vec::<Coin>::new());
}

#[test]
fn copy_range_takes_the_coins_between() {
    let a = vec![coin(1, "uusd"), coin(10, "uluna"), coin(5, "uatom")];
    assert_eq!(copy_range(&a, 0, 1), vec![coin(1, "uusd")]);
    assert_eq!(copy_range(&a, 1, 3), vec![coin(10, "uluna"), coin(5, "uatom")]);
    assert_eq!(copy_range(&a, 2, 2), Vec::<Coin>::new());
    assert_eq!(copy_range(&a, 0, 3), a);
}

#[test]
fn error_messages() {
    assert_eq!(ContractError::NotFound {}.message(), "Not Found");
    assert_eq!(ContractError::Unauthorized {}.message(), "Unauthorized");
    assert_eq!(ContractError::OptionExpired { expired: 5 }.message(), "Expired");
    assert_eq!(
        ContractError::PremiumPriceMismatch { offer: vec![], required: vec![] }.message(),
        "Premium Price Mismatch"
    );
    assert_eq!(
        ContractError::CollateralPriceMismatch { offer: vec![], required: vec![] }.message(),
        "Collateral Price Mismatch"
    );
    assert_eq!(
        ContractError::AssetPriceMismatch { offer: vec![], required: vec![] }.message(),
        "Asset Price Mismatch"
    );
    assert_eq!(
        ContractError::AgreementMismatch {}.message(),
        "Option Terms Does Not Match Created Option"
    );
}
