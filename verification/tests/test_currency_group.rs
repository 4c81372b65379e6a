use ratefy::money::{CurrencyAlpha3, CurrencyGroup};

#[test]
fn test_currency_group_contains() {
    let usd = CurrencyAlpha3::from_str("USD").unwrap();
    let gbp = CurrencyAlpha3::from_str("GBP").unwrap();

    assert!(CurrencyGroup::All.contains(&usd));
    assert!(CurrencyGroup::G10.contains(&gbp));
    assert!(!CurrencyGroup::G3.contains(&gbp));
}

#[test]
fn test_currency_group_list_lengths() {
    let g3 = CurrencyGroup::G3.list();
    let g10 = CurrencyGroup::G10.list();
    let all = CurrencyGroup::All.list();

    assert_eq!(g3.len(), 3);
    assert_eq!(g10.len(), 10);
    assert!(all.len() > g10.len());
}

#[test]
fn test_currency_group_g3_in_order() {
    assert_eq!(CurrencyGroup::G3.list(), vec!["USD", "EUR", "JPY"]);
}

#[test]
fn test_currency_group_g10_in_order() {
    assert_eq!(
        CurrencyGroup::G10.list(),
        vec!["USD", "EUR", "JPY", "GBP", "CHF", "CAD", "AUD", "NZD", "SEK", "NOK"]
    );
}

#[test]
fn test_currency_group_all_is_the_registry() {
    let all = CurrencyGroup::All.list();
    assert!(all.len() >= 150);
    for code in &all {
        assert_eq!(code.len(), 3);
        assert!(code.chars().all(|c| c.is_ascii_uppercase()));
        assert!(CurrencyAlpha3::from_str(code).is_ok());
    }
    for (at, code) in all.iter().enumerate() {
        assert!(!all[..at].contains(code));
    }
}

#[test]
fn test_currency_group_all_is_the_same_at_every_call() {
    assert_eq!(CurrencyGroup::All.list(), CurrencyGroup::All.list());
}

#[test]
fn test_currency_groups_are_nested() {
    let g3 = CurrencyGroup::G3.list();
    let g10 = CurrencyGroup::G10.list();
    let all = CurrencyGroup::All.list();
    for code in &g3 {
        assert!(g10.contains(code));
    }
    for code in &g10 {
        assert!(all.contains(code));
    }
}

#[test]
fn test_currency_group_contains_as_the_list() {
    for code in CurrencyGroup::All.list() {
        let currency = CurrencyAlpha3::from_str(&code).unwrap();
        assert!(CurrencyGroup::All.contains(&currency));
        assert_eq!(
            CurrencyGroup::G10.contains(&currency),
            CurrencyGroup::G10.list().contains(&code)
        );
        assert_eq!(
            CurrencyGroup::G3.contains(&currency),
            CurrencyGroup::G3.list().contains(&code)
        );
    }
}

#[test]
fn test_is_g3_currency() {
    assert!(CurrencyGroup::is_g3_currency("USD"));
    assert!(CurrencyGroup::is_g3_currency("EUR"));
    assert!(CurrencyGroup::is_g3_currency("JPY"));
    assert!(!CurrencyGroup::is_g3_currency("GBP"));
    assert!(!CurrencyGroup::is_g3_currency("usd"));
    assert!(!CurrencyGroup::is_g3_currency(""));
}

#[test]
fn test_is_g10_currency() {
    assert!(CurrencyGroup::is_g10_currency("NOK"));
    assert!(CurrencyGroup::is_g10_currency("USD"));
    assert!(!CurrencyGroup::is_g10_currency("DKK"));
    assert!(!CurrencyGroup::is_g10_currency("nok"));
    assert!(!CurrencyGroup::is_g10_currency("NOKK"));
}
