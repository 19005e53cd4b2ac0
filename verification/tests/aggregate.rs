use solana_explorer::system::sort_token_accounts;
use solana_explorer::system::with_symbol;
use solana_explorer::system::FetchPool;
use solana_explorer::system::SystemAccount;
use solana_explorer::token::TokenAccountBalance;
use solana_explorer::InspectError;

fn balance(key: &str, mint: &str, symbol: Option<&str>) -> TokenAccountBalance {
    TokenAccountBalance {
        key: key.to_owned(),
        balance: "1.0".to_owned(),
        mint: mint.to_owned(),
        program: "spl-token".to_owned(),
        symbol: symbol.map(|s| s.to_owned()),
    }
}

#[test]
fn sort_symbols_first_in_order() {
    let v = vec![
        balance("k1", "X", Some("USDC")),
        balance("k2", "Y", None),
        balance("k3", "Z", Some("SOL")),
    ];
    let r = sort_token_accounts(v);
    assert_eq!(r[0].symbol.as_deref(), Some("SOL"));
    assert_eq!(r[1].symbol.as_deref(), Some("USDC"));
    assert_eq!(r[2].symbol, None);
    assert_eq!(r[2].mint, "Y");
}

#[test]
fn sort_is_case_sensitive() {
    // capital letters order before lower-case ones in code-point order
    let v = vec![balance("k1", "X", Some("aaa")), balance("k2", "Y", Some("ZZZ"))];
    let r = sort_token_accounts(v);
    assert_eq!(r[0].symbol.as_deref(), Some("ZZZ"));
    assert_eq!(r[1].symbol.as_deref(), Some("aaa"));
}

#[test]
fn sort_keeps_symbolless_order() {
    let v = vec![
        balance("k1", "A", None),
        balance("k2", "B", Some("T")),
        balance("k3", "C", None),
        balance("k4", "D", None),
    ];
    let r = sort_token_accounts(v);
    assert_eq!(r[0].mint, "B");
    assert_eq!(r[1].mint, "A");
    assert_eq!(r[2].mint, "C");
    assert_eq!(r[3].mint, "D");
}

#[test]
fn sort_keeps_equal_symbols_stable() {
    let v = vec![
        balance("k1", "A", Some("TOK")),
        balance("k2", "B", Some("TOK")),
        balance("k3", "C", Some("ATOK")),
    ];
    let r = sort_token_accounts(v);
    assert_eq!(r[0].mint, "C");
    assert_eq!(r[1].mint, "A");
    assert_eq!(r[2].mint, "B");
}

#[test]
fn aggregate_sorts_and_keeps_balances() {
    let v = vec![balance("k1", "X", None), balance("k2", "Y", Some("SOL"))];
    let a = SystemAccount::aggregate(1_500_000_000, [9u8; 32], v);
    assert_eq!(a.lamports, 1_500_000_000);
    assert_eq!(a.key, [9u8; 32]);
    assert_eq!(a.token_accounts.len(), 2);
    assert_eq!(a.token_accounts[0].symbol.as_deref(), Some("SOL"));
}

#[test]
fn symbol_degrades_when_nothing_fetched() {
    let b = balance("k1", "X", None);
    let r = with_symbol(b, &None, &None).expect("absence is not an error");
    assert_eq!(r.symbol, None);
    assert_eq!(r.key, "k1");
}

#[test]
fn symbol_malformed_record_is_fatal() {
    let b = balance("k1", "X", None);
    match with_symbol(b, &Some(vec![255, 1, 2]), &None) {
        Err(e) => assert_eq!(e, InspectError::Malformed),
        Ok(_) => panic!("a malformed metadata record must fail"),
    }
}

#[test]
fn pool_bounds_in_flight_fetches() {
    let mut p = FetchPool::new(25);
    let mut launched = 0;
    while p.may_start() {
        p.start_fetch();
        launched += 1;
    }
    assert_eq!(launched, 10);
    assert!(!p.may_start());
    p.finish_fetch();
    assert!(p.may_start());
    p.start_fetch();
    assert!(!p.may_start());
}

#[test]
fn pool_drains_to_completion() {
    let mut p = FetchPool::new(13);
    let mut done = 0;
    while !p.all_done() {
        if p.may_start() {
            p.start_fetch();
        } else {
            p.finish_fetch();
            done += 1;
        }
    }
    assert_eq!(done, 13);
}

#[test]
fn balance_from_listing_fields() {
    let b = TokenAccountBalance::from_parsed_fields(
        "acct".to_owned(),
        "spl-token",
        "12.5".to_owned(),
        "mint".to_owned(),
    )
    .expect("the tag is supported");
    assert_eq!(b.key, "acct");
    assert_eq!(b.balance, "12.5");
    assert_eq!(b.mint, "mint");
    assert_eq!(b.program, "spl-token");
    assert_eq!(b.symbol, None);
    let b = TokenAccountBalance::from_parsed_fields(
        "acct".to_owned(),
        "spl-token-2022",
        "1".to_owned(),
        "mint".to_owned(),
    )
    .expect("the tag is supported");
    assert_eq!(b.program, "spl-token");
    assert!(TokenAccountBalance::from_parsed_fields(
        "acct".to_owned(),
        "spl-stake",
        "1".to_owned(),
        "mint".to_owned(),
    )
    .is_none());
}
