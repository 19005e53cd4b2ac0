use solana_explorer::utils::display_balance;
use solana_explorer::utils::get_network;
use solana_explorer::utils::insert_newlines;

#[test]
fn balance_basic_scaling() {
    assert_eq!(display_balance(1234567890, 9), "1.234567890");
}

#[test]
fn balance_thousands_grouping() {
    assert_eq!(display_balance(1234567890123, 9), "1,234.567890123");
    assert_eq!(display_balance(123456789, 0), "123,456,789.");
}

#[test]
fn balance_all_fractional() {
    assert_eq!(display_balance(42, 4), "0.0042");
    assert_eq!(display_balance(0, 9), "0.000000000");
}

#[test]
fn balance_exact_boundary() {
    assert_eq!(display_balance(999, 3), "0.999");
    assert_eq!(display_balance(1000, 3), "1.000");
}

#[test]
fn network_aliases() {
    assert_eq!(get_network("devnet"), "https://api.devnet.solana.com");
    assert_eq!(get_network("dev"), "https://api.devnet.solana.com");
    assert_eq!(get_network("d"), "https://api.devnet.solana.com");
    assert_eq!(get_network("testnet"), "https://api.testnet.solana.com");
    assert_eq!(get_network("test"), "https://api.testnet.solana.com");
    assert_eq!(get_network("t"), "https://api.testnet.solana.com");
    assert_eq!(get_network("mainnet"), "https://api.mainnet-beta.solana.com");
    assert_eq!(get_network("main"), "https://api.mainnet-beta.solana.com");
    assert_eq!(get_network("m"), "https://api.mainnet-beta.solana.com");
    assert_eq!(get_network("mainnet-beta"), "https://api.mainnet-beta.solana.com");
    assert_eq!(get_network("localnet"), "http://localhost:8899");
    assert_eq!(get_network("localhost"), "http://localhost:8899");
    assert_eq!(get_network("l"), "http://localhost:8899");
    assert_eq!(get_network("local"), "http://localhost:8899");
}

#[test]
fn network_custom_endpoint_passes_through() {
    assert_eq!(get_network("http://example.invalid:1234"), "http://example.invalid:1234");
}

#[test]
fn newlines_every_n_chars() {
    assert_eq!(insert_newlines("abcdef", 2), "ab\ncd\nef");
    assert_eq!(insert_newlines("abcde", 2), "ab\ncd\ne");
    assert_eq!(insert_newlines("abc", 5), "abc");
    assert_eq!(insert_newlines("", 3), "");
}

#[test]
fn newlines_zero_width() {
    assert_eq!(insert_newlines("abc", 0), "\nabc");
}
