use solana_explorer::metadata::choose_symbol;
use solana_explorer::metadata::metadata_account_for;
use solana_explorer::metadata::resolve_symbol;
use solana_explorer::InspectError;

/// A borsh-serialized metadata record whose symbol field is `symbol`.
fn mpl_metadata_bytes(symbol: &str) -> Vec<u8> {
    let mut d: Vec<u8> = Vec::new();
    d.push(4); // record kind: metadata
    d.extend_from_slice(&[0u8; 32]); // update authority
    d.extend_from_slice(&[0u8; 32]); // mint
    d.extend_from_slice(&0u32.to_le_bytes()); // name ""
    d.extend_from_slice(&(symbol.len() as u32).to_le_bytes());
    d.extend_from_slice(symbol.as_bytes());
    d.extend_from_slice(&0u32.to_le_bytes()); // uri ""
    d.extend_from_slice(&[0, 0]); // seller fee basis points
    d.push(0); // no creators
    d.push(1); // primary sale happened
    d.push(1); // is mutable
    d.push(0); // no edition nonce
    d.push(0); // no token standard
    d.push(0); // no collection
    d.push(0); // no uses
    d.push(0); // no collection details
    d.push(0); // no programmable config
    d
}

#[test]
fn derived_address_is_stable() {
    let mint = [7u8; 32];
    let a = metadata_account_for(&mint);
    let b = metadata_account_for(&mint);
    assert_eq!(a, b);
    assert_ne!(a, mint);
}

#[test]
fn derived_address_depends_on_mint() {
    let a = metadata_account_for(&[7u8; 32]);
    let b = metadata_account_for(&[8u8; 32]);
    assert_ne!(a, b);
}

#[test]
fn record_symbol_wins() {
    let metadata = Some(mpl_metadata_bytes("USDC"));
    let mint_data = vec![0u8; 82];
    let s = resolve_symbol(&metadata, &mint_data).expect("the record decodes");
    assert_eq!(s.as_deref(), Some("USDC"));
}

#[test]
fn malformed_record_is_fatal() {
    let metadata = Some(vec![255u8, 254, 253]);
    let mint_data = vec![0u8; 82];
    match resolve_symbol(&metadata, &mint_data) {
        Err(e) => assert_eq!(e, InspectError::Malformed),
        Ok(_) => panic!("a malformed record must fail"),
    }
}

#[test]
fn absent_record_falls_through_to_mint() {
    // a bare mint with no embedded metadata yields no symbol
    let mut mint_data = vec![0u8; 82];
    mint_data[45] = 1;
    let s = resolve_symbol(&None, &mint_data).expect("absence is not an error");
    assert_eq!(s, None);
}

#[test]
fn precedence_prefers_first_source() {
    assert_eq!(
        choose_symbol(Some("A".to_owned()), Some("B".to_owned())).as_deref(),
        Some("A")
    );
    assert_eq!(choose_symbol(None, Some("B".to_owned())).as_deref(), Some("B"));
    assert_eq!(choose_symbol(None, None), None);
}
