use solana_explorer::message::decode_message;
use solana_explorer::message::AddressTableLookup;
use solana_explorer::message::CompiledIx;
use solana_explorer::message::LegacyMessage;
use solana_explorer::message::MessageHeader;
use solana_explorer::message::ParsedMessage;
use solana_explorer::message::V0Message;
use solana_explorer::transaction::decode_lookup_tables;
use solana_explorer::transaction::parse_transaction;
use solana_explorer::transaction::resolve_legacy_accounts;
use solana_explorer::transaction::resolve_v0_accounts;
use solana_explorer::transaction::TxStatusMeta;
use solana_explorer::transaction::VersionTag;
use solana_explorer::InspectError;

fn header(nrs: u8, nros: u8, nrou: u8) -> MessageHeader {
    MessageHeader {
        num_required_signatures: nrs,
        num_readonly_signed_accounts: nros,
        num_readonly_unsigned_accounts: nrou,
    }
}

fn keys(n: u8) -> Vec<[u8; 32]> {
    (0..n).map(|i| [i; 32]).collect()
}

/// A serialized lookup-table account: the 56-byte metadata region followed
/// by whole 32-byte addresses.
fn lookup_table_bytes(addresses: &[[u8; 32]]) -> Vec<u8> {
    let mut d: Vec<u8> = Vec::new();
    d.extend_from_slice(&1u32.to_le_bytes()); // state: an initialized table
    d.extend_from_slice(&u64::MAX.to_le_bytes()); // deactivation slot
    d.extend_from_slice(&0u64.to_le_bytes()); // last extended slot
    d.push(0); // last extended start index
    d.push(1); // authority present
    d.extend_from_slice(&[9u8; 32]);
    d.extend_from_slice(&[0, 0]); // padding
    assert_eq!(d.len(), 56);
    for a in addresses {
        d.extend_from_slice(a);
    }
    d
}

#[test]
fn legacy_resolution_matches_header_ranges() {
    let msg = LegacyMessage {
        header: header(2, 1, 1),
        account_keys: keys(4),
        recent_blockhash: [0u8; 32],
        instructions: vec![],
    };
    let r = resolve_legacy_accounts(&msg);
    assert_eq!(r.len(), 4);
    // signer range: 0..2; writable signers: 0..1; writable statics: 2..3
    assert!(r[0].is_signer && r[0].is_writable);
    assert!(r[1].is_signer && !r[1].is_writable);
    assert!(!r[2].is_signer && r[2].is_writable);
    assert!(!r[3].is_signer && !r[3].is_writable);
    for (i, m) in r.iter().enumerate() {
        assert_eq!(m.pubkey, [i as u8; 32]);
    }
}

#[test]
fn v0_resolution_appends_lookup_entries() {
    let msg = V0Message {
        header: header(1, 0, 1),
        account_keys: keys(3),
        recent_blockhash: [0u8; 32],
        instructions: vec![],
        address_table_lookups: vec![
            AddressTableLookup {
                account_key: [10u8; 32],
                writable_indexes: vec![1, 0],
                readonly_indexes: vec![2],
            },
            AddressTableLookup {
                account_key: [11u8; 32],
                writable_indexes: vec![],
                readonly_indexes: vec![0],
            },
        ],
    };
    let table_a = Some(vec![[100u8; 32], [101u8; 32], [102u8; 32]]);
    let table_b = Some(vec![[200u8; 32]]);
    let r = resolve_v0_accounts(&msg, &vec![table_a, table_b]);
    // 3 static + (2 writable + 1 readonly) + (0 + 1 readonly)
    assert_eq!(r.len(), 7);
    assert_eq!(r[3].pubkey, [101u8; 32]);
    assert!(r[3].is_writable && !r[3].is_signer);
    assert_eq!(r[4].pubkey, [100u8; 32]);
    assert!(r[4].is_writable && !r[4].is_signer);
    assert_eq!(r[5].pubkey, [102u8; 32]);
    assert!(!r[5].is_writable && !r[5].is_signer);
    assert_eq!(r[6].pubkey, [200u8; 32]);
    assert!(!r[6].is_writable && !r[6].is_signer);
}

#[test]
fn v0_failed_table_skipped_others_kept() {
    let msg = V0Message {
        header: header(1, 0, 0),
        account_keys: keys(1),
        recent_blockhash: [0u8; 32],
        instructions: vec![],
        address_table_lookups: vec![
            AddressTableLookup {
                account_key: [10u8; 32],
                writable_indexes: vec![0],
                readonly_indexes: vec![],
            },
            AddressTableLookup {
                account_key: [11u8; 32],
                writable_indexes: vec![],
                readonly_indexes: vec![0],
            },
        ],
    };
    // the first table failed to fetch; the second still expands
    let r = resolve_v0_accounts(&msg, &vec![None, Some(vec![[200u8; 32]])]);
    assert_eq!(r.len(), 2);
    assert_eq!(r[1].pubkey, [200u8; 32]);
    // an out-of-bounds index skips that table the same way
    let r = resolve_v0_accounts(
        &msg,
        &vec![Some(vec![]), Some(vec![[200u8; 32]])],
    );
    assert_eq!(r.len(), 2);
    assert_eq!(r[1].pubkey, [200u8; 32]);
}

#[test]
fn lookup_entries_never_sign() {
    let msg = V0Message {
        header: header(1, 0, 0),
        account_keys: keys(1),
        recent_blockhash: [0u8; 32],
        instructions: vec![],
        address_table_lookups: vec![AddressTableLookup {
            account_key: [10u8; 32],
            writable_indexes: vec![0, 1],
            readonly_indexes: vec![2, 3],
        }],
    };
    let r = resolve_v0_accounts(
        &msg,
        &vec![Some(vec![[1u8; 32], [2u8; 32], [3u8; 32], [4u8; 32]])],
    );
    for m in r.iter().skip(1) {
        assert!(!m.is_signer);
    }
}

#[test]
fn lookup_table_decoding_reads_addresses() {
    let a = [[100u8; 32], [101u8; 32]];
    let bytes = lookup_table_bytes(&a);
    let r = decode_lookup_tables(&vec![Some(bytes), None, Some(vec![1, 2, 3])]);
    assert_eq!(r.len(), 3);
    assert_eq!(r[0], Some(vec![[100u8; 32], [101u8; 32]]));
    assert_eq!(r[1], None);
    assert_eq!(r[2], None);
}

#[test]
fn lookup_table_uninitialized_rejected() {
    let mut bytes = lookup_table_bytes(&[[100u8; 32]]);
    bytes[0] = 0; // state: uninitialized
    let r = decode_lookup_tables(&vec![Some(bytes)]);
    assert_eq!(r[0], None);
}

#[test]
fn parse_requires_meta_time_and_version() {
    let msg = ParsedMessage::Legacy(LegacyMessage {
        header: header(1, 0, 0),
        account_keys: keys(1),
        recent_blockhash: [7u8; 32],
        instructions: vec![],
    });
    let meta = TxStatusMeta {
        status_ok: true,
        fee: 5000,
        compute_units_consumed: Some(150),
        pre_balances: vec![10],
        post_balances: vec![5],
        log_messages: None,
    };
    let r = parse_transaction(9, None, Some(meta), Some(VersionTag::Legacy), msg, &vec![]);
    match r {
        Err(e) => assert_eq!(e, InspectError::Malformed),
        Ok(_) => panic!("a missing block time must fail"),
    }
}

#[test]
fn parse_assembles_summary() {
    let msg = ParsedMessage::Legacy(LegacyMessage {
        header: header(1, 0, 0),
        account_keys: keys(2),
        recent_blockhash: [7u8; 32],
        instructions: vec![CompiledIx { program_id_index: 1, accounts: vec![0], data: vec![] }],
    });
    let meta = TxStatusMeta {
        status_ok: true,
        fee: 5000,
        compute_units_consumed: Some(150),
        pre_balances: vec![10, 0],
        post_balances: vec![5, 0],
        log_messages: None,
    };
    let t = parse_transaction(9, Some(1700000000), Some(meta), Some(VersionTag::Legacy), msg, &vec![])
        .expect("a complete envelope parses");
    assert_eq!(t.slot, 9);
    assert_eq!(t.time, 1700000000);
    assert_eq!(t.blockhash, [7u8; 32]);
    assert_eq!(t.version, VersionTag::Legacy);
    assert_eq!(t.accounts.len(), 2);
    assert!(t.meta.status_ok);
    assert_eq!(t.meta.fee, 5000);
}

#[test]
fn wire_legacy_transaction_decodes() {
    let payer = solana_sdk::pubkey::Pubkey::new_from_array([1u8; 32]);
    let program = solana_sdk::pubkey::Pubkey::new_from_array([2u8; 32]);
    let wire = solana_sdk::message::Message {
        header: solana_sdk::message::MessageHeader {
            num_required_signatures: 1,
            num_readonly_signed_accounts: 0,
            num_readonly_unsigned_accounts: 1,
        },
        account_keys: vec![payer, program],
        recent_blockhash: solana_sdk::hash::Hash::new_from_array([7u8; 32]),
        instructions: vec![solana_sdk::instruction::CompiledInstruction {
            program_id_index: 1,
            accounts: vec![0],
            data: vec![1, 2, 3],
        }],
    };
    let tx = solana_sdk::transaction::VersionedTransaction {
        signatures: vec![solana_sdk::signature::Signature::default()],
        message: solana_sdk::message::VersionedMessage::Legacy(wire),
    };
    let blob = bincode::serialize(&tx).expect("serializes");
    let b64 = base64::Engine::encode(&base64::engine::general_purpose::STANDARD, &blob);
    let encoded = solana_transaction_status_client_types::EncodedTransaction::Binary(
        b64,
        solana_transaction_status_client_types::TransactionBinaryEncoding::Base64,
    );
    match decode_message(&encoded) {
        Some(ParsedMessage::Legacy(m)) => {
            assert_eq!(m.header.num_required_signatures, 1);
            assert_eq!(m.header.num_readonly_unsigned_accounts, 1);
            assert_eq!(m.account_keys, vec![[1u8; 32], [2u8; 32]]);
            assert_eq!(m.recent_blockhash, [7u8; 32]);
            assert_eq!(m.instructions.len(), 1);
            assert_eq!(m.instructions[0].program_id_index, 1);
            assert_eq!(m.instructions[0].accounts, vec![0]);
            assert_eq!(m.instructions[0].data, vec![1, 2, 3]);
        },
        _ => panic!("expected a decoded legacy message"),
    }
}

#[test]
fn wire_v0_transaction_decodes_with_lookups() {
    let payer = solana_sdk::pubkey::Pubkey::new_from_array([1u8; 32]);
    let program = solana_sdk::pubkey::Pubkey::new_from_array([2u8; 32]);
    let table_key = solana_sdk::pubkey::Pubkey::new_from_array([3u8; 32]);
    let wire = solana_sdk::message::v0::Message {
        header: solana_sdk::message::MessageHeader {
            num_required_signatures: 1,
            num_readonly_signed_accounts: 0,
            num_readonly_unsigned_accounts: 1,
        },
        account_keys: vec![payer, program],
        recent_blockhash: solana_sdk::hash::Hash::new_from_array([7u8; 32]),
        instructions: vec![solana_sdk::instruction::CompiledInstruction {
            program_id_index: 1,
            accounts: vec![0, 2],
            data: vec![],
        }],
        address_table_lookups: vec![solana_sdk::message::v0::MessageAddressTableLookup {
            account_key: table_key,
            writable_indexes: vec![4],
            readonly_indexes: vec![5, 6],
        }],
    };
    let tx = solana_sdk::transaction::VersionedTransaction {
        signatures: vec![solana_sdk::signature::Signature::default()],
        message: solana_sdk::message::VersionedMessage::V0(wire),
    };
    let blob = bincode::serialize(&tx).expect("serializes");
    let b64 = base64::Engine::encode(&base64::engine::general_purpose::STANDARD, &blob);
    let encoded = solana_transaction_status_client_types::EncodedTransaction::Binary(
        b64,
        solana_transaction_status_client_types::TransactionBinaryEncoding::Base64,
    );
    match decode_message(&encoded) {
        Some(ParsedMessage::V0(m)) => {
            assert_eq!(m.account_keys, vec![[1u8; 32], [2u8; 32]]);
            assert_eq!(m.address_table_lookups.len(), 1);
            assert_eq!(m.address_table_lookups[0].account_key, [3u8; 32]);
            assert_eq!(m.address_table_lookups[0].writable_indexes, vec![4]);
            assert_eq!(m.address_table_lookups[0].readonly_indexes, vec![5, 6]);
        },
        _ => panic!("expected a decoded v0 message"),
    }
}
