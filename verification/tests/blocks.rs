use solana_explorer::block::aggregate_block;
use solana_explorer::block::Block;
use solana_explorer::block::BlockScan;
use solana_explorer::block::ParsedBlock;
use solana_explorer::block::RewardInfo;
use solana_explorer::block::RewardKind;
use solana_explorer::message::CompiledIx;
use solana_explorer::message::LegacyMessage;
use solana_explorer::message::MessageHeader;
use solana_explorer::message::ParsedMessage;
use solana_explorer::InspectError;
use solana_explorer::VOTE_PROGRAM_ID;

fn reward(pubkey: &str, lamports: i64, kind: RewardKind) -> RewardInfo {
    RewardInfo { pubkey: pubkey.to_owned(), lamports, kind }
}

fn message(keys: Vec<[u8; 32]>, targets: Vec<u8>) -> ParsedMessage {
    ParsedMessage::Legacy(LegacyMessage {
        header: MessageHeader {
            num_required_signatures: 1,
            num_readonly_signed_accounts: 0,
            num_readonly_unsigned_accounts: 0,
        },
        account_keys: keys,
        recent_blockhash: [0u8; 32],
        instructions: targets
            .into_iter()
            .map(|t| CompiledIx { program_id_index: t, accounts: vec![], data: vec![] })
            .collect(),
    })
}

#[test]
fn fee_reward_split_into_units() {
    let rewards = vec![
        reward("staker", 10, RewardKind::Staking),
        reward("leader", 5_123_456_789, RewardKind::Fee),
        reward("other", 1, RewardKind::Fee),
    ];
    let p = ParsedBlock::new(&rewards).expect("a fee entry exists");
    assert_eq!(p.leader, "leader");
    assert_eq!(p.rewards, 5);
    assert_eq!(p.rewards_sub, 123_456_789);
}

#[test]
fn fee_reward_negative_truncates_toward_zero() {
    let rewards = vec![reward("leader", -1_500_000_000, RewardKind::Fee)];
    let p = ParsedBlock::new(&rewards).expect("a fee entry exists");
    assert_eq!(p.rewards, -1);
    assert_eq!(p.rewards_sub, -500_000_000);
}

#[test]
fn no_fee_reward_yields_nothing() {
    let rewards = vec![reward("staker", 10, RewardKind::Staking), reward("x", 2, RewardKind::Unknown)];
    assert!(ParsedBlock::new(&rewards).is_none());
}

#[test]
fn scan_skips_slot_after_five_failures() {
    let mut scan = BlockScan::new(5, 7);
    assert_eq!(scan.current_slot(), Some(5));
    for _ in 0..4 {
        let skipped = scan.on_fetch_failure();
        assert!(!skipped);
        assert_eq!(scan.current_slot(), Some(5));
    }
    let skipped = scan.on_fetch_failure();
    assert!(skipped);
    assert_eq!(scan.current_slot(), Some(6));
    scan.on_fetch_success();
    assert_eq!(scan.current_slot(), Some(7));
    scan.on_fetch_success();
    assert_eq!(scan.current_slot(), None);
}

#[test]
fn scan_single_slot_range() {
    let b = Block { start: 3, end: None, verbose: false };
    let mut scan = b.scan();
    assert_eq!(scan.current_slot(), Some(3));
    scan.on_fetch_success();
    assert_eq!(scan.current_slot(), None);
}

#[test]
fn vote_and_nonvote_tally() {
    let vote_msg = message(vec![[1u8; 32], VOTE_PROGRAM_ID], vec![1]);
    let nonvote_two_ix = message(vec![[1u8; 32], VOTE_PROGRAM_ID], vec![1, 1]);
    let nonvote_other = message(vec![[1u8; 32], [2u8; 32]], vec![1]);
    let msgs = vec![vote_msg, nonvote_two_ix, nonvote_other];
    let cus = vec![Some(100u64), Some(200), Some(50)];
    let s = aggregate_block(&msgs, &cus, &VOTE_PROGRAM_ID, false).expect("all metas present");
    assert_eq!(s.vote, 1);
    assert_eq!(s.nonvote, 2);
    assert_eq!(s.compute_units, 350);
    assert!(s.program_invocations.is_empty());
}

#[test]
fn missing_compute_units_is_fatal() {
    let msgs = vec![message(vec![[1u8; 32], [2u8; 32]], vec![1])];
    let cus = vec![None];
    match aggregate_block(&msgs, &cus, &VOTE_PROGRAM_ID, false) {
        Err(e) => assert_eq!(e, InspectError::Malformed),
        Ok(_) => panic!("a missing meta must fail"),
    }
}

#[test]
fn verbose_program_invocation_counts() {
    let a = [2u8; 32];
    let b = [3u8; 32];
    let msgs = vec![
        message(vec![[1u8; 32], a, b], vec![1, 2, 1]),
        message(vec![[1u8; 32], b], vec![1]),
    ];
    let cus = vec![Some(1u64), Some(1)];
    let s = aggregate_block(&msgs, &cus, &VOTE_PROGRAM_ID, true).expect("all metas present");
    assert_eq!(s.program_invocations.len(), 2);
    let count = |p: [u8; 32]| {
        s.program_invocations
            .iter()
            .find(|e| e.0 == p)
            .map(|e| e.1)
            .expect("the program is listed")
    };
    assert_eq!(count(a), 2);
    assert_eq!(count(b), 2);
}
