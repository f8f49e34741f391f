use alloy_primitives::B256;
use op_eth_api::block::{BlockId, BlockNumberOrTag, RpcBlockHash};
use op_eth_api::router::{is_optimism_pre_bedrock, is_pre_bedrock_at, lookup_height, ChainForks};
use std::cell::Cell;

const BEDROCK: u64 = 105_235_063;

fn op_mainnet() -> ChainForks {
    ChainForks { optimism: true, bedrock_block: Some(BEDROCK) }
}

fn ethereum() -> ChainForks {
    ChainForks { optimism: false, bedrock_block: None }
}

fn by_hash(byte: u8) -> BlockId {
    BlockId::Hash(RpcBlockHash { block_hash: B256::repeat_byte(byte), require_canonical: None })
}

fn by_number(number: u64) -> BlockId {
    BlockId::Number(BlockNumberOrTag::Number(number))
}

fn never_asked(_hash: B256) -> Result<Option<u64>, String> {
    panic!("a block named by height or tag needs no lookup")
}

#[test]
fn other_chain_number_is_not_pre_bedrock() {
    assert!(!is_optimism_pre_bedrock(&ethereum(), by_number(5), never_asked));
}

#[test]
fn other_chain_is_never_pre_bedrock() {
    let with_height = ChainForks { optimism: false, bedrock_block: Some(BEDROCK) };
    for chain in [ethereum(), with_height] {
        for number in [0u64, 5, BEDROCK - 1, BEDROCK, u64::MAX] {
            assert!(!is_optimism_pre_bedrock(&chain, by_number(number), never_asked));
            assert!(!is_pre_bedrock_at(&chain, Some(number)));
            let found = |_: B256| Ok::<_, String>(Some(number));
            assert!(!is_optimism_pre_bedrock(&chain, by_hash(1), found));
        }
        assert!(!is_pre_bedrock_at(&chain, None));
    }
}

#[test]
fn unknown_hash_fails_open() {
    let not_found = |_: B256| Ok::<Option<u64>, String>(None);
    assert!(!is_optimism_pre_bedrock(&op_mainnet(), by_hash(0xab), not_found));
}

#[test]
fn provider_error_fails_open() {
    let broken = |_: B256| Err::<Option<u64>, String>("database is gone".to_string());
    assert!(!is_optimism_pre_bedrock(&op_mainnet(), by_hash(0xab), broken));
    assert!(!is_optimism_pre_bedrock(&ethereum(), by_hash(0xab), broken));
}

#[test]
fn unresolved_is_never_pre_bedrock_on_any_chain() {
    let chains = [
        op_mainnet(),
        ethereum(),
        ChainForks { optimism: true, bedrock_block: None },
        ChainForks { optimism: true, bedrock_block: Some(0) },
        ChainForks { optimism: true, bedrock_block: Some(u64::MAX) },
    ];
    for chain in chains {
        assert!(!is_pre_bedrock_at(&chain, None));
        assert!(!is_optimism_pre_bedrock(&chain, by_hash(7), |_| Ok::<_, ()>(None)));
        assert!(!is_optimism_pre_bedrock(&chain, by_hash(7), |_| Err::<Option<u64>, ()>(())));
    }
}

#[test]
fn tags_fail_open() {
    let tags = [
        BlockNumberOrTag::Latest,
        BlockNumberOrTag::Finalized,
        BlockNumberOrTag::Safe,
        BlockNumberOrTag::Earliest,
        BlockNumberOrTag::Pending,
    ];
    for tag in tags {
        assert!(!is_optimism_pre_bedrock(&op_mainnet(), BlockId::Number(tag), never_asked));
    }
}

#[test]
fn number_below_bedrock_is_pre_bedrock() {
    assert!(is_optimism_pre_bedrock(&op_mainnet(), by_number(0), never_asked));
    assert!(is_optimism_pre_bedrock(&op_mainnet(), by_number(5), never_asked));
    assert!(is_optimism_pre_bedrock(&op_mainnet(), by_number(BEDROCK - 1), never_asked));
}

#[test]
fn number_from_bedrock_on_is_not_pre_bedrock() {
    assert!(!is_optimism_pre_bedrock(&op_mainnet(), by_number(BEDROCK), never_asked));
    assert!(!is_optimism_pre_bedrock(&op_mainnet(), by_number(BEDROCK + 1), never_asked));
    assert!(!is_optimism_pre_bedrock(&op_mainnet(), by_number(u64::MAX), never_asked));
}

#[test]
fn hash_resolves_through_the_provider() {
    let old = |_: B256| Ok::<_, String>(Some(BEDROCK - 1));
    let new = |_: B256| Ok::<_, String>(Some(BEDROCK));
    assert!(is_optimism_pre_bedrock(&op_mainnet(), by_hash(1), old));
    assert!(!is_optimism_pre_bedrock(&op_mainnet(), by_hash(1), new));
}

#[test]
fn provider_is_asked_for_the_hash_that_was_named() {
    let asked = Cell::new(None);
    let lookup = |hash: B256| {
        asked.set(Some(hash));
        Ok::<_, String>(Some(1))
    };
    let id = BlockId::Hash(RpcBlockHash {
        block_hash: B256::repeat_byte(0x5a),
        require_canonical: Some(true),
    });
    assert!(is_optimism_pre_bedrock(&op_mainnet(), id, lookup));
    assert_eq!(asked.get(), Some(B256::repeat_byte(0x5a)));
}

#[test]
fn chain_with_bedrock_at_genesis_has_no_pre_bedrock() {
    let base = ChainForks { optimism: true, bedrock_block: Some(0) };
    assert!(!is_optimism_pre_bedrock(&base, by_number(0), never_asked));
    assert!(!is_optimism_pre_bedrock(&base, by_number(1_000), never_asked));
}

#[test]
fn chain_without_bedrock_height_is_all_pre_bedrock() {
    let chain = ChainForks { optimism: true, bedrock_block: None };
    assert!(is_optimism_pre_bedrock(&chain, by_number(0), never_asked));
    assert!(is_optimism_pre_bedrock(&chain, by_number(u64::MAX), never_asked));
    assert!(!chain.is_bedrock_active_at_block(u64::MAX));
}

#[test]
fn chain_forks_answer_what_they_hold() {
    let chain = op_mainnet();
    assert!(chain.is_optimism());
    assert!(!ethereum().is_optimism());
    assert!(!chain.is_bedrock_active_at_block(BEDROCK - 1));
    assert!(chain.is_bedrock_active_at_block(BEDROCK));
    assert!(chain.is_bedrock_active_at_block(BEDROCK + 1));
}

#[test]
fn lookup_resolves_only_to_a_block_that_was_found() {
    assert_eq!(lookup_height(Ok::<_, String>(Some(17))), Some(17));
    assert_eq!(lookup_height(Ok::<_, String>(Some(0))), Some(0));
    assert_eq!(lookup_height(Ok::<Option<u64>, String>(None)), None);
    assert_eq!(lookup_height(Err::<Option<u64>, _>("gone".to_string())), None);
}

#[test]
fn rule_at_resolved_height() {
    assert!(is_pre_bedrock_at(&op_mainnet(), Some(BEDROCK - 1)));
    assert!(!is_pre_bedrock_at(&op_mainnet(), Some(BEDROCK)));
    assert!(!is_pre_bedrock_at(&op_mainnet(), None));
}

#[test]
fn as_number_agrees_with_alloy() {
    let pairs = [
        (BlockNumberOrTag::Latest, alloy_eips::BlockNumberOrTag::Latest),
        (BlockNumberOrTag::Finalized, alloy_eips::BlockNumberOrTag::Finalized),
        (BlockNumberOrTag::Safe, alloy_eips::BlockNumberOrTag::Safe),
        (BlockNumberOrTag::Earliest, alloy_eips::BlockNumberOrTag::Earliest),
        (BlockNumberOrTag::Pending, alloy_eips::BlockNumberOrTag::Pending),
        (BlockNumberOrTag::Number(0), alloy_eips::BlockNumberOrTag::Number(0)),
        (BlockNumberOrTag::Number(5), alloy_eips::BlockNumberOrTag::Number(5)),
        (BlockNumberOrTag::Number(u64::MAX), alloy_eips::BlockNumberOrTag::Number(u64::MAX)),
    ];
    for (ours, theirs) in pairs {
        assert_eq!(ours.as_number(), theirs.as_number());
    }
    assert_eq!(BlockNumberOrTag::Number(5).as_number(), Some(5));
    assert_eq!(BlockNumberOrTag::Pending.as_number(), None);
}
