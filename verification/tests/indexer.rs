use aurora_indexer::indexer::{event_of_action, events_of_receipt, is_monitored, receipt_context};
use aurora_indexer::receipt::{Action, Block, BlockHeader, BlockReceipt, ExecutionStatus, Receipt};
use aurora_indexer::sink::CappedStreamSink;
use aurora_indexer::types::{AuroraTransactionEvent, TransactionStatus, Wei};
use aurora_indexer::{AuroraEventHandler, AuroraIndexer, EventContext};

fn hex(text: &str) -> Vec<u8> {
    assert_eq!(text.len() % 2, 0);
    (0..text.len() / 2)
        .map(|i| u8::from_str_radix(&text[2 * i..2 * i + 2], 16).unwrap())
        .collect()
}

fn address(text: &str) -> [u8; 20] {
    hex(text).try_into().unwrap()
}

// A legacy transaction on chain 1313161554, signed by 9d8a62..: nonce 7, value 0.
const LEGACY_AURORA: &str = "f8ad0784042c1d80830493e094ef76a77cf5eae4fe5031eb7f0f95bb2788c72f1980b844412658e500000000000000000000000000000000000000000000000000000000000000200000000000000000000000000000000000000000000000000000000000000002849c8a82c7a03be7d0677f4edc81e459d910bf374e5667e7cf025b2dba373aced914ff87a52ba03a7f44c93752c56b7e6c7aafdaabbfd1bd33c5d995f6e81aeba41c94bb33d0bd";

// A type-2 transaction on chain 1313161554, signed by 9d8a62...
const FEE_MARKET: &str = "02f88f844e454152038084042c1d8083030d40945650457e6d258e96e73db6523325fa6107731b6380a46affe7a40000000000000000000000004a5c181e1406abb16089a1992c639dd97a0f7ed7c001a0049aea2c3e67d3ca2cde7a52ebd56d00df2df67fd7d5d84bb060bf9b0ca66c7da029f6103897f2741785262503164b01118cb9b5c6647db3c6dabbf17ca81a597b";

// The revert data of `Error("nop: amount 2")`.
const AMOUNT_2: &str = "08c379a00000000000000000000000000000000000000000000000000000000000000020000000000000000000000000000000000000000000000000000000000000000d6e6f703a20616d6f756e74203200000000000000000000000000000000000000";

fn with_length(data: &[u8]) -> Vec<u8> {
    let mut bytes = (data.len() as u32).to_le_bytes().to_vec();
    bytes.extend_from_slice(data);
    bytes
}

fn result_bytes(tag: u8, payload: &[u8]) -> Vec<u8> {
    let mut bytes = vec![7u8, tag];
    bytes.extend_from_slice(payload);
    bytes.extend_from_slice(&21000u64.to_le_bytes());
    bytes.extend_from_slice(&0u32.to_le_bytes());
    bytes
}

fn succeeded(bytes: &[u8]) -> ExecutionStatus {
    ExecutionStatus::SuccessValue(result_bytes(0, &with_length(bytes)))
}

fn reverted(bytes: &[u8]) -> ExecutionStatus {
    ExecutionStatus::SuccessValue(result_bytes(1, &with_length(bytes)))
}

fn submit(raw: &[u8]) -> Action {
    Action::FunctionCall { method_name: "submit".to_string(), args: raw.to_vec() }
}

fn submit_with_args(raw: &[u8]) -> Action {
    let mut args = with_length(raw);
    args.push(0);
    args.push(0);
    Action::FunctionCall { method_name: "submit_with_args".to_string(), args }
}

fn receipt(receiver: &str, actions: Vec<Action>, status: ExecutionStatus) -> Receipt {
    Receipt {
        receipt_id: [0xb2; 32],
        receiver_id: receiver.to_string(),
        predecessor_id: "relay.aurora".to_string(),
        actions,
        status,
    }
}

const HEADER: BlockHeader = BlockHeader { height: 134295234, timestamp_nanosec: 1733415730530401689 };

fn in_block(receipt: Receipt) -> BlockReceipt {
    BlockReceipt { transaction_id: [0xa1; 32], receipt }
}

fn collected(indexer: &AuroraIndexer<CappedStreamSink>) -> Vec<AuroraTransactionEvent> {
    let mut events = indexer.0.stream().clone();
    events.extend(indexer.0.buffer().iter().cloned());
    events
}

#[test]
fn only_the_monitored_account_is_monitored() {
    assert!(is_monitored("aurora"));
    assert!(!is_monitored("Aurora"));
    assert!(!is_monitored("AURORA"));
    assert!(!is_monitored("aurora "));
    assert!(!is_monitored(" aurora"));
    assert!(!is_monitored("aurora.near"));
    assert!(!is_monitored("relay.aurora"));
    assert!(!is_monitored(""));
}

#[test]
fn context_takes_place_and_parties_from_receipt_and_block() {
    let receipt = receipt("aurora", vec![], ExecutionStatus::Failure);
    let ctx = receipt_context(&receipt, &[0xa1; 32], &HEADER);
    assert_eq!(
        ctx,
        EventContext {
            transaction_id: [0xa1; 32],
            receipt_id: [0xb2; 32],
            block_height: 134295234,
            block_timestamp_nanosec: 1733415730530401689,
            predecessor_id: "relay.aurora".to_string(),
            contract_id: "aurora".to_string(),
        }
    );
}

#[test]
fn timestamp_is_widened_without_change() {
    let receipt = receipt("aurora", vec![], ExecutionStatus::Failure);
    let header = BlockHeader { height: 0, timestamp_nanosec: u64::MAX };
    let ctx = receipt_context(&receipt, &[0; 32], &header);
    assert_eq!(ctx.block_timestamp_nanosec, 18446744073709551615u128);
    assert_eq!(ctx.block_height, 0);
}

#[test]
fn only_function_calls_yield_events() {
    let receipt = receipt("aurora", vec![], succeeded(&[]));
    let ctx = receipt_context(&receipt, &[0xa1; 32], &HEADER);
    let raw = hex(LEGACY_AURORA);
    assert_eq!(event_of_action(&ctx, &Action::Other, &succeeded(&[])), None);
    let event = event_of_action(&ctx, &submit(&raw), &succeeded(&[])).unwrap();
    assert_eq!(event.aurora_tx_hash, "0x74d0…035c");
    assert_eq!(event_of_action(&ctx, &submit(&raw), &ExecutionStatus::Failure), None);
}

#[test]
fn submit_that_reverts_yields_one_event() {
    let raw = hex(LEGACY_AURORA);
    let block = Block {
        header: HEADER,
        receipts: vec![in_block(receipt("aurora", vec![submit(&raw)], reverted(&hex(AMOUNT_2))))],
    };
    let mut indexer = AuroraIndexer(CappedStreamSink::new(1000));
    indexer.index_block(&block);
    let events = indexer.0.stream();
    assert_eq!(events.len(), 1);
    let event = &events[0];
    assert_eq!(event.status, TransactionStatus::Reverted(hex(AMOUNT_2)));
    match &event.status {
        TransactionStatus::Reverted(bytes) => {
            assert!(bytes.windows(8).any(|window| window == b"amount 2"))
        }
        other => panic!("{:?}", other),
    }
    assert_eq!(event.value, Wei::zero());
    assert_eq!(event.from, address("9d8a62f656a8d1615c1294fd71e9cfb3e4855a4f"));
    assert_eq!(event.to, Some(address("ef76a77cf5eae4fe5031eb7f0f95bb2788c72f19")));
    assert_eq!(event.chain_id, Some(1313161554));
    assert_eq!(event.aurora_tx_hash, "0x74d0…035c");
    assert_eq!(event.block_height, 134295234);
    assert_eq!(event.block_timestamp_nanosec, 1733415730530401689);
    assert_eq!(event.transaction_id, [0xa1; 32]);
    assert_eq!(event.receipt_id, [0xb2; 32]);
}

#[test]
fn submit_with_args_that_succeeds_with_nothing_yields_one_event() {
    let raw = hex(FEE_MARKET);
    let block = Block {
        header: BlockHeader { height: 134404192, timestamp_nanosec: 1733542027531204539 },
        receipts: vec![in_block(receipt("aurora", vec![submit_with_args(&raw)], succeeded(&[])))],
    };
    let mut indexer = AuroraIndexer(CappedStreamSink::new(1000));
    indexer.index_block(&block);
    let events = indexer.0.stream();
    assert_eq!(events.len(), 1);
    assert_eq!(events[0].status, TransactionStatus::Succeeded(vec![]));
    assert_eq!(events[0].aurora_tx_hash, "0xee57…3257");
    assert_eq!(events[0].block_height, 134404192);
    assert_eq!(events[0].to, Some(address("5650457e6d258e96e73db6523325fa6107731b63")));
}

#[test]
fn block_without_actions_for_the_account_yields_nothing_and_one_flush() {
    let raw = hex(LEGACY_AURORA);
    let block = Block {
        header: HEADER,
        receipts: vec![
            in_block(receipt("wrap.near", vec![submit(&raw)], succeeded(&[]))),
            in_block(receipt("aurora", vec![], succeeded(&[]))),
            in_block(receipt("aurora", vec![Action::Other], succeeded(&[]))),
        ],
    };
    let mut indexer = AuroraIndexer(CappedStreamSink::new(1000));
    indexer.index_block(&block);
    assert!(indexer.0.buffer().is_empty());
    assert!(indexer.0.stream().is_empty());
}

#[test]
fn receipt_for_another_account_yields_nothing() {
    let raw = hex(LEGACY_AURORA);
    for receiver in ["Aurora", "aurora.near", "relay.aurora", "", "aurora\n"] {
        let receipt = receipt(receiver, vec![submit(&raw), submit_with_args(&raw)], succeeded(&[]));
        assert_eq!(events_of_receipt(&receipt, &[0xa1; 32], &HEADER), vec![]);
        let mut indexer = AuroraIndexer(CappedStreamSink::new(10));
        indexer.on_receipt(&receipt, &[0xa1; 32], &HEADER);
        assert!(indexer.0.buffer().is_empty());
    }
}

#[test]
fn events_follow_the_order_of_the_actions() {
    let legacy = hex(LEGACY_AURORA);
    let typed = hex(FEE_MARKET);
    let actions = vec![
        submit(&typed),
        Action::Other,
        submit(&[1, 2, 3]),
        submit_with_args(&legacy),
        Action::FunctionCall { method_name: "call".to_string(), args: legacy.clone() },
        submit(&legacy),
    ];
    let events = events_of_receipt(&receipt("aurora", actions, succeeded(&[4])), &[0xa1; 32], &HEADER);
    let hashes: Vec<&str> = events.iter().map(|event| event.aurora_tx_hash.as_str()).collect();
    assert_eq!(hashes, vec!["0xee57…3257", "0x74d0…035c", "0x74d0…035c"]);
    for event in &events {
        assert_eq!(event.status, TransactionStatus::Succeeded(vec![4]));
    }
}

#[test]
fn on_receipt_hands_over_what_events_of_receipt_gives() {
    let legacy = hex(LEGACY_AURORA);
    let typed = hex(FEE_MARKET);
    let receipt = receipt(
        "aurora",
        vec![submit(&legacy), submit_with_args(&typed), submit(&[])],
        reverted(&[1]),
    );
    let mut indexer = AuroraIndexer(CappedStreamSink::new(10));
    indexer.on_receipt(&receipt, &[0x0c; 32], &HEADER);
    let expected = events_of_receipt(&receipt, &[0x0c; 32], &HEADER);
    assert_eq!(expected.len(), 2);
    assert_eq!(indexer.0.buffer(), &expected);
    assert!(indexer.0.stream().is_empty());
}

#[test]
fn failed_wrapping_call_yields_nothing_for_the_receipt() {
    let legacy = hex(LEGACY_AURORA);
    let receipt = receipt("aurora", vec![submit(&legacy), submit_with_args(&legacy)], ExecutionStatus::Failure);
    assert_eq!(events_of_receipt(&receipt, &[0xa1; 32], &HEADER), vec![]);
}

#[test]
fn events_are_published_at_the_end_of_the_block() {
    let legacy = hex(LEGACY_AURORA);
    let receipt = receipt("aurora", vec![submit(&legacy)], succeeded(&[]));
    let mut indexer = AuroraIndexer(CappedStreamSink::new(10));
    indexer.on_receipt(&receipt, &[0xa1; 32], &HEADER);
    assert_eq!(indexer.0.buffer().len(), 1);
    assert_eq!(indexer.0.stream().len(), 0);
    indexer.process_block_end(&HEADER);
    assert_eq!(indexer.0.buffer().len(), 0);
    assert_eq!(indexer.0.stream().len(), 1);
}

fn block_of(height: u64, transactions: &[&str]) -> Block {
    Block {
        header: BlockHeader { height, timestamp_nanosec: height * 1_000_000_000 },
        receipts: transactions
            .iter()
            .map(|raw| in_block(receipt("aurora", vec![submit(&hex(raw))], succeeded(&[]))))
            .collect(),
    }
}

#[test]
fn stream_is_trimmed_from_its_oldest_end() {
    let blocks = vec![
        block_of(1, &[LEGACY_AURORA, FEE_MARKET]),
        block_of(2, &[FEE_MARKET, LEGACY_AURORA]),
    ];
    let mut indexer = AuroraIndexer(CappedStreamSink::new(3));
    indexer.index_block(&blocks[0]);
    assert_eq!(indexer.0.stream().len(), 2);
    indexer.index_block(&blocks[1]);
    let stream = indexer.0.stream();
    assert_eq!(stream.len(), 3);
    let shown: Vec<(u64, &str)> =
        stream.iter().map(|event| (event.block_height, event.aurora_tx_hash.as_str())).collect();
    assert_eq!(shown, vec![(1, "0xee57…3257"), (2, "0xee57…3257"), (2, "0x74d0…035c")]);
}

#[test]
fn stream_never_exceeds_its_capacity_after_a_flush() {
    for capacity in 0..6usize {
        let mut indexer = AuroraIndexer(CappedStreamSink::new(capacity));
        for height in 1..5u64 {
            indexer.index_block(&block_of(height, &[LEGACY_AURORA, FEE_MARKET, LEGACY_AURORA]));
            assert!(indexer.0.stream().len() <= capacity);
            assert_eq!(indexer.0.stream().len(), capacity.min(3 * height as usize));
            assert!(indexer.0.buffer().is_empty());
            assert_eq!(indexer.0.max_stream_size(), capacity);
        }
    }
}

#[test]
fn one_block_larger_than_the_stream_keeps_its_newest_events() {
    let mut indexer = AuroraIndexer(CappedStreamSink::new(1));
    indexer.index_block(&block_of(9, &[LEGACY_AURORA, FEE_MARKET]));
    let stream = indexer.0.stream();
    assert_eq!(stream.len(), 1);
    assert_eq!(stream[0].aurora_tx_hash, "0xee57…3257");
}

#[test]
fn rerun_with_a_fresh_sink_gives_the_same_events() {
    let blocks = vec![
        block_of(10, &[LEGACY_AURORA]),
        block_of(11, &[]),
        block_of(12, &[FEE_MARKET, LEGACY_AURORA, "c0"]),
    ];
    let mut first = AuroraIndexer(CappedStreamSink::new(100));
    first.index_blocks(&blocks);
    let mut second = AuroraIndexer(CappedStreamSink::new(100));
    second.index_blocks(&blocks);
    assert_eq!(first.0.stream(), second.0.stream());
    assert_eq!(first.0.stream().len(), 3);
    let heights: Vec<u64> = first.0.stream().iter().map(|event| event.block_height).collect();
    assert_eq!(heights, vec![10, 12, 12]);
}

#[test]
fn range_is_indexed_block_by_block() {
    let blocks = vec![block_of(1, &[LEGACY_AURORA]), block_of(2, &[FEE_MARKET])];
    let mut whole = AuroraIndexer(CappedStreamSink::new(1));
    whole.index_blocks(&blocks);
    let mut stepwise = AuroraIndexer(CappedStreamSink::new(1));
    stepwise.index_block(&blocks[0]);
    stepwise.index_block(&blocks[1]);
    assert_eq!(collected(&whole), collected(&stepwise));
    assert_eq!(collected(&whole).len(), 1);
    assert_eq!(collected(&whole)[0].block_height, 2);
}

#[test]
fn sink_buffers_until_it_is_flushed() {
    let legacy = hex(LEGACY_AURORA);
    let events =
        events_of_receipt(&receipt("aurora", vec![submit(&legacy)], succeeded(&[])), &[1; 32], &HEADER);
    let mut sink = CappedStreamSink::new(2);
    assert_eq!(sink.max_stream_size(), 2);
    for _ in 0..3 {
        sink.handle_transaction(events[0].clone());
    }
    assert_eq!(sink.buffer().len(), 3);
    assert_eq!(sink.stream().len(), 0);
    sink.flush_events(134295234);
    assert_eq!(sink.buffer().len(), 0);
    assert_eq!(sink.stream().len(), 2);
    sink.flush_events(134295235);
    assert_eq!(sink.stream().len(), 2);
}

#[test]
fn sink_of_capacity_zero_retains_nothing() {
    let legacy = hex(LEGACY_AURORA);
    let events =
        events_of_receipt(&receipt("aurora", vec![submit(&legacy)], succeeded(&[])), &[1; 32], &HEADER);
    let mut sink = CappedStreamSink::new(0);
    sink.handle_transaction(events[0].clone());
    sink.flush_events(1);
    assert!(sink.stream().is_empty());
    assert!(sink.buffer().is_empty());
}
