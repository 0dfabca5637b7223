use uni_watch::abi::{AbiValue, DecodeResult, Param, ParamKind, Registry};
use uni_watch::chain::{filter_uni_txns, is_sent_to, same_address, Address, Block, Transaction};
use uni_watch::pipeline::{report_block, start, step, Action, Event, FetchError, Phase, FATAL_EXIT};
use uni_watch::report::{block_lines, transaction_lines, ReportLine, Scalar};
use uni_watch::abi::has_selector;

const SWAP_SELECTOR: [u8; 4] = [0x7f, 0xf3, 0x6a, 0xb5];

fn addr(b: u8) -> Address {
    Address { bytes: [b; 20] }
}

fn tx(h: u8, to: Option<Address>, value: u64, input: Vec<u8>) -> Transaction {
    Transaction { hash: [h; 32], to, value: [value, 0, 0, 0], input }
}

fn word_u64(v: u64) -> Vec<u8> {
    let mut w = vec![0u8; 24];
    w.extend_from_slice(&v.to_be_bytes());
    w
}

fn word_addr(a: &Address) -> Vec<u8> {
    let mut w = vec![0u8; 12];
    w.extend_from_slice(&a.bytes);
    w
}

/// Call data of swapExactETHForTokens(min_out, [a, b], to, deadline).
fn swap_payload(min_out: u64, a: &Address, b: &Address, to: &Address, deadline: u64) -> Vec<u8> {
    let mut p = SWAP_SELECTOR.to_vec();
    p.extend(word_u64(min_out));
    p.extend(word_u64(0x80));
    p.extend(word_addr(to));
    p.extend(word_u64(deadline));
    p.extend(word_u64(2));
    p.extend(word_addr(a));
    p.extend(word_addr(b));
    p
}

fn target() -> Address {
    addr(0x7a)
}

#[test]
fn same_address_compares_every_byte() {
    let a = addr(1);
    let mut b = addr(1);
    assert!(same_address(&a, &b));
    b.bytes[19] = 2;
    assert!(!same_address(&a, &b));
}

#[test]
fn contract_creation_is_never_sent_to_target() {
    assert!(!is_sent_to(&tx(1, None, 0, vec![]), &target()));
    assert!(is_sent_to(&tx(1, Some(target()), 0, vec![]), &target()));
}

#[test]
fn filter_keeps_only_target_in_order() {
    let block = Block {
        hash: [9; 32],
        transactions: vec![
            tx(1, Some(target()), 0, vec![]),
            tx(2, Some(addr(3)), 0, vec![]),
            tx(3, None, 0, vec![]),
            tx(4, Some(target()), 5, vec![1, 2]),
        ],
    };
    let r = filter_uni_txns(&block, &target());
    let hashes: Vec<u8> = r.iter().map(|t| t.hash[0]).collect();
    assert_eq!(hashes, vec![1, 4]);
}

#[test]
fn filter_of_empty_block_is_empty() {
    let block = Block { hash: [0; 32], transactions: vec![] };
    assert!(filter_uni_txns(&block, &target()).is_empty());
}

#[test]
fn filter_twice_gives_same_transactions() {
    let block = Block {
        hash: [9; 32],
        transactions: vec![tx(1, Some(target()), 0, vec![]), tx(2, None, 0, vec![])],
    };
    let a: Vec<[u8; 32]> = filter_uni_txns(&block, &target()).iter().map(|t| t.hash).collect();
    let b: Vec<[u8; 32]> = filter_uni_txns(&block, &target()).iter().map(|t| t.hash).collect();
    assert_eq!(a, b);
}

#[test]
fn selector_is_computed_from_signature() {
    let r = Registry::swap_exact_eth_for_tokens();
    assert_eq!(r.len(), 1);
    assert_eq!(r.function(0).selector, SWAP_SELECTOR);
    assert_eq!(r.function(0).name, "swapExactETHForTokens");
}

#[test]
fn has_selector_checks_prefix() {
    assert!(has_selector(&vec![0x7f, 0xf3, 0x6a, 0xb5, 0], &SWAP_SELECTOR));
    assert!(!has_selector(&vec![0x7f, 0xf3, 0x6a, 0xb6], &SWAP_SELECTOR));
    assert!(!has_selector(&vec![0x7f, 0xf3, 0x6a], &SWAP_SELECTOR));
}

#[test]
fn decode_swap_call() {
    let (a, b, c) = (addr(0xa), addr(0xb), addr(0xc));
    let r = Registry::swap_exact_eth_for_tokens();
    let d = r.decode(&swap_payload(100, &a, &b, &c, 9999));
    assert_eq!(
        d,
        DecodeResult::Decoded {
            function: 0,
            values: vec![
                AbiValue::Uint([100, 0, 0, 0]),
                AbiValue::AddressArray(vec![Some(a.bytes), Some(b.bytes)]),
                AbiValue::Address(c.bytes),
                AbiValue::Uint([9999, 0, 0, 0]),
            ],
        }
    );
}

#[test]
fn decode_other_selector_is_unsupported() {
    let (a, b, c) = (addr(0xa), addr(0xb), addr(0xc));
    let mut p = swap_payload(100, &a, &b, &c, 9999);
    p[0] = 0x18;
    let r = Registry::swap_exact_eth_for_tokens();
    assert_eq!(r.decode(&p), DecodeResult::Unsupported);
}

#[test]
fn decode_truncated_payload_is_unsupported() {
    let (a, b, c) = (addr(0xa), addr(0xb), addr(0xc));
    let mut p = swap_payload(100, &a, &b, &c, 9999);
    p.truncate(4 + 32 * 3);
    let r = Registry::swap_exact_eth_for_tokens();
    assert_eq!(r.decode(&p), DecodeResult::Unsupported);
    assert_eq!(r.decode(&vec![0x7f, 0xf3]), DecodeResult::Unsupported);
    assert_eq!(r.decode(&SWAP_SELECTOR.to_vec()), DecodeResult::Unsupported);
}

#[test]
fn decode_twice_gives_same_result() {
    let (a, b, c) = (addr(0xa), addr(0xb), addr(0xc));
    let p = swap_payload(7, &a, &b, &c, 1);
    let r = Registry::swap_exact_eth_for_tokens();
    assert_eq!(r.decode(&p), r.decode(&p));
}

#[test]
fn decode_tries_functions_in_order() {
    let mut r = Registry::new();
    r.register(
        "transfer".to_string(),
        vec![
            Param { label: "to".to_string(), kind: ParamKind::Address, shown: true },
            Param { label: "amount".to_string(), kind: ParamKind::Uint256, shown: true },
        ],
    );
    let swap = Registry::swap_exact_eth_for_tokens();
    let f = swap.function(0);
    r.register(f.name.clone(), f.params.clone());
    let (a, b, c) = (addr(0xa), addr(0xb), addr(0xc));
    match r.decode(&swap_payload(1, &a, &b, &c, 2)) {
        DecodeResult::Decoded { function, .. } => assert_eq!(function, 1),
        DecodeResult::Unsupported => panic!("swap call not decoded"),
    }
    assert_eq!(r.function(0).selector, [0xa9, 0x05, 0x9c, 0xbb]);
}

#[test]
fn decode_order_does_not_change_outcomes() {
    let (a, b, c) = (addr(0xa), addr(0xb), addr(0xc));
    let r = Registry::swap_exact_eth_for_tokens();
    let payloads = vec![swap_payload(1, &a, &b, &c, 2), vec![1, 2, 3, 4], swap_payload(5, &c, &b, &a, 6)];
    let forward: Vec<(usize, DecodeResult)> = (0..3).map(|i| (i, r.decode(&payloads[i]))).collect();
    let mut backward: Vec<(usize, DecodeResult)> = (0..3).rev().map(|i| (i, r.decode(&payloads[i]))).collect();
    backward.sort_by_key(|x| x.0);
    assert_eq!(forward, backward);
}

#[test]
fn swap_transaction_report_shows_min_out_and_to() {
    let (a, b, c) = (addr(0xa), addr(0xb), addr(0xc));
    let r = Registry::swap_exact_eth_for_tokens();
    let t = tx(5, Some(target()), 42, swap_payload(100, &a, &b, &c, 9999));
    let d = r.decode(&t.input);
    assert_eq!(
        transaction_lines(&t, &d, &r),
        vec![
            ReportLine::Transaction { hash: [5; 32] },
            ReportLine::Value { amount: [42, 0, 0, 0] },
            ReportLine::Argument { function: 0, param: 0, value: Scalar::Uint([100, 0, 0, 0]) },
            ReportLine::Argument { function: 0, param: 2, value: Scalar::Address(c.bytes) },
        ]
    );
}

#[test]
fn unsupported_transaction_report_has_no_numbers() {
    let r = Registry::swap_exact_eth_for_tokens();
    let t = tx(6, Some(target()), 42, vec![0xde, 0xad, 0xbe, 0xef, 0, 0]);
    let d = r.decode(&t.input);
    assert_eq!(
        transaction_lines(&t, &d, &r),
        vec![ReportLine::Transaction { hash: [6; 32] }, ReportLine::Unsupported]
    );
}

#[test]
fn block_lines_note_empty_blocks() {
    assert_eq!(block_lines([3; 32], 0), vec![ReportLine::NewBlock { hash: [3; 32] }, ReportLine::NoMatching]);
    assert_eq!(block_lines([3; 32], 2), vec![ReportLine::NewBlock { hash: [3; 32] }]);
}

#[test]
fn quiet_block_report() {
    let r = Registry::swap_exact_eth_for_tokens();
    let block = Block {
        hash: [8; 32],
        transactions: vec![tx(1, Some(addr(1)), 0, vec![]), tx(2, None, 3, vec![])],
    };
    assert_eq!(
        report_block(&block, &target(), &r),
        vec![ReportLine::NewBlock { hash: [8; 32] }, ReportLine::NoMatching]
    );
}

#[test]
fn block_report_lists_matching_transactions() {
    let (a, b, c) = (addr(0xa), addr(0xb), addr(0xc));
    let r = Registry::swap_exact_eth_for_tokens();
    let block = Block {
        hash: [8; 32],
        transactions: vec![
            tx(1, Some(target()), 10, swap_payload(100, &a, &b, &c, 9999)),
            tx(2, Some(addr(1)), 0, vec![]),
            tx(3, Some(target()), 0, vec![9, 9, 9, 9]),
        ],
    };
    assert_eq!(
        report_block(&block, &target(), &r),
        vec![
            ReportLine::NewBlock { hash: [8; 32] },
            ReportLine::Transaction { hash: [1; 32] },
            ReportLine::Value { amount: [10, 0, 0, 0] },
            ReportLine::Argument { function: 0, param: 0, value: Scalar::Uint([100, 0, 0, 0]) },
            ReportLine::Argument { function: 0, param: 2, value: Scalar::Address(c.bytes) },
            ReportLine::Transaction { hash: [3; 32] },
            ReportLine::Unsupported,
        ]
    );
}

#[test]
fn loop_runs_through_a_block() {
    let (p, a) = start();
    assert_eq!(p, Phase::AwaitingBlock);
    assert_eq!(a, Action::Emit { lines: vec![ReportLine::Waiting] });
    let (p, a) = step(p, Event::Announced { id: [4; 32] });
    assert_eq!(p, Phase::FetchingBlock);
    assert_eq!(a, Action::Fetch { id: [4; 32] });
    let (p, a) = step(p, Event::Fetched { hash: [4; 32], matching: 0 });
    assert_eq!(p, Phase::Decoding);
    assert_eq!(
        a,
        Action::Decode { header: vec![ReportLine::NewBlock { hash: [4; 32] }, ReportLine::NoMatching] }
    );
    let (p, a) = step(p, Event::DecodesJoined);
    assert_eq!(p, Phase::AwaitingBlock);
    assert_eq!(a, Action::Emit { lines: vec![ReportLine::Waiting] });
}

#[test]
fn block_not_yet_available_is_fatal() {
    let (p, a) = step(Phase::FetchingBlock, Event::FetchFailed { error: FetchError::NotYetAvailable });
    assert_eq!(p, Phase::Halted);
    assert_eq!(a, Action::Exit { code: FATAL_EXIT });
    assert_eq!(FATAL_EXIT, 1);
    let (p, a) = step(Phase::FetchingBlock, Event::FetchFailed { error: FetchError::Network });
    assert_eq!((p, a), (Phase::Halted, Action::Exit { code: 1 }));
}

#[test]
fn closed_stream_and_halt_are_fatal() {
    assert_eq!(step(Phase::AwaitingBlock, Event::StreamClosed), (Phase::Halted, Action::Exit { code: 1 }));
    assert_eq!(step(Phase::Halted, Event::DecodesJoined), (Phase::Halted, Action::Exit { code: 1 }));
    assert_eq!(step(Phase::AwaitingBlock, Event::DecodesJoined), (Phase::Halted, Action::Exit { code: 1 }));
}
