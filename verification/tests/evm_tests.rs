use settlement_engine::evm::{
    check_finality, check_native, check_receipt, check_transaction, classify_log, evm_chain_for,
    log_cut_splits, payment_kind, precheck, scan_transfer_logs, scan_would_panic, step,
    step_would_panic, verdict_for_failure, EvmAction, EvmBlockHeader, EvmChain, EvmEvent,
    EvmFailure, EvmLog, EvmPayment, EvmReceipt, EvmSettlement, EvmState, EvmTransaction,
    EvmVerdict, ExpectedUnits, LogMatch, RpcReply, TokenContract, ERC20_TRANSFER_TOPIC,
};
use settlement_engine::request::{AmountKind, DeclaredAmount, SettlementRequest};

const SENDER: &str = "0x1111111111111111111111111111111111111111";
const RECEIVER: &str = "0x2222222222222222222222222222222222222222";
const HASH: &str = "0xaaaaaaaaaaaaaaaaaaaaaaaaaaaaaaaaaaaaaaaaaaaaaaaaaaaaaaaaaaaaaaaa";

fn request(network: &str, currency: &str) -> SettlementRequest {
    SettlementRequest {
        invoice_id: "inv-7".to_string(),
        tx_hash: HASH.to_string(),
        network: network.to_string(),
        amount_paid: DeclaredAmount { kind: AmountKind::Positive, text: "1".to_string() },
        currency: currency.to_string(),
        sender_address: SENDER.to_string(),
        receiver_address: RECEIVER.to_string(),
        block_number: 0,
    }
}

fn topic_for(address: &str) -> String {
    format!("0x000000000000000000000000{}", &address[2..])
}

fn data_for(units: u128) -> String {
    format!("0x{:064x}", units)
}

fn transfer_log(from: &str, to: &str, units: u128, contract: &str) -> EvmLog {
    EvmLog {
        address: contract.to_string(),
        topics: vec![ERC20_TRANSFER_TOPIC.to_string(), topic_for(from), topic_for(to)],
        data: data_for(units),
    }
}

fn tx(from: &str, to: Option<&str>, value: &str) -> EvmTransaction {
    EvmTransaction {
        from: from.to_string(),
        to: to.map(|t| t.to_string()),
        value: value.to_string(),
        block_number: Some("0x10".to_string()),
    }
}

#[test]
fn precheck_checks_shape_amount_and_network() {
    assert_eq!(precheck(&request("ethereum", "ETH")).unwrap(), EvmChain::Ethereum);
    assert_eq!(precheck(&request("EVM", "ETH")).unwrap(), EvmChain::Ethereum);
    assert_eq!(precheck(&request("Eth-Sepolia", "ETH")).unwrap(), EvmChain::Sepolia);
    assert_eq!(precheck(&request("polygon", "MATIC")).unwrap(), EvmChain::Polygon);
    assert!(matches!(precheck(&request("solana", "ETH")), Err(EvmFailure::UnsupportedNetwork)));

    let mut r = request("ethereum", "ETH");
    r.sender_address = "1x1111111111111111111111111111111111111111".to_string();
    assert!(matches!(precheck(&r), Err(EvmFailure::InvalidSenderAddress)));
    let mut r = request("ethereum", "ETH");
    r.receiver_address = "0x22".to_string();
    assert!(matches!(precheck(&r), Err(EvmFailure::InvalidReceiverAddress)));
    let mut r = request("ethereum", "ETH");
    r.tx_hash = "0xabc".to_string();
    assert!(matches!(precheck(&r), Err(EvmFailure::InvalidTxHash)));
    let mut r = request("ethereum", "ETH");
    r.amount_paid.kind = AmountKind::NotANumber;
    assert!(matches!(precheck(&r), Err(EvmFailure::InvalidAmount)));
    // 42 bytes, not 42 characters
    let mut r = request("ethereum", "ETH");
    r.sender_address = format!("0xé{}", "1".repeat(38));
    assert_eq!(r.sender_address.len(), 42);
    assert!(precheck(&r).is_ok());
}

#[test]
fn chain_names_and_endpoints() {
    assert_eq!(evm_chain_for("sepolia"), Some(EvmChain::Sepolia));
    assert_eq!(evm_chain_for("ethereum-sepolia"), Some(EvmChain::Sepolia));
    assert_eq!(evm_chain_for("Ethereum"), None);
    assert_eq!(EvmChain::Polygon.rpc_url_variable(), "POLYGON_RPC_URL");
    assert_eq!(EvmChain::Sepolia.rpc_url_variable(), "SEPOLIA_RPC_URL");
    // mainnet and the Sepolia testnet have endpoints of their own
    assert_eq!(EvmChain::Ethereum.default_rpc_url(), "https://ethereum-rpc.publicnode.com");
    assert_eq!(EvmChain::Sepolia.default_rpc_url(), "https://ethereum-sepolia-rpc.publicnode.com");
    assert_ne!(EvmChain::Ethereum.default_rpc_url(), EvmChain::Sepolia.default_rpc_url());
    assert_eq!(TokenContract::PolygonUsdc.variable(), "POLYGON_USDC_CONTRACT");
}

#[test]
fn transaction_must_exist_and_come_from_the_sender() {
    let r = request("ethereum", "ETH");
    let upper_sender = SENDER.to_uppercase().replacen("0X", "0x", 1);
    let ok = check_transaction(&r, RpcReply::Parsed(Some(tx(&upper_sender, None, "0x0"))));
    assert_eq!(ok.unwrap().from, upper_sender);
    assert!(matches!(
        check_transaction(&r, RpcReply::Parsed(Some(tx(RECEIVER, None, "0x0")))),
        Err(EvmFailure::SenderMismatch { actual_sender }) if actual_sender == RECEIVER
    ));
    assert!(matches!(
        check_transaction(&r, RpcReply::HttpFailure { status: 502 }),
        Err(EvmFailure::RpcHttpError { status: 502 })
    ));
    assert!(matches!(
        check_transaction(&r, RpcReply::Unparsable { error: "eof".to_string() }),
        Err(EvmFailure::TxJsonParseError { .. })
    ));
    assert!(matches!(check_transaction(&r, RpcReply::Parsed(None)), Err(EvmFailure::TxNotFound)));
}

#[test]
fn receipt_status_must_be_one() {
    let receipt = |status: &str| EvmReceipt { status: status.to_string(), logs: vec![] };
    assert!(check_receipt(RpcReply::Parsed(Some(receipt("0x1")))).is_ok());
    assert!(check_receipt(RpcReply::Parsed(Some(receipt("0x0001")))).is_ok());
    assert!(check_receipt(RpcReply::Parsed(Some(receipt("1")))).is_ok());
    assert!(matches!(
        check_receipt(RpcReply::Parsed(Some(receipt("0x0")))),
        Err(EvmFailure::TxFailedOnchain { .. })
    ));
    assert!(matches!(
        check_receipt(RpcReply::Parsed(Some(receipt("0x0x1")))),
        Err(EvmFailure::TxFailedOnchain { .. })
    ));
    assert!(matches!(check_receipt(RpcReply::Parsed(None)), Err(EvmFailure::ReceiptNotAvailable)));
    assert!(matches!(
        check_receipt(RpcReply::Unparsable { error: "expected value".to_string() }),
        Err(EvmFailure::ReceiptJsonParseError { error }) if error == "expected value"
    ));
    assert!(matches!(
        check_receipt(RpcReply::HttpFailure { status: 500 }),
        Err(EvmFailure::ReceiptHttpError { status: 500 })
    ));
}

#[test]
fn payment_kind_by_currency() {
    assert!(matches!(payment_kind(&request("ethereum", "eth")), Ok(EvmPayment::Native)));
    assert!(matches!(payment_kind(&request("polygon", "Matic")), Ok(EvmPayment::Native)));
    match payment_kind(&request("Ethereum", "usdt")) {
        Ok(EvmPayment::Token { currency, contract }) => {
            assert_eq!(currency, "USDT");
            assert_eq!(contract, Some(TokenContract::EthereumUsdt));
        }
        _ => panic!("expected a token payment"),
    }
    match payment_kind(&request("polygon", "USDC")) {
        Ok(EvmPayment::Token { contract, .. }) => assert_eq!(contract, Some(TokenContract::PolygonUsdc)),
        _ => panic!("expected a token payment"),
    }
    match payment_kind(&request("evm", "USDC")) {
        Ok(EvmPayment::Token { contract, .. }) => assert_eq!(contract, None),
        _ => panic!("expected a token payment"),
    }
    assert!(matches!(
        payment_kind(&request("ethereum", "doge")),
        Err(EvmFailure::UnsupportedCurrency { currency }) if currency == "DOGE"
    ));
}

#[test]
fn native_transfer_needs_receiver_and_exact_wei() {
    let r = request("ethereum", "ETH");
    let one_eth = "0xde0b6b3a7640000";
    assert_eq!(check_native(&r, &tx(SENDER, Some(RECEIVER), one_eth), 1_000_000_000_000_000_000).unwrap(), 1_000_000_000_000_000_000);
    assert!(matches!(
        check_native(&r, &tx(SENDER, Some(RECEIVER), one_eth), 5),
        Err(EvmFailure::NativeAmountMismatch { expected_wei: 5, actual_wei: 1_000_000_000_000_000_000 })
    ));
    assert!(matches!(
        check_native(&r, &tx(SENDER, None, one_eth), 5),
        Err(EvmFailure::NativeNoReceiver)
    ));
    assert!(matches!(
        check_native(&r, &tx(SENDER, Some(SENDER), one_eth), 5),
        Err(EvmFailure::ReceiverMismatch { .. })
    ));
    assert!(matches!(
        check_native(&r, &tx(SENDER, Some(RECEIVER), "0xzz"), 0),
        Ok(0)
    ));
}

#[test]
fn token_scan_accepts_the_matching_transfer() {
    let r = request("ethereum", "USDT");
    let receipt = EvmReceipt {
        status: "0x1".to_string(),
        logs: vec![
            transfer_log(RECEIVER, SENDER, 5, "0xc"),
            transfer_log(SENDER, RECEIVER, 4, "0xc"),
            transfer_log(SENDER, RECEIVER, 5, "0xd"),
            transfer_log(SENDER, RECEIVER, 5, "0xC"),
            transfer_log(SENDER, RECEIVER, 5, "0xc"),
        ],
    };
    assert!(!scan_would_panic(&r, &receipt, 5, "0xc"));
    let scan = scan_transfer_logs(&r, &receipt, 5, "0xc");
    assert_eq!(
        scan.trace,
        vec![
            LogMatch::Skipped,
            LogMatch::AmountMismatch { amount: 4 },
            LogMatch::ContractMismatch { amount: 5 },
            LogMatch::Accepted { amount: 5 }
        ]
    );
    assert!(matches!(scan.verdict, Ok(5)));

    let scan = scan_transfer_logs(&r, &receipt, 5, "");
    assert_eq!(scan.trace.len(), 3);
    assert!(matches!(scan.verdict, Ok(5)));
}

#[test]
fn token_scan_failures() {
    let r = request("polygon", "USDC");
    let receipt = EvmReceipt {
        status: "0x1".to_string(),
        logs: vec![
            transfer_log(SENDER, RECEIVER, 4, "0xc"),
            transfer_log(SENDER, RECEIVER, 3, "0xc"),
            transfer_log(SENDER, RECEIVER, 5, "0xd"),
        ],
    };
    let scan = scan_transfer_logs(&r, &receipt, 5, "0xc");
    assert_eq!(scan.trace.len(), 3);
    assert!(matches!(
        scan.verdict,
        Err(EvmFailure::TokenAmountMismatch { expected_units: 5, actual_units: 3 })
    ));

    let mut short = transfer_log(SENDER, RECEIVER, 5, "0xc");
    short.data = "0x05".to_string();
    let receipt = EvmReceipt { status: "0x1".to_string(), logs: vec![short, transfer_log(SENDER, RECEIVER, 5, "0xd")] };
    let scan = scan_transfer_logs(&r, &receipt, 5, "0xc");
    assert_eq!(scan.trace, vec![LogMatch::Malformed, LogMatch::ContractMismatch { amount: 5 }]);
    assert!(matches!(scan.verdict, Err(EvmFailure::TokenTransferLogMalformed)));

    // an ERC20 Approval event has the same shape but another signature topic
    let mut wrong_topic = transfer_log(SENDER, RECEIVER, 5, "0xc");
    wrong_topic.topics[0] =
        "0x8c5be1e5ebec7d5bd14f71427d1e84f3dd0314c0f7b2291e5b200ac8c7c3b925".to_string();
    let receipt = EvmReceipt { status: "0x1".to_string(), logs: vec![wrong_topic] };
    let scan = scan_transfer_logs(&r, &receipt, 5, "");
    assert_eq!(scan.trace, vec![LogMatch::Skipped]);
    assert!(matches!(scan.verdict, Err(EvmFailure::NoMatchingTransferEvent)));
}

#[test]
fn classify_log_reads_topics_case_insensitively() {
    let upper = transfer_log(
        "0xABCDEF0000000000000000000000000000000001",
        RECEIVER,
        7,
        "0xc",
    );
    let sender = "0xabcdef0000000000000000000000000000000001".to_string();
    assert_eq!(
        classify_log(&upper, &sender, &RECEIVER.to_string(), 7, ""),
        LogMatch::Accepted { amount: 7 }
    );
    let mut prefixed = upper.clone();
    prefixed.topics[1] = format!("0x0x{}", &prefixed.topics[1][2..]);
    assert_eq!(
        classify_log(&prefixed, &sender, &RECEIVER.to_string(), 7, ""),
        LogMatch::Accepted { amount: 7 }
    );
}

#[test]
fn scan_panics_where_a_topic_cut_splits_a_character() {
    let r = request("ethereum", "USDT");
    let mut bad = transfer_log(SENDER, RECEIVER, 5, "0xc");
    // 38 ASCII digits after a two-byte character: the last 40 bytes start inside it.
    bad.topics[1] = format!("0xé{}", "1".repeat(39));
    assert!(log_cut_splits(&bad));
    let receipt = EvmReceipt { status: "0x1".to_string(), logs: vec![bad.clone()] };
    assert!(scan_would_panic(&r, &receipt, 5, ""));
    let receipt = EvmReceipt {
        status: "0x1".to_string(),
        logs: vec![transfer_log(SENDER, RECEIVER, 5, "0xc"), bad],
    };
    assert!(!scan_would_panic(&r, &receipt, 5, ""));
    assert!(scan_would_panic(&r, &receipt, 6, ""));
}

#[test]
fn failure_reasons_are_the_audit_codes() {
    assert_eq!(EvmFailure::InvalidSenderAddress.reason(), "INVALID_SENDER_ADDRESS");
    assert_eq!(EvmFailure::TokenTransferLogMalformed.reason(), "TOKEN_TRANSFER_LOG_MALFORMED");
    assert_eq!(
        EvmFailure::NativeAmountMismatch { expected_wei: 1, actual_wei: 2 }.reason(),
        "NATIVE_AMOUNT_MISMATCH"
    );
}

const REAL_TRANSFER_TOPIC: &str =
    "0xddf252ad1be2c89b69c2b068fc378daa952ba7f163c4a11628f55a4df523b3ef";

#[test]
fn transfer_topic_is_the_keccak_of_the_event_signature() {
    assert_eq!(ERC20_TRANSFER_TOPIC, REAL_TRANSFER_TOPIC);
    assert_eq!(ERC20_TRANSFER_TOPIC.len(), 66);
}

#[test]
fn a_log_with_the_real_transfer_topic_settles() {
    let r = request("polygon", "USDC");
    let log = EvmLog {
        address: "0xc".to_string(),
        topics: vec![
            REAL_TRANSFER_TOPIC.to_uppercase().replacen("0X", "0x", 1),
            topic_for(SENDER),
            topic_for(RECEIVER),
        ],
        data: data_for(1_500_000),
    };
    let receipt = EvmReceipt { status: "0x1".to_string(), logs: vec![log] };
    let scan = scan_transfer_logs(&r, &receipt, 1_500_000, "");
    assert_eq!(scan.trace, vec![LogMatch::Accepted { amount: 1_500_000 }]);
    assert!(matches!(scan.verdict, Ok(1_500_000)));
}

fn head(number: &str) -> RpcReply<EvmBlockHeader> {
    RpcReply::Parsed(Some(EvmBlockHeader { number: number.to_string() }))
}

#[test]
fn finality_needs_the_block_at_or_below_the_finalized_one() {
    let t = tx(SENDER, Some(RECEIVER), "0x0");
    assert_eq!(check_finality(&t, &head("0x10")).unwrap(), 16);
    assert_eq!(check_finality(&t, &head("0x20")).unwrap(), 16);
    assert!(matches!(
        check_finality(&t, &head("0xf")),
        Err(EvmFailure::TxNotFinalized { tx_block: 16, finalized_block: 15 })
    ));
    let mut pending = t.clone();
    pending.block_number = None;
    assert!(matches!(check_finality(&pending, &head("0x20")), Err(EvmFailure::TxPending)));
    assert!(matches!(check_finality(&t, &head("latest")), Err(EvmFailure::FinalizedBlockUnavailable)));
    assert!(matches!(check_finality(&t, &RpcReply::Parsed(None)), Err(EvmFailure::FinalizedBlockUnavailable)));
    assert!(matches!(
        check_finality(&t, &RpcReply::HttpFailure { status: 503 }),
        Err(EvmFailure::FinalizedBlockHttpError { status: 503 })
    ));
    assert!(matches!(
        check_finality(&t, &RpcReply::RpcError { message: "bad tag".to_string() }),
        Err(EvmFailure::FinalizedBlockRpcError { .. })
    ));
}

#[test]
fn failures_of_the_node_leave_the_verification_incomplete() {
    assert!(matches!(
        verdict_for_failure(EvmFailure::RpcHttpError { status: 500 }),
        EvmVerdict::Incomplete(_)
    ));
    assert!(matches!(
        verdict_for_failure(EvmFailure::ReceiptJsonParseError { error: "x".to_string() }),
        EvmVerdict::Incomplete(_)
    ));
    assert!(matches!(
        verdict_for_failure(EvmFailure::TxRpcError { message: "x".to_string() }),
        EvmVerdict::Incomplete(_)
    ));
    assert!(matches!(verdict_for_failure(EvmFailure::TxNotFound), EvmVerdict::Rejected(_)));
    assert!(matches!(
        verdict_for_failure(EvmFailure::TxNotFinalized { tx_block: 2, finalized_block: 1 }),
        EvmVerdict::Rejected(_)
    ));
    assert_eq!(verdict_for_failure(EvmFailure::TxNotFound).answer(), Some(false));
    assert_eq!(verdict_for_failure(EvmFailure::RpcHttpError { status: 500 }).answer(), None);
    assert_eq!(
        EvmVerdict::Settled(EvmSettlement::Native { wei: 1 }).answer(),
        Some(true)
    );
    assert_eq!(EvmFailure::TxNotFinalized { tx_block: 2, finalized_block: 1 }.reason(), "TX_NOT_FINALIZED");
}

fn run(
    r: &SettlementRequest,
    expected: &ExpectedUnits,
    mut events: Vec<EvmEvent>,
) -> (Vec<String>, EvmVerdict, Vec<LogMatch>) {
    let mut asked = Vec::new();
    let mut state = EvmState::Start;
    let mut event = EvmEvent::Begin;
    events.reverse();
    loop {
        assert!(!step_would_panic(r, expected, &state, &event));
        let (next, action) = step(r, expected, state, event);
        state = next;
        match action {
            EvmAction::Conclude { verdict, trace } => return (asked, verdict, trace),
            other => {
                asked.push(format!("{:?}", other));
                event = events.pop().expect("an event for the action");
            }
        }
    }
}

#[test]
fn a_native_verification_runs_every_stage() {
    let r = request("ethereum", "ETH");
    let expected = ExpectedUnits { wei: 1_000_000_000_000_000_000, token_units: 1_000_000 };
    let receipt = EvmReceipt { status: "0x1".to_string(), logs: vec![] };
    let (asked, verdict, trace) = run(
        &r,
        &expected,
        vec![
            EvmEvent::Transaction(RpcReply::Parsed(Some(tx(SENDER, Some(RECEIVER), "0xde0b6b3a7640000")))),
            EvmEvent::Receipt(RpcReply::Parsed(Some(receipt.clone()))),
            EvmEvent::FinalizedBlock(head("0x10")),
        ],
    );
    assert_eq!(asked, vec!["FetchTransaction(Ethereum)", "FetchReceipt(Ethereum)", "FetchFinalizedBlock(Ethereum)"]);
    assert!(matches!(verdict, EvmVerdict::Settled(EvmSettlement::Native { wei: 1_000_000_000_000_000_000 })));
    assert!(trace.is_empty());

    // the same transfer, one block short of final
    let (_, verdict, _) = run(
        &r,
        &expected,
        vec![
            EvmEvent::Transaction(RpcReply::Parsed(Some(tx(SENDER, Some(RECEIVER), "0xde0b6b3a7640000")))),
            EvmEvent::Receipt(RpcReply::Parsed(Some(receipt))),
            EvmEvent::FinalizedBlock(head("0xf")),
        ],
    );
    assert!(matches!(verdict, EvmVerdict::Rejected(EvmFailure::TxNotFinalized { .. })));
}

#[test]
fn a_token_verification_reads_the_pinned_contract() {
    let r = request("polygon", "usdt");
    let expected = ExpectedUnits { wei: 0, token_units: 5 };
    let receipt = EvmReceipt {
        status: "0x1".to_string(),
        logs: vec![transfer_log(SENDER, RECEIVER, 5, "0xd"), transfer_log(SENDER, RECEIVER, 5, "0xc")],
    };
    let (asked, verdict, trace) = run(
        &r,
        &expected,
        vec![
            EvmEvent::Transaction(RpcReply::Parsed(Some(tx(SENDER, None, "0x0")))),
            EvmEvent::Receipt(RpcReply::Parsed(Some(receipt))),
            EvmEvent::FinalizedBlock(head("0x10")),
            EvmEvent::TokenContract("0xC".to_string()),
        ],
    );
    assert_eq!(asked[3], "ReadTokenContract(PolygonUsdt)");
    assert_eq!(trace, vec![LogMatch::ContractMismatch { amount: 5 }, LogMatch::Accepted { amount: 5 }]);
    match verdict {
        EvmVerdict::Settled(EvmSettlement::Token { currency, units }) => {
            assert_eq!(currency, "USDT");
            assert_eq!(units, 5);
        }
        other => panic!("expected a token settlement, got {:?}", other),
    }
}

#[test]
fn a_verification_stops_at_the_first_failed_stage() {
    let r = request("ethereum", "ETH");
    let expected = ExpectedUnits { wei: 1, token_units: 1 };
    let (asked, verdict, _) = run(
        &r,
        &expected,
        vec![EvmEvent::Transaction(RpcReply::HttpFailure { status: 502 })],
    );
    assert_eq!(asked.len(), 1);
    assert!(matches!(verdict, EvmVerdict::Incomplete(EvmFailure::RpcHttpError { status: 502 })));

    let mut bad = request("ethereum", "ETH");
    bad.tx_hash = "0x1".to_string();
    let (asked, verdict, _) = run(&bad, &expected, vec![]);
    assert!(asked.is_empty());
    assert!(matches!(verdict, EvmVerdict::Rejected(EvmFailure::InvalidTxHash)));

    let doge = request("ethereum", "DOGE");
    let (_, verdict, _) = run(
        &doge,
        &expected,
        vec![
            EvmEvent::Transaction(RpcReply::Parsed(Some(tx(SENDER, None, "0x0")))),
            EvmEvent::Receipt(RpcReply::Parsed(Some(EvmReceipt { status: "0x1".to_string(), logs: vec![] }))),
            EvmEvent::FinalizedBlock(head("0x10")),
        ],
    );
    assert!(matches!(verdict, EvmVerdict::Rejected(EvmFailure::UnsupportedCurrency { .. })));
}

#[test]
fn a_token_transfer_above_the_finalized_block_does_not_settle() {
    let r = request("polygon", "USDT");
    let expected = ExpectedUnits { wei: 0, token_units: 5 };
    let receipt = EvmReceipt { status: "0x1".to_string(), logs: vec![transfer_log(SENDER, RECEIVER, 5, "0xc")] };
    let (asked, verdict, trace) = run(
        &r,
        &expected,
        vec![
            EvmEvent::Transaction(RpcReply::Parsed(Some(tx(SENDER, None, "0x0")))),
            EvmEvent::Receipt(RpcReply::Parsed(Some(receipt))),
            EvmEvent::FinalizedBlock(head("0x0f")),
        ],
    );
    assert_eq!(asked.len(), 3);
    assert!(trace.is_empty());
    assert!(matches!(
        verdict,
        EvmVerdict::Rejected(EvmFailure::TxNotFinalized { tx_block: 16, finalized_block: 15 })
    ));
}
