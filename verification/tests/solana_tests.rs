use settlement_engine::reply::RpcReply;
use settlement_engine::request::{AmountKind, DeclaredAmount, SettlementRequest};
use settlement_engine::solana::{
    answer, check_reply, check_transaction, precheck, precheck_currency_and_amount, SolanaAccountKey, SolanaFailure, SolanaMessage, SolanaMeta,
    SolanaSettlement, SolanaTransactionData, SolanaTxResult,
};

fn request(currency: &str, block_number: i64) -> SettlementRequest {
    SettlementRequest {
        invoice_id: "inv-9".to_string(),
        tx_hash: "5sig".to_string(),
        network: "solana".to_string(),
        amount_paid: DeclaredAmount { kind: AmountKind::Positive, text: "0.5".to_string() },
        currency: currency.to_string(),
        sender_address: "Alice".to_string(),
        receiver_address: "Bob".to_string(),
        block_number,
    }
}

fn key(pubkey: &str, signer: bool) -> SolanaAccountKey {
    SolanaAccountKey { pubkey: pubkey.to_string(), signer }
}

fn result(keys: Vec<SolanaAccountKey>, pre: Vec<u64>, post: Vec<u64>, slot: Option<u64>) -> SolanaTxResult {
    SolanaTxResult {
        meta: Some(SolanaMeta {
            err: None,
            fee: Some(5000),
            pre_balances: Some(pre),
            post_balances: Some(post),
        }),
        transaction: Some(SolanaTransactionData {
            message: Some(SolanaMessage { account_keys: Some(keys) }),
        }),
        slot,
    }
}

#[test]
fn precheck_wants_sol_and_a_positive_amount() {
    assert!(precheck(&request("sol", 0)).is_ok());
    // U+017F LATIN SMALL LETTER LONG S is uppercased to 'S'
    assert!(precheck(&request("\u{17F}ol", 0)).is_ok());
    assert!(matches!(precheck(&request("USDC", 0)), Err(SolanaFailure::UnsupportedCurrency)));
    let mut r = request("SOL", 0);
    r.amount_paid.kind = AmountKind::Infinite;
    assert!(matches!(precheck(&r), Err(SolanaFailure::InvalidAmount)));
}

#[test]
fn settles_on_exact_receipt_and_enough_sent() {
    let r = request("SOL", 0);
    let keys = vec![key("Alice", true), key("Bob", false)];
    let settled = check_transaction(
        &r,
        500,
        Some(result(keys, vec![10_000, 0], vec![4_500, 500], Some(77))),
    )
    .unwrap();
    assert_eq!(
        settled,
        SolanaSettlement { slot: 77, fee: 5000, sender_decrease: 5_500, receiver_increase: 500 }
    );
}

#[test]
fn amount_and_sender_mismatches() {
    let r = request("SOL", 0);
    let keys = vec![key("Alice", true), key("Bob", false)];
    assert!(matches!(
        check_transaction(&r, 500, Some(result(keys.clone(), vec![1_000, 0], vec![500, 499], None))),
        Err(SolanaFailure::AmountMismatch { expected: 500, receiver_increase: 499, .. })
    ));
    assert!(matches!(
        check_transaction(&r, 500, Some(result(keys.clone(), vec![1_000, 0], vec![600, 500], None))),
        Err(SolanaFailure::SenderAmountMismatch { sender_decrease: 400, .. })
    ));
    // a receiver balance that fell counts as no increase
    assert!(matches!(
        check_transaction(&r, 0, Some(result(keys, vec![1_000, 9], vec![1_000, 3], None))),
        Ok(SolanaSettlement { receiver_increase: 0, sender_decrease: 0, .. })
    ));
}

#[test]
fn slot_is_checked_only_for_a_positive_block() {
    let keys = vec![key("Alice", true), key("Bob", false)];
    let res = result(keys, vec![1_000, 0], vec![0, 1_000], None);
    assert!(check_transaction(&request("SOL", 0), 1_000, Some(res.clone())).is_ok());
    assert!(check_transaction(&request("SOL", -3), 1_000, Some(res.clone())).is_ok());
    assert!(matches!(
        check_transaction(&request("SOL", 12), 1_000, Some(res)),
        Err(SolanaFailure::SlotMismatch { expected: 12, actual: 0, .. })
    ));
}

#[test]
fn signer_and_receiver_must_appear() {
    let r = request("SOL", 0);
    let unsigned = vec![key("Alice", false), key("Bob", false), key("Alice", true)];
    // the signing entry is the second "Alice"
    assert!(check_transaction(&r, 5, Some(result(unsigned, vec![0, 0, 10], vec![0, 5, 5], None))).is_ok());
    assert!(matches!(
        check_transaction(&r, 5, Some(result(vec![key("Alice", false), key("Bob", false)], vec![], vec![], None))),
        Err(SolanaFailure::SenderDidNotSign)
    ));
    assert!(matches!(
        check_transaction(&r, 5, Some(result(vec![key("Alice", true)], vec![], vec![], None))),
        Err(SolanaFailure::ReceiverNotFound)
    ));
    assert!(matches!(
        check_transaction(&r, 5, Some(result(vec![key("Alice", true), key("Bob", false)], vec![1], vec![1, 2], None))),
        Err(SolanaFailure::BalanceIndexOutOfBounds)
    ));
}

#[test]
fn missing_parts_of_the_reply() {
    let r = request("SOL", 0);
    assert!(matches!(check_transaction(&r, 5, None), Err(SolanaFailure::TxNotFound)));
    let keys = vec![key("Alice", true), key("Bob", false)];
    let mut res = result(keys.clone(), vec![0, 0], vec![0, 5], None);
    res.meta.as_mut().unwrap().err = Some("{\"InstructionError\":[0,\"Custom\"]}".to_string());
    assert!(matches!(check_transaction(&r, 5, Some(res)), Err(SolanaFailure::TxFailed { .. })));
    let mut res = result(keys.clone(), vec![0, 0], vec![0, 5], None);
    res.meta = None;
    assert!(matches!(check_transaction(&r, 5, Some(res)), Err(SolanaFailure::MetadataMissing)));
    let mut res = result(keys.clone(), vec![0, 0], vec![0, 5], None);
    res.transaction = None;
    assert!(matches!(check_transaction(&r, 5, Some(res)), Err(SolanaFailure::TransactionDataMissing)));
    let mut res = result(keys.clone(), vec![0, 0], vec![0, 5], None);
    res.transaction = Some(SolanaTransactionData { message: None });
    assert!(matches!(check_transaction(&r, 5, Some(res)), Err(SolanaFailure::MessageMissing)));
    let mut res = result(keys.clone(), vec![0, 0], vec![0, 5], None);
    res.transaction = Some(SolanaTransactionData { message: Some(SolanaMessage { account_keys: None }) });
    assert!(matches!(check_transaction(&r, 5, Some(res)), Err(SolanaFailure::AccountKeysMissing)));
    let mut res = result(keys.clone(), vec![0, 0], vec![0, 5], None);
    res.meta.as_mut().unwrap().pre_balances = None;
    assert!(matches!(check_transaction(&r, 5, Some(res)), Err(SolanaFailure::PreBalancesMissing)));
    let mut res = result(keys, vec![0, 0], vec![0, 5], None);
    res.meta.as_mut().unwrap().post_balances = None;
    assert!(matches!(check_transaction(&r, 5, Some(res)), Err(SolanaFailure::PostBalancesMissing)));
}

#[test]
fn precheck_currency_is_compared_in_upper_case() {
    assert!(precheck_currency_and_amount("SOL", AmountKind::Positive).is_ok());
    assert!(matches!(
        precheck_currency_and_amount("sol", AmountKind::Positive),
        Err(SolanaFailure::UnsupportedCurrency)
    ));
    assert!(matches!(
        precheck_currency_and_amount("SOL", AmountKind::NotPositive),
        Err(SolanaFailure::InvalidAmount)
    ));
}

#[test]
fn node_errors_leave_the_verification_incomplete() {
    let r = request("SOL", 0);
    let rpc_error = check_reply(&r, 5, RpcReply::RpcError { message: "{\"code\":-32602}".to_string() });
    assert!(matches!(rpc_error, Err(SolanaFailure::RpcError { .. })));
    assert_eq!(answer(&rpc_error), None);
    let http = check_reply(&r, 5, RpcReply::HttpFailure { status: 429 });
    assert_eq!(answer(&http), None);
    let missing = check_reply(&r, 5, RpcReply::Parsed(None));
    assert!(matches!(missing, Err(SolanaFailure::TxNotFound)));
    assert_eq!(answer(&missing), Some(false));
    let keys = vec![key("Alice", true), key("Bob", false)];
    let ok = check_reply(&r, 5, RpcReply::Parsed(Some(result(keys, vec![5, 0], vec![0, 5], None))));
    assert_eq!(answer(&ok), Some(true));
}
