use settlement_engine::config::Config;
use settlement_engine::registry::{VerifierKind, VerifierRegistry};
use settlement_engine::request::{AmountKind, DeclaredAmount, SettlementRequest};
use settlement_engine::service::{build_verifier_registry, MySettlementService, SettlementDispatch};
use settlement_engine::text::is_blank;

fn request(network: &str, amount: AmountKind) -> SettlementRequest {
    SettlementRequest {
        invoice_id: "inv-1".to_string(),
        tx_hash: "0xabc".to_string(),
        network: network.to_string(),
        amount_paid: DeclaredAmount { kind: amount, text: "1.5".to_string() },
        currency: "SOL".to_string(),
        sender_address: "sender".to_string(),
        receiver_address: "receiver".to_string(),
        block_number: 42,
    }
}

#[test]
fn registry_maps_the_supported_networks() {
    let registry = build_verifier_registry();
    assert_eq!(registry.get("solana"), Some(VerifierKind::Solana));
    assert_eq!(registry.get("ethereum"), Some(VerifierKind::Evm));
    assert_eq!(registry.get("polygon"), Some(VerifierKind::Evm));
    assert_eq!(registry.get("evm"), Some(VerifierKind::Evm));
    assert_eq!(registry.get("tron"), None);
    assert_eq!(registry.get("Solana"), None);
    let mut names: Vec<String> = registry.names();
    names.sort();
    assert_eq!(names, vec!["ethereum", "evm", "polygon", "solana"]);
}

#[test]
fn registry_insert_replaces_and_adds() {
    let mut registry = VerifierRegistry::new();
    assert_eq!(registry.get("solana"), None);
    registry.insert("solana".to_string(), VerifierKind::Evm);
    registry.insert("solana".to_string(), VerifierKind::Solana);
    registry.insert("tron".to_string(), VerifierKind::Evm);
    assert_eq!(registry.get("solana"), Some(VerifierKind::Solana));
    assert_eq!(registry.get("tron"), Some(VerifierKind::Evm));
    assert_eq!(registry.names().len(), 2);
}

#[test]
fn route_lowercases_the_network() {
    let service = MySettlementService::default();
    assert_eq!(service.route("SOLANA"), Some(VerifierKind::Solana));
    assert_eq!(service.route("Polygon"), Some(VerifierKind::Evm));
    assert_eq!(service.route("sepolia"), None);
    let mut names = service.network_names();
    names.sort();
    assert_eq!(names, vec!["ethereum", "evm", "polygon", "solana"]);
}

#[test]
fn blank_means_only_white_space() {
    assert!(is_blank(""));
    assert!(is_blank(" \t\r\n"));
    assert!(is_blank("\u{3000}\u{85}"));
    assert!(!is_blank(" x "));
    assert!(!is_blank("\u{200B}"));
}

#[test]
fn validate_request_reports_the_first_failed_check() {
    let ok = request("solana", AmountKind::Positive);
    assert_eq!(MySettlementService::validate_request(&ok), None);

    let mut r = ok.clone();
    r.invoice_id = "   ".to_string();
    r.tx_hash = String::new();
    assert_eq!(MySettlementService::validate_request(&r), Some("Invoice ID is required"));

    let mut r = ok.clone();
    r.tx_hash = "\t".to_string();
    assert_eq!(MySettlementService::validate_request(&r), Some("Transaction hash is required"));

    let mut r = ok.clone();
    r.sender_address = String::new();
    assert_eq!(MySettlementService::validate_request(&r), Some("Sender address is required"));

    let mut r = ok.clone();
    r.receiver_address = " ".to_string();
    assert_eq!(MySettlementService::validate_request(&r), Some("Receiver address is required"));

    let r = request("solana", AmountKind::NotPositive);
    assert_eq!(
        MySettlementService::validate_request(&r),
        Some("Amount must be greater than zero")
    );

    // NaN is not greater than zero
    assert_eq!(
        MySettlementService::validate_request(&request("solana", AmountKind::NotANumber)),
        Some("Amount must be greater than zero")
    );
    assert_eq!(MySettlementService::validate_request(&request("solana", AmountKind::Infinite)), None);
}

#[test]
fn validation_error_echoes_the_request() {
    let r = request("solana", AmountKind::Positive);
    let reply = MySettlementService::validation_error(&r, "Invoice ID is required");
    assert!(!reply.success);
    assert_eq!(reply.merchant_id, "");
    assert_eq!(reply.sender_address, "sender");
    assert_eq!(reply.receiver_address, "receiver");
    assert_eq!(reply.block_number, 42);
    assert_eq!(reply.message, "Invoice ID is required");
}

#[test]
fn dispatch_rejects_routes_or_refuses() {
    let service = MySettlementService::default();
    match service.dispatch(&request("ETHEREUM", AmountKind::Positive)) {
        SettlementDispatch::Verify(kind) => assert_eq!(kind, VerifierKind::Evm),
        _ => panic!("expected a verifier"),
    }
    match service.dispatch(&request("tron", AmountKind::Positive)) {
        SettlementDispatch::UnsupportedNetwork(e) => {
            assert_eq!(e, "Unsupported blockchain network: tron")
        }
        _ => panic!("expected an unsupported network"),
    }
    match service.dispatch(&request("solana", AmountKind::NotPositive)) {
        SettlementDispatch::Rejected(reply) => {
            assert!(!reply.success);
            assert_eq!(reply.message, "Amount must be greater than zero");
        }
        _ => panic!("expected a rejection"),
    }
}

#[test]
fn settlement_response_settles_only_on_ok_true() {
    let r = request("solana", AmountKind::Positive);
    let yes = MySettlementService::settlement_response(&r, &Ok(true));
    assert!(yes.success);
    assert_eq!(yes.merchant_id, "merchant_resolved_xyz123");
    assert_eq!(
        yes.message,
        "Transaction verified successfully. 1.5 SOL received by the expected receiver."
    );
    assert_eq!(yes.block_number, 42);

    let failed = "Transaction verification failed: transaction invalid, failed, sender/receiver mismatch, or exact amount mismatch.";
    let no = MySettlementService::settlement_response(&r, &Ok(false));
    assert!(!no.success);
    assert_eq!(no.merchant_id, "");
    assert_eq!(no.message, failed);

    let err = MySettlementService::settlement_response(&r, &Err("rpc down".to_string()));
    assert!(!err.success);
    assert_eq!(err.merchant_id, "");
    assert_eq!(err.message, failed);
    assert_eq!(err.sender_address, "sender");
}

#[test]
fn config_falls_back_to_defaults() {
    let c = Config::from_env(None, None, None).unwrap();
    assert_eq!(c.backend_grpc_url, "http://[::1]:50051");
    assert_eq!(
        c.solana_rpc_url,
        "https://devnet.helius-rpc.com/?api-key=bbb113c7-30a5-4ffc-8325-70b6efa6115e"
    );
    assert_eq!(c.polygon_rpc_url, "https://polygon-rpc.com");
    let c = Config::from_env(Some("a".to_string()), None, Some("c".to_string())).unwrap();
    assert_eq!(c.backend_grpc_url, "a");
    assert_eq!(c.polygon_rpc_url, "c");
}

#[test]
fn a_network_and_its_uppercase_route_alike() {
    let service = MySettlementService::default();
    for name in ["solana", "ethereum", "Polygon", "evm", "tron", "eth-sepolia"] {
        assert_eq!(service.route(name), service.route(&name.to_uppercase()));
        match (
            service.dispatch(&request(name, AmountKind::Positive)),
            service.dispatch(&request(&name.to_uppercase(), AmountKind::Positive)),
        ) {
            (SettlementDispatch::Verify(a), SettlementDispatch::Verify(b)) => assert_eq!(a, b),
            (SettlementDispatch::UnsupportedNetwork(_), SettlementDispatch::UnsupportedNetwork(_)) => {}
            _ => panic!("{} and its uppercase were dispatched differently", name),
        }
    }
}
