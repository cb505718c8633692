//! The settlement service: checks a request, routes it to the verifier of
//! its network, and turns the verifier's answer into the reply.

use vstd::prelude::*;
use crate::registry::{VerifierKind, VerifierRegistry};
use crate::request::{AmountKind, SettlementRequest, SettlementResponse};
use crate::text::{
    ascii_lower_char, ascii_lowercase, ascii_upper_char, ascii_uppercase, is_ascii_text, is_blank, is_blank_text, to_lowercase, unicode_lowercase,
};

verus! {

/// The networks the engine answers for, and who answers for each.
pub open spec fn supported_networks() -> Map<Seq<char>, VerifierKind> {
    map![
        "solana"@ => VerifierKind::Solana,
        "ethereum"@ => VerifierKind::Evm,
        "polygon"@ => VerifierKind::Evm,
        "evm"@ => VerifierKind::Evm,
    ]
}

/// Every name in the table is its own lowercase form, so that the lookup of
/// a request's lowercased network can reach it.
pub open spec fn names_are_lowercase(table: Map<Seq<char>, VerifierKind>) -> bool {
    forall|name: Seq<char>|
        #[trigger] table.contains_key(name) ==> name.len() > 0 && unicode_lowercase(name) == name
}

/// The lowercase form of a name, which is the name itself when it is ASCII
/// with no capital letter.
fn lowercase_name(name: &str) -> (lower: String)
    requires
        is_ascii_text(name@),
        forall|i: int| 0 <= i < name@.len() ==> !('A' <= #[trigger] name@[i] <= 'Z'),
    ensures
        lower@ == name@,
        unicode_lowercase(name@) == name@,
{
    let lower = to_lowercase(name);
    assert(ascii_lowercase(name@) =~= name@);
    lower
}

/// Builds the network-to-verifier table once, at start-up, with the names
/// in lowercase.
pub fn build_verifier_registry() -> (registry: VerifierRegistry)
    ensures
        registry@ == supported_networks(),
        names_are_lowercase(registry@),
{
    proof {
        reveal_strlit("solana");
        reveal_strlit("ethereum");
        reveal_strlit("polygon");
        reveal_strlit("evm");
    }
    let mut registry = VerifierRegistry::new();
    registry.insert(lowercase_name("solana"), VerifierKind::Solana);
    registry.insert(lowercase_name("ethereum"), VerifierKind::Evm);
    registry.insert(lowercase_name("polygon"), VerifierKind::Evm);
    registry.insert(lowercase_name("evm"), VerifierKind::Evm);
    assert(registry@ =~= supported_networks());
    registry
}

/// Network names are matched without regard to letter case: an ASCII name
/// and its uppercase form (which is what `str::to_uppercase` gives for ASCII
/// text) are both ASCII, have the same lowercase form, and so reach the same
/// verifier through `route` and `dispatch`.
pub proof fn law_routing_ignores_case(service: MySettlementService, name: Seq<char>)
    requires
        is_ascii_text(name),
    ensures
        is_ascii_text(ascii_uppercase(name)),
        ascii_lowercase(ascii_uppercase(name)) == ascii_lowercase(name),
        service.networks().get(ascii_lowercase(ascii_uppercase(name))) == service.networks().get(
            ascii_lowercase(name),
        ),
{
    let upper = ascii_uppercase(name);
    assert forall|i: int| 0 <= i < upper.len() implies (#[trigger] upper[i] as u32) < 128 by {
        assert((name[i] as u32) < 128);
    }
    assert forall|i: int| 0 <= i < name.len() implies ascii_lower_char(
        #[trigger] ascii_upper_char(name[i]),
    ) == ascii_lower_char(name[i]) by {
        let c = name[i];
        if 'a' <= c <= 'z' {
            assert('A' <= ascii_upper_char(c) <= 'Z');
        }
    }
    assert(ascii_lowercase(upper) =~= ascii_lowercase(name));
}

/// The first basic check that a request fails, as the message for the
/// payer, or `None` when it passes them all.
pub open spec fn validation_failure(req: SettlementRequest) -> Option<Seq<char>> {
    if is_blank_text(req.invoice_id@) {
        Some("Invoice ID is required"@)
    } else if is_blank_text(req.tx_hash@) {
        Some("Transaction hash is required"@)
    } else if is_blank_text(req.sender_address@) {
        Some("Sender address is required"@)
    } else if is_blank_text(req.receiver_address@) {
        Some("Receiver address is required"@)
    } else if req.amount_paid.kind == AmountKind::NotPositive || req.amount_paid.kind
        == AmountKind::NotANumber {
        Some("Amount must be greater than zero"@)
    } else {
        None
    }
}

pub open spec fn verified_message(req: SettlementRequest) -> Seq<char> {
    "Transaction verified successfully. "@ + req.amount_paid.text@ + " "@ + req.currency@
        + " received by the expected receiver."@
}

pub open spec fn rejected_message() -> Seq<char> {
    "Transaction verification failed: transaction invalid, failed, sender/receiver mismatch, or exact amount mismatch."@
}

pub open spec fn resolved_merchant_id() -> Seq<char> {
    "merchant_resolved_xyz123"@
}

/// Whether a verifier's answer settles the invoice: only a completed
/// verification that said yes does.
pub open spec fn settles(verification: Result<bool, String>) -> bool {
    verification == Ok::<bool, String>(true)
}

/// A request passes the basic checks exactly when its invoice id, hash and
/// both addresses hold something besides white space and its amount is
/// greater than zero (finite or not).
pub proof fn law_validation_passes_sane_requests(req: SettlementRequest)
    ensures
        validation_failure(req) is None <==> {
            &&& !is_blank_text(req.invoice_id@)
            &&& !is_blank_text(req.tx_hash@)
            &&& !is_blank_text(req.sender_address@)
            &&& !is_blank_text(req.receiver_address@)
            &&& (req.amount_paid.kind == AmountKind::Positive || req.amount_paid.kind
                == AmountKind::Infinite)
        },
{
}

/// Only a verifier's `Ok(true)` settles: `Ok(false)` and every error do not.
pub proof fn law_only_ok_true_settles(verification: Result<bool, String>)
    ensures
        settles(verification) <==> (verification matches Ok(v) && v),
{
}

/// What the service does first with a request.
pub enum SettlementDispatch {
    /// A basic check failed; this is the reply.
    Rejected(SettlementResponse),
    /// Run this verifier.
    Verify(VerifierKind),
    /// No verifier answers for the network; this is the error to report.
    UnsupportedNetwork(String),
}

/// The settlement service: the network-to-verifier table.
pub struct MySettlementService {
    verifiers: VerifierRegistry,
}

impl MySettlementService {
    /// The service's network-to-verifier table.
    pub closed spec fn networks(&self) -> Map<Seq<char>, VerifierKind> {
        self.verifiers@
    }
}

impl Default for MySettlementService {
    fn default() -> (service: Self)
        ensures
            service.networks() == supported_networks(),
            names_are_lowercase(service.networks()),
    {
        MySettlementService { verifiers: build_verifier_registry() }
    }
}

impl MySettlementService {
    /// The names of the networks the service answers for.
    pub fn network_names(&self) -> (names: Vec<String>)
        ensures
            names@.len() == self.networks().dom().len(),
            forall|n: Seq<char>|
                self.networks().contains_key(n) <==> exists|i: int|
                    0 <= i < names@.len() && (#[trigger] names@[i])@ == n,
    {
        self.verifiers.names()
    }

    /// The reply to a request that failed a basic check.
    pub fn validation_error(req: &SettlementRequest, message: &str) -> (reply: SettlementResponse)
        ensures
            !reply.success,
            reply.merchant_id@ == Seq::<char>::empty(),
            reply.receiver_address@ == req.receiver_address@,
            reply.sender_address@ == req.sender_address@,
            reply.block_number == req.block_number,
            reply.message@ == message@,
    {
        SettlementResponse {
            success: false,
            merchant_id: String::new(),
            receiver_address: req.receiver_address.clone(),
            sender_address: req.sender_address.clone(),
            block_number: req.block_number,
            message: message.to_owned(),
        }
    }

    /// The chain-agnostic checks: `Some(message)` for the first that
    /// fails, `None` when all pass.
    pub fn validate_request(req: &SettlementRequest) -> (failure: Option<&'static str>)
        ensures
            match failure {
                Some(m) => validation_failure(*req) == Some(m@),
                None => validation_failure(*req) is None,
            },
    {
        if is_blank(req.invoice_id.as_str()) {
            return Some("Invoice ID is required");
        }
        if is_blank(req.tx_hash.as_str()) {
            return Some("Transaction hash is required");
        }
        if is_blank(req.sender_address.as_str()) {
            return Some("Sender address is required");
        }
        if is_blank(req.receiver_address.as_str()) {
            return Some("Receiver address is required");
        }
        if req.amount_paid.kind == AmountKind::NotPositive || req.amount_paid.kind
            == AmountKind::NotANumber {
            return Some("Amount must be greater than zero");
        }
        None
    }

    /// The verifier for a network, looked up by its lowercase name.
    pub fn route(&self, network: &str) -> (kind: Option<VerifierKind>)
        ensures
            kind == self.networks().get(unicode_lowercase(network@)),
            is_ascii_text(network@) ==> kind == self.networks().get(ascii_lowercase(network@)),
    {
        let key = to_lowercase(network);
        self.verifiers.get(key.as_str())
    }

    /// The error reported for a network that no verifier answers for.
    pub fn unsupported_network_error(network: &str) -> (error: String)
        ensures
            error@ == "Unsupported blockchain network: "@ + network@,
    {
        String::from_str("Unsupported blockchain network: ").concat(network)
    }

    /// Checks the request, then finds who verifies it.
    pub fn dispatch(&self, req: &SettlementRequest) -> (step: SettlementDispatch)
        ensures
            match step {
                SettlementDispatch::Rejected(reply) => {
                    &&& validation_failure(*req) == Some(reply.message@)
                    &&& !reply.success
                    &&& reply.merchant_id@ == Seq::<char>::empty()
                    &&& reply.receiver_address@ == req.receiver_address@
                    &&& reply.sender_address@ == req.sender_address@
                    &&& reply.block_number == req.block_number
                },
                SettlementDispatch::Verify(kind) => {
                    &&& validation_failure(*req) is None
                    &&& self.networks().get(unicode_lowercase(req.network@)) == Some(kind)
                    &&& is_ascii_text(req.network@) ==> self.networks().get(
                        ascii_lowercase(req.network@),
                    ) == Some(kind)
                },
                SettlementDispatch::UnsupportedNetwork(error) => {
                    &&& validation_failure(*req) is None
                    &&& !self.networks().contains_key(unicode_lowercase(req.network@))
                    &&& is_ascii_text(req.network@) ==> !self.networks().contains_key(
                        ascii_lowercase(req.network@),
                    )
                    &&& error@ == "Unsupported blockchain network: "@ + req.network@
                },
            },
    {
        if let Some(message) = Self::validate_request(req) {
            return SettlementDispatch::Rejected(Self::validation_error(req, message));
        }
        match self.route(req.network.as_str()) {
            Some(kind) => SettlementDispatch::Verify(kind),
            None => SettlementDispatch::UnsupportedNetwork(
                Self::unsupported_network_error(req.network.as_str()),
            ),
        }
    }

    /// The reply once the verifier has answered: `Ok(true)` settles the
    /// invoice; `Ok(false)`, and an error that kept the verification from
    /// completing, do not.
    pub fn settlement_response(req: &SettlementRequest, verification: &Result<bool, String>) -> (reply:
        SettlementResponse)
        ensures
            reply.success == settles(*verification),
            reply.merchant_id@ == (if settles(*verification) {
                resolved_merchant_id()
            } else {
                Seq::<char>::empty()
            }),
            reply.message@ == (if settles(*verification) {
                verified_message(*req)
            } else {
                rejected_message()
            }),
            reply.receiver_address@ == req.receiver_address@,
            reply.sender_address@ == req.sender_address@,
            reply.block_number == req.block_number,
    {
        let is_valid = match verification {
            Ok(valid) => *valid,
            Err(_) => false,
        };
        let message = if is_valid {
            String::from_str("Transaction verified successfully. ").concat(
                req.amount_paid.text.as_str(),
            ).concat(" ").concat(req.currency.as_str()).concat(
                " received by the expected receiver.",
            )
        } else {
            String::from_str(
                "Transaction verification failed: transaction invalid, failed, sender/receiver mismatch, or exact amount mismatch.",
            )
        };
        let merchant_id = if is_valid {
            String::from_str("merchant_resolved_xyz123")
        } else {
            String::new()
        };
        SettlementResponse {
            success: is_valid,
            merchant_id,
            receiver_address: req.receiver_address.clone(),
            sender_address: req.sender_address.clone(),
            block_number: req.block_number,
            message,
        }
    }
}

} // verus!
