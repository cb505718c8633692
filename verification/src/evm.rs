//! Verification of a transfer on an EVM chain (Ethereum, Sepolia, Polygon):
//! native ETH/MATIC by the transaction itself, USDT/USDC by the receipt's
//! ERC20 `Transfer` logs.
//!
//! The checks run in stages, each taking what the chain RPC answered to the
//! previous stage's request: `precheck` picks the chain to ask,
//! `check_transaction` and `check_receipt` read the two RPC replies,
//! `payment_kind` tells native from token transfers, and `check_native` or
//! `scan_transfer_logs` gives the verdict.

use vstd::prelude::*;
use crate::hex::{
    hex_to_u128_or_zero, hex_to_u64_or_zero, hex_u128_or_zero, hex_u64_or_zero, parse_hex_u64,
    parse_radix16, u64_bound,
};
pub use crate::reply::RpcReply;
use crate::request::{AmountKind, SettlementRequest};
use crate::text::{
    ascii_case_eq, ascii_uppercase, bytes_of, eq_ignore_ascii_case, has_hex_prefix, same_text, strip_hex_prefix,
    strip_hex_prefix_start, to_lowercase, to_uppercase, trim_hex_prefixes,
    trim_hex_prefixes_start, unicode_lowercase, unicode_uppercase, utf8_bytes,
};

verus! {

/// The EVM chains the engine can ask.
#[derive(Clone, Copy, Debug, PartialEq, Eq, Structural)]
pub enum EvmChain {
    Ethereum,
    Sepolia,
    Polygon,
}

/// A transaction as `eth_getTransactionByHash` reports it.
#[derive(Clone, Debug)]
pub struct EvmTransaction {
    pub from: String,
    pub to: Option<String>,
    pub value: String,
    pub block_number: Option<String>,
}

/// One log entry of a receipt.
#[derive(Clone, Debug)]
pub struct EvmLog {
    pub address: String,
    pub topics: Vec<String>,
    pub data: String,
}

/// A receipt as `eth_getTransactionReceipt` reports it.
#[derive(Clone, Debug)]
pub struct EvmReceipt {
    pub status: String,
    pub logs: Vec<EvmLog>,
}

/// The head of the chain's latest finalized block, as
/// `eth_getBlockByNumber("finalized", false)` reports it.
#[derive(Clone, Debug)]
pub struct EvmBlockHeader {
    pub number: String,
}

/// The token contracts whose address the configuration may pin.
#[derive(Clone, Copy, Debug, PartialEq, Eq, Structural)]
pub enum TokenContract {
    EthereumUsdt,
    EthereumUsdc,
    PolygonUsdt,
    PolygonUsdc,
}

/// How the payment travels.
#[derive(Clone, Debug)]
pub enum EvmPayment {
    /// ETH or MATIC in the transaction's value.
    Native,
    /// USDT or USDC (`currency`, upper case) in an ERC20 transfer, from the
    /// pinned contract where there is one.
    Token { currency: String, contract: Option<TokenContract> },
}

/// Why an EVM transfer does not settle the request.
#[derive(Clone, Debug)]
pub enum EvmFailure {
    InvalidSenderAddress,
    InvalidReceiverAddress,
    InvalidTxHash,
    InvalidAmount,
    UnsupportedNetwork,
    RpcHttpError { status: u16 },
    TxJsonParseError { error: String },
    TxRpcError { message: String },
    TxNotFound,
    SenderMismatch { actual_sender: String },
    ReceiptHttpError { status: u16 },
    ReceiptJsonParseError { error: String },
    ReceiptRpcError { message: String },
    ReceiptNotAvailable,
    TxFailedOnchain { status: String },
    FinalizedBlockHttpError { status: u16 },
    FinalizedBlockJsonParseError { error: String },
    FinalizedBlockRpcError { message: String },
    FinalizedBlockUnavailable,
    TxPending,
    TxNotFinalized { tx_block: u64, finalized_block: u64 },
    NativeNoReceiver,
    ReceiverMismatch { actual_receiver: String },
    NativeAmountMismatch { expected_wei: u128, actual_wei: u128 },
    UnsupportedCurrency { currency: String },
    TokenAmountMismatch { expected_units: u128, actual_units: u128 },
    TokenTransferLogMalformed,
    NoMatchingTransferEvent,
}

/// What the scan made of one receipt log.
#[derive(Clone, Copy, Debug, PartialEq, Eq, Structural)]
pub enum LogMatch {
    /// Not an ERC20 transfer between the expected sender and receiver.
    Skipped,
    /// A transfer between the expected parties whose data is not 32 bytes.
    Malformed,
    /// A transfer between the expected parties of another amount.
    AmountMismatch { amount: u128 },
    /// A transfer of the expected amount from a contract other than the
    /// pinned one.
    ContractMismatch { amount: u128 },
    /// The transfer that settles the request.
    Accepted { amount: u128 },
}

/// The `topics[0]` of an ERC20 `Transfer` log:
/// keccak256("Transfer(address,address,uint256)").
pub const ERC20_TRANSFER_TOPIC: &'static str = "0xddf252ad1be2c89b69c2b068fc378daa952ba7f163c4a11628f55a4df523b3ef";

// ---------------------------------------------------------------------
// The rules, stated over the request and the RPC replies.
// ---------------------------------------------------------------------

/// `s.starts_with("0x") && s.len() == len`, the length in bytes.
pub open spec fn is_hex_string_of_len(s: Seq<char>, len: nat) -> bool {
    has_hex_prefix(utf8_bytes(s)) && utf8_bytes(s).len() == len
}

pub open spec fn is_evm_address(s: Seq<char>) -> bool {
    is_hex_string_of_len(s, 42)
}

pub open spec fn is_evm_tx_hash(s: Seq<char>) -> bool {
    is_hex_string_of_len(s, 66)
}

/// The chain that a lowercase network name stands for.
pub open spec fn evm_chain_named(name: Seq<char>) -> Option<EvmChain> {
    if name == "ethereum"@ || name == "evm"@ {
        Some(EvmChain::Ethereum)
    } else if name == "sepolia"@ || name == "ethereum-sepolia"@ || name == "eth-sepolia"@ {
        Some(EvmChain::Sepolia)
    } else if name == "polygon"@ {
        Some(EvmChain::Polygon)
    } else {
        None
    }
}

/// The checks made before any RPC call, in their order.
pub open spec fn precheck_outcome(req: SettlementRequest) -> Result<EvmChain, EvmFailure> {
    if !is_evm_address(req.sender_address@) {
        Err(EvmFailure::InvalidSenderAddress)
    } else if !is_evm_address(req.receiver_address@) {
        Err(EvmFailure::InvalidReceiverAddress)
    } else if !is_evm_tx_hash(req.tx_hash@) {
        Err(EvmFailure::InvalidTxHash)
    } else if req.amount_paid.kind != AmountKind::Positive {
        Err(EvmFailure::InvalidAmount)
    } else {
        match evm_chain_named(unicode_lowercase(req.network@)) {
            Some(chain) => Ok(chain),
            None => Err(EvmFailure::UnsupportedNetwork),
        }
    }
}

/// Two texts are the same address, ignoring ASCII case.
pub open spec fn same_address(a: Seq<char>, b: Seq<char>) -> bool {
    ascii_case_eq(utf8_bytes(a), utf8_bytes(b))
}

pub open spec fn transaction_outcome(
    req: SettlementRequest,
    reply: RpcReply<EvmTransaction>,
) -> Result<EvmTransaction, EvmFailure> {
    match reply {
        RpcReply::HttpFailure { status } => Err(EvmFailure::RpcHttpError { status }),
        RpcReply::Unparsable { error } => Err(EvmFailure::TxJsonParseError { error }),
        RpcReply::RpcError { message } => Err(EvmFailure::TxRpcError { message }),
        RpcReply::Parsed(None) => Err(EvmFailure::TxNotFound),
        RpcReply::Parsed(Some(tx)) => if same_address(tx.from@, req.sender_address@) {
            Ok(tx)
        } else {
            Err(EvmFailure::SenderMismatch { actual_sender: tx.from })
        },
    }
}

/// The receipt's status, read as `u64::from_str_radix(.., 16).unwrap_or(0)`
/// after one `0x`.
pub open spec fn receipt_status(receipt: EvmReceipt) -> u64 {
    hex_u64_or_zero(strip_hex_prefix(utf8_bytes(receipt.status@)))
}

pub open spec fn receipt_outcome(reply: RpcReply<EvmReceipt>) -> Result<EvmReceipt, EvmFailure> {
    match reply {
        RpcReply::HttpFailure { status } => Err(EvmFailure::ReceiptHttpError { status }),
        RpcReply::Unparsable { error } => Err(EvmFailure::ReceiptJsonParseError { error }),
        RpcReply::RpcError { message } => Err(EvmFailure::ReceiptRpcError { message }),
        RpcReply::Parsed(None) => Err(EvmFailure::ReceiptNotAvailable),
        RpcReply::Parsed(Some(receipt)) => if receipt_status(receipt) == 1 {
            Ok(receipt)
        } else {
            Err(EvmFailure::TxFailedOnchain { status: receipt.status })
        },
    }
}

/// A block number as the node writes it: hex after one `0x`, fitting in 64
/// bits.
pub open spec fn block_number_value(text: Seq<char>) -> Option<nat> {
    parse_radix16(strip_hex_prefix(utf8_bytes(text)), u64_bound())
}

/// The transaction must sit in a block at or below the chain's latest
/// finalized block; a transaction with no block is still pending.
pub open spec fn finality_outcome(tx: EvmTransaction, reply: RpcReply<EvmBlockHeader>) -> Result<
    u64,
    EvmFailure,
> {
    match reply {
        RpcReply::HttpFailure { status } => Err(EvmFailure::FinalizedBlockHttpError { status }),
        RpcReply::Unparsable { error } => Err(EvmFailure::FinalizedBlockJsonParseError { error }),
        RpcReply::RpcError { message } => Err(EvmFailure::FinalizedBlockRpcError { message }),
        RpcReply::Parsed(None) => Err(EvmFailure::FinalizedBlockUnavailable),
        RpcReply::Parsed(Some(head)) => match block_number_value(head.number@) {
            None => Err(EvmFailure::FinalizedBlockUnavailable),
            Some(finalized) => match tx.block_number {
                None => Err(EvmFailure::TxPending),
                Some(text) => match block_number_value(text@) {
                    None => Err(EvmFailure::TxPending),
                    Some(block) => if block <= finalized {
                        Ok(block as u64)
                    } else {
                        Err(
                            EvmFailure::TxNotFinalized {
                                tx_block: block as u64,
                                finalized_block: finalized as u64,
                            },
                        )
                    },
                },
            },
        },
    }
}

/// The token contract pinned for a lowercase network and an uppercase
/// currency.
pub open spec fn token_contract_for(network: Seq<char>, currency: Seq<char>) -> Option<TokenContract> {
    if network == "ethereum"@ && currency == "USDT"@ {
        Some(TokenContract::EthereumUsdt)
    } else if network == "ethereum"@ && currency == "USDC"@ {
        Some(TokenContract::EthereumUsdc)
    } else if network == "polygon"@ && currency == "USDT"@ {
        Some(TokenContract::PolygonUsdt)
    } else if network == "polygon"@ && currency == "USDC"@ {
        Some(TokenContract::PolygonUsdc)
    } else {
        None
    }
}

pub open spec fn is_native_currency(currency: Seq<char>) -> bool {
    currency == "ETH"@ || currency == "MATIC"@
}

pub open spec fn is_token_currency(currency: Seq<char>) -> bool {
    currency == "USDT"@ || currency == "USDC"@
}

/// How a request's payment travels, by its uppercase currency.
pub open spec fn payment_outcome_holds(req: SettlementRequest, outcome: Result<EvmPayment, EvmFailure>) -> bool {
    let currency = unicode_uppercase(req.currency@);
    if is_native_currency(currency) {
        outcome matches Ok(EvmPayment::Native)
    } else if is_token_currency(currency) {
        outcome matches Ok(EvmPayment::Token { currency: c, contract }) && c@ == currency
            && contract == token_contract_for(unicode_lowercase(req.network@), currency)
    } else {
        outcome matches Err(EvmFailure::UnsupportedCurrency { currency: c }) && c@ == currency
    }
}

/// The native amount carried by a transaction, in wei.
pub open spec fn transaction_wei(tx: EvmTransaction) -> u128 {
    hex_u128_or_zero(strip_hex_prefix(utf8_bytes(tx.value@)))
}

pub open spec fn native_outcome(req: SettlementRequest, tx: EvmTransaction, expected_wei: u128) -> Result<
    u128,
    EvmFailure,
> {
    match tx.to {
        None => Err(EvmFailure::NativeNoReceiver),
        Some(to) => if !same_address(to@, req.receiver_address@) {
            Err(EvmFailure::ReceiverMismatch { actual_receiver: to })
        } else if transaction_wei(tx) != expected_wei {
            Err(
                EvmFailure::NativeAmountMismatch {
                    expected_wei,
                    actual_wei: transaction_wei(tx),
                },
            )
        } else {
            Ok(expected_wei)
        },
    }
}

/// `"0x"` followed by the last 40 bytes of a topic stripped of its `0x`
/// prefixes: the address a topic holds.
pub open spec fn topic_address(topic: Seq<char>) -> Seq<u8> {
    let t = trim_hex_prefixes(utf8_bytes(topic));
    seq![48u8, 120u8] + t.skip(t.len() - 40)
}

pub open spec fn topic_long_enough(topic: Seq<char>) -> bool {
    trim_hex_prefixes(utf8_bytes(topic)).len() >= 40
}

/// A log that has the shape of an ERC20 transfer: three topics, the first
/// the transfer topic, the other two long enough to hold an address.
pub open spec fn is_transfer_shaped(log: EvmLog) -> bool {
    &&& log.topics@.len() == 3
    &&& ascii_case_eq(utf8_bytes(log.topics@[0]@), utf8_bytes(ERC20_TRANSFER_TOPIC@))
    &&& topic_long_enough(log.topics@[1]@)
    &&& topic_long_enough(log.topics@[2]@)
}

/// A UTF-8 continuation byte, where no character starts.
pub open spec fn is_continuation(b: u8) -> bool {
    0x80 <= b < 0xC0
}

/// Cutting the last 40 bytes off a topic would split a character, which
/// makes the string slice panic.
pub open spec fn topic_cut_splits_char(topic: Seq<char>) -> bool {
    let t = trim_hex_prefixes(utf8_bytes(topic));
    is_continuation(t[t.len() - 40])
}

pub open spec fn log_cut_splits_char(log: EvmLog) -> bool {
    is_transfer_shaped(log) && (topic_cut_splits_char(log.topics@[1]@) || topic_cut_splits_char(
        log.topics@[2]@,
    ))
}

/// The amount a transfer log's data holds, once its `0x` prefixes are
/// trimmed.
pub open spec fn log_data_digits(log: EvmLog) -> Seq<u8> {
    trim_hex_prefixes(utf8_bytes(log.data@))
}

/// What the scan makes of one log.
pub open spec fn log_match(
    log: EvmLog,
    sender: Seq<char>,
    receiver: Seq<char>,
    expected_units: u128,
    contract: Seq<char>,
) -> LogMatch {
    if !is_transfer_shaped(log) {
        LogMatch::Skipped
    } else if !ascii_case_eq(topic_address(log.topics@[1]@), utf8_bytes(sender)) {
        LogMatch::Skipped
    } else if !ascii_case_eq(topic_address(log.topics@[2]@), utf8_bytes(receiver)) {
        LogMatch::Skipped
    } else if log_data_digits(log).len() != 64 {
        LogMatch::Malformed
    } else {
        let amount = hex_u128_or_zero(log_data_digits(log));
        if amount != expected_units {
            LogMatch::AmountMismatch { amount }
        } else if contract.len() > 0 && !same_address(log.address@, contract) {
            LogMatch::ContractMismatch { amount }
        } else {
            LogMatch::Accepted { amount }
        }
    }
}

/// The matches of the first `n` logs, up to and including the first
/// accepted one.
pub open spec fn scan_prefix(
    logs: Seq<EvmLog>,
    n: int,
    sender: Seq<char>,
    receiver: Seq<char>,
    expected_units: u128,
    contract: Seq<char>,
) -> Seq<LogMatch>
    decreases n,
{
    if n <= 0 {
        Seq::empty()
    } else {
        let before = scan_prefix(logs, n - 1, sender, receiver, expected_units, contract);
        if before.len() > 0 && before.last() is Accepted {
            before
        } else {
            before.push(log_match(logs[n - 1], sender, receiver, expected_units, contract))
        }
    }
}

/// The scan reaches log `i` only if no earlier log was accepted; it panics
/// there if cutting the log's topics splits a character.
pub open spec fn scan_panics(
    logs: Seq<EvmLog>,
    sender: Seq<char>,
    receiver: Seq<char>,
    expected_units: u128,
    contract: Seq<char>,
) -> bool {
    exists|i: int|
        0 <= i < logs.len() && log_cut_splits_char(#[trigger] logs[i]) && forall|j: int|
            0 <= j < i ==> !(log_match(logs[j], sender, receiver, expected_units, contract) is Accepted)
}

/// The amount of the last mismatching transfer among the matches.
pub open spec fn last_amount_mismatch(trace: Seq<LogMatch>) -> Option<u128>
    decreases trace.len(),
{
    if trace.len() == 0 {
        None
    } else {
        match trace.last() {
            LogMatch::AmountMismatch { amount } => Some(amount),
            _ => last_amount_mismatch(trace.drop_last()),
        }
    }
}

pub open spec fn parties_matched(m: LogMatch) -> bool {
    !(m is Skipped)
}

/// The verdict of a scan whose matches are `trace`.
pub open spec fn scan_verdict(trace: Seq<LogMatch>, expected_units: u128) -> Result<u128, EvmFailure> {
    if trace.len() > 0 && trace.last() is Accepted {
        Ok(expected_units)
    } else {
        match last_amount_mismatch(trace) {
            Some(actual) => Err(
                EvmFailure::TokenAmountMismatch { expected_units, actual_units: actual },
            ),
            None => if exists|i: int| 0 <= i < trace.len() && parties_matched(#[trigger] trace[i]) {
                Err(EvmFailure::TokenTransferLogMalformed)
            } else {
                Err(EvmFailure::NoMatchingTransferEvent)
            },
        }
    }
}

/// The outcome of scanning a receipt's logs.
pub struct TransferScan {
    /// What was made of each log the scan looked at, in order.
    pub trace: Vec<LogMatch>,
    /// `Ok(units)` when a log settles the request.
    pub verdict: Result<u128, EvmFailure>,
}

// ---------------------------------------------------------------------
// The stages.
// ---------------------------------------------------------------------

impl EvmChain {
    /// The environment variable that names the chain's RPC endpoint.
    pub fn rpc_url_variable(&self) -> (name: &'static str)
        ensures
            name@ == match self {
                EvmChain::Ethereum => "ETHEREUM_RPC_URL"@,
                EvmChain::Sepolia => "SEPOLIA_RPC_URL"@,
                EvmChain::Polygon => "POLYGON_RPC_URL"@,
            },
    {
        match self {
            EvmChain::Ethereum => "ETHEREUM_RPC_URL",
            EvmChain::Sepolia => "SEPOLIA_RPC_URL",
            EvmChain::Polygon => "POLYGON_RPC_URL",
        }
    }

    /// The endpoint used when the variable is not set: a public Ethereum
    /// mainnet node, a public Sepolia testnet node, Polygon's public node.
    pub fn default_rpc_url(&self) -> (url: &'static str)
        ensures
            url@ == match self {
                EvmChain::Ethereum => "https://ethereum-rpc.publicnode.com"@,
                EvmChain::Sepolia => "https://ethereum-sepolia-rpc.publicnode.com"@,
                EvmChain::Polygon => "https://polygon-rpc.com"@,
            },
    {
        match self {
            EvmChain::Ethereum => "https://ethereum-rpc.publicnode.com",
            EvmChain::Sepolia => "https://ethereum-sepolia-rpc.publicnode.com",
            EvmChain::Polygon => "https://polygon-rpc.com",
        }
    }
}

/// The environment variable that pins a contract's address.
pub open spec fn contract_variable(contract: TokenContract) -> Seq<char> {
    match contract {
        TokenContract::EthereumUsdt => "ETHEREUM_USDT_CONTRACT"@,
        TokenContract::EthereumUsdc => "ETHEREUM_USDC_CONTRACT"@,
        TokenContract::PolygonUsdt => "POLYGON_USDT_CONTRACT"@,
        TokenContract::PolygonUsdc => "POLYGON_USDC_CONTRACT"@,
    }
}

impl TokenContract {
    /// The environment variable that pins the contract's address.
    pub fn variable(&self) -> (name: &'static str)
        ensures
            name@ == contract_variable(*self),
    {
        match self {
            TokenContract::EthereumUsdt => "ETHEREUM_USDT_CONTRACT",
            TokenContract::EthereumUsdc => "ETHEREUM_USDC_CONTRACT",
            TokenContract::PolygonUsdt => "POLYGON_USDT_CONTRACT",
            TokenContract::PolygonUsdc => "POLYGON_USDC_CONTRACT",
        }
    }
}

impl EvmFailure {
    /// The reason code that the audit trail records.
    pub fn reason(&self) -> (code: &'static str)
        ensures
            code@ == match self {
                EvmFailure::InvalidSenderAddress => "INVALID_SENDER_ADDRESS"@,
                EvmFailure::InvalidReceiverAddress => "INVALID_RECEIVER_ADDRESS"@,
                EvmFailure::InvalidTxHash => "INVALID_TX_HASH"@,
                EvmFailure::InvalidAmount => "INVALID_AMOUNT"@,
                EvmFailure::UnsupportedNetwork => "UNSUPPORTED_NETWORK"@,
                EvmFailure::RpcHttpError { .. } => "RPC_HTTP_ERROR"@,
                EvmFailure::TxJsonParseError { .. } => "TX_JSON_PARSE_ERROR"@,
                EvmFailure::TxRpcError { .. } => "TX_RPC_ERROR"@,
                EvmFailure::TxNotFound => "TX_NOT_FOUND"@,
                EvmFailure::SenderMismatch { .. } => "SENDER_MISMATCH"@,
                EvmFailure::ReceiptHttpError { .. } => "RECEIPT_HTTP_ERROR"@,
                EvmFailure::ReceiptJsonParseError { .. } => "RECEIPT_JSON_PARSE_ERROR"@,
                EvmFailure::ReceiptRpcError { .. } => "RECEIPT_RPC_ERROR"@,
                EvmFailure::ReceiptNotAvailable => "RECEIPT_NOT_AVAILABLE"@,
                EvmFailure::TxFailedOnchain { .. } => "TX_FAILED_ONCHAIN"@,
                EvmFailure::FinalizedBlockHttpError { .. } => "FINALIZED_BLOCK_HTTP_ERROR"@,
                EvmFailure::FinalizedBlockJsonParseError { .. } => "FINALIZED_BLOCK_JSON_PARSE_ERROR"@,
                EvmFailure::FinalizedBlockRpcError { .. } => "FINALIZED_BLOCK_RPC_ERROR"@,
                EvmFailure::FinalizedBlockUnavailable => "FINALIZED_BLOCK_UNAVAILABLE"@,
                EvmFailure::TxPending => "TX_PENDING"@,
                EvmFailure::TxNotFinalized { .. } => "TX_NOT_FINALIZED"@,
                EvmFailure::NativeNoReceiver => "NATIVE_NO_RECEIVER"@,
                EvmFailure::ReceiverMismatch { .. } => "RECEIVER_MISMATCH"@,
                EvmFailure::NativeAmountMismatch { .. } => "NATIVE_AMOUNT_MISMATCH"@,
                EvmFailure::UnsupportedCurrency { .. } => "UNSUPPORTED_CURRENCY"@,
                EvmFailure::TokenAmountMismatch { .. } => "TOKEN_AMOUNT_MISMATCH"@,
                EvmFailure::TokenTransferLogMalformed => "TOKEN_TRANSFER_LOG_MALFORMED"@,
                EvmFailure::NoMatchingTransferEvent => "NO_MATCHING_TRANSFER_EVENT"@,
            },
    {
        match self {
            EvmFailure::InvalidSenderAddress => "INVALID_SENDER_ADDRESS",
            EvmFailure::InvalidReceiverAddress => "INVALID_RECEIVER_ADDRESS",
            EvmFailure::InvalidTxHash => "INVALID_TX_HASH",
            EvmFailure::InvalidAmount => "INVALID_AMOUNT",
            EvmFailure::UnsupportedNetwork => "UNSUPPORTED_NETWORK",
            EvmFailure::RpcHttpError { .. } => "RPC_HTTP_ERROR",
            EvmFailure::TxJsonParseError { .. } => "TX_JSON_PARSE_ERROR",
            EvmFailure::TxRpcError { .. } => "TX_RPC_ERROR",
            EvmFailure::TxNotFound => "TX_NOT_FOUND",
            EvmFailure::SenderMismatch { .. } => "SENDER_MISMATCH",
            EvmFailure::ReceiptHttpError { .. } => "RECEIPT_HTTP_ERROR",
            EvmFailure::ReceiptJsonParseError { .. } => "RECEIPT_JSON_PARSE_ERROR",
            EvmFailure::ReceiptRpcError { .. } => "RECEIPT_RPC_ERROR",
            EvmFailure::ReceiptNotAvailable => "RECEIPT_NOT_AVAILABLE",
            EvmFailure::TxFailedOnchain { .. } => "TX_FAILED_ONCHAIN",
            EvmFailure::FinalizedBlockHttpError { .. } => "FINALIZED_BLOCK_HTTP_ERROR",
            EvmFailure::FinalizedBlockJsonParseError { .. } => "FINALIZED_BLOCK_JSON_PARSE_ERROR",
            EvmFailure::FinalizedBlockRpcError { .. } => "FINALIZED_BLOCK_RPC_ERROR",
            EvmFailure::FinalizedBlockUnavailable => "FINALIZED_BLOCK_UNAVAILABLE",
            EvmFailure::TxPending => "TX_PENDING",
            EvmFailure::TxNotFinalized { .. } => "TX_NOT_FINALIZED",
            EvmFailure::NativeNoReceiver => "NATIVE_NO_RECEIVER",
            EvmFailure::ReceiverMismatch { .. } => "RECEIVER_MISMATCH",
            EvmFailure::NativeAmountMismatch { .. } => "NATIVE_AMOUNT_MISMATCH",
            EvmFailure::UnsupportedCurrency { .. } => "UNSUPPORTED_CURRENCY",
            EvmFailure::TokenAmountMismatch { .. } => "TOKEN_AMOUNT_MISMATCH",
            EvmFailure::TokenTransferLogMalformed => "TOKEN_TRANSFER_LOG_MALFORMED",
            EvmFailure::NoMatchingTransferEvent => "NO_MATCHING_TRANSFER_EVENT",
        }
    }
}

fn is_hex_string_with_len(s: &String, len: usize) -> (ok: bool)
    ensures
        ok == is_hex_string_of_len(s@, len as nat),
{
    let b = bytes_of(s);
    b.len() >= 2 && b[0] == 48 && b[1] == 120 && b.len() == len
}

/// The chain a lowercase network name stands for.
pub fn evm_chain_for(network: &str) -> (chain: Option<EvmChain>)
    ensures
        chain == evm_chain_named(network@),
{
    if same_text(network, "ethereum") || same_text(network, "evm") {
        Some(EvmChain::Ethereum)
    } else if same_text(network, "sepolia") || same_text(network, "ethereum-sepolia") || same_text(
        network,
        "eth-sepolia",
    ) {
        Some(EvmChain::Sepolia)
    } else if same_text(network, "polygon") {
        Some(EvmChain::Polygon)
    } else {
        None
    }
}

/// The checks before any RPC call: the shape of both addresses and of the
/// transaction hash, the amount, and the network, which picks the chain.
pub fn precheck(req: &SettlementRequest) -> (outcome: Result<EvmChain, EvmFailure>)
    ensures
        outcome == precheck_outcome(*req),
{
    if !is_hex_string_with_len(&req.sender_address, 42) {
        return Err(EvmFailure::InvalidSenderAddress);
    }
    if !is_hex_string_with_len(&req.receiver_address, 42) {
        return Err(EvmFailure::InvalidReceiverAddress);
    }
    if !is_hex_string_with_len(&req.tx_hash, 66) {
        return Err(EvmFailure::InvalidTxHash);
    }
    if req.amount_paid.kind != AmountKind::Positive {
        return Err(EvmFailure::InvalidAmount);
    }
    let network = to_lowercase(req.network.as_str());
    match evm_chain_for(network.as_str()) {
        Some(chain) => Ok(chain),
        None => Err(EvmFailure::UnsupportedNetwork),
    }
}

fn same_address_text(a: &String, b: &String) -> (same: bool)
    ensures
        same == same_address(a@, b@),
{
    eq_ignore_ascii_case(bytes_of(a), bytes_of(b))
}

/// Reads the `eth_getTransactionByHash` reply: the transaction must exist and
/// come from the expected sender.
pub fn check_transaction(req: &SettlementRequest, reply: RpcReply<EvmTransaction>) -> (outcome: Result<
    EvmTransaction,
    EvmFailure,
>)
    ensures
        outcome == transaction_outcome(*req, reply),
{
    match reply {
        RpcReply::HttpFailure { status } => Err(EvmFailure::RpcHttpError { status }),
        RpcReply::Unparsable { error } => Err(EvmFailure::TxJsonParseError { error }),
        RpcReply::RpcError { message } => Err(EvmFailure::TxRpcError { message }),
        RpcReply::Parsed(None) => Err(EvmFailure::TxNotFound),
        RpcReply::Parsed(Some(tx)) => {
            if same_address_text(&tx.from, &req.sender_address) {
                Ok(tx)
            } else {
                Err(EvmFailure::SenderMismatch { actual_sender: tx.from })
            }
        },
    }
}

/// Reads the `eth_getTransactionReceipt` reply: the receipt must exist and
/// its status be 1.
pub fn check_receipt(reply: RpcReply<EvmReceipt>) -> (outcome: Result<EvmReceipt, EvmFailure>)
    ensures
        outcome == receipt_outcome(reply),
{
    match reply {
        RpcReply::HttpFailure { status } => Err(EvmFailure::ReceiptHttpError { status }),
        RpcReply::Unparsable { error } => Err(EvmFailure::ReceiptJsonParseError { error }),
        RpcReply::RpcError { message } => Err(EvmFailure::ReceiptRpcError { message }),
        RpcReply::Parsed(None) => Err(EvmFailure::ReceiptNotAvailable),
        RpcReply::Parsed(Some(receipt)) => {
            let b = bytes_of(&receipt.status);
            let start = strip_hex_prefix_start(b);
            let digits = vstd::slice::slice_subrange(b, start, b.len());
            assert(digits@ =~= b@.skip(start as int));
            if hex_to_u64_or_zero(digits) == 1 {
                Ok(receipt)
            } else {
                Err(EvmFailure::TxFailedOnchain { status: receipt.status })
            }
        },
    }
}

fn block_number_of(text: &String) -> (number: Option<u64>)
    ensures
        match number {
            Some(n) => block_number_value(text@) == Some(n as nat),
            None => block_number_value(text@) is None,
        },
{
    let b = bytes_of(text);
    let start = strip_hex_prefix_start(b);
    let digits = vstd::slice::slice_subrange(b, start, b.len());
    assert(digits@ =~= b@.skip(start as int));
    parse_hex_u64(digits)
}

/// Reads the `eth_getBlockByNumber("finalized")` reply: the transaction's
/// block must be at or below the finalized one.  Gives the transaction's
/// block.
pub fn check_finality(tx: &EvmTransaction, reply: &RpcReply<EvmBlockHeader>) -> (outcome: Result<
    u64,
    EvmFailure,
>)
    ensures
        outcome == finality_outcome(*tx, *reply),
{
    let head = match reply {
        RpcReply::HttpFailure { status } => {
            return Err(EvmFailure::FinalizedBlockHttpError { status: *status });
        },
        RpcReply::Unparsable { error } => {
            return Err(EvmFailure::FinalizedBlockJsonParseError { error: error.clone() });
        },
        RpcReply::RpcError { message } => {
            return Err(EvmFailure::FinalizedBlockRpcError { message: message.clone() });
        },
        RpcReply::Parsed(None) => {
            return Err(EvmFailure::FinalizedBlockUnavailable);
        },
        RpcReply::Parsed(Some(head)) => head,
    };
    let finalized = match block_number_of(&head.number) {
        None => {
            return Err(EvmFailure::FinalizedBlockUnavailable);
        },
        Some(n) => n,
    };
    let block = match &tx.block_number {
        None => {
            return Err(EvmFailure::TxPending);
        },
        Some(text) => match block_number_of(text) {
            None => {
                return Err(EvmFailure::TxPending);
            },
            Some(n) => n,
        },
    };
    if block <= finalized {
        Ok(block)
    } else {
        Err(EvmFailure::TxNotFinalized { tx_block: block, finalized_block: finalized })
    }
}

/// How the payment travels, given the uppercase currency and the lowercase
/// network: ETH and MATIC natively, USDT and USDC by ERC20 transfer,
/// anything else not at all.
pub fn payment_for(currency: String, network: &str) -> (outcome: Result<EvmPayment, EvmFailure>)
    ensures
        if is_native_currency(currency@) {
            outcome matches Ok(EvmPayment::Native)
        } else if is_token_currency(currency@) {
            outcome matches Ok(EvmPayment::Token { currency: c, contract }) && c@ == currency@
                && contract == token_contract_for(network@, currency@)
        } else {
            outcome matches Err(EvmFailure::UnsupportedCurrency { currency: c }) && c@ == currency@
        },
{
    if same_text(currency.as_str(), "ETH") || same_text(currency.as_str(), "MATIC") {
        return Ok(EvmPayment::Native);
    }
    if !same_text(currency.as_str(), "USDT") && !same_text(currency.as_str(), "USDC") {
        return Err(EvmFailure::UnsupportedCurrency { currency });
    }
    let ethereum = same_text(network, "ethereum");
    let polygon = same_text(network, "polygon");
    let usdt = same_text(currency.as_str(), "USDT");
    let contract = if ethereum && usdt {
        Some(TokenContract::EthereumUsdt)
    } else if ethereum {
        Some(TokenContract::EthereumUsdc)
    } else if polygon && usdt {
        Some(TokenContract::PolygonUsdt)
    } else if polygon {
        Some(TokenContract::PolygonUsdc)
    } else {
        None
    };
    Ok(EvmPayment::Token { currency, contract })
}

/// How the request's payment travels, by its currency in upper case.
pub fn payment_kind(req: &SettlementRequest) -> (outcome: Result<EvmPayment, EvmFailure>)
    ensures
        payment_outcome_holds(*req, outcome),
{
    let currency = to_uppercase(req.currency.as_str());
    let network = to_lowercase(req.network.as_str());
    payment_for(currency, network.as_str())
}

/// A native transfer: the transaction must go to the expected receiver and
/// carry exactly `expected_wei`.
pub fn check_native(req: &SettlementRequest, tx: &EvmTransaction, expected_wei: u128) -> (outcome:
    Result<u128, EvmFailure>)
    ensures
        outcome == native_outcome(*req, *tx, expected_wei),
{
    let to = match &tx.to {
        None => {
            return Err(EvmFailure::NativeNoReceiver);
        },
        Some(to) => to,
    };
    if !same_address_text(to, &req.receiver_address) {
        return Err(EvmFailure::ReceiverMismatch { actual_receiver: to.clone() });
    }
    let b = bytes_of(&tx.value);
    let start = strip_hex_prefix_start(b);
    let digits = vstd::slice::slice_subrange(b, start, b.len());
    assert(digits@ =~= b@.skip(start as int));
    let actual_wei = hex_to_u128_or_zero(digits);
    if actual_wei != expected_wei {
        return Err(EvmFailure::NativeAmountMismatch { expected_wei, actual_wei });
    }
    Ok(expected_wei)
}

fn topic_digits_start(topic: &String) -> (start: usize)
    ensures
        start <= utf8_bytes(topic@).len(),
        utf8_bytes(topic@).skip(start as int) == trim_hex_prefixes(utf8_bytes(topic@)),
{
    trim_hex_prefixes_start(bytes_of(topic))
}

fn is_topic_long_enough(topic: &String) -> (long: bool)
    ensures
        long == topic_long_enough(topic@),
{
    let b = bytes_of(topic);
    let start = topic_digits_start(topic);
    b.len() - start >= 40
}

/// Whether the address held by a topic is `party`, ignoring ASCII case.
fn topic_names(topic: &String, party: &[u8]) -> (same: bool)
    requires
        topic_long_enough(topic@),
    ensures
        same == ascii_case_eq(topic_address(topic@), party@),
{
    let b = bytes_of(topic);
    let start = topic_digits_start(topic);
    let ghost t = trim_hex_prefixes(utf8_bytes(topic@));
    assert(t.skip(t.len() - 40) =~= b@.subrange(b@.len() - 40, b@.len() as int));
    let mut address: Vec<u8> = Vec::new();
    address.push(48);
    address.push(120);
    let first = b.len() - 40;
    let mut k: usize = first;
    while k < b.len()
        invariant
            first <= k <= b@.len(),
            first == b@.len() - 40,
            address@ =~= seq![48u8, 120u8] + b@.subrange(first as int, k as int),
        decreases b@.len() - k,
    {
        address.push(b[k]);
        k = k + 1;
    }
    assert(address@ =~= topic_address(topic@));
    eq_ignore_ascii_case(address.as_slice(), party)
}

fn topic_cut_splits(topic: &String) -> (splits: bool)
    requires
        topic_long_enough(topic@),
    ensures
        splits == topic_cut_splits_char(topic@),
{
    let b = bytes_of(topic);
    let start = topic_digits_start(topic);
    let ghost t = trim_hex_prefixes(utf8_bytes(topic@));
    assert(t[t.len() - 40] == b@[b@.len() - 40]);
    let c = b[b.len() - 40];
    0x80 <= c && c < 0xC0
}

fn is_transfer_log(log: &EvmLog) -> (shaped: bool)
    ensures
        shaped == is_transfer_shaped(*log),
{
    log.topics.len() == 3 && eq_ignore_ascii_case(
        bytes_of(&log.topics[0]),
        ERC20_TRANSFER_TOPIC.as_bytes(),
    ) && is_topic_long_enough(&log.topics[1]) && is_topic_long_enough(&log.topics[2])
}

/// Whether scanning this log would cut one of its topics inside a character.
pub fn log_cut_splits(log: &EvmLog) -> (splits: bool)
    ensures
        splits == log_cut_splits_char(*log),
{
    is_transfer_log(log) && (topic_cut_splits(&log.topics[1]) || topic_cut_splits(&log.topics[2]))
}

/// What the scan makes of one log: is it the expected transfer, between the
/// expected parties, of the expected amount, from the pinned contract (when
/// `contract` is not empty)?
pub fn classify_log(
    log: &EvmLog,
    sender: &String,
    receiver: &String,
    expected_units: u128,
    contract: &str,
) -> (m: LogMatch)
    ensures
        m == log_match(*log, sender@, receiver@, expected_units, contract@),
{
    if !is_transfer_log(log) {
        return LogMatch::Skipped;
    }
    if !topic_names(&log.topics[1], bytes_of(sender)) {
        return LogMatch::Skipped;
    }
    if !topic_names(&log.topics[2], bytes_of(receiver)) {
        return LogMatch::Skipped;
    }
    let b = bytes_of(&log.data);
    let start = trim_hex_prefixes_start(b);
    if b.len() - start != 64 {
        return LogMatch::Malformed;
    }
    let digits = vstd::slice::slice_subrange(b, start, b.len());
    assert(digits@ =~= b@.skip(start as int));
    let amount = hex_to_u128_or_zero(digits);
    if amount != expected_units {
        return LogMatch::AmountMismatch { amount };
    }
    if !contract.is_empty() && !eq_ignore_ascii_case(bytes_of(&log.address), contract.as_bytes()) {
        return LogMatch::ContractMismatch { amount };
    }
    LogMatch::Accepted { amount }
}

proof fn lemma_scan_prefix_settled(
    logs: Seq<EvmLog>,
    n: int,
    m: int,
    sender: Seq<char>,
    receiver: Seq<char>,
    expected_units: u128,
    contract: Seq<char>,
)
    requires
        0 <= n <= m,
        scan_prefix(logs, n, sender, receiver, expected_units, contract).len() > 0,
        scan_prefix(logs, n, sender, receiver, expected_units, contract).last() is Accepted,
    ensures
        scan_prefix(logs, m, sender, receiver, expected_units, contract) == scan_prefix(
            logs,
            n,
            sender,
            receiver,
            expected_units,
            contract,
        ),
    decreases m - n,
{
    if m > n {
        lemma_scan_prefix_settled(logs, n, m - 1, sender, receiver, expected_units, contract);
    }
}

/// Whether scanning the receipt's logs would panic: a log it reaches holds
/// a topic whose last 40 bytes start inside a character.
pub fn scan_would_panic(
    req: &SettlementRequest,
    receipt: &EvmReceipt,
    expected_units: u128,
    contract: &str,
) -> (panics: bool)
    ensures
        panics == scan_panics(
            receipt.logs@,
            req.sender_address@,
            req.receiver_address@,
            expected_units,
            contract@,
        ),
{
    let ghost logs = receipt.logs@;
    let ghost sender = req.sender_address@;
    let ghost receiver = req.receiver_address@;
    let mut i: usize = 0;
    while i < receipt.logs.len()
        invariant
            logs == receipt.logs@,
            sender == req.sender_address@,
            receiver == req.receiver_address@,
            i <= logs.len(),
            forall|j: int| 0 <= j < i ==> !log_cut_splits_char(#[trigger] logs[j]),
            forall|j: int|
                0 <= j < i ==> !(log_match(logs[j], sender, receiver, expected_units, contract@) is Accepted),
        decreases logs.len() - i,
    {
        if log_cut_splits(&receipt.logs[i]) {
            assert(log_cut_splits_char(logs[i as int]));
            return true;
        }
        let m = classify_log(&receipt.logs[i], &req.sender_address, &req.receiver_address, expected_units, contract);
        if let LogMatch::Accepted { .. } = m {
            assert forall|k: int|
                0 <= k < logs.len() && log_cut_splits_char(#[trigger] logs[k]) implies !(forall|j: int|
                0 <= j < k ==> !(log_match(logs[j], sender, receiver, expected_units, contract@) is Accepted)) by {
                assert(k > i);
                assert(log_match(logs[i as int], sender, receiver, expected_units, contract@) is Accepted);
            }
            return false;
        }
        i = i + 1;
    }
    false
}

/// Scans the receipt's logs in order for the ERC20 transfer that settles
/// the request, stopping at the first; when there is none, reports the last
/// amount mismatch, else a transfer between the parties that could not be
/// read, else that there was no such transfer.
pub fn scan_transfer_logs(
    req: &SettlementRequest,
    receipt: &EvmReceipt,
    expected_units: u128,
    contract: &str,
) -> (scan: TransferScan)
    requires
        !scan_panics(
            receipt.logs@,
            req.sender_address@,
            req.receiver_address@,
            expected_units,
            contract@,
        ),
    ensures
        scan.trace@ == scan_prefix(
            receipt.logs@,
            receipt.logs@.len() as int,
            req.sender_address@,
            req.receiver_address@,
            expected_units,
            contract@,
        ),
        scan.verdict == scan_verdict(scan.trace@, expected_units),
{
    let ghost logs = receipt.logs@;
    let ghost sender = req.sender_address@;
    let ghost receiver = req.receiver_address@;
    let mut trace: Vec<LogMatch> = Vec::new();
    let mut last_mismatch: Option<u128> = None;
    let mut saw_parties = false;
    let mut i: usize = 0;
    while i < receipt.logs.len()
        invariant
            logs == receipt.logs@,
            sender == req.sender_address@,
            receiver == req.receiver_address@,
            i <= logs.len(),
            trace@ == scan_prefix(logs, i as int, sender, receiver, expected_units, contract@),
            !(trace@.len() > 0 && trace@.last() is Accepted),
            last_mismatch == last_amount_mismatch(trace@),
            saw_parties == exists|j: int| 0 <= j < trace@.len() && parties_matched(#[trigger] trace@[j]),
        decreases logs.len() - i,
    {
        let m = classify_log(
            &receipt.logs[i],
            &req.sender_address,
            &req.receiver_address,
            expected_units,
            contract,
        );
        let ghost before = trace@;
        trace.push(m);
        assert(trace@.drop_last() =~= before);
        if let LogMatch::Accepted { .. } = m {
            proof {
                lemma_scan_prefix_settled(
                    logs,
                    i + 1,
                    logs.len() as int,
                    sender,
                    receiver,
                    expected_units,
                    contract@,
                );
            }
            return TransferScan { trace, verdict: Ok(expected_units) };
        }
        match m {
            LogMatch::AmountMismatch { amount } => {
                last_mismatch = Some(amount);
            },
            _ => {},
        }
        let matched = match m {
            LogMatch::Skipped => false,
            _ => true,
        };
        if matched {
            saw_parties = true;
            assert(parties_matched(trace@[before.len() as int]));
        } else {
            assert forall|j: int| 0 <= j < trace@.len() && parties_matched(#[trigger] trace@[j]) implies 0 <= j < before.len() && parties_matched(before[j]) by {
                assert(j != before.len());
            }
        }
        i = i + 1;
    }
    let verdict = match last_mismatch {
        Some(actual) => Err(
            EvmFailure::TokenAmountMismatch { expected_units, actual_units: actual },
        ),
        None => if saw_parties {
            Err(EvmFailure::TokenTransferLogMalformed)
        } else {
            Err(EvmFailure::NoMatchingTransferEvent)
        },
    };
    TransferScan { trace, verdict }
}

// ---------------------------------------------------------------------
// What a settled EVM payment guarantees.
// ---------------------------------------------------------------------

proof fn lemma_scan_prefix_aligned(
    logs: Seq<EvmLog>,
    n: int,
    sender: Seq<char>,
    receiver: Seq<char>,
    expected_units: u128,
    contract: Seq<char>,
)
    requires
        0 <= n <= logs.len(),
    ensures
        scan_prefix(logs, n, sender, receiver, expected_units, contract).len() <= n,
        scan_prefix(logs, n, sender, receiver, expected_units, contract).len() == n || scan_prefix(
            logs,
            n,
            sender,
            receiver,
            expected_units,
            contract,
        ).last() is Accepted,
        forall|j: int|
            0 <= j < scan_prefix(logs, n, sender, receiver, expected_units, contract).len()
                ==> #[trigger] scan_prefix(logs, n, sender, receiver, expected_units, contract)[j]
                == log_match(logs[j], sender, receiver, expected_units, contract),
    decreases n,
{
    if n > 0 {
        lemma_scan_prefix_aligned(logs, n - 1, sender, receiver, expected_units, contract);
    }
}

/// A receipt log that is an ERC20 `Transfer` from the sender to the
/// receiver of exactly `units`, issued by `contract` when it is not empty.
pub open spec fn is_settling_transfer(
    log: EvmLog,
    sender: Seq<char>,
    receiver: Seq<char>,
    units: u128,
    contract: Seq<char>,
) -> bool {
    &&& is_transfer_shaped(log)
    &&& ascii_case_eq(topic_address(log.topics@[1]@), utf8_bytes(sender))
    &&& ascii_case_eq(topic_address(log.topics@[2]@), utf8_bytes(receiver))
    &&& log_data_digits(log).len() == 64
    &&& hex_u128_or_zero(log_data_digits(log)) == units
    &&& (contract.len() == 0 || same_address(log.address@, contract))
}

/// A token payment settles only on a receipt log that is an ERC20
/// `Transfer` from the sender to the receiver of exactly the expected
/// units, issued by the pinned contract when one is pinned.
pub proof fn lemma_token_settlement_is_matching_transfer(
    logs: Seq<EvmLog>,
    sender: Seq<char>,
    receiver: Seq<char>,
    expected_units: u128,
    contract: Seq<char>,
)
    requires
        scan_verdict(
            scan_prefix(logs, logs.len() as int, sender, receiver, expected_units, contract),
            expected_units,
        ) is Ok,
    ensures
        exists|i: int|
            0 <= i < logs.len() && is_settling_transfer(
                #[trigger] logs[i],
                sender,
                receiver,
                expected_units,
                contract,
            ),
{
    let trace = scan_prefix(logs, logs.len() as int, sender, receiver, expected_units, contract);
    lemma_scan_prefix_aligned(logs, logs.len() as int, sender, receiver, expected_units, contract);
    let i = trace.len() - 1;
    assert(trace[i] == log_match(logs[i], sender, receiver, expected_units, contract));
}

// ---------------------------------------------------------------------
// The verdict, and the order of the stages.
// ---------------------------------------------------------------------

/// A payment that settles the request.
#[derive(Clone, Debug)]
pub enum EvmSettlement {
    /// `wei` of ETH or MATIC in the transaction's value.
    Native { wei: u128 },
    /// `units` of the token `currency` in an ERC20 transfer.
    Token { currency: String, units: u128 },
}

/// How a verification ended.
#[derive(Clone, Debug)]
pub enum EvmVerdict {
    /// The chain shows the payment, final.
    Settled(EvmSettlement),
    /// The verification ran; the chain does not show the payment.
    Rejected(EvmFailure),
    /// The verification could not be completed: a node did not answer in a
    /// usable way.
    Incomplete(EvmFailure),
}

/// The failures that mean the verification could not be completed: the node
/// answered with an HTTP error, an unreadable body or a JSON-RPC error, or
/// could not name its finalized block.
pub open spec fn is_incomplete(failure: EvmFailure) -> bool {
    match failure {
        EvmFailure::RpcHttpError { .. } => true,
        EvmFailure::TxJsonParseError { .. } => true,
        EvmFailure::TxRpcError { .. } => true,
        EvmFailure::ReceiptHttpError { .. } => true,
        EvmFailure::ReceiptJsonParseError { .. } => true,
        EvmFailure::ReceiptRpcError { .. } => true,
        EvmFailure::FinalizedBlockHttpError { .. } => true,
        EvmFailure::FinalizedBlockJsonParseError { .. } => true,
        EvmFailure::FinalizedBlockRpcError { .. } => true,
        EvmFailure::FinalizedBlockUnavailable => true,
        _ => false,
    }
}

pub open spec fn failure_verdict(failure: EvmFailure) -> EvmVerdict {
    if is_incomplete(failure) {
        EvmVerdict::Incomplete(failure)
    } else {
        EvmVerdict::Rejected(failure)
    }
}

/// The verdict a failure gives.
pub fn verdict_for_failure(failure: EvmFailure) -> (verdict: EvmVerdict)
    ensures
        verdict == failure_verdict(failure),
{
    let incomplete = match &failure {
        EvmFailure::RpcHttpError { .. } => true,
        EvmFailure::TxJsonParseError { .. } => true,
        EvmFailure::TxRpcError { .. } => true,
        EvmFailure::ReceiptHttpError { .. } => true,
        EvmFailure::ReceiptJsonParseError { .. } => true,
        EvmFailure::ReceiptRpcError { .. } => true,
        EvmFailure::FinalizedBlockHttpError { .. } => true,
        EvmFailure::FinalizedBlockJsonParseError { .. } => true,
        EvmFailure::FinalizedBlockRpcError { .. } => true,
        EvmFailure::FinalizedBlockUnavailable => true,
        _ => false,
    };
    if incomplete {
        EvmVerdict::Incomplete(failure)
    } else {
        EvmVerdict::Rejected(failure)
    }
}

impl EvmVerdict {
    /// The verifier's answer: `Some(true)` settles, `Some(false)` does not,
    /// `None` means the verification could not be completed.
    pub fn answer(&self) -> (answer: Option<bool>)
        ensures
            answer == match self {
                EvmVerdict::Settled(_) => Some(true),
                EvmVerdict::Rejected(_) => Some(false),
                EvmVerdict::Incomplete(_) => None::<bool>,
            },
    {
        match self {
            EvmVerdict::Settled(_) => Some(true),
            EvmVerdict::Rejected(_) => Some(false),
            EvmVerdict::Incomplete(_) => None,
        }
    }
}

/// The amounts the request declares, in base units: wei for a native
/// payment, and token units (six decimals) for USDT and USDC.
#[derive(Clone, Copy, Debug)]
pub struct ExpectedUnits {
    pub wei: u128,
    pub token_units: u128,
}

/// Where a verification stands: what it waits for, and what it holds.
#[derive(Clone, Debug)]
pub enum EvmState {
    Start,
    AwaitingTransaction { chain: EvmChain },
    AwaitingReceipt { chain: EvmChain, tx: EvmTransaction },
    AwaitingFinalizedBlock { tx: EvmTransaction, receipt: EvmReceipt },
    AwaitingTokenContract {
        tx: EvmTransaction,
        finalized: EvmBlockHeader,
        receipt: EvmReceipt,
        currency: String,
    },
    Done,
}

/// What the application brings back.
#[derive(Clone, Debug)]
pub enum EvmEvent {
    Begin,
    Transaction(RpcReply<EvmTransaction>),
    Receipt(RpcReply<EvmReceipt>),
    FinalizedBlock(RpcReply<EvmBlockHeader>),
    /// The value of the pinned contract's variable, empty when it is not set.
    TokenContract(String),
}

/// What the application is to do next.
#[derive(Clone, Debug)]
pub enum EvmAction {
    /// `eth_getTransactionByHash` on the chain.
    FetchTransaction(EvmChain),
    /// `eth_getTransactionReceipt` on the chain.
    FetchReceipt(EvmChain),
    /// `eth_getBlockByNumber("finalized", false)` on the chain.
    FetchFinalizedBlock(EvmChain),
    /// Read the contract's variable from the configuration.
    ReadTokenContract(TokenContract),
    /// Done: the verdict, and what the log scan made of each log it read.
    Conclude { verdict: EvmVerdict, trace: Vec<LogMatch> },
}

/// Which event each state waits for.
pub open spec fn event_fits(state: EvmState, event: EvmEvent) -> bool {
    match state {
        EvmState::Start => event is Begin,
        EvmState::AwaitingTransaction { .. } => event is Transaction,
        EvmState::AwaitingReceipt { .. } => event is Receipt,
        EvmState::AwaitingFinalizedBlock { .. } => event is FinalizedBlock,
        EvmState::AwaitingTokenContract { .. } => event is TokenContract,
        EvmState::Done => false,
    }
}

pub open spec fn concludes(
    next: EvmState,
    action: EvmAction,
    verdict: EvmVerdict,
    trace: Seq<LogMatch>,
) -> bool {
    &&& next is Done
    &&& action matches EvmAction::Conclude { verdict: v, trace: t }
    &&& v == verdict
    &&& t@ == trace
}

/// The scan of the receipt's logs, with the pinned `contract` (empty for
/// none), ends the verification.
#[verifier::opaque]
pub open spec fn scan_concludes(
    req: SettlementRequest,
    receipt: EvmReceipt,
    units: u128,
    contract: Seq<char>,
    currency: Seq<char>,
    next: EvmState,
    action: EvmAction,
) -> bool {
    let trace = scan_prefix(
        receipt.logs@,
        receipt.logs@.len() as int,
        req.sender_address@,
        req.receiver_address@,
        units,
        contract,
    );
    &&& next is Done
    &&& action matches EvmAction::Conclude { verdict, trace: t }
    &&& t@ == trace
    &&& match scan_verdict(trace, units) {
        Ok(u) => verdict matches EvmVerdict::Settled(EvmSettlement::Token { currency: c, units: v })
            && c@ == currency && v == u,
        Err(f) => verdict == failure_verdict(f),
    }
}

/// Once the transaction is known final: a native payment is checked on the
/// transaction, a token payment on the receipt's logs (after reading the
/// pinned contract, where there is one), any other currency is refused.
pub open spec fn after_finality_holds(
    req: SettlementRequest,
    expected: ExpectedUnits,
    tx: EvmTransaction,
    receipt: EvmReceipt,
    finalized: EvmBlockHeader,
    next: EvmState,
    action: EvmAction,
) -> bool {
    let currency = unicode_uppercase(req.currency@);
    if is_native_currency(currency) {
        match native_outcome(req, tx, expected.wei) {
            Ok(w) => concludes(
                next,
                action,
                EvmVerdict::Settled(EvmSettlement::Native { wei: w }),
                Seq::empty(),
            ),
            Err(f) => concludes(next, action, failure_verdict(f), Seq::empty()),
        }
    } else if is_token_currency(currency) {
        match token_contract_for(unicode_lowercase(req.network@), currency) {
            Some(c) => next matches EvmState::AwaitingTokenContract {
                tx: t,
                finalized: h,
                receipt: r,
                currency: cc,
            } && t == tx && h == finalized && r == receipt && cc@ == currency && action
                == EvmAction::ReadTokenContract(c),
            None => scan_concludes(
                req,
                receipt,
                expected.token_units,
                Seq::empty(),
                currency,
                next,
                action,
            ),
        }
    } else {
        &&& next is Done
        &&& action matches EvmAction::Conclude {
            verdict: EvmVerdict::Rejected(EvmFailure::UnsupportedCurrency { currency: c }),
            trace,
        }
        &&& c@ == currency
        &&& trace@.len() == 0
    }
}

/// One step of a verification: the checks of each stage, in the order
/// request, transaction, receipt, finality, payment.
pub open spec fn step_holds(
    req: SettlementRequest,
    expected: ExpectedUnits,
    state: EvmState,
    event: EvmEvent,
    next: EvmState,
    action: EvmAction,
) -> bool {
    match state {
        EvmState::Start => match precheck_outcome(req) {
            Ok(chain) => next == EvmState::AwaitingTransaction { chain } && action
                == EvmAction::FetchTransaction(chain),
            Err(f) => concludes(next, action, failure_verdict(f), Seq::empty()),
        },
        EvmState::AwaitingTransaction { chain } => match event {
            EvmEvent::Transaction(reply) => match transaction_outcome(req, reply) {
                Ok(tx) => next == EvmState::AwaitingReceipt { chain, tx } && action
                    == EvmAction::FetchReceipt(chain),
                Err(f) => concludes(next, action, failure_verdict(f), Seq::empty()),
            },
            _ => false,
        },
        EvmState::AwaitingReceipt { chain, tx } => match event {
            EvmEvent::Receipt(reply) => match receipt_outcome(reply) {
                Ok(receipt) => next == EvmState::AwaitingFinalizedBlock { tx, receipt } && action
                    == EvmAction::FetchFinalizedBlock(chain),
                Err(f) => concludes(next, action, failure_verdict(f), Seq::empty()),
            },
            _ => false,
        },
        EvmState::AwaitingFinalizedBlock { tx, receipt } => match event {
            EvmEvent::FinalizedBlock(reply) => match finality_outcome(tx, reply) {
                Ok(_) => match reply {
                    RpcReply::Parsed(Some(head)) => after_finality_holds(
                        req,
                        expected,
                        tx,
                        receipt,
                        head,
                        next,
                        action,
                    ),
                    _ => false,
                },
                Err(f) => concludes(next, action, failure_verdict(f), Seq::empty()),
            },
            _ => false,
        },
        EvmState::AwaitingTokenContract { receipt, currency, .. } => match event {
            EvmEvent::TokenContract(contract) => scan_concludes(
                req,
                receipt,
                expected.token_units,
                contract@,
                currency@,
                next,
                action,
            ),
            _ => false,
        },
        EvmState::Done => false,
    }
}

/// The step would scan the receipt's logs and the scan would panic.
pub open spec fn step_panics(
    req: SettlementRequest,
    expected: ExpectedUnits,
    state: EvmState,
    event: EvmEvent,
) -> bool {
    match state {
        EvmState::AwaitingFinalizedBlock { tx, receipt } => match event {
            EvmEvent::FinalizedBlock(reply) => {
                let currency = unicode_uppercase(req.currency@);
                &&& finality_outcome(tx, reply) is Ok
                &&& is_token_currency(currency)
                &&& token_contract_for(unicode_lowercase(req.network@), currency) is None
                &&& scan_panics(
                    receipt.logs@,
                    req.sender_address@,
                    req.receiver_address@,
                    expected.token_units,
                    Seq::empty(),
                )
            },
            _ => false,
        },
        EvmState::AwaitingTokenContract { receipt, .. } => match event {
            EvmEvent::TokenContract(contract) => scan_panics(
                receipt.logs@,
                req.sender_address@,
                req.receiver_address@,
                expected.token_units,
                contract@,
            ),
            _ => false,
        },
        _ => false,
    }
}

fn conclude(verdict: EvmVerdict) -> (next: (EvmState, EvmAction))
    ensures
        concludes(next.0, next.1, verdict, Seq::empty()),
{
    let trace: Vec<LogMatch> = Vec::new();
    (EvmState::Done, EvmAction::Conclude { verdict, trace })
}

fn conclude_scan(
    req: &SettlementRequest,
    receipt: &EvmReceipt,
    units: u128,
    contract: &str,
    currency: String,
) -> (next: (EvmState, EvmAction))
    requires
        !scan_panics(
            receipt.logs@,
            req.sender_address@,
            req.receiver_address@,
            units,
            contract@,
        ),
    ensures
        scan_concludes(*req, *receipt, units, contract@, currency@, next.0, next.1),
{
    reveal(scan_concludes);
    let scan = scan_transfer_logs(req, receipt, units, contract);
    let verdict = match scan.verdict {
        Ok(u) => EvmVerdict::Settled(EvmSettlement::Token { currency, units: u }),
        Err(f) => verdict_for_failure(f),
    };
    (EvmState::Done, EvmAction::Conclude { verdict, trace: scan.trace })
}

#[verifier::rlimit(40)]
fn advance_after_finality(
    req: &SettlementRequest,
    expected: &ExpectedUnits,
    tx: EvmTransaction,
    receipt: EvmReceipt,
    finalized: EvmBlockHeader,
) -> (next: (EvmState, EvmAction))
    requires
        !(is_token_currency(unicode_uppercase(req.currency@)) && token_contract_for(
            unicode_lowercase(req.network@),
            unicode_uppercase(req.currency@),
        ) is None && scan_panics(
            receipt.logs@,
            req.sender_address@,
            req.receiver_address@,
            expected.token_units,
            Seq::empty(),
        )),
    ensures
        after_finality_holds(*req, *expected, tx, receipt, finalized, next.0, next.1),
{
    proof {
        reveal_strlit("ETH");
        reveal_strlit("MATIC");
        reveal_strlit("USDT");
        reveal_strlit("USDC");
        reveal_strlit("");
    }
    assert(""@ =~= Seq::<char>::empty());
    match payment_kind(req) {
        Ok(EvmPayment::Native) => match check_native(req, &tx, expected.wei) {
            Ok(w) => conclude(EvmVerdict::Settled(EvmSettlement::Native { wei: w })),
            Err(f) => conclude(verdict_for_failure(f)),
        },
        Ok(EvmPayment::Token { currency, contract: Some(c) }) => (
            EvmState::AwaitingTokenContract { tx, finalized, receipt, currency },
            EvmAction::ReadTokenContract(c),
        ),
        Ok(EvmPayment::Token { currency, contract: None }) => conclude_scan(
            req,
            &receipt,
            expected.token_units,
            "",
            currency,
        ),
        Err(f) => conclude(verdict_for_failure(f)),
    }
}

/// Whether the step would scan the receipt's logs and the scan would panic.
pub fn step_would_panic(
    req: &SettlementRequest,
    expected: &ExpectedUnits,
    state: &EvmState,
    event: &EvmEvent,
) -> (panics: bool)
    ensures
        panics == step_panics(*req, *expected, *state, *event),
{
    match state {
        EvmState::AwaitingFinalizedBlock { tx, receipt } => match event {
            EvmEvent::FinalizedBlock(reply) => {
                if check_finality(tx, reply).is_err() {
                    return false;
                }
                proof {
                    reveal_strlit("ETH");
                    reveal_strlit("MATIC");
                    reveal_strlit("USDT");
                    reveal_strlit("USDC");
                    reveal_strlit("");
                }
                assert(""@ =~= Seq::<char>::empty());
                let ghost currency = unicode_uppercase(req.currency@);
                let ghost network = unicode_lowercase(req.network@);
                let payment = payment_kind(req);
                match payment {
                    Ok(EvmPayment::Token { contract: None, .. }) => {
                        assert(is_token_currency(currency));
                        assert(token_contract_for(network, currency) is None);
                        scan_would_panic(req, receipt, expected.token_units, "")
                    },
                    Ok(EvmPayment::Token { contract: Some(_), .. }) => {
                        assert(token_contract_for(network, currency) is Some);
                        false
                    },
                    Ok(EvmPayment::Native) => {
                        assert(is_native_currency(currency));
                        assert("ETH"@.len() == 3 && "MATIC"@.len() == 5);
                        assert("USDT"@.len() == 4 && "USDC"@.len() == 4);
                        assert(!is_token_currency(currency));
                        false
                    },
                    Err(_) => {
                        assert(!is_token_currency(currency));
                        false
                    },
                }
            },
            _ => false,
        },
        EvmState::AwaitingTokenContract { receipt, .. } => match event {
            EvmEvent::TokenContract(contract) => scan_would_panic(
                req,
                receipt,
                expected.token_units,
                contract.as_str(),
            ),
            _ => false,
        },
        _ => false,
    }
}

/// Advances a verification by one event: checks what the event brought and
/// says what to do next, or concludes.
pub fn step(
    req: &SettlementRequest,
    expected: &ExpectedUnits,
    state: EvmState,
    event: EvmEvent,
) -> (next: (EvmState, EvmAction))
    requires
        event_fits(state, event),
        !step_panics(*req, *expected, state, event),
    ensures
        step_holds(*req, *expected, state, event, next.0, next.1),
{
    match state {
        EvmState::Start => match precheck(req) {
            Ok(chain) => (EvmState::AwaitingTransaction { chain }, EvmAction::FetchTransaction(chain)),
            Err(f) => conclude(verdict_for_failure(f)),
        },
        EvmState::AwaitingTransaction { chain } => match event {
            EvmEvent::Transaction(reply) => match check_transaction(req, reply) {
                Ok(tx) => (EvmState::AwaitingReceipt { chain, tx }, EvmAction::FetchReceipt(chain)),
                Err(f) => conclude(verdict_for_failure(f)),
            },
            _ => conclude(EvmVerdict::Incomplete(EvmFailure::FinalizedBlockUnavailable)),
        },
        EvmState::AwaitingReceipt { chain, tx } => match event {
            EvmEvent::Receipt(reply) => match check_receipt(reply) {
                Ok(receipt) => (
                    EvmState::AwaitingFinalizedBlock { tx, receipt },
                    EvmAction::FetchFinalizedBlock(chain),
                ),
                Err(f) => conclude(verdict_for_failure(f)),
            },
            _ => conclude(EvmVerdict::Incomplete(EvmFailure::FinalizedBlockUnavailable)),
        },
        EvmState::AwaitingFinalizedBlock { tx, receipt } => match event {
            EvmEvent::FinalizedBlock(reply) => match check_finality(&tx, &reply) {
                Err(f) => conclude(verdict_for_failure(f)),
                Ok(_) => match reply {
                    RpcReply::Parsed(Some(head)) => advance_after_finality(
                        req,
                        expected,
                        tx,
                        receipt,
                        head,
                    ),
                    _ => conclude(EvmVerdict::Incomplete(EvmFailure::FinalizedBlockUnavailable)),
                },
            },
            _ => conclude(EvmVerdict::Incomplete(EvmFailure::FinalizedBlockUnavailable)),
        },
        EvmState::AwaitingTokenContract { receipt, currency, .. } => match event {
            EvmEvent::TokenContract(contract) => conclude_scan(
                req,
                &receipt,
                expected.token_units,
                contract.as_str(),
                currency,
            ),
            _ => conclude(EvmVerdict::Incomplete(EvmFailure::FinalizedBlockUnavailable)),
        },
        EvmState::Done => conclude(EvmVerdict::Incomplete(EvmFailure::FinalizedBlockUnavailable)),
    }
}

// ---------------------------------------------------------------------
// What a verification that settles has checked.
// ---------------------------------------------------------------------

/// What holds of every state a verification reaches from `Start`: the
/// request passed its checks, the transaction comes from the sender, the
/// receipt reports success, and, once the finalized block was read, the
/// transaction's block is at or below it.
pub open spec fn state_valid(req: SettlementRequest, state: EvmState) -> bool {
    match state {
        EvmState::Start => true,
        EvmState::AwaitingTransaction { chain } => precheck_outcome(req) == Ok::<
            EvmChain,
            EvmFailure,
        >(chain),
        EvmState::AwaitingReceipt { chain, tx } => precheck_outcome(req) == Ok::<
            EvmChain,
            EvmFailure,
        >(chain) && same_address(tx.from@, req.sender_address@),
        EvmState::AwaitingFinalizedBlock { tx, receipt } => {
            &&& precheck_outcome(req) is Ok
            &&& same_address(tx.from@, req.sender_address@)
            &&& receipt_status(receipt) == 1
        },
        EvmState::AwaitingTokenContract { tx, finalized, receipt, currency } => {
            &&& precheck_outcome(req) is Ok
            &&& receipt_status(receipt) == 1
            &&& finality_outcome(tx, RpcReply::Parsed(Some(finalized))) is Ok
            &&& currency@ == unicode_uppercase(req.currency@)
            &&& is_token_currency(currency@)
        },
        EvmState::Done => true,
    }
}

/// Each step keeps what holds of the states a verification reaches.
pub proof fn law_step_keeps_state_valid(
    req: SettlementRequest,
    expected: ExpectedUnits,
    state: EvmState,
    event: EvmEvent,
    next: EvmState,
    action: EvmAction,
)
    requires
        state_valid(req, state),
        step_holds(req, expected, state, event, next, action),
    ensures
        state_valid(req, next),
{
    reveal(scan_concludes);
}

/// A verification settles a native payment only on a step from a reached
/// state where the request is well formed on a supported chain, the
/// transaction comes from the sender, its receipt reports success, its
/// block is at or below the chain's finalized block, and it goes to the
/// receiver with exactly the expected wei.
pub proof fn law_native_settlement_checks(
    req: SettlementRequest,
    expected: ExpectedUnits,
    state: EvmState,
    event: EvmEvent,
    next: EvmState,
    action: EvmAction,
)
    requires
        state_valid(req, state),
        step_holds(req, expected, state, event, next, action),
        action matches EvmAction::Conclude { verdict: EvmVerdict::Settled(EvmSettlement::Native { .. }), .. },
    ensures
        match state {
            EvmState::AwaitingFinalizedBlock { tx, receipt } => match event {
                EvmEvent::FinalizedBlock(reply) => {
                    &&& precheck_outcome(req) is Ok
                    &&& same_address(tx.from@, req.sender_address@)
                    &&& receipt_status(receipt) == 1
                    &&& finality_outcome(tx, reply) is Ok
                    &&& is_native_currency(unicode_uppercase(req.currency@))
                    &&& tx.to matches Some(to) && same_address(to@, req.receiver_address@)
                    &&& transaction_wei(tx) == expected.wei
                },
                _ => false,
            },
            _ => false,
        },
{
    reveal(scan_concludes);
    reveal_strlit("ETH");
    reveal_strlit("MATIC");
    reveal_strlit("USDT");
    reveal_strlit("USDC");
    assert("ETH"@.len() == 3 && "MATIC"@.len() == 5);
    assert("USDT"@.len() == 4 && "USDC"@.len() == 4);
}

/// A verification waits for the pinned token contract only after the
/// transaction was found final.
pub proof fn law_token_contract_follows_finality(
    req: SettlementRequest,
    expected: ExpectedUnits,
    state: EvmState,
    event: EvmEvent,
    next: EvmState,
    action: EvmAction,
)
    requires
        step_holds(req, expected, state, event, next, action),
        next is AwaitingTokenContract,
    ensures
        match state {
            EvmState::AwaitingFinalizedBlock { tx, .. } => match event {
                EvmEvent::FinalizedBlock(reply) => finality_outcome(tx, reply) is Ok,
                _ => false,
            },
            _ => false,
        },
{
    reveal(scan_concludes);
}

/// A verification settles a token payment only on a step from a reached
/// state where the request is well formed on a supported chain, the
/// receipt reports success, the transaction's block is at or below the
/// chain's finalized block, and a receipt log is an ERC20 `Transfer` from
/// the sender to the receiver of exactly the expected units, issued by the
/// pinned contract when one is pinned.
pub proof fn law_token_settlement_checks(
    req: SettlementRequest,
    expected: ExpectedUnits,
    state: EvmState,
    event: EvmEvent,
    next: EvmState,
    action: EvmAction,
)
    requires
        state_valid(req, state),
        step_holds(req, expected, state, event, next, action),
        action matches EvmAction::Conclude { verdict: EvmVerdict::Settled(EvmSettlement::Token { .. }), .. },
    ensures
        match state {
            EvmState::AwaitingFinalizedBlock { tx, receipt } => match event {
                EvmEvent::FinalizedBlock(reply) => {
                    &&& precheck_outcome(req) is Ok
                    &&& receipt_status(receipt) == 1
                    &&& finality_outcome(tx, reply) is Ok
                    &&& exists|i: int|
                        0 <= i < receipt.logs@.len() && is_settling_transfer(
                            #[trigger] receipt.logs@[i],
                            req.sender_address@,
                            req.receiver_address@,
                            expected.token_units,
                            Seq::empty(),
                        )
                },
                _ => false,
            },
            EvmState::AwaitingTokenContract { tx, finalized, receipt, .. } => match event {
                EvmEvent::TokenContract(contract) => {
                    &&& precheck_outcome(req) is Ok
                    &&& receipt_status(receipt) == 1
                    &&& finality_outcome(tx, RpcReply::Parsed(Some(finalized))) is Ok
                    &&& exists|i: int|
                        0 <= i < receipt.logs@.len() && is_settling_transfer(
                            #[trigger] receipt.logs@[i],
                            req.sender_address@,
                            req.receiver_address@,
                            expected.token_units,
                            contract@,
                        )
                },
                _ => false,
            },
            _ => false,
        },
{
    reveal(scan_concludes);
    reveal_strlit("ETH");
    reveal_strlit("MATIC");
    reveal_strlit("USDT");
    reveal_strlit("USDC");
    assert("ETH"@.len() == 3 && "MATIC"@.len() == 5);
    assert("USDT"@.len() == 4 && "USDC"@.len() == 4);
    match state {
        EvmState::AwaitingFinalizedBlock { tx, receipt } => {
            lemma_token_settlement_is_matching_transfer(
                receipt.logs@,
                req.sender_address@,
                req.receiver_address@,
                expected.token_units,
                Seq::empty(),
            );
        },
        EvmState::AwaitingTokenContract { receipt, .. } => {
            match event {
                EvmEvent::TokenContract(contract) => {
                    lemma_token_settlement_is_matching_transfer(
                        receipt.logs@,
                        req.sender_address@,
                        req.receiver_address@,
                        expected.token_units,
                        contract@,
                    );
                },
                _ => {},
            }
        },
        _ => {},
    }
}


// ---------------------------------------------------------------------
// What each stage accepts, stated over the replies themselves.
// ---------------------------------------------------------------------

/// The transaction stage goes on exactly when the node returned a
/// transaction whose sender is the request's sender, compared ignoring ASCII
/// letter case (a checksummed address and the node's lowercase form name the
/// same account); it goes on with that transaction.
pub proof fn law_transaction_comes_from_the_sender(
    req: SettlementRequest,
    reply: RpcReply<EvmTransaction>,
)
    ensures
        transaction_outcome(req, reply) is Ok <==> (reply matches RpcReply::Parsed(Some(tx))
            && ascii_case_eq(utf8_bytes(tx.from@), utf8_bytes(req.sender_address@))),
        transaction_outcome(req, reply) matches Ok(tx) ==> reply == RpcReply::Parsed(Some(tx)),
{
}

/// A native payment settles exactly when the transaction goes to the
/// receiver, compared ignoring ASCII letter case, and its value, read as hex
/// after one `0x`, is exactly the expected wei; what settles is that amount.
pub proof fn law_native_settles_on_receiver_and_exact_wei(
    req: SettlementRequest,
    tx: EvmTransaction,
    expected_wei: u128,
)
    ensures
        native_outcome(req, tx, expected_wei) is Ok <==> (tx.to matches Some(to) && ascii_case_eq(
            utf8_bytes(to@),
            utf8_bytes(req.receiver_address@),
        ) && hex_u128_or_zero(strip_hex_prefix(utf8_bytes(tx.value@))) == expected_wei),
        native_outcome(req, tx, expected_wei) is Ok ==> native_outcome(req, tx, expected_wei)
            == Ok::<u128, EvmFailure>(expected_wei),
{
}

/// The receipt stage goes on exactly when the node returned a receipt whose
/// status, read as hex after one `0x` (0 when unreadable), is 1; it goes on
/// with that receipt.
pub proof fn law_receipt_reports_success(reply: RpcReply<EvmReceipt>)
    ensures
        receipt_outcome(reply) is Ok <==> (reply matches RpcReply::Parsed(Some(r))
            && hex_u64_or_zero(strip_hex_prefix(utf8_bytes(r.status@))) == 1),
        receipt_outcome(reply) matches Ok(r) ==> reply == RpcReply::Parsed(Some(r)),
{
}

/// The finality stage goes on exactly when the node named its finalized
/// block and the transaction sits in a block, both read as hex after one
/// `0x` and fitting in 64 bits, with the transaction's block at or below the
/// finalized one; it gives the transaction's block.
pub proof fn law_finality_needs_a_final_block(tx: EvmTransaction, reply: RpcReply<EvmBlockHeader>)
    ensures
        finality_outcome(tx, reply) is Ok <==> (reply matches RpcReply::Parsed(Some(head))
            && tx.block_number matches Some(text) && parse_radix16(
            strip_hex_prefix(utf8_bytes(text@)),
            u64_bound(),
        ) matches Some(block) && parse_radix16(
            strip_hex_prefix(utf8_bytes(head.number@)),
            u64_bound(),
        ) matches Some(finalized) && block <= finalized),
        (finality_outcome(tx, reply) matches Ok(block) ==> tx.block_number matches Some(text)
            && parse_radix16(strip_hex_prefix(utf8_bytes(text@)), u64_bound()) == Some(
            block as nat,
        )),
{
}

/// The checks before any RPC call pass exactly when both addresses are 42
/// bytes and the hash 66 bytes, each starting with `0x`, the amount is
/// finite and positive, and the network, in lower case, is one of the EVM
/// networks.
pub proof fn law_precheck_accepts_well_formed_requests(req: SettlementRequest)
    ensures
        precheck_outcome(req) is Ok <==> {
            let network = unicode_lowercase(req.network@);
            &&& utf8_bytes(req.sender_address@).len() == 42
            &&& has_hex_prefix(utf8_bytes(req.sender_address@))
            &&& utf8_bytes(req.receiver_address@).len() == 42
            &&& has_hex_prefix(utf8_bytes(req.receiver_address@))
            &&& utf8_bytes(req.tx_hash@).len() == 66
            &&& has_hex_prefix(utf8_bytes(req.tx_hash@))
            &&& req.amount_paid.kind == AmountKind::Positive
            &&& (network == "ethereum"@ || network == "evm"@ || network == "sepolia"@ || network
                == "ethereum-sepolia"@ || network == "eth-sepolia"@ || network == "polygon"@)
        },
{
}

/// Once a log has been accepted, the scan's last match is an acceptance of
/// the expected amount.
proof fn lemma_scan_acceptance_is_expected(
    logs: Seq<EvmLog>,
    n: int,
    sender: Seq<char>,
    receiver: Seq<char>,
    expected_units: u128,
    contract: Seq<char>,
)
    ensures
        ({
            let trace = scan_prefix(logs, n, sender, receiver, expected_units, contract);
            trace.len() > 0 && trace.last() is Accepted ==> trace.last() == (LogMatch::Accepted { amount: expected_units })
        }),
    decreases n,
{
    if n > 0 {
        lemma_scan_acceptance_is_expected(logs, n - 1, sender, receiver, expected_units, contract);
    }
}

/// A scan past an accepted log ends on an acceptance.
proof fn lemma_scan_keeps_acceptance(
    logs: Seq<EvmLog>,
    n: int,
    i: int,
    sender: Seq<char>,
    receiver: Seq<char>,
    expected_units: u128,
    contract: Seq<char>,
)
    requires
        0 <= i < n <= logs.len(),
        log_match(logs[i], sender, receiver, expected_units, contract) is Accepted,
    ensures
        ({
            let trace = scan_prefix(logs, n, sender, receiver, expected_units, contract);
            trace.len() > 0 && trace.last() is Accepted
        }),
    decreases n,
{
    if i < n - 1 {
        lemma_scan_keeps_acceptance(logs, n - 1, i, sender, receiver, expected_units, contract);
    }
}

/// The scan finds a matching transfer wherever it is: when some receipt log
/// has three topics, the first the ERC20 `Transfer` topic (ignoring ASCII
/// case), the last 40 bytes of the other two naming the sender and the
/// receiver ignoring ASCII case, 64 data digits worth exactly the expected
/// units, and the pinned contract's address (ignoring ASCII case) when one
/// is pinned, then that log is accepted, the scan ends on an acceptance of
/// the expected units, and the verdict settles them.
pub proof fn law_token_scan_finds_the_matching_transfer(
    logs: Seq<EvmLog>,
    i: int,
    sender: Seq<char>,
    receiver: Seq<char>,
    expected_units: u128,
    contract: Seq<char>,
)
    requires
        0 <= i < logs.len(),
        logs[i].topics@.len() == 3,
        ascii_case_eq(utf8_bytes(logs[i].topics@[0]@), utf8_bytes(ERC20_TRANSFER_TOPIC@)),
        trim_hex_prefixes(utf8_bytes(logs[i].topics@[1]@)).len() >= 40,
        trim_hex_prefixes(utf8_bytes(logs[i].topics@[2]@)).len() >= 40,
        ({
            let t = trim_hex_prefixes(utf8_bytes(logs[i].topics@[1]@));
            ascii_case_eq(seq![48u8, 120u8] + t.skip(t.len() - 40), utf8_bytes(sender))
        }),
        ({
            let t = trim_hex_prefixes(utf8_bytes(logs[i].topics@[2]@));
            ascii_case_eq(seq![48u8, 120u8] + t.skip(t.len() - 40), utf8_bytes(receiver))
        }),
        trim_hex_prefixes(utf8_bytes(logs[i].data@)).len() == 64,
        hex_u128_or_zero(trim_hex_prefixes(utf8_bytes(logs[i].data@))) == expected_units,
        contract.len() == 0 || ascii_case_eq(utf8_bytes(logs[i].address@), utf8_bytes(contract)),
    ensures
        log_match(logs[i], sender, receiver, expected_units, contract) == (LogMatch::Accepted {
            amount: expected_units,
        }),
        ({
            let trace = scan_prefix(logs, logs.len() as int, sender, receiver, expected_units, contract);
            &&& trace.len() > 0
            &&& trace.last() == (LogMatch::Accepted { amount: expected_units })
            &&& scan_verdict(trace, expected_units) == Ok::<u128, EvmFailure>(expected_units)
        }),
{
    lemma_scan_keeps_acceptance(
        logs,
        logs.len() as int,
        i,
        sender,
        receiver,
        expected_units,
        contract,
    );
    lemma_scan_acceptance_is_expected(
        logs,
        logs.len() as int,
        sender,
        receiver,
        expected_units,
        contract,
    );
}

/// The contract pinned for a payment is the one of the requested token on
/// the requested network: its variable is the network in upper case, the
/// currency, and `CONTRACT`, joined by underscores; and USDT and USDC on
/// Ethereum and Polygon always have one pinned.
pub proof fn law_pinned_contract_is_the_requested_token(network: Seq<char>, currency: Seq<char>)
    ensures
        token_contract_for(network, currency) matches Some(c) ==> contract_variable(c)
            == ascii_uppercase(network) + "_"@ + currency + "_CONTRACT"@,
        (network == "ethereum"@ || network == "polygon"@) && (currency == "USDT"@ || currency
            == "USDC"@) ==> token_contract_for(network, currency) is Some,
{
    reveal_strlit("ethereum");
    reveal_strlit("polygon");
    reveal_strlit("USDT");
    reveal_strlit("USDC");
    reveal_strlit("_");
    reveal_strlit("_CONTRACT");
    reveal_strlit("ETHEREUM_USDT_CONTRACT");
    reveal_strlit("ETHEREUM_USDC_CONTRACT");
    reveal_strlit("POLYGON_USDT_CONTRACT");
    reveal_strlit("POLYGON_USDC_CONTRACT");
    assert(ascii_uppercase("ethereum"@) =~= seq!['E', 'T', 'H', 'E', 'R', 'E', 'U', 'M']);
    assert(ascii_uppercase("polygon"@) =~= seq!['P', 'O', 'L', 'Y', 'G', 'O', 'N']);
    if network == "ethereum"@ && currency == "USDT"@ {
        assert(ascii_uppercase(network) + "_"@ + currency + "_CONTRACT"@
            =~= "ETHEREUM_USDT_CONTRACT"@);
    } else if network == "ethereum"@ && currency == "USDC"@ {
        assert(ascii_uppercase(network) + "_"@ + currency + "_CONTRACT"@
            =~= "ETHEREUM_USDC_CONTRACT"@);
    } else if network == "polygon"@ && currency == "USDT"@ {
        assert(ascii_uppercase(network) + "_"@ + currency + "_CONTRACT"@
            =~= "POLYGON_USDT_CONTRACT"@);
    } else if network == "polygon"@ && currency == "USDC"@ {
        assert(ascii_uppercase(network) + "_"@ + currency + "_CONTRACT"@
            =~= "POLYGON_USDC_CONTRACT"@);
    }
}

} // verus!
