//! Verification of a native SOL transfer from the `getTransaction` reply:
//! the transaction exists and succeeded, the sender signed it, the receiver
//! gained exactly the expected lamports, the sender lost at least that many,
//! and, when the request names a block, the transaction sits in that slot.

use vstd::prelude::*;
use crate::reply::RpcReply;
use crate::request::{AmountKind, SettlementRequest};
use crate::text::{same_text, to_uppercase, unicode_uppercase};

verus! {

#[derive(Clone, Debug)]
pub struct SolanaAccountKey {
    pub pubkey: String,
    pub signer: bool,
}

#[derive(Clone, Debug)]
pub struct SolanaMessage {
    pub account_keys: Option<Vec<SolanaAccountKey>>,
}

#[derive(Clone, Debug)]
pub struct SolanaTransactionData {
    pub message: Option<SolanaMessage>,
}

/// The transaction's metadata; `err` holds the chain's error, as JSON text,
/// when the transaction failed.
#[derive(Clone, Debug)]
pub struct SolanaMeta {
    pub err: Option<String>,
    pub fee: Option<u64>,
    pub pre_balances: Option<Vec<u64>>,
    pub post_balances: Option<Vec<u64>>,
}

/// The `result` of a `getTransaction` reply.
#[derive(Clone, Debug)]
pub struct SolanaTxResult {
    pub meta: Option<SolanaMeta>,
    pub transaction: Option<SolanaTransactionData>,
    pub slot: Option<u64>,
}

/// Why a Solana transaction does not settle the request.
#[derive(Clone, Debug)]
pub enum SolanaFailure {
    RpcHttpError { status: u16 },
    RpcUnparsable { error: String },
    RpcError { message: String },
    UnsupportedCurrency,
    InvalidAmount,
    TxNotFound,
    MetadataMissing,
    TxFailed { error: String },
    TransactionDataMissing,
    MessageMissing,
    AccountKeysMissing,
    SenderDidNotSign,
    ReceiverNotFound,
    PreBalancesMissing,
    PostBalancesMissing,
    BalanceIndexOutOfBounds,
    AmountMismatch { expected: u64, sender_decrease: u64, receiver_increase: u64 },
    SenderAmountMismatch { expected: u64, sender_decrease: u64, receiver_increase: u64 },
    SlotMismatch { expected: i64, actual: u64, sender_decrease: u64, receiver_increase: u64 },
}

/// A transfer that settles the request.
#[derive(Clone, Copy, Debug, PartialEq, Eq, Structural)]
pub struct SolanaSettlement {
    pub slot: u64,
    pub fee: u64,
    pub sender_decrease: u64,
    pub receiver_increase: u64,
}

/// `a.saturating_sub(b)`.
pub open spec fn saturating_diff(a: u64, b: u64) -> u64 {
    if a >= b {
        (a - b) as u64
    } else {
        0
    }
}

/// The first index from `from` on where the sender stands as a signer.
pub open spec fn signer_index(keys: Seq<SolanaAccountKey>, sender: Seq<char>, from: int) -> Option<int>
    decreases keys.len() - from,
{
    if from < 0 || from >= keys.len() {
        None
    } else if keys[from].pubkey@ == sender && keys[from].signer {
        Some(from)
    } else {
        signer_index(keys, sender, from + 1)
    }
}

/// The first index from `from` on where the account stands.
pub open spec fn account_index(keys: Seq<SolanaAccountKey>, account: Seq<char>, from: int) -> Option<int>
    decreases keys.len() - from,
{
    if from < 0 || from >= keys.len() {
        None
    } else if keys[from].pubkey@ == account {
        Some(from)
    } else {
        account_index(keys, account, from + 1)
    }
}

/// The checks made before the RPC call: native SOL only, and a positive
/// finite amount.
pub open spec fn precheck_outcome(req: SettlementRequest) -> Result<(), SolanaFailure> {
    if unicode_uppercase(req.currency@) != "SOL"@ {
        Err(SolanaFailure::UnsupportedCurrency)
    } else if req.amount_paid.kind != AmountKind::Positive {
        Err(SolanaFailure::InvalidAmount)
    } else {
        Ok(())
    }
}

/// The balance checks, once both accounts are found in range.
pub open spec fn balances_outcome(
    req: SettlementRequest,
    expected: u64,
    slot: Option<u64>,
    fee: Option<u64>,
    pre: Seq<u64>,
    post: Seq<u64>,
    s: int,
    r: int,
) -> Result<SolanaSettlement, SolanaFailure> {
    let sender_decrease = saturating_diff(pre[s], post[s]);
    let receiver_increase = saturating_diff(post[r], pre[r]);
    let slot = match slot {
        Some(v) => v,
        None => 0,
    };
    if receiver_increase != expected {
        Err(SolanaFailure::AmountMismatch { expected, sender_decrease, receiver_increase })
    } else if sender_decrease < expected {
        Err(SolanaFailure::SenderAmountMismatch { expected, sender_decrease, receiver_increase })
    } else if req.block_number > 0 && slot != req.block_number as u64 {
        Err(
            SolanaFailure::SlotMismatch {
                expected: req.block_number,
                actual: slot,
                sender_decrease,
                receiver_increase,
            },
        )
    } else {
        Ok(
            SolanaSettlement {
                slot,
                fee: match fee {
                    Some(f) => f,
                    None => 0,
                },
                sender_decrease,
                receiver_increase,
            },
        )
    }
}

/// The verdict on a `getTransaction` result, checks in their order.
pub open spec fn transaction_outcome(
    req: SettlementRequest,
    expected: u64,
    result: Option<SolanaTxResult>,
) -> Result<SolanaSettlement, SolanaFailure> {
    match result {
        None => Err(SolanaFailure::TxNotFound),
        Some(tx) => match tx.meta {
            None => Err(SolanaFailure::MetadataMissing),
            Some(meta) => match meta.err {
                Some(error) => Err(SolanaFailure::TxFailed { error }),
                None => match tx.transaction {
                    None => Err(SolanaFailure::TransactionDataMissing),
                    Some(data) => match data.message {
                        None => Err(SolanaFailure::MessageMissing),
                        Some(message) => match message.account_keys {
                            None => Err(SolanaFailure::AccountKeysMissing),
                            Some(keys) => match signer_index(keys@, req.sender_address@, 0) {
                                None => Err(SolanaFailure::SenderDidNotSign),
                                Some(s) => match account_index(keys@, req.receiver_address@, 0) {
                                    None => Err(SolanaFailure::ReceiverNotFound),
                                    Some(r) => match meta.pre_balances {
                                        None => Err(SolanaFailure::PreBalancesMissing),
                                        Some(pre) => match meta.post_balances {
                                            None => Err(SolanaFailure::PostBalancesMissing),
                                            Some(post) => if s >= pre@.len() || s >= post@.len()
                                                || r >= pre@.len() || r >= post@.len() {
                                                Err(SolanaFailure::BalanceIndexOutOfBounds)
                                            } else {
                                                balances_outcome(
                                                    req,
                                                    expected,
                                                    tx.slot,
                                                    meta.fee,
                                                    pre@,
                                                    post@,
                                                    s,
                                                    r,
                                                )
                                            },
                                        },
                                    },
                                },
                            },
                        },
                    },
                },
            },
        },
    }
}

/// The checks before the RPC call, given the currency in upper case.
pub fn precheck_currency_and_amount(currency: &str, amount: AmountKind) -> (outcome: Result<
    (),
    SolanaFailure,
>)
    ensures
        outcome == (if currency@ != "SOL"@ {
            Err(SolanaFailure::UnsupportedCurrency)
        } else if amount != AmountKind::Positive {
            Err(SolanaFailure::InvalidAmount)
        } else {
            Ok(())
        }),
{
    if !same_text(currency, "SOL") {
        return Err(SolanaFailure::UnsupportedCurrency);
    }
    if amount != AmountKind::Positive {
        return Err(SolanaFailure::InvalidAmount);
    }
    Ok(())
}

/// The checks before the RPC call: the currency must be SOL (in any case)
/// and the amount positive and finite.
pub fn precheck(req: &SettlementRequest) -> (outcome: Result<(), SolanaFailure>)
    ensures
        outcome == precheck_outcome(*req),
{
    let currency = to_uppercase(req.currency.as_str());
    precheck_currency_and_amount(currency.as_str(), req.amount_paid.kind)
}

fn find_signer(keys: &Vec<SolanaAccountKey>, sender: &String) -> (index: Option<usize>)
    ensures
        match index {
            Some(i) => signer_index(keys@, sender@, 0) == Some(i as int),
            None => signer_index(keys@, sender@, 0) is None,
        },
{
    let mut i: usize = 0;
    while i < keys.len()
        invariant
            i <= keys@.len(),
            signer_index(keys@, sender@, 0) == signer_index(keys@, sender@, i as int),
        decreases keys@.len() - i,
    {
        if same_text(keys[i].pubkey.as_str(), sender.as_str()) && keys[i].signer {
            return Some(i);
        }
        i = i + 1;
    }
    None
}

fn find_account(keys: &Vec<SolanaAccountKey>, account: &String) -> (index: Option<usize>)
    ensures
        match index {
            Some(i) => account_index(keys@, account@, 0) == Some(i as int),
            None => account_index(keys@, account@, 0) is None,
        },
{
    let mut i: usize = 0;
    while i < keys.len()
        invariant
            i <= keys@.len(),
            account_index(keys@, account@, 0) == account_index(keys@, account@, i as int),
        decreases keys@.len() - i,
    {
        if same_text(keys[i].pubkey.as_str(), account.as_str()) {
            return Some(i);
        }
        i = i + 1;
    }
    None
}

fn saturating_sub(a: u64, b: u64) -> (d: u64)
    ensures
        d == saturating_diff(a, b),
{
    if a >= b {
        a - b
    } else {
        0
    }
}

/// Reads the `getTransaction` result for a transfer of `expected_lamports`.
pub fn check_transaction(
    req: &SettlementRequest,
    expected_lamports: u64,
    result: Option<SolanaTxResult>,
) -> (outcome: Result<SolanaSettlement, SolanaFailure>)
    ensures
        outcome == transaction_outcome(*req, expected_lamports, result),
        outcome matches Ok(settled) ==> {
            &&& result matches Some(tx)
            &&& tx.meta matches Some(meta)
            &&& meta.err is None
            &&& tx.transaction matches Some(data)
            &&& data.message matches Some(message)
            &&& message.account_keys matches Some(keys)
            &&& signer_index(keys@, req.sender_address@, 0) is Some
            &&& account_index(keys@, req.receiver_address@, 0) is Some
            &&& settled.receiver_increase == expected_lamports
            &&& settled.sender_decrease >= expected_lamports
            &&& req.block_number > 0 ==> settled.slot == req.block_number
        },
{
    let tx = match result {
        None => {
            return Err(SolanaFailure::TxNotFound);
        },
        Some(tx) => tx,
    };
    let meta = match tx.meta {
        None => {
            return Err(SolanaFailure::MetadataMissing);
        },
        Some(meta) => meta,
    };
    if let Some(error) = meta.err {
        return Err(SolanaFailure::TxFailed { error });
    }
    let data = match tx.transaction {
        None => {
            return Err(SolanaFailure::TransactionDataMissing);
        },
        Some(data) => data,
    };
    let message = match data.message {
        None => {
            return Err(SolanaFailure::MessageMissing);
        },
        Some(message) => message,
    };
    let keys = match message.account_keys {
        None => {
            return Err(SolanaFailure::AccountKeysMissing);
        },
        Some(keys) => keys,
    };
    let s = match find_signer(&keys, &req.sender_address) {
        None => {
            return Err(SolanaFailure::SenderDidNotSign);
        },
        Some(s) => s,
    };
    let r = match find_account(&keys, &req.receiver_address) {
        None => {
            return Err(SolanaFailure::ReceiverNotFound);
        },
        Some(r) => r,
    };
    let pre = match meta.pre_balances {
        None => {
            return Err(SolanaFailure::PreBalancesMissing);
        },
        Some(pre) => pre,
    };
    let post = match meta.post_balances {
        None => {
            return Err(SolanaFailure::PostBalancesMissing);
        },
        Some(post) => post,
    };
    if s >= pre.len() || s >= post.len() || r >= pre.len() || r >= post.len() {
        return Err(SolanaFailure::BalanceIndexOutOfBounds);
    }
    let sender_decrease = saturating_sub(pre[s], post[s]);
    let receiver_increase = saturating_sub(post[r], pre[r]);
    if receiver_increase != expected_lamports {
        return Err(
            SolanaFailure::AmountMismatch {
                expected: expected_lamports,
                sender_decrease,
                receiver_increase,
            },
        );
    }
    if sender_decrease < expected_lamports {
        return Err(
            SolanaFailure::SenderAmountMismatch {
                expected: expected_lamports,
                sender_decrease,
                receiver_increase,
            },
        );
    }
    let slot = match tx.slot {
        Some(v) => v,
        None => 0,
    };
    if req.block_number > 0 && slot != req.block_number as u64 {
        return Err(
            SolanaFailure::SlotMismatch {
                expected: req.block_number,
                actual: slot,
                sender_decrease,
                receiver_increase,
            },
        );
    }
    let fee = match meta.fee {
        Some(f) => f,
        None => 0,
    };
    Ok(SolanaSettlement { slot, fee, sender_decrease, receiver_increase })
}

/// The verdict on a whole `getTransaction` reply: an HTTP error, an
/// unreadable body or a JSON-RPC error object ends it before any check.
pub open spec fn reply_outcome(
    req: SettlementRequest,
    expected: u64,
    reply: RpcReply<SolanaTxResult>,
) -> Result<SolanaSettlement, SolanaFailure> {
    match reply {
        RpcReply::HttpFailure { status } => Err(SolanaFailure::RpcHttpError { status }),
        RpcReply::Unparsable { error } => Err(SolanaFailure::RpcUnparsable { error }),
        RpcReply::RpcError { message } => Err(SolanaFailure::RpcError { message }),
        RpcReply::Parsed(result) => transaction_outcome(req, expected, result),
    }
}

/// The failures that mean the verification could not be completed.
pub open spec fn is_incomplete(failure: SolanaFailure) -> bool {
    match failure {
        SolanaFailure::RpcHttpError { .. } => true,
        SolanaFailure::RpcUnparsable { .. } => true,
        SolanaFailure::RpcError { .. } => true,
        _ => false,
    }
}

/// Reads a whole `getTransaction` reply for a transfer of
/// `expected_lamports`.
pub fn check_reply(
    req: &SettlementRequest,
    expected_lamports: u64,
    reply: RpcReply<SolanaTxResult>,
) -> (outcome: Result<SolanaSettlement, SolanaFailure>)
    ensures
        outcome == reply_outcome(*req, expected_lamports, reply),
{
    match reply {
        RpcReply::HttpFailure { status } => Err(SolanaFailure::RpcHttpError { status }),
        RpcReply::Unparsable { error } => Err(SolanaFailure::RpcUnparsable { error }),
        RpcReply::RpcError { message } => Err(SolanaFailure::RpcError { message }),
        RpcReply::Parsed(result) => check_transaction(req, expected_lamports, result),
    }
}

/// The verifier's answer: `Some(true)` settles, `Some(false)` does not,
/// `None` means the verification could not be completed.
pub fn answer(outcome: &Result<SolanaSettlement, SolanaFailure>) -> (answer: Option<bool>)
    ensures
        answer == match outcome {
            Ok(_) => Some(true),
            Err(f) => if is_incomplete(*f) {
                None::<bool>
            } else {
                Some(false)
            },
        },
{
    match outcome {
        Ok(_) => Some(true),
        Err(SolanaFailure::RpcHttpError { .. }) => None,
        Err(SolanaFailure::RpcUnparsable { .. }) => None,
        Err(SolanaFailure::RpcError { .. }) => None,
        Err(_) => Some(false),
    }
}

/// `r` is the first place of `account` among the keys.
pub open spec fn is_first_key(keys: Seq<SolanaAccountKey>, account: Seq<char>, r: int) -> bool {
    &&& 0 <= r < keys.len()
    &&& keys[r].pubkey@ == account
    &&& forall|j: int| 0 <= j < r ==> keys[j].pubkey@ != account
}

proof fn lemma_account_index_is_first(keys: Seq<SolanaAccountKey>, account: Seq<char>, from: int)
    requires
        0 <= from,
        forall|j: int| 0 <= j < from ==> keys[j].pubkey@ != account,
    ensures
        account_index(keys, account, from) matches Some(r) ==> from <= r && is_first_key(
            keys,
            account,
            r,
        ),
    decreases keys.len() - from,
{
    if from < keys.len() && keys[from].pubkey@ != account {
        lemma_account_index_is_first(keys, account, from + 1);
    }
}

proof fn lemma_signer_index_is_signer(keys: Seq<SolanaAccountKey>, sender: Seq<char>, from: int)
    ensures
        signer_index(keys, sender, from) matches Some(s) ==> 0 <= s < keys.len()
            && keys[s].pubkey@ == sender && keys[s].signer,
    decreases keys.len() - from,
{
    if 0 <= from < keys.len() && !(keys[from].pubkey@ == sender && keys[from].signer) {
        lemma_signer_index_is_signer(keys, sender, from + 1);
    }
}

/// A Solana transfer settles only on a reply with account keys and balances
/// before and after where the receiver's account, at its first place among
/// the keys, gained exactly the expected lamports (`post - pre`, saturating
/// at zero), the sender stands among the keys as a signer with an account
/// that lost at least that many, and the transaction sits in the requested
/// slot when the request names one; the settlement reports the receiver's
/// actual gain.
pub proof fn law_solana_settles_on_the_exact_gain(
    req: SettlementRequest,
    expected: u64,
    result: Option<SolanaTxResult>,
)
    ensures
        (transaction_outcome(req, expected, result) matches Ok(settled) ==> {
            let tx = result.unwrap();
            let meta = tx.meta.unwrap();
            let keys = tx.transaction.unwrap().message.unwrap().account_keys.unwrap()@;
            let pre = meta.pre_balances.unwrap()@;
            let post = meta.post_balances.unwrap()@;
            &&& result is Some
            &&& tx.meta is Some
            &&& meta.err is None
            &&& tx.transaction is Some
            &&& tx.transaction.unwrap().message is Some
            &&& tx.transaction.unwrap().message.unwrap().account_keys is Some
            &&& meta.pre_balances is Some
            &&& meta.post_balances is Some
            &&& exists|r: int| #[trigger] is_first_key(keys, req.receiver_address@, r)
            &&& forall|r: int| #[trigger]
                is_first_key(keys, req.receiver_address@, r) ==> {
                    &&& r < pre.len()
                    &&& r < post.len()
                    &&& (if post[r] >= pre[r] {
                        post[r] - pre[r]
                    } else {
                        0
                    }) == expected
                    &&& settled.receiver_increase == expected
                }
            &&& exists|s: int|
                0 <= s < keys.len() && s < pre.len() && s < post.len() && (#[trigger] keys[s]).pubkey@
                    == req.sender_address@ && keys[s].signer && (if pre[s] >= post[s] {
                    pre[s] - post[s]
                } else {
                    0
                }) >= expected
            &&& req.block_number > 0 ==> tx.slot == Some(req.block_number as u64)
        }),
{
    if let Ok(settled) = transaction_outcome(req, expected, result) {
        let tx = result.unwrap();
        let meta = tx.meta.unwrap();
        let keys = tx.transaction.unwrap().message.unwrap().account_keys.unwrap()@;
        let pre = meta.pre_balances.unwrap()@;
        let post = meta.post_balances.unwrap()@;
        lemma_account_index_is_first(keys, req.receiver_address@, 0);
        lemma_signer_index_is_signer(keys, req.sender_address@, 0);
        let r0 = account_index(keys, req.receiver_address@, 0).unwrap();
        let s0 = signer_index(keys, req.sender_address@, 0).unwrap();
        assert(is_first_key(keys, req.receiver_address@, r0));
        assert forall|r: int| #[trigger] is_first_key(keys, req.receiver_address@, r) implies r
            == r0 by {
            if r < r0 {
                assert(keys[r].pubkey@ != req.receiver_address@);
            } else if r > r0 {
                assert(keys[r0].pubkey@ != req.receiver_address@);
            }
        }
        assert(keys[s0].pubkey@ == req.sender_address@);
    }
}

} // verus!
