//! The settlement request and reply as the engine reads and writes them.

use vstd::prelude::*;

verus! {

/// Where the payer's declared amount (a floating-point number) stands
/// against zero.
#[derive(Clone, Copy, Debug, PartialEq, Eq, Structural)]
pub enum AmountKind {
    /// Finite and greater than zero.
    Positive,
    /// Zero, negative, or negative infinity.
    NotPositive,
    /// Positive infinity.
    Infinite,
    /// Not a number.
    NotANumber,
}

/// The amount the payer declared: where it stands against zero, and its
/// decimal rendering for messages.
#[derive(Clone, Debug)]
pub struct DeclaredAmount {
    pub kind: AmountKind,
    pub text: String,
}

/// A request to settle an invoice against an on-chain transaction.
#[derive(Clone, Debug)]
pub struct SettlementRequest {
    pub invoice_id: String,
    pub tx_hash: String,
    pub network: String,
    pub amount_paid: DeclaredAmount,
    pub currency: String,
    pub sender_address: String,
    pub receiver_address: String,
    pub block_number: i64,
}

/// The engine's answer to a settlement request.
#[derive(Clone, Debug)]
pub struct SettlementResponse {
    pub success: bool,
    pub merchant_id: String,
    pub receiver_address: String,
    pub sender_address: String,
    pub block_number: i64,
    pub message: String,
}

/// A transfer that a chain confirmed for an invoice.
#[derive(Clone, Debug)]
pub struct VerifiedTxEvent {
    pub invoice_id: String,
    pub tx_hash: String,
    pub network: String,
    pub amount_paid: DeclaredAmount,
    pub currency: String,
    pub from_address: String,
    pub block_number: i64,
}

} // verus!
