//! Settlement verification engine: decides whether an on-chain transfer
//! settles an invoice.  The chain RPC traffic, the gRPC server, the
//! configuration reads, the floating-point amounts and the audit log live in
//! the application around this crate; the checks on the request and on the
//! chain's replies, their order, and the verdict are decided here.

pub mod clock;
pub mod config;
pub mod error;
pub mod evm;
pub mod hex;
pub mod registry;
pub mod reply;
pub mod request;
pub mod service;
pub mod solana;
pub mod text;
