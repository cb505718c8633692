# settlement_engine

A settlement verification engine: given a request to settle an invoice
against an on-chain transaction, it decides whether the chain shows the
exact transfer the request claims.

`src/` is the verified library (Verus):

- `service.rs` - request checks, routing by network name, and the reply.
- `registry.rs` - the network-to-verifier table.
- `evm.rs` - Ethereum / Sepolia / Polygon: native ETH/MATIC and ERC20
  USDT/USDC transfers, checked in stages against the RPC replies (the
  transaction, its receipt, the chain's finalized block, the payment).
  `step` is the state machine that orders the stages; the application runs
  its loop, making the RPC call each action asks for.
- `reply.rs` - what an RPC call brought back: an HTTP failure, an
  unreadable body, a JSON-RPC error, or the result.
- `solana.rs` - native SOL transfers, checked against `getTransaction`.
- `hex.rs`, `text.rs` - hexadecimal numbers and the text facts above rely on.
- `config.rs`, `error.rs`, `clock.rs`, `request.rs` - configuration
  defaults, error messages, the wall clock, and the request/reply types.

`app/` is the program around it: the gRPC server and client, the HTTP
calls to the chain RPC endpoints, JSON decoding, environment reads and the
audit log lines.  Floating-point amounts are classified and scaled to base
units there; the library sees only their sign class, their decimal text and
the integer base units.
