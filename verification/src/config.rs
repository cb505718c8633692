//! The endpoints the engine talks to.

use vstd::prelude::*;

verus! {

pub open spec fn default_backend_grpc_url() -> Seq<char> {
    "http://[::1]:50051"@
}

pub open spec fn default_solana_rpc_url() -> Seq<char> {
    "https://devnet.helius-rpc.com/?api-key=bbb113c7-30a5-4ffc-8325-70b6efa6115e"@
}

pub open spec fn default_polygon_rpc_url() -> Seq<char> {
    "https://polygon-rpc.com"@
}

/// The value configured, or the default where none is.
pub open spec fn configured_or(value: Option<String>, default: Seq<char>) -> Seq<char> {
    match value {
        Some(v) => v@,
        None => default,
    }
}

pub struct Config {
    pub backend_grpc_url: String,
    pub solana_rpc_url: String,
    pub polygon_rpc_url: String,
}

fn or_default(value: Option<String>, default: &str) -> (chosen: String)
    ensures
        chosen@ == configured_or(value, default@),
{
    match value {
        Some(v) => v,
        None => String::from_str(default),
    }
}

impl Config {
    /// The configuration from the values of `BACKEND_GRPC_URL`,
    /// `SOLANA_RPC_URL` and `POLYGON_RPC_URL` (`None` where a variable is not
    /// set), each falling back to its default.
    pub fn from_env(
        backend_grpc_url: Option<String>,
        solana_rpc_url: Option<String>,
        polygon_rpc_url: Option<String>,
    ) -> (config: Result<Self, String>)
        ensures
            config matches Ok(c) && c.backend_grpc_url@ == configured_or(
                backend_grpc_url,
                default_backend_grpc_url(),
            ) && c.solana_rpc_url@ == configured_or(solana_rpc_url, default_solana_rpc_url())
                && c.polygon_rpc_url@ == configured_or(polygon_rpc_url, default_polygon_rpc_url()),
    {
        Ok(
            Config {
                backend_grpc_url: or_default(backend_grpc_url, "http://[::1]:50051"),
                solana_rpc_url: or_default(
                    solana_rpc_url,
                    "https://devnet.helius-rpc.com/?api-key=bbb113c7-30a5-4ffc-8325-70b6efa6115e",
                ),
                polygon_rpc_url: or_default(polygon_rpc_url, "https://polygon-rpc.com"),
            },
        )
    }
}

} // verus!
