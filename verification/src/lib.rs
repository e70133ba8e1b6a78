//! Hermetic: the verified core of a Railgun transaction tool whose network
//! egress is owned by Rust and routed through Tor.
//!
//! The library holds the decisions of the tool: the wallet manifest, the
//! allowlist of reverse HTTP services and the shaping of reverse requests,
//! the permissions given to the embedded JavaScript runtime, the calls made
//! into that runtime, transaction parsing and affordability, the choice of
//! public signer, the streams the Tor connector may open, and the line
//! protocol of the legacy sidecar.

pub mod cli;
pub mod error;
pub mod eth;
pub mod flow;
pub mod railgun;
pub mod sidecar;
pub mod text;
pub mod tor;
