//! The Railgun side of the tool: the wallet manifest, the artifact store, the
//! embedded runtime's calls, permissions and host state, and reverse requests.

pub mod artifacts;
pub mod host;
pub mod manifest;
pub mod reverse;
pub mod runtime;
pub mod types;

pub use types::{
    CreatedWallet, Health, LoadedWallet, Permissions, PermissionsReport, PopulatedTransaction,
    RefreshedBalance,
};
