//! Wire types returned by the embedded Railgun runtime to its Rust caller.
use vstd::prelude::*;

verus! {

/// SDK version and import health.
#[derive(Debug)]
pub struct Health {
    pub sdk_version: String,
    pub shared_models_version: String,
    pub node_compat: bool,
}

/// The answer of the runtime's permission probe.
#[derive(Debug)]
pub struct PermissionsReport {
    pub fetch_denied: bool,
    pub connect_denied: bool,
    pub node_net_denied: bool,
    pub write_denied: bool,
    pub env_denied: bool,
    pub read_allowed: bool,
}

/// The permission probe's answer, under the name the runtime facade uses.
pub type Permissions = PermissionsReport;

/// A wallet loaded into the runtime.
#[derive(Debug)]
pub struct LoadedWallet {
    pub wallet_id: String,
    pub shielded_address: String,
}

/// A wallet created by the runtime, with its mnemonic, shown once.
#[derive(Debug)]
pub struct CreatedWallet {
    pub wallet_id: String,
    pub shielded_address: String,
    pub mnemonic: String,
}

/// A transaction populated by the runtime, every field as text.
#[derive(Debug)]
pub struct PopulatedTransaction {
    pub to: String,
    pub data: String,
    pub value: String,
    pub gas_limit: Option<String>,
}

/// The view of a populated transaction.
pub struct PopulatedTransactionView {
    pub to: Seq<char>,
    pub data: Seq<char>,
    pub value: Seq<char>,
    pub gas_limit: Option<Seq<char>>,
}

impl View for PopulatedTransaction {
    type V = PopulatedTransactionView;

    open spec fn view(&self) -> PopulatedTransactionView {
        PopulatedTransactionView {
            to: self.to@,
            data: self.data@,
            value: self.value@,
            gas_limit: match self.gas_limit {
                Some(g) => Some(g@),
                None => None,
            },
        }
    }
}

/// A private balance refreshed by the runtime.
#[derive(Debug)]
pub struct RefreshedBalance {
    pub token_address: String,
    pub balance: String,
    pub spendable_balance: String,
}

} // verus!
