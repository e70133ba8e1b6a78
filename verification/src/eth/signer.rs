//! The choice of the public signer, which pays gas and broadcasts. The Railgun
//! mnemonic is not involved: it stays with the SDK.
use vstd::prelude::*;

use crate::error::UndercoverError;
use crate::eth::tx::{address_checksum_text, address_text};
use crate::text::owned;

verus! {

/// The Sepolia chain ID, the default signer chain.
pub const SEPOLIA_CHAIN_ID: u64 = 11155111;

/// The default RPC endpoint: Sepolia publicnode.
pub const DEFAULT_RPC: &'static str = "https://ethereum-sepolia-rpc.publicnode.com";

/// The options that select the public signer.
#[derive(Debug)]
pub struct PublicSignerArgs {
    pub private_key: Option<String>,
    pub ledger: bool,
    pub chain_id: u64,
    pub ledger_index: usize,
    pub ledger_path: Option<String>,
}

/// Where on a Ledger the signing key is derived.
#[derive(Debug)]
pub enum LedgerPath {
    /// A custom derivation path.
    Other(String),
    /// A Ledger Live account index.
    LedgerLive(usize),
}

/// The selected public signer.
#[derive(Debug)]
pub enum SignerChoice {
    /// A local private key, still to be parsed.
    PrivateKey(String),
    /// The Ethereum app of a Ledger, for a chain.
    Ledger { path: LedgerPath, chain_id: u64 },
}

/// The message when no signer is selected.
pub open spec fn no_signer_message() -> Seq<char> {
    "choose a public signer with --private-key/HERMETIC_PRIVATE_KEY or --ledger"@
}

impl PublicSignerArgs {
    /// Select the public signer: a private key wins; otherwise the Ledger, if
    /// asked for, at the custom path when one is given and else at the Ledger
    /// Live index.
    pub fn signer_choice(&self) -> (r: Result<SignerChoice, UndercoverError>)
        ensures
            match self.private_key {
                Some(k) => r matches Ok(SignerChoice::PrivateKey(c)) && c@ == k@,
                None => if !self.ledger {
                    r matches Err(e) && e.message_view() == no_signer_message()
                } else {
                    r matches Ok(SignerChoice::Ledger { path, chain_id }) && chain_id
                        == self.chain_id && match self.ledger_path {
                        Some(p) => path matches LedgerPath::Other(q) && q@ == p@,
                        None => path == LedgerPath::LedgerLive(self.ledger_index),
                    }
                },
            },
    {
        if let Some(k) = &self.private_key {
            return Ok(SignerChoice::PrivateKey(owned(k.as_str())));
        }
        if !self.ledger {
            proof {
                reveal_strlit(
                    "choose a public signer with --private-key/HERMETIC_PRIVATE_KEY or --ledger",
                );
            }
            return Err(
                UndercoverError::Message(
                    owned(
                        "choose a public signer with --private-key/HERMETIC_PRIVATE_KEY or --ledger",
                    ),
                ),
            );
        }
        let path = match &self.ledger_path {
            Some(p) => LedgerPath::Other(owned(p.as_str())),
            None => LedgerPath::LedgerLive(self.ledger_index),
        };
        Ok(SignerChoice::Ledger { path, chain_id: self.chain_id })
    }
}

/// The recipient of an unshield: the given one, or else the public signer's
/// own address.
pub fn unshield_recipient(recipient: Option<String>, from: &[u8; 20]) -> (r: String)
    ensures
        r@ == match recipient {
            Some(x) => x@,
            None => address_checksum_text(from@),
        },
{
    match recipient {
        Some(x) => x,
        None => address_text(from),
    }
}

} // verus!
