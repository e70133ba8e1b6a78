//! The options of the command line, as plain values, and the runtime calls
//! that the wallet commands make from them.
use vstd::prelude::*;

use crate::error::UndercoverError;
use crate::railgun::manifest::{not_found_message, selector_index, WalletManifest};
use crate::railgun::runtime::RuntimeCall;
use crate::text::owned;

verus! {

/// The default Tor state directory.
pub const DEFAULT_TOR_STATE: &'static str = "./.arti/state";

/// The default Tor cache directory.
pub const DEFAULT_TOR_CACHE: &'static str = "./.arti/cache";

/// The default work directory.
pub const DEFAULT_WORKDIR: &'static str = ".";

/// Where the Tor client keeps its state and cache.
#[derive(Debug)]
pub struct TorArgs {
    pub tor_state: String,
    pub tor_cache: String,
}

/// The work directory, which holds `artifacts/` and `embedded/`.
#[derive(Debug)]
pub struct WorkdirArgs {
    pub workdir: String,
}

/// The key that encrypts Railgun wallets; supplied by the operator.
#[derive(Debug)]
pub struct RailgunKeyArgs {
    pub encryption_key: String,
}

/// A mnemonic to import, with its encryption key.
#[derive(Debug)]
pub struct RailgunImportArgs {
    pub railgun_mnemonic: String,
    pub key: RailgunKeyArgs,
}

/// A wallet chosen by label or wallet ID, with its encryption key.
#[derive(Debug)]
pub struct WalletSelectionArgs {
    pub wallet: String,
    pub key: RailgunKeyArgs,
}

/// The wallet subcommands.
#[derive(Debug)]
pub enum WalletCommand {
    /// Import a mnemonic into the Railgun SDK artifact store.
    Import { workdir: WorkdirArgs, label: String, railgun: RailgunImportArgs },
    /// Create a new Railgun wallet and print the mnemonic once.
    Create { workdir: WorkdirArgs, label: String, railgun: RailgunKeyArgs },
    /// List known Railgun wallets without exposing secrets.
    List { workdir: WorkdirArgs },
}

/// The call that imports a mnemonic: the mnemonic goes only to the SDK's
/// wallet import.
pub fn import_wallet_call(railgun: &RailgunImportArgs) -> (r: RuntimeCall)
    ensures
        r matches RuntimeCall::LoadWallet { mnemonic, encryption_key, creation_block }
            && mnemonic@ == railgun.railgun_mnemonic@ && encryption_key@
            == railgun.key.encryption_key@ && creation_block.is_none(),
{
    RuntimeCall::LoadWallet {
        mnemonic: owned(railgun.railgun_mnemonic.as_str()),
        encryption_key: owned(railgun.key.encryption_key.as_str()),
        creation_block: None,
    }
}

/// The call that creates a wallet under the operator's key.
pub fn create_wallet_call(key: &RailgunKeyArgs) -> (r: RuntimeCall)
    ensures
        r matches RuntimeCall::CreateWallet { encryption_key } && encryption_key@
            == key.encryption_key@,
{
    RuntimeCall::CreateWallet { encryption_key: owned(key.encryption_key.as_str()) }
}

/// The call that loads the selected wallet: the manifest is searched by label
/// or wallet ID, and the wallet is loaded by its ID, never by mnemonic.
pub fn load_selected_wallet_call(manifest: &WalletManifest, selection: &WalletSelectionArgs) -> (r:
    Result<RuntimeCall, UndercoverError>)
    ensures
        match r {
            Ok(call) => {
                let i = selector_index(manifest@, selection.wallet@);
                &&& i != -1
                &&& call matches RuntimeCall::LoadWalletById { wallet_id, encryption_key }
                    && wallet_id@ == manifest@[i].wallet_id && encryption_key@
                    == selection.key.encryption_key@
            },
            Err(e) => selector_index(manifest@, selection.wallet@) == -1 && e.message_view()
                == not_found_message(selection.wallet@),
        },
{
    let record = manifest.select(selection.wallet.as_str())?;
    Ok(
        RuntimeCall::LoadWalletById {
            wallet_id: owned(record.wallet_id.as_str()),
            encryption_key: owned(selection.key.encryption_key.as_str()),
        },
    )
}

} // verus!
