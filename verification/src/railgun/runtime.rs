//! The calls made into the embedded Railgun runtime, the permissions the
//! runtime is given, and the checks made on what it answers.
use vstd::prelude::*;

use crate::error::UndercoverError;
use crate::eth::tx::{decimal_text, wei_text, Wei};
use crate::railgun::manifest::{RecordView, WalletManifest, WalletRecord, upserted};
use crate::railgun::types::{Health, LoadedWallet, PermissionsReport};
use crate::text::{concat, has_prefix, join_path, joined_path, owned, str_starts_with};

verus! {

/// A call into the embedded runtime, with its parameters.
#[derive(Debug)]
pub enum RuntimeCall {
    Health,
    PermissionsSmoke { node_net_port: u16 },
    LoadWallet { mnemonic: String, encryption_key: String, creation_block: Option<u64> },
    CreateWallet { encryption_key: String },
    LoadWalletById { wallet_id: String, encryption_key: String },
    PopulateShieldBaseToken { railgun_address: String, amount_wei: String },
    RefreshBalance { wallet_id: String },
    PrepareUnshieldBaseToken {
        wallet_id: String,
        public_wallet_address: String,
        encryption_key: String,
        amount_wei: String,
    },
}

/// The method name the runtime's `invoke` export dispatches on.
pub open spec fn method_name_of(call: RuntimeCall) -> Seq<char> {
    match call {
        RuntimeCall::Health => "health"@,
        RuntimeCall::PermissionsSmoke { .. } => "runtime-permissions-smoke"@,
        RuntimeCall::LoadWallet { .. } => "load_wallet"@,
        RuntimeCall::CreateWallet { .. } => "create_wallet"@,
        RuntimeCall::LoadWalletById { .. } => "load_wallet_by_id"@,
        RuntimeCall::PopulateShieldBaseToken { .. } => "populate_shield_base_token"@,
        RuntimeCall::RefreshBalance { .. } => "refresh_balance"@,
        RuntimeCall::PrepareUnshieldBaseToken { .. } => "prepare_unshield_base_token"@,
    }
}

/// The calls that need network data, fetched through reverse requests.
pub open spec fn needs_reverse_of(call: RuntimeCall) -> bool {
    match call {
        RuntimeCall::PopulateShieldBaseToken { .. } => true,
        RuntimeCall::RefreshBalance { .. } => true,
        RuntimeCall::PrepareUnshieldBaseToken { .. } => true,
        _ => false,
    }
}

/// How long a call may run, in seconds: three minutes for a balance refresh,
/// fifteen for proving an unshield, no limit otherwise.
pub open spec fn timeout_of(call: RuntimeCall) -> Option<u64> {
    match call {
        RuntimeCall::RefreshBalance { .. } => Some(180),
        RuntimeCall::PrepareUnshieldBaseToken { .. } => Some(900),
        _ => None,
    }
}

/// The calls that fetch network data (populating a shield, refreshing a
/// balance, preparing an unshield) are exactly those served with reverse
/// requests, so `plan_call` refuses exactly them when the runtime has no Tor
/// RPC client; and every call with a time limit is one of them.
pub proof fn law_network_calls_need_reverse(call: RuntimeCall)
    ensures
        needs_reverse_of(call) <==> (call is PopulateShieldBaseToken || call is RefreshBalance
            || call is PrepareUnshieldBaseToken),
        timeout_of(call) is Some ==> needs_reverse_of(call),
{
}

impl RuntimeCall {
    /// The method name of the call.
    pub fn method_name(&self) -> (r: &'static str)
        ensures
            r@ == method_name_of(*self),
    {
        match self {
            RuntimeCall::Health => "health",
            RuntimeCall::PermissionsSmoke { .. } => "runtime-permissions-smoke",
            RuntimeCall::LoadWallet { .. } => "load_wallet",
            RuntimeCall::CreateWallet { .. } => "create_wallet",
            RuntimeCall::LoadWalletById { .. } => "load_wallet_by_id",
            RuntimeCall::PopulateShieldBaseToken { .. } => "populate_shield_base_token",
            RuntimeCall::RefreshBalance { .. } => "refresh_balance",
            RuntimeCall::PrepareUnshieldBaseToken { .. } => "prepare_unshield_base_token",
        }
    }

    /// Whether the call needs reverse requests.
    pub fn needs_reverse(&self) -> (r: bool)
        ensures
            r == needs_reverse_of(*self),
    {
        match self {
            RuntimeCall::PopulateShieldBaseToken { .. } => true,
            RuntimeCall::RefreshBalance { .. } => true,
            RuntimeCall::PrepareUnshieldBaseToken { .. } => true,
            _ => false,
        }
    }

    /// The time limit of the call, in seconds.
    pub fn timeout_secs(&self) -> (r: Option<u64>)
        ensures
            r == timeout_of(*self),
    {
        match self {
            RuntimeCall::RefreshBalance { .. } => Some(180),
            RuntimeCall::PrepareUnshieldBaseToken { .. } => Some(900),
            _ => None,
        }
    }

    /// Populate a base-token shield transaction for `amount_wei` (sent in
    /// decimal) to the shielded address.
    pub fn populate_shield_base_token(railgun_address: &str, amount_wei: &Wei) -> (r: RuntimeCall)
        ensures
            r matches RuntimeCall::PopulateShieldBaseToken { railgun_address: a, amount_wei: w }
                && a@ == railgun_address@ && w@ == decimal_text(amount_wei.value() as nat),
    {
        RuntimeCall::PopulateShieldBaseToken {
            railgun_address: owned(railgun_address),
            amount_wei: wei_text(amount_wei),
        }
    }

    /// Prove and prepare a base-token unshield of `amount_wei` (sent in
    /// decimal) to the public `recipient`.
    pub fn prepare_unshield_base_token(
        wallet_id: &str,
        recipient: &str,
        encryption_key: &str,
        amount_wei: &Wei,
    ) -> (r: RuntimeCall)
        ensures
            r matches RuntimeCall::PrepareUnshieldBaseToken {
                wallet_id: i,
                public_wallet_address: p,
                encryption_key: k,
                amount_wei: w,
            } && i@ == wallet_id@ && p@ == recipient@ && k@ == encryption_key@ && w@
                == decimal_text(amount_wei.value() as nat),
    {
        RuntimeCall::PrepareUnshieldBaseToken {
            wallet_id: owned(wallet_id),
            public_wallet_address: owned(recipient),
            encryption_key: owned(encryption_key),
            amount_wei: wei_text(amount_wei),
        }
    }
}

/// How a call is made: its method, whether reverse requests are served while
/// it runs, and its time limit in seconds.
#[derive(Debug)]
pub struct CallPlan {
    pub method: &'static str,
    pub with_reverse: bool,
    pub timeout_secs: Option<u64>,
}

/// The message of a call that needs a Tor RPC client when there is none.
pub open spec fn missing_rpc_client_message() -> Seq<char> {
    "Railgun runtime was created without a Tor RPC client"@
}

/// Plan a call: a call that needs network data is refused when the runtime
/// has no Tor RPC client; reverse requests are served exactly for such calls.
pub fn plan_call(call: &RuntimeCall, has_rpc_client: bool) -> (r: Result<CallPlan, UndercoverError>)
    ensures
        match r {
            Ok(p) => {
                &&& !needs_reverse_of(*call) || has_rpc_client
                &&& p.method@ == method_name_of(*call)
                &&& p.with_reverse == needs_reverse_of(*call)
                &&& p.timeout_secs == timeout_of(*call)
            },
            Err(e) => needs_reverse_of(*call) && !has_rpc_client && e.message_view()
                == missing_rpc_client_message(),
        },
{
    let with_reverse = call.needs_reverse();
    if with_reverse && !has_rpc_client {
        proof {
            reveal_strlit("Railgun runtime was created without a Tor RPC client");
        }
        return Err(
            UndercoverError::Message(owned("Railgun runtime was created without a Tor RPC client")),
        );
    }
    Ok(CallPlan { method: call.method_name(), with_reverse, timeout_secs: call.timeout_secs() })
}

/// The message of a call that the runtime reports as failed.
pub open spec fn runtime_error_message(error: Option<Seq<char>>) -> Seq<char> {
    "embedded Railgun error: "@ + match error {
        Some(e) => e,
        None => "unknown error"@,
    }
}

/// Read the status of a runtime answer: it succeeded only when its `ok` field
/// is `true`; otherwise its `error` text (when it is a string) is reported.
pub fn decode_call_status(ok: Option<bool>, error: Option<&str>) -> (r: Result<(), UndercoverError>)
    ensures
        match r {
            Ok(()) => ok == Some(true),
            Err(e) => ok != Some(true) && e.message_view() == runtime_error_message(
                match error {
                    Some(s) => Some(s@),
                    None => None,
                },
            ),
        },
{
    if let Some(true) = ok {
        return Ok(());
    }
    proof {
        reveal_strlit("embedded Railgun error: ");
        reveal_strlit("unknown error");
    }
    let detail: &str = match error {
        Some(e) => e,
        None => "unknown error",
    };
    Err(UndercoverError::Message(concat("embedded Railgun error: ", detail)))
}

/// The permissions given to the embedded runtime. Everything not listed is
/// denied, network access included.
#[derive(Debug)]
pub struct PermissionPlan {
    pub allow_read: Vec<String>,
    pub allow_write: Vec<String>,
    pub allow_env: Vec<String>,
    pub allow_sys: Vec<String>,
    pub prompt: bool,
}

/// The view of a list of strings.
pub open spec fn strings_view(v: Seq<String>) -> Seq<Seq<char>> {
    v.map_values(|s: String| s@)
}

/// The environment variables the runtime may read.
pub open spec fn allowed_env() -> Seq<Seq<char>> {
    seq![
        "WS_NO_BUFFER_UTIL"@,
        "WS_NO_UTF_8_VALIDATE"@,
        "READABLE_STREAM"@,
        "NODE_ENV"@,
    ]
}

/// What the runtime of a work directory may read: the artifact store, the
/// embedded bundle and the Railgun WASM packages.
pub open spec fn allowed_read(workdir: Seq<char>) -> Seq<Seq<char>> {
    seq![
        joined_path(workdir, "artifacts"@),
        joined_path(workdir, "embedded"@),
        joined_path(workdir, "railgun-runtime/node_modules/@railgun-community"@),
    ]
}

/// What the runtime of a work directory may write: the artifact store.
pub open spec fn allowed_write(workdir: Seq<char>) -> Seq<Seq<char>> {
    seq![joined_path(workdir, "artifacts"@)]
}

/// The permissions of the runtime of a work directory: it may read the
/// artifact store, the embedded bundle and the Railgun WASM packages, write
/// only the artifact store, read four environment variables, and query the
/// CPU count.
pub fn railgun_permissions(workdir: &str) -> (p: PermissionPlan)
    ensures
        strings_view(p.allow_read@) == allowed_read(workdir@),
        strings_view(p.allow_write@) == allowed_write(workdir@),
        strings_view(p.allow_env@) == allowed_env(),
        strings_view(p.allow_sys@) == seq!["cpus"@],
        !p.prompt,
{
    let artifacts = join_path(workdir, "artifacts");
    let embedded = join_path(workdir, "embedded");
    let wasm = join_path(workdir, "railgun-runtime/node_modules/@railgun-community");
    let mut allow_write: Vec<String> = Vec::new();
    allow_write.push(owned(artifacts.as_str()));
    let mut allow_read: Vec<String> = Vec::new();
    allow_read.push(artifacts);
    allow_read.push(embedded);
    allow_read.push(wasm);
    let mut allow_env: Vec<String> = Vec::new();
    allow_env.push(owned("WS_NO_BUFFER_UTIL"));
    allow_env.push(owned("WS_NO_UTF_8_VALIDATE"));
    allow_env.push(owned("READABLE_STREAM"));
    allow_env.push(owned("NODE_ENV"));
    let mut allow_sys: Vec<String> = Vec::new();
    allow_sys.push(owned("cpus"));
    let p = PermissionPlan { allow_read, allow_write, allow_env, allow_sys, prompt: false };
    assert(strings_view(p.allow_read@) =~= allowed_read(workdir@));
    assert(strings_view(p.allow_write@) =~= allowed_write(workdir@));
    assert(strings_view(p.allow_env@) =~= allowed_env());
    assert(strings_view(p.allow_sys@) =~= seq!["cpus"@]);
    p
}

/// The runtime may write only where it may read, and only the artifact store,
/// which lies under the work directory.
pub proof fn law_writes_stay_in_artifacts(workdir: Seq<char>)
    ensures
        has_prefix(joined_path(workdir, "artifacts"@), workdir),
        forall|i: int|
            0 <= i < allowed_write(workdir).len() ==> allowed_read(workdir).contains(
                #[trigger] allowed_write(workdir)[i],
            ),
        forall|i: int|
            0 <= i < allowed_write(workdir).len() ==> #[trigger] allowed_write(workdir)[i]
                == joined_path(workdir, "artifacts"@),
{
    assert forall|i: int| 0 <= i < allowed_write(workdir).len() implies allowed_read(
        workdir,
    ).contains(#[trigger] allowed_write(workdir)[i]) by {
        assert(allowed_read(workdir)[0] == allowed_write(workdir)[i]);
    }
    reveal_strlit("artifacts");
    reveal_strlit("/");
    let j = joined_path(workdir, "artifacts"@);
    assert(j.subrange(0, workdir.len() as int) =~= workdir);
}

/// The message of a failed health check.
pub open spec fn imports_failed_message() -> Seq<char> {
    "embedded SDK imports did not load"@
}

/// The runtime is healthy when its SDK imports loaded.
pub fn check_health(health: &Health) -> (r: Result<(), UndercoverError>)
    ensures
        match r {
            Ok(()) => health.node_compat,
            Err(e) => !health.node_compat && e.message_view() == imports_failed_message(),
        },
{
    if !health.node_compat {
        proof {
            reveal_strlit("embedded SDK imports did not load");
        }
        return Err(UndercoverError::Message(owned("embedded SDK imports did not load")));
    }
    Ok(())
}

/// The runtime is isolated: ambient fetch, `Deno.connect`, `node:net`, writes
/// outside the artifact store and broad environment reads are all denied,
/// while artifact reads are allowed.
pub open spec fn is_isolated(p: PermissionsReport) -> bool {
    p.fetch_denied && p.connect_denied && p.node_net_denied && p.write_denied && p.env_denied
        && p.read_allowed
}

/// The message of the first isolation check that fails, in the order the
/// checks are made.
pub open spec fn isolation_failure(p: PermissionsReport) -> Seq<char> {
    if !p.fetch_denied {
        "embedded Deno fetch was not denied"@
    } else if !p.connect_denied {
        "embedded Deno connect was not denied"@
    } else if !p.node_net_denied {
        "embedded node:net was not denied"@
    } else if !p.write_denied {
        "embedded write outside artifacts was not denied"@
    } else if !p.env_denied {
        "embedded broad env read was not denied"@
    } else {
        "embedded artifact read was denied"@
    }
}

/// The runtime counts as isolated only when every probe reports isolation,
/// and a probe that fails is named: the first failing one in the order fetch,
/// connect, `node:net`, write, environment, artifact read.
pub proof fn law_isolation_needs_every_probe(p: PermissionsReport)
    ensures
        is_isolated(p) <==> (p.fetch_denied && p.connect_denied && p.node_net_denied
            && p.write_denied && p.env_denied && p.read_allowed),
        !p.fetch_denied ==> isolation_failure(p) == "embedded Deno fetch was not denied"@,
        p.fetch_denied && !p.connect_denied ==> isolation_failure(p)
            == "embedded Deno connect was not denied"@,
        p.fetch_denied && p.connect_denied && !p.node_net_denied ==> isolation_failure(p)
            == "embedded node:net was not denied"@,
        p.fetch_denied && p.connect_denied && p.node_net_denied && !p.write_denied
            ==> isolation_failure(p) == "embedded write outside artifacts was not denied"@,
        p.fetch_denied && p.connect_denied && p.node_net_denied && p.write_denied
            && !p.env_denied ==> isolation_failure(p) == "embedded broad env read was not denied"@,
        p.fetch_denied && p.connect_denied && p.node_net_denied && p.write_denied && p.env_denied
            && !p.read_allowed ==> isolation_failure(p) == "embedded artifact read was denied"@,
{
}

/// Check the answer of the runtime's permission probe.
pub fn check_isolation(report: &PermissionsReport) -> (r: Result<(), UndercoverError>)
    ensures
        match r {
            Ok(()) => is_isolated(*report),
            Err(e) => !is_isolated(*report) && e.message_view() == isolation_failure(*report),
        },
{
    proof {
        reveal_strlit("embedded Deno fetch was not denied");
        reveal_strlit("embedded Deno connect was not denied");
        reveal_strlit("embedded node:net was not denied");
        reveal_strlit("embedded write outside artifacts was not denied");
        reveal_strlit("embedded broad env read was not denied");
        reveal_strlit("embedded artifact read was denied");
    }
    if !report.fetch_denied {
        return Err(UndercoverError::Message(owned("embedded Deno fetch was not denied")));
    }
    if !report.connect_denied {
        return Err(UndercoverError::Message(owned("embedded Deno connect was not denied")));
    }
    if !report.node_net_denied {
        return Err(UndercoverError::Message(owned("embedded node:net was not denied")));
    }
    if !report.write_denied {
        return Err(
            UndercoverError::Message(owned("embedded write outside artifacts was not denied")),
        );
    }
    if !report.env_denied {
        return Err(UndercoverError::Message(owned("embedded broad env read was not denied")));
    }
    if !report.read_allowed {
        return Err(UndercoverError::Message(owned("embedded artifact read was denied")));
    }
    Ok(())
}

/// The message of an imported wallet whose address is not a Railgun one.
pub open spec fn non_railgun_address_message() -> Seq<char> {
    "embedded runtime returned non-Railgun address"@
}

/// An imported wallet must have a Railgun shielded address, which starts with
/// `0zk`.
pub fn check_shielded_address(wallet: &LoadedWallet) -> (r: Result<(), UndercoverError>)
    ensures
        match r {
            Ok(()) => has_prefix(wallet.shielded_address@, "0zk"@),
            Err(e) => !has_prefix(wallet.shielded_address@, "0zk"@) && e.message_view()
                == non_railgun_address_message(),
        },
{
    if str_starts_with(wallet.shielded_address.as_str(), "0zk") {
        return Ok(());
    }
    proof {
        reveal_strlit("embedded runtime returned non-Railgun address");
    }
    Err(UndercoverError::Message(owned("embedded runtime returned non-Railgun address")))
}

/// The manifest record of a wallet known by `label`.
pub fn record(label: &str, wallet: LoadedWallet) -> (r: WalletRecord)
    ensures
        r@ == (RecordView {
            label: label@,
            wallet_id: wallet.wallet_id@,
            shielded_address: wallet.shielded_address@,
        }),
{
    WalletRecord {
        label: owned(label),
        wallet_id: wallet.wallet_id,
        shielded_address: wallet.shielded_address,
    }
}

/// Record a wallet under `label` in the manifest, replacing any wallet with
/// that label.
pub fn upsert_wallet_record(manifest: &mut WalletManifest, label: &str, wallet: LoadedWallet)
    ensures
        final(manifest)@ == upserted(
            old(manifest)@,
            RecordView {
                label: label@,
                wallet_id: wallet.wallet_id@,
                shielded_address: wallet.shielded_address@,
            },
        ),
{
    let r = record(label, wallet);
    manifest.upsert(r);
}

} // verus!
