use hermetic::cli::{create_wallet_call, import_wallet_call, RailgunImportArgs, RailgunKeyArgs};
use hermetic::railgun::host::EmbeddedHostState;
use hermetic::eth::tx::Wei;
use hermetic::railgun::artifacts::Artifact;
use hermetic::railgun::runtime::{
    check_health, check_isolation, check_shielded_address, decode_call_status, plan_call,
    railgun_permissions, RuntimeCall,
};
use hermetic::railgun::{Health, LoadedWallet, PermissionsReport};

fn isolated() -> PermissionsReport {
    PermissionsReport {
        fetch_denied: true,
        connect_denied: true,
        node_net_denied: true,
        write_denied: true,
        env_denied: true,
        read_allowed: true,
    }
}

#[test]
fn network_calls_need_a_tor_rpc_client() {
    let refresh = RuntimeCall::RefreshBalance {
        wallet_id: "w".into(),
    };
    assert_eq!(
        plan_call(&refresh, false).unwrap_err().message(),
        "Railgun runtime was created without a Tor RPC client"
    );
    let plan = plan_call(&refresh, true).unwrap();
    assert_eq!(plan.method, "refresh_balance");
    assert!(plan.with_reverse);
    assert_eq!(plan.timeout_secs, Some(180));

    let health = plan_call(&RuntimeCall::Health, false).unwrap();
    assert_eq!(health.method, "health");
    assert!(!health.with_reverse);
    assert_eq!(health.timeout_secs, None);

    let smoke = plan_call(&RuntimeCall::PermissionsSmoke { node_net_port: 1 }, false).unwrap();
    assert_eq!(smoke.method, "runtime-permissions-smoke");
}

#[test]
fn amounts_are_sent_in_decimal() {
    let amount = Wei {
        limbs: [0, 1, 0, 0],
    };
    match RuntimeCall::populate_shield_base_token("0zk1", &amount) {
        RuntimeCall::PopulateShieldBaseToken {
            railgun_address,
            amount_wei,
        } => {
            assert_eq!(railgun_address, "0zk1");
            assert_eq!(amount_wei, "18446744073709551616");
        }
        _ => panic!("wrong call"),
    }
    let call = RuntimeCall::prepare_unshield_base_token("w", "0xrec", "key", &Wei { limbs: [7, 0, 0, 0] });
    assert_eq!(call.method_name(), "prepare_unshield_base_token");
    assert_eq!(call.timeout_secs(), Some(900));
    match call {
        RuntimeCall::PrepareUnshieldBaseToken {
            public_wallet_address,
            amount_wei,
            ..
        } => {
            assert_eq!(public_wallet_address, "0xrec");
            assert_eq!(amount_wei, "7");
        }
        _ => panic!("wrong call"),
    }
}

#[test]
fn call_status_reports_the_runtime_error() {
    assert!(decode_call_status(Some(true), None).is_ok());
    assert_eq!(
        decode_call_status(Some(false), Some("boom")).unwrap_err().message(),
        "embedded Railgun error: boom"
    );
    assert_eq!(
        decode_call_status(None, None).unwrap_err().message(),
        "embedded Railgun error: unknown error"
    );
}

#[test]
fn permissions_confine_writes_to_artifacts() {
    let p = railgun_permissions("/work");
    assert_eq!(
        p.allow_read,
        vec![
            "/work/artifacts",
            "/work/embedded",
            "/work/railgun-runtime/node_modules/@railgun-community"
        ]
    );
    assert_eq!(p.allow_write, vec!["/work/artifacts"]);
    assert_eq!(
        p.allow_env,
        vec![
            "WS_NO_BUFFER_UTIL",
            "WS_NO_UTF_8_VALIDATE",
            "READABLE_STREAM",
            "NODE_ENV"
        ]
    );
    assert_eq!(p.allow_sys, vec!["cpus"]);
    assert!(!p.prompt);
    assert_eq!(railgun_permissions("/").allow_write, vec!["/artifacts"]);
}

#[test]
fn doctor_checks_health_and_isolation() {
    let healthy = Health {
        sdk_version: "1".into(),
        shared_models_version: "2".into(),
        node_compat: true,
    };
    assert!(check_health(&healthy).is_ok());
    let broken = Health {
        node_compat: false,
        ..healthy
    };
    assert_eq!(
        check_health(&broken).unwrap_err().message(),
        "embedded SDK imports did not load"
    );
    assert!(check_isolation(&isolated()).is_ok());
    let mut leaky = isolated();
    leaky.connect_denied = false;
    leaky.env_denied = false;
    assert_eq!(
        check_isolation(&leaky).unwrap_err().message(),
        "embedded Deno connect was not denied"
    );
    let mut unreadable = isolated();
    unreadable.read_allowed = false;
    assert_eq!(
        check_isolation(&unreadable).unwrap_err().message(),
        "embedded artifact read was denied"
    );
}

#[test]
fn imported_wallets_need_a_railgun_address() {
    let good = LoadedWallet {
        wallet_id: "w".into(),
        shielded_address: "0zk1qy".into(),
    };
    assert!(check_shielded_address(&good).is_ok());
    let bad = LoadedWallet {
        wallet_id: "w".into(),
        shielded_address: "0x1234".into(),
    };
    assert_eq!(
        check_shielded_address(&bad).unwrap_err().message(),
        "embedded runtime returned non-Railgun address"
    );
}

#[test]
fn artifact_paths_live_under_the_store() {
    let a = Artifact::new("/work");
    assert_eq!(a.workdir(), "/work");
    assert_eq!(a.root(), "/work/artifacts");
    assert_eq!(a.path("wallets.json"), "/work/artifacts/wallets.json");
    let b = Artifact::new("/work/");
    assert_eq!(b.root(), "/work/artifacts");
}

#[test]
fn reverse_client_only_while_installed() {
    let mut state: EmbeddedHostState<u32> = EmbeddedHostState::new(Artifact::new("/w"));
    assert_eq!(
        state.reverse_client().unwrap_err().message(),
        "reverse request attempted without RPC client"
    );
    state.set_rpc_client(Some(7));
    assert_eq!(*state.reverse_client().unwrap(), 7);
    state.set_rpc_client(None);
    assert!(state.reverse_client().is_err());
    assert_eq!(state.artifact().root(), "/w/artifacts");
}

#[test]
fn wallet_calls_carry_the_operator_key() {
    let import = import_wallet_call(&RailgunImportArgs {
        railgun_mnemonic: "test test".into(),
        key: RailgunKeyArgs {
            encryption_key: "k1".into(),
        },
    });
    assert_eq!(import.method_name(), "load_wallet");
    match import {
        RuntimeCall::LoadWallet {
            mnemonic,
            encryption_key,
            creation_block,
        } => {
            assert_eq!(mnemonic, "test test");
            assert_eq!(encryption_key, "k1");
            assert_eq!(creation_block, None);
        }
        _ => panic!("wrong call"),
    }
    let create = create_wallet_call(&RailgunKeyArgs {
        encryption_key: "k2".into(),
    });
    assert_eq!(create.method_name(), "create_wallet");
    assert!(!create.needs_reverse());
}
