use hermetic::sidecar::{
    reverse_rpc_reply, sidecar_args, sidecar_step, SidecarLine, SidecarRpcError, SidecarSession,
    SidecarStep,
};

fn message(step: SidecarStep) -> String {
    match step {
        SidecarStep::Fail(e) => e.message().clone(),
        _ => panic!("expected a failure"),
    }
}

#[test]
fn session_ids_increase() {
    let mut s = SidecarSession::new();
    assert_eq!(s.begin_call(), 1);
    assert_eq!(s.begin_call(), 2);
    assert_eq!(s.begin_call(), 3);
}

#[test]
fn matching_answer_finishes_the_call() {
    let line = SidecarLine::Response {
        id: 4,
        error: None,
        has_result: true,
    };
    assert!(matches!(sidecar_step(4, &line, false), SidecarStep::Finished));
    assert_eq!(
        message(sidecar_step(5, &line, false)),
        "sidecar response id mismatch: expected 5, got 4"
    );
}

#[test]
fn errors_and_empty_answers_fail() {
    let err = SidecarLine::Response {
        id: 1,
        error: Some(SidecarRpcError {
            code: -32000,
            message: "boom".into(),
            data: Some("{\"x\":1}".into()),
        }),
        has_result: false,
    };
    assert_eq!(
        message(sidecar_step(1, &err, true)),
        "sidecar error -32000: boom; data: {\"x\":1}"
    );
    let plain = SidecarLine::Response {
        id: 1,
        error: Some(SidecarRpcError {
            code: 7,
            message: "bad".into(),
            data: None,
        }),
        has_result: true,
    };
    assert_eq!(message(sidecar_step(1, &plain, true)), "sidecar error 7: bad");
    let empty = SidecarLine::Response {
        id: 1,
        error: None,
        has_result: false,
    };
    assert_eq!(
        message(sidecar_step(1, &empty, true)),
        "sidecar response had neither result nor error"
    );
}

#[test]
fn reverse_requests_need_a_handler() {
    let http = SidecarLine::Reverse {
        marker: true,
        id: 9,
        method: "__http_request".into(),
        params: serde_json::Value::Null,
    };
    assert!(matches!(
        sidecar_step(1, &http, true),
        SidecarStep::ServeHttp { id: 9 }
    ));
    assert_eq!(
        message(sidecar_step(1, &http, false)),
        "sidecar requested reverse RPC without a handler"
    );
    let rpc = SidecarLine::Reverse {
        marker: true,
        id: 3,
        method: "eth_chainId".into(),
        params: serde_json::Value::Null,
    };
    assert!(matches!(
        sidecar_step(1, &rpc, true),
        SidecarStep::ServeJsonRpc { id: 3 }
    ));
    assert!(matches!(
        sidecar_step(1, &SidecarLine::NotJson, true),
        SidecarStep::Ignore
    ));
    assert_eq!(
        message(sidecar_step(1, &SidecarLine::ReverseMalformed, true)),
        "decoding reverse RPC request"
    );
    assert_eq!(
        message(sidecar_step(1, &SidecarLine::ResponseMalformed, true)),
        "decoding sidecar JSON-RPC response"
    );
}

#[test]
fn reverse_replies_carry_the_request_id() {
    let ok = reverse_rpc_reply(5, Ok(serde_json::Value::Bool(true)));
    assert!(ok.undercover_reverse_rpc);
    assert_eq!(ok.id, 5);
    assert_eq!(ok.result, Some(serde_json::Value::Bool(true)));
    assert_eq!(ok.error, None);
    let err = reverse_rpc_reply(6, Err("nope".into()));
    assert_eq!(err.result, None);
    assert_eq!(err.error, Some("nope".to_owned()));
}

#[test]
fn sidecar_runs_offline_with_only_artifacts_mounted() {
    let args = sidecar_args("/srv/app");
    assert_eq!(
        args,
        vec![
            "run",
            "--rm",
            "-i",
            "--network",
            "none",
            "--read-only",
            "--cap-drop",
            "ALL",
            "--security-opt",
            "no-new-privileges",
            "--env",
            "UNDERCOVER_FORBIDDEN_ENV=",
            "--mount",
            "type=bind,source=/srv/app/artifacts,target=/app/artifacts",
            "undercover-sidecar:dev",
        ]
    );
}
