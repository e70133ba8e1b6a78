//! The line protocol of the legacy Node sidecar: JSON-RPC requests written one
//! per line, answered one per line, with reverse RPC requests from the sidecar
//! served in between. The process and its pipes belong to the application;
//! the decisions of the protocol are made here.
use vstd::prelude::*;

use crate::error::UndercoverError;
use crate::eth::tx::decimal_text;
use crate::railgun::types::PermissionsReport;
use crate::text::{joined_path, join_path, owned, str_eq};

verus! {

/// The answer of the sidecar's permission probe.
pub type PermissionSmoke = PermissionsReport;

/// The request IDs of a sidecar session.
#[derive(Debug)]
pub struct SidecarSession {
    next_id: u64,
}

impl SidecarSession {
    /// The ID the next request will carry.
    pub closed spec fn next_id_view(&self) -> u64 {
        self.next_id
    }

    /// A new session; its first request carries ID 1.
    pub fn new() -> (s: SidecarSession)
        ensures
            s.next_id_view() == 1,
    {
        SidecarSession { next_id: 1 }
    }

    /// The ID the next request will carry.
    pub fn next_id(&self) -> (r: u64)
        ensures
            r == self.next_id_view(),
    {
        self.next_id
    }

    /// The ID of a new request. IDs are handed out in increasing order.
    pub fn begin_call(&mut self) -> (id: u64)
        requires
            old(self).next_id_view() < u64::MAX,
        ensures
            id == old(self).next_id_view(),
            final(self).next_id_view() == old(self).next_id_view() + 1,
    {
        let id = self.next_id;
        self.next_id = self.next_id + 1;
        id
    }
}

/// The error member of a JSON-RPC answer; `data` is the JSON text of its data.
#[derive(Debug)]
pub struct SidecarRpcError {
    pub code: i64,
    pub message: String,
    pub data: Option<String>,
}

/// One line read from the sidecar, as the application decoded it.
#[derive(Debug)]
pub enum SidecarLine {
    /// The line is not JSON.
    NotJson,
    /// The line carries the reverse RPC marker and decodes as a reverse request.
    Reverse { marker: bool, id: u64, method: String, params: serde_json::Value },
    /// The line carries the reverse RPC marker but does not decode.
    ReverseMalformed,
    /// The line decodes as a JSON-RPC answer.
    Response { id: u64, error: Option<SidecarRpcError>, has_result: bool },
    /// The line is JSON but not a JSON-RPC answer.
    ResponseMalformed,
}

/// What to do with a line read from the sidecar.
#[derive(Debug)]
pub enum SidecarStep {
    /// Skip the line and read the next one.
    Ignore,
    /// Serve a reverse HTTP request with the given ID.
    ServeHttp { id: u64 },
    /// Serve a reverse JSON-RPC request with the given ID.
    ServeJsonRpc { id: u64 },
    /// The call is answered; hand back its result.
    Finished,
    /// The call fails.
    Fail(UndercoverError),
}

/// The text of a signed number in decimal.
pub open spec fn signed_decimal_text(n: int) -> Seq<char> {
    if n < 0 {
        "-"@ + decimal_text((-n) as nat)
    } else {
        decimal_text(n as nat)
    }
}

/// The decimal text of a `u64`.
///
/// Trusted: calls `u64`'s `Display`, which prints the number in base 10.
#[verifier::external_body]
fn u64_text(n: u64) -> (r: String)
    ensures
        r@ == decimal_text(n as nat),
{
    n.to_string()
}

/// The decimal text of an `i64`.
///
/// Trusted: calls `i64`'s `Display`, which prints a minus sign before the
/// magnitude of a negative number.
#[verifier::external_body]
fn i64_text(n: i64) -> (r: String)
    ensures
        r@ == signed_decimal_text(n as int),
{
    n.to_string()
}

/// The message of a JSON-RPC error from the sidecar.
pub open spec fn sidecar_error_message(code: i64, message: Seq<char>, data: Option<Seq<char>>) -> Seq<
    char,
> {
    match data {
        Some(d) => "sidecar error "@ + signed_decimal_text(code as int) + ": "@ + message
            + "; data: "@ + d,
        None => "sidecar error "@ + signed_decimal_text(code as int) + ": "@ + message,
    }
}

/// The kind of a step, and its message when it fails.
pub enum StepView {
    Ignore,
    ServeHttp { id: u64 },
    ServeJsonRpc { id: u64 },
    Finished,
    Fail(Seq<char>),
}

impl SidecarStep {
    pub open spec fn view_step(&self) -> StepView {
        match self {
            SidecarStep::Ignore => StepView::Ignore,
            SidecarStep::ServeHttp { id } => StepView::ServeHttp { id: *id },
            SidecarStep::ServeJsonRpc { id } => StepView::ServeJsonRpc { id: *id },
            SidecarStep::Finished => StepView::Finished,
            SidecarStep::Fail(e) => StepView::Fail(e.message_view()),
        }
    }
}

/// The method name under which the sidecar asks for reverse HTTP.
pub open spec fn http_request_method() -> Seq<char> {
    "__http_request"@
}

/// What to do with a line, while waiting for the answer to request
/// `expected_id`.
pub open spec fn step_for(expected_id: u64, line: SidecarLine, has_reverse_handler: bool) -> StepView {
    match line {
        SidecarLine::NotJson => StepView::Ignore,
        SidecarLine::ReverseMalformed => StepView::Fail("decoding reverse RPC request"@),
        SidecarLine::Reverse { marker, id, method, .. } => if !marker {
            StepView::Fail("invalid reverse RPC marker from sidecar"@)
        } else if !has_reverse_handler {
            StepView::Fail("sidecar requested reverse RPC without a handler"@)
        } else if method@ == http_request_method() {
            StepView::ServeHttp { id }
        } else {
            StepView::ServeJsonRpc { id }
        },
        SidecarLine::ResponseMalformed => StepView::Fail("decoding sidecar JSON-RPC response"@),
        SidecarLine::Response { id, error, has_result } => if id != expected_id {
            StepView::Fail(
                "sidecar response id mismatch: expected "@ + decimal_text(expected_id as nat)
                    + ", got "@ + decimal_text(id as nat),
            )
        } else {
            match error {
                Some(e) => StepView::Fail(
                    sidecar_error_message(
                        e.code,
                        e.message@,
                        match e.data {
                            Some(d) => Some(d@),
                            None => None,
                        },
                    ),
                ),
                None => if has_result {
                    StepView::Finished
                } else {
                    StepView::Fail("sidecar response had neither result nor error"@)
                },
            }
        },
    }
}

/// Decide what to do with a line read from the sidecar.
pub fn sidecar_step(expected_id: u64, line: &SidecarLine, has_reverse_handler: bool) -> (r:
    SidecarStep)
    ensures
        r.view_step() == step_for(expected_id, *line, has_reverse_handler),
{
    proof {
        reveal_strlit("decoding reverse RPC request");
        reveal_strlit("invalid reverse RPC marker from sidecar");
        reveal_strlit("sidecar requested reverse RPC without a handler");
        reveal_strlit("decoding sidecar JSON-RPC response");
        reveal_strlit("sidecar response id mismatch: expected ");
        reveal_strlit(", got ");
        reveal_strlit("sidecar error ");
        reveal_strlit(": ");
        reveal_strlit("; data: ");
        reveal_strlit("sidecar response had neither result nor error");
    }
    match line {
        SidecarLine::NotJson => SidecarStep::Ignore,
        SidecarLine::ReverseMalformed => SidecarStep::Fail(
            UndercoverError::Message(owned("decoding reverse RPC request")),
        ),
        SidecarLine::Reverse { marker, id, method, .. } => {
            if !*marker {
                SidecarStep::Fail(
                    UndercoverError::Message(owned("invalid reverse RPC marker from sidecar")),
                )
            } else if !has_reverse_handler {
                SidecarStep::Fail(
                    UndercoverError::Message(
                        owned("sidecar requested reverse RPC without a handler"),
                    ),
                )
            } else if str_eq(method.as_str(), "__http_request") {
                SidecarStep::ServeHttp { id: *id }
            } else {
                SidecarStep::ServeJsonRpc { id: *id }
            }
        },
        SidecarLine::ResponseMalformed => SidecarStep::Fail(
            UndercoverError::Message(owned("decoding sidecar JSON-RPC response")),
        ),
        SidecarLine::Response { id, error, has_result } => {
            if *id != expected_id {
                let mut m = owned("sidecar response id mismatch: expected ");
                let a = u64_text(expected_id);
                m.append(a.as_str());
                m.append(", got ");
                let b = u64_text(*id);
                m.append(b.as_str());
                return SidecarStep::Fail(UndercoverError::Message(m));
            }
            match error {
                Some(e) => {
                    let mut m = owned("sidecar error ");
                    let c = i64_text(e.code);
                    m.append(c.as_str());
                    m.append(": ");
                    m.append(e.message.as_str());
                    if let Some(d) = &e.data {
                        m.append("; data: ");
                        m.append(d.as_str());
                    }
                    SidecarStep::Fail(UndercoverError::Message(m))
                },
                None => {
                    if *has_result {
                        SidecarStep::Finished
                    } else {
                        SidecarStep::Fail(
                            UndercoverError::Message(
                                owned("sidecar response had neither result nor error"),
                            ),
                        )
                    }
                },
            }
        },
    }
}

/// A call is answered only by a JSON-RPC answer that carries the call's own
/// ID, has no error, and has a result.
pub proof fn law_only_matching_answers_finish(
    expected_id: u64,
    line: SidecarLine,
    has_reverse_handler: bool,
)
    ensures
        step_for(expected_id, line, has_reverse_handler) == StepView::Finished ==> (
        line matches SidecarLine::Response { id, error, has_result } && id == expected_id
            && error.is_none() && has_result),
{
}

/// A reverse request is served only when a handler is installed, and answers
/// carry the ID of the request they answer.
pub proof fn law_reverse_needs_handler(expected_id: u64, line: SidecarLine)
    ensures
        !(step_for(expected_id, line, false) is ServeHttp),
        !(step_for(expected_id, line, false) is ServeJsonRpc),
        step_for(expected_id, line, true) matches StepView::ServeHttp { id } ==> (
        line matches SidecarLine::Reverse { id: rid, .. } && rid == id),
        step_for(expected_id, line, true) matches StepView::ServeJsonRpc { id } ==> (
        line matches SidecarLine::Reverse { id: rid, .. } && rid == id),
{
}

/// The image the sidecar runs.
pub open spec fn sidecar_image() -> Seq<char> {
    "undercover-sidecar:dev"@
}

/// The arguments of `docker` that run the sidecar for a work directory: no
/// network, a read-only root, no capabilities, no privilege gain, a blanked
/// probe variable, and only the artifact store mounted.
pub open spec fn sidecar_args_spec(workdir: Seq<char>) -> Seq<Seq<char>> {
    seq![
        "run"@,
        "--rm"@,
        "-i"@,
        "--network"@,
        "none"@,
        "--read-only"@,
        "--cap-drop"@,
        "ALL"@,
        "--security-opt"@,
        "no-new-privileges"@,
        "--env"@,
        "UNDERCOVER_FORBIDDEN_ENV="@,
        "--mount"@,
        "type=bind,source="@ + joined_path(workdir, "artifacts"@) + ",target=/app/artifacts"@,
        sidecar_image(),
    ]
}

/// The arguments of `docker` that run the sidecar, for a canonical work
/// directory.
pub fn sidecar_args(workdir: &str) -> (r: Vec<String>)
    ensures
        r@.map_values(|s: String| s@) == sidecar_args_spec(workdir@),
{
    let mut mount = owned("type=bind,source=");
    let artifacts = join_path(workdir, "artifacts");
    mount.append(artifacts.as_str());
    mount.append(",target=/app/artifacts");
    let mut r: Vec<String> = Vec::new();
    r.push(owned("run"));
    r.push(owned("--rm"));
    r.push(owned("-i"));
    r.push(owned("--network"));
    r.push(owned("none"));
    r.push(owned("--read-only"));
    r.push(owned("--cap-drop"));
    r.push(owned("ALL"));
    r.push(owned("--security-opt"));
    r.push(owned("no-new-privileges"));
    r.push(owned("--env"));
    r.push(owned("UNDERCOVER_FORBIDDEN_ENV="));
    r.push(owned("--mount"));
    r.push(mount);
    r.push(owned("undercover-sidecar:dev"));
    proof {
        reveal_strlit("type=bind,source=");
        reveal_strlit(",target=/app/artifacts");
    }
    assert(r@.map_values(|s: String| s@) =~= sidecar_args_spec(workdir@));
    r
}

/// The sidecar runs without a network: its arguments ask for network `none`
/// and mount nothing but the artifact store.
pub proof fn law_sidecar_is_offline(workdir: Seq<char>)
    ensures
        sidecar_args_spec(workdir)[3] == "--network"@,
        sidecar_args_spec(workdir)[4] == "none"@,
        forall|i: int|
            0 <= i < sidecar_args_spec(workdir).len() && #[trigger] sidecar_args_spec(workdir)[i]
                == "--mount"@ ==> i == 12,
{
    assert forall|i: int|
        0 <= i < sidecar_args_spec(workdir).len() && #[trigger] sidecar_args_spec(workdir)[i]
            == "--mount"@ implies i == 12 by {
        reveal_strlit("--mount");
        reveal_strlit("run");
        reveal_strlit("--rm");
        reveal_strlit("-i");
        reveal_strlit("--network");
        reveal_strlit("none");
        reveal_strlit("--read-only");
        reveal_strlit("--cap-drop");
        reveal_strlit("ALL");
        reveal_strlit("--security-opt");
        reveal_strlit("no-new-privileges");
        reveal_strlit("--env");
        reveal_strlit("UNDERCOVER_FORBIDDEN_ENV=");
        reveal_strlit("undercover-sidecar:dev");
        reveal_strlit("type=bind,source=");
        if i != 12 {
            assert(sidecar_args_spec(workdir)[i].len() != 7 || sidecar_args_spec(workdir)[i][2] != 'm');
        }
    }
}

/// The answer to a reverse RPC request, written back to the sidecar.
#[derive(Debug)]
pub struct ReverseRpcResponse {
    pub undercover_reverse_rpc: bool,
    pub id: u64,
    pub result: Option<serde_json::Value>,
    pub error: Option<String>,
}

/// Answer the reverse request `id` with its outcome: the result, or the
/// error's message.
pub fn reverse_rpc_reply(id: u64, outcome: Result<serde_json::Value, String>) -> (r:
    ReverseRpcResponse)
    ensures
        r.undercover_reverse_rpc,
        r.id == id,
        match outcome {
            Ok(v) => r.result == Some(v) && r.error.is_none(),
            Err(m) => r.result.is_none() && r.error == Some(m),
        },
{
    match outcome {
        Ok(v) => ReverseRpcResponse { undercover_reverse_rpc: true, id, result: Some(v), error: None },
        Err(m) => ReverseRpcResponse { undercover_reverse_rpc: true, id, result: None, error: Some(m) },
    }
}

} // verus!
