//! Tor egress decisions: which streams the connector opens, and how the
//! JSON-RPC transport reads an HTTP status. Every outbound stream of the
//! process is opened by the Tor client with the host name as given, so DNS
//! resolution stays with Tor.
use vstd::prelude::*;

use crate::error::UndercoverError;
use crate::eth::tx::decimal_text;
use crate::text::{lossy_text, owned, str_eq, utf8_lossy};

verus! {

/// The purpose an isolated Tor client is made for.
#[derive(Debug)]
pub enum IsolationLabel {
    EventSync,
    Shield,
    Transfer,
    Unshield,
}

/// The default port of an `https` URI.
pub const HTTPS_PORT: u16 = 443;

/// The view of an optional text.
pub open spec fn opt_str_view(o: Option<&str>) -> Option<Seq<char>> {
    match o {
        Some(s) => Some(s@),
        None => None,
    }
}

/// Where the connector opens a stream for a URI with these parts: a missing
/// scheme counts as `https`, any other scheme is refused, the host is needed,
/// and a missing port is 443.
pub open spec fn connect_target_result(
    scheme: Option<Seq<char>>,
    host: Option<Seq<char>>,
    port: Option<u16>,
) -> Result<(Seq<char>, u16), Seq<char>> {
    let s = match scheme {
        Some(s) => s,
        None => "https"@,
    };
    if s != "https"@ {
        Err("only https RPC URLs are allowed"@)
    } else {
        match host {
            None => Err("RPC URI does not contain a host"@),
            Some(h) => Ok(
                (
                    h,
                    match port {
                        Some(p) => p,
                        None => 443u16,
                    },
                ),
            ),
        }
    }
}

/// Decide where to open a Tor stream for a URI given by its scheme, host and
/// port.
pub fn connect_target(scheme: Option<&str>, host: Option<&str>, port: Option<u16>) -> (r: Result<
    (String, u16),
    UndercoverError,
>)
    ensures
        match (r, connect_target_result(opt_str_view(scheme), opt_str_view(host), port)) {
            (Ok((h, p)), Ok((vh, vp))) => h@ == vh && p == vp,
            (Err(e), Err(m)) => e.message_view() == m,
            _ => false,
        },
{
    proof {
        reveal_strlit("https");
        reveal_strlit("only https RPC URLs are allowed");
        reveal_strlit("RPC URI does not contain a host");
    }
    let s: &str = match scheme {
        Some(s) => s,
        None => "https",
    };
    if !str_eq(s, "https") {
        return Err(UndercoverError::Message(owned("only https RPC URLs are allowed")));
    }
    let h = match host {
        Some(h) => h,
        None => {
            return Err(UndercoverError::Message(owned("RPC URI does not contain a host")));
        },
    };
    let p = match port {
        Some(p) => p,
        None => HTTPS_PORT,
    };
    Ok((owned(h), p))
}

/// Streams are only ever opened for `https`, to the host of the URI itself,
/// and on port 443 unless the URI says otherwise.
pub proof fn law_only_https_streams(
    scheme: Option<Seq<char>>,
    host: Option<Seq<char>>,
    port: Option<u16>,
)
    ensures
        connect_target_result(scheme, host, port) matches Ok((h, p)) ==> {
            &&& (scheme.is_none() || scheme == Some("https"@))
            &&& host == Some(h)
            &&& (port.is_none() ==> p == 443)
            &&& (port matches Some(q) ==> p == q)
        },
{
}

/// A successful HTTP status.
pub open spec fn is_success_status(status: u16) -> bool {
    200 <= status < 300
}

/// The canonical reason phrase of a status, or `<unknown status code>`.
pub uninterp spec fn status_reason_text(status: u16) -> Seq<char>;

/// The text of a status as `http::StatusCode`'s `Display` prints it: the code
/// in decimal, a space, and the reason.
///
/// Trusted: calls `StatusCode::from_u16` (which accepts 100 to 999) and
/// `Display`, whose source writes the code, a space, and
/// `canonical_reason().unwrap_or("<unknown status code>")`.
#[verifier::external_body]
fn status_text(status: u16) -> (r: String)
    requires
        100 <= status <= 999,
    ensures
        r@ == decimal_text(status as nat) + " "@ + status_reason_text(status),
{
    match http::StatusCode::from_u16(status) {
        Ok(code) => code.to_string(),
        Err(_) => String::new(),
    }
}

/// The message of a JSON-RPC answer with an unsuccessful status.
pub open spec fn rpc_status_message(status: u16, body: Seq<u8>) -> Seq<char> {
    "RPC HTTP status "@ + decimal_text(status as nat) + " "@ + status_reason_text(status) + ": "@
        + utf8_lossy(body)
}

/// Check the HTTP status of a JSON-RPC answer: only 2xx answers are decoded.
pub fn check_rpc_http_status(status: u16, body: &[u8]) -> (r: Result<(), UndercoverError>)
    requires
        100 <= status <= 999,
    ensures
        match r {
            Ok(()) => is_success_status(status),
            Err(e) => !is_success_status(status) && e.message_view() == rpc_status_message(
                status,
                body@,
            ),
        },
{
    if 200 <= status && status < 300 {
        return Ok(());
    }
    proof {
        reveal_strlit("RPC HTTP status ");
        reveal_strlit(": ");
    }
    let mut m = owned("RPC HTTP status ");
    let s = status_text(status);
    m.append(s.as_str());
    m.append(": ");
    let b = lossy_text(body);
    m.append(b.as_str());
    Err(UndercoverError::Message(m))
}

} // verus!
