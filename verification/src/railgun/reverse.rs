//! Reverse requests: what the embedded runtime may ask the Rust side to fetch
//! through Tor, and how such a request is checked and shaped before it leaves.
//!
//! Reverse HTTP is scoped to an allowlist of services; the runtime names a
//! service and at most a path below its origin.
use base64::Engine as _;
use vstd::prelude::*;

use crate::error::UndercoverError;
use crate::text::{ascii_chars, concat, lossy_text, owned, str_eq};

verus! {

/// `serde_json::Value`, carried through unread.
#[verifier::external_type_specification]
#[verifier::external_body]
pub struct ExJsonValue(serde_json::Value);

/// An allowlisted reverse HTTP service.
pub struct ServiceSpec {
    pub origin: Seq<char>,
    pub default_path: Seq<char>,
    pub endpoint: Seq<char>,
}

/// The allowlist: Railgun Sepolia squid GraphQL and the PPOI aggregator.
pub open spec fn service_spec(name: Seq<char>) -> Option<ServiceSpec> {
    if name == "graphql"@ {
        Some(
            ServiceSpec {
                origin: "https://rail-squid.squids.live"@,
                default_path: "/squid-railgun-eth-sepolia-v2/graphql"@,
                endpoint: "https://rail-squid.squids.live/squid-railgun-eth-sepolia-v2/graphql"@,
            },
        )
    } else if name == "poi"@ {
        Some(
            ServiceSpec {
                origin: "https://ppoi-agg.horsewithsixlegs.xyz"@,
                default_path: "/"@,
                endpoint: "https://ppoi-agg.horsewithsixlegs.xyz"@,
            },
        )
    } else {
        None
    }
}

#[derive(Debug)]
struct ServiceEntry {
    origin: &'static str,
    default_path: &'static str,
    endpoint: &'static str,
}

impl ServiceEntry {
    closed spec fn spec(&self) -> ServiceSpec {
        ServiceSpec {
            origin: self.origin@,
            default_path: self.default_path@,
            endpoint: self.endpoint@,
        }
    }
}

fn find_service(name: &str) -> (r: Option<ServiceEntry>)
    ensures
        match r {
            Some(e) => service_spec(name@) == Some(e.spec()),
            None => service_spec(name@).is_none(),
        },
{
    if str_eq(name, "graphql") {
        Some(
            ServiceEntry {
                origin: "https://rail-squid.squids.live",
                default_path: "/squid-railgun-eth-sepolia-v2/graphql",
                endpoint: "https://rail-squid.squids.live/squid-railgun-eth-sepolia-v2/graphql",
            },
        )
    } else if str_eq(name, "poi") {
        Some(
            ServiceEntry {
                origin: "https://ppoi-agg.horsewithsixlegs.xyz",
                default_path: "/",
                endpoint: "https://ppoi-agg.horsewithsixlegs.xyz",
            },
        )
    } else {
        None
    }
}

/// Return a Rust-owned reverse HTTP endpoint by service name.
pub fn service_endpoint(name: &str) -> (r: Result<&'static str, UndercoverError>)
    ensures
        match r {
            Ok(e) => service_spec(name@) matches Some(s) && e@ == s.endpoint,
            Err(err) => service_spec(name@).is_none() && err.message_view()
                == "unknown reverse HTTP service endpoint: "@ + name@,
        },
{
    match find_service(name) {
        Some(entry) => Ok(entry.endpoint),
        None => {
            proof {
                reveal_strlit("unknown reverse HTTP service endpoint: ");
            }
            Err(
                UndercoverError::Message(
                    concat("unknown reverse HTTP service endpoint: ", name),
                ),
            )
        },
    }
}

/// Whether the `http` crate accepts `s` as a URI.
pub uninterp spec fn uri_parses(s: Seq<char>) -> bool;

/// `s` parses as an `http::Uri`.
///
/// Trusted: calls `<http::Uri as FromStr>::from_str` and reports whether it
/// succeeded; the claim is only that the answer is a function of `s`.
#[verifier::external_body]
fn uri_is_valid(s: &str) -> (r: bool)
    ensures
        r == uri_parses(s@),
{
    s.parse::<http::Uri>().is_ok()
}

/// The path of a reverse service request: the given one, or the service's
/// default.
pub open spec fn service_path(service: ServiceSpec, path: Option<Seq<char>>) -> Seq<char> {
    match path {
        Some(p) => p,
        None => service.default_path,
    }
}

/// What `service_uri` answers for a service name and an optional path.
pub open spec fn service_uri_result(name: Seq<char>, path: Option<Seq<char>>) -> Result<
    Seq<char>,
    Seq<char>,
> {
    match service_spec(name) {
        None => Err("unknown reverse HTTP service: "@ + name),
        Some(s) => {
            let p = service_path(s, path);
            if !(p.len() > 0 && p[0] == '/') {
                Err("reverse HTTP service path must start with /"@)
            } else if !uri_parses(s.origin + p) {
                Err("parsing reverse HTTP service URI"@)
            } else {
                Ok(s.origin + p)
            }
        },
    }
}

/// The view of an optional text.
pub open spec fn opt_view(o: Option<&str>) -> Option<Seq<char>> {
    match o {
        Some(s) => Some(s@),
        None => None,
    }
}

/// Compose an allowlisted Railgun reverse-service URI: the service's origin
/// followed by the given path, or by the service's default path.
pub fn service_uri(name: &str, path: Option<&str>) -> (r: Result<String, UndercoverError>)
    ensures
        match (r, service_uri_result(name@, opt_view(path))) {
            (Ok(u), Ok(v)) => u@ == v,
            (Err(e), Err(m)) => e.message_view() == m,
            _ => false,
        },
{
    let entry = match find_service(name) {
        Some(entry) => entry,
        None => {
            proof {
                reveal_strlit("unknown reverse HTTP service: ");
            }
            return Err(
                UndercoverError::Message(concat("unknown reverse HTTP service: ", name)),
            );
        },
    };
    let p: &str = match path {
        Some(p) => p,
        None => entry.default_path,
    };
    if !(p.unicode_len() > 0 && p.get_char(0) == '/') {
        proof {
            reveal_strlit("reverse HTTP service path must start with /");
        }
        return Err(
            UndercoverError::Message(owned("reverse HTTP service path must start with /")),
        );
    }
    let uri = concat(entry.origin, p);
    if !uri_is_valid(uri.as_str()) {
        proof {
            reveal_strlit("parsing reverse HTTP service URI");
        }
        return Err(UndercoverError::Message(owned("parsing reverse HTTP service URI")));
    }
    Ok(uri)
}

/// Every reverse HTTP URI that is handed out starts with the origin of an
/// allowlisted service, followed by a path that starts with `/`.
pub proof fn law_service_uri_is_allowlisted(name: Seq<char>, path: Option<Seq<char>>)
    ensures
        service_uri_result(name, path) matches Ok(u) ==> {
            &&& service_spec(name) matches Some(s)
            &&& (name == "graphql"@ || name == "poi"@)
            &&& u.len() > s.origin.len()
            &&& u.subrange(0, s.origin.len() as int) == s.origin
            &&& u[s.origin.len() as int] == '/'
        },
{
    if let Ok(u) = service_uri_result(name, path) {
        let s = service_spec(name).unwrap();
        let p = service_path(s, path);
        assert(u == s.origin + p);
        assert(u.subrange(0, s.origin.len() as int) =~= s.origin);
    }
}

/// Whether the `http` crate accepts `s` as a request method.
pub uninterp spec fn http_method_parses(s: Seq<char>) -> bool;

/// `s` parses as an `http::Method`.
///
/// Trusted: calls `<http::Method as FromStr>::from_str` and reports whether it
/// succeeded; the claim is only that the answer is a function of `s`.
#[verifier::external_body]
fn http_method_is_valid(s: &str) -> (r: bool)
    ensures
        r == http_method_parses(s@),
{
    s.parse::<http::Method>().is_ok()
}

/// The canonical (lower-case) form of a header name, when the `http` crate
/// accepts it.
pub uninterp spec fn header_name_of(s: Seq<char>) -> Option<Seq<char>>;

/// Parse a header name.
///
/// Trusted: calls `<http::HeaderName as FromStr>::from_str` and hands back
/// `HeaderName::as_str` of the result; the claim is only that the answer is a
/// function of `s`.
#[verifier::external_body]
fn parse_header_name(s: &str) -> (r: Option<String>)
    ensures
        match r {
            Some(n) => header_name_of(s@) == Some(n@),
            None => header_name_of(s@).is_none(),
        },
{
    match s.parse::<http::HeaderName>() {
        Ok(n) => Some(n.as_str().to_owned()),
        Err(_) => None,
    }
}

/// A character that a header value may hold: a tab, or anything from the
/// space up that is not DEL (the bytes of a non-ASCII character are all
/// above DEL).
pub open spec fn header_value_char_ok(c: char) -> bool {
    c == '\t' || (c as int >= 32 && c as int != 127)
}

/// Every character of `s` may stand in a header value.
pub open spec fn header_value_ok(s: Seq<char>) -> bool {
    forall|i: int| 0 <= i < s.len() ==> #[trigger] header_value_char_ok(s[i])
}

/// `s` is a valid header value.
///
/// Trusted: calls `http::HeaderValue::from_str`, whose source accepts exactly
/// the bytes that are a tab, or at least 32 and not 127.
#[verifier::external_body]
fn header_value_is_valid(s: &str) -> (r: bool)
    ensures
        r == header_value_ok(s@),
{
    http::HeaderValue::from_str(s).is_ok()
}

/// The bytes that standard Base64 text decodes to, when it is valid.
pub uninterp spec fn base64_decoded(s: Seq<char>) -> Option<Seq<u8>>;

/// Decode standard Base64.
///
/// Trusted: calls `base64::Engine::decode` on the `STANDARD` engine; the claim
/// is only that the answer is a function of `s`.
#[verifier::external_body]
fn base64_decode(s: &str) -> (r: Option<Vec<u8>>)
    ensures
        match r {
            Some(b) => base64_decoded(s@) == Some(b@),
            None => base64_decoded(s@).is_none(),
        },
{
    base64::engine::general_purpose::STANDARD.decode(s).ok()
}

/// The standard Base64 text of some bytes.
pub uninterp spec fn base64_encoded(b: Seq<u8>) -> Seq<char>;

/// Encode bytes as standard Base64.
///
/// Trusted: calls `base64::Engine::encode` on the `STANDARD` engine, which
/// panics only when the length of the output overflows `usize`; the claim is
/// only that the answer is a function of `b`.
#[verifier::external_body]
fn base64_encode(b: &[u8]) -> (r: String)
    requires
        b@.len() <= usize::MAX / 2,
    ensures
        r@ == base64_encoded(b@),
{
    base64::engine::general_purpose::STANDARD.encode(b)
}

/// A list of name/value text pairs, by view.
pub type Pairs = Seq<(Seq<char>, Seq<char>)>;

/// The view of a list of name/value strings.
pub open spec fn pairs_view(v: Seq<(String, String)>) -> Pairs {
    v.map_values(|p: (String, String)| (p.0@, p.1@))
}

/// The position of the first pair named `k`, or -1.
pub open spec fn key_index(s: Pairs, k: Seq<char>) -> int
    decreases s.len(),
{
    if s.len() == 0 {
        -1
    } else if s.last().0 == k && key_index(s.drop_last(), k) == -1 {
        s.len() - 1
    } else {
        key_index(s.drop_last(), k)
    }
}

/// `key_index` is the first position named `k`.
pub proof fn lemma_key_index(s: Pairs, k: Seq<char>)
    ensures
        -1 <= key_index(s, k) < s.len(),
        key_index(s, k) == -1 <==> (forall|j: int| 0 <= j < s.len() ==> s[j].0 != k),
        key_index(s, k) != -1 ==> s[key_index(s, k)].0 == k,
        forall|j: int| 0 <= j < key_index(s, k) ==> s[j].0 != k,
    decreases s.len(),
{
    if s.len() > 0 {
        lemma_key_index(s.drop_last(), k);
        assert forall|j: int| 0 <= j < s.len() - 1 implies s.drop_last()[j] == s[j] by {}
    }
}

/// Inserting into a header map: a value under a name that is already there
/// replaces it in place; a new name goes last.
pub open spec fn header_insert(s: Pairs, k: Seq<char>, v: Seq<char>) -> Pairs {
    let i = key_index(s, k);
    if i == -1 {
        s.push((k, v))
    } else {
        s.update(i, (k, v))
    }
}

/// A header that is never forwarded: the connection to the service is made
/// by the Rust side.
pub open spec fn is_hop_header(name: Seq<char>) -> bool {
    name == "host"@ || name == "connection"@
}

/// The headers forwarded for a reverse HTTP request, or the message of the
/// first header that is refused.
pub open spec fn forwarded_headers(hs: Pairs) -> Result<Pairs, Seq<char>>
    decreases hs.len(),
{
    if hs.len() == 0 {
        Ok(Seq::empty())
    } else {
        match forwarded_headers(hs.drop_last()) {
            Err(m) => Err(m),
            Ok(acc) => {
                let (n, v) = hs.last();
                match header_name_of(n) {
                    None => Err("invalid header "@ + n),
                    Some(name) => {
                        if is_hop_header(name) {
                            Ok(acc)
                        } else if !header_value_ok(v) {
                            Err("invalid value for "@ + name)
                        } else {
                            Ok(header_insert(acc, name, v))
                        }
                    },
                }
            },
        }
    }
}

/// Once a header is refused, no later header changes the answer.
proof fn lemma_forwarded_error_stays(hs: Pairs, i: int)
    requires
        0 <= i <= hs.len(),
        forwarded_headers(hs.subrange(0, i)) is Err,
    ensures
        forwarded_headers(hs) == forwarded_headers(hs.subrange(0, i)),
    decreases hs.len() - i,
{
    if i < hs.len() {
        let next = hs.subrange(0, i + 1);
        assert(next.drop_last() =~= hs.subrange(0, i));
        lemma_forwarded_error_stays(hs, i + 1);
    } else {
        assert(hs.subrange(0, i) =~= hs);
    }
}

/// Insert a header into a map kept as a list of pairs.
fn insert_header(out: &mut Vec<(String, String)>, name: String, value: String)
    ensures
        pairs_view(final(out)@) == header_insert(pairs_view(old(out)@), name@, value@),
{
    let ghost s = pairs_view(out@);
    let ghost k = name@;
    let ghost v = value@;
    let n = out.len();
    let mut i: usize = 0;
    while i < n
        invariant
            n == out.len(),
            s == pairs_view(out@),
            s == pairs_view(old(out)@),
            k == name@,
            v == value@,
            i <= n,
            forall|j: int| 0 <= j < i ==> s[j].0 != k,
        decreases n - i,
    {
        if str_eq(out[i].0.as_str(), name.as_str()) {
            assert(s[i as int].0 == k);
            proof {
                lemma_key_index(s, k);
            }
            assert(key_index(s, k) == i);
            out.set(i, (name, value));
            assert(pairs_view(out@) =~= s.update(i as int, (k, v)));
            return;
        }
        assert(s[i as int].0 != k);
        i = i + 1;
    }
    proof {
        lemma_key_index(s, k);
    }
    out.push((name, value));
    assert(pairs_view(out@) =~= s.push((k, v)));
}

/// Copy the headers of a reverse HTTP request: each name must parse, `Host`
/// and `Connection` are dropped, each remaining value must be valid, and a
/// later value under a name replaces an earlier one.
pub fn forward_headers(headers: &Vec<(String, String)>) -> (r: Result<
    Vec<(String, String)>,
    UndercoverError,
>)
    ensures
        match (r, forwarded_headers(pairs_view(headers@))) {
            (Ok(out), Ok(v)) => pairs_view(out@) == v,
            (Err(e), Err(m)) => e.message_view() == m,
            _ => false,
        },
{
    let ghost hs = pairs_view(headers@);
    let mut out: Vec<(String, String)> = Vec::new();
    let n = headers.len();
    let mut i: usize = 0;
    assert(hs.subrange(0, 0) =~= Seq::<(Seq<char>, Seq<char>)>::empty());
    assert(pairs_view(out@) =~= Seq::<(Seq<char>, Seq<char>)>::empty());
    while i < n
        invariant
            n == headers.len(),
            hs == pairs_view(headers@),
            i <= n,
            forwarded_headers(hs.subrange(0, i as int)) == Ok::<Pairs, Seq<char>>(
                pairs_view(out@),
            ),
        decreases n - i,
    {
        let ghost pre = hs.subrange(0, i as int);
        let ghost next = hs.subrange(0, i + 1);
        assert(next.drop_last() =~= pre);
        assert(next.last() == (headers@[i as int].0@, headers@[i as int].1@));
        let name = match parse_header_name(headers[i].0.as_str()) {
            Some(name) => name,
            None => {
                proof {
                    reveal_strlit("invalid header ");
                    lemma_forwarded_error_stays(hs, i + 1);
                }
                return Err(
                    UndercoverError::Message(concat("invalid header ", headers[i].0.as_str())),
                );
            },
        };
        let hop = str_eq(name.as_str(), "host") || str_eq(name.as_str(), "connection");
        if !hop {
            if !header_value_is_valid(headers[i].1.as_str()) {
                proof {
                    reveal_strlit("invalid value for ");
                    lemma_forwarded_error_stays(hs, i + 1);
                }
                return Err(UndercoverError::Message(concat("invalid value for ", name.as_str())));
            }
            let value = owned(headers[i].1.as_str());
            insert_header(&mut out, name, value);
        }
        i = i + 1;
    }
    assert(hs.subrange(0, n as int) =~= hs);
    Ok(out)
}

/// No forwarded header is `Host` or `Connection`, and no name is forwarded
/// twice.
pub proof fn law_forwarded_headers_are_clean(hs: Pairs)
    ensures
        forwarded_headers(hs) matches Ok(out) ==> {
            &&& forall|j: int| 0 <= j < out.len() ==> !is_hop_header(#[trigger] out[j].0)
            &&& forall|a: int, b: int|
                0 <= a < out.len() && 0 <= b < out.len() && a != b ==> #[trigger] out[a].0
                    != #[trigger] out[b].0
        },
    decreases hs.len(),
{
    if hs.len() > 0 {
        law_forwarded_headers_are_clean(hs.drop_last());
        if let Ok(acc) = forwarded_headers(hs.drop_last()) {
            let (n, v) = hs.last();
            if let Some(name) = header_name_of(n) {
                if !is_hop_header(name) && header_value_ok(v) {
                    lemma_key_index(acc, name);
                }
            }
        }
    }
}

/// A reverse HTTP request, checked and shaped: the allowlisted URI, the
/// method, the forwarded headers and the decoded body.
#[derive(Debug)]
pub struct PreparedHttpRequest {
    pub uri: String,
    pub method: String,
    pub headers: Vec<(String, String)>,
    pub body: Vec<u8>,
}

/// The view of a reverse HTTP request.
pub struct ReverseHttpRequestView {
    pub service: Seq<char>,
    pub path: Option<Seq<char>>,
    pub method: Seq<char>,
    pub headers: Pairs,
    pub body_base64: Option<Seq<char>>,
}

/// The view of a shaped reverse HTTP request.
pub struct PreparedHttpRequestView {
    pub uri: Seq<char>,
    pub method: Seq<char>,
    pub headers: Pairs,
    pub body: Seq<u8>,
}

/// The view of an optional string.
pub open spec fn opt_string_view(o: Option<String>) -> Option<Seq<char>> {
    match o {
        Some(s) => Some(s@),
        None => None,
    }
}

/// What shaping a reverse HTTP request gives: the URI is checked first, then
/// the method, then the body, then the headers.
pub open spec fn prepared_request(req: ReverseHttpRequestView) -> Result<
    PreparedHttpRequestView,
    Seq<char>,
> {
    match service_uri_result(req.service, req.path) {
        Err(m) => Err(m),
        Ok(uri) => if !http_method_parses(req.method) {
            Err("parsing reverse HTTP method"@)
        } else {
            let body = match req.body_base64 {
                Some(b) => base64_decoded(b),
                None => Some(Seq::<u8>::empty()),
            };
            match body {
                None => Err("decoding reverse HTTP request body"@),
                Some(body) => match forwarded_headers(req.headers) {
                    Err(m) => Err(m),
                    Ok(headers) => Ok(
                        PreparedHttpRequestView { uri, method: req.method, headers, body },
                    ),
                },
            }
        },
    }
}

impl ReverseHttpRequest {
    pub open spec fn view_req(&self) -> ReverseHttpRequestView {
        ReverseHttpRequestView {
            service: self.service@,
            path: opt_string_view(self.path),
            method: self.method@,
            headers: pairs_view(self.headers@),
            body_base64: opt_string_view(self.body_base64),
        }
    }
}

impl PreparedHttpRequest {
    pub open spec fn view_prepared(&self) -> PreparedHttpRequestView {
        PreparedHttpRequestView {
            uri: self.uri@,
            method: self.method@,
            headers: pairs_view(self.headers@),
            body: self.body@,
        }
    }
}

/// Check and shape a reverse HTTP request before it is sent through Tor.
pub fn prepare_service_http_request(request: &ReverseHttpRequest) -> (r: Result<
    PreparedHttpRequest,
    UndercoverError,
>)
    ensures
        match (r, prepared_request(request.view_req())) {
            (Ok(p), Ok(v)) => p.view_prepared() == v,
            (Err(e), Err(m)) => e.message_view() == m,
            _ => false,
        },
{
    let path: Option<&str> = match &request.path {
        Some(p) => Some(p.as_str()),
        None => None,
    };
    assert(opt_view(path) == opt_string_view(request.path));
    let uri = service_uri(request.service.as_str(), path)?;
    if !http_method_is_valid(request.method.as_str()) {
        proof {
            reveal_strlit("parsing reverse HTTP method");
        }
        return Err(UndercoverError::Message(owned("parsing reverse HTTP method")));
    }
    let body = match &request.body_base64 {
        Some(b) => match base64_decode(b.as_str()) {
            Some(body) => body,
            None => {
                proof {
                    reveal_strlit("decoding reverse HTTP request body");
                }
                return Err(UndercoverError::Message(owned("decoding reverse HTTP request body")));
            },
        },
        None => Vec::new(),
    };
    let headers = forward_headers(&request.headers)?;
    let p = PreparedHttpRequest { uri, method: owned(request.method.as_str()), headers, body };
    assert(p.view_prepared().body =~= prepared_request(request.view_req())->Ok_0.body);
    Ok(p)
}

/// A byte that `HeaderValue::to_str` accepts: a tab, or visible ASCII.
pub open spec fn visible_ascii(b: u8) -> bool {
    (32 <= b && b < 127) || b == 9
}

/// The response headers handed back to the runtime: those whose value is
/// visible ASCII, in order, as text.
pub open spec fn visible_headers(hs: Seq<(Seq<char>, Seq<u8>)>) -> Pairs
    decreases hs.len(),
{
    if hs.len() == 0 {
        Seq::empty()
    } else {
        let rest = visible_headers(hs.drop_last());
        let (n, v) = hs.last();
        if forall|i: int| 0 <= i < v.len() ==> #[trigger] visible_ascii(v[i]) {
            rest.push((n, ascii_chars(v)))
        } else {
            rest
        }
    }
}

/// The headers handed back are built one raw header at a time, in order: a
/// header is kept, with its value as ASCII text, exactly when every byte of
/// its value is a tab or lies in 32..=126 (the space included); otherwise it
/// is dropped.
pub proof fn law_visible_headers_follow_to_str(
    hs: Seq<(Seq<char>, Seq<u8>)>,
    n: Seq<char>,
    v: Seq<u8>,
)
    ensures
        visible_headers(Seq::empty()) == Seq::<(Seq<char>, Seq<char>)>::empty(),
        (forall|i: int| 0 <= i < v.len() ==> v[i] == 9 || (32 <= v[i] && v[i] <= 126))
            ==> visible_headers(hs.push((n, v))) == visible_headers(hs).push((n, ascii_chars(v))),
        (exists|i: int| 0 <= i < v.len() && !(v[i] == 9 || (32 <= v[i] && v[i] <= 126)))
            ==> visible_headers(hs.push((n, v))) == visible_headers(hs),
{
    let t = hs.push((n, v));
    assert(t.drop_last() =~= hs);
    assert(t.last() == (n, v));
    if forall|i: int| 0 <= i < v.len() ==> v[i] == 9 || (32 <= v[i] && v[i] <= 126) {
        assert forall|i: int| 0 <= i < v.len() implies #[trigger] visible_ascii(v[i]) by {}
    }
    if exists|i: int| 0 <= i < v.len() && !(v[i] == 9 || (32 <= v[i] && v[i] <= 126)) {
        let i = choose|i: int| 0 <= i < v.len() && !(v[i] == 9 || (32 <= v[i] && v[i] <= 126));
        assert(!visible_ascii(v[i]));
    }
}

/// Whether `HeaderValue::to_str` would accept these bytes.
fn all_visible_ascii(v: &[u8]) -> (r: bool)
    ensures
        r == (forall|i: int| 0 <= i < v@.len() ==> #[trigger] visible_ascii(v@[i])),
{
    let n = v.len();
    let mut i: usize = 0;
    while i < n
        invariant
            n == v@.len(),
            i <= n,
            forall|j: int| 0 <= j < i ==> #[trigger] visible_ascii(v@[j]),
        decreases n - i,
    {
        let b = v[i];
        if !((32 <= b && b < 127) || b == 9) {
            assert(!visible_ascii(v@[i as int]));
            return false;
        }
        i = i + 1;
    }
    true
}

/// The view of raw response headers.
pub open spec fn raw_headers_view(v: Seq<(String, Vec<u8>)>) -> Seq<(Seq<char>, Seq<u8>)> {
    v.map_values(|p: (String, Vec<u8>)| (p.0@, p.1@))
}

/// Hand a service's answer back to the runtime: the status, the headers whose
/// values are visible ASCII, and the body in Base64.
pub fn finish_service_http_response(
    status: u16,
    headers: &Vec<(String, Vec<u8>)>,
    body: &[u8],
) -> (r: ReverseHttpResponse)
    requires
        body@.len() <= usize::MAX / 2,
    ensures
        r.status == status,
        pairs_view(r.headers@) == visible_headers(raw_headers_view(headers@)),
        r.body_base64@ == base64_encoded(body@),
{
    let ghost hs = raw_headers_view(headers@);
    let mut out: Vec<(String, String)> = Vec::new();
    let n = headers.len();
    let mut i: usize = 0;
    assert(hs.subrange(0, 0) =~= Seq::<(Seq<char>, Seq<u8>)>::empty());
    assert(pairs_view(out@) =~= Seq::<(Seq<char>, Seq<char>)>::empty());
    while i < n
        invariant
            n == headers.len(),
            hs == raw_headers_view(headers@),
            i <= n,
            visible_headers(hs.subrange(0, i as int)) == pairs_view(out@),
        decreases n - i,
    {
        let ghost pre = hs.subrange(0, i as int);
        let ghost next = hs.subrange(0, i + 1);
        assert(next.drop_last() =~= pre);
        assert(next.last() == (headers@[i as int].0@, headers@[i as int].1@));
        let value = headers[i].1.as_slice();
        if all_visible_ascii(value) {
            assert forall|j: int| 0 <= j < value@.len() implies value@[j] < 128 by {
                assert(visible_ascii(value@[j]));
            }
            let text = lossy_text(value);
            let name = owned(headers[i].0.as_str());
            let ghost before = out@;
            out.push((name, text));
            assert(pairs_view(out@) =~= pairs_view(before).push((headers@[i as int].0@, ascii_chars(headers@[i as int].1@))));
        }
        i = i + 1;
    }
    assert(hs.subrange(0, n as int) =~= hs);
    ReverseHttpResponse { status, headers: out, body_base64: base64_encode(body) }
}

/// A path given to a known service is put right after the service's origin:
/// a successful URI is the origin followed by that path, and passing the
/// service's default path gives the same answer as passing no path.
pub proof fn law_service_uri_path(name: Seq<char>, p: Seq<char>)
    ensures
        service_spec(name) matches Some(s) ==> service_uri_result(name, Some(s.default_path))
            == service_uri_result(name, None),
        service_uri_result(name, Some(p)) matches Ok(u) ==> {
            &&& service_spec(name) matches Some(s)
            &&& u == s.origin + p
            &&& u.len() == s.origin.len() + p.len()
            &&& u.subrange(s.origin.len() as int, u.len() as int) == p
        },
{
    if let Ok(u) = service_uri_result(name, Some(p)) {
        let s = service_spec(name).unwrap();
        assert(u == s.origin + p);
        assert(u.subrange(s.origin.len() as int, u.len() as int) =~= p);
    }
}

/// A reverse HTTP request emitted by the embedded runtime.
#[derive(Debug)]
pub struct ReverseHttpRequest {
    pub service: String,
    pub path: Option<String>,
    pub method: String,
    pub headers: Vec<(String, String)>,
    pub body_base64: Option<String>,
}

/// The answer to a reverse HTTP request.
#[derive(Debug)]
pub struct ReverseHttpResponse {
    pub status: u16,
    pub headers: Vec<(String, String)>,
    pub body_base64: String,
}

/// A reverse request: JSON-RPC to the configured endpoint, or HTTP to an
/// allowlisted service.
#[derive(Debug)]
pub enum ReverseRequest {
    JsonRpc { method: String, params: serde_json::Value },
    ServiceHttp { request: ReverseHttpRequest },
}

/// The answer to a reverse request.
#[derive(Debug)]
pub enum ReverseResponse {
    JsonRpc(serde_json::Value),
    Http(ReverseHttpResponse),
}

} // verus!
