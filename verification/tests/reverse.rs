use hermetic::railgun::reverse::{
    finish_service_http_response, forward_headers, prepare_service_http_request, service_endpoint,
    service_uri, ReverseHttpRequest,
};

fn request(service: &str, path: Option<&str>, method: &str) -> ReverseHttpRequest {
    ReverseHttpRequest {
        service: service.into(),
        path: path.map(Into::into),
        method: method.into(),
        headers: Vec::new(),
        body_base64: None,
    }
}

fn pairs(v: &[(&str, &str)]) -> Vec<(String, String)> {
    v.iter().map(|(a, b)| (a.to_string(), b.to_string())).collect()
}

#[test]
fn service_endpoint_knows_the_allowlist() {
    assert_eq!(
        service_endpoint("graphql").unwrap(),
        "https://rail-squid.squids.live/squid-railgun-eth-sepolia-v2/graphql"
    );
    assert_eq!(
        service_endpoint("poi").unwrap(),
        "https://ppoi-agg.horsewithsixlegs.xyz"
    );
    assert_eq!(
        service_endpoint("evil").unwrap_err().message(),
        "unknown reverse HTTP service endpoint: evil"
    );
}

#[test]
fn service_uri_composes_origin_and_path() {
    assert_eq!(
        service_uri("graphql", None).unwrap(),
        "https://rail-squid.squids.live/squid-railgun-eth-sepolia-v2/graphql"
    );
    assert_eq!(
        service_uri("poi", None).unwrap(),
        "https://ppoi-agg.horsewithsixlegs.xyz/"
    );
    assert_eq!(
        service_uri("poi", Some("/node/status")).unwrap(),
        "https://ppoi-agg.horsewithsixlegs.xyz/node/status"
    );
}

#[test]
fn service_uri_refuses_unknown_services_and_relative_paths() {
    assert_eq!(
        service_uri("graph", None).unwrap_err().message(),
        "unknown reverse HTTP service: graph"
    );
    assert_eq!(
        service_uri("poi", Some("evil.com")).unwrap_err().message(),
        "reverse HTTP service path must start with /"
    );
    assert_eq!(
        service_uri("poi", Some("")).unwrap_err().message(),
        "reverse HTTP service path must start with /"
    );
    assert_eq!(
        service_uri("poi", Some("/a b")).unwrap_err().message(),
        "parsing reverse HTTP service URI"
    );
}

#[test]
fn forwarded_headers_drop_host_and_connection() {
    let out = forward_headers(&pairs(&[
        ("Host", "evil.example"),
        ("Content-Type", "application/json"),
        ("CONNECTION", "close"),
        ("X-Trace", "1"),
        ("content-type", "text/plain"),
    ]))
    .unwrap();
    assert_eq!(
        out,
        pairs(&[("content-type", "text/plain"), ("x-trace", "1")])
    );
}

#[test]
fn forwarded_headers_report_the_refused_header() {
    assert_eq!(
        forward_headers(&pairs(&[("bad header", "x")]))
            .unwrap_err()
            .message(),
        "invalid header bad header"
    );
    assert_eq!(
        forward_headers(&pairs(&[("X-Ok", "fine"), ("X-Bad", "a\u{1}b")]))
            .unwrap_err()
            .message(),
        "invalid value for x-bad"
    );
    let ok = forward_headers(&pairs(&[("X-Tab", "a\tb"), ("X-Utf8", "é")])).unwrap();
    assert_eq!(ok.len(), 2);
}

#[test]
fn prepare_decodes_body_and_checks_method() {
    let mut req = request("graphql", None, "POST");
    req.body_base64 = Some("aGVsbG8=".into());
    req.headers = pairs(&[("Accept", "*/*")]);
    let p = prepare_service_http_request(&req).unwrap();
    assert_eq!(
        p.uri,
        "https://rail-squid.squids.live/squid-railgun-eth-sepolia-v2/graphql"
    );
    assert_eq!(p.method, "POST");
    assert_eq!(p.body, b"hello".to_vec());
    assert_eq!(p.headers, pairs(&[("accept", "*/*")]));

    let no_body = prepare_service_http_request(&request("poi", Some("/"), "GET")).unwrap();
    assert!(no_body.body.is_empty());
}

#[test]
fn prepare_checks_in_order() {
    let mut req = request("nope", None, "BAD METHOD");
    req.body_base64 = Some("***".into());
    assert_eq!(
        prepare_service_http_request(&req).unwrap_err().message(),
        "unknown reverse HTTP service: nope"
    );
    req.service = "poi".into();
    assert_eq!(
        prepare_service_http_request(&req).unwrap_err().message(),
        "parsing reverse HTTP method"
    );
    req.method = "GET".into();
    assert_eq!(
        prepare_service_http_request(&req).unwrap_err().message(),
        "decoding reverse HTTP request body"
    );
    req.body_base64 = None;
    req.headers = pairs(&[("Bad Name", "x")]);
    assert_eq!(
        prepare_service_http_request(&req).unwrap_err().message(),
        "invalid header Bad Name"
    );
}

#[test]
fn finish_keeps_visible_headers_and_encodes_body() {
    let headers = vec![
        ("content-type".to_string(), b"application/json".to_vec()),
        ("x-binary".to_string(), vec![0xff, 0x00]),
        ("x-tab".to_string(), b"a\tb".to_vec()),
    ];
    let r = finish_service_http_response(200, &headers, b"hello");
    assert_eq!(r.status, 200);
    assert_eq!(
        r.headers,
        pairs(&[("content-type", "application/json"), ("x-tab", "a\tb")])
    );
    assert_eq!(r.body_base64, "aGVsbG8=");
}
