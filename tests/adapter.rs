use spin_adapter::convert::{decode_request, decode_response, encode_response, NativeRequest, NativeResponse};
use spin_adapter::dispatch::{http_component, redis_component, CallError, Component};
use spin_adapter::failure::{diagnostics, failure_reply, HandlerError};
use spin_adapter::headers::{ConversionError, HeaderMapBuilder, HeaderMultimap};
use spin_adapter::wire::{Method, WireRequest, WireResponse};

type HttpFn = fn(NativeRequest) -> Result<NativeResponse, HandlerError>;
type QueueFn = fn(Vec<u8>) -> Result<(), HandlerError>;

fn pairs(list: &[(&str, &str)]) -> Vec<(String, String)> {
    list.iter().map(|(k, v)| (k.to_string(), v.to_string())).collect()
}

fn request(method: Method, headers: Option<Vec<(String, String)>>, body: Option<Vec<u8>>) -> WireRequest {
    WireRequest { method, uri: "/".to_string(), headers, body }
}

fn empty_headers() -> HeaderMultimap {
    HeaderMapBuilder::new().finish()
}

fn echo(req: NativeRequest) -> Result<NativeResponse, HandlerError> {
    Ok(NativeResponse { status: 200, headers: req.headers, body: req.body })
}

fn fail(_req: NativeRequest) -> Result<NativeResponse, HandlerError> {
    Err(HandlerError::new("boom").caused_by("root cause"))
}

fn accept(_p: Vec<u8>) -> Result<(), HandlerError> {
    Ok(())
}

fn reject(_p: Vec<u8>) -> Result<(), HandlerError> {
    Err(HandlerError::new("queue down"))
}

#[test]
fn decode_post_items_scenario() {
    let req = WireRequest {
        method: Method::Post,
        uri: "/items".to_string(),
        headers: Some(pairs(&[("content-type", "application/json")])),
        body: Some(b"{}".to_vec()),
    };
    let n = decode_request(req).unwrap();
    assert_eq!(n.method, "POST");
    assert_eq!(n.uri, "/items");
    assert_eq!(n.headers.len(), 1);
    let (k, v) = n.headers.entry(0);
    assert_eq!(k, "content-type");
    assert_eq!(v, "application/json");
    assert_eq!(n.body, Some(b"{}".to_vec()));
}

#[test]
fn encode_created_without_body_scenario() {
    let resp = NativeResponse { status: 201, headers: empty_headers(), body: None };
    let w = encode_response(resp);
    assert_eq!(w.status, 201);
    assert_eq!(w.headers, Some(Vec::new()));
    assert_eq!(w.body, None);
}

#[test]
fn every_method_token_maps_back() {
    let all = [
        (Method::Get, "GET"),
        (Method::Post, "POST"),
        (Method::Put, "PUT"),
        (Method::Delete, "DELETE"),
        (Method::Patch, "PATCH"),
        (Method::Head, "HEAD"),
        (Method::Options, "OPTIONS"),
    ];
    for (m, t) in all {
        let n = decode_request(request(m, None, None)).unwrap();
        assert_eq!(n.method, t);
        assert_eq!(m.token(), t);
        assert_eq!(Method::from_token(&n.method), Some(m));
    }
    assert_eq!(Method::from_token("get"), None);
    assert_eq!(Method::from_token("TRACE"), None);
}

#[test]
fn duplicate_headers_keep_count_order_and_values() {
    let input = pairs(&[("X-A", "1"), ("x-b", "2"), ("x-a", "3"), ("X-B", "\t4 ok")]);
    let n = decode_request(request(Method::Get, Some(input), None)).unwrap();
    let w = encode_response(NativeResponse { status: 200, headers: n.headers, body: None });
    assert_eq!(w.headers, Some(pairs(&[("x-a", "1"), ("x-b", "2"), ("x-a", "3"), ("x-b", "\t4 ok")])));
}

#[test]
fn names_are_lowered_on_decode() {
    let n = decode_request(request(Method::Get, Some(pairs(&[("Content-Type", "text/plain")])), None)).unwrap();
    let (k, v) = n.headers.entry(0);
    assert_eq!(k, "content-type");
    assert_eq!(v, "text/plain");
}

#[test]
fn invalid_name_rejects_whole_request() {
    let input = pairs(&[("good", "1"), ("bad:name", "2"), ("later", "3")]);
    let r = decode_request(request(Method::Get, Some(input), None));
    assert!(matches!(r, Err(ConversionError::InvalidHeaderName)));
}

#[test]
fn invalid_value_rejects_whole_request() {
    let input = pairs(&[("good", "1"), ("bad", "line\nbreak")]);
    let r = decode_request(request(Method::Get, Some(input), None));
    assert!(matches!(r, Err(ConversionError::InvalidHeaderValue)));
}

#[test]
fn first_invalid_pair_decides_error() {
    let input = pairs(&[("ok", "bad\u{7f}"), ("bad name", "fine")]);
    let r = decode_request(request(Method::Get, Some(input), None));
    assert!(matches!(r, Err(ConversionError::InvalidHeaderValue)));
    let input = pairs(&[("bad name", "bad\u{1}")]);
    let r = decode_request(request(Method::Get, Some(input), None));
    assert!(matches!(r, Err(ConversionError::InvalidHeaderName)));
}

#[test]
fn empty_name_is_invalid() {
    let mut b = HeaderMapBuilder::new();
    assert_eq!(b.append("", "v"), Err(ConversionError::InvalidHeaderName));
    assert_eq!(b.finish().len(), 0);
}

#[test]
fn longest_name_is_accepted() {
    let name = "a".repeat(65535);
    let mut b = HeaderMapBuilder::new();
    assert_eq!(b.append(&name, "v"), Ok(()));
    let too_long = "a".repeat(65536);
    assert_eq!(b.append(&too_long, "v"), Err(ConversionError::InvalidHeaderName));
    assert_eq!(b.finish().len(), 1);
}

#[test]
fn builder_skips_invalid_pair() {
    let mut b = HeaderMapBuilder::new();
    assert_eq!(b.append("Accept", "a"), Ok(()));
    assert_eq!(b.append("bad(", "b"), Err(ConversionError::InvalidHeaderName));
    assert_eq!(b.append("Accept", "c\r"), Err(ConversionError::InvalidHeaderValue));
    assert_eq!(b.append("ACCEPT", "d"), Ok(()));
    let m = b.finish();
    assert_eq!(m.to_pairs(), pairs(&[("accept", "a"), ("accept", "d")]));
}

#[test]
fn non_ascii_value_is_accepted() {
    let mut b = HeaderMapBuilder::new();
    assert_eq!(b.append("x-name", "caf\u{e9}"), Ok(()));
    assert_eq!(b.finish().to_pairs(), pairs(&[("x-name", "caf\u{e9}")]));
}

#[test]
fn lookup_ignores_name_case() {
    let mut b = HeaderMapBuilder::new();
    b.append("Set-Cookie", "a=1").unwrap();
    b.append("x-other", "z").unwrap();
    b.append("set-cookie", "b=2").unwrap();
    let m = b.finish();
    assert_eq!(m.get_all("SET-COOKIE"), vec!["a=1".to_string(), "b=2".to_string()]);
    assert_eq!(m.get_all("missing"), Vec::<String>::new());
    assert_eq!(m.get_all("bad name"), Vec::<String>::new());
}

#[test]
fn absent_parts_decode_to_empty() {
    let n = decode_request(request(Method::Delete, None, None)).unwrap();
    assert_eq!(n.headers.len(), 0);
    assert_eq!(n.body, Some(Vec::new()));
}

#[test]
fn body_presence_survives_encoding() {
    let w = encode_response(NativeResponse { status: 200, headers: empty_headers(), body: None });
    assert_eq!(w.body, None);
    let w = encode_response(NativeResponse { status: 200, headers: empty_headers(), body: Some(Vec::new()) });
    assert_eq!(w.body, Some(Vec::new()));
}

#[test]
fn status_is_copied_unchecked() {
    for status in [0u16, 99, 999, 65535] {
        let w = encode_response(NativeResponse { status, headers: empty_headers(), body: None });
        assert_eq!(w.status, status);
    }
}

#[test]
fn decode_response_mirrors_request() {
    let resp = WireResponse { status: 404, headers: Some(pairs(&[("Retry-After", "5")])), body: None };
    let n = decode_response(resp).unwrap();
    assert_eq!(n.status, 404);
    assert_eq!(n.headers.to_pairs(), pairs(&[("retry-after", "5")]));
    assert_eq!(n.body, Some(Vec::new()));
    let bad = WireResponse { status: 200, headers: Some(pairs(&[("a b", "x")])), body: None };
    assert!(matches!(decode_response(bad), Err(ConversionError::InvalidHeaderName)));
    let none = WireResponse { status: 204, headers: None, body: Some(vec![1, 2]) };
    let n = decode_response(none).unwrap();
    assert_eq!(n.headers.len(), 0);
    assert_eq!(n.body, Some(vec![1, 2]));
}

#[test]
fn failure_reply_for_boom_with_cause() {
    let err = HandlerError::new("boom").caused_by("root cause");
    let reply = failure_reply(&err);
    assert_eq!(reply.response.status, 500);
    assert_eq!(reply.response.headers, None);
    assert_eq!(reply.response.body, Some(b"boom".to_vec()));
    assert_eq!(
        reply.diagnostics,
        vec!["Handler returned an error: boom".to_string(), "  caused by: root cause".to_string()]
    );
}

#[test]
fn diagnostics_follow_chain_order() {
    let err = HandlerError::new("top").caused_by("middle").caused_by("bottom");
    assert_eq!(
        diagnostics(&err),
        vec![
            "Handler returned an error: top".to_string(),
            "  caused by: middle".to_string(),
            "  caused by: bottom".to_string(),
        ]
    );
    assert_eq!(err.source(0).map(|s| s.as_str()), Some("middle"));
    assert_eq!(err.source(1).map(|s| s.as_str()), Some("bottom"));
    assert_eq!(err.source(2), None);
    assert_eq!(diagnostics(&HandlerError::new("alone")), vec!["Handler returned an error: alone".to_string()]);
}

#[test]
fn failure_body_is_utf8_of_message() {
    let reply = failure_reply(&HandlerError::new("\u{e9}chec"));
    assert_eq!(reply.response.body, Some("\u{e9}chec".as_bytes().to_vec()));
}

#[test]
fn http_component_echoes_request() {
    let c: Component<HttpFn, QueueFn> = http_component(echo);
    let req = WireRequest {
        method: Method::Put,
        uri: "/x".to_string(),
        headers: Some(pairs(&[("A", "1"), ("a", "2")])),
        body: Some(b"data".to_vec()),
    };
    match c.handle_request(req) {
        Ok(reply) => {
            assert_eq!(reply.response.status, 200);
            assert_eq!(reply.response.headers, Some(pairs(&[("a", "1"), ("a", "2")])));
            assert_eq!(reply.response.body, Some(b"data".to_vec()));
            assert!(reply.diagnostics.is_empty());
        },
        Err(_) => panic!("expected a reply"),
    }
}

#[test]
fn http_component_handler_error_becomes_500() {
    let c: Component<HttpFn, QueueFn> = http_component(fail);
    match c.handle_request(request(Method::Get, None, None)) {
        Ok(reply) => {
            assert_eq!(reply.response.status, 500);
            assert_eq!(reply.response.headers, None);
            assert_eq!(reply.response.body, Some(b"boom".to_vec()));
            assert_eq!(
                reply.diagnostics,
                vec!["Handler returned an error: boom".to_string(), "  caused by: root cause".to_string()]
            );
        },
        Err(_) => panic!("expected a reply"),
    }
}

#[test]
fn http_component_reports_bad_request_headers() {
    let c: Component<HttpFn, QueueFn> = http_component(echo);
    let r = c.handle_request(request(Method::Get, Some(pairs(&[("x:y", "1")])), None));
    assert!(matches!(r, Err(CallError::Conversion(ConversionError::InvalidHeaderName))));
}

#[test]
fn queue_component_refuses_http_every_time() {
    let c: Component<HttpFn, QueueFn> = redis_component(accept);
    for _ in 0..3 {
        let r = c.handle_request(request(Method::Get, None, Some(Vec::new())));
        assert!(matches!(r, Err(CallError::UnimplementedCapability)));
    }
}

#[test]
fn http_component_refuses_queue_messages() {
    let c: Component<HttpFn, QueueFn> = http_component(echo);
    assert!(matches!(c.handle_message(b"m".to_vec()), Err(CallError::UnimplementedCapability)));
}

#[test]
fn queue_component_acknowledges_or_reports() {
    let ok: Component<HttpFn, QueueFn> = redis_component(accept);
    assert!(matches!(ok.handle_message(b"m".to_vec()), Ok(())));
    let bad: Component<HttpFn, QueueFn> = redis_component(reject);
    match bad.handle_message(b"m".to_vec()) {
        Err(CallError::Handler(e)) => assert_eq!(e.message, "queue down"),
        _ => panic!("expected the handler's error"),
    }
}

#[test]
fn closure_handlers_are_accepted() {
    let prefix = "seen ".to_string();
    let c: Component<_, QueueFn> = http_component(move |req: NativeRequest| -> Result<NativeResponse, HandlerError> {
        let mut body = prefix.clone().into_bytes();
        body.extend_from_slice(req.uri.as_bytes());
        Ok(NativeResponse { status: 202, headers: HeaderMapBuilder::new().finish(), body: Some(body) })
    });
    match c.handle_request(request(Method::Options, None, None)) {
        Ok(reply) => assert_eq!(reply.response.body, Some(b"seen /".to_vec())),
        Err(_) => panic!("expected a reply"),
    }
}
