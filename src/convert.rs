use vstd::prelude::*;
use crate::headers::{
    ConversionError, HeaderMapBuilder, HeaderMultimap, HeaderPair, ascii_lower, batch_error,
    entries_wf, lowered_name_is_valid, normalized, pair_error, valid_name,
};
use crate::wire::{
    WireRequest, WireRequestView, WireResponse, WireResponseView, method_of_token, method_token,
    method_token_round_trip, opt_bytes_view, opt_pairs_view,
};

verus! {

/// A request as the handler sees it: the method's token, the target, the
/// headers and an owned body.
pub struct NativeRequest {
    pub method: String,
    pub uri: String,
    pub headers: HeaderMultimap,
    pub body: Option<Vec<u8>>,
}

pub struct NativeRequestView {
    pub method: Seq<char>,
    pub uri: Seq<char>,
    pub headers: Seq<HeaderPair>,
    pub body: Option<Seq<u8>>,
}

impl View for NativeRequest {
    type V = NativeRequestView;

    open spec fn view(&self) -> NativeRequestView {
        NativeRequestView {
            method: self.method@,
            uri: self.uri@,
            headers: self.headers@,
            body: opt_bytes_view(self.body),
        }
    }
}

/// A response as the handler builds it.
pub struct NativeResponse {
    pub status: u16,
    pub headers: HeaderMultimap,
    pub body: Option<Vec<u8>>,
}

pub struct NativeResponseView {
    pub status: u16,
    pub headers: Seq<HeaderPair>,
    pub body: Option<Seq<u8>>,
}

impl View for NativeResponse {
    type V = NativeResponseView;

    open spec fn view(&self) -> NativeResponseView {
        NativeResponseView {
            status: self.status,
            headers: self.headers@,
            body: opt_bytes_view(self.body),
        }
    }
}

/// The pairs of an optional header list; an absent list holds none.
pub open spec fn header_list(h: Option<Seq<HeaderPair>>) -> Seq<HeaderPair> {
    match h {
        Some(s) => s,
        None => Seq::empty(),
    }
}

/// The bytes of an optional body; an absent body holds none.
pub open spec fn body_bytes(b: Option<Seq<u8>>) -> Seq<u8> {
    match b {
        Some(s) => s,
        None => Seq::empty(),
    }
}

/// Decoding a request: the method becomes its token, the target is kept, the
/// headers are validated as one batch, and the body becomes an owned buffer
/// (empty where it was absent).
pub open spec fn decode_request_spec(w: WireRequestView) -> Result<NativeRequestView, ConversionError> {
    match batch_error(header_list(w.headers)) {
        Some(e) => Err(e),
        None => Ok(
            NativeRequestView {
                method: method_token(w.method),
                uri: w.uri,
                headers: normalized(header_list(w.headers)),
                body: Some(body_bytes(w.body)),
            },
        ),
    }
}

/// Decoding a response, in the same way as a request.
pub open spec fn decode_response_spec(w: WireResponseView) -> Result<NativeResponseView, ConversionError> {
    match batch_error(header_list(w.headers)) {
        Some(e) => Err(e),
        None => Ok(
            NativeResponseView {
                status: w.status,
                headers: normalized(header_list(w.headers)),
                body: Some(body_bytes(w.body)),
            },
        ),
    }
}

/// Encoding a response: status and body kept, headers flattened in order.
pub open spec fn encode_response_spec(n: NativeResponseView) -> WireResponseView {
    WireResponseView { status: n.status, headers: Some(n.headers), body: n.body }
}

fn collect_headers(h: &Option<Vec<(String, String)>>) -> (r: Result<HeaderMultimap, ConversionError>)
    ensures
        match batch_error(header_list(opt_pairs_view(*h))) {
            Some(e) => r == Err::<HeaderMultimap, ConversionError>(e),
            None => r matches Ok(m) && m@ == normalized(header_list(opt_pairs_view(*h))),
        },
{
    let mut b = HeaderMapBuilder::new();
    match h {
        Some(v) => {
            match b.append_all(v) {
                Ok(()) => {},
                Err(e) => return Err(e),
            }
        },
        None => {
            assert(normalized(Seq::<HeaderPair>::empty()) =~= Seq::<HeaderPair>::empty());
        },
    }
    assert(b@ =~= Seq::<HeaderPair>::empty() + b@);
    Ok(b.finish())
}

fn owned_body(b: Option<Vec<u8>>) -> (r: Vec<u8>)
    ensures
        r@ == body_bytes(opt_bytes_view(b)),
{
    match b {
        Some(v) => v,
        None => Vec::new(),
    }
}

/// Translates a wire request into a native one; fails with the error of the
/// first invalid header pair.
pub fn decode_request(req: WireRequest) -> (r: Result<NativeRequest, ConversionError>)
    ensures
        match r {
            Ok(n) => decode_request_spec(req@) == Ok::<NativeRequestView, ConversionError>(n@),
            Err(e) => decode_request_spec(req@) == Err::<NativeRequestView, ConversionError>(e),
        },
{
    let headers = match collect_headers(&req.headers) {
        Ok(m) => m,
        Err(e) => return Err(e),
    };
    let method = req.method.token();
    Ok(NativeRequest { method, uri: req.uri, headers, body: Some(owned_body(req.body)) })
}

/// Translates a wire response into a native one; fails with the error of the
/// first invalid header pair.
pub fn decode_response(resp: WireResponse) -> (r: Result<NativeResponse, ConversionError>)
    ensures
        match r {
            Ok(n) => decode_response_spec(resp@) == Ok::<NativeResponseView, ConversionError>(n@),
            Err(e) => decode_response_spec(resp@) == Err::<NativeResponseView, ConversionError>(e),
        },
{
    let headers = match collect_headers(&resp.headers) {
        Ok(m) => m,
        Err(e) => return Err(e),
    };
    Ok(NativeResponse { status: resp.status, headers, body: Some(owned_body(resp.body)) })
}

/// Translates a native response into a wire one.
pub fn encode_response(resp: NativeResponse) -> (r: WireResponse)
    ensures
        r@ == encode_response_spec(resp@),
{
    let headers = resp.headers.to_pairs();
    WireResponse { status: resp.status, headers: Some(headers), body: resp.body }
}

/// A decoded request carries the token of the wire method, and that token
/// maps back to the same method.
pub proof fn decoded_method_round_trip(w: WireRequestView)
    ensures
        decode_request_spec(w) matches Ok(n) ==> method_of_token(n.method) == Some(w.method),
{
    method_token_round_trip(w.method);
}

/// Headers that pass through decoding and then encoding unchanged by the
/// handler keep their count, their order and their values, duplicates
/// included; only names are lowered.
pub proof fn headers_round_trip(w: WireRequestView, status: u16, body: Option<Seq<u8>>)
    requires
        decode_request_spec(w) is Ok,
    ensures
        ({
            let h = header_list(w.headers);
            let out = encode_response_spec(
                NativeResponseView { status, headers: decode_request_spec(w)->Ok_0.headers, body },
            ).headers;
            &&& out is Some
            &&& out->Some_0 == normalized(h)
            &&& out->Some_0.len() == h.len()
            &&& forall|i: int| 0 <= i < h.len() ==> (#[trigger] out->Some_0[i]).1 == h[i].1
        }),
{
}

proof fn batch_error_at(h: Seq<HeaderPair>, k: int)
    requires
        0 <= k < h.len(),
        forall|j: int| 0 <= j < k ==> #[trigger] pair_error(h[j]) is None,
        pair_error(h[k]) is Some,
    ensures
        batch_error(h) == pair_error(h[k]),
    decreases k,
{
    if k > 0 {
        let t = h.drop_first();
        assert forall|j: int| 0 <= j < k - 1 implies #[trigger] pair_error(t[j]) is None by {
            assert(t[j] == h[j + 1]);
        }
        assert(pair_error(h[0]) is None);
        batch_error_at(t, k - 1);
    }
}

/// A header whose name breaks the token grammar, after only valid pairs,
/// makes the whole request fail with `InvalidHeaderName`: no native request,
/// and so none of the earlier headers, comes out.
pub proof fn invalid_name_rejects_request(w: WireRequestView, k: int)
    requires
        0 <= k < header_list(w.headers).len(),
        forall|j: int| 0 <= j < k ==> #[trigger] pair_error(header_list(w.headers)[j]) is None,
        !valid_name(header_list(w.headers)[k].0),
    ensures
        decode_request_spec(w) == Err::<NativeRequestView, ConversionError>(
            ConversionError::InvalidHeaderName,
        ),
{
    batch_error_at(header_list(w.headers), k);
}

proof fn batch_error_none(h: Seq<HeaderPair>, i: int)
    requires
        batch_error(h) is None,
        0 <= i < h.len(),
    ensures
        pair_error(h[i]) is None,
    decreases i,
{
    if i > 0 {
        assert(h.drop_first()[i - 1] == h[i]);
        batch_error_none(h.drop_first(), i - 1);
    }
}

/// Every header of a decoded request is a valid pair with a lower-case name.
pub proof fn decoded_headers_wf(w: WireRequestView)
    ensures
        decode_request_spec(w) matches Ok(n) ==> entries_wf(n.headers),
{
    let h = header_list(w.headers);
    if batch_error(h) is None {
        let n = normalized(h);
        assert forall|i: int| 0 <= i < n.len() implies #[trigger] pair_error(n[i]) is None
            && ascii_lower(n[i].0) == n[i].0 by {
            batch_error_none(h, i);
            lowered_name_is_valid(h[i].0);
        }
    }
}

/// Encoding keeps an absent body absent and an empty body empty.
pub proof fn body_presence_kept(n: NativeResponseView)
    ensures
        encode_response_spec(n).body == n.body,
        n.body is None ==> encode_response_spec(n).body is None,
        n.body == Some(Seq::<u8>::empty()) ==> encode_response_spec(n).body == Some(
            Seq::<u8>::empty(),
        ),
{
}

} // verus!
