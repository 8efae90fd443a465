use vstd::prelude::*;
use crate::convert::{
    NativeRequest, NativeResponse, decode_request, decode_request_spec, encode_response,
    encode_response_spec,
};
use crate::failure::{HandlerError, HttpReply, HttpReplyView, diagnostic_lines, failure_reply, failure_response_spec};
use crate::headers::ConversionError;
use crate::wire::WireRequest;

verus! {

/// A component: exactly one handler, registered under one of the two roles.
/// The role is fixed when the component is built.
pub enum Component<H, Q> {
    Http(H),
    Queue(Q),
}

/// Why a host call did not complete normally.
pub enum CallError {
    /// The call reached the role that the component was not built for.
    UnimplementedCapability,
    /// The inbound request could not be translated.
    Conversion(ConversionError),
    /// The queue handler failed.
    Handler(HandlerError),
}

/// Registers `handler` as the component's HTTP handler.
pub fn http_component<H, Q>(handler: H) -> (r: Component<H, Q>)
    ensures
        r == Component::<H, Q>::Http(handler),
{
    Component::Http(handler)
}

/// Registers `handler` as the component's queue-message handler.
pub fn redis_component<H, Q>(handler: Q) -> (r: Component<H, Q>)
    ensures
        r == Component::<H, Q>::Queue(handler),
{
    Component::Queue(handler)
}

/// The reply owed for what an HTTP handler returned: its response encoded
/// with no diagnostics, or the failure reply for its error.
pub open spec fn reply_spec(out: Result<NativeResponse, HandlerError>) -> HttpReplyView {
    match out {
        Ok(resp) => HttpReplyView {
            response: encode_response_spec(resp@),
            diagnostics: Seq::empty(),
        },
        Err(e) => HttpReplyView {
            response: failure_response_spec(e@),
            diagnostics: diagnostic_lines(e@),
        },
    }
}

/// The result owed to the host for what a queue handler returned: the
/// handler's error is handed on as it is.
pub open spec fn acknowledged(out: Result<(), HandlerError>, r: Result<(), CallError>) -> bool {
    match out {
        Ok(()) => r is Ok,
        Err(e) => r matches Err(CallError::Handler(e2)) && e2 == e,
    }
}

/// Turns what an HTTP handler returned into the reply for the host.
pub fn reply_for(out: Result<NativeResponse, HandlerError>) -> (r: HttpReply)
    ensures
        r@ == reply_spec(out),
{
    match out {
        Ok(resp) => {
            let diagnostics: Vec<String> = Vec::new();
            let r = HttpReply { response: encode_response(resp), diagnostics };
            assert(r@.diagnostics =~= Seq::<Seq<char>>::empty());
            r
        },
        Err(e) => failure_reply(&e),
    }
}

impl<H, Q> Component<H, Q> where
    H: Fn(NativeRequest) -> Result<NativeResponse, HandlerError>,
    Q: Fn(Vec<u8>) -> Result<(), HandlerError>,
 {
    /// Serves a host HTTP call. A queue component refuses it with
    /// `UnimplementedCapability`; otherwise the request is decoded (its
    /// conversion error ends the call), handed to the handler, and what the
    /// handler returns becomes the reply.
    pub fn handle_request(&self, req: WireRequest) -> (r: Result<HttpReply, CallError>)
        requires
            self matches Component::Http(h) ==> forall|n: NativeRequest| #[trigger] h.requires((n,)),
        ensures
            self is Queue ==> r matches Err(CallError::UnimplementedCapability),
            self matches Component::Http(h) ==> match decode_request_spec(req@) {
                Err(e) => r matches Err(CallError::Conversion(e2)) && e2 == e,
                Ok(v) => r matches Ok(reply) && exists|n: NativeRequest, out: Result<NativeResponse, HandlerError>|
                    n@ == v && h.ensures((n,), out) && reply@ == reply_spec(out),
            },
    {
        match self {
            Component::Queue(_) => Err(CallError::UnimplementedCapability),
            Component::Http(h) => {
                let n = match decode_request(req) {
                    Ok(n) => n,
                    Err(e) => return Err(CallError::Conversion(e)),
                };
                let ghost nv = n;
                let out = h(n);
                let reply = reply_for(out);
                assert(nv@ == decode_request_spec(req@)->Ok_0 && h.ensures((nv,), out) && reply@ == reply_spec(out));
                Ok(reply)
            },
        }
    }

    /// Serves a host queue-message call. An HTTP component refuses it with
    /// `UnimplementedCapability`; otherwise the handler's error, if any, is
    /// handed back as `Handler`.
    pub fn handle_message(&self, payload: Vec<u8>) -> (r: Result<(), CallError>)
        requires
            self matches Component::Queue(q) ==> forall|p: Vec<u8>| #[trigger] q.requires((p,)),
        ensures
            self is Http ==> r matches Err(CallError::UnimplementedCapability),
            self matches Component::Queue(q) ==> (exists|out: Result<(), HandlerError>|
                q.ensures((payload,), out) && #[trigger] acknowledged(out, r)),
    {
        match self {
            Component::Http(_) => Err(CallError::UnimplementedCapability),
            Component::Queue(q) => {
                let ghost p = payload;
                let out = q(payload);
                let ghost o = out;
                let r = match out {
                    Ok(()) => Ok(()),
                    Err(e) => Err(CallError::Handler(e)),
                };
                assert(q.ensures((p,), o) && acknowledged(o, r));
                r
            },
        }
    }
}

} // verus!
