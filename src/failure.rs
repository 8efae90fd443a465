use vstd::prelude::*;
use vstd::utf8::encode_utf8;
use crate::wire::{WireResponse, WireResponseView};

verus! {

/// An error returned by a handler: its message and the chain of its causes,
/// nearest cause first. The chain is a finite list, so walking it ends.
pub struct HandlerError {
    pub message: String,
    pub causes: Vec<String>,
}

pub struct HandlerErrorView {
    pub message: Seq<char>,
    pub causes: Seq<Seq<char>>,
}

impl View for HandlerError {
    type V = HandlerErrorView;

    open spec fn view(&self) -> HandlerErrorView {
        HandlerErrorView {
            message: self.message@,
            causes: self.causes@.map_values(|c: String| c@),
        }
    }
}

impl HandlerError {
    /// An error with the given message and no cause.
    pub fn new(message: &str) -> (r: HandlerError)
        ensures
            r@.message == message@,
            r@.causes.len() == 0,
    {
        HandlerError { message: String::from_str(message), causes: Vec::new() }
    }

    /// The same error with `cause` added at the far end of its chain.
    pub fn caused_by(self, cause: &str) -> (r: HandlerError)
        ensures
            r@.message == self@.message,
            r@.causes == self@.causes.push(cause@),
    {
        let mut causes = self.causes;
        causes.push(String::from_str(cause));
        proof {
            assert(causes@.map_values(|c: String| c@) =~= self@.causes.push(cause@));
        }
        HandlerError { message: self.message, causes }
    }

    /// The cause `depth` steps down the chain (the first cause at 0), if the
    /// chain is that long.
    pub fn source(&self, depth: usize) -> (r: Option<&String>)
        ensures
            depth < self@.causes.len() ==> (r matches Some(c) && c@ == self@.causes[depth as int]),
            depth >= self@.causes.len() ==> r is None,
    {
        if depth < self.causes.len() {
            Some(&self.causes[depth])
        } else {
            None
        }
    }
}

/// The diagnostic line for the error itself.
pub open spec fn top_line(message: Seq<char>) -> Seq<char> {
    "Handler returned an error: "@ + message
}

/// The diagnostic line for one cause.
pub open spec fn cause_line(cause: Seq<char>) -> Seq<char> {
    "  caused by: "@ + cause
}

/// The diagnostic lines for an error: its own line, then one per cause, in
/// chain order.
pub open spec fn diagnostic_lines(e: HandlerErrorView) -> Seq<Seq<char>> {
    seq![top_line(e.message)] + e.causes.map_values(|c: Seq<char>| cause_line(c))
}

/// The response that stands for a failed handler: status 500, no headers,
/// and the error's message as its body, encoded as UTF-8.
pub open spec fn failure_response_spec(e: HandlerErrorView) -> WireResponseView {
    WireResponseView { status: 500, headers: None, body: Some(encode_utf8(e.message)) }
}

/// What the HTTP path hands back to the host: the response, and the lines
/// to write to the diagnostic stream.
pub struct HttpReply {
    pub response: WireResponse,
    pub diagnostics: Vec<String>,
}

pub struct HttpReplyView {
    pub response: WireResponseView,
    pub diagnostics: Seq<Seq<char>>,
}

impl View for HttpReply {
    type V = HttpReplyView;

    open spec fn view(&self) -> HttpReplyView {
        HttpReplyView {
            response: self.response@,
            diagnostics: self.diagnostics@.map_values(|l: String| l@),
        }
    }
}

/// The diagnostic lines for `err`, one for the error and one per cause.
pub fn diagnostics(err: &HandlerError) -> (r: Vec<String>)
    ensures
        r@.map_values(|l: String| l@) == diagnostic_lines(err@),
{
    let mut first = String::from_str("Handler returned an error: ");
    first.append(err.message.as_str());
    let mut lines: Vec<String> = Vec::new();
    lines.push(first);
    let ghost causes = err@.causes;
    let mut i: usize = 0;
    while i < err.causes.len()
        invariant
            i <= err.causes@.len(),
            causes == err@.causes,
            lines@.map_values(|l: String| l@) =~= seq![top_line(err@.message)] + causes.subrange(
                0,
                i as int,
            ).map_values(|c: Seq<char>| cause_line(c)),
        decreases err.causes@.len() - i,
    {
        let mut line = String::from_str("  caused by: ");
        line.append(err.causes[i].as_str());
        let ghost before = lines@;
        let ghost new_line = line@;
        lines.push(line);
        proof {
            assert(lines@.map_values(|l: String| l@) =~= before.map_values(|l: String| l@).push(new_line));
            assert(causes.subrange(0, i + 1).map_values(|c: Seq<char>| cause_line(c))
                =~= causes.subrange(0, i as int).map_values(|c: Seq<char>| cause_line(c)).push(cause_line(causes[i as int])));
            assert(causes[i as int] == err.causes@[i as int]@);
            assert(causes.subrange(0, i + 1) =~= causes.subrange(0, i as int).push(causes[i as int]));
            assert(lines@.map_values(|l: String| l@) =~= seq![top_line(err@.message)]
                + causes.subrange(0, i + 1).map_values(|c: Seq<char>| cause_line(c)));
        }
        i = i + 1;
    }
    assert(causes.subrange(0, i as int) =~= causes);
    lines
}

/// The reply for a handler that failed with `err`: a 500 response whose body
/// is the error's message, and the diagnostic lines for its whole chain.
pub fn failure_reply(err: &HandlerError) -> (r: HttpReply)
    ensures
        r@.response == failure_response_spec(err@),
        r@.diagnostics == diagnostic_lines(err@),
{
    let body = err.message.as_str().as_bytes_vec();
    let response = WireResponse { status: 500, headers: None, body: Some(body) };
    HttpReply { response, diagnostics: diagnostics(err) }
}

} // verus!
