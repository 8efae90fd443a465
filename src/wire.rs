use vstd::prelude::*;
use crate::headers::{HeaderPair, pairs_view};

verus! {

/// The request methods that the wire protocol can carry.
#[derive(Clone, Copy, Debug, PartialEq, Eq, Structural)]
pub enum Method {
    Get,
    Post,
    Put,
    Delete,
    Patch,
    Head,
    Options,
}

/// The standard token of each method.
pub open spec fn method_token(m: Method) -> Seq<char> {
    match m {
        Method::Get => "GET"@,
        Method::Post => "POST"@,
        Method::Put => "PUT"@,
        Method::Delete => "DELETE"@,
        Method::Patch => "PATCH"@,
        Method::Head => "HEAD"@,
        Method::Options => "OPTIONS"@,
    }
}

/// The method whose standard token is `t`, if any.
pub open spec fn method_of_token(t: Seq<char>) -> Option<Method> {
    if t == "GET"@ {
        Some(Method::Get)
    } else if t == "POST"@ {
        Some(Method::Post)
    } else if t == "PUT"@ {
        Some(Method::Put)
    } else if t == "DELETE"@ {
        Some(Method::Delete)
    } else if t == "PATCH"@ {
        Some(Method::Patch)
    } else if t == "HEAD"@ {
        Some(Method::Head)
    } else if t == "OPTIONS"@ {
        Some(Method::Options)
    } else {
        None
    }
}

/// Mapping a method to its token and back gives the method again.
pub proof fn method_token_round_trip(m: Method)
    ensures
        method_of_token(method_token(m)) == Some(m),
{
    reveal_strlit("GET");
    reveal_strlit("POST");
    reveal_strlit("PUT");
    reveal_strlit("DELETE");
    reveal_strlit("PATCH");
    reveal_strlit("HEAD");
    reveal_strlit("OPTIONS");
    assert("GET"@[0] != "PUT"@[0]);
    assert("POST"@[0] != "HEAD"@[0]);
    assert("GET"@.len() == 3 && "PUT"@.len() == 3 && "POST"@.len() == 4 && "HEAD"@.len() == 4);
    assert("DELETE"@.len() == 6 && "PATCH"@.len() == 5 && "OPTIONS"@.len() == 7);
}

impl Method {
    /// The method's standard token.
    pub fn token(&self) -> (r: String)
        ensures
            r@ == method_token(*self),
    {
        match self {
            Method::Get => String::from_str("GET"),
            Method::Post => String::from_str("POST"),
            Method::Put => String::from_str("PUT"),
            Method::Delete => String::from_str("DELETE"),
            Method::Patch => String::from_str("PATCH"),
            Method::Head => String::from_str("HEAD"),
            Method::Options => String::from_str("OPTIONS"),
        }
    }

    /// The method whose standard token is `t`; tokens are case-sensitive.
    pub fn from_token(t: &str) -> (r: Option<Method>)
        ensures
            r == method_of_token(t@),
    {
        let t = String::from_str(t);
        if t == String::from_str("GET") {
            Some(Method::Get)
        } else if t == String::from_str("POST") {
            Some(Method::Post)
        } else if t == String::from_str("PUT") {
            Some(Method::Put)
        } else if t == String::from_str("DELETE") {
            Some(Method::Delete)
        } else if t == String::from_str("PATCH") {
            Some(Method::Patch)
        } else if t == String::from_str("HEAD") {
            Some(Method::Head)
        } else if t == String::from_str("OPTIONS") {
            Some(Method::Options)
        } else {
            None
        }
    }
}

pub open spec fn opt_pairs_view(o: Option<Vec<(String, String)>>) -> Option<Seq<HeaderPair>> {
    match o {
        Some(v) => Some(pairs_view(v@)),
        None => None,
    }
}

pub open spec fn opt_bytes_view(o: Option<Vec<u8>>) -> Option<Seq<u8>> {
    match o {
        Some(v) => Some(v@),
        None => None,
    }
}

/// A request as the host hands it over. Absent headers or body differ from
/// empty ones.
pub struct WireRequest {
    pub method: Method,
    pub uri: String,
    pub headers: Option<Vec<(String, String)>>,
    pub body: Option<Vec<u8>>,
}

pub struct WireRequestView {
    pub method: Method,
    pub uri: Seq<char>,
    pub headers: Option<Seq<HeaderPair>>,
    pub body: Option<Seq<u8>>,
}

impl View for WireRequest {
    type V = WireRequestView;

    open spec fn view(&self) -> WireRequestView {
        WireRequestView {
            method: self.method,
            uri: self.uri@,
            headers: opt_pairs_view(self.headers),
            body: opt_bytes_view(self.body),
        }
    }
}

/// A response as the host takes it back. Any 16-bit status is carried.
pub struct WireResponse {
    pub status: u16,
    pub headers: Option<Vec<(String, String)>>,
    pub body: Option<Vec<u8>>,
}

pub struct WireResponseView {
    pub status: u16,
    pub headers: Option<Seq<HeaderPair>>,
    pub body: Option<Seq<u8>>,
}

impl View for WireResponse {
    type V = WireResponseView;

    open spec fn view(&self) -> WireResponseView {
        WireResponseView {
            status: self.status,
            headers: opt_pairs_view(self.headers),
            body: opt_bytes_view(self.body),
        }
    }
}

} // verus!
