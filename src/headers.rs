use vstd::prelude::*;

verus! {

/// A header as a pair of a name and a value.
pub type HeaderPair = (Seq<char>, Seq<char>);

/// The longest header name, in bytes, that the header grammar accepts.
pub const MAX_NAME_LEN: usize = 65535;

/// A character of the HTTP token grammar: letters, digits and ``!#$%&'*+-.^_`|~``.
pub open spec fn is_token_char(c: char) -> bool {
    ('a' <= c && c <= 'z') || ('A' <= c && c <= 'Z') || ('0' <= c && c <= '9') || c == '!'
        || c == '#' || c == '$' || c == '%' || c == '&' || c == '\'' || c == '*' || c == '+'
        || c == '-' || c == '.' || c == '^' || c == '_' || c == '`' || c == '|' || c == '~'
}

/// A valid header name: a non-empty token of at most `MAX_NAME_LEN` characters.
pub open spec fn valid_name(s: Seq<char>) -> bool {
    &&& 0 < s.len() <= MAX_NAME_LEN
    &&& forall|i: int| 0 <= i < s.len() ==> #[trigger] is_token_char(s[i])
}

/// A character allowed in a header value: anything but a control character,
/// horizontal tab excepted.
pub open spec fn is_value_char(c: char) -> bool {
    c == '\t' || (c as u32 >= 32 && c as u32 != 127)
}

pub open spec fn valid_value(s: Seq<char>) -> bool {
    forall|i: int| 0 <= i < s.len() ==> #[trigger] is_value_char(s[i])
}

pub open spec fn lower_char(c: char) -> char {
    if 'A' <= c && c <= 'Z' {
        ((c as u32) + 32) as char
    } else {
        c
    }
}

/// The ASCII lower-case form of a string; other characters are kept.
pub open spec fn ascii_lower(s: Seq<char>) -> Seq<char> {
    s.map_values(|c: char| lower_char(c))
}


/// Why a value could not be translated between the wire and the native model.
#[derive(Clone, Copy, Debug, PartialEq, Eq, Structural)]
pub enum ConversionError {
    InvalidMethod,
    InvalidHeaderName,
    InvalidHeaderValue,
    BodyEncodingError,
}

/// What appending a header pair yields: nothing for a valid pair, else the
/// error for the first part that fails, the name being checked first.
pub open spec fn pair_error(p: HeaderPair) -> Option<ConversionError> {
    if !valid_name(p.0) {
        Some(ConversionError::InvalidHeaderName)
    } else if !valid_value(p.1) {
        Some(ConversionError::InvalidHeaderValue)
    } else {
        None
    }
}

/// The error that a batch of pairs stops at, if any: that of its first invalid pair.
pub open spec fn batch_error(h: Seq<HeaderPair>) -> Option<ConversionError>
    decreases h.len(),
{
    if h.len() == 0 {
        None
    } else if pair_error(h[0]) is Some {
        pair_error(h[0])
    } else {
        batch_error(h.drop_first())
    }
}

/// How a batch of pairs is stored: names lowered, values kept, order and
/// duplicates kept.
pub open spec fn normalized(h: Seq<HeaderPair>) -> Seq<HeaderPair> {
    h.map_values(|p: HeaderPair| (ascii_lower(p.0), p.1))
}

/// Every entry of a stored header sequence is a valid pair whose name is in
/// lower case.
pub open spec fn entries_wf(h: Seq<HeaderPair>) -> bool {
    forall|i: int| 0 <= i < h.len() ==> #[trigger] pair_error(h[i]) is None && ascii_lower(h[i].0) == h[i].0
}

/// Lowering a valid name gives a valid name that lowering leaves alone.
pub proof fn lowered_name_is_valid(name: Seq<char>)
    requires
        valid_name(name),
    ensures
        valid_name(ascii_lower(name)),
        ascii_lower(ascii_lower(name)) == ascii_lower(name),
{
    let l = ascii_lower(name);
    assert forall|i: int| 0 <= i < l.len() implies #[trigger] is_token_char(l[i]) by {
        assert(is_token_char(name[i]));
    }
    assert(ascii_lower(l) =~= l);
}

pub open spec fn pairs_view(v: Seq<(String, String)>) -> Seq<HeaderPair> {
    v.map_values(|p: (String, String)| (p.0@, p.1@))
}

#[verifier::external_type_specification]
#[verifier::external_body]
pub struct ExInvalidHeaderName(http::header::InvalidHeaderName);

#[verifier::external_type_specification]
#[verifier::external_body]
pub struct ExInvalidHeaderValue(http::header::InvalidHeaderValue);

/// Relies on `http::HeaderName::from_str`, which accepts exactly the non-empty
/// tokens of at most 65535 bytes and stores them lower-cased, and on
/// `HeaderName::as_str`, which gives that stored form back.
#[verifier::external_body]
fn parse_header_name(name: &str) -> (r: Result<String, http::header::InvalidHeaderName>)
    ensures
        r is Ok <==> valid_name(name@),
        r matches Ok(n) ==> n@ == ascii_lower(name@),
{
    match <http::HeaderName as std::str::FromStr>::from_str(name) {
        Ok(n) => Ok(n.as_str().to_owned()),
        Err(e) => Err(e),
    }
}

/// Relies on `http::HeaderValue::from_str`, which accepts a value exactly when
/// none of its bytes is a control byte other than horizontal tab.
#[verifier::external_body]
fn check_header_value(value: &str) -> (r: Result<(), http::header::InvalidHeaderValue>)
    ensures
        r is Ok <==> valid_value(value@),
{
    match http::HeaderValue::from_str(value) {
        Ok(_) => Ok(()),
        Err(e) => Err(e),
    }
}

/// An ordered header multimap: every pair that was appended stays, in order,
/// duplicates included, with its name in lower case.
pub struct HeaderMultimap {
    entries: Vec<(String, String)>,
}

impl View for HeaderMultimap {
    type V = Seq<HeaderPair>;

    closed spec fn view(&self) -> Seq<HeaderPair> {
        pairs_view(self.entries@)
    }
}

impl HeaderMultimap {
    /// The number of entries.
    pub fn len(&self) -> (r: usize)
        ensures
            r == self@.len(),
    {
        self.entries.len()
    }

    /// The name and value of the entry at `i`, in insertion order.
    pub fn entry(&self, i: usize) -> (r: (&String, &String))
        requires
            i < self@.len(),
        ensures
            r.0@ == self@[i as int].0,
            r.1@ == self@[i as int].1,
    {
        let p = &self.entries[i];
        (&p.0, &p.1)
    }

    /// The entries as a list of owned pairs, in order.
    pub fn to_pairs(&self) -> (r: Vec<(String, String)>)
        ensures
            pairs_view(r@) == self@,
    {
        let mut out: Vec<(String, String)> = Vec::new();
        let mut i: usize = 0;
        while i < self.entries.len()
            invariant
                i <= self.entries@.len(),
                out@ == self.entries@.subrange(0, i as int),
            decreases self.entries@.len() - i,
        {
            let p = &self.entries[i];
            out.push((p.0.clone(), p.1.clone()));
            assert(out@ =~= self.entries@.subrange(0, i + 1));
            i = i + 1;
        }
        assert(self.entries@.subrange(0, i as int) == self.entries@);
        out
    }
}

/// The values stored under `name`, in order of insertion.
pub open spec fn values_for(h: Seq<HeaderPair>, name: Seq<char>) -> Seq<Seq<char>>
    decreases h.len(),
{
    if h.len() == 0 {
        Seq::empty()
    } else if h.last().0 == name {
        values_for(h.drop_last(), name).push(h.last().1)
    } else {
        values_for(h.drop_last(), name)
    }
}

impl HeaderMultimap {
    /// Every value stored under `name`, compared without regard to ASCII
    /// case, in insertion order. A name that is no valid header name has none.
    pub fn get_all(&self, name: &str) -> (r: Vec<String>)
        ensures
            valid_name(name@) ==> r@.map_values(|v: String| v@) == values_for(self@, ascii_lower(name@)),
            !valid_name(name@) ==> r@.len() == 0,
    {
        let key = match parse_header_name(name) {
            Ok(k) => k,
            Err(_) => return Vec::new(),
        };
        let ghost h = self@;
        let mut out: Vec<String> = Vec::new();
        let mut i: usize = 0;
        while i < self.entries.len()
            invariant
                i <= self.entries@.len(),
                h == pairs_view(self.entries@),
                out@.map_values(|v: String| v@) =~= values_for(h.subrange(0, i as int), key@),
            decreases self.entries@.len() - i,
        {
            let p = &self.entries[i];
            let ghost before = out@;
            proof {
                let s = h.subrange(0, i + 1);
                assert(s.drop_last() =~= h.subrange(0, i as int));
                assert(s.last() == (p.0@, p.1@));
            }
            if p.0 == key {
                out.push(p.1.clone());
                assert(out@.map_values(|v: String| v@) =~= before.map_values(|v: String| v@).push(p.1@));
            }
            i = i + 1;
        }
        assert(h.subrange(0, i as int) =~= h);
        out
    }
}

/// Collects header pairs one by one into a `HeaderMultimap`.
pub struct HeaderMapBuilder {
    entries: Vec<(String, String)>,
}

impl View for HeaderMapBuilder {
    type V = Seq<HeaderPair>;

    closed spec fn view(&self) -> Seq<HeaderPair> {
        pairs_view(self.entries@)
    }
}

impl HeaderMapBuilder {
    pub fn new() -> (r: HeaderMapBuilder)
        ensures
            r@ == Seq::<HeaderPair>::empty(),
            entries_wf(r@),
    {
        HeaderMapBuilder { entries: Vec::new() }
    }

    /// Validates the pair and appends it, its name lowered. An invalid pair is
    /// not inserted.
    pub fn append(&mut self, name: &str, value: &str) -> (r: Result<(), ConversionError>)
        ensures
            match pair_error((name@, value@)) {
                None => r is Ok && final(self)@ == old(self)@.push((ascii_lower(name@), value@)),
                Some(e) => r == Err::<(), ConversionError>(e) && final(self)@ == old(self)@,
            },
            entries_wf(old(self)@) ==> entries_wf(final(self)@),
    {
        let lowered = match parse_header_name(name) {
            Ok(n) => n,
            Err(_) => return Err(ConversionError::InvalidHeaderName),
        };
        match check_header_value(value) {
            Ok(()) => {},
            Err(_) => return Err(ConversionError::InvalidHeaderValue),
        }
        self.entries.push((lowered, value.to_owned()));
        proof {
            lowered_name_is_valid(name@);
            assert(pairs_view(self.entries@) == pairs_view(old(self).entries@).push((ascii_lower(name@), value@)));
        }
        Ok(())
    }

    /// Appends a batch of pairs in order, stopping at the first invalid one
    /// and returning its error.
    pub fn append_all(&mut self, pairs: &Vec<(String, String)>) -> (r: Result<(), ConversionError>)
        ensures
            match batch_error(pairs_view(pairs@)) {
                None => r is Ok && final(self)@ == old(self)@ + normalized(pairs_view(pairs@)),
                Some(e) => r == Err::<(), ConversionError>(e),
            },
            entries_wf(old(self)@) ==> entries_wf(final(self)@),
    {
        let ghost h = pairs_view(pairs@);
        let mut i: usize = 0;
        assert(h.subrange(0, h.len() as int) == h);
        while i < pairs.len()
            invariant
                i <= pairs@.len(),
                h == pairs_view(pairs@),
                batch_error(h) == batch_error(h.subrange(i as int, h.len() as int)),
                self@ == old(self)@ + normalized(h.subrange(0, i as int)),
                entries_wf(old(self)@) ==> entries_wf(self@),
            decreases pairs@.len() - i,
        {
            let p = &pairs[i];
            let ghost rest = h.subrange(i as int, h.len() as int);
            assert(rest[0] == h[i as int]);
            match self.append(p.0.as_str(), p.1.as_str()) {
                Ok(()) => {},
                Err(e) => {
                    return Err(e);
                },
            }
            proof {
                assert(rest.drop_first() == h.subrange(i + 1, h.len() as int));
                assert(h.subrange(0, i + 1) == h.subrange(0, i as int).push(h[i as int]));
                assert(normalized(h.subrange(0, i + 1)) == normalized(h.subrange(0, i as int)).push((ascii_lower(h[i as int].0), h[i as int].1)));
            }
            i = i + 1;
        }
        assert(h.subrange(0, i as int) == h);
        assert(h.subrange(i as int, h.len() as int).len() == 0);
        Ok(())
    }

    /// The multimap holding the appended pairs, in order.
    pub fn finish(self) -> (r: HeaderMultimap)
        ensures
            r@ == self@,
            entries_wf(self@) ==> entries_wf(r@),
    {
        HeaderMultimap { entries: self.entries }
    }
}

} // verus!
