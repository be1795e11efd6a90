//! Session identifiers: canonical UUID strings with their 128-bit value.
//!
//! Parsing and formatting are delegated to the `uuid` crate; the identifier
//! a session carries keeps both the text it was attached under and the
//! sixteen bytes it denotes.

use vstd::prelude::*;

verus! {

/// The bytes `uuid::Uuid::parse_str` reads out of a string, if it parses;
/// they depend on the string alone.
pub uninterp spec fn uuid_parse_bytes(s: Seq<char>) -> Option<Seq<u8>>;

/// The hyphenated text of a 16-byte UUID value; it depends on the bytes
/// alone.
pub uninterp spec fn uuid_hyphenated(b: Seq<u8>) -> Seq<char>;

/// Relies on uuid::Uuid::parse_str: whether a string parses, and to what
/// 128-bit value, is a function of the string; a UUID is sixteen bytes.
#[verifier::external_body]
fn parse_uuid_bytes(s: &str) -> (r: Option<Vec<u8>>)
    ensures
        r matches Some(b) ==> uuid_parse_bytes(s@) == Some(b@) && b@.len() == 16,
        r is None ==> uuid_parse_bytes(s@) is None,
{
    match uuid::Uuid::parse_str(s) {
        Ok(u) => Some(u.as_bytes().to_vec()),
        Err(_) => None,
    }
}

/// Relies on uuid::Uuid::new_v4: a fresh random UUID of sixteen bytes. Its
/// display form is the hyphenated text of those bytes, and parse_str
/// documents that it reads back every format the crate generates.
#[verifier::external_body]
fn fresh_uuid() -> (r: (String, Vec<u8>))
    ensures
        r.1@.len() == 16,
        r.0@ == uuid_hyphenated(r.1@),
        uuid_parse_bytes(r.0@) == Some(r.1@),
{
    let u = uuid::Uuid::new_v4();
    (u.to_string(), u.as_bytes().to_vec())
}

/// A session identifier: the UUID text a client attached under, together
/// with the sixteen bytes it parses to.
#[derive(Debug, Clone)]
pub struct SessionId {
    text: String,
    bytes: Vec<u8>,
}

impl View for SessionId {
    type V = Seq<char>;

    closed spec fn view(&self) -> Seq<char> {
        self.text@
    }
}

impl SessionId {
    /// The 128-bit value the identifier's text denotes.
    pub closed spec fn spec_bytes(&self) -> Seq<u8> {
        self.bytes@
    }

    /// The identifier is well formed: its text parses to its bytes.
    pub closed spec fn wf(&self) -> bool {
        uuid_parse_bytes(self.text@) == Some(self.bytes@) && self.bytes@.len() == 16
    }

    /// Parse an identifier from client-supplied text; `None` exactly when
    /// the text is not a UUID.
    pub fn parse(s: &str) -> (r: Option<SessionId>)
        ensures
            r is Some <==> uuid_parse_bytes(s@) is Some,
            r matches Some(sid) ==> sid.wf() && sid@ == s@ && Some(sid.spec_bytes())
                == uuid_parse_bytes(s@),
    {
        match parse_uuid_bytes(s) {
            Some(bytes) => Some(SessionId { text: s.to_owned(), bytes }),
            None => None,
        }
    }

    /// A fresh random identifier.
    pub fn new_random() -> (r: SessionId)
        ensures
            r.wf(),
            r@ == uuid_hyphenated(r.spec_bytes()),
    {
        let (text, bytes) = fresh_uuid();
        SessionId { text, bytes }
    }

    /// The identifier's text.
    pub fn as_str(&self) -> (r: &str)
        ensures
            r@ == self@,
    {
        self.text.as_str()
    }

    /// A copy of the identifier's text.
    pub fn text(&self) -> (r: String)
        ensures
            r@ == self@,
    {
        self.text.clone()
    }

    /// Whether the identifier denotes the nil UUID, all of whose bytes are
    /// zero.
    pub fn is_nil(&self) -> (r: bool)
        ensures
            r == (forall|i: int| 0 <= i < self.spec_bytes().len() ==> self.spec_bytes()[i]
                == 0),
    {
        let n = self.bytes.len();
        let mut i: usize = 0;
        while i < n
            invariant
                i <= n,
                n == self.spec_bytes().len(),
                forall|j: int| 0 <= j < i ==> self.spec_bytes()[j] == 0,
            decreases n - i,
        {
            if self.bytes[i] != 0 {
                return false;
            }
            i = i + 1;
        }
        true
    }
}

} // verus!
