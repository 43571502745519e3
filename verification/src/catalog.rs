//! The response payloads: two texts, fixed for the life of the process.

use vstd::prelude::*;
use vstd::utf8::encode_utf8;

verus! {

/// A text payload together with its length in bytes.
pub struct ResponseBody {
    text: String,
    byte_len: usize,
}

impl View for ResponseBody {
    type V = Seq<char>;

    closed spec fn view(&self) -> Seq<char> {
        self.text@
    }
}

impl ResponseBody {
    #[verifier::type_invariant]
    spec fn inv(self) -> bool {
        self.byte_len == encode_utf8(self.text@).len()
    }

    /// The payload as it goes over the wire: its text in UTF-8.
    pub open spec fn bytes(&self) -> Seq<u8> {
        encode_utf8(self@)
    }

    /// Wraps `text`, measuring it once.
    pub fn new(text: String) -> (body: ResponseBody)
        ensures
            body@ == text@,
    {
        let byte_len = text.as_str().as_bytes().len();
        ResponseBody { text, byte_len }
    }

    /// The text of the payload.
    pub fn as_str(&self) -> (text: &str)
        ensures
            text@ == self@,
    {
        self.text.as_str()
    }

    /// The bytes of the payload.
    pub fn as_bytes(&self) -> (bytes: &[u8])
        ensures
            bytes@ == self.bytes(),
    {
        self.text.as_str().as_bytes()
    }

    /// The number of bytes in the payload.
    pub fn byte_len(&self) -> (n: usize)
        ensures
            n == self.bytes().len(),
    {
        proof {
            use_type_invariant(self);
        }
        self.byte_len
    }
}

/// The two payloads of a catalog, as texts.
pub struct CatalogView {
    /// The payload of a successful response.
    pub ok: Seq<char>,
    /// The payload of a not-found response.
    pub not_found: Seq<char>,
}

/// The payloads the server answers with. Nothing changes them once loaded.
pub struct ResponseCatalog {
    ok: ResponseBody,
    not_found: ResponseBody,
}

impl View for ResponseCatalog {
    type V = CatalogView;

    closed spec fn view(&self) -> CatalogView {
        CatalogView { ok: self.ok@, not_found: self.not_found@ }
    }
}

impl ResponseCatalog {
    /// A catalog of the two given texts.
    pub fn new(ok: String, not_found: String) -> (catalog: ResponseCatalog)
        ensures
            catalog@ == (CatalogView { ok: ok@, not_found: not_found@ }),
    {
        ResponseCatalog { ok: ResponseBody::new(ok), not_found: ResponseBody::new(not_found) }
    }

    /// A catalog of what the two payload sources gave, where `None` stands
    /// for a source that could not be read. Both are needed.
    pub fn load(ok: Option<String>, not_found: Option<String>) -> (catalog: Option<ResponseCatalog>)
        ensures
            catalog is Some <==> ok is Some && not_found is Some,
            catalog matches Some(c) ==> c@ == (CatalogView {
                ok: ok->Some_0@,
                not_found: not_found->Some_0@,
            }),
    {
        match (ok, not_found) {
            (Some(ok), Some(not_found)) => Some(ResponseCatalog::new(ok, not_found)),
            _ => None,
        }
    }

    /// The payload of a successful response.
    pub fn ok(&self) -> (body: &ResponseBody)
        ensures
            body@ == self@.ok,
    {
        &self.ok
    }

    /// The payload of a not-found response.
    pub fn not_found(&self) -> (body: &ResponseBody)
        ensures
            body@ == self@.not_found,
    {
        &self.not_found
    }
}

} // verus!
