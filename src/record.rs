//! The persisted form of a message, and the two outside computations that
//! produce it: decoding the payload and drawing a fresh identifier.

use vstd::prelude::*;
use vstd::utf8::{decode_utf8, valid_utf8};

verus! {

/// Number of characters in a hyphenated UUID (`8-4-4-4-12` hex digits).
pub const ID_LENGTH: usize = 36;

/// What a byte payload decodes to as UTF-8: `None` where it is not valid UTF-8.
pub open spec fn utf8_text(b: Seq<u8>) -> Option<Seq<char>> {
    if valid_utf8(b) {
        Some(decode_utf8(b))
    } else {
        None
    }
}

/// The text an optional string holds.
pub open spec fn text_view(o: Option<String>) -> Option<Seq<char>> {
    match o {
        Some(t) => Some(t@),
        None => None,
    }
}

/// Relies on `String::from_utf8`: `Ok` exactly for bytes that are valid
/// UTF-8, holding the characters they encode.
#[verifier::external_body]
fn decode_text(payload: Vec<u8>) -> (r: Option<String>)
    ensures
        text_view(r) == utf8_text(payload@),
{
    String::from_utf8(payload).ok()
}

/// Relies on `uuid::Uuid::new_v4` and its `Display`: a random version-4 UUID
/// written in hyphenated form, 36 characters.
#[verifier::external_body]
fn draw_id() -> (r: String)
    ensures
        r@.len() == ID_LENGTH,
{
    uuid::Uuid::new_v4().to_string()
}

/// One stored row: a fresh identifier and the decoded message text.
pub struct StoredRecord {
    pub id: String,
    pub message: String,
}

/// The record that a payload becomes, given what it decoded to and the
/// identifier drawn for it. Nothing is stored for a payload that did not decode.
pub open spec fn record_of(decoded: Option<Seq<char>>, id: Seq<char>) -> Option<(Seq<char>, Seq<char>)> {
    match decoded {
        Some(text) => Some((id, text)),
        None => None,
    }
}

/// The `(id, message)` pair an optional record holds.
pub open spec fn record_view(o: Option<StoredRecord>) -> Option<(Seq<char>, Seq<char>)> {
    match o {
        Some(x) => Some(x.view_pair()),
        None => None,
    }
}

impl StoredRecord {
    /// The pair `(id, message)` that the record holds.
    pub open spec fn view_pair(&self) -> (Seq<char>, Seq<char>) {
        (self.id@, self.message@)
    }

    /// Builds the record for a decoded payload; a payload that failed to decode
    /// gives none.
    pub fn from_decoded(decoded: Option<String>, id: String) -> (r: Option<StoredRecord>)
        ensures
            record_view(r) == record_of(text_view(decoded), id@),
    {
        match decoded {
            Some(message) => Some(StoredRecord { id, message }),
            None => None,
        }
    }

    /// Decodes a payload and, where it is UTF-8, builds its record under a
    /// freshly drawn identifier.
    pub fn from_payload(payload: Vec<u8>) -> (r: Option<StoredRecord>)
        ensures
            r is Some <==> utf8_text(payload@) is Some,
            r matches Some(x) ==> Some(x.message@) == utf8_text(payload@) && x.id@.len() == ID_LENGTH,
    {
        let decoded = decode_text(payload);
        if decoded.is_none() {
            return None;
        }
        StoredRecord::from_decoded(decoded, draw_id())
    }
}

} // verus!
