//! Record ids in url-safe base64 and random strings.
use vstd::prelude::*;

use base64::prelude::BASE64_URL_SAFE;
use base64::Engine;
use rand::distr::{Alphanumeric, SampleString};

verus! {

/// The bytes that url-safe, padded base64 (`base64::prelude::BASE64_URL_SAFE`) decodes
/// the text to, or `None` when the text is not valid base64 of that alphabet.
pub uninterp spec fn base64_url_decoded(s: Seq<char>) -> Option<Seq<u8>>;

/// The url-safe, padded base64 text of the bytes.
pub uninterp spec fn base64_url_encoded(b: Seq<u8>) -> Seq<char>;

/// `BASE64_URL_SAFE.decode`: the decoded bytes, or `None` on invalid input.
#[verifier::external_body]
pub(crate) fn base64_url_decode(s: &str) -> (r: Option<Vec<u8>>)
    ensures
        r is Some <==> base64_url_decoded(s@) is Some,
        r matches Some(v) ==> base64_url_decoded(s@) == Some(v@),
{
    BASE64_URL_SAFE.decode(s).ok()
}

/// `BASE64_URL_SAFE.encode`: the base64 text of the bytes, which decodes back to them.
#[verifier::external_body]
pub(crate) fn base64_url_encode(bytes: &[u8]) -> (r: String)
    ensures
        r@ == base64_url_encoded(bytes@),
        base64_url_decoded(r@) == Some(bytes@),
{
    BASE64_URL_SAFE.encode(bytes)
}

/// Errors decoding a record id.
#[derive(Clone, Debug, PartialEq, Eq)]
pub enum IdError {
    /// The text decoded to this many bytes, fewer than an id's 16.
    InvalidLength(usize),
    /// The text is not url-safe base64 of at most 16 bytes.
    Decode,
}

/// The id a url-safe base64 text stands for: its 16 decoded bytes.
pub open spec fn id_from_text(t: Seq<char>) -> Result<Seq<u8>, IdError> {
    match base64_url_decoded(t) {
        Some(bytes) => if bytes.len() == 16 {
            Ok(bytes)
        } else if bytes.len() > 16 {
            Err(IdError::Decode)
        } else {
            Err(IdError::InvalidLength(bytes.len() as usize))
        },
        None => Err(IdError::Decode),
    }
}

/// The text an id is encoded as is read back as that id: `b64_to_id` undoes `id_to_b64`,
/// whose text decodes to the id's bytes.
pub proof fn lemma_id_round_trip(id: Seq<u8>, text: Seq<char>)
    requires
        id.len() == 16,
        base64_url_decoded(text) == Some(id),
    ensures
        id_from_text(text) == Ok::<Seq<u8>, IdError>(id),
{
}

/// Decodes a 16-byte id from url-safe base64.
pub fn b64_to_id(b64_id: &str) -> (r: Result<[u8; 16], IdError>)
    ensures
        match r {
            Ok(id) => id_from_text(b64_id@) == Ok::<Seq<u8>, IdError>(id@),
            Err(e) => id_from_text(b64_id@) == Err::<Seq<u8>, IdError>(e),
        },
        match base64_url_decoded(b64_id@) {
            Some(bytes) => if bytes.len() == 16 {
                r matches Ok(id) && id@ == bytes
            } else if bytes.len() > 16 {
                r == Err::<[u8; 16], IdError>(IdError::Decode)
            } else {
                r == Err::<[u8; 16], IdError>(IdError::InvalidLength(bytes.len() as usize))
            },
            None => r == Err::<[u8; 16], IdError>(IdError::Decode),
        },
{
    let bytes = match base64_url_decode(b64_id) {
        Some(b) => b,
        None => {
            return Err(IdError::Decode);
        },
    };
    if bytes.len() > 16 {
        return Err(IdError::Decode);
    }
    if bytes.len() != 16 {
        return Err(IdError::InvalidLength(bytes.len()));
    }
    let mut id: [u8; 16] = [0u8; 16];
    let mut i: usize = 0;
    while i < 16
        invariant
            bytes@.len() == 16,
            i <= 16,
            forall|j: int| 0 <= j < i ==> id@[j] == bytes@[j],
        decreases 16 - i,
    {
        id.set(i, bytes[i]);
        i += 1;
    }
    assert(id@ =~= bytes@);
    Ok(id)
}

/// Encodes a 16-byte id as url-safe base64.
pub fn id_to_b64(id: &[u8; 16]) -> (r: String)
    ensures
        r@ == base64_url_encoded(id@),
        base64_url_decoded(r@) == Some(id@),
{
    base64_url_encode(id.as_slice())
}

pub open spec fn is_ascii_alphanumeric(c: char) -> bool {
    ('a' <= c && c <= 'z') || ('A' <= c && c <= 'Z') || ('0' <= c && c <= '9')
}

/// `rand::distr::Alphanumeric::sample_string` with the thread-local generator
/// `rand::rng()`: `length` characters, each uniformly drawn from `a-z`, `A-Z` and `0-9`.
/// Which characters come out depends on the generator's state.
#[verifier::external_body]
fn sample_alphanumeric(length: usize) -> (r: String)
    ensures
        r@.len() == length,
        forall|i: int| 0 <= i < length ==> is_ascii_alphanumeric(#[trigger] r@[i]),
{
    Alphanumeric.sample_string(&mut rand::rng(), length)
}

/// A random string of `length` ASCII letters and digits from a cryptographically
/// secure generator.
pub fn generate_random_string(length: usize) -> (r: String)
    ensures
        r@.len() == length,
        forall|i: int| 0 <= i < length ==> is_ascii_alphanumeric(#[trigger] r@[i]),
{
    sample_alphanumeric(length)
}

/// Encodes a UUID's 16 bytes as url-safe base64.
pub fn uuid_to_b64(uuid: &[u8; 16]) -> (r: String)
    ensures
        r@ == base64_url_encoded(uuid@),
{
    id_to_b64(uuid)
}

/// Decodes the 16 bytes of a UUID from url-safe base64.
pub fn b64_to_uuid(b64_id: &str) -> (r: Result<[u8; 16], IdError>)
    ensures
        match base64_url_decoded(b64_id@) {
            Some(b) => if b.len() == 16 {
                r matches Ok(id) && id@ == b
            } else {
                r is Err
            },
            None => r is Err,
        },
{
    b64_to_id(b64_id)
}

/// The uppercase hex digit of a value below 16.
pub open spec fn hex_upper(n: u8) -> char {
    if n < 10 {
        (48 + n) as char
    } else {
        (55 + n) as char
    }
}

/// Bytes the form serializer keeps: ASCII letters and digits, `*`, `-`, `.` and `_`.
pub open spec fn serialized_unchanged(b: u8) -> bool {
    b == 42 || b == 45 || b == 46 || (48 <= b <= 57) || (65 <= b <= 90) || b == 95 || (97 <= b <= 122)
}

/// One byte in `application/x-www-form-urlencoded` form: kept, a space as `+`, anything
/// else as `%` and two uppercase hex digits.
pub open spec fn form_encode_byte(b: u8) -> Seq<char> {
    if serialized_unchanged(b) {
        seq![b as char]
    } else if b == 32 {
        seq!['+']
    } else {
        seq!['%', hex_upper(b >> 4), hex_upper(b & 15)]
    }
}

/// The bytes in `application/x-www-form-urlencoded` form.
pub open spec fn form_encoded(bytes: Seq<u8>) -> Seq<char>
    decreases bytes.len(),
{
    if bytes.len() == 0 {
        Seq::empty()
    } else {
        form_encoded(bytes.drop_last()) + form_encode_byte(bytes.last())
    }
}

/// `form_urlencoded::byte_serialize` of the text's UTF-8 bytes, collected.
#[verifier::external_body]
fn form_byte_serialize(s: &str) -> (r: String)
    ensures
        r@ == form_encoded(vstd::utf8::encode_utf8(s@)),
{
    form_urlencoded::byte_serialize(s.as_bytes()).collect()
}

/// The text in `application/x-www-form-urlencoded` form.
pub fn urlencode(s: &str) -> (r: String)
    ensures
        r@ == form_encoded(vstd::utf8::encode_utf8(s@)),
{
    form_byte_serialize(s)
}

} // verus!
