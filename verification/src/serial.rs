//! Decoding of the device serial number buffer.
//!
//! The native serial query is a two-phase protocol: ask for the required
//! size, then let the native layer fill a byte buffer with a NUL-terminated
//! string.  The bytes before the first NUL are the serial; they decode when
//! every one of them is ASCII, and a malformed buffer degrades to a sentinel
//! string rather than aborting.

use vstd::prelude::*;

verus! {

/// Length of the prefix of `bytes` before its first NUL byte (all of `bytes`
/// if no NUL occurs).
pub open spec fn nul_prefix_len(bytes: Seq<u8>) -> int
    decreases bytes.len(),
{
    if bytes.len() == 0 {
        0
    } else if bytes[0] == 0 {
        0
    } else {
        1 + nul_prefix_len(bytes.drop_first())
    }
}

/// The bytes of `bytes` before its first NUL: the C-string contents of the
/// buffer.
pub open spec fn nul_prefix(bytes: Seq<u8>) -> Seq<u8> {
    bytes.subrange(0, nul_prefix_len(bytes))
}

/// Every byte is an ASCII code point.
pub open spec fn all_ascii(bytes: Seq<u8>) -> bool {
    forall|i: int| 0 <= i < bytes.len() ==> bytes[i] < 128
}

/// The characters of a buffer of ASCII bytes, one per byte.
pub open spec fn ascii_chars(bytes: Seq<u8>) -> Seq<char> {
    Seq::new(bytes.len(), |i: int| bytes[i] as char)
}

/// `nul_prefix_len` is the index of the first NUL, or the length when no NUL
/// occurs: it never leaves the buffer.
pub proof fn lemma_nul_prefix_len_bounds(bytes: Seq<u8>)
    ensures
        0 <= nul_prefix_len(bytes) <= bytes.len(),
    decreases bytes.len(),
{
    if bytes.len() != 0 && bytes[0] != 0 {
        lemma_nul_prefix_len_bounds(bytes.drop_first());
    }
}

/// A position whose earlier bytes are all non-NUL, and which is the length or
/// holds a NUL, is exactly the NUL-prefix length.
pub proof fn lemma_nul_prefix_len_at(bytes: Seq<u8>, i: int)
    requires
        0 <= i <= bytes.len(),
        forall|j: int| 0 <= j < i ==> bytes[j] != 0,
        i < bytes.len() ==> bytes[i] == 0,
    ensures
        nul_prefix_len(bytes) == i,
    decreases bytes.len(),
{
    if bytes.len() == 0 {
    } else if bytes[0] == 0 {
        assert(i == 0);
    } else {
        assert(i > 0);
        let rest = bytes.drop_first();
        assert(forall|j: int| 0 <= j < i - 1 ==> rest[j] != 0);
        lemma_nul_prefix_len_at(rest, i - 1);
    }
}

/// Relies on `String::from_utf8`: a buffer of ASCII bytes is valid UTF-8 and
/// decodes to one character per byte, each character the byte's code point.
#[verifier::external_body]
fn ascii_to_string(bytes: Vec<u8>) -> (s: String)
    requires
        all_ascii(bytes@),
    ensures
        s@ == ascii_chars(bytes@),
{
    match String::from_utf8(bytes) {
        Ok(s) => s,
        Err(_) => String::new(),
    }
}

/// Decode a serial buffer: the bytes before the first NUL, as a string, when
/// all of them are ASCII; `None` when any of them is not.
pub fn decode_serial(raw: &Vec<u8>) -> (serial: Option<String>)
    ensures
        serial is Some <==> all_ascii(nul_prefix(raw@)),
        serial matches Some(s) ==> s@ == ascii_chars(nul_prefix(raw@)),
{
    let mut content: Vec<u8> = Vec::new();
    let mut i: usize = 0;
    while i < raw.len() && raw[i] != 0
        invariant
            i <= raw@.len(),
            content@ =~= raw@.subrange(0, i as int),
            forall|j: int| 0 <= j < i ==> raw@[j] != 0,
        decreases raw@.len() - i,
    {
        content.push(raw[i]);
        i = i + 1;
    }
    proof {
        lemma_nul_prefix_len_at(raw@, i as int);
        assert(content@ =~= nul_prefix(raw@));
    }
    let mut k: usize = 0;
    while k < content.len()
        invariant
            k <= content@.len(),
            content@ == nul_prefix(raw@),
            forall|j: int| 0 <= j < k ==> content@[j] < 128,
        decreases content@.len() - k,
    {
        if content[k] >= 128 {
            return None;
        }
        k = k + 1;
    }
    let serial = ascii_to_string(content);
    Some(serial)
}

} // verus!
