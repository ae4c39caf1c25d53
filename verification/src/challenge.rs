//! Challenges: unguessable tokens that an approval link carries back.

use vstd::prelude::*;
use rand::RngCore;
use vstd::utf8::encode_utf8_decode_utf8;

verus! {

/// How many random bytes stand behind one challenge.
pub const NONCE_LEN: usize = 32;

/// The text that `base_62::encode` gives for `bytes`.
pub uninterp spec fn base62_encoding(bytes: Seq<u8>) -> Seq<char>;

/// The error of `base_62::decode`, carried through unread.
#[verifier::external_type_specification]
#[verifier::external_body]
pub struct ExBase62Error(base_62::Error);

/// The bytes that `base_62::decode` gives for `text`, or `None` where it
/// rejects the text.
pub uninterp spec fn base62_decoding(text: Seq<char>) -> Option<Seq<u8>>;

/// Whether `c` is a digit or an unaccented letter: the characters that need
/// no escaping in the query of a URL.
pub open spec fn is_base62_char(c: char) -> bool {
    ('0' <= c && c <= '9') || ('A' <= c && c <= 'Z') || ('a' <= c && c <= 'z')
}

/// Whether every character of `text` is a digit or an unaccented letter.
pub open spec fn is_url_safe(text: Seq<char>) -> bool {
    forall|i: int| 0 <= i < text.len() ==> is_base62_char(#[trigger] text[i])
}

/// Calls `base_62::encode`. Trusted: the result is the encoding of `bytes`,
/// a function of the bytes alone; every character of it is taken from the
/// crate's alphabet of digits and unaccented letters; it is empty only for
/// no bytes, since the crate puts a 1 byte before the input and writes one
/// character per division step of that number; and the crate's decoding
/// gives the bytes back, since it sums the same digits up to the same
/// number and takes the 1 byte off again.
#[verifier::external_body]
fn base62_encode(bytes: &[u8]) -> (text: String)
    ensures
        text@ == base62_encoding(bytes@),
        is_url_safe(text@),
        bytes@.len() > 0 ==> text@.len() > 0,
        base62_decoding(text@) == Some(bytes@),
{
    base_62::encode(bytes)
}

/// Calls `base_62::decode`. Trusted: whether the text is accepted, and the
/// bytes that come out, depend on the text alone.
#[verifier::external_body]
fn base62_decode(text: &str) -> (decoded: Result<Vec<u8>, base_62::Error>)
    ensures
        match decoded {
            Ok(bytes) => base62_decoding(text@) == Some(bytes@),
            Err(_) => base62_decoding(text@).is_none(),
        },
{
    base_62::decode(text)
}

/// Calls `rand::rngs::OsRng::new` and, on the generator it gives,
/// `RngCore::try_fill_bytes` on a zeroed buffer of `len` bytes. Trusted:
/// where both succeed the buffer comes back with its length unchanged.
/// Nothing is claimed of the bytes, nor of when the operating system has
/// entropy to give: where it has none, or is not ready, the result is
/// `None`. The empty buffer is kept from the crate, which reads the first
/// byte of the buffer when it tests the random device.
#[verifier::external_body]
fn os_random_bytes(len: usize) -> (bytes: Option<Vec<u8>>)
    requires
        len > 0,
    ensures
        bytes is Some ==> bytes.unwrap()@.len() == len,
{
    let mut nonce = vec![0u8; len];
    match rand::rngs::OsRng::new() {
        Ok(mut source) => match source.try_fill_bytes(&mut nonce) {
            Ok(()) => Some(nonce),
            Err(_) => None,
        },
        Err(_) => None,
    }
}

/// The challenge that stands for `nonce`: its encoding in digits and
/// letters, from which the nonce can be read back.
pub fn encode_challenge(nonce: &Vec<u8>) -> (challenge: String)
    ensures
        challenge@ == base62_encoding(nonce@),
        base62_decoding(challenge@) == Some(nonce@),
        is_url_safe(challenge@),
        nonce@.len() > 0 ==> challenge@.len() > 0,
{
    base62_encode(nonce.as_slice())
}

/// The bytes behind a text of digits and letters, or `None` where the text
/// holds another character.
pub fn decode_challenge(challenge: &str) -> (nonce: Option<Vec<u8>>)
    ensures
        match nonce {
            Some(bytes) => base62_decoding(challenge@) == Some(bytes@),
            None => base62_decoding(challenge@).is_none(),
        },
{
    match base62_decode(challenge) {
        Ok(bytes) => Some(bytes),
        Err(_) => None,
    }
}

/// Whether `challenge` is the encoding of some `NONCE_LEN` bytes, which are
/// what it decodes to.
pub open spec fn is_fresh_challenge(challenge: Seq<char>) -> bool {
    exists|nonce: Seq<u8>|
        nonce.len() == NONCE_LEN && challenge == #[trigger] base62_encoding(nonce)
            && base62_decoding(challenge) == Some(nonce)
}

/// Draws `NONCE_LEN` bytes from the operating system and encodes them.
/// Which bytes come is not for a contract to say; whatever they are, the
/// challenge is their encoding, is not empty and can stand in a URL as it is.
/// Where the operating system gives no bytes there is no challenge: the
/// caller has to give up, not to draw from a weaker source.
pub fn random_challenge() -> (challenge: Option<String>)
    ensures
        challenge is Some ==> is_fresh_challenge(challenge.unwrap()@),
        challenge is Some ==> is_url_safe(challenge.unwrap()@),
        challenge is Some ==> challenge.unwrap()@.len() > 0,
{
    match os_random_bytes(NONCE_LEN) {
        Some(nonce) => Some(encode_challenge(&nonce)),
        None => None,
    }
}

/// Whether the supplied challenge is the expected one: the same text,
/// character for character. Texts of the same length in bytes are read to
/// the end whether or not they differ on the way, so the time taken does not
/// tell where the first difference stands.
pub fn challenges_match(expected: &str, supplied: &str) -> (same: bool)
    ensures
        same == (expected@ == supplied@),
{
    let left = expected.as_bytes();
    let right = supplied.as_bytes();
    proof {
        encode_utf8_decode_utf8(expected@);
        encode_utf8_decode_utf8(supplied@);
    }
    if left.len() != right.len() {
        return false;
    }
    let mut difference: u8 = 0;
    let mut at: usize = 0;
    while at < left.len()
        invariant
            at <= left@.len(),
            left@.len() == right@.len(),
            (difference == 0) <==> (forall|j: int| 0 <= j < at ==> left@[j] == right@[j]),
        decreases left@.len() - at,
    {
        let l: u8 = left[at];
        let r: u8 = right[at];
        assert(((difference | (l ^ r)) == 0) <==> (difference == 0 && l == r)) by (bit_vector);
        difference = difference | (l ^ r);
        at += 1;
    }
    assert((difference == 0) <==> left@ =~= right@);
    difference == 0
}

} // verus!
