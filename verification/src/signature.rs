//! The signed request body of the obfuscated-contact lookup.
//!
//! The remote endpoint verifies the signature server-side, so the body must
//! be built byte for byte: the payload serialized as one canonical JSON
//! string, a keyed 256-bit digest of that exact string, and the literal
//! format `ig_sig_key_version=<tag>&signed_body=<hex>.<encoded payload>`.

use vstd::prelude::*;
use vstd::utf8::encode_utf8;
use hmac::Hmac;
use hmac::KeyInit;
use hmac::Mac;
use sha2::Sha256;

verus! {

pub const HEX_LOWER: [char; 16] = [
    '0',
    '1',
    '2',
    '3',
    '4',
    '5',
    '6',
    '7',
    '8',
    '9',
    'a',
    'b',
    'c',
    'd',
    'e',
    'f',
];

/// One lowercase hex digit; meaningful for `n < 16`.
pub open spec fn hex_char_of(n: u8) -> char {
    HEX_LOWER@[n as int]
}

/// The lowercase hex encoding of a byte string: two digits for each byte,
/// in order.
pub open spec fn hex_of(bytes: Seq<u8>) -> Seq<char>
    decreases bytes.len(),
{
    if bytes.len() == 0 {
        Seq::empty()
    } else {
        hex_of(bytes.drop_last()) + seq![
            hex_char_of(bytes.last() / 16),
            hex_char_of(bytes.last() % 16),
        ]
    }
}

/// Relies on hex::encode: the lowercase hex form of the bytes, two digits
/// for each byte.
#[verifier::external_body]
fn hex_encode(bytes: &Vec<u8>) -> (r: String)
    ensures
        r@ == hex_of(bytes@),
{
    hex::encode(bytes)
}

/// The HMAC-SHA-256 authentication code; a function of key and message
/// alone.
pub uninterp spec fn hmac_sha256_of(key: Seq<u8>, data: Seq<u8>) -> Seq<u8>;

/// Relies on hmac::Hmac over sha2::Sha256: a 32-byte keyed digest of the
/// message, depending on key and message alone; a key of any length is
/// accepted.
#[verifier::external_body]
fn hmac_sha256(key: &[u8], data: &[u8]) -> (r: Vec<u8>)
    ensures
        r@ == hmac_sha256_of(key@, data@),
        r@.len() == 32,
{
    let mut mac = <Hmac<Sha256> as KeyInit>::new_from_slice(key).unwrap();
    mac.update(data);
    mac.finalize().into_bytes().as_slice().to_vec()
}

pub const HEX_UPPER: [char; 16] = [
    '0',
    '1',
    '2',
    '3',
    '4',
    '5',
    '6',
    '7',
    '8',
    '9',
    'A',
    'B',
    'C',
    'D',
    'E',
    'F',
];

/// One uppercase hex digit; meaningful for `n < 16`.
pub open spec fn hex_upper_char_of(n: u8) -> char {
    HEX_UPPER@[n as int]
}

/// A byte that percent-encoding leaves as it stands: the unreserved set,
/// alphanumerics and `-`, `.`, `_`, `~`.
pub open spec fn url_unreserved(b: u8) -> bool {
    ||| (0x30 <= b && b <= 0x39)
    ||| (0x41 <= b && b <= 0x5A)
    ||| (0x61 <= b && b <= 0x7A)
    ||| b == 0x2D
    ||| b == 0x2E
    ||| b == 0x5F
    ||| b == 0x7E
}

/// The percent-encoded form of a byte string: an unreserved byte stands
/// as its own character, any other becomes `%` and two uppercase hex
/// digits.
pub open spec fn url_encoded_bytes(bytes: Seq<u8>) -> Seq<char>
    decreases bytes.len(),
{
    if bytes.len() == 0 {
        Seq::empty()
    } else {
        url_encoded_bytes(bytes.drop_last()) + (if url_unreserved(bytes.last()) {
            seq![bytes.last() as char]
        } else {
            seq![
                '%',
                hex_upper_char_of(bytes.last() / 16),
                hex_upper_char_of(bytes.last() % 16),
            ]
        })
    }
}

/// The percent-encoded form of a string: its UTF-8 bytes, each encoded.
pub open spec fn url_encoded_of(s: Seq<char>) -> Seq<char> {
    url_encoded_bytes(encode_utf8(s))
}

/// Relies on urlencoding::encode: percent-encodes every byte of the UTF-8
/// form except alphanumerics and `-`, `_`, `.`, `~`, with uppercase hex
/// digits.
#[verifier::external_body]
fn url_encode(s: &str) -> (r: String)
    ensures
        r@ == url_encoded_of(s@),
{
    urlencoding::encode(s).into_owned()
}

/// Relies on String::push: appends the one character.
#[verifier::external_body]
fn push_char(s: &mut String, c: char)
    ensures
        final(s)@ == old(s)@.push(c),
{
    s.push(c)
}

/// How one character stands inside a JSON string literal.
pub open spec fn json_escaped_char(c: char) -> Seq<char> {
    if c == '"' {
        seq!['\\', '"']
    } else if c == '\\' {
        seq!['\\', '\\']
    } else if c == '\u{8}' {
        seq!['\\', 'b']
    } else if c == '\u{c}' {
        seq!['\\', 'f']
    } else if c == '\n' {
        seq!['\\', 'n']
    } else if c == '\r' {
        seq!['\\', 'r']
    } else if c == '\t' {
        seq!['\\', 't']
    } else if (c as u32) < 0x20 {
        seq!['\\', 'u', '0', '0', hex_char_of((c as u32 / 16) as u8), hex_char_of(
            (c as u32 % 16) as u8,
        )]
    } else {
        seq![c]
    }
}

/// The body of the JSON string literal that holds `s`.
pub open spec fn json_escaped(s: Seq<char>) -> Seq<char>
    decreases s.len(),
{
    if s.len() == 0 {
        Seq::empty()
    } else {
        json_escaped(s.drop_last()) + json_escaped_char(s.last())
    }
}

/// Escape `s` for inclusion in a JSON string literal.
pub fn json_escape(s: &str) -> (r: String)
    ensures
        r@ == json_escaped(s@),
{
    let len = s.unicode_len();
    let mut out = String::new();
    let mut i: usize = 0;
    while i < len
        invariant
            len == s@.len(),
            i <= len,
            out@ == json_escaped(s@.take(i as int)),
        decreases len - i,
    {
        let c = s.get_char(i);
        proof {
            assert(s@.take(i + 1).drop_last() =~= s@.take(i as int));
            assert(s@.take(i + 1).last() == s@[i as int]);
        }
        if c == '"' {
            push_char(&mut out, '\\');
            push_char(&mut out, '"');
        } else if c == '\\' {
            push_char(&mut out, '\\');
            push_char(&mut out, '\\');
        } else if c == '\u{8}' {
            push_char(&mut out, '\\');
            push_char(&mut out, 'b');
        } else if c == '\u{c}' {
            push_char(&mut out, '\\');
            push_char(&mut out, 'f');
        } else if c == '\n' {
            push_char(&mut out, '\\');
            push_char(&mut out, 'n');
        } else if c == '\r' {
            push_char(&mut out, '\\');
            push_char(&mut out, 'r');
        } else if c == '\t' {
            push_char(&mut out, '\\');
            push_char(&mut out, 't');
        } else if (c as u32) < 0x20 {
            push_char(&mut out, '\\');
            push_char(&mut out, 'u');
            push_char(&mut out, '0');
            push_char(&mut out, '0');
            let u = c as u32;
            let hi = (u / 16) as u8;
            let lo = (u % 16) as u8;
            push_char(&mut out, HEX_LOWER[hi as usize]);
            push_char(&mut out, HEX_LOWER[lo as usize]);
        } else {
            push_char(&mut out, c);
        }
        proof {
            assert(out@ =~= json_escaped(s@.take(i + 1)));
        }
        i += 1;
    }
    proof {
        assert(s@.take(len as int) =~= s@);
    }
    out
}

/// The canonical JSON payload of the obfuscated-contact lookup: the fixed
/// constant fields beside the query handle, keys in canonical sorted
/// order, every value a JSON string.
pub open spec fn spec_lookup_payload(q: Seq<char>, version: Seq<char>) -> Seq<char> {
    "{\"directly_sign_in\":\"true\",\"ig_sig_key_version\":\""@ + json_escaped(version)
        + "\",\"login_attempt_count\":\"0\",\"q\":\""@ + json_escaped(q)
        + "\",\"source\":\"default\"}"@
}

/// Serialize the lookup payload for one query handle as its canonical
/// JSON string.
pub fn build_lookup_payload(query: &str, version: &str) -> (r: String)
    ensures
        r@ == spec_lookup_payload(query@, version@),
{
    let mut out = String::from_str("{\"directly_sign_in\":\"true\",\"ig_sig_key_version\":\"");
    out.append(json_escape(version).as_str());
    out.append("\",\"login_attempt_count\":\"0\",\"q\":\"");
    out.append(json_escape(query).as_str());
    out.append("\",\"source\":\"default\"}");
    proof {
        assert(out@ =~= spec_lookup_payload(query@, version@));
    }
    out
}

/// The exact signed body for a payload: the version tag, the hex form of
/// the keyed digest of the payload's UTF-8 bytes, and the percent-encoded
/// payload, in the one format the remote endpoint accepts.
pub open spec fn spec_signature(data: Seq<char>, key: Seq<char>, version: Seq<char>) -> Seq<char> {
    "ig_sig_key_version="@ + version + "&signed_body="@ + hex_of(
        hmac_sha256_of(encode_utf8(key), encode_utf8(data)),
    ) + "."@ + url_encoded_of(data)
}

/// Sign `data` with the shared secret `key` under the given version tag.
pub fn generate_signature(data: &str, key: &str, version: &str) -> (r: String)
    ensures
        r@ == spec_signature(data@, key@, version@),
{
    let digest = hmac_sha256(key.as_bytes(), data.as_bytes());
    let hex_hash = hex_encode(&digest);
    let mut out = String::from_str("ig_sig_key_version=");
    out.append(version);
    out.append("&signed_body=");
    out.append(hex_hash.as_str());
    out.append(".");
    out.append(url_encode(data).as_str());
    proof {
        assert(out@ =~= spec_signature(data@, key@, version@));
    }
    out
}

/// Serialize and sign the lookup payload for one query handle.
pub fn signed_lookup_body(query: &str, secret: &str, version: &str) -> (r: String)
    ensures
        r@ == spec_signature(spec_lookup_payload(query@, version@), secret@, version@),
{
    let payload = build_lookup_payload(query, version);
    generate_signature(payload.as_str(), secret, version)
}

/// The signer is deterministic: one payload, secret and version give one
/// signed body.
pub proof fn lemma_signature_deterministic(
    r1: Seq<char>,
    r2: Seq<char>,
    data: Seq<char>,
    key: Seq<char>,
    version: Seq<char>,
)
    requires
        r1 == spec_signature(data, key, version),
        r2 == spec_signature(data, key, version),
    ensures
        r1 == r2,
{
}

} // verus!
