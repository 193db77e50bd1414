//! Hashes, encodings and random tokens: session tokens, their stored hashes, client address
//! hashes and content digests.
use vstd::prelude::*;

use base64::Engine as _;
use sha2::Digest as _;

use vstd::utf8::encode_utf8;

use crate::format::{bytes_hex_text, hex_bytes, lemma_bytes_hex_text_len};
use crate::text::{concat2, concat3};

verus! {

/// The SHA-256 digest of a byte string.
pub uninterp spec fn sha256_digest(data: Seq<u8>) -> Seq<u8>;

/// `sha2::Sha256::digest`: the SHA-256 digest of `data`, which is 32 bytes long.
#[verifier::external_body]
fn sha256(data: &[u8]) -> (d: Vec<u8>)
    ensures
        d@ == sha256_digest(data@),
        d@.len() == 32,
{
    sha2::Sha256::digest(data).to_vec()
}

/// The character of the URL-safe base64 alphabet for `v < 64`.
pub open spec fn base64_url_char(v: nat) -> char {
    if v < 26 {
        (('A' as nat) + v) as char
    } else if v < 52 {
        (('a' as nat) + v - 26) as char
    } else if v < 62 {
        (('0' as nat) + v - 52) as char
    } else if v == 62 {
        '-'
    } else {
        '_'
    }
}

/// URL-safe base64 without padding (RFC 4648, section 5).
pub open spec fn base64_url_text(b: Seq<u8>) -> Seq<char>
    decreases b.len(),
{
    if b.len() == 0 {
        Seq::empty()
    } else if b.len() == 1 {
        let x = b[0] as nat;
        seq![base64_url_char(x / 4), base64_url_char((x % 4) * 16)]
    } else if b.len() == 2 {
        let x = b[0] as nat;
        let y = b[1] as nat;
        seq![
            base64_url_char(x / 4),
            base64_url_char((x % 4) * 16 + y / 16),
            base64_url_char((y % 16) * 4),
        ]
    } else {
        let x = b[0] as nat;
        let y = b[1] as nat;
        let z = b[2] as nat;
        seq![
            base64_url_char(x / 4),
            base64_url_char((x % 4) * 16 + y / 16),
            base64_url_char((y % 16) * 4 + z / 64),
            base64_url_char(z % 64),
        ] + base64_url_text(b.subrange(3, b.len() as int))
    }
}

/// `base64::engine::general_purpose::URL_SAFE_NO_PAD.encode`: the URL-safe base64 text of
/// `data`, without padding.
#[verifier::external_body]
fn base64_url_encode(data: &[u8]) -> (s: String)
    ensures
        s@ == base64_url_text(data@),
{
    base64::engine::general_purpose::URL_SAFE_NO_PAD.encode(data)
}

/// `rand::rngs::OsRng::try_fill_bytes`: 32 bytes from the operating system's random source,
/// or `None` when that source fails. Nothing is stated of the bytes' values.
#[verifier::external_body]
fn os_random_32() -> (b: Option<[u8; 32]>) {
    let mut random = [0u8; 32];
    match rand::RngCore::try_fill_bytes(&mut rand::rngs::OsRng, &mut random) {
        Ok(()) => Some(random),
        Err(_) => None,
    }
}

/// The token handed to a new anonymous session for the random bytes `random`: `fq_` followed
/// by their URL-safe base64 text.
pub fn session_token_from(random: &[u8]) -> (t: String)
    ensures
        t@ == "fq_"@ + base64_url_text(random@),
{
    let encoded = base64_url_encode(random);
    concat2("fq_", encoded.as_str())
}

/// A new session token made of 256 random bits, or `None` when the operating system's
/// random source fails.
pub fn new_session_token() -> (t: Option<String>)
    ensures
        t matches Some(t) ==> exists|r: Seq<u8>| r.len() == 32 && t@ == "fq_"@ + base64_url_text(r),
{
    match os_random_32() {
        Some(random) => {
            let t = session_token_from(&random);
            assert(random@.len() == 32);
            Some(t)
        },
        None => None,
    }
}

/// The stored form of a session token: the SHA-256 digest of its UTF-8 bytes. Only this hash
/// is kept.
pub fn token_hash(token: &str) -> (h: Vec<u8>)
    ensures
        h@ == sha256_digest(encode_utf8(token@)),
        h@.len() == 32,
{
    sha256(token.as_bytes())
}

/// The salted hash under which a client address is counted for quotas: the SHA-256 digest of
/// `<salt>:<ip>`.
pub fn client_ip_hash(salt: &str, ip: &str) -> (h: Vec<u8>)
    ensures
        h@ == sha256_digest(encode_utf8(salt@ + ":"@ + ip@)),
        h@.len() == 32,
{
    let text = concat3(salt, ":", ip);
    let h = sha256(text.as_str().as_bytes());
    h
}

/// The lowercase hexadecimal SHA-256 digest of an upload.
pub fn hex_sha256(bytes: &[u8]) -> (s: String)
    ensures
        s@ == bytes_hex_text(sha256_digest(bytes@)),
        s@.len() == 64,
{
    let d = sha256(bytes);
    let s = hex_bytes(d.as_slice());
    proof {
        lemma_bytes_hex_text_len(d@);
    }
    s
}

} // verus!
