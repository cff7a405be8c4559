//! Content digests: SHA-256 rendered as lowercase hex, the signature sidecar
//! convention, and the check of a manifest against its signature file.

use vstd::prelude::*;
use crate::strutil::str_eq;

verus! {

/// The largest input the digest primitive accepts (the algorithm's documented
/// limit on message length).
pub const MAX_DIGEST_INPUT: u64 = 0x2000000000000000;

/// The SHA-256 digest of a byte sequence; what it is on given bytes is known
/// only to the outside implementation.
pub uninterp spec fn sha256_of(data: Seq<u8>) -> Seq<u8>;

/// The hex digit for a nibble, lowercase.
pub open spec fn hex_digit(n: u8) -> char
    recommends
        n < 16,
{
    if n < 10 {
        ((n + 0x30) as u8) as char
    } else {
        ((n + 0x57) as u8) as char
    }
}

/// Lowercase hex rendering: two digits per byte, high nibble first.
pub open spec fn hex_of(b: Seq<u8>) -> Seq<char> {
    Seq::new(
        2 * b.len(),
        |i: int|
            if i % 2 == 0 {
                hex_digit(b[i / 2] / 16)
            } else {
                hex_digit(b[i / 2] % 16)
            },
    )
}

/// The digest string this library stores in sidecars and signature files.
pub open spec fn sha256_hex_of(data: Seq<u8>) -> Seq<char> {
    hex_of(sha256_of(data))
}

/// Relies on ring::digest::digest with the SHA-256 algorithm: the digest is a
/// function of the input bytes alone and is 32 bytes long; inputs at the
/// algorithm's length limit, on which it panics, are excluded.
#[verifier::external_body]
fn sha256_digest(data: &[u8]) -> (r: Vec<u8>)
    requires
        data@.len() < MAX_DIGEST_INPUT,
    ensures
        r@ == sha256_of(data@),
        r@.len() == 32,
{
    ring::digest::digest(&ring::digest::SHA256, data).as_ref().to_vec()
}

/// Relies on hex::encode: two lowercase hex digits per input byte, in input
/// order, high nibble first.
#[verifier::external_body]
fn hex_encode(data: &[u8]) -> (r: String)
    ensures
        r@ == hex_of(data@),
{
    hex::encode(data)
}

/// The lowercase-hex SHA-256 digest of `data`, 64 characters.
pub fn sha256_hex(data: &[u8]) -> (r: String)
    requires
        data@.len() < MAX_DIGEST_INPUT,
    ensures
        r@ == sha256_hex_of(data@),
        r@.len() == 64,
{
    let d = sha256_digest(data);
    hex_encode(d.as_slice())
}

/// The digest a signature file declares: its first 64 characters.
pub fn signature_digest(sig: &str) -> (r: Option<String>)
    ensures
        r is Some <==> sig@.len() >= 64,
        r is Some ==> r.unwrap()@ == sig@.subrange(0, 64),
{
    if sig.unicode_len() >= 64 {
        Some(sig.substring_char(0, 64).to_owned())
    } else {
        None
    }
}

/// True exactly when the signature file's declared digest is the digest of the
/// manifest bytes; a signature too short to hold one never passes.
pub fn manifest_signature_ok(manifest: &[u8], sig: &str) -> (r: bool)
    requires
        manifest@.len() < MAX_DIGEST_INPUT,
    ensures
        r == (sig@.len() >= 64 && sig@.subrange(0, 64) == sha256_hex_of(manifest@)),
{
    let d = sha256_hex(manifest);
    match signature_digest(sig) {
        Some(s) => str_eq(s.as_str(), d.as_str()),
        None => false,
    }
}

/// The upstream textual convention for a channel signature file:
/// the digest, two spaces, and the manifest's file name.
pub open spec fn signature_line_spec(digest: Seq<char>, channel: Seq<char>) -> Seq<char> {
    digest + "  channel-rust-"@ + channel + ".toml"@
}

/// Round-trip law of the signature convention: a signature file written for a
/// digest declares exactly that digest, so a manifest the mirror produces
/// validates against the signature written beside it.
pub proof fn lemma_signature_line_round_trip(digest: Seq<char>, channel: Seq<char>)
    requires
        digest.len() == 64,
    ensures
        signature_line_spec(digest, channel).len() >= 64,
        signature_line_spec(digest, channel).subrange(0, 64) == digest,
{
    assert(signature_line_spec(digest, channel).subrange(0, 64) =~= digest);
}

pub fn signature_line(digest: &str, channel: &str) -> (r: String)
    ensures
        r@ == signature_line_spec(digest@, channel@),
{
    let mut out = String::new();
    out.append(digest);
    out.append("  channel-rust-");
    out.append(channel);
    out.append(".toml");
    out
}

} // verus!
