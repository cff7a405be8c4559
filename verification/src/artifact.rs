//! Per-artifact decisions of the manifest engine: whether an artifact must be
//! downloaded, whether a freshly fetched artifact passes its checksum or the
//! fetch is retried, and what the digest sidecar receives.

use vstd::prelude::*;
use crate::hashing::sha256_hex_of;
use crate::strutil::str_eq;

verus! {

/// The digest that counts as already verified for an artifact: the sidecar's
/// content if a sidecar is present, else the digest recomputed from an
/// artifact file already on disk, else nothing.
pub open spec fn spec_prior_digest(sidecar: Option<Seq<char>>, local: Option<Seq<char>>) -> Option<
    Seq<char>,
> {
    if sidecar is Some {
        sidecar
    } else {
        local
    }
}

/// An artifact is downloaded exactly when no prior digest is obtainable or
/// the prior digest differs from the upstream-declared hash.
pub open spec fn spec_need_download(
    sidecar: Option<Seq<char>>,
    local: Option<Seq<char>>,
    upstream: Seq<char>,
) -> bool {
    match spec_prior_digest(sidecar, local) {
        Some(d) => d != upstream,
        None => true,
    }
}

pub fn need_download(sidecar: &Option<String>, local: &Option<String>, upstream: &str) -> (r: bool)
    ensures
        r == spec_need_download(sidecar.deep_view(), local.deep_view(), upstream@),
{
    match sidecar {
        Some(d) => !str_eq(d.as_str(), upstream),
        None => match local {
            Some(d) => !str_eq(d.as_str(), upstream),
            None => true,
        },
    }
}

/// What the checksum loop does after one fetch attempt.
#[derive(Clone, Copy, PartialEq, Eq, Structural, Debug)]
pub enum VerifyOutcome {
    /// The recomputed digest equals the declared hash; the artifact is good.
    Accept,
    /// Mismatch, but attempts remain: fetch the artifact again.
    RetryFetch,
    /// Mismatch with the attempt ceiling exhausted: fatal integrity failure.
    Abort,
}

pub open spec fn spec_verify_outcome(
    attempts: u32,
    max_attempts: u32,
    recomputed: Option<Seq<char>>,
    expected: Seq<char>,
) -> VerifyOutcome {
    if recomputed == Some(expected) {
        VerifyOutcome::Accept
    } else if attempts < max_attempts {
        VerifyOutcome::RetryFetch
    } else {
        VerifyOutcome::Abort
    }
}

/// Decides the checksum loop's next move after fetch attempt `attempts` (one
/// or more) recomputed the digest `recomputed` of the fetched file. Integrity
/// never passes silently: only an exact digest match accepts.
pub fn verify_step(
    attempts: u32,
    max_attempts: u32,
    recomputed: &Option<String>,
    expected: &str,
) -> (r: VerifyOutcome)
    ensures
        r == spec_verify_outcome(attempts, max_attempts, recomputed.deep_view(), expected@),
        r == VerifyOutcome::Accept <==> recomputed.deep_view() == Some(expected@),
        r == VerifyOutcome::Abort ==> attempts >= max_attempts,
{
    let matched = match recomputed {
        Some(d) => str_eq(d.as_str(), expected),
        None => false,
    };
    if matched {
        VerifyOutcome::Accept
    } else if attempts < max_attempts {
        VerifyOutcome::RetryFetch
    } else {
        VerifyOutcome::Abort
    }
}

/// The content the artifact's sidecar receives, if any: the verified digest,
/// written when the artifact was just downloaded or when its sidecar was
/// missing beforehand.
pub open spec fn spec_sidecar_to_write(
    downloaded: bool,
    sidecar_missing: bool,
    digest: Seq<char>,
) -> Option<Seq<char>> {
    if downloaded || sidecar_missing {
        Some(digest)
    } else {
        None
    }
}

pub fn sidecar_to_write(downloaded: bool, sidecar_missing: bool, digest: &str) -> (r: Option<
    String,
>)
    ensures
        r.deep_view() == spec_sidecar_to_write(downloaded, sidecar_missing, digest@),
        r is Some <==> (downloaded || sidecar_missing),
        r is Some ==> r.unwrap()@ == digest@,
{
    if downloaded || sidecar_missing {
        Some(digest.to_owned())
    } else {
        None
    }
}

/// Round-trip law: on the download path a sidecar is written only after the
/// recomputed digest of the fetched bytes was accepted against the declared
/// hash, so whatever the sidecar receives is the digest of the artifact's
/// current bytes, and equals the upstream-declared hash.
pub proof fn lemma_sidecar_digest_round_trip(
    bytes: Seq<u8>,
    attempts: u32,
    max_attempts: u32,
    expected: Seq<char>,
    sidecar_missing: bool,
)
    requires
        spec_verify_outcome(attempts, max_attempts, Some(sha256_hex_of(bytes)), expected)
            == VerifyOutcome::Accept,
    ensures
        spec_sidecar_to_write(true, sidecar_missing, sha256_hex_of(bytes)) == Some(
            sha256_hex_of(bytes),
        ),
        sha256_hex_of(bytes) == expected,
{
}

/// Backfill half of the round-trip law: when no download was needed and the
/// sidecar was missing, what it receives is the digest recomputed from the
/// bytes already on disk.
pub proof fn lemma_sidecar_backfill_round_trip(bytes: Seq<u8>, sidecar: Option<Seq<char>>)
    requires
        !spec_need_download(sidecar, Some(sha256_hex_of(bytes)), sha256_hex_of(bytes)),
    ensures
        spec_sidecar_to_write(false, true, sha256_hex_of(bytes)) == Some(sha256_hex_of(bytes)),
{
}

/// Idempotence law: an artifact whose sidecar already holds the
/// upstream-declared hash is never downloaded again.
pub proof fn lemma_mirrored_artifact_not_downloaded(local: Option<Seq<char>>, upstream: Seq<char>)
    ensures
        !spec_need_download(Some(upstream), local, upstream),
{
}

/// An aborted checksum cycle never yields a sidecar write: the sidecar
/// decision is reached only through an accepting verify step, and acceptance
/// on recomputed digest `d` forces `d` to equal the declared hash.
pub proof fn lemma_no_silent_checksum_pass(
    attempts: u32,
    max_attempts: u32,
    recomputed: Option<Seq<char>>,
    expected: Seq<char>,
)
    ensures
        spec_verify_outcome(attempts, max_attempts, recomputed, expected) == VerifyOutcome::Accept
            ==> recomputed == Some(expected),
        spec_verify_outcome(attempts, max_attempts, recomputed, expected) == VerifyOutcome::Abort
            ==> attempts >= max_attempts && recomputed != Some(expected),
{
}

} // verus!
