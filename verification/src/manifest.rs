//! The manifest model and the per-entry transformation: filtering targets
//! against the allow-list, deriving artifact paths from upstream URLs, and
//! rewriting entry URLs to point at the mirror.

use vstd::prelude::*;
use crate::paths::{join_under, join_under_spec, normalize_path, normalize_spec};
use crate::strset::StrSet;
use crate::strutil::{decode_sp, percent_decode_spaces};
use crate::urls::{url_path, url_path_of};

verus! {

/// One target's entry in a package: availability and the two encoding
/// variants' URL and declared digest. Fields the mirror does not read are
/// carried outside this model and left untouched.
pub struct TargetEntry {
    pub available: bool,
    pub url: Option<String>,
    pub hash: Option<String>,
    pub xz_url: Option<String>,
    pub xz_hash: Option<String>,
}

/// A target identifier and its entry.
pub struct TargetRow {
    pub target: String,
    pub entry: TargetEntry,
}

/// A package: its name and its per-target entries.
pub struct Package {
    pub name: String,
    pub rows: Vec<TargetRow>,
}

/// A channel manifest: version, date, and packages.
pub struct Manifest {
    pub version: String,
    pub date: String,
    pub pkgs: Vec<Package>,
}

/// How processing a channel can fail before any artifact is touched.
#[derive(Clone, Copy, PartialEq, Eq, Structural, Debug)]
pub enum SyncError {
    /// The manifest does not declare the expected manifest version.
    VersionMismatch,
    /// An in-scope available entry lacks a URL field.
    MissingUrl,
    /// An in-scope available entry lacks a hash field.
    MissingHash,
    /// An entry URL does not parse, or its path has no leading separator.
    BadUrl,
}

/// The manifest version this mirror understands.
pub open spec fn expected_manifest_version() -> Seq<char> {
    "2"@
}

/// A target is in scope when the allow-list holds it or it is the wildcard.
pub open spec fn entry_in_scope(target: Seq<char>, allow: Set<Seq<char>>) -> bool {
    allow.contains(target) || target == "*"@
}

pub fn target_in_scope(target: &str, allow: &StrSet) -> (r: bool)
    ensures
        r == entry_in_scope(target@, allow@),
{
    if allow.contains(target) {
        true
    } else {
        crate::strutil::str_eq(target, "*")
    }
}

/// The artifact file name an entry URL yields: the URL's path component with
/// `%20` decoded to a space (no other escape is decoded).
pub open spec fn spec_file_name(url: Seq<char>) -> Seq<char> {
    decode_sp(url_path_of(url).unwrap())
}

/// An entry URL is usable when it parses and its path starts with a
/// separator, which the mirror strips to obtain a relative path.
pub open spec fn variant_ok(url: Seq<char>) -> bool {
    &&& url_path_of(url) is Some
    &&& spec_file_name(url).len() >= 1
    &&& spec_file_name(url)[0] == '/'
}

/// The mirror-relative path of the artifact: the file name without its
/// leading separator.
pub open spec fn spec_rel_path(url: Seq<char>) -> Seq<char> {
    spec_file_name(url).subrange(1, spec_file_name(url).len() as int)
}

/// The rewritten URL: the mirror's public base followed by the file name.
pub open spec fn spec_new_url(url: Seq<char>, mirror_url: Seq<char>) -> Seq<char> {
    mirror_url + spec_file_name(url)
}

/// The normalized mirror-local path recorded in the reference set.
pub open spec fn spec_referenced(url: Seq<char>, mirror_dir: Seq<char>) -> Seq<char> {
    normalize_spec(join_under_spec(mirror_dir, spec_rel_path(url)))
}

/// The mirror manifest never references the upstream host: every rewritten
/// URL begins with the mirror's public base.
pub proof fn lemma_rewritten_url_points_at_mirror(url: Seq<char>, mirror_url: Seq<char>)
    ensures
        spec_new_url(url, mirror_url).len() >= mirror_url.len(),
        spec_new_url(url, mirror_url).subrange(0, mirror_url.len() as int) == mirror_url,
{
    assert(spec_new_url(url, mirror_url).subrange(0, mirror_url.len() as int) =~= mirror_url);
}

/// Everything the driver needs to fetch-or-skip one artifact variant.
pub struct ArtifactJob {
    /// The upstream URL, exactly as the manifest declares it.
    pub url: String,
    /// The mirror-relative artifact path.
    pub rel_path: String,
    /// The upstream-declared digest for this variant.
    pub expected_hash: String,
    /// The URL the rewritten manifest will carry.
    pub new_url: String,
    /// The normalized mirror-local path, the reference-set member.
    pub referenced_path: String,
}

pub open spec fn spec_job_ok(
    job: ArtifactJob,
    url: Seq<char>,
    hash: Seq<char>,
    mirror_url: Seq<char>,
    mirror_dir: Seq<char>,
) -> bool {
    &&& job.url@ == url
    &&& job.expected_hash@ == hash
    &&& job.rel_path@ == spec_rel_path(url)
    &&& job.new_url@ == spec_new_url(url, mirror_url)
    &&& job.referenced_path@ == spec_referenced(url, mirror_dir)
}

/// Builds the job for one artifact variant from its URL and declared hash.
pub fn plan_variant(url: &str, hash: &str, mirror_url: &str, mirror_dir: &str) -> (r: Result<
    ArtifactJob,
    SyncError,
>)
    ensures
        r is Ok <==> variant_ok(url@),
        r matches Ok(job) ==> spec_job_ok(job, url@, hash@, mirror_url@, mirror_dir@),
        r matches Err(e) ==> e == SyncError::BadUrl,
{
    let p = match url_path(url) {
        Some(p) => p,
        None => {
            return Err(SyncError::BadUrl);
        },
    };
    let file_name = percent_decode_spaces(p.as_str());
    let n = file_name.as_str().unicode_len();
    if n == 0 || file_name.as_str().get_char(0) != '/' {
        return Err(SyncError::BadUrl);
    }
    let rel = file_name.as_str().substring_char(1, n).to_owned();
    let mut new_url = String::new();
    new_url.append(mirror_url);
    new_url.append(file_name.as_str());
    let joined = join_under(mirror_dir, rel.as_str());
    let referenced = normalize_path(joined.as_str());
    proof {
        assert(rel@ =~= spec_rel_path(url@));
        assert(new_url@ =~= spec_new_url(url@, mirror_url@));
    }
    Ok(
        ArtifactJob {
            url: url.to_owned(),
            rel_path: rel,
            expected_hash: hash.to_owned(),
            new_url,
            referenced_path: referenced,
        },
    )
}

/// The two variant jobs of one in-scope available entry.
pub struct JobPair {
    pub plain: ArtifactJob,
    pub xz: ArtifactJob,
}

/// The rewritten row and work for one entry.
pub struct EntryPlan {
    /// The row as the mirror manifest will carry it.
    pub new_row: TargetRow,
    /// The fetch-or-skip jobs, present exactly for in-scope available entries.
    pub jobs: Option<JobPair>,
    /// Whether this entry marks its target as seen.
    pub seen: bool,
}

/// An entry is well-formed when, if it is in scope and available, both
/// variants carry a URL and a hash and both URLs are usable.
pub open spec fn spec_entry_wf(row: TargetRow, allow: Set<Seq<char>>) -> bool {
    entry_in_scope(row.target@, allow) && row.entry.available ==> {
        &&& row.entry.url is Some
        &&& row.entry.hash is Some
        &&& row.entry.xz_url is Some
        &&& row.entry.xz_hash is Some
        &&& variant_ok(row.entry.url.unwrap()@)
        &&& variant_ok(row.entry.xz_url.unwrap()@)
    }
}

/// How a processed row must relate to the row it came from: an out-of-scope entry is
/// forced unavailable and otherwise untouched, its key kept; an unavailable
/// in-scope entry is untouched; an available in-scope entry keeps its hashes
/// and has both URLs rewritten to the mirror.
pub open spec fn spec_row_rewrite_ok(
    old_row: TargetRow,
    new_row: TargetRow,
    allow: Set<Seq<char>>,
    mirror_url: Seq<char>,
) -> bool {
    &&& new_row.target@ == old_row.target@
    &&& if !entry_in_scope(old_row.target@, allow) {
        &&& new_row.entry.available == false
        &&& new_row.entry.url.deep_view() == old_row.entry.url.deep_view()
        &&& new_row.entry.hash.deep_view() == old_row.entry.hash.deep_view()
        &&& new_row.entry.xz_url.deep_view() == old_row.entry.xz_url.deep_view()
        &&& new_row.entry.xz_hash.deep_view() == old_row.entry.xz_hash.deep_view()
    } else if !old_row.entry.available {
        &&& new_row.entry.available == false
        &&& new_row.entry.url.deep_view() == old_row.entry.url.deep_view()
        &&& new_row.entry.hash.deep_view() == old_row.entry.hash.deep_view()
        &&& new_row.entry.xz_url.deep_view() == old_row.entry.xz_url.deep_view()
        &&& new_row.entry.xz_hash.deep_view() == old_row.entry.xz_hash.deep_view()
    } else {
        &&& new_row.entry.available == true
        &&& new_row.entry.hash.deep_view() == old_row.entry.hash.deep_view()
        &&& new_row.entry.xz_hash.deep_view() == old_row.entry.xz_hash.deep_view()
        &&& new_row.entry.url is Some
        &&& new_row.entry.url.unwrap()@ == spec_new_url(old_row.entry.url.unwrap()@, mirror_url)
        &&& new_row.entry.xz_url is Some
        &&& new_row.entry.xz_url.unwrap()@ == spec_new_url(
            old_row.entry.xz_url.unwrap()@,
            mirror_url,
        )
    }
}

fn clone_opt_string(o: &Option<String>) -> (r: Option<String>)
    ensures
        r == *o,
{
    match o {
        Some(s) => Some(s.clone()),
        None => None,
    }
}

/// Processes one entry: forces out-of-scope targets unavailable (keeping the
/// key), leaves unavailable entries untouched, and for available in-scope
/// entries derives both variants' jobs and rewrites their URLs.
pub fn plan_entry(row: &TargetRow, allow: &StrSet, mirror_url: &str, mirror_dir: &str) -> (r:
    Result<EntryPlan, SyncError>)
    ensures
        r is Ok <==> spec_entry_wf(*row, allow@),
        r matches Ok(ep) ==> {
            &&& spec_row_rewrite_ok(*row, ep.new_row, allow@, mirror_url@)
            &&& ep.seen == (entry_in_scope(row.target@, allow@) && row.entry.available)
            &&& (ep.jobs is Some <==> ep.seen)
            &&& (ep.jobs matches Some(jp) ==> spec_job_ok(
                jp.plain,
                row.entry.url.unwrap()@,
                row.entry.hash.unwrap()@,
                mirror_url@,
                mirror_dir@,
            ) && spec_job_ok(
                jp.xz,
                row.entry.xz_url.unwrap()@,
                row.entry.xz_hash.unwrap()@,
                mirror_url@,
                mirror_dir@,
            ))
        },
        r matches Err(e) ==> entry_in_scope(row.target@, allow@) && row.entry.available && (e
            == SyncError::MissingUrl || e == SyncError::MissingHash || e == SyncError::BadUrl),
        r == Err::<EntryPlan, SyncError>(SyncError::MissingUrl) <==> (entry_in_scope(
            row.target@,
            allow@,
        ) && row.entry.available && (row.entry.url is None || row.entry.xz_url is None)),
        r == Err::<EntryPlan, SyncError>(SyncError::MissingHash) <==> (entry_in_scope(
            row.target@,
            allow@,
        ) && row.entry.available && row.entry.url is Some && row.entry.xz_url is Some && (
        row.entry.hash is None || row.entry.xz_hash is None)),
        r == Err::<EntryPlan, SyncError>(SyncError::BadUrl) <==> (entry_in_scope(
            row.target@,
            allow@,
        ) && row.entry.available && row.entry.url is Some && row.entry.xz_url is Some
            && row.entry.hash is Some && row.entry.xz_hash is Some && !(variant_ok(
            row.entry.url.unwrap()@,
        ) && variant_ok(row.entry.xz_url.unwrap()@))),
{
    let in_scope = target_in_scope(row.target.as_str(), allow);
    if !in_scope {
        let new_row = TargetRow {
            target: row.target.clone(),
            entry: TargetEntry {
                available: false,
                url: clone_opt_string(&row.entry.url),
                hash: clone_opt_string(&row.entry.hash),
                xz_url: clone_opt_string(&row.entry.xz_url),
                xz_hash: clone_opt_string(&row.entry.xz_hash),
            },
        };
        return Ok(EntryPlan { new_row, jobs: None, seen: false });
    }
    if !row.entry.available {
        let new_row = TargetRow {
            target: row.target.clone(),
            entry: TargetEntry {
                available: false,
                url: clone_opt_string(&row.entry.url),
                hash: clone_opt_string(&row.entry.hash),
                xz_url: clone_opt_string(&row.entry.xz_url),
                xz_hash: clone_opt_string(&row.entry.xz_hash),
            },
        };
        return Ok(EntryPlan { new_row, jobs: None, seen: false });
    }
    let url = match &row.entry.url {
        Some(u) => u,
        None => {
            return Err(SyncError::MissingUrl);
        },
    };
    let xz_url = match &row.entry.xz_url {
        Some(u) => u,
        None => {
            return Err(SyncError::MissingUrl);
        },
    };
    let hash = match &row.entry.hash {
        Some(h) => h,
        None => {
            return Err(SyncError::MissingHash);
        },
    };
    let xz_hash = match &row.entry.xz_hash {
        Some(h) => h,
        None => {
            return Err(SyncError::MissingHash);
        },
    };
    let plain = match plan_variant(url.as_str(), hash.as_str(), mirror_url, mirror_dir) {
        Ok(j) => j,
        Err(e) => {
            return Err(e);
        },
    };
    let xz = match plan_variant(xz_url.as_str(), xz_hash.as_str(), mirror_url, mirror_dir) {
        Ok(j) => j,
        Err(e) => {
            return Err(e);
        },
    };
    let new_row = TargetRow {
        target: row.target.clone(),
        entry: TargetEntry {
            available: true,
            url: Some(plain.new_url.clone()),
            hash: clone_opt_string(&row.entry.hash),
            xz_url: Some(xz.new_url.clone()),
            xz_hash: clone_opt_string(&row.entry.xz_hash),
        },
    };
    Ok(EntryPlan { new_row, jobs: Some(JobPair { plain, xz }), seen: true })
}

} // verus!
