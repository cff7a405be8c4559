//! The self-update side of the mirror: the auxiliary manifest's schema check
//! and the per-target binary paths, both the "latest" alias shape and the
//! version-pinned archive shape. Fetching these binaries is best-effort, so
//! this module only says which paths are fetched, in order, skipping the
//! wildcard target.

use vstd::prelude::*;
use crate::strutil::{contains_substr, has_substr, str_eq};

verus! {

/// The schema version the self-update manifest must declare.
pub open spec fn expected_schema_version() -> Seq<char> {
    "1"@
}

pub fn self_update_schema_ok(v: &str) -> (r: bool)
    ensures
        r == (v@ == expected_schema_version()),
{
    str_eq(v, "1")
}

/// The executable suffix a target needs: a fixed suffix for the Windows
/// platform family, nothing otherwise.
pub open spec fn spec_exe_suffix(target: Seq<char>) -> Seq<char> {
    if has_substr(target, "windows"@) {
        ".exe"@
    } else {
        Seq::empty()
    }
}

pub fn exe_suffix(target: &str) -> (r: &'static str)
    ensures
        r@ == spec_exe_suffix(target@),
{
    if contains_substr(target, "windows") {
        ".exe"
    } else {
        proof {
            reveal_strlit("");
            assert(""@ =~= Seq::<char>::empty());
        }
        ""
    }
}

/// The "latest" alias path of a target's binary.
pub open spec fn spec_dist_path(target: Seq<char>) -> Seq<char> {
    "rustup/dist/"@ + target + "/rustup-init"@ + spec_exe_suffix(target)
}

pub fn dist_path(target: &str) -> (r: String)
    ensures
        r@ == spec_dist_path(target@),
{
    let mut out = String::new();
    out.append("rustup/dist/");
    out.append(target);
    out.append("/rustup-init");
    out.append(exe_suffix(target));
    out
}

/// The version-pinned archive path of a target's binary.
pub open spec fn spec_archive_path(version: Seq<char>, target: Seq<char>) -> Seq<char> {
    "rustup/archive/"@ + version + "/"@ + target + "/rustup-init"@ + spec_exe_suffix(target)
}

pub fn archive_path(version: &str, target: &str) -> (r: String)
    ensures
        r@ == spec_archive_path(version@, target@),
{
    let mut out = String::new();
    out.append("rustup/archive/");
    out.append(version);
    out.append("/");
    out.append(target);
    out.append("/rustup-init");
    out.append(exe_suffix(target));
    out
}

/// The alias paths of the first `i` targets, in order, the wildcard skipped.
pub open spec fn spec_dist_paths(targets: Seq<Seq<char>>, i: int) -> Seq<Seq<char>>
    decreases i,
{
    if i <= 0 {
        Seq::empty()
    } else {
        let prev = spec_dist_paths(targets, i - 1);
        if targets[i - 1] == "*"@ {
            prev
        } else {
            prev.push(spec_dist_path(targets[i - 1]))
        }
    }
}

/// The archive paths of the first `i` targets, in order, the wildcard skipped.
pub open spec fn spec_archive_paths(version: Seq<char>, targets: Seq<Seq<char>>, i: int) -> Seq<
    Seq<char>,
>
    decreases i,
{
    if i <= 0 {
        Seq::empty()
    } else {
        let prev = spec_archive_paths(version, targets, i - 1);
        if targets[i - 1] == "*"@ {
            prev
        } else {
            prev.push(spec_archive_path(version, targets[i - 1]))
        }
    }
}

/// The alias paths to fetch, one per seen target except the wildcard.
pub fn dist_paths(targets: &Vec<String>) -> (r: Vec<String>)
    ensures
        r.deep_view() == spec_dist_paths(targets.deep_view(), targets.deep_view().len() as int),
{
    let mut out: Vec<String> = Vec::new();
    proof {
        assert(out.deep_view() =~= spec_dist_paths(targets.deep_view(), 0));
    }
    let mut i: usize = 0;
    while i < targets.len()
        invariant
            i <= targets@.len(),
            out.deep_view() == spec_dist_paths(targets.deep_view(), i as int),
        decreases targets@.len() - i,
    {
        let ghost pre = out.deep_view();
        if !str_eq(targets[i].as_str(), "*") {
            out.push(dist_path(targets[i].as_str()));
            proof {
                assert(out.deep_view() =~= pre.push(spec_dist_path(targets.deep_view()[i as int])));
            }
        }
        i += 1;
    }
    out
}

/// The archive paths to fetch, one per seen target except the wildcard.
pub fn archive_paths(version: &str, targets: &Vec<String>) -> (r: Vec<String>)
    ensures
        r.deep_view() == spec_archive_paths(
            version@,
            targets.deep_view(),
            targets.deep_view().len() as int,
        ),
{
    let mut out: Vec<String> = Vec::new();
    proof {
        assert(out.deep_view() =~= spec_archive_paths(version@, targets.deep_view(), 0));
    }
    let mut i: usize = 0;
    while i < targets.len()
        invariant
            i <= targets@.len(),
            out.deep_view() == spec_archive_paths(version@, targets.deep_view(), i as int),
        decreases targets@.len() - i,
    {
        let ghost pre = out.deep_view();
        if !str_eq(targets[i].as_str(), "*") {
            out.push(archive_path(version, targets[i].as_str()));
            proof {
                assert(out.deep_view() =~= pre.push(
                    spec_archive_path(version@, targets.deep_view()[i as int]),
                ));
            }
        }
        i += 1;
    }
    out
}

/// The fixed mirror path of the self-update manifest itself.
pub fn release_manifest_path() -> (r: String)
    ensures
        r@ == "rustup/release-stable.toml"@,
{
    let mut out = String::new();
    out.append("rustup/release-stable.toml");
    out
}

} // verus!
