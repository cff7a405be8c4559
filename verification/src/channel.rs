//! Processing one whole channel manifest: version check, per-entry filtering
//! and rewriting, the flattened list of artifact jobs, the targets seen, and
//! the mirror-side file names for the manifest and its signature.

use vstd::prelude::*;
use crate::manifest::{
    entry_in_scope, expected_manifest_version, plan_entry, spec_entry_wf, spec_job_ok,
    spec_row_rewrite_ok, ArtifactJob, EntryPlan, JobPair, Manifest, Package, SyncError, TargetRow,
};
use crate::strset::StrSet;
use crate::strutil::str_eq;

verus! {

/// One entry's jobs, with the indices of the package and row they came from.
pub struct EntryJobs {
    pub pkg: usize,
    pub row: usize,
    pub plain: ArtifactJob,
    pub xz: ArtifactJob,
}

/// Everything one channel's processing decides before any artifact I/O.
pub struct ChannelPlan {
    /// The manifest as the mirror will serve it.
    pub rewritten: Manifest,
    /// The fetch-or-skip work, one element per in-scope available entry.
    pub jobs: Vec<EntryJobs>,
    /// Every target an in-scope available entry named.
    pub seen: StrSet,
}

/// All entries of the manifest are well-formed.
pub open spec fn spec_manifest_entries_wf(m: Manifest, allow: Set<Seq<char>>) -> bool {
    forall|i: int, j: int|
        0 <= i < m.pkgs@.len() && 0 <= j < m.pkgs@[i].rows@.len() ==> spec_entry_wf(
            #[trigger] m.pkgs@[i].rows@[j],
            allow,
        )
}

/// The targets of the in-scope available entries among the first `j` rows.
pub open spec fn spec_rows_seen(rows: Seq<TargetRow>, j: int, allow: Set<Seq<char>>) -> Set<
    Seq<char>,
>
    decreases j,
{
    if j <= 0 {
        Set::empty()
    } else {
        let prev = spec_rows_seen(rows, j - 1, allow);
        let row = rows[j - 1];
        if entry_in_scope(row.target@, allow) && row.entry.available {
            prev.insert(row.target@)
        } else {
            prev
        }
    }
}

/// The targets of the in-scope available entries among the first `i` packages.
pub open spec fn spec_pkgs_seen(pkgs: Seq<Package>, i: int, allow: Set<Seq<char>>) -> Set<
    Seq<char>,
>
    decreases i,
{
    if i <= 0 {
        Set::empty()
    } else {
        spec_pkgs_seen(pkgs, i - 1, allow).union(
            spec_rows_seen(pkgs[i - 1].rows@, pkgs[i - 1].rows@.len() as int, allow),
        )
    }
}

/// A jobs element is sound: it points into the manifest at an in-scope
/// available entry and carries exactly that entry's two variant jobs.
pub open spec fn spec_entry_jobs_ok(
    ej: EntryJobs,
    m: Manifest,
    allow: Set<Seq<char>>,
    mirror_url: Seq<char>,
    mirror_dir: Seq<char>,
) -> bool {
    &&& ej.pkg < m.pkgs@.len()
    &&& ej.row < m.pkgs@[ej.pkg as int].rows@.len()
    &&& {
        let row = m.pkgs@[ej.pkg as int].rows@[ej.row as int];
        &&& entry_in_scope(row.target@, allow)
        &&& row.entry.available
        &&& row.entry.url is Some
        &&& row.entry.hash is Some
        &&& row.entry.xz_url is Some
        &&& row.entry.xz_hash is Some
        &&& spec_job_ok(
            ej.plain,
            row.entry.url.unwrap()@,
            row.entry.hash.unwrap()@,
            mirror_url,
            mirror_dir,
        )
        &&& spec_job_ok(
            ej.xz,
            row.entry.xz_url.unwrap()@,
            row.entry.xz_hash.unwrap()@,
            mirror_url,
            mirror_dir,
        )
    }
}

/// Processes one channel manifest. Fails with the version error exactly when
/// the manifest does not declare the expected version (before looking at any
/// entry), succeeds exactly when the version is right and every entry is
/// well-formed, and then yields the rewritten manifest, the complete job
/// list, and the targets seen.
pub fn channel_plan(m: &Manifest, allow: &StrSet, mirror_url: &str, mirror_dir: &str) -> (r:
    Result<ChannelPlan, SyncError>)
    ensures
        r is Ok <==> (m.version@ == expected_manifest_version() && spec_manifest_entries_wf(
            *m,
            allow@,
        )),
        r == Err::<ChannelPlan, SyncError>(SyncError::VersionMismatch) <==> m.version@
            != expected_manifest_version(),
        r matches Ok(plan) ==> {
            &&& plan.rewritten.version@ == m.version@
            &&& plan.rewritten.date@ == m.date@
            &&& plan.rewritten.pkgs@.len() == m.pkgs@.len()
            &&& forall|i: int|
                0 <= i < m.pkgs@.len() ==> #[trigger] plan.rewritten.pkgs@[i].name@
                    == m.pkgs@[i].name@ && plan.rewritten.pkgs@[i].rows@.len()
                    == m.pkgs@[i].rows@.len()
            &&& forall|i: int, j: int|
                0 <= i < m.pkgs@.len() && 0 <= j < m.pkgs@[i].rows@.len()
                    ==> spec_row_rewrite_ok(
                    #[trigger] m.pkgs@[i].rows@[j],
                    #[trigger] plan.rewritten.pkgs@[i].rows@[j],
                    allow@,
                    mirror_url@,
                )
            &&& forall|k: int|
                0 <= k < plan.jobs@.len() ==> spec_entry_jobs_ok(
                    #[trigger] plan.jobs@[k],
                    *m,
                    allow@,
                    mirror_url@,
                    mirror_dir@,
                )
            &&& forall|i: int, j: int|
                0 <= i < m.pkgs@.len() && 0 <= j < m.pkgs@[i].rows@.len() && entry_in_scope(
                    (#[trigger] m.pkgs@[i].rows@[j]).target@,
                    allow@,
                ) && m.pkgs@[i].rows@[j].entry.available ==> exists|k: int|
                    0 <= k < plan.jobs@.len() && (#[trigger] plan.jobs@[k]).pkg == i
                        && plan.jobs@[k].row == j
            &&& plan.seen@ == spec_pkgs_seen(m.pkgs@, m.pkgs@.len() as int, allow@)
        },
{
    if !str_eq(m.version.as_str(), "2") {
        return Err(SyncError::VersionMismatch);
    }
    let mut new_pkgs: Vec<Package> = Vec::new();
    let mut jobs: Vec<EntryJobs> = Vec::new();
    let mut seen = StrSet::new();
    let mut i: usize = 0;
    proof {
        assert(seen@ =~= spec_pkgs_seen(m.pkgs@, 0, allow@));
    }
    while i < m.pkgs.len()
        invariant
            i <= m.pkgs@.len(),
            m.version@ == expected_manifest_version(),
            new_pkgs@.len() == i,
            forall|a: int|
                0 <= a < i ==> #[trigger] new_pkgs@[a].name@ == m.pkgs@[a].name@
                    && new_pkgs@[a].rows@.len() == m.pkgs@[a].rows@.len(),
            forall|a: int, b: int|
                0 <= a < i && 0 <= b < m.pkgs@[a].rows@.len() ==> spec_row_rewrite_ok(
                    #[trigger] m.pkgs@[a].rows@[b],
                    #[trigger] new_pkgs@[a].rows@[b],
                    allow@,
                    mirror_url@,
                ),
            forall|a: int, b: int|
                0 <= a < i && 0 <= b < m.pkgs@[a].rows@.len() ==> spec_entry_wf(
                    #[trigger] m.pkgs@[a].rows@[b],
                    allow@,
                ),
            forall|k: int|
                0 <= k < jobs@.len() ==> spec_entry_jobs_ok(
                    #[trigger] jobs@[k],
                    *m,
                    allow@,
                    mirror_url@,
                    mirror_dir@,
                ),
            forall|a: int, b: int|
                0 <= a < i && 0 <= b < m.pkgs@[a].rows@.len() && entry_in_scope(
                    (#[trigger] m.pkgs@[a].rows@[b]).target@,
                    allow@,
                ) && m.pkgs@[a].rows@[b].entry.available ==> exists|k: int|
                    0 <= k < jobs@.len() && (#[trigger] jobs@[k]).pkg == a && jobs@[k].row == b,
            seen@ == spec_pkgs_seen(m.pkgs@, i as int, allow@),
        decreases m.pkgs@.len() - i,
    {
        let pkg = &m.pkgs[i];
        let mut new_rows: Vec<TargetRow> = Vec::new();
        let ghost seen_at_pkg_start = seen@;
        let mut j: usize = 0;
        proof {
            assert(seen@ =~= seen_at_pkg_start.union(spec_rows_seen(pkg.rows@, 0, allow@)));
        }
        while j < pkg.rows.len()
            invariant
                j <= pkg.rows@.len(),
                m.version@ == expected_manifest_version(),
                new_rows@.len() == j,
                *pkg == m.pkgs@[i as int],
                0 <= i < m.pkgs@.len(),
                forall|b: int|
                    0 <= b < j ==> spec_row_rewrite_ok(
                        #[trigger] pkg.rows@[b],
                        #[trigger] new_rows@[b],
                        allow@,
                        mirror_url@,
                    ),
                forall|b: int| 0 <= b < j ==> spec_entry_wf(#[trigger] pkg.rows@[b], allow@),
                forall|k: int|
                    0 <= k < jobs@.len() ==> spec_entry_jobs_ok(
                        #[trigger] jobs@[k],
                        *m,
                        allow@,
                        mirror_url@,
                        mirror_dir@,
                    ),
                forall|a: int, b: int|
                    0 <= a < i && 0 <= b < m.pkgs@[a].rows@.len() && entry_in_scope(
                        (#[trigger] m.pkgs@[a].rows@[b]).target@,
                        allow@,
                    ) && m.pkgs@[a].rows@[b].entry.available ==> exists|k: int|
                        0 <= k < jobs@.len() && (#[trigger] jobs@[k]).pkg == a && jobs@[k].row == b,
                forall|b: int|
                    0 <= b < j && entry_in_scope((#[trigger] pkg.rows@[b]).target@, allow@)
                        && pkg.rows@[b].entry.available ==> exists|k: int|
                        0 <= k < jobs@.len() && (#[trigger] jobs@[k]).pkg == i as int
                            && jobs@[k].row == b,
                seen@ == seen_at_pkg_start.union(spec_rows_seen(pkg.rows@, j as int, allow@)),
            decreases pkg.rows@.len() - j,
        {
            let row = &pkg.rows[j];
            proof {
                assert(*row == m.pkgs@[i as int].rows@[j as int]);
            }
            let ep: EntryPlan = match plan_entry(row, allow, mirror_url, mirror_dir) {
                Ok(ep) => ep,
                Err(e) => {
                    proof {
                        assert(!spec_entry_wf(m.pkgs@[i as int].rows@[j as int], allow@));
                        assert(!spec_manifest_entries_wf(*m, allow@));
                    }
                    return Err(e);
                },
            };
            new_rows.push(ep.new_row);
            match ep.jobs {
                Some(jp) => {
                    let JobPair { plain, xz } = jp;
                    let ghost pre_jobs = jobs@;
                    jobs.push(EntryJobs { pkg: i, row: j, plain, xz });
                    seen.insert(row.target.clone());
                    proof {
                        assert(seen@ =~= seen_at_pkg_start.union(
                            spec_rows_seen(pkg.rows@, j + 1, allow@),
                        ));
                        assert(jobs@.len() == pre_jobs.len() + 1);
                        let last = pre_jobs.len() as int;
                        assert(jobs@[last].pkg == i && jobs@[last].row == j);
                        assert(spec_entry_jobs_ok(
                            jobs@[last],
                            *m,
                            allow@,
                            mirror_url@,
                            mirror_dir@,
                        ));
                        assert forall|k: int|
                            0 <= k < jobs@.len() implies spec_entry_jobs_ok(
                            #[trigger] jobs@[k],
                            *m,
                            allow@,
                            mirror_url@,
                            mirror_dir@,
                        ) by {
                            if k < last {
                                assert(jobs@[k] == pre_jobs[k]);
                                assert(spec_entry_jobs_ok(
                                    pre_jobs[k],
                                    *m,
                                    allow@,
                                    mirror_url@,
                                    mirror_dir@,
                                ));
                            }
                        };
                        assert forall|b: int|
                            0 <= b < j + 1 && entry_in_scope(
                                (#[trigger] pkg.rows@[b]).target@,
                                allow@,
                            ) && pkg.rows@[b].entry.available implies exists|k: int|
                            0 <= k < jobs@.len() && (#[trigger] jobs@[k]).pkg == i as int
                                && jobs@[k].row == b by {
                            if b == j {
                                assert(jobs@[last].pkg == i as int && jobs@[last].row == b);
                            } else {
                                let k = choose|k: int|
                                    0 <= k < pre_jobs.len() && (#[trigger] pre_jobs[k]).pkg
                                        == i as int && pre_jobs[k].row == b;
                                assert(jobs@[k] == pre_jobs[k]);
                                assert(jobs@[k].pkg == i as int && jobs@[k].row == b);
                            }
                        };
                        assert forall|a: int, b: int|
                            0 <= a < i && 0 <= b < m.pkgs@[a].rows@.len() && entry_in_scope(
                                (#[trigger] m.pkgs@[a].rows@[b]).target@,
                                allow@,
                            ) && m.pkgs@[a].rows@[b].entry.available implies exists|k: int|
                            0 <= k < jobs@.len() && (#[trigger] jobs@[k]).pkg == a && jobs@[k].row
                                == b by {
                            let k = choose|k: int|
                                0 <= k < pre_jobs.len() && (#[trigger] pre_jobs[k]).pkg == a
                                    && pre_jobs[k].row == b;
                            assert(jobs@[k] == pre_jobs[k]);
                            assert(jobs@[k].pkg == a && jobs@[k].row == b);
                        };
                    }
                },
                None => {
                    proof {
                        assert(seen@ =~= seen_at_pkg_start.union(
                            spec_rows_seen(pkg.rows@, j + 1, allow@),
                        ));
                    }
                },
            }
            j += 1;
        }
        new_pkgs.push(Package { name: pkg.name.clone(), rows: new_rows });
        proof {
            assert(spec_rows_seen(pkg.rows@, pkg.rows@.len() as int, allow@) == spec_rows_seen(
                m.pkgs@[i as int].rows@,
                m.pkgs@[i as int].rows@.len() as int,
                allow@,
            ));
            assert(seen@ =~= spec_pkgs_seen(m.pkgs@, i + 1, allow@));
        }
        i += 1;
    }
    let ghost final_jobs = jobs@;
    let plan = ChannelPlan {
        rewritten: Manifest { version: m.version.clone(), date: m.date.clone(), pkgs: new_pkgs },
        jobs,
        seen,
    };
    proof {
        assert(spec_manifest_entries_wf(*m, allow@));
        assert(plan.rewritten.version@ == m.version@);
        assert(plan.rewritten.date@ == m.date@);
        assert(plan.rewritten.pkgs@.len() == m.pkgs@.len());
        assert(forall|i2: int|
            0 <= i2 < m.pkgs@.len() ==> #[trigger] plan.rewritten.pkgs@[i2].name@
                == m.pkgs@[i2].name@ && plan.rewritten.pkgs@[i2].rows@.len()
                == m.pkgs@[i2].rows@.len());
        assert(forall|i2: int, j2: int|
            0 <= i2 < m.pkgs@.len() && 0 <= j2 < m.pkgs@[i2].rows@.len() ==> spec_row_rewrite_ok(
                #[trigger] m.pkgs@[i2].rows@[j2],
                #[trigger] plan.rewritten.pkgs@[i2].rows@[j2],
                allow@,
                mirror_url@,
            ));
        assert(forall|k: int|
            0 <= k < plan.jobs@.len() ==> spec_entry_jobs_ok(
                #[trigger] plan.jobs@[k],
                *m,
                allow@,
                mirror_url@,
                mirror_dir@,
            ));
        assert(plan.jobs@ == final_jobs);
        assert forall|i2: int, j2: int|
            0 <= i2 < m.pkgs@.len() && 0 <= j2 < m.pkgs@[i2].rows@.len() && entry_in_scope(
                (#[trigger] m.pkgs@[i2].rows@[j2]).target@,
                allow@,
            ) && m.pkgs@[i2].rows@[j2].entry.available implies exists|k: int|
            0 <= k < plan.jobs@.len() && (#[trigger] plan.jobs@[k]).pkg == i2 && plan.jobs@[k].row
                == j2 by {
            let k = choose|k: int|
                0 <= k < final_jobs.len() && (#[trigger] final_jobs[k]).pkg == i2
                    && final_jobs[k].row == j2;
            assert(plan.jobs@[k].pkg == i2 && plan.jobs@[k].row == j2);
        };
        assert(plan.seen@ == spec_pkgs_seen(m.pkgs@, m.pkgs@.len() as int, allow@));
    }
    Ok(plan)
}

/// Membership law for the seen set: a target was seen exactly when some
/// in-scope available entry names it.
pub proof fn lemma_seen_membership(pkgs: Seq<Package>, i: int, allow: Set<Seq<char>>, t: Seq<char>)
    requires
        0 <= i <= pkgs.len(),
    ensures
        spec_pkgs_seen(pkgs, i, allow).contains(t) <==> exists|a: int, b: int|
            0 <= a < i && 0 <= b < pkgs[a].rows@.len() && (#[trigger] pkgs[a].rows@[b]).target@
                == t && entry_in_scope(pkgs[a].rows@[b].target@, allow)
                && pkgs[a].rows@[b].entry.available,
    decreases i,
{
    if i > 0 {
        lemma_seen_membership(pkgs, i - 1, allow, t);
        lemma_rows_seen_membership(pkgs[i - 1].rows@, pkgs[i - 1].rows@.len() as int, allow, t);
        if spec_pkgs_seen(pkgs, i, allow).contains(t) {
            if spec_pkgs_seen(pkgs, i - 1, allow).contains(t) {
                let (a, b) = choose|a: int, b: int|
                    0 <= a < i - 1 && 0 <= b < pkgs[a].rows@.len() && (
                    #[trigger] pkgs[a].rows@[b]).target@ == t && entry_in_scope(
                        pkgs[a].rows@[b].target@,
                        allow,
                    ) && pkgs[a].rows@[b].entry.available;
                assert(pkgs[a].rows@[b].target@ == t && entry_in_scope(
                    pkgs[a].rows@[b].target@,
                    allow,
                ) && pkgs[a].rows@[b].entry.available);
            } else {
                let b = choose|b: int|
                    0 <= b < pkgs[i - 1].rows@.len() && (#[trigger] pkgs[i - 1].rows@[b]).target@
                        == t && entry_in_scope(pkgs[i - 1].rows@[b].target@, allow) && pkgs[i
                        - 1].rows@[b].entry.available;
                assert(pkgs[i - 1].rows@[b].target@ == t && entry_in_scope(
                    pkgs[i - 1].rows@[b].target@,
                    allow,
                ) && pkgs[i - 1].rows@[b].entry.available);
            }
        }
        if exists|a: int, b: int|
            0 <= a < i && 0 <= b < pkgs[a].rows@.len() && (#[trigger] pkgs[a].rows@[b]).target@
                == t && entry_in_scope(pkgs[a].rows@[b].target@, allow)
                && pkgs[a].rows@[b].entry.available {
            let (a, b) = choose|a: int, b: int|
                0 <= a < i && 0 <= b < pkgs[a].rows@.len() && (#[trigger] pkgs[a].rows@[b]).target@
                    == t && entry_in_scope(pkgs[a].rows@[b].target@, allow)
                    && pkgs[a].rows@[b].entry.available;
            if a < i - 1 {
                assert(spec_pkgs_seen(pkgs, i - 1, allow).contains(t));
            } else {
                assert(spec_rows_seen(pkgs[i - 1].rows@, pkgs[i - 1].rows@.len() as int, allow)
                    .contains(t));
            }
        }
    }
}

/// Membership law for one package's rows.
pub proof fn lemma_rows_seen_membership(
    rows: Seq<TargetRow>,
    j: int,
    allow: Set<Seq<char>>,
    t: Seq<char>,
)
    requires
        0 <= j <= rows.len(),
    ensures
        spec_rows_seen(rows, j, allow).contains(t) <==> exists|b: int|
            0 <= b < j && (#[trigger] rows[b]).target@ == t && entry_in_scope(
                rows[b].target@,
                allow,
            ) && rows[b].entry.available,
    decreases j,
{
    if j > 0 {
        lemma_rows_seen_membership(rows, j - 1, allow, t);
        if spec_rows_seen(rows, j, allow).contains(t) {
            if spec_rows_seen(rows, j - 1, allow).contains(t) {
                let b = choose|b: int|
                    0 <= b < j - 1 && (#[trigger] rows[b]).target@ == t && entry_in_scope(
                        rows[b].target@,
                        allow,
                    ) && rows[b].entry.available;
                assert(rows[b].target@ == t && entry_in_scope(rows[b].target@, allow)
                    && rows[b].entry.available);
            } else {
                assert(rows[j - 1].target@ == t && entry_in_scope(rows[j - 1].target@, allow)
                    && rows[j - 1].entry.available);
            }
        }
        if exists|b: int|
            0 <= b < j && (#[trigger] rows[b]).target@ == t && entry_in_scope(
                rows[b].target@,
                allow,
            ) && rows[b].entry.available {
            let b = choose|b: int|
                0 <= b < j && (#[trigger] rows[b]).target@ == t && entry_in_scope(
                    rows[b].target@,
                    allow,
                ) && rows[b].entry.available;
            if b < j - 1 {
                assert(spec_rows_seen(rows, j - 1, allow).contains(t));
            }
        }
    }
}

/// The mirror-local paths the first `k` jobs of a plan reference.
pub open spec fn spec_plan_refs(jobs: Seq<EntryJobs>, k: int) -> Set<Seq<char>>
    decreases k,
{
    if k <= 0 {
        Set::empty()
    } else {
        spec_plan_refs(jobs, k - 1).insert(jobs[k - 1].plain.referenced_path@).insert(
            jobs[k - 1].xz.referenced_path@,
        )
    }
}

/// Records every artifact path a plan references into the reference set.
pub fn add_plan_references(refs: &mut StrSet, plan: &ChannelPlan)
    ensures
        final(refs)@ == old(refs)@.union(
            spec_plan_refs(plan.jobs@, plan.jobs@.len() as int),
        ),
{
    let mut k: usize = 0;
    proof {
        assert(refs@ =~= old(refs)@.union(spec_plan_refs(plan.jobs@, 0)));
    }
    while k < plan.jobs.len()
        invariant
            k <= plan.jobs@.len(),
            refs@ == old(refs)@.union(spec_plan_refs(plan.jobs@, k as int)),
        decreases plan.jobs@.len() - k,
    {
        refs.insert(plan.jobs[k].plain.referenced_path.clone());
        refs.insert(plan.jobs[k].xz.referenced_path.clone());
        proof {
            assert(refs@ =~= old(refs)@.union(spec_plan_refs(plan.jobs@, k + 1)));
        }
        k += 1;
    }
}

/// Membership law for the reference set: a path is recorded exactly when some
/// job's plain or compressed variant references it.
pub proof fn lemma_plan_refs_membership(jobs: Seq<EntryJobs>, k: int, p: Seq<char>)
    requires
        0 <= k <= jobs.len(),
    ensures
        spec_plan_refs(jobs, k).contains(p) <==> exists|x: int|
            0 <= x < k && ((#[trigger] jobs[x]).plain.referenced_path@ == p
                || jobs[x].xz.referenced_path@ == p),
    decreases k,
{
    if k > 0 {
        lemma_plan_refs_membership(jobs, k - 1, p);
        if spec_plan_refs(jobs, k).contains(p) {
            if spec_plan_refs(jobs, k - 1).contains(p) {
                let x = choose|x: int|
                    0 <= x < k - 1 && ((#[trigger] jobs[x]).plain.referenced_path@ == p
                        || jobs[x].xz.referenced_path@ == p);
                assert(jobs[x].plain.referenced_path@ == p || jobs[x].xz.referenced_path@ == p);
            } else {
                assert(jobs[k - 1].plain.referenced_path@ == p || jobs[k - 1].xz.referenced_path@
                    == p);
            }
        }
        if exists|x: int|
            0 <= x < k && ((#[trigger] jobs[x]).plain.referenced_path@ == p
                || jobs[x].xz.referenced_path@ == p) {
            let x = choose|x: int|
                0 <= x < k && ((#[trigger] jobs[x]).plain.referenced_path@ == p
                    || jobs[x].xz.referenced_path@ == p);
            if x < k - 1 {
                assert(spec_plan_refs(jobs, k - 1).contains(p));
            }
        }
    }
}

/// Idempotence law at channel scope: when every artifact of a plan already
/// carries a sidecar holding its declared hash, no entry of the plan needs a
/// download, whatever digest the artifact files themselves would yield.
pub proof fn lemma_fully_mirrored_channel_no_downloads(
    jobs: Seq<EntryJobs>,
    sidecars: Map<Seq<char>, Seq<char>>,
)
    requires
        forall|k: int|
            0 <= k < jobs.len() ==> sidecars.contains_key((#[trigger] jobs[k]).plain.rel_path@)
                && sidecars[jobs[k].plain.rel_path@] == jobs[k].plain.expected_hash@
                && sidecars.contains_key(jobs[k].xz.rel_path@) && sidecars[jobs[k].xz.rel_path@]
                == jobs[k].xz.expected_hash@,
    ensures
        forall|k: int, local: Option<Seq<char>>|
            #![trigger crate::artifact::spec_need_download(
                Some(sidecars[jobs[k].plain.rel_path@]),
                local,
                jobs[k].plain.expected_hash@,
            )]
            0 <= k < jobs.len() ==> !crate::artifact::spec_need_download(
                Some(sidecars[jobs[k].plain.rel_path@]),
                local,
                jobs[k].plain.expected_hash@,
            ) && !crate::artifact::spec_need_download(
                Some(sidecars[jobs[k].xz.rel_path@]),
                local,
                jobs[k].xz.expected_hash@,
            ),
{
}

/// The mirror-relative name of a channel's manifest.
pub open spec fn channel_manifest_name_spec(channel: Seq<char>) -> Seq<char> {
    "dist/channel-rust-"@ + channel + ".toml"@
}

pub fn channel_manifest_name(channel: &str) -> (r: String)
    ensures
        r@ == channel_manifest_name_spec(channel@),
{
    let mut out = String::new();
    out.append("dist/channel-rust-");
    out.append(channel);
    out.append(".toml");
    out
}

/// The mirror-relative name of a channel's signature file.
pub fn channel_sig_name(channel: &str) -> (r: String)
    ensures
        r@ == channel_manifest_name_spec(channel@) + ".sha256"@,
{
    let mut out = channel_manifest_name(channel);
    out.append(".sha256");
    out
}

/// The date-partitioned historical copy's name: history is channel-scoped by
/// the manifest's own date.
pub open spec fn historical_manifest_name_spec(date: Seq<char>, channel: Seq<char>) -> Seq<char> {
    "dist/"@ + date + "/channel-rust-"@ + channel + ".toml"@
}

pub fn historical_manifest_name(date: &str, channel: &str) -> (r: String)
    ensures
        r@ == historical_manifest_name_spec(date@, channel@),
{
    let mut out = String::new();
    out.append("dist/");
    out.append(date);
    out.append("/channel-rust-");
    out.append(channel);
    out.append(".toml");
    out
}

pub fn historical_sig_name(date: &str, channel: &str) -> (r: String)
    ensures
        r@ == historical_manifest_name_spec(date@, channel@) + ".sha256"@,
{
    let mut out = historical_manifest_name(date, channel);
    out.append(".sha256");
    out
}

} // verus!
