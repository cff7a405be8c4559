use rustup_mirror::channel::{
    add_plan_references, channel_manifest_name, channel_plan, channel_sig_name,
    historical_manifest_name, historical_sig_name,
};
use rustup_mirror::manifest::{
    plan_variant, Manifest, Package, SyncError, TargetEntry, TargetRow,
};
use rustup_mirror::strset::StrSet;

fn entry(available: bool, url: &str, hash: &str, xz_url: &str, xz_hash: &str) -> TargetEntry {
    TargetEntry {
        available,
        url: Some(url.to_owned()),
        hash: Some(hash.to_owned()),
        xz_url: Some(xz_url.to_owned()),
        xz_hash: Some(xz_hash.to_owned()),
    }
}

fn allow(targets: &[&str]) -> StrSet {
    StrSet::from_items(targets.iter().map(|t| (*t).to_string()).collect())
}

fn sample_manifest(version: &str) -> Manifest {
    Manifest {
        version: version.to_owned(),
        date: "2024-01-15".to_owned(),
        pkgs: vec![Package {
            name: "rust".to_owned(),
            rows: vec![
                TargetRow {
                    target: "x86_64-unknown-linux-gnu".to_owned(),
                    entry: entry(
                        true,
                        "https://static.rust-lang.org/dist/2024-01-15/rust-x86_64-unknown-linux-gnu.tar.gz",
                        "aa11",
                        "https://static.rust-lang.org/dist/2024-01-15/rust-x86_64-unknown-linux-gnu.tar.xz",
                        "bb22",
                    ),
                },
                TargetRow {
                    target: "sparcv9-sun-solaris".to_owned(),
                    entry: entry(
                        true,
                        "https://static.rust-lang.org/dist/2024-01-15/rust-sparcv9-sun-solaris.tar.gz",
                        "cc33",
                        "https://static.rust-lang.org/dist/2024-01-15/rust-sparcv9-sun-solaris.tar.xz",
                        "dd44",
                    ),
                },
                TargetRow {
                    target: "aarch64-apple-darwin".to_owned(),
                    entry: TargetEntry {
                        available: false,
                        url: None,
                        hash: None,
                        xz_url: None,
                        xz_hash: None,
                    },
                },
            ],
        }],
    }
}

#[test]
fn variant_derives_paths_and_rewrites_url() {
    let job = plan_variant(
        "https://static.rust-lang.org/dist/2024-01-15/rust-nightly.tar.gz",
        "aa11",
        "http://127.0.0.1:8000",
        "./mirror",
    )
    .unwrap();
    assert_eq!(job.rel_path, "dist/2024-01-15/rust-nightly.tar.gz");
    assert_eq!(job.expected_hash, "aa11");
    assert_eq!(
        job.new_url,
        "http://127.0.0.1:8000/dist/2024-01-15/rust-nightly.tar.gz"
    );
    assert_eq!(job.referenced_path, "mirror/dist/2024-01-15/rust-nightly.tar.gz");
}

#[test]
fn variant_decodes_percent_twenty_only() {
    let job = plan_variant(
        "https://static.rust-lang.org/dist/some%20file%2Bx.tar.gz",
        "aa11",
        "http://m",
        "mirror",
    )
    .unwrap();
    assert_eq!(job.rel_path, "dist/some file%2Bx.tar.gz");
}

#[test]
fn variant_rejects_unparseable_url() {
    let r = plan_variant("not a url", "aa11", "http://m", "mirror");
    assert!(matches!(r, Err(SyncError::BadUrl)));
}

#[test]
fn plan_rewrites_in_scope_available_entry() {
    let m = sample_manifest("2");
    let plan = channel_plan(
        &m,
        &allow(&["x86_64-unknown-linux-gnu"]),
        "http://127.0.0.1:8000",
        "./mirror",
    )
    .unwrap();
    let row = &plan.rewritten.pkgs[0].rows[0];
    assert!(row.entry.available);
    assert_eq!(
        row.entry.url.as_deref(),
        Some("http://127.0.0.1:8000/dist/2024-01-15/rust-x86_64-unknown-linux-gnu.tar.gz")
    );
    assert_eq!(
        row.entry.xz_url.as_deref(),
        Some("http://127.0.0.1:8000/dist/2024-01-15/rust-x86_64-unknown-linux-gnu.tar.xz")
    );
    assert_eq!(row.entry.hash.as_deref(), Some("aa11"));
    assert_eq!(row.entry.xz_hash.as_deref(), Some("bb22"));
    assert_eq!(plan.jobs.len(), 1);
    assert_eq!(plan.jobs[0].pkg, 0);
    assert_eq!(plan.jobs[0].row, 0);
    assert_eq!(
        plan.jobs[0].plain.referenced_path,
        "mirror/dist/2024-01-15/rust-x86_64-unknown-linux-gnu.tar.gz"
    );
    assert!(plan.seen.contains("x86_64-unknown-linux-gnu"));
    assert!(!plan.seen.contains("sparcv9-sun-solaris"));
}

#[test]
fn plan_forces_out_of_scope_entry_unavailable_but_keeps_it() {
    let m = sample_manifest("2");
    let plan = channel_plan(
        &m,
        &allow(&["x86_64-unknown-linux-gnu"]),
        "http://127.0.0.1:8000",
        "./mirror",
    )
    .unwrap();
    let row = &plan.rewritten.pkgs[0].rows[1];
    assert_eq!(row.target, "sparcv9-sun-solaris");
    assert!(!row.entry.available);
    assert_eq!(
        row.entry.url.as_deref(),
        Some("https://static.rust-lang.org/dist/2024-01-15/rust-sparcv9-sun-solaris.tar.gz")
    );
    assert_eq!(row.entry.hash.as_deref(), Some("cc33"));
    assert_eq!(plan.rewritten.pkgs[0].rows.len(), 3);
}

#[test]
fn plan_leaves_unavailable_entry_untouched() {
    let m = sample_manifest("2");
    let plan = channel_plan(
        &m,
        &allow(&["x86_64-unknown-linux-gnu", "aarch64-apple-darwin"]),
        "http://127.0.0.1:8000",
        "./mirror",
    )
    .unwrap();
    let row = &plan.rewritten.pkgs[0].rows[2];
    assert_eq!(row.target, "aarch64-apple-darwin");
    assert!(!row.entry.available);
    assert_eq!(row.entry.url, None);
    assert_eq!(plan.jobs.len(), 1);
}

#[test]
fn plan_mirrors_wildcard_target_without_allow_listing() {
    let m = Manifest {
        version: "2".to_owned(),
        date: "2024-01-15".to_owned(),
        pkgs: vec![Package {
            name: "rust-src".to_owned(),
            rows: vec![TargetRow {
                target: "*".to_owned(),
                entry: entry(
                    true,
                    "https://static.rust-lang.org/dist/2024-01-15/rust-src.tar.gz",
                    "ee55",
                    "https://static.rust-lang.org/dist/2024-01-15/rust-src.tar.xz",
                    "ff66",
                ),
            }],
        }],
    };
    let plan = channel_plan(&m, &allow(&[]), "http://m", "mirror").unwrap();
    assert!(plan.rewritten.pkgs[0].rows[0].entry.available);
    assert_eq!(plan.jobs.len(), 1);
}

#[test]
fn plan_aborts_on_wrong_manifest_version_before_any_job() {
    let m = sample_manifest("1");
    let r = channel_plan(
        &m,
        &allow(&["x86_64-unknown-linux-gnu"]),
        "http://127.0.0.1:8000",
        "./mirror",
    );
    assert!(matches!(r, Err(SyncError::VersionMismatch)));
}

#[test]
fn plan_reports_missing_url_field() {
    let mut m = sample_manifest("2");
    m.pkgs[0].rows[0].entry.url = None;
    let r = channel_plan(
        &m,
        &allow(&["x86_64-unknown-linux-gnu"]),
        "http://127.0.0.1:8000",
        "./mirror",
    );
    assert!(matches!(r, Err(SyncError::MissingUrl)));
}

#[test]
fn plan_reports_missing_hash_field() {
    let mut m = sample_manifest("2");
    m.pkgs[0].rows[0].entry.xz_hash = None;
    let r = channel_plan(
        &m,
        &allow(&["x86_64-unknown-linux-gnu"]),
        "http://127.0.0.1:8000",
        "./mirror",
    );
    assert!(matches!(r, Err(SyncError::MissingHash)));
}

#[test]
fn plan_references_cover_both_variants() {
    let m = sample_manifest("2");
    let plan = channel_plan(
        &m,
        &allow(&["x86_64-unknown-linux-gnu"]),
        "http://127.0.0.1:8000",
        "./mirror",
    )
    .unwrap();
    let mut refs = StrSet::new();
    add_plan_references(&mut refs, &plan);
    assert!(refs.contains("mirror/dist/2024-01-15/rust-x86_64-unknown-linux-gnu.tar.gz"));
    assert!(refs.contains("mirror/dist/2024-01-15/rust-x86_64-unknown-linux-gnu.tar.xz"));
    assert!(!refs.contains("mirror/dist/2024-01-15/rust-sparcv9-sun-solaris.tar.gz"));
}

#[test]
fn channel_file_names() {
    assert_eq!(channel_manifest_name("stable"), "dist/channel-rust-stable.toml");
    assert_eq!(channel_sig_name("stable"), "dist/channel-rust-stable.toml.sha256");
    assert_eq!(
        historical_manifest_name("2024-01-15", "nightly"),
        "dist/2024-01-15/channel-rust-nightly.toml"
    );
    assert_eq!(
        historical_sig_name("2024-01-15", "nightly"),
        "dist/2024-01-15/channel-rust-nightly.toml.sha256"
    );
}
