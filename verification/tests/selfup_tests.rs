use rustup_mirror::selfup::{
    archive_path, archive_paths, dist_path, dist_paths, exe_suffix, release_manifest_path,
    self_update_schema_ok,
};

#[test]
fn schema_version_must_be_one() {
    assert!(self_update_schema_ok("1"));
    assert!(!self_update_schema_ok("2"));
    assert!(!self_update_schema_ok(""));
}

#[test]
fn windows_targets_get_the_exe_suffix() {
    assert_eq!(exe_suffix("x86_64-pc-windows-msvc"), ".exe");
    assert_eq!(exe_suffix("x86_64-unknown-linux-gnu"), "");
}

#[test]
fn binary_path_shapes() {
    assert_eq!(
        dist_path("x86_64-unknown-linux-gnu"),
        "rustup/dist/x86_64-unknown-linux-gnu/rustup-init"
    );
    assert_eq!(
        dist_path("i686-pc-windows-gnu"),
        "rustup/dist/i686-pc-windows-gnu/rustup-init.exe"
    );
    assert_eq!(
        archive_path("1.27.1", "x86_64-unknown-linux-gnu"),
        "rustup/archive/1.27.1/x86_64-unknown-linux-gnu/rustup-init"
    );
    assert_eq!(
        archive_path("1.27.1", "aarch64-pc-windows-msvc"),
        "rustup/archive/1.27.1/aarch64-pc-windows-msvc/rustup-init.exe"
    );
}

#[test]
fn path_lists_skip_the_wildcard() {
    let targets = vec![
        "x86_64-unknown-linux-gnu".to_string(),
        "*".to_string(),
        "x86_64-pc-windows-msvc".to_string(),
    ];
    assert_eq!(
        dist_paths(&targets),
        vec![
            "rustup/dist/x86_64-unknown-linux-gnu/rustup-init".to_string(),
            "rustup/dist/x86_64-pc-windows-msvc/rustup-init.exe".to_string(),
        ]
    );
    assert_eq!(
        archive_paths("1.27.1", &targets),
        vec![
            "rustup/archive/1.27.1/x86_64-unknown-linux-gnu/rustup-init".to_string(),
            "rustup/archive/1.27.1/x86_64-pc-windows-msvc/rustup-init.exe".to_string(),
        ]
    );
}

#[test]
fn release_manifest_lives_at_its_fixed_path() {
    assert_eq!(release_manifest_path(), "rustup/release-stable.toml");
}
