use rustup_mirror::paths::{join_under, normalize_path, sidecar_name};

#[test]
fn normalize_keeps_plain_relative_path() {
    assert_eq!(normalize_path("mirror/dist/x.tar.gz"), "mirror/dist/x.tar.gz");
}

#[test]
fn normalize_drops_cur_dir_components() {
    assert_eq!(normalize_path("./mirror/./dist/x"), "mirror/dist/x");
}

#[test]
fn normalize_folds_parent_components() {
    assert_eq!(normalize_path("mirror/a/../dist/x"), "mirror/dist/x");
    assert_eq!(normalize_path("a/b/../../c"), "c");
}

#[test]
fn normalize_parent_at_front_removes_nothing() {
    assert_eq!(normalize_path(".."), "");
    assert_eq!(normalize_path("../a"), "a");
    assert_eq!(normalize_path("/.."), "/");
    assert_eq!(normalize_path("/../a"), "/a");
}

#[test]
fn normalize_collapses_separators() {
    assert_eq!(normalize_path("a//b///c/"), "a/b/c");
    assert_eq!(normalize_path("//a"), "/a");
}

#[test]
fn normalize_keeps_root() {
    assert_eq!(normalize_path("/"), "/");
    assert_eq!(normalize_path("/mirror/dist"), "/mirror/dist");
    assert_eq!(normalize_path(""), "");
}

#[test]
fn join_under_appends_relative() {
    assert_eq!(join_under("./mirror", "dist/x"), "./mirror/dist/x");
}

#[test]
fn join_under_absolute_replaces() {
    assert_eq!(join_under("./mirror", "/dist/x"), "/dist/x");
}

#[test]
fn sidecar_name_appends_suffix() {
    assert_eq!(sidecar_name("dist/x.tar.gz"), "dist/x.tar.gz.sha256");
}
