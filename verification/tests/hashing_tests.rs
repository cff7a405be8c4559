use rustup_mirror::hashing::{manifest_signature_ok, sha256_hex, signature_digest, signature_line};

const EMPTY_DIGEST: &str = "e3b0c44298fc1c149afbf4c8996fb92427ae41e4649b934ca495991b7852b855";
const ABC_DIGEST: &str = "ba7816bf8f01cfea414140de5dae2223b00361a396177a9cb410ff61f20015ad";

#[test]
fn sha256_of_empty_input() {
    assert_eq!(sha256_hex(&[]), EMPTY_DIGEST);
}

#[test]
fn sha256_of_known_vector() {
    assert_eq!(sha256_hex(b"abc"), ABC_DIGEST);
}

#[test]
fn sha256_is_lowercase_hex_of_fixed_length() {
    let d = sha256_hex(b"some manifest body");
    assert_eq!(d.len(), 64);
    assert!(d.chars().all(|c| c.is_ascii_digit() || ('a'..='f').contains(&c)));
}

#[test]
fn signature_digest_takes_first_64_chars() {
    let sig = format!("{}  channel-rust-stable.toml", ABC_DIGEST);
    assert_eq!(signature_digest(&sig).as_deref(), Some(ABC_DIGEST));
}

#[test]
fn signature_digest_rejects_short_content() {
    assert_eq!(signature_digest("deadbeef"), None);
}

#[test]
fn manifest_signature_accepts_matching_digest() {
    let sig = format!("{}  channel-rust-stable.toml", ABC_DIGEST);
    assert!(manifest_signature_ok(b"abc", &sig));
}

#[test]
fn manifest_signature_rejects_wrong_digest() {
    let sig = format!("{}  channel-rust-stable.toml", EMPTY_DIGEST);
    assert!(!manifest_signature_ok(b"abc", &sig));
}

#[test]
fn manifest_signature_rejects_short_signature() {
    assert!(!manifest_signature_ok(b"abc", "too short"));
}

#[test]
fn produced_manifest_validates_against_its_own_signature() {
    let body = b"manifest-version = \"2\"";
    let sig = signature_line(&sha256_hex(body), "stable");
    assert!(manifest_signature_ok(body, &sig));
}

#[test]
fn signature_line_follows_upstream_convention() {
    assert_eq!(
        signature_line(ABC_DIGEST, "nightly"),
        format!("{}  channel-rust-nightly.toml", ABC_DIGEST)
    );
}
