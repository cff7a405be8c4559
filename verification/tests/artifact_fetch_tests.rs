use rustup_mirror::artifact::{need_download, sidecar_to_write, verify_step, VerifyOutcome};
use rustup_mirror::fetch::{fetch_begin, fetch_step, FetchAction, FetchError, FetchEvent};
use rustup_mirror::MAX_RETRIES;

#[test]
fn mirrored_artifact_needs_no_download() {
    let sidecar = Some("aa11".to_owned());
    assert!(!need_download(&sidecar, &None, "aa11"));
}

#[test]
fn stale_sidecar_forces_download() {
    let sidecar = Some("old0".to_owned());
    assert!(need_download(&sidecar, &Some("aa11".to_owned()), "aa11"));
}

#[test]
fn missing_sidecar_falls_back_to_local_digest() {
    assert!(!need_download(&None, &Some("aa11".to_owned()), "aa11"));
    assert!(need_download(&None, &Some("old0".to_owned()), "aa11"));
}

#[test]
fn nothing_on_disk_forces_download() {
    assert!(need_download(&None, &None, "aa11"));
}

#[test]
fn verify_accepts_only_exact_match() {
    let good = Some("aa11".to_owned());
    assert_eq!(verify_step(1, MAX_RETRIES, &good, "aa11"), VerifyOutcome::Accept);
    let bad = Some("bb22".to_owned());
    assert_eq!(verify_step(1, MAX_RETRIES, &bad, "aa11"), VerifyOutcome::RetryFetch);
    assert_eq!(verify_step(1, MAX_RETRIES, &None, "aa11"), VerifyOutcome::RetryFetch);
}

#[test]
fn verify_aborts_after_exhausting_attempts() {
    let bad = Some("bb22".to_owned());
    assert_eq!(verify_step(2, MAX_RETRIES, &bad, "aa11"), VerifyOutcome::RetryFetch);
    assert_eq!(verify_step(MAX_RETRIES, MAX_RETRIES, &bad, "aa11"), VerifyOutcome::Abort);
}

#[test]
fn sidecar_written_after_download_or_backfill_only() {
    assert_eq!(sidecar_to_write(true, false, "aa11").as_deref(), Some("aa11"));
    assert_eq!(sidecar_to_write(false, true, "aa11").as_deref(), Some("aa11"));
    assert_eq!(sidecar_to_write(true, true, "aa11").as_deref(), Some("aa11"));
    assert_eq!(sidecar_to_write(false, false, "aa11"), None);
}

#[test]
fn fetch_retries_connection_failures_up_to_ceiling() {
    let (st, act) = fetch_begin(MAX_RETRIES);
    assert_eq!(act, FetchAction::Connect);
    let (st, act) = fetch_step(&st, &FetchEvent::ConnectFailed);
    assert_eq!(act, FetchAction::Connect);
    assert_eq!(st.attempts, 2);
    let (st, act) = fetch_step(&st, &FetchEvent::ConnectFailed);
    assert_eq!(act, FetchAction::Connect);
    assert_eq!(st.attempts, 3);
    let (_, act) = fetch_step(&st, &FetchEvent::ConnectFailed);
    assert_eq!(act, FetchAction::Fail(FetchError::Network));
}

#[test]
fn fetch_fails_at_once_without_content_length() {
    let (st, _) = fetch_begin(MAX_RETRIES);
    let (_, act) = fetch_step(&st, &FetchEvent::ConnectOk { content_length: None });
    assert_eq!(act, FetchAction::Fail(FetchError::LengthUnknown));
}

#[test]
fn fetch_streams_until_declared_length() {
    let (st, _) = fetch_begin(MAX_RETRIES);
    let (st, act) = fetch_step(&st, &FetchEvent::ConnectOk { content_length: Some(8192) });
    assert_eq!(act, FetchAction::ReadChunk);
    let (st, act) = fetch_step(&st, &FetchEvent::ChunkRead { len: 4096 });
    assert_eq!(act, FetchAction::ReadChunk);
    assert_eq!(st.received, 4096);
    let (st, act) = fetch_step(&st, &FetchEvent::ChunkRead { len: 4096 });
    assert_eq!(act, FetchAction::Finish);
    assert_eq!(st.received, 8192);
}

#[test]
fn fetch_rewinds_and_retries_on_read_failure() {
    let (st, _) = fetch_begin(MAX_RETRIES);
    let (st, _) = fetch_step(&st, &FetchEvent::ConnectOk { content_length: Some(100) });
    let (st, act) = fetch_step(&st, &FetchEvent::ChunkRead { len: 10 });
    assert_eq!(act, FetchAction::ReadChunk);
    let (st, act) = fetch_step(&st, &FetchEvent::ReadFailed);
    assert_eq!(act, FetchAction::Rewind);
    assert_eq!(st.attempts, 2);
    assert_eq!(st.received, 0);
    let (st, _) = fetch_step(&st, &FetchEvent::ConnectOk { content_length: Some(100) });
    let (st, act) = fetch_step(&st, &FetchEvent::ReadFailed);
    assert_eq!(act, FetchAction::Rewind);
    assert_eq!(st.attempts, 3);
    let (_, act) = fetch_step(&st, &FetchEvent::ConnectOk { content_length: Some(100) });
    assert_eq!(act, FetchAction::ReadChunk);
}

#[test]
fn fetch_never_stalls_on_zero_length_reads() {
    let (st, _) = fetch_begin(MAX_RETRIES);
    let (st, _) = fetch_step(&st, &FetchEvent::ConnectOk { content_length: Some(5) });
    let (st, act) = fetch_step(&st, &FetchEvent::ChunkRead { len: 0 });
    assert_eq!(act, FetchAction::Rewind);
    assert_eq!(st.attempts, 2);
    assert_eq!(st.received, 0);
    let (st, _) = fetch_step(&st, &FetchEvent::ConnectOk { content_length: Some(5) });
    let (st, act) = fetch_step(&st, &FetchEvent::ChunkRead { len: 0 });
    assert_eq!(act, FetchAction::Rewind);
    assert_eq!(st.attempts, 3);
    let (st, _) = fetch_step(&st, &FetchEvent::ConnectOk { content_length: Some(5) });
    let (_, act) = fetch_step(&st, &FetchEvent::ChunkRead { len: 0 });
    assert_eq!(act, FetchAction::Fail(FetchError::Network));
}

#[test]
fn fetch_never_finishes_past_the_declared_length() {
    let (st, _) = fetch_begin(MAX_RETRIES);
    let (st, _) = fetch_step(&st, &FetchEvent::ConnectOk { content_length: Some(10) });
    let (st, act) = fetch_step(&st, &FetchEvent::ChunkRead { len: 11 });
    assert_eq!(act, FetchAction::Rewind);
    assert_eq!(st.attempts, 2);
    assert_eq!(st.received, 0);
    let (st, _) = fetch_step(&st, &FetchEvent::ConnectOk { content_length: Some(10) });
    let (st, _) = fetch_step(&st, &FetchEvent::ChunkRead { len: 4 });
    let (st, act) = fetch_step(&st, &FetchEvent::ChunkRead { len: 7 });
    assert_eq!(act, FetchAction::Rewind);
    assert_eq!(st.attempts, 3);
    let (st, _) = fetch_step(&st, &FetchEvent::ConnectOk { content_length: Some(10) });
    let (st, act) = fetch_step(&st, &FetchEvent::ChunkRead { len: 10 });
    assert_eq!(act, FetchAction::Finish);
    assert_eq!(st.received, 10);
}

#[test]
fn fetch_empty_body_finishes_at_once() {
    let (st, _) = fetch_begin(MAX_RETRIES);
    let (_, act) = fetch_step(&st, &FetchEvent::ConnectOk { content_length: Some(0) });
    assert_eq!(act, FetchAction::Finish);
}
