//! The download state machine: fresh and resumed transfers, cancellation,
//! checkpoints, and byte-for-byte resume identity.

use librisync::download::{append_chunk, ResumeCheckpoint, Transfer};
use librisync::error::CoreError;
use librisync::progress::DownloadState;

#[test]
fn test_fresh_transfer_takes_content_length() {
    let (mut transfer, plan) = Transfer::begin(
        "https://cdn.example/audio.aaxc".to_string(),
        "Audible/1.0".to_string(),
    );
    assert_eq!(plan.range_start, None);
    assert_eq!(plan.user_agent, "Audible/1.0");
    assert_eq!(transfer.state, DownloadState::Queued);

    transfer.on_response(200, Some(1_000_000)).unwrap();
    assert_eq!(transfer.state, DownloadState::Downloading);
    assert_eq!(transfer.total_bytes, 1_000_000);
}

#[test]
fn test_fresh_transfer_rejects_error_status() {
    let (mut transfer, _plan) = Transfer::begin(
        "https://cdn.example/audio.aaxc".to_string(),
        "Audible/1.0".to_string(),
    );
    let err = transfer.on_response(503, None).unwrap_err();
    assert!(matches!(err, CoreError::ApiRequestFailed(_)));
    assert_eq!(transfer.state, DownloadState::Failed);
}

#[test]
fn test_chunks_advance_position() {
    let (mut transfer, _plan) = Transfer::begin(
        "https://cdn.example/a".to_string(),
        "Audible/1.0".to_string(),
    );
    transfer.on_response(200, Some(10)).unwrap();
    transfer.on_chunk(4);
    transfer.on_chunk(6);
    assert_eq!(transfer.bytes_written, 10);
    let matched = transfer.finish();
    assert!(matched);
    assert_eq!(transfer.state, DownloadState::Completed);
}

#[test]
fn test_finish_reports_length_mismatch_without_failing() {
    let (mut transfer, _plan) = Transfer::begin(
        "https://cdn.example/a".to_string(),
        "Audible/1.0".to_string(),
    );
    transfer.on_response(200, Some(10)).unwrap();
    transfer.on_chunk(4);
    let matched = transfer.finish();
    assert!(!matched);
    assert_eq!(transfer.state, DownloadState::Completed);
}

#[test]
fn test_cancel_yields_checkpoint() {
    let (mut transfer, _plan) = Transfer::begin(
        "https://cdn.example/audio.aaxc".to_string(),
        "Audible/1.0".to_string(),
    );
    transfer.on_response(200, Some(1000)).unwrap();
    transfer.on_chunk(300);
    let checkpoint = transfer.cancel();
    assert_eq!(transfer.state, DownloadState::Paused);
    assert_eq!(checkpoint.url, "https://cdn.example/audio.aaxc");
    assert_eq!(checkpoint.bytes_downloaded, 300);
    assert_eq!(checkpoint.total_bytes, 1000);
    assert_eq!(checkpoint.user_agent, "Audible/1.0");
}

#[test]
fn test_resume_plan_asks_for_range() {
    let checkpoint = ResumeCheckpoint {
        url: "https://cdn.example/audio.aaxc".to_string(),
        bytes_downloaded: 300,
        total_bytes: 1000,
        user_agent: "Audible/1.0".to_string(),
    };
    let (transfer, plan) = Transfer::resume(checkpoint);
    assert_eq!(plan.range_start, Some(300));
    assert_eq!(plan.user_agent, "Audible/1.0");
    assert_eq!(transfer.bytes_written, 300);
    assert_eq!(transfer.total_bytes, 1000);
}

/// A resume answered with 200 instead of 206 fails with
/// `ResumeNotSupported`, and the partial file is left exactly as it was:
/// nothing truncated, nothing appended.
#[test]
fn test_resume_with_full_response_is_rejected() {
    let mut sink: Vec<u8> = vec![7, 7, 7]; // the partial file on disk
    let before = sink.clone();

    let checkpoint = ResumeCheckpoint {
        url: "https://cdn.example/audio.aaxc".to_string(),
        bytes_downloaded: 3,
        total_bytes: 10,
        user_agent: "Audible/1.0".to_string(),
    };
    let (mut transfer, _plan) = Transfer::resume(checkpoint);
    let err = transfer.on_response(200, Some(10)).unwrap_err();
    assert!(matches!(err, CoreError::ResumeNotSupported));
    assert_eq!(transfer.state, DownloadState::Failed);
    assert_eq!(transfer.bytes_written, 3);
    assert_eq!(sink, before);
}

/// Downloading everything in one pass and downloading 30%, pausing on a
/// checkpoint and resuming the rest produce byte-for-byte identical sinks.
#[test]
fn test_resume_rebuilds_identical_bytes() {
    let data: Vec<u8> = (0..200u16).map(|i| (i % 251) as u8).collect();

    // One uninterrupted pass, in uneven chunks.
    let mut full_sink: Vec<u8> = Vec::new();
    let (mut full, _plan) = Transfer::begin("u".to_string(), "ua".to_string());
    full.on_response(200, Some(data.len() as u64)).unwrap();
    for chunk in data.chunks(23) {
        append_chunk(&mut full_sink, chunk);
        full.on_chunk(chunk.len());
    }
    assert!(full.finish());

    // First 30%, then cancel and persist the checkpoint.
    let split = data.len() * 30 / 100;
    let mut split_sink: Vec<u8> = Vec::new();
    let (mut first, _plan) = Transfer::begin("u".to_string(), "ua".to_string());
    first.on_response(200, Some(data.len() as u64)).unwrap();
    for chunk in data[..split].chunks(17) {
        append_chunk(&mut split_sink, chunk);
        first.on_chunk(chunk.len());
    }
    let checkpoint = first.cancel();
    assert_eq!(checkpoint.bytes_downloaded as usize, split_sink.len());

    // Resume from the checkpoint and stream the rest.
    let (mut second, plan) = Transfer::resume(checkpoint);
    assert_eq!(plan.range_start, Some(split as u64));
    second.on_response(206, Some((data.len() - split) as u64)).unwrap();
    for chunk in data[split..].chunks(31) {
        append_chunk(&mut split_sink, chunk);
        second.on_chunk(chunk.len());
    }
    assert!(second.finish());

    assert_eq!(full_sink, data);
    assert_eq!(split_sink, full_sink);
}

#[test]
fn test_fail_keeps_position_for_restart() {
    let (mut transfer, _plan) = Transfer::begin("u".to_string(), "ua".to_string());
    transfer.on_response(200, Some(100)).unwrap();
    transfer.on_chunk(40);
    transfer.fail();
    assert_eq!(transfer.state, DownloadState::Failed);
    assert_eq!(transfer.bytes_written, 40);
}
