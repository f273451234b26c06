//! Progress snapshots, speed estimation and throttling. Time arrives as
//! explicit millisecond readings, so every case here is deterministic.

use librisync::progress::{
    AverageSpeed, DownloadProgress, DownloadState, ProgressTracker,
};

#[test]
fn test_download_progress_new() {
    let progress = DownloadProgress::new("B001".to_string(), "Test Book".to_string(), 500, 1000);
    assert_eq!(progress.asin, "B001");
    assert_eq!(progress.title, "Test Book");
    assert_eq!(progress.bytes_received, 500);
    assert_eq!(progress.total_bytes, 1000);
    assert_eq!(progress.progress_percentage, 50);
}

#[test]
fn test_download_progress_with_estimates() {
    let progress = DownloadProgress::new("B001".to_string(), "Test Book".to_string(), 500, 1000)
        .with_estimates(100); // 100 bytes/sec

    assert_eq!(progress.bytes_per_second, 100);
    // 500 bytes / 100 bps = 5 secs
    assert_eq!(progress.time_remaining_secs, Some(5));
}

#[test]
fn test_download_progress_complete() {
    let progress = DownloadProgress::new("B001".to_string(), "Test Book".to_string(), 1000, 1000);
    assert!(progress.is_complete());
    assert_eq!(progress.progress_percentage, 100);
}

#[test]
fn test_average_speed() {
    let mut speed = AverageSpeed::new();

    speed.add_position(0, 0);
    speed.add_position(1000, 100);

    let avg = speed.average();
    // 1000 bytes in 100 ms is 10000 bytes per second.
    assert_eq!(avg, 10000);
}

#[test]
fn test_average_speed_needs_two_samples() {
    let mut speed = AverageSpeed::new();
    assert_eq!(speed.average(), 0);
    speed.add_position(4096, 50);
    assert_eq!(speed.average(), 0);
}

#[test]
fn test_average_speed_window_slides() {
    let mut speed = AverageSpeed::new();
    // Thirteen samples; only the last ten stay in the window, so the
    // estimate spans positions 3000..12000 over 300..1200 ms.
    for i in 0..13u64 {
        speed.add_position(i * 1000, i * 100);
    }
    assert_eq!(speed.average(), 10000);
}

#[test]
fn test_percentage_is_100_only_at_completion() {
    assert_eq!(DownloadProgress::percentage(999, 1000), 99);
    assert_eq!(DownloadProgress::percentage(1000, 1000), 100);
    assert_eq!(DownloadProgress::percentage(1001, 1000), 100);
    assert_eq!(DownloadProgress::percentage(0, 0), 0);
    assert_eq!(DownloadProgress::percentage(500, 0), 0);
    assert_eq!(DownloadProgress::percentage(1, 3), 33);
}

#[test]
fn test_tracker_updates_and_throttles() {
    let mut tracker = ProgressTracker::new("B001".to_string(), "Test Book".to_string(), 1000, 0);
    assert!(!tracker.should_update(100));
    assert!(tracker.should_update(200));

    tracker.set_state(DownloadState::Downloading);
    tracker.update(250, 1000, 100);
    let snap = tracker.get_progress();
    assert_eq!(snap.bytes_received, 250);
    assert_eq!(snap.progress_percentage, 25);
    assert_eq!(snap.state, DownloadState::Downloading);

    tracker.force_update(500, 300);
    assert!(!tracker.should_update(400));
    assert!(tracker.should_update(500));
    assert_eq!(tracker.get_progress().bytes_received, 500);
}

/// Successive snapshots of one transfer never go backwards while the
/// driver feeds monotonic positions, and the percentage tops out at 100
/// exactly at the total.
#[test]
fn test_tracker_snapshots_are_monotonic() {
    let mut tracker = ProgressTracker::new("B001".to_string(), "Test Book".to_string(), 1000, 0);
    tracker.set_state(DownloadState::Downloading);
    let mut last_bytes: u64 = 0;
    let mut last_percent: u64 = 0;
    let positions: [u64; 6] = [0, 100, 350, 350, 900, 1000];
    for (i, pos) in positions.iter().enumerate() {
        tracker.update(*pos, 1000, (i as u64) * 250);
        let snap = tracker.clone_progress();
        assert!(snap.bytes_received >= last_bytes);
        assert!(snap.progress_percentage >= last_percent);
        assert!(snap.progress_percentage < 100 || snap.bytes_received == 1000);
        last_bytes = snap.bytes_received;
        last_percent = snap.progress_percentage;
    }
    assert_eq!(last_percent, 100);
}

#[test]
fn test_tracker_set_error() {
    let mut tracker = ProgressTracker::new("B001".to_string(), "Test Book".to_string(), 1000, 0);
    tracker.set_error("connection reset".to_string());
    assert_eq!(tracker.state, DownloadState::Failed);
    let snap = tracker.get_progress();
    assert_eq!(snap.state, DownloadState::Failed);
    assert_eq!(snap.error_message.as_deref(), Some("connection reset"));
}
