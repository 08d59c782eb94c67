use penumbra::error::Error;
use penumbra::sync::{SyncProgress, SyncStatus};

#[test]
fn first_report_fixes_range_and_later_reports_move_position() {
    let first = SyncStatus { sync_height: 100, latest_known_block_height: 250 };
    let progress = SyncProgress::start(Some(first)).unwrap();
    assert_eq!(progress, SyncProgress { start_height: 100, length: 150 });
    assert_eq!(progress.position(&first), 0);
    let later = SyncStatus { sync_height: 180, latest_known_block_height: 260 };
    assert_eq!(progress.position(&later), 80);
}

#[test]
fn empty_status_stream_is_an_error() {
    assert_eq!(SyncProgress::start(None), Err(Error::NoSyncStatus));
    assert_eq!(Error::NoSyncStatus.message(), "view service did not report sync status");
}
