//! The progress shown while the wallet scans the chain: the first status report of the
//! view service fixes the range to scan, and each later report moves the position.

use vstd::prelude::*;

use crate::error::Error;

verus! {

/// A report of the view service on how far it has scanned.
#[derive(Clone, Copy, Debug, PartialEq, Eq, Structural)]
pub struct SyncStatus {
    /// The height up to which the wallet has scanned.
    pub sync_height: u64,
    /// The height of the latest block the view service knows of.
    pub latest_known_block_height: u64,
}

/// The progress bar of a sync: where it starts and how many blocks it spans.
#[derive(Clone, Copy, Debug, PartialEq, Eq, Structural)]
pub struct SyncProgress {
    /// The height that the first report had scanned up to.
    pub start_height: u64,
    /// How many blocks remained to be scanned at the first report.
    pub length: u64,
}

impl SyncProgress {
    /// Sets up the progress bar from the first report of the status stream, which has
    /// the current state; fails if the stream ended without any report.
    pub fn start(first: Option<SyncStatus>) -> (progress: Result<SyncProgress, Error>)
        requires
            first matches Some(s) ==> s.sync_height <= s.latest_known_block_height,
        ensures
            match first {
                None => progress == Err::<SyncProgress, Error>(Error::NoSyncStatus),
                Some(s) => progress == Ok::<SyncProgress, Error>(
                    SyncProgress {
                        start_height: s.sync_height,
                        length: (s.latest_known_block_height - s.sync_height) as u64,
                    },
                ),
            },
    {
        match first {
            None => Err(Error::NoSyncStatus),
            Some(s) => Ok(
                SyncProgress {
                    start_height: s.sync_height,
                    length: s.latest_known_block_height - s.sync_height,
                },
            ),
        }
    }

    /// The position of the progress bar at a later report: how many blocks have been
    /// scanned since the first report.
    pub fn position(&self, status: &SyncStatus) -> (position: u64)
        requires
            self.start_height <= status.sync_height,
        ensures
            position == status.sync_height - self.start_height,
    {
        status.sync_height - self.start_height
    }
}

} // verus!
