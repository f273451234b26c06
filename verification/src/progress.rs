//! Progress tracking for one transfer.
//!
//! A tracker is bound to one download. It keeps the latest snapshot,
//! estimates speed over a short rolling window of position samples, and
//! throttles reporting on a fixed minimum interval so cadence does not
//! depend on chunk size. All time arrives as explicit millisecond readings
//! from the caller's clock; the tracker itself never reads a clock.

use vstd::prelude::*;

verus! {

/// Lifecycle state of a transfer.
#[derive(Debug, Clone, Copy, PartialEq, Eq, Structural)]
pub enum DownloadState {
    /// Queued but not started.
    Queued,
    /// Waiting to begin.
    Pending,
    /// Bytes are flowing.
    Downloading,
    /// Stopped by explicit cancellation; resumable from its checkpoint.
    Paused,
    /// Finished.
    Completed,
    /// Stopped by an error.
    Failed,
    /// Abandoned for good.
    Cancelled,
}

/// Whole percentage of a transfer: exactly 100 when everything known to be
/// owed has arrived, the rounded-down share otherwise, and 0 while the total
/// is unknown.
pub open spec fn percent_of(received: u64, total: u64) -> u64 {
    if total == 0 {
        0
    } else if received >= total {
        100
    } else {
        ((received as int * 100) / (total as int)) as u64
    }
}

/// The percentage is full exactly at completion: 100 is reached if and only
/// if the received bytes cover a known total.
pub proof fn lemma_percentage_complete(received: u64, total: u64)
    ensures
        percent_of(received, total) == 100 <==> (received >= total && total > 0),
{
    if total > 0 && received < total {
        assert((received as int * 100) / (total as int) < 100) by (nonlinear_arith)
            requires
                0 < total,
                0 <= received < total,
        ;
    }
}

/// One progress snapshot of a transfer, published to observers.
#[derive(Debug)]
pub struct DownloadProgress {
    /// Identifier of the content being transferred.
    pub asin: String,
    /// Title of the content, for display.
    pub title: String,
    /// Bytes received so far.
    pub bytes_received: u64,
    /// Total bytes expected, or 0 while unknown.
    pub total_bytes: u64,
    /// Whole percentage, kept equal to `percent_of` of the two counters.
    pub progress_percentage: u64,
    /// Estimated speed in bytes per second.
    pub bytes_per_second: u64,
    /// Estimated seconds until completion; absent while the speed is zero
    /// or the transfer is already at its total.
    pub time_remaining_secs: Option<u64>,
    /// Lifecycle state.
    pub state: DownloadState,
    /// What went wrong, where the state is `Failed`.
    pub error_message: Option<String>,
}

impl DownloadProgress {
    /// The percentage field agrees with the byte counters.
    pub open spec fn wf(&self) -> bool {
        self.progress_percentage == percent_of(self.bytes_received, self.total_bytes)
    }

    /// A snapshot at the given position with no estimates yet.
    pub fn new(asin: String, title: String, bytes_received: u64, total_bytes: u64) -> (r: Self)
        ensures
            r.asin@ == asin@,
            r.title@ == title@,
            r.bytes_received == bytes_received,
            r.total_bytes == total_bytes,
            r.progress_percentage == percent_of(bytes_received, total_bytes),
            r.bytes_per_second == 0,
            r.time_remaining_secs is None,
            r.state == DownloadState::Pending,
            r.error_message is None,
            r.wf(),
    {
        let progress_percentage = Self::percentage(bytes_received, total_bytes);
        DownloadProgress {
            asin,
            title,
            bytes_received,
            total_bytes,
            progress_percentage,
            bytes_per_second: 0,
            time_remaining_secs: None,
            state: DownloadState::Pending,
            error_message: None,
        }
    }

    /// Computes the whole percentage for a position.
    pub fn percentage(received: u64, total: u64) -> (r: u64)
        ensures
            r == percent_of(received, total),
    {
        if total == 0 {
            0
        } else if received >= total {
            100
        } else {
            let wide = (received as u128) * 100 / (total as u128);
            proof {
                assert(wide == (received as int * 100) / (total as int));
                assert((received as int * 100) / (total as int) < 100) by (nonlinear_arith)
                    requires
                        0 < total,
                        0 <= received < total,
                ;
            }
            wide as u64
        }
    }

    /// Attaches speed and, where it is positive and bytes remain, the
    /// estimated seconds left.
    pub fn with_estimates(self, bytes_per_second: u64) -> (r: Self)
        ensures
            r.bytes_per_second == bytes_per_second,
            bytes_per_second > 0 && self.bytes_received < self.total_bytes
                ==> r.time_remaining_secs == Some(
                (((self.total_bytes - self.bytes_received) as int / bytes_per_second as int)
                    as u64),
            ),
            !(bytes_per_second > 0 && self.bytes_received < self.total_bytes)
                ==> r.time_remaining_secs == self.time_remaining_secs,
            r.asin == self.asin,
            r.title == self.title,
            r.bytes_received == self.bytes_received,
            r.total_bytes == self.total_bytes,
            r.progress_percentage == self.progress_percentage,
            r.state == self.state,
            r.error_message == self.error_message,
    {
        let mut out = self;
        out.bytes_per_second = bytes_per_second;
        if bytes_per_second > 0 && out.bytes_received < out.total_bytes {
            let bytes_remaining = out.total_bytes - out.bytes_received;
            out.time_remaining_secs = Some(bytes_remaining / bytes_per_second);
        }
        out
    }

    /// Moves the position and recomputes the percentage.
    pub fn update_bytes(&mut self, bytes_received: u64)
        ensures
            final(self).bytes_received == bytes_received,
            final(self).progress_percentage == percent_of(bytes_received, old(self).total_bytes),
            final(self).total_bytes == old(self).total_bytes,
            final(self).asin == old(self).asin,
            final(self).title == old(self).title,
            final(self).bytes_per_second == old(self).bytes_per_second,
            final(self).time_remaining_secs == old(self).time_remaining_secs,
            final(self).state == old(self).state,
            final(self).error_message == old(self).error_message,
            final(self).wf(),
    {
        self.bytes_received = bytes_received;
        self.progress_percentage = Self::percentage(bytes_received, self.total_bytes);
    }

    /// Sets the lifecycle state.
    pub fn set_state(&mut self, state: DownloadState)
        ensures
            final(self).state == state,
            final(self).asin == old(self).asin,
            final(self).title == old(self).title,
            final(self).bytes_received == old(self).bytes_received,
            final(self).total_bytes == old(self).total_bytes,
            final(self).progress_percentage == old(self).progress_percentage,
            final(self).bytes_per_second == old(self).bytes_per_second,
            final(self).time_remaining_secs == old(self).time_remaining_secs,
            final(self).error_message == old(self).error_message,
    {
        self.state = state;
    }

    /// Records a failure message and marks the transfer failed.
    pub fn set_error(&mut self, error: String)
        ensures
            final(self).state == DownloadState::Failed,
            final(self).error_message matches Some(m) && m@ == error@,
            final(self).asin == old(self).asin,
            final(self).title == old(self).title,
            final(self).bytes_received == old(self).bytes_received,
            final(self).total_bytes == old(self).total_bytes,
            final(self).progress_percentage == old(self).progress_percentage,
            final(self).bytes_per_second == old(self).bytes_per_second,
            final(self).time_remaining_secs == old(self).time_remaining_secs,
    {
        self.state = DownloadState::Failed;
        self.error_message = Some(error);
    }

    /// Whether everything owed has arrived: the position covers a known
    /// total.
    pub fn is_complete(&self) -> (r: bool)
        ensures
            r == (self.bytes_received >= self.total_bytes && self.total_bytes > 0),
    {
        self.bytes_received >= self.total_bytes && self.total_bytes > 0
    }

    /// A copy of this snapshot.
    pub fn duplicate(&self) -> (r: Self)
        ensures
            r.asin@ == self.asin@,
            r.title@ == self.title@,
            r.bytes_received == self.bytes_received,
            r.total_bytes == self.total_bytes,
            r.progress_percentage == self.progress_percentage,
            r.bytes_per_second == self.bytes_per_second,
            r.time_remaining_secs == self.time_remaining_secs,
            r.state == self.state,
            match (self.error_message, r.error_message) {
                (Option::Some(a), Option::Some(b)) => a@ == b@,
                (Option::None, Option::None) => true,
                _ => false,
            },
    {
        let error_message = match &self.error_message {
            Some(m) => Some(m.clone()),
            None => None,
        };
        DownloadProgress {
            asin: self.asin.clone(),
            title: self.title.clone(),
            bytes_received: self.bytes_received,
            total_bytes: self.total_bytes,
            progress_percentage: self.progress_percentage,
            bytes_per_second: self.bytes_per_second,
            time_remaining_secs: self.time_remaining_secs,
            state: self.state,
            error_message,
        }
    }
}

impl Default for DownloadProgress {
    /// The zero snapshot used at the very start and after teardown.
    fn default() -> (r: Self)
        ensures
            r.asin@.len() == 0,
            r.title@.len() == 0,
            r.bytes_received == 0,
            r.total_bytes == 0,
            r.progress_percentage == 0,
            r.bytes_per_second == 0,
            r.time_remaining_secs is None,
            r.state == DownloadState::Pending,
            r.error_message is None,
            r.wf(),
    {
        DownloadProgress::new(String::new(), String::new(), 0, 0)
    }
}

/// Rolling window of position samples a speed estimate is computed from.
pub struct AverageSpeed {
    /// Recent byte positions, oldest first.
    pub positions: Vec<u64>,
    /// Millisecond reading paired with each position.
    pub timestamps: Vec<u64>,
    /// How many samples the window keeps.
    pub max_samples: usize,
}

/// The estimated speed of a sample window, in bytes per second: the byte
/// span over the time span, zero with fewer than two samples or no forward
/// time movement, saturated at the integer limit.
pub open spec fn spec_average(positions: Seq<u64>, timestamps: Seq<u64>) -> u64 {
    if positions.len() < 2 || timestamps.len() < 2 {
        0
    } else {
        let bytes_diff: int = if positions.last() >= positions.first() {
            positions.last() - positions.first()
        } else {
            0
        };
        let time_diff: int = if timestamps.last() > timestamps.first() {
            timestamps.last() - timestamps.first()
        } else {
            0
        };
        if time_diff == 0 {
            0
        } else if bytes_diff * 1000 / time_diff > u64::MAX {
            u64::MAX
        } else {
            (bytes_diff * 1000 / time_diff) as u64
        }
    }
}

impl AverageSpeed {
    /// Positions and timestamps pair up and the window is bounded.
    pub open spec fn wf(&self) -> bool {
        &&& self.positions@.len() == self.timestamps@.len()
        &&& self.positions@.len() <= self.max_samples
        &&& self.max_samples >= 2
    }

    /// An empty window keeping the last ten samples.
    pub fn new() -> (r: Self)
        ensures
            r.positions@.len() == 0,
            r.timestamps@.len() == 0,
            r.max_samples == 10,
            r.wf(),
    {
        AverageSpeed { positions: Vec::new(), timestamps: Vec::new(), max_samples: 10 }
    }

    /// Records one position sample at the given time, dropping the oldest
    /// sample once the window is full.
    pub fn add_position(&mut self, position: u64, now_ms: u64)
        requires
            old(self).wf(),
        ensures
            final(self).wf(),
            final(self).max_samples == old(self).max_samples,
            ({
                let pushed_p = old(self).positions@.push(position);
                let pushed_t = old(self).timestamps@.push(now_ms);
                if pushed_p.len() > old(self).max_samples {
                    final(self).positions@ == pushed_p.drop_first() && final(self).timestamps@
                        == pushed_t.drop_first()
                } else {
                    final(self).positions@ == pushed_p && final(self).timestamps@ == pushed_t
                }
            }),
    {
        self.positions.push(position);
        self.timestamps.push(now_ms);
        if self.positions.len() > self.max_samples {
            self.positions.remove(0);
            self.timestamps.remove(0);
            proof {
                assert(final(self).positions@ =~= old(self).positions@.push(position).drop_first());
                assert(final(self).timestamps@ =~= old(self).timestamps@.push(now_ms).drop_first());
            }
        }
    }

    /// The estimated speed of the current window.
    pub fn average(&self) -> (r: u64)
        requires
            self.wf(),
        ensures
            r == spec_average(self.positions@, self.timestamps@),
    {
        if self.positions.len() < 2 {
            return 0;
        }
        let first_pos = self.positions[0];
        let last_pos = self.positions[self.positions.len() - 1];
        let first_time = self.timestamps[0];
        let last_time = self.timestamps[self.timestamps.len() - 1];
        proof {
            assert(self.positions@.first() == first_pos);
            assert(self.positions@.last() == last_pos);
            assert(self.timestamps@.first() == first_time);
            assert(self.timestamps@.last() == last_time);
        }
        let bytes_diff: u64 = if last_pos >= first_pos {
            last_pos - first_pos
        } else {
            0
        };
        let time_diff: u64 = if last_time > first_time {
            last_time - first_time
        } else {
            0
        };
        if time_diff == 0 {
            return 0;
        }
        let wide = (bytes_diff as u128) * 1000 / (time_diff as u128);
        if wide > u64::MAX as u128 {
            u64::MAX
        } else {
            wide as u64
        }
    }
}

impl Default for AverageSpeed {
    /// An empty window.
    fn default() -> (r: Self)
        ensures
            r.positions@.len() == 0,
            r.timestamps@.len() == 0,
            r.max_samples == 10,
            r.wf(),
    {
        AverageSpeed::new()
    }
}

/// Progress bookkeeping bound to one transfer.
pub struct ProgressTracker {
    /// Lifecycle state of the transfer.
    pub state: DownloadState,
    /// Latest published snapshot.
    pub progress: DownloadProgress,
    /// Speed estimator.
    pub speed_calc: AverageSpeed,
    /// Millisecond reading of the last forced or delivered update.
    pub last_update_ms: u64,
    /// Minimum interval between throttled reports, in milliseconds.
    pub update_interval_ms: u64,
}

impl ProgressTracker {
    /// The embedded pieces are consistent.
    pub open spec fn wf(&self) -> bool {
        &&& self.speed_calc.wf()
        &&& self.progress.wf()
    }

    /// A tracker for one transfer, reporting at most every 200 ms.
    pub fn new(asin: String, title: String, total_bytes: u64, now_ms: u64) -> (r: Self)
        ensures
            r.state == DownloadState::Pending,
            r.progress.asin@ == asin@,
            r.progress.title@ == title@,
            r.progress.bytes_received == 0,
            r.progress.total_bytes == total_bytes,
            r.last_update_ms == now_ms,
            r.update_interval_ms == 200,
            r.wf(),
    {
        ProgressTracker {
            state: DownloadState::Pending,
            progress: DownloadProgress::new(asin, title, 0, total_bytes),
            speed_calc: AverageSpeed::new(),
            last_update_ms: now_ms,
            update_interval_ms: 200,
        }
    }

    /// Records a new position: feeds the speed window, recomputes the
    /// snapshot and stamps it with the tracker's state.
    pub fn update(&mut self, bytes_received: u64, total_bytes: u64, now_ms: u64)
        requires
            old(self).wf(),
        ensures
            final(self).wf(),
            final(self).progress.bytes_received == bytes_received,
            final(self).progress.total_bytes == total_bytes,
            final(self).progress.progress_percentage == percent_of(bytes_received, total_bytes),
            final(self).progress.state == old(self).state,
            final(self).state == old(self).state,
            final(self).last_update_ms == old(self).last_update_ms,
            final(self).update_interval_ms == old(self).update_interval_ms,
    {
        self.speed_calc.add_position(bytes_received, now_ms);
        let speed = self.speed_calc.average();
        self.progress.total_bytes = total_bytes;
        self.progress.update_bytes(bytes_received);
        let refreshed = self.progress.duplicate().with_estimates(speed);
        self.progress = refreshed;
        self.progress.state = self.state;
        proof {
            assert(final(self).progress.wf());
        }
    }

    /// Records a new position and resets the throttle clock, so the next
    /// report is immediate. Used for the first and last chunk, which must
    /// always reach observers.
    pub fn force_update(&mut self, bytes_received: u64, now_ms: u64)
        requires
            old(self).wf(),
        ensures
            final(self).wf(),
            final(self).progress.bytes_received == bytes_received,
            final(self).progress.total_bytes == old(self).progress.total_bytes,
            final(self).state == old(self).state,
            final(self).last_update_ms == now_ms,
            final(self).update_interval_ms == old(self).update_interval_ms,
    {
        let total = self.progress.total_bytes;
        self.update(bytes_received, total, now_ms);
        self.last_update_ms = now_ms;
    }

    /// Whether the throttle interval has passed since the last stamped
    /// update. Purely time-based, independent of byte counts.
    pub fn should_update(&self, now_ms: u64) -> (r: bool)
        ensures
            r == (now_ms as int >= self.last_update_ms as int + self.update_interval_ms as int),
    {
        if now_ms >= self.last_update_ms {
            now_ms - self.last_update_ms >= self.update_interval_ms
        } else {
            false
        }
    }

    /// The current snapshot, as a copy.
    pub fn get_progress(&self) -> (r: DownloadProgress)
        ensures
            r.bytes_received == self.progress.bytes_received,
            r.total_bytes == self.progress.total_bytes,
            r.progress_percentage == self.progress.progress_percentage,
            r.bytes_per_second == self.progress.bytes_per_second,
            r.time_remaining_secs == self.progress.time_remaining_secs,
            r.state == self.progress.state,
            r.asin@ == self.progress.asin@,
            r.title@ == self.progress.title@,
    {
        self.progress.duplicate()
    }

    /// The current snapshot, as a copy.
    pub fn clone_progress(&self) -> (r: DownloadProgress)
        ensures
            r.bytes_received == self.progress.bytes_received,
            r.total_bytes == self.progress.total_bytes,
            r.progress_percentage == self.progress.progress_percentage,
            r.bytes_per_second == self.progress.bytes_per_second,
            r.time_remaining_secs == self.progress.time_remaining_secs,
            r.state == self.progress.state,
            r.asin@ == self.progress.asin@,
            r.title@ == self.progress.title@,
    {
        self.get_progress()
    }

    /// Sets the state on the tracker and its snapshot.
    pub fn set_state(&mut self, state: DownloadState)
        ensures
            final(self).state == state,
            final(self).progress.state == state,
            final(self).progress.bytes_received == old(self).progress.bytes_received,
            final(self).progress.total_bytes == old(self).progress.total_bytes,
            final(self).last_update_ms == old(self).last_update_ms,
            final(self).update_interval_ms == old(self).update_interval_ms,
    {
        self.state = state;
        self.progress.set_state(state);
    }

    /// Records a failure message and marks the transfer failed.
    pub fn set_error(&mut self, error: String)
        ensures
            final(self).state == DownloadState::Failed,
            final(self).progress.state == DownloadState::Failed,
            final(self).progress.error_message matches Some(m) && m@ == error@,
            final(self).progress.bytes_received == old(self).progress.bytes_received,
    {
        self.progress.set_error(error);
        self.state = DownloadState::Failed;
    }
}

impl Default for ProgressTracker {
    /// A tracker with no book bound to it and a zero clock.
    fn default() -> (r: Self)
        ensures
            r.state == DownloadState::Pending,
            r.progress.bytes_received == 0,
            r.progress.total_bytes == 0,
            r.wf(),
    {
        ProgressTracker::new(String::new(), String::new(), 0, 0)
    }
}

} // verus!
