//! The ingestion loop's bookkeeping: a frame counter that is published and
//! reset once a second.

use crate::frame_buf::frame_bytes;
use crate::models::AppState;
use crate::models::Stats;
use bytes::Bytes;
use vstd::prelude::*;

verus! {

/// Length of a throughput window, in nanoseconds.
pub const WINDOW_NANOS: u64 = 1_000_000_000;

/// Whether a window that started at `window_start` is over at `now`. A clock
/// reading before the start counts as no time passed.
pub open spec fn window_over(window_start: u64, now: u64) -> bool {
    now - window_start >= WINDOW_NANOS
}

/// Counter of the running window.
#[derive(Clone, Copy, Debug, PartialEq, Eq, Structural)]
pub struct FrameReader {
    /// Frames ingested since the window started.
    pub frame_count: u32,
    /// When the window started, in nanoseconds of the caller's monotonic clock.
    pub window_start: u64,
}

impl FrameReader {
    /// The counter after one more frame, ingested at `now`.
    pub open spec fn after_frame(self, now: u64) -> FrameReader {
        if window_over(self.window_start, now) {
            FrameReader { frame_count: 0, window_start: now }
        } else {
            FrameReader { frame_count: (self.frame_count + 1) as u32, window_start: self.window_start }
        }
    }

    /// What a frame ingested at `now` publishes: the count of the window that
    /// it completes, itself included, or nothing while the window runs.
    pub open spec fn published_by(self, now: u64) -> Option<Stats> {
        if window_over(self.window_start, now) {
            Some(Stats { frame_count: (self.frame_count + 1) as u32, last_frame_time: now })
        } else {
            None
        }
    }

    /// A reader whose first window starts at `now`.
    pub fn new(now: u64) -> (reader: FrameReader)
        ensures
            reader == (FrameReader { frame_count: 0, window_start: now }),
    {
        FrameReader { frame_count: 0, window_start: now }
    }

    /// Counts a frame ingested at `now`. Where the window is over, hands out
    /// the counters to publish and starts the next window at `now`.
    pub fn on_frame(&mut self, now: u64) -> (published: Option<Stats>)
        requires
            old(self).frame_count < u32::MAX,
        ensures
            *final(self) == old(self).after_frame(now),
            published == old(self).published_by(now),
    {
        let count: u32 = self.frame_count + 1;
        let over = now >= self.window_start && now - self.window_start >= WINDOW_NANOS;
        if over {
            self.frame_count = 0;
            self.window_start = now;
            Some(Stats { frame_count: count, last_frame_time: now })
        } else {
            self.frame_count = count;
            None
        }
    }
}

/// The throughput counters after a frame ingested at `now`.
pub open spec fn stats_after(reader: FrameReader, stats: Stats, now: u64) -> Stats {
    match reader.published_by(now) {
        Some(fresh) => fresh,
        None => stats,
    }
}

/// The counter after the frames that arrived at `arrivals`, in that order.
pub open spec fn reader_after_all(reader: FrameReader, arrivals: Seq<u64>) -> FrameReader
    decreases arrivals.len(),
{
    if arrivals.len() == 0 {
        reader
    } else {
        reader_after_all(reader, arrivals.drop_last()).after_frame(arrivals.last())
    }
}

/// The throughput counters after the frames that arrived at `arrivals`.
pub open spec fn stats_after_all(reader: FrameReader, stats: Stats, arrivals: Seq<u64>) -> Stats
    decreases arrivals.len(),
{
    if arrivals.len() == 0 {
        stats
    } else {
        stats_after(
            reader_after_all(reader, arrivals.drop_last()),
            stats_after_all(reader, stats, arrivals.drop_last()),
            arrivals.last(),
        )
    }
}

/// One turn of the ingestion loop on the shared state: the frame replaces
/// the latest frame, and where it completes a window, that window's count
/// replaces the throughput counters.
pub fn ingest(state: &mut AppState, reader: &mut FrameReader, frame: Bytes, now: u64)
    requires
        old(reader).frame_count < u32::MAX,
    ensures
        final(state).latest_frame() == Some(frame_bytes(frame)),
        final(state).stats_storage == stats_after(*old(reader), old(state).stats_storage, now),
        final(state).config == old(state).config,
        *final(reader) == old(reader).after_frame(now),
{
    state.publish_frame(frame);
    match reader.on_frame(now) {
        Some(fresh) => state.publish_stats(fresh),
        None => {},
    }
}

/// While the window runs, ingesting frames leaves the published count as it
/// was: a reader of the counters sees the previous window's count, and the
/// frames are only counted.
pub proof fn lemma_count_is_stale_within_window(
    reader: FrameReader,
    stats: Stats,
    arrivals: Seq<u64>,
)
    requires
        forall|i: int| 0 <= i < arrivals.len() ==> !window_over(reader.window_start, arrivals[i]),
        reader.frame_count + arrivals.len() <= u32::MAX,
    ensures
        stats_after_all(reader, stats, arrivals) == stats,
        reader_after_all(reader, arrivals) == (FrameReader {
            frame_count: (reader.frame_count + arrivals.len()) as u32,
            window_start: reader.window_start,
        }),
    decreases arrivals.len(),
{
    if arrivals.len() > 0 {
        lemma_count_is_stale_within_window(reader, stats, arrivals.drop_last());
    }
}

/// The frame that crosses the window boundary publishes exactly the number
/// of frames ingested since the window started, itself included, and the
/// next window starts empty.
pub proof fn lemma_boundary_publishes_window_count(
    reader: FrameReader,
    stats: Stats,
    arrivals: Seq<u64>,
    now: u64,
)
    requires
        forall|i: int| 0 <= i < arrivals.len() ==> !window_over(reader.window_start, arrivals[i]),
        window_over(reader.window_start, now),
        reader.frame_count + arrivals.len() + 1 <= u32::MAX,
    ensures
        stats_after_all(reader, stats, arrivals.push(now)) == (Stats {
            frame_count: (reader.frame_count + arrivals.len() + 1) as u32,
            last_frame_time: now,
        }),
        reader_after_all(reader, arrivals.push(now)) == (FrameReader {
            frame_count: 0,
            window_start: now,
        }),
{
    lemma_count_is_stale_within_window(reader, stats, arrivals);
    assert(arrivals.push(now).drop_last() == arrivals);
}

} // verus!
