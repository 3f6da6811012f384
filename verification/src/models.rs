//! The state that ingestion writes and the gateway reads: the latest frame
//! and the throughput counters, beside the start-up configuration.

use crate::frame_buf::bytes_clone;
use crate::frame_buf::frame_bytes;
use bytes::Bytes;
use vstd::prelude::*;

verus! {

/// Throughput of the last completed window.
#[derive(Clone, Copy, Debug, PartialEq, Eq, Structural)]
pub struct Stats {
    /// Frames ingested in the last completed window.
    pub frame_count: u32,
    /// When that window was completed, in nanoseconds of the caller's
    /// monotonic clock.
    pub last_frame_time: u64,
}

/// Start-up configuration that requests need.
pub struct Config {
    /// Address of the queueing service that some requests are relayed to.
    pub aq_addr: String,
}

/// The shared state as one unit. The caller guards `frame_storage` and
/// `stats_storage` each with a lock of its own; every function here is one
/// acquire, read or write, release.
pub struct AppState {
    pub config: Config,
    /// The latest frame; `None` until the first frame has been ingested.
    pub frame_storage: Option<Bytes>,
    pub stats_storage: Stats,
}

/// What a frame cell holds: nothing, or the bytes of one whole frame.
pub open spec fn held_frame(cell: Option<Bytes>) -> Option<Seq<u8>> {
    match cell {
        Some(frame) => Some(frame_bytes(frame)),
        None => None,
    }
}

/// Puts `frame` into the cell, whatever the cell held.
pub fn store_frame(cell: &mut Option<Bytes>, frame: Bytes)
    ensures
        held_frame(*final(cell)) == Some(frame_bytes(frame)),
{
    *cell = Some(frame);
}

/// Hands out what the cell holds, sharing the buffer; the cell keeps it.
pub fn load_frame(cell: &Option<Bytes>) -> (frame: Option<Bytes>)
    ensures
        held_frame(frame) == held_frame(*cell),
{
    match cell {
        Some(frame) => Some(bytes_clone(frame)),
        None => None,
    }
}

impl AppState {
    /// The state at start-up: no frame yet, no window completed yet.
    pub fn new(config: Config, now: u64) -> (state: AppState)
        ensures
            state.config == config,
            state.latest_frame() is None,
            state.stats_storage == (Stats { frame_count: 0, last_frame_time: now }),
    {
        AppState {
            config,
            frame_storage: None,
            stats_storage: Stats { frame_count: 0, last_frame_time: now },
        }
    }

    /// The latest frame, if any has been ingested.
    pub open spec fn latest_frame(self) -> Option<Seq<u8>> {
        held_frame(self.frame_storage)
    }

    /// Replaces the latest frame. Nothing else changes.
    pub fn publish_frame(&mut self, frame: Bytes)
        ensures
            final(self).latest_frame() == Some(frame_bytes(frame)),
            final(self).stats_storage == old(self).stats_storage,
            final(self).config == old(self).config,
    {
        store_frame(&mut self.frame_storage, frame);
    }

    /// Reads the latest frame.
    pub fn current_frame(&self) -> (frame: Option<Bytes>)
        ensures
            held_frame(frame) == self.latest_frame(),
    {
        load_frame(&self.frame_storage)
    }

    /// Replaces the throughput counters. Nothing else changes.
    pub fn publish_stats(&mut self, stats: Stats)
        ensures
            final(self).stats_storage == stats,
            final(self).frame_storage == old(self).frame_storage,
            final(self).config == old(self).config,
    {
        self.stats_storage = stats;
    }

    /// Reads the frame count of the last completed window.
    pub fn fps(&self) -> (fps: u32)
        ensures
            fps == self.stats_storage.frame_count,
    {
        self.stats_storage.frame_count
    }
}

/// A cell that was given a frame never reads as "no frame yet", however
/// short the frame: a frame of no bytes is still a frame.
pub proof fn lemma_stored_frame_is_never_absent(frame: Bytes)
    ensures
        held_frame(Some(frame)) == Some(frame_bytes(frame)),
        held_frame(Some(frame)) != held_frame(None),
        frame_bytes(frame).len() == 0 ==> held_frame(Some(frame)) == Some(Seq::<u8>::empty()),
{
    if frame_bytes(frame).len() == 0 {
        assert(frame_bytes(frame) =~= Seq::<u8>::empty());
    }
}

} // verus!
