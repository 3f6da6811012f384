//! When the process ends. Ingestion and the gateway run side by side; the
//! first of them to end, or an interrupt from outside, ends the process, and
//! whatever is still running is stopped rather than left behind.

use vstd::prelude::*;

verus! {

/// What the coordinator waits for.
#[derive(Clone, Copy, Debug, PartialEq, Eq, Structural)]
pub enum Event {
    /// The ingestion loop ended; it only ever ends on an error.
    FrameReaderEnded,
    /// The gateway ended.
    ServerEnded,
    /// An interrupt arrived from outside.
    Interrupted,
}

/// What the coordinator does about an event: which tasks to stop before the
/// process exits.
#[derive(Clone, Copy, Debug, PartialEq, Eq, Structural)]
pub struct Shutdown {
    pub stop_frame_reader: bool,
    pub stop_server: bool,
}

/// The tasks that still run when `event` arrives.
pub open spec fn shutdown_for(event: Event) -> Shutdown {
    Shutdown {
        stop_frame_reader: event != Event::FrameReaderEnded,
        stop_server: event != Event::ServerEnded,
    }
}

/// Decides what to stop. Every event ends the process; the task that ended
/// by itself needs no stopping.
pub fn on_event(event: Event) -> (shutdown: Shutdown)
    ensures
        shutdown == shutdown_for(event),
{
    match event {
        Event::FrameReaderEnded => Shutdown { stop_frame_reader: false, stop_server: true },
        Event::ServerEnded => Shutdown { stop_frame_reader: true, stop_server: false },
        Event::Interrupted => Shutdown { stop_frame_reader: true, stop_server: true },
    }
}

/// The line that is logged for an event.
pub open spec fn notice_text(event: Event) -> Seq<char> {
    match event {
        Event::FrameReaderEnded => "Frame reader task ended. Shutting down..."@,
        Event::ServerEnded => "Server task ended. Shutting down..."@,
        Event::Interrupted => "Received CTRL+C. Shutting down..."@,
    }
}

/// The line that is logged for an event.
pub fn notice(event: Event) -> (text: &'static str)
    ensures
        text@ == notice_text(event),
{
    match event {
        Event::FrameReaderEnded => "Frame reader task ended. Shutting down...",
        Event::ServerEnded => "Server task ended. Shutting down...",
        Event::Interrupted => "Received CTRL+C. Shutting down...",
    }
}

/// Whatever the event, no task is left running: each is stopped unless it is
/// the one that ended.
pub proof fn lemma_nothing_outlives_shutdown(event: Event)
    ensures
        shutdown_for(event).stop_frame_reader || event == Event::FrameReaderEnded,
        shutdown_for(event).stop_server || event == Event::ServerEnded,
{
}

} // verus!
