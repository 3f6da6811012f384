use minicap_bridge::lifecycle::{notice, on_event, Event, Shutdown};

#[test]
fn task_that_ended_stops_its_sibling() {
    assert_eq!(
        on_event(Event::FrameReaderEnded),
        Shutdown { stop_frame_reader: false, stop_server: true }
    );
    assert_eq!(
        on_event(Event::ServerEnded),
        Shutdown { stop_frame_reader: true, stop_server: false }
    );
}

#[test]
fn interrupt_stops_both_tasks() {
    assert_eq!(
        on_event(Event::Interrupted),
        Shutdown { stop_frame_reader: true, stop_server: true }
    );
}

#[test]
fn every_event_has_its_notice() {
    assert_eq!(notice(Event::FrameReaderEnded), "Frame reader task ended. Shutting down...");
    assert_eq!(notice(Event::ServerEnded), "Server task ended. Shutting down...");
    assert_eq!(notice(Event::Interrupted), "Received CTRL+C. Shutting down...");
}
