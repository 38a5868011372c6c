use wayland_client::protocol::wl_shm;
use wlr_screencopy::frame::{
    BufferType, CopyRequest, FrameEvent, FrameStatus, ProtocolViolation, WlrScreencopyFrame,
};
use wlr_screencopy::registry::WlrScreencopyState;

const OUTPUT_A: u32 = 7;
const OUTPUT_B: u32 = 9;

fn argb8888() -> u32 {
    u32::from(wl_shm::Format::Argb8888)
}

fn shm_offer(format: u32, width: u32, height: u32, stride: u32) -> FrameEvent {
    FrameEvent::Buffer { format, width, height, stride }
}

#[test]
fn scenario_single_shm_offer_then_ready() {
    let mut state = WlrScreencopyState::new();
    assert_eq!(state.capture_output(OUTPUT_A), Ok(()));
    assert_eq!(state.event(OUTPUT_A, shm_offer(argb8888(), 1920, 1080, 7680)), Ok(()));
    assert_eq!(state.event(OUTPUT_A, FrameEvent::BufferDone), Ok(()));
    let ready = FrameEvent::Ready { tv_sec_hi: 0, tv_sec_lo: 1, tv_nsec: 0 };
    assert_eq!(state.event(OUTPUT_A, ready), Ok(()));
    let frame = state.frame(OUTPUT_A).unwrap();
    assert_eq!(
        frame.buffer_types(),
        vec![BufferType::WlShm { format: 0, width: 1920, height: 1080, stride: 7680 }]
    );
    assert_eq!(frame.status(), FrameStatus::Ready((0, 1, 0)));
}

#[test]
fn scenario_no_offers_then_failed() {
    let mut state = WlrScreencopyState::new();
    assert_eq!(state.capture_output(OUTPUT_B), Ok(()));
    assert_eq!(state.event(OUTPUT_B, FrameEvent::BufferDone), Ok(()));
    assert_eq!(state.event(OUTPUT_B, FrameEvent::Failed), Ok(()));
    let frame = state.frame(OUTPUT_B).unwrap();
    assert_eq!(frame.buffer_types(), vec![]);
    assert_eq!(frame.status(), FrameStatus::Failed);
}

#[test]
fn scenario_copy_before_close_changes_nothing() {
    let mut state = WlrScreencopyState::new();
    state.capture_output(OUTPUT_A).unwrap();
    state.event(OUTPUT_A, shm_offer(argb8888(), 64, 32, 256)).unwrap();
    let frame = state.frame(OUTPUT_A).unwrap();
    let request = frame.copy(42);
    assert_eq!(request, CopyRequest { frame: OUTPUT_A, buffer: 42 });
    assert_eq!(frame.buffer_types(), vec![]);
    assert_eq!(frame.status(), FrameStatus::NotReady);
    assert_eq!(frame.flags(), None);
    state.event(OUTPUT_A, FrameEvent::BufferDone).unwrap();
    assert_eq!(
        state.frame(OUTPUT_A).unwrap().buffer_types(),
        vec![BufferType::WlShm { format: 0, width: 64, height: 32, stride: 256 }]
    );
}

#[test]
fn offers_hidden_until_negotiation_closes() {
    let mut frame = WlrScreencopyFrame::new(3);
    assert_eq!(frame.event(shm_offer(argb8888(), 10, 20, 40)), Ok(()));
    assert_eq!(frame.buffer_types(), vec![]);
    let dmabuf = FrameEvent::LinuxDmabuf { format: 0x3432_5241, width: 10, height: 20 };
    assert_eq!(frame.event(dmabuf), Ok(()));
    assert_eq!(frame.buffer_types(), vec![]);
    assert_eq!(frame.event(FrameEvent::BufferDone), Ok(()));
    assert_eq!(
        frame.buffer_types(),
        vec![
            BufferType::WlShm { format: 0, width: 10, height: 20, stride: 40 },
            BufferType::LinuxDmabuf { format: 0x3432_5241, width: 10, height: 20 },
        ]
    );
}

#[test]
fn terminal_status_never_changes() {
    let mut frame = WlrScreencopyFrame::new(1);
    frame.event(FrameEvent::BufferDone).unwrap();
    frame.event(FrameEvent::Ready { tv_sec_hi: 0, tv_sec_lo: 5, tv_nsec: 6 }).unwrap();
    assert_eq!(frame.event(FrameEvent::Failed), Err(ProtocolViolation::OutOfOrder));
    let again = FrameEvent::Ready { tv_sec_hi: 1, tv_sec_lo: 2, tv_nsec: 3 };
    assert_eq!(frame.event(again), Err(ProtocolViolation::OutOfOrder));
    assert_eq!(frame.event(FrameEvent::Flags { flags: 1 }), Err(ProtocolViolation::OutOfOrder));
    assert_eq!(frame.status(), FrameStatus::Ready((0, 5, 6)));
    assert_eq!(frame.flags(), None);

    let mut failed = WlrScreencopyFrame::new(2);
    failed.event(FrameEvent::BufferDone).unwrap();
    failed.event(FrameEvent::Failed).unwrap();
    let ready = FrameEvent::Ready { tv_sec_hi: 0, tv_sec_lo: 1, tv_nsec: 0 };
    assert_eq!(failed.event(ready), Err(ProtocolViolation::OutOfOrder));
    assert_eq!(failed.status(), FrameStatus::Failed);
}

#[test]
fn interleaved_frames_do_not_see_each_other() {
    let mut state = WlrScreencopyState::new();
    state.capture_output(OUTPUT_A).unwrap();
    state.capture_output(OUTPUT_B).unwrap();
    state.event(OUTPUT_B, shm_offer(argb8888(), 800, 600, 3200)).unwrap();
    state.event(OUTPUT_A, shm_offer(argb8888(), 1920, 1080, 7680)).unwrap();
    state.event(OUTPUT_A, FrameEvent::BufferDone).unwrap();
    state.event(OUTPUT_B, FrameEvent::BufferDone).unwrap();
    state.event(OUTPUT_B, FrameEvent::Failed).unwrap();
    state.event(OUTPUT_A, FrameEvent::Flags { flags: 1 }).unwrap();
    state.event(OUTPUT_A, FrameEvent::Ready { tv_sec_hi: 0, tv_sec_lo: 9, tv_nsec: 4 }).unwrap();

    let a = state.frame(OUTPUT_A).unwrap();
    assert_eq!(
        a.buffer_types(),
        vec![BufferType::WlShm { format: 0, width: 1920, height: 1080, stride: 7680 }]
    );
    assert_eq!(a.flags(), Some(1));
    assert_eq!(a.status(), FrameStatus::Ready((0, 9, 4)));

    let b = state.frame(OUTPUT_B).unwrap();
    assert_eq!(
        b.buffer_types(),
        vec![BufferType::WlShm { format: 0, width: 800, height: 600, stride: 3200 }]
    );
    assert_eq!(b.flags(), None);
    assert_eq!(b.status(), FrameStatus::Failed);
}

#[test]
fn event_for_unknown_frame_is_a_violation() {
    let mut state = WlrScreencopyState::new();
    assert_eq!(state.event(OUTPUT_A, FrameEvent::BufferDone), Err(ProtocolViolation::UnknownFrame));
    state.capture_output(OUTPUT_A).unwrap();
    assert_eq!(state.event(OUTPUT_B, FrameEvent::Failed), Err(ProtocolViolation::UnknownFrame));
    assert!(state.frame(OUTPUT_B).is_none());
    assert_eq!(state.frame(OUTPUT_A).unwrap().status(), FrameStatus::NotReady);
}

#[test]
fn duplicate_identity_is_refused() {
    let mut state = WlrScreencopyState::new();
    assert_eq!(state.capture_output(OUTPUT_A), Ok(()));
    state.event(OUTPUT_A, FrameEvent::BufferDone).unwrap();
    assert_eq!(state.capture_output(OUTPUT_A), Err(ProtocolViolation::DuplicateFrame));
    assert_eq!(state.frame(OUTPUT_A).unwrap().id(), OUTPUT_A);
    assert_eq!(state.event(OUTPUT_A, FrameEvent::Failed), Ok(()));
}

#[test]
fn out_of_order_events_are_rejected() {
    let mut frame = WlrScreencopyFrame::new(5);
    let ready = FrameEvent::Ready { tv_sec_hi: 0, tv_sec_lo: 1, tv_nsec: 0 };
    assert_eq!(frame.event(ready), Err(ProtocolViolation::OutOfOrder));
    assert_eq!(frame.event(FrameEvent::Failed), Err(ProtocolViolation::OutOfOrder));
    assert_eq!(frame.event(FrameEvent::Flags { flags: 0 }), Err(ProtocolViolation::OutOfOrder));
    let damage = FrameEvent::Damage { x: 0, y: 0, width: 1, height: 1 };
    assert_eq!(frame.event(damage), Err(ProtocolViolation::OutOfOrder));
    frame.event(FrameEvent::BufferDone).unwrap();
    assert_eq!(frame.event(FrameEvent::BufferDone), Err(ProtocolViolation::OutOfOrder));
    let late = shm_offer(argb8888(), 1, 1, 4);
    assert_eq!(frame.event(late), Err(ProtocolViolation::OutOfOrder));
    let late_dmabuf = FrameEvent::LinuxDmabuf { format: 1, width: 1, height: 1 };
    assert_eq!(frame.event(late_dmabuf), Err(ProtocolViolation::OutOfOrder));
    assert_eq!(frame.buffer_types(), vec![]);
    assert_eq!(frame.event(FrameEvent::Flags { flags: 0 }), Ok(()));
    assert_eq!(frame.event(FrameEvent::Flags { flags: 1 }), Err(ProtocolViolation::OutOfOrder));
    assert_eq!(frame.flags(), Some(0));
    assert_eq!(frame.event(damage), Ok(()));
    assert_eq!(frame.status(), FrameStatus::NotReady);
}

#[test]
fn unknown_shm_format_is_rejected() {
    let mut frame = WlrScreencopyFrame::new(5);
    assert_eq!(
        frame.event(shm_offer(0xdead_beef, 4, 4, 16)),
        Err(ProtocolViolation::UnknownFormat)
    );
    let xrgb = u32::from(wl_shm::Format::Xrgb8888);
    assert_eq!(frame.event(shm_offer(xrgb, 4, 4, 16)), Ok(()));
    assert_eq!(frame.handle_event(shm_offer(0, 2, 2, 8), false), Err(ProtocolViolation::UnknownFormat));
    assert_eq!(frame.handle_event(shm_offer(0xdead_beef, 2, 2, 8), true), Ok(()));
    frame.event(FrameEvent::BufferDone).unwrap();
    assert_eq!(
        frame.buffer_types(),
        vec![
            BufferType::WlShm { format: 1, width: 4, height: 4, stride: 16 },
            BufferType::WlShm { format: 0xdead_beef, width: 2, height: 2, stride: 8 },
        ]
    );
}

#[test]
fn unknown_flag_bits_are_rejected() {
    let mut frame = WlrScreencopyFrame::new(5);
    frame.event(FrameEvent::BufferDone).unwrap();
    assert_eq!(frame.event(FrameEvent::Flags { flags: 2 }), Err(ProtocolViolation::UnknownFlags));
    assert_eq!(frame.flags(), None);
    assert_eq!(frame.event(FrameEvent::Flags { flags: 1 }), Ok(()));
    assert_eq!(frame.flags(), Some(1));
}

#[test]
fn route_event_takes_the_format_lookup_as_given() {
    let mut state = WlrScreencopyState::new();
    state.capture_output(OUTPUT_A).unwrap();
    assert_eq!(
        state.route_event(OUTPUT_A, shm_offer(0, 1, 1, 4), false),
        Err(ProtocolViolation::UnknownFormat)
    );
    assert_eq!(state.route_event(OUTPUT_A, shm_offer(77, 1, 1, 4), true), Ok(()));
    assert_eq!(
        state.route_event(OUTPUT_B, FrameEvent::BufferDone, true),
        Err(ProtocolViolation::UnknownFrame)
    );
    state.route_event(OUTPUT_A, FrameEvent::BufferDone, true).unwrap();
    assert_eq!(
        state.frame(OUTPUT_A).unwrap().buffer_types(),
        vec![BufferType::WlShm { format: 77, width: 1, height: 1, stride: 4 }]
    );
}
