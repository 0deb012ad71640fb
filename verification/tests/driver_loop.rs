use wireframe::geom::{Point3, Segment, SCALE};
use wireframe::transform::Mat4;
use wireframe::driver::{drain_events, frame_step, handle_event, InputEvent, LoopState};

fn one_segment() -> Vec<Segment> {
    vec![Segment {
        a: Point3::new(SCALE, SCALE, 0),
        b: Point3::new(2 * SCALE, 2 * SCALE, 0),
    }]
}

#[test]
fn close_request_terminates_within_one_frame() {
    // A close signal drained at frame N: frame N still renders, but the
    // state is Terminated when it ends, and frame N+1 renders nothing.
    let m = Mat4::identity();
    let segs = one_segment();
    let frame_n_events = vec![InputEvent::Other, InputEvent::CloseRequested];
    let (state, cmds) = frame_step(LoopState::Running, &m, &segs, &frame_n_events);
    assert_eq!(cmds.len(), 1);
    assert_eq!(state, LoopState::Terminated);
    let (state2, cmds2) = frame_step(state, &m, &segs, &vec![]);
    assert_eq!(state2, LoopState::Terminated);
    assert!(cmds2.is_empty());
}

#[test]
fn cancel_key_terminates() {
    let ev = vec![InputEvent::Other, InputEvent::CancelKey, InputEvent::Other];
    assert_eq!(drain_events(LoopState::Running, &ev), LoopState::Terminated);
}

#[test]
fn empty_queue_keeps_running() {
    assert_eq!(drain_events(LoopState::Running, &vec![]), LoopState::Running);
    let ignored = vec![InputEvent::Other, InputEvent::Other];
    assert_eq!(drain_events(LoopState::Running, &ignored), LoopState::Running);
}

#[test]
fn terminated_is_absorbing() {
    let m = Mat4::identity();
    let segs = one_segment();
    let (state, cmds) = frame_step(LoopState::Terminated, &m, &segs, &vec![]);
    assert_eq!(state, LoopState::Terminated);
    assert!(cmds.is_empty());
    assert_eq!(
        drain_events(LoopState::Terminated, &vec![InputEvent::Other]),
        LoopState::Terminated
    );
    assert_eq!(
        handle_event(LoopState::Terminated, InputEvent::Other),
        LoopState::Terminated
    );
}
