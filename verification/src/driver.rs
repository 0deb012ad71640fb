//! The frame loop as a state machine.
//!
//! The loop has two states, Running and Terminated; Terminated is
//! absorbing.  Each frame renders (in Running only) and then drains the
//! frame's pending input events once, non-blocking: an explicit close
//! request or the designated cancel key terminates the loop, every other
//! event is ignored, and an empty queue simply yields no transition.  The
//! host performs the clear, the actual draw calls and the present around
//! this; a failing surface call is fatal and stops the loop as well.

use vstd::prelude::*;
use crate::geom::{Segment, DrawCmd};
use crate::transform::Mat4;
use crate::frame::{cmds_of, render_frame};

verus! {

/// The two states of the frame loop.
#[derive(Clone, Copy, PartialEq, Eq, Structural, Debug)]
pub enum LoopState {
    /// Frames keep rendering.
    Running,
    /// The loop exits; no further frame renders.
    Terminated,
}

/// One input event, as the loop classifies them.
#[derive(Clone, Copy, PartialEq, Eq, Structural, Debug)]
pub enum InputEvent {
    /// An explicit request to close the window.
    CloseRequested,
    /// The designated cancel key was pressed.
    CancelKey,
    /// Anything else; ignored.
    Other,
}

/// The event asks the loop to quit.
pub open spec fn is_quit(e: InputEvent) -> bool {
    e == InputEvent::CloseRequested || e == InputEvent::CancelKey
}

/// Some event of the drained batch asks the loop to quit.
pub open spec fn any_quit(events: Seq<InputEvent>) -> bool {
    exists|i: int| 0 <= i < events.len() && is_quit(#[trigger] events[i])
}

impl LoopState {
    /// The loop has reached its absorbing final state.
    pub open spec fn is_terminated(self) -> bool {
        self == LoopState::Terminated
    }
}

/// The state after draining one frame's events: Terminated exactly when the
/// loop already was, or some drained event asks to quit.
pub open spec fn spec_step(s: LoopState, events: Seq<InputEvent>) -> LoopState {
    if s.is_terminated() || any_quit(events) {
        LoopState::Terminated
    } else {
        LoopState::Running
    }
}

/// Applies one drained event to the loop state: a quit event terminates,
/// anything else leaves the state unchanged; Terminated is absorbing.
pub fn handle_event(s: LoopState, e: InputEvent) -> (r: LoopState)
    ensures
        r.is_terminated() <==> s.is_terminated() || is_quit(e),
{
    match e {
        InputEvent::CloseRequested => LoopState::Terminated,
        InputEvent::CancelKey => LoopState::Terminated,
        InputEvent::Other => s,
    }
}

/// Drains one frame's pending events in order, non-blocking: the result is
/// `spec_step` of the state and the batch, and an empty batch changes
/// nothing.
pub fn drain_events(s: LoopState, events: &Vec<InputEvent>) -> (r: LoopState)
    ensures
        r == spec_step(s, events@),
{
    let mut st = s;
    let mut i: usize = 0;
    while i < events.len()
        invariant
            i <= events@.len(),
            st.is_terminated() <==> s.is_terminated() || any_quit(events@.take(i as int)),
        decreases events@.len() - i,
    {
        st = handle_event(st, events[i]);
        proof {
            let pre = events@.take(i as int);
            let post = events@.take(i as int + 1);
            assert(forall|k: int| 0 <= k < post.len() ==> post[k] == #[trigger] events@[k]);
            assert(forall|k: int| 0 <= k < pre.len() ==> pre[k] == #[trigger] events@[k]);
            if any_quit(pre) {
                let k = choose|k: int| 0 <= k < pre.len() && is_quit(#[trigger] pre[k]);
                assert(is_quit(post[k]));
            }
            if is_quit(events@[i as int]) {
                assert(is_quit(post[i as int]));
            }
            if any_quit(post) && !any_quit(pre) && !is_quit(events@[i as int]) {
                let k = choose|k: int| 0 <= k < post.len() && is_quit(#[trigger] post[k]);
                assert(k < i as int ==> is_quit(pre[k]));
                assert(false);
            }
        }
        i += 1;
    }
    proof {
        assert(events@.take(events@.len() as int) =~= events@);
    }
    st
}

/// One iteration of the frame loop: in Running the frame's geometric work
/// yields the draw calls of `cmds_of` and the frame's events are drained
/// once; in Terminated nothing renders and the loop stays terminated.
pub fn frame_step(s: LoopState, m: &Mat4, segs: &Vec<Segment>, events: &Vec<InputEvent>) -> (r: (
    LoopState,
    Vec<DrawCmd>,
))
    ensures
        r.0 == spec_step(s, events@),
        s.is_terminated() ==> r.1@ == Seq::<DrawCmd>::empty(),
        !s.is_terminated() ==> r.1@ == cmds_of(*m, segs@),
{
    match s {
        LoopState::Terminated => (LoopState::Terminated, Vec::new()),
        LoopState::Running => {
            let cmds = render_frame(m, segs);
            let next = drain_events(LoopState::Running, events);
            (next, cmds)
        },
    }
}

/// A quit event drained at frame N is observed with at most one frame of
/// latency: frame N itself may still render, but the loop is Terminated
/// when frame N ends, and — Terminated being absorbing — every later frame
/// renders nothing, whatever events follow.
pub proof fn lemma_quit_latency(s: LoopState, events_n: Seq<InputEvent>, later: Seq<InputEvent>)
    requires
        any_quit(events_n),
    ensures
        spec_step(s, events_n).is_terminated(),
        spec_step(spec_step(s, events_n), later).is_terminated(),
{
}

} // verus!
