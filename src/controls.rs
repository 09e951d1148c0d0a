//! One frame of input: what it does to the camera, and whether the scene
//! goes on.

use crate::camera::{yaw_turn_fits, Camera, CameraView, Movement};
use vstd::prelude::*;

verus! {

/// An input event of a frame, as far as the scene cares.
#[derive(Clone, Copy, Debug, PartialEq, Eq, Structural)]
pub enum FrameEvent {
    /// The window was asked to close.
    Quit,
    /// The mouse wheel turned by this many steps.
    MouseWheel(i32),
}

/// The keys held down at the end of a frame.
#[derive(Clone, Copy, Debug, PartialEq, Eq, Structural)]
pub struct Keys {
    pub escape: bool,
    pub forward: bool,
    pub backward: bool,
    pub left: bool,
    pub right: bool,
}

/// The camera after the events of a frame, in order, up to the first `Quit`:
/// each wheel turn zooms.
pub open spec fn after_events(start: CameraView, events: Seq<FrameEvent>) -> CameraView
    decreases events.len(),
{
    if events.len() == 0 {
        start
    } else {
        match events[0] {
            FrameEvent::Quit => start,
            FrameEvent::MouseWheel(y) => after_events(start.zoomed(y as int), events.drop_first()),
        }
    }
}

pub open spec fn has_quit(events: Seq<FrameEvent>) -> bool {
    exists|i: int| 0 <= i < events.len() && events[i] == FrameEvent::Quit
}

/// The movements that the held keys ask for, in the order forward, backward,
/// left, right.
pub open spec fn movements_for(keys: Keys) -> Seq<Movement> {
    (if keys.forward { seq![Movement::Forward] } else { Seq::empty() })
        + (if keys.backward { seq![Movement::Backward] } else { Seq::empty() })
        + (if keys.left { seq![Movement::Left] } else { Seq::empty() })
        + (if keys.right { seq![Movement::Right] } else { Seq::empty() })
}

proof fn lemma_after_events_step(start: CameraView, events: Seq<FrameEvent>, i: int)
    requires
        0 <= i < events.len(),
        events[i] is MouseWheel,
        forall|j: int| 0 <= j < i ==> events[j] != FrameEvent::Quit,
    ensures
        after_events(start, events) == after_events(
            after_events(start, events.take(i)).zoomed(events[i]->MouseWheel_0 as int),
            events.skip(i + 1),
        ),
    decreases i,
{
    if i > 0 {
        let rest = events.drop_first();
        assert(rest.skip(i) =~= events.skip(i + 1));
        assert(events.take(i).drop_first() =~= rest.take(i - 1));
        assert forall|j: int| 0 <= j < i - 1 implies rest[j] != FrameEvent::Quit by {
            assert(rest[j] == events[j + 1]);
        }
        match events[0] {
            FrameEvent::Quit => {},
            FrameEvent::MouseWheel(y) => {
                lemma_after_events_step(start.zoomed(y as int), rest, i - 1);
            },
        }
    } else {
        assert(events.skip(1) =~= events.drop_first());
    }
}

proof fn lemma_after_events_quit(start: CameraView, events: Seq<FrameEvent>, i: int)
    requires
        0 <= i < events.len(),
        events[i] == FrameEvent::Quit,
        forall|j: int| 0 <= j < i ==> events[j] != FrameEvent::Quit,
    ensures
        after_events(start, events) == after_events(start, events.take(i)),
    decreases i,
{
    if i > 0 {
        let rest = events.drop_first();
        assert(events.take(i).drop_first() =~= rest.take(i - 1));
        assert forall|j: int| 0 <= j < i - 1 implies rest[j] != FrameEvent::Quit by {
            assert(rest[j] == events[j + 1]);
        }
        match events[0] {
            FrameEvent::Quit => {},
            FrameEvent::MouseWheel(y) => {
                lemma_after_events_quit(start.zoomed(y as int), rest, i - 1);
            },
        }
    }
}

/// Applies one frame of input to `camera`; the yaw that the mouse motion
/// gives must fit in an `i128` (see `Camera::can_turn`). The events zoom, in order, until a
/// `Quit`; then, unless one came, the mouse motion turns the camera. The
/// result is `None` when the scene should end (a `Quit` event, or escape
/// held), else the movements that the held keys ask for.
pub fn step_frame(camera: &mut Camera, events: &Vec<FrameEvent>, mouse_dx: i32, mouse_dy: i32, keys: Keys)
    -> (r: Option<Vec<Movement>>)
    requires
        old(camera)@.wf(),
        yaw_turn_fits(old(camera)@, mouse_dx as int),
    ensures
        final(camera)@.wf(),
        has_quit(events@) ==> r is None && final(camera)@ == after_events(old(camera)@, events@),
        !has_quit(events@) ==> final(camera)@ == after_events(old(camera)@, events@).rotated(
            mouse_dx as int,
            mouse_dy as int,
        ),
        !has_quit(events@) && keys.escape ==> r is None,
        !has_quit(events@) && !keys.escape ==> (r matches Some(moves) && moves@ == movements_for(keys)),
{
    let ghost start = camera@;
    let mut i: usize = 0;
    while i < events.len()
        invariant
            i <= events@.len(),
            camera@.wf(),
            start == old(camera)@,
            start.wf(),
            camera@.yaw == start.yaw,
            yaw_turn_fits(start, mouse_dx as int),
            forall|j: int| 0 <= j < i ==> events@[j] != FrameEvent::Quit,
            camera@ == after_events(start, events@.take(i as int)),
        decreases events@.len() - i,
    {
        match events[i] {
            FrameEvent::Quit => {
                proof {
                    lemma_after_events_quit(start, events@, i as int);
                }
                return None;
            },
            FrameEvent::MouseWheel(y) => {
                proof {
                    lemma_after_events_step(start, events@.take(i as int + 1), i as int);
                    assert(events@.take(i as int + 1).take(i as int) =~= events@.take(i as int));
                    assert(events@.take(i as int + 1).skip(i as int + 1) =~= Seq::<FrameEvent>::empty());
                }
                camera.adjust_zoom(y);
            },
        }
        i = i + 1;
    }
    assert(events@.take(i as int) =~= events@);
    camera.rotate(mouse_dx, mouse_dy);
    if keys.escape {
        return None;
    }
    let mut moves: Vec<Movement> = Vec::new();
    if keys.forward {
        moves.push(Movement::Forward);
    }
    if keys.backward {
        moves.push(Movement::Backward);
    }
    if keys.left {
        moves.push(Movement::Left);
    }
    if keys.right {
        moves.push(Movement::Right);
    }
    assert(moves@ =~= movements_for(keys));
    Some(moves)
}

} // verus!
