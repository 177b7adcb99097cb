//! Touchpad gestures: a swipe with three fingers switches workspaces, the rest is forwarded.

use vstd::prelude::*;

use crate::effect::{Effect, EffectView, LayoutOp, OutputId, PointerOp, ScreenOp};
use crate::event::{Gesture, Vector};
use crate::step::{
    both, done, emit, finish, just_wait, no_effects, only, push_if, waits, Step, StepView, Wait,
};

verus! {

/// How a step of a gesture begins.
///
/// A swipe that began with three fingers belongs to the compositor. Of later steps of a swipe the
/// layout knows whether they do. All else goes to the client: updates as they are, the other
/// steps with a serial.
pub open spec fn gesture_begun(gesture: Gesture) -> StepView {
    match gesture {
        Gesture::SwipeBegin { fingers, .. } => if fingers == 3 {
            waits(seq![], Wait::SwipeOutput)
        } else {
            waits(seq![], Wait::GestureSerial(gesture))
        },
        Gesture::SwipeUpdate { delta, time_msec } => waits(
            seq![],
            Wait::SwipeUpdate { delta, time_msec },
        ),
        Gesture::SwipeEnd { cancelled, time_msec } => waits(
            seq![],
            Wait::SwipeEnd { cancelled, time_msec },
        ),
        Gesture::PinchUpdate { .. } => waits(seq![], Wait::GestureFocus { gesture, serial: None }),
        _ => waits(seq![], Wait::GestureSerial(gesture)),
    }
}

/// The swipe of workspaces begins on the output under the cursor.
pub open spec fn after_swipe_output(output: Option<OutputId>) -> StepView {
    match output {
        Some(output) => done(
            seq![
                EffectView::Layout(LayoutOp::WorkspaceSwitchGestureBegin(output)),
                EffectView::Screen(ScreenOp::QueueRedrawAll),
            ],
        ),
        None => done(seq![]),
    }
}

/// An update of a swipe that did not move workspaces goes to the client.
pub open spec fn after_swipe_update(
    delta: Vector,
    time_msec: u32,
    swiped: Option<Option<OutputId>>,
) -> StepView {
    match swiped {
        Some(Some(output)) => done(seq![EffectView::Screen(ScreenOp::QueueRedraw(output))]),
        Some(None) => done(seq![]),
        None => waits(
            seq![],
            Wait::GestureFocus { gesture: Gesture::SwipeUpdate { delta, time_msec }, serial: None },
        ),
    }
}

/// The end of a swipe that did not move workspaces goes to the client.
pub open spec fn after_swipe_end(
    cancelled: bool,
    time_msec: u32,
    output: Option<OutputId>,
) -> StepView {
    match output {
        Some(output) => done(seq![EffectView::Screen(ScreenOp::QueueRedraw(output))]),
        None => waits(
            seq![],
            Wait::GestureSerial(Gesture::SwipeEnd { cancelled, time_msec }),
        ),
    }
}

/// The step goes to the client, after a frame if what the pointer is over changed.
pub open spec fn forwarded(
    gesture: Gesture,
    serial: Option<u32>,
    focus_changed: bool,
) -> Seq<EffectView> {
    push_if(seq![], focus_changed, EffectView::Pointer(PointerOp::Frame)).push(
        EffectView::Pointer(PointerOp::Gesture { gesture, serial }),
    )
}

pub(crate) fn begin_gesture(gesture: Gesture) -> (res: Step)
    ensures
        res@ == gesture_begun(gesture),
{
    match gesture {
        Gesture::SwipeBegin { fingers, .. } => if fingers == 3 {
            just_wait(Wait::SwipeOutput)
        } else {
            just_wait(Wait::GestureSerial(gesture))
        },
        Gesture::SwipeUpdate { delta, time_msec } => just_wait(
            Wait::SwipeUpdate { delta, time_msec },
        ),
        Gesture::SwipeEnd { cancelled, time_msec } => just_wait(
            Wait::SwipeEnd { cancelled, time_msec },
        ),
        Gesture::PinchUpdate { .. } => just_wait(Wait::GestureFocus { gesture, serial: None }),
        _ => just_wait(Wait::GestureSerial(gesture)),
    }
}

pub(crate) fn go_swipe_output(output: Option<OutputId>) -> (res: Step)
    ensures
        res@ == after_swipe_output(output),
{
    match output {
        Some(output) => finish(
            // This can cancel a gesture on multiple other outputs in theory.
            both(
                Effect::Layout(LayoutOp::WorkspaceSwitchGestureBegin(output)),
                Effect::Screen(ScreenOp::QueueRedrawAll),
            ),
        ),
        None => finish(no_effects()),
    }
}

pub(crate) fn go_swipe_update(
    delta: Vector,
    time_msec: u32,
    swiped: Option<Option<OutputId>>,
) -> (res: Step)
    ensures
        res@ == after_swipe_update(delta, time_msec, swiped),
{
    match swiped {
        Some(Some(output)) => finish(only(Effect::Screen(ScreenOp::QueueRedraw(output)))),
        Some(None) => finish(no_effects()),
        None => just_wait(
            Wait::GestureFocus { gesture: Gesture::SwipeUpdate { delta, time_msec }, serial: None },
        ),
    }
}

pub(crate) fn go_swipe_end(
    cancelled: bool,
    time_msec: u32,
    output: Option<OutputId>,
) -> (res: Step)
    ensures
        res@ == after_swipe_end(cancelled, time_msec, output),
{
    match output {
        Some(output) => finish(only(Effect::Screen(ScreenOp::QueueRedraw(output)))),
        None => just_wait(Wait::GestureSerial(Gesture::SwipeEnd { cancelled, time_msec })),
    }
}

pub(crate) fn go_gesture_focus(
    gesture: Gesture,
    serial: Option<u32>,
    focus_changed: bool,
) -> (res: Step)
    ensures
        res@ == done(forwarded(gesture, serial, focus_changed)),
{
    let mut effects = no_effects();
    if focus_changed {
        emit(&mut effects, Effect::Pointer(PointerOp::Frame));
    }
    emit(&mut effects, Effect::Pointer(PointerOp::Gesture { gesture, serial }));
    finish(effects)
}

} // verus!
