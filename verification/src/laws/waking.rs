//! What every event begins with.

use vstd::prelude::*;

use crate::effect::{EffectView, SessionOp};
use crate::event::{activates_monitors, InputEvent, KeyState};
use crate::laws::{lemma_outcome, outcome};
use crate::script::{script, World};
use crate::state::opening;

verus! {

/// The user does something with a device: presses a key, uses the pointer or a tablet tool,
/// touches, or begins a gesture.
pub open spec fn is_activity(event: InputEvent) -> bool {
    ||| event matches InputEvent::Keyboard(key) && key.state == KeyState::Pressed
    ||| event is PointerMotion
    ||| event is PointerMotionAbsolute
    ||| event is PointerButton
    ||| event is PointerAxis
    ||| event is TabletToolAxis
    ||| event is TabletToolTip
    ||| event is TabletToolProximity
    ||| event is TabletToolButton
    ||| event is TouchDown
    ||| event is TouchMotion
    ||| event matches InputEvent::Gesture(gesture) && (gesture is SwipeBegin
        || gesture is PinchBegin || gesture is HoldBegin)
}

/// Every event begins with the animations. Activity, and nothing but activity, then powers the
/// monitors on. Nothing else comes before what the event is for.
pub proof fn activity_wakes_monitors(event: InputEvent)
    ensures
        activates_monitors(event) <==> is_activity(event),
        is_activity(event) ==> opening(event) == seq![
            EffectView::Session(SessionOp::AdvanceAnimations),
            EffectView::Session(SessionOp::ActivateMonitors),
        ],
        !is_activity(event) ==> opening(event) == seq![
            EffectView::Session(SessionOp::AdvanceAnimations),
        ],
{
}

/// The effects of an event are those with which it begins, and what comes of it.
pub proof fn beginning_then_outcome(event: InputEvent, world: World)
    ensures
        script(event, world) == opening(event) + outcome(event, world),
{
    lemma_outcome(event, world);
}

/// Touches and events that are peculiar to a backend have no effect beyond the beginning.
pub proof fn touches_do_nothing(event: InputEvent, world: World)
    requires
        event is TouchDown || event is TouchMotion || event is TouchUp || event is TouchCancel
            || event is TouchFrame || event is Special,
    ensures
        outcome(event, world).len() == 0,
{
    lemma_outcome(event, world);
}

} // verus!
