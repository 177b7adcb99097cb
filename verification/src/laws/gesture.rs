//! Who gets a gesture.

use vstd::prelude::*;

use crate::effect::{EffectView, LayoutOp, OutputId, PointerOp, ScreenOp};
use crate::event::{Gesture, InputEvent};
use crate::laws::{kept, lemma_outcome, outcome};
use crate::script::World;

verus! {

/// A swipe that begins with three fingers, and no other, begins to switch the workspaces of the
/// output under the cursor, if there is one.
pub proof fn three_fingers_switch_workspaces(
    fingers: u32,
    time_msec: u32,
    world: World,
    output: OutputId,
)
    ensures
        ({
            let effects = outcome(
                InputEvent::Gesture(Gesture::SwipeBegin { fingers, time_msec }),
                world,
            );
            let begin = EffectView::Layout(LayoutOp::WorkspaceSwitchGestureBegin(output));
            &&& effects.contains(begin) <==> fingers == 3 && world.output_under_cursor == Some(
                output,
            )
            &&& effects.contains(begin) ==> effects == seq![
                begin,
                EffectView::Screen(ScreenOp::QueueRedrawAll),
            ]
            &&& fingers == 3 && world.output_under_cursor is None ==> effects.len() == 0
        }),
{
    let event = InputEvent::Gesture(Gesture::SwipeBegin { fingers, time_msec });
    lemma_outcome(event, world);
    let begin = EffectView::Layout(LayoutOp::WorkspaceSwitchGestureBegin(output));
    if fingers == 3 && world.output_under_cursor == Some(output) {
        assert(outcome(event, world)[0] == begin);
        assert(outcome(event, world) =~= seq![
            begin,
            EffectView::Screen(ScreenOp::QueueRedrawAll),
        ]);
    }
}

/// While workspaces are being swiped, a swipe that goes on or ends has one effect: the output on
/// which they are swiped is drawn anew, if there is something to draw.
pub proof fn swiped_output_is_redrawn(gesture: Gesture, world: World, output: OutputId)
    requires
        kept(gesture, world),
        gesture is SwipeUpdate || gesture is SwipeEnd,
    ensures
        ({
            let effects = outcome(InputEvent::Gesture(gesture), world);
            let redrawn = match gesture {
                Gesture::SwipeUpdate { delta, .. } => (world.swipe_update)(delta.y)->0,
                Gesture::SwipeEnd { cancelled, .. } => (world.swipe_end)(cancelled),
                _ => None,
            };
            &&& redrawn is None ==> effects.len() == 0
            &&& redrawn == Some(output) ==> effects.len() == 1 && effects[0]
                == EffectView::Screen(ScreenOp::QueueRedraw(output))
        }),
{
    lemma_outcome(InputEvent::Gesture(gesture), world);
}

/// A step of a gesture that the compositor does not keep goes to the client unchanged. Updates go
/// without a serial, all other steps with one. A group is ended before it exactly when the focus
/// of the pointer has changed.
pub proof fn other_steps_go_to_client(gesture: Gesture, world: World)
    requires
        match gesture {
            Gesture::SwipeBegin { fingers, .. } => fingers != 3,
            Gesture::SwipeUpdate { delta, .. } => (world.swipe_update)(delta.y) is None,
            Gesture::SwipeEnd { cancelled, .. } => (world.swipe_end)(cancelled) is None,
            _ => true,
        },
    ensures
        ({
            let effects = outcome(InputEvent::Gesture(gesture), world);
            let update = gesture is SwipeUpdate || gesture is PinchUpdate;
            &&& effects.len() > 0
            &&& effects.last() matches EffectView::Pointer(
                PointerOp::Gesture { gesture: step, serial },
            ) && step == gesture && (update ==> serial is None) && (!update ==> serial == Some(
                world.serial,
            ))
            &&& world.focus_changed ==> effects.len() == 2 && effects[0] == EffectView::Pointer(
                PointerOp::Frame,
            )
            &&& !world.focus_changed ==> effects.len() == 1
        }),
{
    lemma_outcome(InputEvent::Gesture(gesture), world);
}

} // verus!
