//! Where the pointer goes, and what the clients are told of it.

use vstd::prelude::*;

use crate::axis::{axis_frame_of, AxisPart, AxisValue};
use crate::config::Real;
use crate::effect::{EffectView, LayoutOp, OutputId, PointerOp, ScreenOp, WindowId};
use crate::event::{AxisEvent, AxisMotion, AxisSource, ButtonEvent, InputEvent, MotionEvent};
use crate::geometry::{Bounds, Location, Rectangle};
use crate::laws::{lemma_outcome, outcome};
use crate::script::World;

verus! {

/// The bounds hold the points of the rectangle and no others.
pub open spec fn encloses(bounds: Bounds, geometry: Rectangle) -> bool {
    &&& bounds.x_min == geometry.loc.x
    &&& bounds.y_min == geometry.loc.y
    &&& bounds.x_max == geometry.loc.x + geometry.size.w - 1
    &&& bounds.y_max == geometry.loc.y + geometry.size.h - 1
}

/// A motion ends at this place: where it leads, if an output is there; else as near to that as
/// the output lets it on which it began; else, if it began on no output, in the center of the
/// first one.
pub open spec fn ends_at(motion: MotionEvent, location: Location, world: World) -> bool {
    let target = (world.output_under)(Location::Moved { delta: motion.delta });
    let origin = (world.output_under)(Location::Current);
    &&& world.first_output is Some
    &&& match location {
        Location::Moved { delta } => target is Some && delta == motion.delta,
        Location::MovedWithin { delta, bounds } => {
            &&& target is None
            &&& origin is Some
            &&& delta == motion.delta
            &&& encloses(bounds, (world.geometry)(origin->0))
        },
        Location::CenterOf(geometry) => {
            &&& target is None
            &&& origin is None
            &&& world.fallback_output is Some
            &&& geometry == (world.geometry)(world.fallback_output->0)
        },
        _ => false,
    }
}

/// Wherever a motion ends, what the compositor reports to be there gets the focus, the motion and
/// the relative motion. They carry the place, the serial, the times and both distances of the
/// motion. Then the group ends, and everything is drawn anew.
pub proof fn motion_reaches_what_is_under_it(
    motion: MotionEvent,
    location: Location,
    world: World,
)
    requires
        ends_at(motion, location, world),
    ensures
        outcome(InputEvent::PointerMotion(motion), world) == seq![
            EffectView::Pointer(PointerOp::SetFocus((world.surface_under)(location))),
            EffectView::Pointer(
                PointerOp::Motion {
                    under: (world.surface_under)(location),
                    location,
                    serial: world.serial,
                    time_msec: motion.time_msec,
                },
            ),
            EffectView::Pointer(
                PointerOp::RelativeMotion {
                    under: (world.surface_under)(location),
                    delta: motion.delta,
                    delta_unaccel: motion.delta_unaccel,
                    time_usec: motion.time_usec,
                },
            ),
            EffectView::Pointer(PointerOp::Frame),
            EffectView::Screen(ScreenOp::QueueRedrawAll),
        ],
{
    lemma_outcome(InputEvent::PointerMotion(motion), world);
    if let Location::MovedWithin { bounds, .. } = location {
        let origin = (world.output_under)(Location::Current)->0;
        assert(bounds == (world.geometry)(origin).limits());
    }
}

/// A motion has no effect exactly when there is no output, or when there is none where it leads,
/// none where it began, and no first one any more.
pub proof fn motion_without_output(motion: MotionEvent, world: World)
    ensures
        outcome(InputEvent::PointerMotion(motion), world).len() == 0 <==> {
            ||| world.first_output is None
            ||| {
                &&& (world.output_under)(Location::Moved { delta: motion.delta }) is None
                &&& (world.output_under)(Location::Current) is None
                &&& world.fallback_output is None
            }
        },
{
    lemma_outcome(InputEvent::PointerMotion(motion), world);
}

/// Two motions by the same distance have the same effects up to the times and the unaccelerated
/// distance, which are reported as they are.
pub proof fn distance_decides_where_motion_ends(a: MotionEvent, b: MotionEvent, world: World)
    requires
        a.delta == b.delta,
    ensures
        outcome(InputEvent::PointerMotion(a), world).len() == outcome(
            InputEvent::PointerMotion(b),
            world,
        ).len(),
        a.time_msec == b.time_msec && a.time_usec == b.time_usec && a.delta_unaccel
            == b.delta_unaccel ==> outcome(InputEvent::PointerMotion(a), world) == outcome(
            InputEvent::PointerMotion(b),
            world,
        ),
{
    lemma_outcome(InputEvent::PointerMotion(a), world);
    lemma_outcome(InputEvent::PointerMotion(b), world);
}

/// A position is taken on the first output. What the compositor reports to be there gets the
/// focus and the motion; there is no relative motion. Without an output nothing happens.
pub proof fn position_reaches_what_is_under_it(time_msec: u32, output: OutputId, world: World)
    ensures
        world.first_output is None ==> outcome(
            InputEvent::PointerMotionAbsolute { time_msec },
            world,
        ).len() == 0,
        world.first_output == Some(output) ==> outcome(
            InputEvent::PointerMotionAbsolute { time_msec },
            world,
        ) == ({
            let location = Location::EventOn((world.geometry)(output));
            let under = (world.surface_under)(location);
            seq![
                EffectView::Pointer(PointerOp::SetFocus(under)),
                EffectView::Pointer(
                    PointerOp::Motion { under, location, serial: world.serial, time_msec },
                ),
                EffectView::Pointer(PointerOp::Frame),
                EffectView::Screen(ScreenOp::QueueRedrawAll),
            ]
        }),
{
    lemma_outcome(InputEvent::PointerMotionAbsolute { time_msec }, world);
}

/// Whatever a button does besides, its last three effects hand it on to the client as it is: the
/// focus is brought up to date, the button comes with its number, state and time and the serial,
/// and the group ends.
pub proof fn button_is_handed_on(button: ButtonEvent, world: World)
    ensures
        ({
            let effects = outcome(InputEvent::PointerButton(button), world);
            let at = effects.len() - 3;
            &&& at >= 0
            &&& effects[at] == EffectView::Pointer(PointerOp::UpdateFocus)
            &&& effects[at + 1] == EffectView::Pointer(
                PointerOp::Button {
                    button: button.button,
                    state: button.state,
                    serial: world.serial,
                    time_msec: button.time_msec,
                },
            )
            &&& effects[at + 2] == EffectView::Pointer(PointerOp::Frame)
        }),
{
    lemma_outcome(InputEvent::PointerButton(button), world);
}

/// Before it is handed on, a button that is pressed while nobody holds a grab activates the
/// window under the cursor, or, without one, the output under the cursor. Any other button
/// activates nothing.
pub proof fn press_activates_what_is_under_cursor(
    button: ButtonEvent,
    world: World,
    window: WindowId,
    output: OutputId,
)
    ensures
        ({
            let effects = outcome(InputEvent::PointerButton(button), world);
            let activates = button.state is Pressed && !world.pointer_grabbed;
            &&& activates && world.window_under_cursor == Some(window) ==> effects.len() == 4
                && effects[0] == EffectView::Layout(LayoutOp::ActivateWindow(window))
            &&& activates && world.window_under_cursor is None && world.output_under_cursor
                == Some(output) ==> effects.len() == 4 && effects[0] == EffectView::Layout(
                LayoutOp::ActivateOutput(output),
            )
            &&& activates && world.window_under_cursor is None
                && world.output_under_cursor is None ==> effects.len() == 3
            &&& !activates ==> effects.len() == 3
        }),
{
    lemma_outcome(InputEvent::PointerButton(button), world);
}

/// A number is zero if nothing but its sign bit is set.
pub open spec fn is_nil(number: Real) -> bool {
    number.bits % 0x8000_0000_0000_0000 == 0
}

/// Nothing but positive and negative zero is zero.
pub proof fn zero_up_to_sign(number: Real)
    ensures
        number.zero() <==> is_nil(number),
{
}

/// The distance of a scroll is the amount in pixels if it is given, else it is got from the
/// steps.
pub open spec fn distance(motion: AxisMotion) -> Option<Real> {
    if motion.amount is Some {
        motion.amount
    } else {
        motion.amount_discrete
    }
}

/// What a client is told of one axis, told from the motion of that axis and the source alone.
///
/// There is a value if and only if the distance is given and not zero. The value is the amount
/// itself, or three times the steps. The steps go with it wherever they are known. There is a stop
/// if and only if a finger reports an amount of zero.
pub open spec fn tells(part: AxisPart, source: AxisSource, motion: AxisMotion) -> bool {
    &&& part.step is Some <==> distance(motion) is Some && !is_nil(distance(motion)->0)
    &&& part.step matches Some(step) ==> {
        &&& step.discrete == motion.amount_discrete
        &&& motion.amount is Some ==> step.value == AxisValue::Amount(motion.amount->0)
        &&& motion.amount is None ==> step.value == AxisValue::TripleOf(
            motion.amount_discrete->0,
        )
    }
    &&& part.stop <==> source is Finger && motion.amount is Some && is_nil(motion.amount->0)
}

/// Each axis is told about as it moved, whatever the other one did. The time and the source are
/// those of the event.
pub proof fn axes_are_told_as_they_moved(event: AxisEvent)
    ensures
        tells(axis_frame_of(event).horizontal, event.source, event.horizontal),
        tells(axis_frame_of(event).vertical, event.source, event.vertical),
        axis_frame_of(event).time_msec == event.time_msec,
        axis_frame_of(event).source == event.source,
{
}

/// What is told of an axis depends on the source and on that axis alone.
pub proof fn axes_are_independent(a: AxisEvent, b: AxisEvent)
    requires
        a.source == b.source,
    ensures
        a.horizontal == b.horizontal ==> axis_frame_of(a).horizontal == axis_frame_of(
            b,
        ).horizontal,
        a.vertical == b.vertical ==> axis_frame_of(a).vertical == axis_frame_of(b).vertical,
{
}

/// The two axes are treated alike: turning a scroll by a right angle turns what is told of it.
pub proof fn axes_are_alike(event: AxisEvent)
    ensures
        ({
            let turned = AxisEvent {
                horizontal: event.vertical,
                vertical: event.horizontal,
                ..event
            };
            &&& axis_frame_of(turned).horizontal == axis_frame_of(event).vertical
            &&& axis_frame_of(turned).vertical == axis_frame_of(event).horizontal
        }),
{
}

/// Of a scroll the client under the pointer is told: the focus is brought up to date, then comes
/// one frame that tells of both axes, then the group ends.
pub proof fn scroll_is_told(event: AxisEvent, world: World)
    ensures
        ({
            let effects = outcome(InputEvent::PointerAxis(event), world);
            &&& effects.len() == 3
            &&& effects[0] == EffectView::Pointer(PointerOp::UpdateFocus)
            &&& effects[1] matches EffectView::Pointer(PointerOp::Axis(frame)) && {
                &&& frame.time_msec == event.time_msec
                &&& frame.source == event.source
                &&& tells(frame.horizontal, event.source, event.horizontal)
                &&& tells(frame.vertical, event.source, event.vertical)
            }
            &&& effects[2] == EffectView::Pointer(PointerOp::Frame)
        }),
{
    lemma_outcome(InputEvent::PointerAxis(event), world);
}

/// A rectangle can be clipped to exactly when it holds a point and the sum of its place and its
/// size is representable. Then the limits enclose its points.
pub proof fn limits_enclose_points(geometry: Rectangle)
    ensures
        geometry.has_bounds() <==> {
            &&& geometry.size.w > 0
            &&& geometry.size.h > 0
            &&& geometry.loc.x + geometry.size.w <= 0x7FFF_FFFF
            &&& geometry.loc.y + geometry.size.h <= 0x7FFF_FFFF
        },
        geometry.has_bounds() ==> encloses(geometry.limits(), geometry),
{
}

} // verus!
