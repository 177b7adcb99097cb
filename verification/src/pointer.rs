//! Moving the pointer, and clicking with it.

use vstd::prelude::*;

use crate::effect::{
    effects_view, Effect, EffectView, LayoutOp, OutputId, PointerOp, ScreenOp, SurfaceId, WindowId,
};
use crate::event::{ButtonEvent, ButtonState, MotionEvent};
use crate::geometry::{Location, Rectangle};
use crate::step::{
    done, emit, finish, just_wait, no_effects, wait_at, waits, Click, Placement, Pointing, Step,
    StepView, Wait,
};

verus! {

/// A motion needs an output to be on.
pub open spec fn after_motion_output(motion: MotionEvent, first: Option<OutputId>) -> StepView {
    match first {
        Some(_) => waits(seq![], Wait::MotionSerial(motion)),
        None => done(seq![]),
    }
}

/// A motion that ends on an output is as it is; for any other it matters where it began.
pub open spec fn after_motion_target(
    motion: MotionEvent,
    serial: u32,
    target: Option<OutputId>,
) -> StepView {
    match target {
        Some(_) => waits(
            seq![],
            Wait::PlaceSurface {
                placement: Placement::Relative(motion),
                location: Location::Moved { delta: motion.delta },
                serial,
            },
        ),
        None => waits(seq![], Wait::MotionOrigin { motion, serial }),
    }
}

/// A motion off the outputs is clipped to the output on which it began. A pointer that was on
/// none goes to the first output.
pub open spec fn after_motion_origin(
    motion: MotionEvent,
    serial: u32,
    origin: Option<OutputId>,
) -> StepView {
    match origin {
        Some(output) => waits(seq![], Wait::MotionClip { motion, serial, output }),
        None => waits(seq![], Wait::MotionFallback { motion, serial }),
    }
}

/// The motion is clipped to the boundaries of an output.
pub open spec fn after_motion_clip(
    motion: MotionEvent,
    serial: u32,
    geometry: Rectangle,
) -> StepView {
    waits(
        seq![],
        Wait::PlaceSurface {
            placement: Placement::Relative(motion),
            location: Location::MovedWithin { delta: motion.delta, bounds: geometry.limits() },
            serial,
        },
    )
}

/// The pointer goes to the first output.
pub open spec fn after_motion_fallback(
    motion: MotionEvent,
    serial: u32,
    first: Option<OutputId>,
) -> StepView {
    match first {
        Some(output) => waits(seq![], Wait::MotionCenter { motion, serial, output }),
        None => done(seq![]),
    }
}

/// The pointer goes to the center of an output.
pub open spec fn after_motion_center(
    motion: MotionEvent,
    serial: u32,
    geometry: Rectangle,
) -> StepView {
    waits(
        seq![],
        Wait::PlaceSurface {
            placement: Placement::Relative(motion),
            location: Location::CenterOf(geometry),
            serial,
        },
    )
}

/// A position needs an output to be on.
pub open spec fn after_point_output(pointing: Pointing, output: Option<OutputId>) -> StepView {
    match output {
        Some(output) => waits(seq![], Wait::PointGeometry { pointing, output }),
        None => done(seq![]),
    }
}

/// The time of a placement.
pub open spec fn placement_time(placement: Placement) -> u32 {
    match placement {
        Placement::Relative(motion) => motion.time_msec,
        Placement::OnOutput(Pointing::Absolute { time_msec }) => time_msec,
        Placement::OnOutput(Pointing::ToolAxis(axis)) => axis.time_msec,
        Placement::OnOutput(Pointing::ToolProximity(proximity)) => proximity.time_msec,
    }
}

/// The effects of putting the pointer somewhere.
///
/// Only a relative motion is also reported as such. The cursor is drawn anew at once, but for
/// tablet tools, with which there may be more to do.
pub open spec fn placed(
    placement: Placement,
    location: Location,
    serial: u32,
    under: Option<SurfaceId>,
) -> Seq<EffectView> {
    let moved = seq![
        EffectView::Pointer(PointerOp::SetFocus(under)),
        EffectView::Pointer(
            PointerOp::Motion { under, location, serial, time_msec: placement_time(placement) },
        ),
    ];
    match placement {
        Placement::Relative(motion) => moved + seq![
            EffectView::Pointer(
                PointerOp::RelativeMotion {
                    under,
                    delta: motion.delta,
                    delta_unaccel: motion.delta_unaccel,
                    time_usec: motion.time_usec,
                },
            ),
            EffectView::Pointer(PointerOp::Frame),
            EffectView::Screen(ScreenOp::QueueRedrawAll),
        ],
        Placement::OnOutput(Pointing::Absolute { .. }) => moved + seq![
            EffectView::Pointer(PointerOp::Frame),
            EffectView::Screen(ScreenOp::QueueRedrawAll),
        ],
        Placement::OnOutput(_) => moved + seq![EffectView::Pointer(PointerOp::Frame)],
    }
}

/// The pointer is put somewhere; then it is the turn of the tablet tool that did it, if one did.
pub open spec fn after_place_surface(
    placement: Placement,
    location: Location,
    serial: u32,
    under: Option<SurfaceId>,
) -> StepView {
    let effects = placed(placement, location, serial, under);
    match placement {
        Placement::OnOutput(Pointing::ToolAxis(axis)) => waits(
            effects,
            Wait::AxisTablet { axis, location, under },
        ),
        Placement::OnOutput(Pointing::ToolProximity(proximity)) => waits(
            effects,
            Wait::ProximityTool { proximity, location, under },
        ),
        _ => done(effects),
    }
}

/// The effects of handing a click on to the client, if there was one.
pub open spec fn clicked(click: Option<Click>) -> Seq<EffectView> {
    match click {
        Some(click) => seq![
            EffectView::Pointer(PointerOp::UpdateFocus),
            EffectView::Pointer(
                PointerOp::Button {
                    button: click.button.button,
                    state: click.button.state,
                    serial: click.serial,
                    time_msec: click.button.time_msec,
                },
            ),
            EffectView::Pointer(PointerOp::Frame),
        ],
        None => seq![],
    }
}

/// Pressing a button may activate something; releasing it does not.
pub open spec fn after_button_serial(button: ButtonEvent, serial: u32) -> StepView {
    let click = Some(Click { button, serial });
    match button.state {
        ButtonState::Pressed => waits(seq![], Wait::ActivateGrab(click)),
        ButtonState::Released => done(clicked(click)),
    }
}

/// Nothing is activated while the pointer is grabbed.
pub open spec fn after_grab(click: Option<Click>, grabbed: bool) -> StepView {
    if grabbed {
        done(clicked(click))
    } else {
        waits(seq![], Wait::ActivateWindow(click))
    }
}

/// The window under the cursor is activated.
pub open spec fn after_window(click: Option<Click>, window: Option<WindowId>) -> StepView {
    match window {
        Some(window) => done(
            seq![EffectView::Layout(LayoutOp::ActivateWindow(window))] + clicked(click),
        ),
        None => waits(seq![], Wait::ActivateOutput(click)),
    }
}

/// Where there is no window, the output under the cursor is activated.
pub open spec fn after_output(click: Option<Click>, output: Option<OutputId>) -> StepView {
    match output {
        Some(output) => done(
            seq![EffectView::Layout(LayoutOp::ActivateOutput(output))] + clicked(click),
        ),
        None => done(clicked(click)),
    }
}

pub(crate) fn go_motion_output(motion: MotionEvent, first: Option<OutputId>) -> (res: Step)
    ensures
        res@ == after_motion_output(motion, first),
{
    match first {
        Some(_) => just_wait(Wait::MotionSerial(motion)),
        None => finish(no_effects()),
    }
}

pub(crate) fn go_motion_target(
    motion: MotionEvent,
    serial: u32,
    target: Option<OutputId>,
) -> (res: Step)
    ensures
        res@ == after_motion_target(motion, serial, target),
{
    match target {
        Some(_) => just_wait(
            Wait::PlaceSurface {
                placement: Placement::Relative(motion),
                location: Location::Moved { delta: motion.delta },
                serial,
            },
        ),
        None => just_wait(Wait::MotionOrigin { motion, serial }),
    }
}

pub(crate) fn go_motion_origin(
    motion: MotionEvent,
    serial: u32,
    origin: Option<OutputId>,
) -> (res: Step)
    ensures
        res@ == after_motion_origin(motion, serial, origin),
{
    match origin {
        Some(output) => just_wait(Wait::MotionClip { motion, serial, output }),
        None => just_wait(Wait::MotionFallback { motion, serial }),
    }
}

pub(crate) fn go_motion_clip(motion: MotionEvent, serial: u32, geometry: Rectangle) -> (res: Step)
    requires
        geometry.has_bounds(),
    ensures
        res@ == after_motion_clip(motion, serial, geometry),
{
    just_wait(
        Wait::PlaceSurface {
            placement: Placement::Relative(motion),
            location: Location::MovedWithin { delta: motion.delta, bounds: geometry.bounds() },
            serial,
        },
    )
}

pub(crate) fn go_motion_fallback(
    motion: MotionEvent,
    serial: u32,
    first: Option<OutputId>,
) -> (res: Step)
    requires
        first is Some,
    ensures
        res@ == after_motion_fallback(motion, serial, first),
{
    match first {
        Some(output) => just_wait(Wait::MotionCenter { motion, serial, output }),
        None => finish(no_effects()),
    }
}

pub(crate) fn go_motion_center(motion: MotionEvent, serial: u32, geometry: Rectangle) -> (res: Step)
    ensures
        res@ == after_motion_center(motion, serial, geometry),
{
    just_wait(
        Wait::PlaceSurface {
            placement: Placement::Relative(motion),
            location: Location::CenterOf(geometry),
            serial,
        },
    )
}

pub(crate) fn go_point_output(pointing: Pointing, output: Option<OutputId>) -> (res: Step)
    ensures
        res@ == after_point_output(pointing, output),
{
    match output {
        Some(output) => just_wait(Wait::PointGeometry { pointing, output }),
        None => finish(no_effects()),
    }
}

fn time_of(placement: &Placement) -> (res: u32)
    ensures
        res == placement_time(*placement),
{
    match *placement {
        Placement::Relative(motion) => motion.time_msec,
        Placement::OnOutput(Pointing::Absolute { time_msec }) => time_msec,
        Placement::OnOutput(Pointing::ToolAxis(axis)) => axis.time_msec,
        Placement::OnOutput(Pointing::ToolProximity(proximity)) => proximity.time_msec,
    }
}

pub(crate) fn go_place_surface(
    placement: Placement,
    location: Location,
    serial: u32,
    under: Option<SurfaceId>,
) -> (res: Step)
    ensures
        res@ == after_place_surface(placement, location, serial, under),
{
    let mut effects = no_effects();
    let time_msec: u32 = time_of(&placement);
    emit(&mut effects, Effect::Pointer(PointerOp::SetFocus(under)));
    emit(
        &mut effects,
        Effect::Pointer(PointerOp::Motion { under, location, serial, time_msec }),
    );
    if let Placement::Relative(motion) = placement {
        emit(
            &mut effects,
            Effect::Pointer(
                PointerOp::RelativeMotion {
                    under,
                    delta: motion.delta,
                    delta_unaccel: motion.delta_unaccel,
                    time_usec: motion.time_usec,
                },
            ),
        );
    }
    emit(&mut effects, Effect::Pointer(PointerOp::Frame));
    match placement {
        Placement::OnOutput(Pointing::ToolAxis(axis)) => wait_at(
            effects,
            Wait::AxisTablet { axis, location, under },
        ),
        Placement::OnOutput(Pointing::ToolProximity(proximity)) => wait_at(
            effects,
            Wait::ProximityTool { proximity, location, under },
        ),
        _ => {
            // Redraw to update the cursor position.
            emit(&mut effects, Effect::Screen(ScreenOp::QueueRedrawAll));
            finish(effects)
        },
    }
}

/// Hands a click on to the client, if there was one.
fn send_click(effects: Vec<Effect>, click: Option<Click>) -> (res: Step)
    ensures
        res@ == done(effects_view(effects@) + clicked(click)),
{
    let mut effects = effects;
    if let Some(click) = click {
        emit(&mut effects, Effect::Pointer(PointerOp::UpdateFocus));
        emit(
            &mut effects,
            Effect::Pointer(
                PointerOp::Button {
                    button: click.button.button,
                    state: click.button.state,
                    serial: click.serial,
                    time_msec: click.button.time_msec,
                },
            ),
        );
        emit(&mut effects, Effect::Pointer(PointerOp::Frame));
    }
    finish(effects)
}

pub(crate) fn go_button_serial(button: ButtonEvent, serial: u32) -> (res: Step)
    ensures
        res@ == after_button_serial(button, serial),
{
    let click = Some(Click { button, serial });
    match button.state {
        ButtonState::Pressed => just_wait(Wait::ActivateGrab(click)),
        ButtonState::Released => send_click(no_effects(), click),
    }
}

pub(crate) fn go_grab(click: Option<Click>, grabbed: bool) -> (res: Step)
    ensures
        res@ == after_grab(click, grabbed),
{
    if grabbed {
        send_click(no_effects(), click)
    } else {
        just_wait(Wait::ActivateWindow(click))
    }
}

pub(crate) fn go_window(click: Option<Click>, window: Option<WindowId>) -> (res: Step)
    ensures
        res@ == after_window(click, window),
{
    match window {
        Some(window) => {
            let mut effects = no_effects();
            emit(&mut effects, Effect::Layout(LayoutOp::ActivateWindow(window)));
            send_click(effects, click)
        },
        None => just_wait(Wait::ActivateOutput(click)),
    }
}

pub(crate) fn go_output(click: Option<Click>, output: Option<OutputId>) -> (res: Step)
    ensures
        res@ == after_output(click, output),
{
    let mut effects = no_effects();
    if let Some(output) = output {
        emit(&mut effects, Effect::Layout(LayoutOp::ActivateOutput(output)));
    }
    send_click(effects, click)
}

} // verus!
