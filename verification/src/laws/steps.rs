//! What one answer brings, at every point at which an event can wait.

use vstd::prelude::*;

use crate::binds::CompositorMod;
use crate::config::{ActionView, Real};
use crate::effect::{
    Direction, EffectView, LayoutOp, OutputId, PointerOp, Query, ReplyView, ScreenOp, SurfaceId,
    TabletId, TabletOp, ToolId, WindowId,
};
use crate::event::{
    Gesture, InputEvent, KeyboardEvent, MotionEvent, ProximityState, ToolAxisEvent,
    ToolButtonEvent, ToolProximityEvent, ToolTipEvent, Vector,
};
use crate::geometry::{Bounds, Location, Rectangle};
use crate::laws::pointer::encloses;
use crate::laws::tablet::{lemma_readings, new_readings, reports, turn};
use crate::state::advance;
use crate::step::{open_query, Click, PendingView, Placement, Pointing, Step, Wait};

verus! {

/// With this answer the event goes on to wait at another point, and nothing happens yet.
pub open spec fn leads_to(wait: Wait, reply: ReplyView, next: Wait) -> bool {
    let step = advance(PendingView::Waiting(wait), reply);
    step.effects.len() == 0 && step.next == PendingView::Waiting(next)
}

/// With this answer the event ends, after these effects.
pub open spec fn ends_with(wait: Wait, reply: ReplyView, effects: Seq<EffectView>) -> bool {
    let step = advance(PendingView::Waiting(wait), reply);
    step.effects =~= effects && step.next is Idle
}

/// What comes of an answer is its effects and the point that the event has then come to.
pub proof fn steps_are_kept(step: Step)
    ensures
        step@.effects.len() == step.effects@.len(),
        forall|i: int|
            0 <= i < step.effects@.len() ==> #[trigger] step@.effects[i] == step.effects@[i]@,
        step@.next == step.next@,
{
}

/// Whatever puts the pointer somewhere, and wherever that is: what is there gets the focus and the
/// motion, with the place, the serial and the time of the event. A relative motion also gets its
/// report. The group ends, and everything is drawn anew, at once unless it was a tool.
pub proof fn surface_gets_focus_and_motion(
    placement: Placement,
    location: Location,
    serial: u32,
    under: Option<SurfaceId>,
)
    ensures
        ({
            let step = advance(
                PendingView::Waiting(Wait::PlaceSurface { placement, location, serial }),
                ReplyView::Surface(under),
            );
            let effects = step.effects;
            &&& effects.len() == match placement {
                Placement::Relative(_) => 5int,
                Placement::OnOutput(pointing) => if pointing is Absolute {
                    4
                } else {
                    3
                },
            }
            &&& effects[0] == EffectView::Pointer(PointerOp::SetFocus(under))
            &&& effects[1] == EffectView::Pointer(
                PointerOp::Motion {
                    under,
                    location,
                    serial,
                    time_msec: match placement {
                        Placement::Relative(motion) => motion.time_msec,
                        Placement::OnOutput(Pointing::Absolute { time_msec }) => time_msec,
                        Placement::OnOutput(Pointing::ToolAxis(axis)) => axis.time_msec,
                        Placement::OnOutput(Pointing::ToolProximity(near)) => near.time_msec,
                    },
                },
            )
            &&& placement matches Placement::Relative(motion) ==> {
                &&& effects[2] == EffectView::Pointer(
                    PointerOp::RelativeMotion {
                        under,
                        delta: motion.delta,
                        delta_unaccel: motion.delta_unaccel,
                        time_usec: motion.time_usec,
                    },
                )
                &&& effects[3] == EffectView::Pointer(PointerOp::Frame)
                &&& effects[4] == EffectView::Screen(ScreenOp::QueueRedrawAll)
                &&& step.next is Idle
            }
            &&& placement matches Placement::OnOutput(pointing) ==> {
                &&& effects[2] == EffectView::Pointer(PointerOp::Frame)
                &&& pointing is Absolute ==> effects[3] == EffectView::Screen(
                    ScreenOp::QueueRedrawAll,
                ) && step.next is Idle
                &&& pointing matches Pointing::ToolAxis(axis) ==> step.next
                    == PendingView::Waiting(Wait::AxisTablet { axis, location, under })
                &&& pointing matches Pointing::ToolProximity(proximity) ==> step.next
                    == PendingView::Waiting(Wait::ProximityTool { proximity, location, under })
            }
        }),
{
}

/// A motion keeps itself and its serial until its place is known.
pub proof fn motion_is_kept(
    motion: MotionEvent,
    serial: u32,
    output: OutputId,
    other: OutputId,
    geometry: Rectangle,
    bounds: Bounds,
)
    ensures
        leads_to(
            Wait::MotionOutput(motion),
            ReplyView::Output(Some(output)),
            Wait::MotionSerial(motion),
        ),
        ends_with(Wait::MotionOutput(motion), ReplyView::Output(None), seq![]),
        leads_to(
            Wait::MotionSerial(motion),
            ReplyView::Serial(serial),
            Wait::MotionTarget { motion, serial },
        ),
        leads_to(
            Wait::MotionTarget { motion, serial },
            ReplyView::Output(Some(output)),
            Wait::PlaceSurface {
                placement: Placement::Relative(motion),
                location: Location::Moved { delta: motion.delta },
                serial,
            },
        ),
        leads_to(
            Wait::MotionTarget { motion, serial },
            ReplyView::Output(None),
            Wait::MotionOrigin { motion, serial },
        ),
        leads_to(
            Wait::MotionOrigin { motion, serial },
            ReplyView::Output(Some(output)),
            Wait::MotionClip { motion, serial, output },
        ),
        leads_to(
            Wait::MotionOrigin { motion, serial },
            ReplyView::Output(None),
            Wait::MotionFallback { motion, serial },
        ),
        encloses(bounds, geometry) ==> leads_to(
            Wait::MotionClip { motion, serial, output: other },
            ReplyView::Geometry(geometry),
            Wait::PlaceSurface {
                placement: Placement::Relative(motion),
                location: Location::MovedWithin { delta: motion.delta, bounds },
                serial,
            },
        ),
        leads_to(
            Wait::MotionFallback { motion, serial },
            ReplyView::Output(Some(output)),
            Wait::MotionCenter { motion, serial, output },
        ),
        leads_to(
            Wait::MotionCenter { motion, serial, output: other },
            ReplyView::Geometry(geometry),
            Wait::PlaceSurface {
                placement: Placement::Relative(motion),
                location: Location::CenterOf(geometry),
                serial,
            },
        ),
{
    if encloses(bounds, geometry) {
        assert(bounds == geometry.limits());
    }
}

/// A position keeps its event until its place on the output is known.
pub proof fn position_is_kept(
    pointing: Pointing,
    output: OutputId,
    other: OutputId,
    geometry: Rectangle,
    serial: u32,
)
    ensures
        leads_to(
            Wait::PointOutput(pointing),
            ReplyView::Output(Some(output)),
            Wait::PointGeometry { pointing, output },
        ),
        ends_with(Wait::PointOutput(pointing), ReplyView::Output(None), seq![]),
        leads_to(
            Wait::PointGeometry { pointing, output: other },
            ReplyView::Geometry(geometry),
            Wait::PointSerial { pointing, geometry },
        ),
        leads_to(
            Wait::PointSerial { pointing, geometry },
            ReplyView::Serial(serial),
            Wait::PlaceSurface {
                placement: Placement::OnOutput(pointing),
                location: Location::EventOn(geometry),
                serial,
            },
        ),
{
}

/// A key keeps itself, the compositor's modifier and its serial until it is handed over. What it
/// is kept for waits for whether the session is locked.
pub proof fn key_is_kept(
    key: KeyboardEvent,
    comp_mod: CompositorMod,
    serial: u32,
    action: Option<ActionView>,
)
    ensures
        leads_to(
            Wait::ModKey(InputEvent::Keyboard(key)),
            ReplyView::ModKey(comp_mod),
            Wait::KeySerial { key, comp_mod },
        ),
        leads_to(
            Wait::KeySerial { key, comp_mod },
            ReplyView::Serial(serial),
            Wait::KeyInput { key, comp_mod, serial },
        ),
        ({
            let step = advance(
                PendingView::Waiting(Wait::KeyInput { key, comp_mod, serial }),
                ReplyView::Intercepted(action),
            );
            step.effects.len() == 0 && step.next == PendingView::Lock(action)
        }),
{
}

/// A tool that was moved: with a known tablet and a known tool the new readings are reported, each
/// once and in their order, and the tool waits to be moved; without one of them everything is drawn
/// anew, and that is all.
pub proof fn found_tool_reports(
    axis: ToolAxisEvent,
    location: Location,
    under: Option<SurfaceId>,
    tablet: Option<TabletId>,
    tool: Option<ToolId>,
)
    ensures
        leads_to(
            Wait::AxisTablet { axis, location, under },
            ReplyView::Tablet(tablet),
            Wait::AxisTool { axis, location, under, tablet },
        ),
        tablet is None || tool is None ==> ends_with(
            Wait::AxisTool { axis, location, under, tablet },
            ReplyView::Tool(tool),
            seq![EffectView::Screen(ScreenOp::QueueRedrawAll)],
        ),
        tablet is Some && tool is Some ==> {
            let step = advance(
                PendingView::Waiting(Wait::AxisTool { axis, location, under, tablet }),
                ReplyView::Tool(tool),
            );
            &&& step.effects.len() == new_readings(axis)
            &&& forall|i: int|
                0 <= i < step.effects.len() ==> reports(axis, tool->0, #[trigger] step.effects[i])
            &&& forall|i: int, j: int|
                0 <= i < j < step.effects.len() ==> turn(#[trigger] step.effects[i]) < turn(
                    #[trigger] step.effects[j],
                )
            &&& step.next == PendingView::Waiting(
                Wait::AxisSerial { axis, location, under, tablet: tablet->0, tool: tool->0 },
            )
        },
{
    if tool is Some {
        lemma_readings(axis, tool->0);
    }
}

/// A tool that was moved is moved over what is there, with all that was found out before.
pub proof fn tool_is_moved(
    axis: ToolAxisEvent,
    location: Location,
    under: Option<SurfaceId>,
    tablet: TabletId,
    tool: ToolId,
    serial: u32,
)
    ensures
        ends_with(
            Wait::AxisSerial { axis, location, under, tablet, tool },
            ReplyView::Serial(serial),
            seq![
                EffectView::Tablet(
                    TabletOp::Motion {
                        tool,
                        tablet,
                        under,
                        location,
                        serial,
                        time_msec: axis.time_msec,
                    },
                ),
                EffectView::Screen(ScreenOp::QueueRedrawAll),
            ],
        ),
{
}

/// A tool that comes or goes: with a surface under it and a known tablet the client is told, at
/// once when it goes, with a serial when it comes. Else nothing happens.
pub proof fn near_tool_is_told(
    proximity: ToolProximityEvent,
    location: Location,
    under: Option<SurfaceId>,
    surface: SurfaceId,
    known: Option<TabletId>,
    tablet: TabletId,
    tool: ToolId,
    serial: u32,
    time_msec: u32,
)
    ensures
        leads_to(
            Wait::ProximityTool { proximity, location, under },
            ReplyView::NewTool(tool),
            Wait::ProximityTablet { proximity, location, under, tool },
        ),
        under is None || known is None ==> ends_with(
            Wait::ProximityTablet { proximity, location, under, tool },
            ReplyView::Tablet(known),
            seq![],
        ),
        proximity.state == ProximityState::In ==> leads_to(
            Wait::ProximityTablet { proximity, location, under: Some(surface), tool },
            ReplyView::Tablet(Some(tablet)),
            Wait::ProximitySerial {
                location,
                under: surface,
                tablet,
                tool,
                time_msec: proximity.time_msec,
            },
        ),
        proximity.state == ProximityState::Out ==> ends_with(
            Wait::ProximityTablet { proximity, location, under: Some(surface), tool },
            ReplyView::Tablet(Some(tablet)),
            seq![
                EffectView::Tablet(
                    TabletOp::ProximityOut { tool, time_msec: proximity.time_msec },
                ),
            ],
        ),
        ends_with(
            Wait::ProximitySerial { location, under: surface, tablet, tool, time_msec },
            ReplyView::Serial(serial),
            seq![
                EffectView::Tablet(
                    TabletOp::ProximityIn {
                        tool,
                        tablet,
                        under: surface,
                        location,
                        serial,
                        time_msec,
                    },
                ),
            ],
        ),
{
}

/// The effects hand a click on to the client, or are none where there is no click.
pub open spec fn hands_on(effects: Seq<EffectView>, click: Option<Click>) -> bool {
    match click {
        None => effects.len() == 0,
        Some(click) => {
            &&& effects.len() == 3
            &&& effects[0] == EffectView::Pointer(PointerOp::UpdateFocus)
            &&& effects[1] == EffectView::Pointer(
                PointerOp::Button {
                    button: click.button.button,
                    state: click.button.state,
                    serial: click.serial,
                    time_msec: click.button.time_msec,
                },
            )
            &&& effects[2] == EffectView::Pointer(PointerOp::Frame)
        },
    }
}

/// The event ends by activating something, if anything, and handing the click on.
pub open spec fn ends_activating(
    wait: Wait,
    reply: ReplyView,
    activated: Option<LayoutOp>,
    click: Option<Click>,
) -> bool {
    let step = advance(PendingView::Waiting(wait), reply);
    &&& step.next is Idle
    &&& activated is None ==> hands_on(step.effects, click)
    &&& activated matches Some(op) ==> {
        &&& step.effects.len() > 0
        &&& step.effects[0] == EffectView::Layout(op)
        &&& hands_on(step.effects.skip(1), click)
    }
}

/// A click activates the window under the cursor, or else the output, and neither under a grab. A
/// click that there is, is handed on once, whatever was activated.
pub proof fn click_is_handed_on_once(
    click: Option<Click>,
    made: Click,
    window: WindowId,
    output: OutputId,
)
    ensures
        made.button.state is Pressed ==> leads_to(
            Wait::ButtonSerial(made.button),
            ReplyView::Serial(made.serial),
            Wait::ActivateGrab(Some(made)),
        ),
        made.button.state is Released ==> ends_activating(
            Wait::ButtonSerial(made.button),
            ReplyView::Serial(made.serial),
            None,
            Some(made),
        ),
        ends_activating(Wait::ActivateGrab(click), ReplyView::Flag(true), None, click),
        leads_to(Wait::ActivateGrab(click), ReplyView::Flag(false), Wait::ActivateWindow(click)),
        ends_activating(
            Wait::ActivateWindow(click),
            ReplyView::Window(Some(window)),
            Some(LayoutOp::ActivateWindow(window)),
            click,
        ),
        leads_to(Wait::ActivateWindow(click), ReplyView::Window(None), Wait::ActivateOutput(click)),
        ends_activating(
            Wait::ActivateOutput(click),
            ReplyView::Output(Some(output)),
            Some(LayoutOp::ActivateOutput(output)),
            click,
        ),
        ends_activating(Wait::ActivateOutput(click), ReplyView::Output(None), None, click),
{
}

/// The tip and the buttons of a tool keep the tool that was found, the time and the button.
pub proof fn tool_is_kept(
    tip: ToolTipEvent,
    button: ToolButtonEvent,
    tool: ToolId,
    time_msec: u32,
    serial: u32,
)
    ensures
        ends_with(Wait::TipTool(tip), ReplyView::Tool(None), seq![]),
        tip.tip_state is Down ==> leads_to(
            Wait::TipTool(tip),
            ReplyView::Tool(Some(tool)),
            Wait::TipSerial { tool, time_msec: tip.time_msec },
        ),
        tip.tip_state is Up ==> ends_with(
            Wait::TipTool(tip),
            ReplyView::Tool(Some(tool)),
            seq![EffectView::Tablet(TabletOp::TipUp { tool, time_msec: tip.time_msec })],
        ),
        ({
            let step = advance(
                PendingView::Waiting(Wait::TipSerial { tool, time_msec }),
                ReplyView::Serial(serial),
            );
            &&& step.effects.len() == 1
            &&& step.effects[0] == EffectView::Tablet(TabletOp::TipDown { tool, serial, time_msec })
            &&& step.next == PendingView::Waiting(Wait::ActivateGrab(None))
        }),
        ends_with(Wait::ToolButtonTool(button), ReplyView::Tool(None), seq![]),
        leads_to(
            Wait::ToolButtonTool(button),
            ReplyView::Tool(Some(tool)),
            Wait::ToolButtonSerial { button, tool },
        ),
        ends_with(
            Wait::ToolButtonSerial { button, tool },
            ReplyView::Serial(serial),
            seq![
                EffectView::Tablet(
                    TabletOp::Button {
                        tool,
                        button: button.button,
                        state: button.button_state,
                        serial,
                        time_msec: button.time_msec,
                    },
                ),
            ],
        ),
{
}

/// A step of a gesture keeps itself, and its serial if it has one, until it goes to the client.
/// Then a group is ended before it exactly when the focus has changed.
pub proof fn gesture_is_kept(
    gesture: Gesture,
    serial: u32,
    given: Option<u32>,
    delta: Vector,
    cancelled: bool,
    time_msec: u32,
    output: OutputId,
)
    ensures
        leads_to(
            Wait::GestureSerial(gesture),
            ReplyView::Serial(serial),
            Wait::GestureFocus { gesture, serial: Some(serial) },
        ),
        ends_with(
            Wait::GestureFocus { gesture, serial: given },
            ReplyView::Flag(true),
            seq![
                EffectView::Pointer(PointerOp::Frame),
                EffectView::Pointer(PointerOp::Gesture { gesture, serial: given }),
            ],
        ),
        ends_with(
            Wait::GestureFocus { gesture, serial: given },
            ReplyView::Flag(false),
            seq![EffectView::Pointer(PointerOp::Gesture { gesture, serial: given })],
        ),
        ends_with(
            Wait::SwipeUpdate { delta, time_msec },
            ReplyView::Swiped(Some(Some(output))),
            seq![EffectView::Screen(ScreenOp::QueueRedraw(output))],
        ),
        ends_with(Wait::SwipeUpdate { delta, time_msec }, ReplyView::Swiped(Some(None)), seq![]),
        leads_to(
            Wait::SwipeUpdate { delta, time_msec },
            ReplyView::Swiped(None),
            Wait::GestureFocus { gesture: Gesture::SwipeUpdate { delta, time_msec }, serial: None },
        ),
        ends_with(
            Wait::SwipeEnd { cancelled, time_msec },
            ReplyView::Output(Some(output)),
            seq![EffectView::Screen(ScreenOp::QueueRedraw(output))],
        ),
        leads_to(
            Wait::SwipeEnd { cancelled, time_msec },
            ReplyView::Output(None),
            Wait::GestureSerial(Gesture::SwipeEnd { cancelled, time_msec }),
        ),
{
}

/// A question that is about something is open exactly at the points that are about it.
#[verifier::spinoff_prover]
#[verifier::rlimit(40)]
pub proof fn questions_are_about_what_was_found(
    wait: Wait,
    key: KeyboardEvent,
    comp_mod: CompositorMod,
    serial: u32,
    direction: Direction,
    location: Location,
    output: OutputId,
    number: Real,
    cancelled: bool,
)
    ensures
        ({
            let query = open_query(PendingView::Waiting(wait))->0;
            &&& open_query(PendingView::Waiting(wait)) is Some
            &&& query == Query::KeyboardInput { key, comp_mod, serial } <==> wait
                == Wait::KeyInput { key, comp_mod, serial }
            &&& query == Query::OutputToward(direction) <==> wait == Wait::FocusMonitor(direction)
                || wait == Wait::MoveWindowToMonitor(direction)
            &&& query == Query::OutputUnder(location) <==> {
                ||| wait matches Wait::MotionTarget { motion, .. } && location == Location::Moved {
                    delta: motion.delta,
                }
                ||| wait is MotionOrigin && location is Current
            }
            &&& query == Query::OutputGeometry(output) <==> {
                ||| wait matches Wait::MotionClip { output: found, .. } && found == output
                ||| wait matches Wait::MotionCenter { output: found, .. } && found == output
                ||| wait matches Wait::PointGeometry { output: found, .. } && found == output
            }
            &&& query == Query::SurfaceUnder(location) <==> (
            wait matches Wait::PlaceSurface { location: found, .. } && found == location)
            &&& query == Query::WorkspaceSwitchGestureUpdate(number) <==> (
            wait matches Wait::SwipeUpdate { delta, .. } && delta.y == number)
            &&& query == Query::WorkspaceSwitchGestureEnd { cancelled } <==> (
            wait matches Wait::SwipeEnd { cancelled: found, .. } && found == cancelled)
        }),
{
}

/// Any other question is open exactly at the points that need its answer.
#[verifier::spinoff_prover]
#[verifier::rlimit(40)]
pub proof fn questions_are_asked_where_needed(wait: Wait)
    ensures
        ({
            let query = open_query(PendingView::Waiting(wait))->0;
            &&& query is ModKey <==> wait is ModKey
            &&& query is NextSerial <==> wait is KeySerial || wait is MotionSerial
                || wait is PointSerial || wait is AxisSerial || wait is ProximitySerial
                || wait is ButtonSerial || wait is TipSerial || wait is ToolButtonSerial
                || wait is GestureSerial
            &&& !(query is IsLocked)
            &&& query is ActiveOutput <==> wait is ScreenshotOutput
            &&& query is ActiveWindow <==> wait is ScreenshotWindow
            &&& query is HasRenderer <==> wait is ScreenshotRenderer
                || wait is ScreenshotWindowRenderer
            &&& query is FocusedWindow <==> wait is CloseWindow || wait is FullscreenWindow
            &&& query is FirstOutput <==> wait is MotionOutput || wait is MotionFallback || (
            wait matches Wait::PointOutput(pointing) && pointing is Absolute)
            &&& query is OutputForTablet <==> (wait matches Wait::PointOutput(pointing) && !(
            pointing is Absolute))
            &&& query is IsPointerGrabbed <==> wait is ActivateGrab
            &&& query is WindowUnderCursor <==> wait is ActivateWindow
            &&& query is OutputUnderCursor <==> wait is ActivateOutput || wait is SwipeOutput
            &&& query is Tablet <==> wait is AxisTablet || wait is ProximityTablet
            &&& query is Tool <==> wait is AxisTool || wait is TipTool || wait is ToolButtonTool
            &&& query is AddTool <==> wait is ProximityTool
            &&& query is CountTablets <==> wait is TabletCount
            &&& query is UpdatePointerFocus <==> wait is GestureFocus
        }),
{
}

/// Whether the session is locked is asked for the action of a key. Without an event nothing is
/// asked.
pub proof fn lock_is_asked_for_actions(action: Option<ActionView>)
    ensures
        open_query(PendingView::Lock(action)) == Some(Query::IsLocked),
        open_query(PendingView::Idle) is None,
{
}

} // verus!
