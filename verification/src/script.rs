//! Whole runs: the effects of an event from its beginning to its end.
//!
//! [`run`] follows an event from answer to answer. [`script`] says outright what comes of it in
//! a given [`World`]. That both are the same is [`run_follows_script`].

use vstd::prelude::*;

use crate::act::{direct_effects, monitor_focused, moved_to_monitor, on_found, permitted};
use crate::binds::CompositorMod;
use crate::config::{ActionView, Real};
use crate::effect::{
    Direction, EffectView, LayoutOp, OutputId, Query, ReplyView, ScreenOp, SurfaceId, TabletId,
    TabletOp, ToolId, WindowId,
};
use crate::event::{
    ButtonEvent, ButtonState, Gesture, InputEvent, KeyboardEvent, MotionEvent, ProximityState,
    TipState, ToolAxisEvent, ToolProximityEvent, ToolTipEvent,
};
use crate::geometry::{Location, Rectangle};
use crate::gesture::forwarded;
use crate::pointer::{clicked, placed};
use crate::state::{advance, opening, scroll_effects};
use crate::step::{open_query, push_if, Click, PendingView, Placement, Pointing, Wait};
use crate::tablet::readings;

verus! {

/// What the rest of the compositor answers while one event is processed.
pub struct World {
    pub mod_key: CompositorMod,
    /// The first serial that is asked for.
    pub serial: u32,
    /// The serial for a tablet tool that has moved the pointer.
    pub tool_serial: u32,
    /// The action for which a key event is kept.
    pub intercepted: spec_fn(KeyboardEvent, CompositorMod, u32) -> Option<ActionView>,
    pub locked: bool,
    pub active_output: Option<OutputId>,
    pub active_window: Option<(WindowId, OutputId)>,
    pub has_renderer: bool,
    pub focused_window: Option<WindowId>,
    pub output_toward: spec_fn(Direction) -> Option<OutputId>,
    pub first_output: Option<OutputId>,
    /// The first output, when it is asked for again.
    pub fallback_output: Option<OutputId>,
    pub output_under: spec_fn(Location) -> Option<OutputId>,
    pub geometry: spec_fn(OutputId) -> Rectangle,
    pub output_for_tablet: Option<OutputId>,
    pub surface_under: spec_fn(Location) -> Option<SurfaceId>,
    pub pointer_grabbed: bool,
    pub window_under_cursor: Option<WindowId>,
    pub output_under_cursor: Option<OutputId>,
    pub tablet: Option<TabletId>,
    pub tool: Option<ToolId>,
    pub added_tool: ToolId,
    pub tablets: usize,
    pub swipe_update: spec_fn(Real) -> Option<Option<OutputId>>,
    pub swipe_end: spec_fn(bool) -> Option<OutputId>,
    pub focus_changed: bool,
}

/// The answer of a world to the question that is open.
pub open spec fn answer(world: World, pending: PendingView) -> ReplyView {
    match pending {
        PendingView::Idle => ReplyView::Flag(false),
        PendingView::Lock(_) => ReplyView::Flag(world.locked),
        PendingView::Waiting(wait) => match wait {
            Wait::ModKey(_) => ReplyView::ModKey(world.mod_key),
            Wait::KeySerial { .. } | Wait::MotionSerial(_) | Wait::PointSerial { .. }
            | Wait::ButtonSerial(_) | Wait::TipSerial { .. } | Wait::ToolButtonSerial { .. }
            | Wait::GestureSerial(_) => ReplyView::Serial(world.serial),
            Wait::AxisSerial { .. } | Wait::ProximitySerial { .. } =>
                ReplyView::Serial(world.tool_serial),
            Wait::KeyInput { key, comp_mod, serial } =>
                ReplyView::Intercepted((world.intercepted)(key, comp_mod, serial)),
            Wait::ScreenshotOutput => ReplyView::Output(world.active_output),
            Wait::ScreenshotWindow => ReplyView::WindowOnOutput(world.active_window),
            Wait::ScreenshotRenderer { .. } | Wait::ScreenshotWindowRenderer { .. } =>
                ReplyView::Flag(world.has_renderer),
            Wait::CloseWindow | Wait::FullscreenWindow => ReplyView::Window(world.focused_window),
            Wait::FocusMonitor(direction) | Wait::MoveWindowToMonitor(direction) =>
                ReplyView::Output((world.output_toward)(direction)),
            Wait::MotionOutput(_) => ReplyView::Output(world.first_output),
            Wait::MotionFallback { .. } => ReplyView::Output(world.fallback_output),
            Wait::MotionTarget { motion, .. } => ReplyView::Output(
                (world.output_under)(Location::Moved { delta: motion.delta }),
            ),
            Wait::MotionOrigin { .. } => ReplyView::Output(
                (world.output_under)(Location::Current),
            ),
            Wait::MotionClip { output, .. } | Wait::MotionCenter { output, .. }
            | Wait::PointGeometry { output, .. } =>
                ReplyView::Geometry((world.geometry)(output)),
            Wait::PointOutput(Pointing::Absolute { .. }) => ReplyView::Output(world.first_output),
            Wait::PointOutput(_) => ReplyView::Output(world.output_for_tablet),
            Wait::PlaceSurface { location, .. } =>
                ReplyView::Surface((world.surface_under)(location)),
            Wait::AxisTablet { .. } | Wait::ProximityTablet { .. } =>
                ReplyView::Tablet(world.tablet),
            Wait::AxisTool { .. } | Wait::TipTool(_) | Wait::ToolButtonTool(_) =>
                ReplyView::Tool(world.tool),
            Wait::ProximityTool { .. } => ReplyView::NewTool(world.added_tool),
            Wait::ActivateGrab(_) => ReplyView::Flag(world.pointer_grabbed),
            Wait::ActivateWindow(_) => ReplyView::Window(world.window_under_cursor),
            Wait::ActivateOutput(_) | Wait::SwipeOutput =>
                ReplyView::Output(world.output_under_cursor),
            Wait::TabletCount => ReplyView::Count(world.tablets),
            Wait::SwipeUpdate { delta, .. } => ReplyView::Swiped((world.swipe_update)(delta.y)),
            Wait::SwipeEnd { cancelled, .. } => ReplyView::Output((world.swipe_end)(cancelled)),
            Wait::GestureFocus { .. } => ReplyView::Flag(world.focus_changed),
        },
    }
}

/// How many more answers the placement of the pointer can take, once its position is known.
pub open spec fn placement_answers(placement: Placement) -> nat {
    match placement {
        Placement::OnOutput(Pointing::ToolAxis(_)) => 4,
        Placement::OnOutput(Pointing::ToolProximity(_)) => 4,
        _ => 1,
    }
}

/// How many more answers an event can take.
pub open spec fn answers_left(pending: PendingView) -> nat {
    match pending {
        PendingView::Idle => 0,
        PendingView::Lock(_) => 3,
        PendingView::Waiting(wait) => match wait {
            Wait::ModKey(_) => 8,
            Wait::KeySerial { .. } => 5,
            Wait::KeyInput { .. } => 4,
            Wait::ScreenshotOutput | Wait::ScreenshotWindow => 2,
            Wait::MotionOutput(_) => 7,
            Wait::MotionSerial(_) => 6,
            Wait::MotionTarget { .. } => 5,
            Wait::MotionOrigin { .. } => 4,
            Wait::MotionFallback { .. } => 3,
            Wait::MotionClip { .. } | Wait::MotionCenter { .. } => 2,
            Wait::PointOutput(pointing) => placement_answers(Placement::OnOutput(pointing)) + 3,
            Wait::PointGeometry { pointing, .. } =>
                placement_answers(Placement::OnOutput(pointing)) + 2,
            Wait::PointSerial { pointing, .. } =>
                placement_answers(Placement::OnOutput(pointing)) + 1,
            Wait::PlaceSurface { placement, .. } => placement_answers(placement),
            Wait::AxisTablet { .. } | Wait::ProximityTool { .. } => 3,
            Wait::AxisTool { .. } | Wait::ProximityTablet { .. } => 2,
            Wait::ButtonSerial(_) | Wait::TipSerial { .. } => 4,
            Wait::TipTool(_) => 5,
            Wait::ActivateGrab(_) => 3,
            Wait::ActivateWindow(_) | Wait::ToolButtonTool(_) | Wait::SwipeUpdate { .. }
            | Wait::GestureSerial(_) => 2,
            Wait::SwipeEnd { .. } => 3,
            _ => 1,
        },
    }
}

/// Every answer brings an event nearer to its end. It takes no more than eight.
#[verifier::spinoff_prover]
#[verifier::rlimit(40)]
pub proof fn every_event_ends(pending: PendingView, reply: ReplyView)
    requires
        !(pending is Idle),
    ensures
        answers_left(advance(pending, reply).next) < answers_left(pending) <= 8,
{
}

/// All effects that come of going on from a point to the end of the event.
pub open spec fn run(pending: PendingView, world: World) -> Seq<EffectView>
    decreases answers_left(pending),
{
    if pending is Idle {
        seq![]
    } else {
        proof {
            every_event_ends(pending, answer(world, pending));
        }
        let step = advance(pending, answer(world, pending));
        step.effects + run(step.next, world)
    }
}

/// All questions that are asked from a point to the end of the event.
pub open spec fn asked(pending: PendingView, world: World) -> Seq<Query>
    decreases answers_left(pending),
{
    match open_query(pending) {
        None => seq![],
        Some(query) => {
            proof {
                every_event_ends(pending, answer(world, pending));
            }
            seq![query] + asked(advance(pending, answer(world, pending)).next, world)
        },
    }
}

/// The effects of an action.
pub open spec fn action_effects(action: ActionView, world: World) -> Seq<EffectView> {
    match action {
        ActionView::Screenshot => on_found(
            world.active_output,
            |o: OutputId|
                push_if(
                    seq![],
                    world.has_renderer,
                    EffectView::Screen(ScreenOp::Screenshot(o)),
                ),
        ),
        ActionView::ScreenshotWindow => on_found(
            world.active_window,
            |a: (WindowId, OutputId)|
                push_if(
                    seq![],
                    world.has_renderer,
                    EffectView::Screen(ScreenOp::ScreenshotWindow { window: a.0, output: a.1 }),
                ),
        ),
        ActionView::CloseWindow => on_found(
            world.focused_window,
            |w: WindowId| seq![EffectView::Screen(ScreenOp::SendClose(w))],
        ),
        ActionView::FullscreenWindow => on_found(
            world.focused_window,
            |w: WindowId| seq![EffectView::Layout(LayoutOp::ToggleFullscreen(w))],
        ),
        ActionView::FocusMonitorLeft => focus_monitor(Direction::Left, world),
        ActionView::FocusMonitorRight => focus_monitor(Direction::Right, world),
        ActionView::FocusMonitorDown => focus_monitor(Direction::Down, world),
        ActionView::FocusMonitorUp => focus_monitor(Direction::Up, world),
        ActionView::MoveWindowToMonitorLeft => move_to_monitor(Direction::Left, world),
        ActionView::MoveWindowToMonitorRight => move_to_monitor(Direction::Right, world),
        ActionView::MoveWindowToMonitorDown => move_to_monitor(Direction::Down, world),
        ActionView::MoveWindowToMonitorUp => move_to_monitor(Direction::Up, world),
        _ => direct_effects(action),
    }
}

/// Focusing the monitor in a direction.
pub open spec fn focus_monitor(direction: Direction, world: World) -> Seq<EffectView> {
    on_found((world.output_toward)(direction), |o: OutputId| monitor_focused(o))
}

/// Moving a window to the monitor in a direction.
pub open spec fn move_to_monitor(direction: Direction, world: World) -> Seq<EffectView> {
    on_found((world.output_toward)(direction), |o: OutputId| moved_to_monitor(o))
}

/// The effects of a key: those of the action for which it is kept, as far as the session may
/// carry it out.
pub open spec fn key_effects(key: KeyboardEvent, world: World) -> Seq<EffectView> {
    let intercepted = (world.intercepted)(key, world.mod_key, world.serial);
    on_found(permitted(intercepted, world.locked), |a: ActionView| action_effects(a, world))
}

/// Where a motion takes the pointer, if there is a place for it.
pub open spec fn motion_location(motion: MotionEvent, world: World) -> Option<Location> {
    if world.first_output is None {
        None
    } else if (world.output_under)(Location::Moved { delta: motion.delta }) is Some {
        Some(Location::Moved { delta: motion.delta })
    } else {
        match (world.output_under)(Location::Current) {
            Some(output) => Some(
                Location::MovedWithin {
                    delta: motion.delta,
                    bounds: (world.geometry)(output).limits(),
                },
            ),
            None => match world.fallback_output {
                Some(output) => Some(Location::CenterOf((world.geometry)(output))),
                None => None,
            },
        }
    }
}

/// The effects of putting the pointer somewhere in a world.
pub open spec fn placed_in(
    placement: Placement,
    location: Location,
    world: World,
) -> Seq<EffectView> {
    placed(placement, location, world.serial, (world.surface_under)(location))
}

/// The effects of activating what is under the cursor: a window, or else an output, and neither
/// while the pointer is grabbed.
pub open spec fn activated(world: World) -> Seq<EffectView> {
    if world.pointer_grabbed {
        seq![]
    } else {
        match (world.window_under_cursor, world.output_under_cursor) {
            (Some(window), _) => seq![EffectView::Layout(LayoutOp::ActivateWindow(window))],
            (None, Some(output)) => seq![EffectView::Layout(LayoutOp::ActivateOutput(output))],
            (None, None) => seq![],
        }
    }
}

/// The effects of moving a tablet tool on an output.
pub open spec fn tool_axis_effects(
    axis: ToolAxisEvent,
    output: OutputId,
    world: World,
) -> Seq<EffectView> {
    let location = Location::EventOn((world.geometry)(output));
    let reported = match (world.tablet, world.tool) {
        (Some(tablet), Some(tool)) => readings(axis, tool).push(
            EffectView::Tablet(
                TabletOp::Motion {
                    tool,
                    tablet,
                    under: (world.surface_under)(location),
                    location,
                    serial: world.tool_serial,
                    time_msec: axis.time_msec,
                },
            ),
        ),
        _ => seq![],
    };
    placed_in(Placement::OnOutput(Pointing::ToolAxis(axis)), location, world) + reported + seq![
        EffectView::Screen(ScreenOp::QueueRedrawAll),
    ]
}

/// The effects of a tablet tool that comes or goes, on an output.
pub open spec fn tool_proximity_effects(
    proximity: ToolProximityEvent,
    output: OutputId,
    world: World,
) -> Seq<EffectView> {
    let location = Location::EventOn((world.geometry)(output));
    let time_msec = proximity.time_msec;
    let tool = world.added_tool;
    let reported = match ((world.surface_under)(location), world.tablet) {
        (Some(under), Some(tablet)) => match proximity.state {
            ProximityState::In => seq![
                EffectView::Tablet(
                    TabletOp::ProximityIn {
                        tool,
                        tablet,
                        under,
                        location,
                        serial: world.tool_serial,
                        time_msec,
                    },
                ),
            ],
            ProximityState::Out => seq![
                EffectView::Tablet(TabletOp::ProximityOut { tool, time_msec }),
            ],
        },
        _ => seq![],
    };
    placed_in(Placement::OnOutput(Pointing::ToolProximity(proximity)), location, world) + reported
}

/// The effects of the tip of a tablet tool.
pub open spec fn tool_tip_effects(tip: ToolTipEvent, world: World) -> Seq<EffectView> {
    let time_msec = tip.time_msec;
    match (world.tool, tip.tip_state) {
        (Some(tool), TipState::Down) => seq![
            EffectView::Tablet(TabletOp::TipDown { tool, serial: world.serial, time_msec }),
        ] + activated(world),
        (Some(tool), TipState::Up) => seq![
            EffectView::Tablet(TabletOp::TipUp { tool, time_msec }),
        ],
        (None, _) => seq![],
    }
}

/// The effects of the step of a gesture.
pub open spec fn gesture_effects(gesture: Gesture, world: World) -> Seq<EffectView> {
    let with_serial = forwarded(gesture, Some(world.serial), world.focus_changed);
    let without_serial = forwarded(gesture, None, world.focus_changed);
    match gesture {
        Gesture::SwipeBegin { fingers, .. } => if fingers == 3 {
            on_found(
                world.output_under_cursor,
                |o: OutputId|
                    seq![
                        EffectView::Layout(LayoutOp::WorkspaceSwitchGestureBegin(o)),
                        EffectView::Screen(ScreenOp::QueueRedrawAll),
                    ],
            )
        } else {
            with_serial
        },
        Gesture::SwipeUpdate { delta, .. } => match (world.swipe_update)(delta.y) {
            Some(Some(output)) => seq![EffectView::Screen(ScreenOp::QueueRedraw(output))],
            Some(None) => seq![],
            None => without_serial,
        },
        Gesture::SwipeEnd { cancelled, .. } => match (world.swipe_end)(cancelled) {
            Some(output) => seq![EffectView::Screen(ScreenOp::QueueRedraw(output))],
            None => with_serial,
        },
        Gesture::PinchUpdate { .. } => without_serial,
        _ => with_serial,
    }
}

/// The effects of an event, after those with which every event begins.
pub open spec fn event_effects(event: InputEvent, world: World) -> Seq<EffectView> {
    match event {
        InputEvent::Keyboard(key) => key_effects(key, world),
        InputEvent::PointerMotion(motion) => on_found(
            motion_location(motion, world),
            |l: Location| placed_in(Placement::Relative(motion), l, world),
        ),
        InputEvent::PointerMotionAbsolute { time_msec } => on_found(
            world.first_output,
            |o: OutputId|
                placed_in(
                    Placement::OnOutput(Pointing::Absolute { time_msec }),
                    Location::EventOn((world.geometry)(o)),
                    world,
                ),
        ),
        InputEvent::PointerButton(button) => {
            let click = clicked(Some(Click { button, serial: world.serial }));
            match button.state {
                ButtonState::Pressed => activated(world) + click,
                ButtonState::Released => click,
            }
        },
        InputEvent::PointerAxis(axis) => scroll_effects(axis),
        InputEvent::TabletToolAxis(axis) => on_found(
            world.output_for_tablet,
            |o: OutputId| tool_axis_effects(axis, o, world),
        ),
        InputEvent::TabletToolTip(tip) => tool_tip_effects(tip, world),
        InputEvent::TabletToolProximity(proximity) => on_found(
            world.output_for_tablet,
            |o: OutputId| tool_proximity_effects(proximity, o, world),
        ),
        InputEvent::TabletToolButton(button) => on_found(
            world.tool,
            |tool: ToolId|
                seq![
                    EffectView::Tablet(
                        TabletOp::Button {
                            tool,
                            button: button.button,
                            state: button.button_state,
                            serial: world.serial,
                            time_msec: button.time_msec,
                        },
                    ),
                ],
        ),
        InputEvent::DeviceAdded { tablet_tool } => push_if(
            seq![],
            tablet_tool,
            EffectView::Tablet(TabletOp::AddTablet),
        ),
        InputEvent::DeviceRemoved { tablet_tool } => if tablet_tool {
            push_if(
                seq![EffectView::Tablet(TabletOp::RemoveTablet)],
                world.tablets == 0,
                EffectView::Tablet(TabletOp::ClearTools),
            )
        } else {
            seq![]
        },
        InputEvent::Gesture(gesture) => gesture_effects(gesture, world),
        InputEvent::TouchDown | InputEvent::TouchMotion | InputEvent::TouchUp
        | InputEvent::TouchCancel | InputEvent::TouchFrame | InputEvent::Special => seq![],
    }
}

/// All effects of an event.
pub open spec fn script(event: InputEvent, world: World) -> Seq<EffectView> {
    opening(event) + event_effects(event, world)
}

pub(crate) proof fn lemma_activate(click: Option<Click>, world: World)
    ensures
        run(PendingView::Waiting(Wait::ActivateGrab(click)), world) == activated(world) + clicked(
            click,
        ),
{
    reveal_with_fuel(run, 4);
}

#[verifier::spinoff_prover]
#[verifier::rlimit(40)]
proof fn lemma_action(action: Option<ActionView>, world: World)
    ensures
        run(PendingView::Lock(action), world) == on_found(
            permitted(action, world.locked),
            |a: ActionView| action_effects(a, world),
        ),
{
    reveal_with_fuel(run, 4);
}

proof fn lemma_key(key: KeyboardEvent, world: World)
    ensures
        run(
            PendingView::Waiting(Wait::KeySerial { key, comp_mod: world.mod_key }),
            world,
        ) == key_effects(key, world),
{
    reveal_with_fuel(run, 3);
    lemma_action((world.intercepted)(key, world.mod_key, world.serial), world);
}

proof fn lemma_place(placement: Placement, location: Location, world: World)
    requires
        !(placement matches Placement::OnOutput(pointing) && !(pointing is Absolute)),
    ensures
        run(
            PendingView::Waiting(
                Wait::PlaceSurface { placement, location, serial: world.serial },
            ),
            world,
        ) == placed_in(placement, location, world),
{
    reveal_with_fuel(run, 2);
}

#[verifier::spinoff_prover]
#[verifier::rlimit(40)]
proof fn lemma_motion(motion: MotionEvent, world: World)
    ensures
        run(PendingView::Waiting(Wait::MotionOutput(motion)), world) == on_found(
            motion_location(motion, world),
            |l: Location| placed_in(Placement::Relative(motion), l, world),
        ),
{
    reveal_with_fuel(run, 7);
    match motion_location(motion, world) {
        Some(location) => lemma_place(Placement::Relative(motion), location, world),
        None => {},
    }
}

proof fn lemma_absolute(time_msec: u32, world: World)
    ensures
        run(
            PendingView::Waiting(Wait::PointOutput(Pointing::Absolute { time_msec })),
            world,
        ) == on_found(
            world.first_output,
            |o: OutputId|
                placed_in(
                    Placement::OnOutput(Pointing::Absolute { time_msec }),
                    Location::EventOn((world.geometry)(o)),
                    world,
                ),
        ),
{
    reveal_with_fuel(run, 5);
}

#[verifier::spinoff_prover]
#[verifier::rlimit(40)]
proof fn lemma_tool_axis(axis: ToolAxisEvent, world: World)
    ensures
        run(
            PendingView::Waiting(Wait::PointOutput(Pointing::ToolAxis(axis))),
            world,
        ) == on_found(world.output_for_tablet, |o: OutputId| tool_axis_effects(axis, o, world)),
{
    reveal_with_fuel(run, 8);
}

#[verifier::spinoff_prover]
#[verifier::rlimit(40)]
proof fn lemma_tool_proximity(proximity: ToolProximityEvent, world: World)
    ensures
        run(
            PendingView::Waiting(Wait::PointOutput(Pointing::ToolProximity(proximity))),
            world,
        ) == on_found(
            world.output_for_tablet,
            |o: OutputId| tool_proximity_effects(proximity, o, world),
        ),
{
    reveal_with_fuel(run, 8);
}

proof fn lemma_button(button: ButtonEvent, world: World)
    ensures
        run(PendingView::Waiting(Wait::ButtonSerial(button)), world) == event_effects(
            InputEvent::PointerButton(button),
            world,
        ),
{
    reveal_with_fuel(run, 2);
    lemma_activate(Some(Click { button, serial: world.serial }), world);
}

proof fn lemma_tip(tip: ToolTipEvent, world: World)
    ensures
        run(PendingView::Waiting(Wait::TipTool(tip)), world) == tool_tip_effects(tip, world),
{
    reveal_with_fuel(run, 3);
    lemma_activate(None, world);
}

#[verifier::spinoff_prover]
#[verifier::rlimit(40)]
proof fn lemma_gesture(gesture: Gesture, world: World)
    ensures
        run(
            PendingView::Waiting(Wait::ModKey(InputEvent::Gesture(gesture))),
            world,
        ) == gesture_effects(gesture, world),
{
    reveal_with_fuel(run, 5);
}

/// Processing an event to its end has exactly the effects of the script, in that order.
#[verifier::spinoff_prover]
#[verifier::rlimit(40)]
pub proof fn run_follows_script(event: InputEvent, world: World)
    ensures
        opening(event) + run(PendingView::Waiting(Wait::ModKey(event)), world) == script(
            event,
            world,
        ),
{
    reveal_with_fuel(run, 4);
    match event {
        InputEvent::Keyboard(key) => lemma_key(key, world),
        InputEvent::PointerMotion(motion) => lemma_motion(motion, world),
        InputEvent::PointerMotionAbsolute { time_msec } => lemma_absolute(time_msec, world),
        InputEvent::PointerButton(button) => lemma_button(button, world),
        InputEvent::TabletToolAxis(axis) => lemma_tool_axis(axis, world),
        InputEvent::TabletToolTip(tip) => lemma_tip(tip, world),
        InputEvent::TabletToolProximity(proximity) => lemma_tool_proximity(proximity, world),
        InputEvent::Gesture(gesture) => lemma_gesture(gesture, world),
        _ => {},
    }
    assert(run(PendingView::Waiting(Wait::ModKey(event)), world) =~= event_effects(event, world));
}

} // verus!
