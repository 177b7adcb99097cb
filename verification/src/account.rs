//! Whole runs once more: not only the effects of an event but also the questions, many of which
//! change something themselves, and the order of both.
//!
//! [`asked`] and [`history`] follow an event from answer to answer. [`questions`] and [`account`]
//! say outright what comes of it. That they are the same is [`asked_follows_questions`] and
//! [`history_follows_account`].

use vstd::prelude::*;

use crate::act::permitted;
use crate::config::ActionView;
use crate::effect::{Direction, EffectView, OutputId, Query, ScreenOp, TabletOp};
use crate::event::{
    ButtonEvent, ButtonState, Gesture, InputEvent, KeyboardEvent, MotionEvent, ToolAxisEvent,
    ToolProximityEvent, ToolTipEvent,
};
use crate::geometry::Location;
use crate::script::{
    activated, answer, answers_left, asked, event_effects, every_event_ends, lemma_activate,
    motion_location, placed_in, run, run_follows_script, World,
};
use crate::state::{advance, opening};
use crate::step::{open_query, push_if, PendingView, Placement, Pointing, Wait};
use crate::tablet::readings;

verus! {

/// The questions of an action.
pub open spec fn action_questions(action: ActionView, world: World) -> Seq<Query> {
    match action {
        ActionView::Screenshot => if world.active_output is Some {
            seq![Query::ActiveOutput, Query::HasRenderer]
        } else {
            seq![Query::ActiveOutput]
        },
        ActionView::ScreenshotWindow => if world.active_window is Some {
            seq![Query::ActiveWindow, Query::HasRenderer]
        } else {
            seq![Query::ActiveWindow]
        },
        ActionView::CloseWindow | ActionView::FullscreenWindow => seq![Query::FocusedWindow],
        ActionView::FocusMonitorLeft | ActionView::MoveWindowToMonitorLeft => seq![
            Query::OutputToward(Direction::Left),
        ],
        ActionView::FocusMonitorRight | ActionView::MoveWindowToMonitorRight => seq![
            Query::OutputToward(Direction::Right),
        ],
        ActionView::FocusMonitorDown | ActionView::MoveWindowToMonitorDown => seq![
            Query::OutputToward(Direction::Down),
        ],
        ActionView::FocusMonitorUp | ActionView::MoveWindowToMonitorUp => seq![
            Query::OutputToward(Direction::Up),
        ],
        _ => seq![],
    }
}

/// The questions of an action that may be there.
pub open spec fn permitted_questions(action: Option<ActionView>, world: World) -> Seq<Query> {
    match permitted(action, world.locked) {
        Some(action) => action_questions(action, world),
        None => seq![],
    }
}

/// The questions of a key: it is handed to the keyboard, then comes its action.
pub open spec fn key_questions(key: KeyboardEvent, world: World) -> Seq<Query> {
    seq![
        Query::NextSerial,
        Query::KeyboardInput { key, comp_mod: world.mod_key, serial: world.serial },
        Query::IsLocked,
    ] + permitted_questions((world.intercepted)(key, world.mod_key, world.serial), world)
}

/// The questions for the place of a motion: where it ends, then where it began, then what the
/// first output is, each only if the one before found no output.
pub open spec fn motion_place_questions(motion: MotionEvent, world: World) -> Seq<Query> {
    let target = Query::OutputUnder(Location::Moved { delta: motion.delta });
    let origin = Query::OutputUnder(Location::Current);
    if (world.output_under)(Location::Moved { delta: motion.delta }) is Some {
        seq![target]
    } else {
        match ((world.output_under)(Location::Current), world.fallback_output) {
            (Some(output), _) => seq![target, origin, Query::OutputGeometry(output)],
            (None, Some(output)) => seq![
                target,
                origin,
                Query::FirstOutput,
                Query::OutputGeometry(output),
            ],
            (None, None) => seq![target, origin, Query::FirstOutput],
        }
    }
}

/// The questions of a motion.
pub open spec fn motion_questions(motion: MotionEvent, world: World) -> Seq<Query> {
    if world.first_output is None {
        seq![Query::FirstOutput]
    } else {
        seq![Query::FirstOutput, Query::NextSerial] + motion_place_questions(motion, world)
            + match motion_location(motion, world) {
            Some(location) => seq![Query::SurfaceUnder(location)],
            None => seq![],
        }
    }
}

/// The questions for a position on an output that the event gives.
pub open spec fn position_questions(output: OutputId, world: World) -> Seq<Query> {
    seq![
        Query::OutputGeometry(output),
        Query::NextSerial,
        Query::SurfaceUnder(Location::EventOn((world.geometry)(output))),
    ]
}

/// The questions for what is under the cursor: a window, or else an output, and neither while
/// the pointer is grabbed.
pub open spec fn activation_questions(world: World) -> Seq<Query> {
    if world.pointer_grabbed {
        seq![Query::IsPointerGrabbed]
    } else if world.window_under_cursor is Some {
        seq![Query::IsPointerGrabbed, Query::WindowUnderCursor]
    } else {
        seq![Query::IsPointerGrabbed, Query::WindowUnderCursor, Query::OutputUnderCursor]
    }
}

/// A tool comes over a surface, on a tablet that is known.
pub open spec fn comes_near(
    proximity: ToolProximityEvent,
    output: OutputId,
    world: World,
) -> bool {
    &&& proximity.state is In
    &&& (world.surface_under)(Location::EventOn((world.geometry)(output))) is Some
    &&& world.tablet is Some
}

/// The questions of the step of a gesture.
///
/// The layout is asked about each update and end of a swipe. What it does not claim goes to the
/// client, with a serial unless it is an update, and only after the focus was brought up to date.
pub open spec fn gesture_questions(gesture: Gesture, world: World) -> Seq<Query> {
    match gesture {
        Gesture::SwipeBegin { fingers, .. } => if fingers == 3 {
            seq![Query::OutputUnderCursor]
        } else {
            seq![Query::NextSerial, Query::UpdatePointerFocus]
        },
        Gesture::SwipeUpdate { delta, .. } => if (world.swipe_update)(delta.y) is Some {
            seq![Query::WorkspaceSwitchGestureUpdate(delta.y)]
        } else {
            seq![Query::WorkspaceSwitchGestureUpdate(delta.y), Query::UpdatePointerFocus]
        },
        Gesture::SwipeEnd { cancelled, .. } => if (world.swipe_end)(cancelled) is Some {
            seq![Query::WorkspaceSwitchGestureEnd { cancelled }]
        } else {
            seq![
                Query::WorkspaceSwitchGestureEnd { cancelled },
                Query::NextSerial,
                Query::UpdatePointerFocus,
            ]
        },
        Gesture::PinchUpdate { .. } => seq![Query::UpdatePointerFocus],
        _ => seq![Query::NextSerial, Query::UpdatePointerFocus],
    }
}

/// The questions of an event, after the one with which every event begins.
pub open spec fn event_questions(event: InputEvent, world: World) -> Seq<Query> {
    match event {
        InputEvent::Keyboard(key) => key_questions(key, world),
        InputEvent::PointerMotion(motion) => motion_questions(motion, world),
        InputEvent::PointerMotionAbsolute { .. } => match world.first_output {
            Some(output) => seq![Query::FirstOutput] + position_questions(output, world),
            None => seq![Query::FirstOutput],
        },
        InputEvent::PointerButton(button) => match button.state {
            ButtonState::Pressed => seq![Query::NextSerial] + activation_questions(world),
            ButtonState::Released => seq![Query::NextSerial],
        },
        InputEvent::TabletToolAxis(_) => match world.output_for_tablet {
            Some(output) => seq![Query::OutputForTablet] + position_questions(output, world)
                + if world.tablet is Some && world.tool is Some {
                seq![Query::Tablet, Query::Tool, Query::NextSerial]
            } else {
                seq![Query::Tablet, Query::Tool]
            },
            None => seq![Query::OutputForTablet],
        },
        InputEvent::TabletToolTip(tip) => if world.tool is Some && tip.tip_state is Down {
            seq![Query::Tool, Query::NextSerial] + activation_questions(world)
        } else {
            seq![Query::Tool]
        },
        InputEvent::TabletToolProximity(proximity) => match world.output_for_tablet {
            Some(output) => seq![Query::OutputForTablet] + position_questions(output, world)
                + if comes_near(proximity, output, world) {
                seq![Query::AddTool, Query::Tablet, Query::NextSerial]
            } else {
                seq![Query::AddTool, Query::Tablet]
            },
            None => seq![Query::OutputForTablet],
        },
        InputEvent::TabletToolButton(_) => if world.tool is Some {
            seq![Query::Tool, Query::NextSerial]
        } else {
            seq![Query::Tool]
        },
        InputEvent::DeviceRemoved { tablet_tool } => if tablet_tool {
            seq![Query::CountTablets]
        } else {
            seq![]
        },
        InputEvent::Gesture(gesture) => gesture_questions(gesture, world),
        InputEvent::PointerAxis(_) | InputEvent::DeviceAdded { .. } | InputEvent::TouchDown
        | InputEvent::TouchMotion | InputEvent::TouchUp | InputEvent::TouchCancel
        | InputEvent::TouchFrame | InputEvent::Special => seq![],
    }
}

/// All questions of an event.
pub open spec fn questions(event: InputEvent, world: World) -> Seq<Query> {
    seq![Query::ModKey] + event_questions(event, world)
}

proof fn lemma_asked_activate(wait: Wait, world: World)
    requires
        wait is ActivateGrab,
    ensures
        asked(PendingView::Waiting(wait), world) == activation_questions(world),
{
    reveal_with_fuel(asked, 4);
}

proof fn lemma_asked_action(action: Option<ActionView>, world: World)
    ensures
        asked(PendingView::Lock(action), world) == seq![Query::IsLocked] + permitted_questions(
            action,
            world,
        ),
{
    reveal_with_fuel(asked, 4);
}

proof fn lemma_asked_key(key: KeyboardEvent, world: World)
    ensures
        asked(
            PendingView::Waiting(Wait::KeySerial { key, comp_mod: world.mod_key }),
            world,
        ) == key_questions(key, world),
{
    reveal_with_fuel(asked, 3);
    lemma_asked_action((world.intercepted)(key, world.mod_key, world.serial), world);
}

proof fn lemma_asked_place(placement: Placement, location: Location, serial: u32, world: World)
    requires
        !(placement matches Placement::OnOutput(pointing) && !(pointing is Absolute)),
    ensures
        asked(
            PendingView::Waiting(Wait::PlaceSurface { placement, location, serial }),
            world,
        ) == seq![Query::SurfaceUnder(location)],
{
    reveal_with_fuel(asked, 2);
}

#[verifier::spinoff_prover]
#[verifier::rlimit(40)]
proof fn lemma_asked_motion(motion: MotionEvent, world: World)
    ensures
        asked(PendingView::Waiting(Wait::MotionOutput(motion)), world) == motion_questions(
            motion,
            world,
        ),
{
    reveal_with_fuel(asked, 7);
    match motion_location(motion, world) {
        Some(location) => lemma_asked_place(
            Placement::Relative(motion),
            location,
            world.serial,
            world,
        ),
        None => {},
    }
}

#[verifier::spinoff_prover]
#[verifier::rlimit(40)]
proof fn lemma_asked_absolute(time_msec: u32, world: World)
    ensures
        asked(
            PendingView::Waiting(Wait::PointOutput(Pointing::Absolute { time_msec })),
            world,
        ) == event_questions(InputEvent::PointerMotionAbsolute { time_msec }, world),
{
    reveal_with_fuel(asked, 5);
}

#[verifier::spinoff_prover]
#[verifier::rlimit(40)]
proof fn lemma_asked_tool_axis(axis: ToolAxisEvent, world: World)
    ensures
        asked(
            PendingView::Waiting(Wait::PointOutput(Pointing::ToolAxis(axis))),
            world,
        ) == event_questions(InputEvent::TabletToolAxis(axis), world),
{
    reveal_with_fuel(asked, 8);
}

#[verifier::spinoff_prover]
#[verifier::rlimit(40)]
proof fn lemma_asked_tool_proximity(proximity: ToolProximityEvent, world: World)
    ensures
        asked(
            PendingView::Waiting(Wait::PointOutput(Pointing::ToolProximity(proximity))),
            world,
        ) == event_questions(InputEvent::TabletToolProximity(proximity), world),
{
    reveal_with_fuel(asked, 8);
}

proof fn lemma_asked_button(button: ButtonEvent, world: World)
    ensures
        asked(PendingView::Waiting(Wait::ButtonSerial(button)), world) == event_questions(
            InputEvent::PointerButton(button),
            world,
        ),
{
    reveal_with_fuel(asked, 2);
    if button.state is Pressed {
        let step = advance(
            PendingView::Waiting(Wait::ButtonSerial(button)),
            answer(world, PendingView::Waiting(Wait::ButtonSerial(button))),
        );
        lemma_asked_activate(step.next->Waiting_0, world);
    }
}

proof fn lemma_asked_tip(tip: ToolTipEvent, world: World)
    ensures
        asked(PendingView::Waiting(Wait::TipTool(tip)), world) == event_questions(
            InputEvent::TabletToolTip(tip),
            world,
        ),
{
    reveal_with_fuel(asked, 3);
    lemma_asked_activate(Wait::ActivateGrab(None), world);
}

#[verifier::spinoff_prover]
#[verifier::rlimit(40)]
proof fn lemma_asked_gesture(gesture: Gesture, world: World)
    ensures
        asked(
            PendingView::Waiting(Wait::ModKey(InputEvent::Gesture(gesture))),
            world,
        ) == questions(InputEvent::Gesture(gesture), world),
{
    reveal_with_fuel(asked, 5);
}

/// Processing an event to its end asks exactly these questions, in that order.
#[verifier::spinoff_prover]
#[verifier::rlimit(40)]
pub proof fn asked_follows_questions(event: InputEvent, world: World)
    ensures
        asked(PendingView::Waiting(Wait::ModKey(event)), world) == questions(event, world),
{
    reveal_with_fuel(asked, 4);
    match event {
        InputEvent::Keyboard(key) => lemma_asked_key(key, world),
        InputEvent::PointerMotion(motion) => lemma_asked_motion(motion, world),
        InputEvent::PointerMotionAbsolute { time_msec } => lemma_asked_absolute(time_msec, world),
        InputEvent::PointerButton(button) => lemma_asked_button(button, world),
        InputEvent::TabletToolAxis(axis) => lemma_asked_tool_axis(axis, world),
        InputEvent::TabletToolTip(tip) => lemma_asked_tip(tip, world),
        InputEvent::TabletToolProximity(proximity) => lemma_asked_tool_proximity(proximity, world),
        InputEvent::Gesture(gesture) => lemma_asked_gesture(gesture, world),
        _ => {},
    }
}

/// One thing that happens while an event is processed.
pub enum Happening {
    /// A question is asked.
    Asks(Query),
    /// An effect takes place.
    Does(EffectView),
}

/// Questions, in order.
pub open spec fn asks(queries: Seq<Query>) -> Seq<Happening> {
    queries.map_values(|query: Query| Happening::Asks(query))
}

/// Effects, in order.
pub open spec fn does(effects: Seq<EffectView>) -> Seq<Happening> {
    effects.map_values(|effect: EffectView| Happening::Does(effect))
}

/// All that happens from a point to the end of the event.
pub open spec fn history(pending: PendingView, world: World) -> Seq<Happening>
    decreases answers_left(pending),
{
    match open_query(pending) {
        None => seq![],
        Some(query) => {
            proof {
                every_event_ends(pending, answer(world, pending));
            }
            let step = advance(pending, answer(world, pending));
            asks(seq![query]) + does(step.effects) + history(step.next, world)
        },
    }
}

/// What happens when a tablet tool is moved on an output.
pub open spec fn tool_axis_account(
    axis: ToolAxisEvent,
    output: OutputId,
    world: World,
) -> Seq<Happening> {
    let location = Location::EventOn((world.geometry)(output));
    asks(seq![Query::OutputForTablet] + position_questions(output, world)) + does(
        placed_in(Placement::OnOutput(Pointing::ToolAxis(axis)), location, world),
    ) + asks(seq![Query::Tablet, Query::Tool]) + match (world.tablet, world.tool) {
        (Some(tablet), Some(tool)) => does(readings(axis, tool)) + asks(seq![Query::NextSerial])
            + does(
            seq![
                EffectView::Tablet(
                    TabletOp::Motion {
                        tool,
                        tablet,
                        under: (world.surface_under)(location),
                        location,
                        serial: world.tool_serial,
                        time_msec: axis.time_msec,
                    },
                ),
            ],
        ),
        _ => seq![],
    } + does(seq![EffectView::Screen(ScreenOp::QueueRedrawAll)])
}

/// What happens in an event, after the question with which every event begins.
///
/// Mostly everything is found out before anything is done. But a tablet tool moves the pointer
/// before it is looked for itself, and reports its readings before it is moved; its tip is down
/// before anything is activated; and tablets are counted when one of them is gone.
pub open spec fn event_account(event: InputEvent, world: World) -> Seq<Happening> {
    let queries = event_questions(event, world);
    let effects = event_effects(event, world);
    match (event, world.output_for_tablet, world.tool) {
        (InputEvent::TabletToolAxis(axis), Some(output), _) => tool_axis_account(
            axis,
            output,
            world,
        ),
        (InputEvent::TabletToolProximity(_), Some(_), _) => asks(queries.take(4)) + does(
            effects.take(3),
        ) + asks(queries.skip(4)) + does(effects.skip(3)),
        (InputEvent::TabletToolTip(tip), _, Some(tool)) => if tip.tip_state is Down {
            asks(seq![Query::Tool, Query::NextSerial]) + does(
                seq![
                    EffectView::Tablet(
                        TabletOp::TipDown { tool, serial: world.serial, time_msec: tip.time_msec },
                    ),
                ],
            ) + asks(activation_questions(world)) + does(activated(world))
        } else {
            asks(queries) + does(effects)
        },
        (InputEvent::DeviceRemoved { tablet_tool: true }, _, _) => does(
            seq![EffectView::Tablet(TabletOp::RemoveTablet)],
        ) + asks(seq![Query::CountTablets]) + does(
            push_if(seq![], world.tablets == 0, EffectView::Tablet(TabletOp::ClearTools)),
        ),
        _ => asks(queries) + does(effects),
    }
}

/// All that happens in an event.
pub open spec fn account(event: InputEvent, world: World) -> Seq<Happening> {
    does(opening(event)) + asks(seq![Query::ModKey]) + event_account(event, world)
}

/// From here on everything is found out before anything is done.
spec fn quiet(pending: PendingView) -> bool {
    match pending {
        PendingView::Waiting(wait) => match wait {
            Wait::ModKey(event) => match event {
                InputEvent::TabletToolAxis(_) | InputEvent::TabletToolTip(_)
                | InputEvent::TabletToolProximity(_) | InputEvent::DeviceRemoved { .. } => false,
                _ => true,
            },
            Wait::PointOutput(pointing) => pointing is Absolute,
            Wait::PointGeometry { pointing, .. } => pointing is Absolute,
            Wait::PointSerial { pointing, .. } => pointing is Absolute,
            Wait::PlaceSurface { placement, .. } => match placement {
                Placement::Relative(_) => true,
                Placement::OnOutput(pointing) => pointing is Absolute,
            },
            Wait::AxisTablet { .. } | Wait::AxisTool { .. } | Wait::TipTool(_)
            | Wait::TipSerial { .. } => false,
            _ => true,
        },
        _ => true,
    }
}

#[verifier::spinoff_prover]
#[verifier::rlimit(40)]
proof fn lemma_quiet_step(pending: PendingView, world: World)
    requires
        quiet(pending),
        !(pending is Idle),
    ensures
        quiet(advance(pending, answer(world, pending)).next),
        advance(pending, answer(world, pending)).next is Idle || advance(
            pending,
            answer(world, pending),
        ).effects == Seq::<EffectView>::empty(),
{
}

proof fn lemma_does_add(a: Seq<EffectView>, b: Seq<EffectView>)
    ensures
        does(a + b) == does(a) + does(b),
{
    assert(does(a + b) =~= does(a) + does(b));
}

proof fn lemma_asks_add(a: Seq<Query>, b: Seq<Query>)
    ensures
        asks(a + b) == asks(a) + asks(b),
{
    assert(asks(a + b) =~= asks(a) + asks(b));
}

/// One step of all three runs.
proof fn lemma_step(pending: PendingView, world: World)
    requires
        !(pending is Idle),
    ensures
        ({
            let step = advance(pending, answer(world, pending));
            &&& open_query(pending) is Some
            &&& run(pending, world) == step.effects + run(step.next, world)
            &&& asked(pending, world) == seq![open_query(pending)->0] + asked(step.next, world)
            &&& history(pending, world) == asks(seq![open_query(pending)->0]) + does(step.effects)
                + history(step.next, world)
        }),
{
}

proof fn lemma_quiet(pending: PendingView, world: World)
    requires
        quiet(pending),
    ensures
        history(pending, world) == asks(asked(pending, world)) + does(run(pending, world)),
    decreases answers_left(pending),
{
    if pending is Idle {
        assert(asks(Seq::<Query>::empty()) =~= Seq::<Happening>::empty());
        assert(does(Seq::<EffectView>::empty()) =~= Seq::<Happening>::empty());
    } else {
        let step = advance(pending, answer(world, pending));
        let query = open_query(pending)->0;
        lemma_step(pending, world);
        lemma_quiet_step(pending, world);
        every_event_ends(pending, answer(world, pending));
        lemma_quiet(step.next, world);
        lemma_asks_add(seq![query], asked(step.next, world));
        lemma_does_add(step.effects, run(step.next, world));
        assert(does(Seq::<EffectView>::empty()) =~= Seq::<Happening>::empty());
        assert(asks(Seq::<Query>::empty()) =~= Seq::<Happening>::empty());
        if step.next is Idle {
            assert(asked(step.next, world) =~= Seq::<Query>::empty());
        }
        assert(history(pending, world) =~= asks(asked(pending, world)) + does(run(pending, world)));
    }
}

pub(crate) proof fn lemma_run_effects(event: InputEvent, world: World)
    ensures
        run(PendingView::Waiting(Wait::ModKey(event)), world) == event_effects(event, world),
{
    let run = run(PendingView::Waiting(Wait::ModKey(event)), world);
    let effects = event_effects(event, world);
    run_follows_script(event, world);
    assert(run =~= (opening(event) + run).skip(opening(event).len() as int));
    assert(effects =~= (opening(event) + effects).skip(opening(event).len() as int));
}

proof fn lemma_nothing_happens()
    ensures
        asks(Seq::<Query>::empty()) == Seq::<Happening>::empty(),
        does(Seq::<EffectView>::empty()) == Seq::<Happening>::empty(),
{
    assert(asks(Seq::<Query>::empty()) =~= Seq::<Happening>::empty());
    assert(does(Seq::<EffectView>::empty()) =~= Seq::<Happening>::empty());
}

#[verifier::spinoff_prover]
#[verifier::rlimit(40)]
proof fn lemma_history_removed(tablet_tool: bool, world: World)
    ensures
        history(
            PendingView::Waiting(Wait::ModKey(InputEvent::DeviceRemoved { tablet_tool })),
            world,
        ) == asks(seq![Query::ModKey]) + event_account(
            InputEvent::DeviceRemoved { tablet_tool },
            world,
        ),
{
    reveal_with_fuel(history, 3);
    lemma_nothing_happens();
}

#[verifier::spinoff_prover]
#[verifier::rlimit(40)]
proof fn lemma_history_tip(tip: ToolTipEvent, world: World)
    ensures
        history(PendingView::Waiting(Wait::TipTool(tip)), world) == event_account(
            InputEvent::TabletToolTip(tip),
            world,
        ),
{
    reveal_with_fuel(history, 3);
    lemma_nothing_happens();
    let activate = PendingView::Waiting(Wait::ActivateGrab(None));
    lemma_quiet(activate, world);
    lemma_asked_activate(Wait::ActivateGrab(None), world);
    lemma_activate(None, world);
    assert(run(activate, world) =~= activated(world));
    lemma_asks_add(seq![Query::Tool], seq![Query::NextSerial]);
    assert(seq![Query::Tool] + seq![Query::NextSerial] =~= seq![Query::Tool, Query::NextSerial]);
}

/// Up to the point at which the pointer has been put on an output.
#[verifier::spinoff_prover]
#[verifier::rlimit(40)]
proof fn lemma_history_point(pointing: Pointing, output: OutputId, world: World)
    requires
        !(pointing is Absolute),
        world.output_for_tablet == Some(output),
    ensures
        ({
            let location = Location::EventOn((world.geometry)(output));
            let place = Wait::PlaceSurface {
                placement: Placement::OnOutput(pointing),
                location,
                serial: world.serial,
            };
            let step = advance(
                PendingView::Waiting(place),
                answer(world, PendingView::Waiting(place)),
            );
            history(PendingView::Waiting(Wait::PointOutput(pointing)), world) == asks(
                seq![Query::OutputForTablet] + position_questions(output, world),
            ) + does(placed_in(Placement::OnOutput(pointing), location, world)) + history(
                step.next,
                world,
            )
        }),
{
    reveal_with_fuel(history, 5);
    lemma_nothing_happens();
    let location = Location::EventOn((world.geometry)(output));
    lemma_asks_add(seq![Query::OutputForTablet], seq![Query::OutputGeometry(output)]);
    lemma_asks_add(
        seq![Query::OutputForTablet] + seq![Query::OutputGeometry(output)],
        seq![Query::NextSerial],
    );
    lemma_asks_add(
        seq![Query::OutputForTablet] + seq![Query::OutputGeometry(output)] + seq![
            Query::NextSerial,
        ],
        seq![Query::SurfaceUnder(location)],
    );
    assert(seq![Query::OutputForTablet] + seq![Query::OutputGeometry(output)] + seq![
        Query::NextSerial,
    ] + seq![Query::SurfaceUnder(location)] =~= seq![Query::OutputForTablet] + position_questions(
        output,
        world,
    ));
}

#[verifier::spinoff_prover]
#[verifier::rlimit(40)]
proof fn lemma_history_tool_axis(axis: ToolAxisEvent, world: World)
    ensures
        history(
            PendingView::Waiting(Wait::PointOutput(Pointing::ToolAxis(axis))),
            world,
        ) == event_account(InputEvent::TabletToolAxis(axis), world),
{
    lemma_nothing_happens();
    match world.output_for_tablet {
        None => {
            reveal_with_fuel(history, 2);
        },
        Some(output) => {
            lemma_history_point(Pointing::ToolAxis(axis), output, world);
            reveal_with_fuel(history, 4);
            lemma_asks_add(seq![Query::Tablet], seq![Query::Tool]);
            assert(seq![Query::Tablet] + seq![Query::Tool] =~= seq![Query::Tablet, Query::Tool]);
        },
    }
}

#[verifier::spinoff_prover]
#[verifier::rlimit(40)]
proof fn lemma_history_tool_proximity(proximity: ToolProximityEvent, world: World)
    ensures
        history(
            PendingView::Waiting(Wait::PointOutput(Pointing::ToolProximity(proximity))),
            world,
        ) == event_account(InputEvent::TabletToolProximity(proximity), world),
{
    lemma_nothing_happens();
    match world.output_for_tablet {
        None => {
            reveal_with_fuel(history, 2);
        },
        Some(output) => {
            let event = InputEvent::TabletToolProximity(proximity);
            let location = Location::EventOn((world.geometry)(output));
            let under = (world.surface_under)(location);
            let tail = PendingView::Waiting(Wait::ProximityTool { proximity, location, under });
            lemma_history_point(Pointing::ToolProximity(proximity), output, world);
            lemma_quiet(tail, world);
            assert(asked(tail, world) =~= event_questions(event, world).skip(4)) by {
                reveal_with_fuel(asked, 4);
            }
            assert(run(tail, world) =~= event_effects(event, world).skip(3)) by {
                reveal_with_fuel(run, 4);
            }
            assert(event_questions(event, world).take(4) =~= seq![Query::OutputForTablet]
                + position_questions(output, world));
            assert(event_effects(event, world).take(3) =~= placed_in(
                Placement::OnOutput(Pointing::ToolProximity(proximity)),
                location,
                world,
            ));
        },
    }
}

/// Processing an event to its end asks and does exactly what the account says, in that order.
#[verifier::spinoff_prover]
#[verifier::rlimit(40)]
pub proof fn history_follows_account(event: InputEvent, world: World)
    ensures
        does(opening(event)) + history(PendingView::Waiting(Wait::ModKey(event)), world)
            == account(event, world),
{
    let start = PendingView::Waiting(Wait::ModKey(event));
    lemma_nothing_happens();
    match event {
        InputEvent::TabletToolAxis(axis) => {
            lemma_step(start, world);
            lemma_history_tool_axis(axis, world);
        },
        InputEvent::TabletToolTip(tip) => {
            lemma_step(start, world);
            lemma_history_tip(tip, world);
        },
        InputEvent::TabletToolProximity(proximity) => {
            lemma_step(start, world);
            lemma_history_tool_proximity(proximity, world);
        },
        InputEvent::DeviceRemoved { tablet_tool } => {
            lemma_history_removed(tablet_tool, world);
        },
        _ => {
            lemma_quiet(start, world);
            asked_follows_questions(event, world);
            lemma_run_effects(event, world);
            lemma_asks_add(seq![Query::ModKey], event_questions(event, world));
        },
    }
    assert(history(start, world) =~= asks(seq![Query::ModKey]) + event_account(event, world));
}

} // verus!
