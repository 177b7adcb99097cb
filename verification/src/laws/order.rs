//! What is asked, and when.

use vstd::prelude::*;

use crate::account::{
    account, activation_questions, asked_follows_questions, asks, does, event_account,
    event_questions, history, history_follows_account, position_questions, Happening,
};
use crate::act::performed;
use crate::config::ActionView;
use crate::effect::{Direction, EffectView, OutputId, Query, ScreenOp, TabletOp};
use crate::event::{
    ButtonEvent, Gesture, InputEvent, KeyboardEvent, MotionEvent, ToolAxisEvent, ToolButtonEvent,
    ToolProximityEvent, ToolTipEvent,
};
use crate::geometry::Location;
use crate::laws::pointer::ends_at;
use crate::laws::tablet::{lemma_readings, new_readings};
use crate::laws::{lemma_outcome, outcome};
use crate::script::{activated, asked, event_effects, placed_in, World};
use crate::state::opening;
use crate::step::{push_if, PendingView, Placement, Pointing, Wait};
use crate::tablet::readings;

verus! {

/// All questions of an event, followed from answer to answer.
pub open spec fn inquiry(event: InputEvent, world: World) -> Seq<Query> {
    asked(PendingView::Waiting(Wait::ModKey(event)), world)
}

/// All questions of carrying an action out.
pub open spec fn inquiry_of(action: ActionView, world: World) -> Seq<Query> {
    asked(performed(action).next, world)
}

/// A key is handed to the keyboard as it is, with the compositor's modifier and a serial, before
/// it is known whether the session is locked. What the action needs is asked after that, and only
/// if the action is carried out.
pub proof fn key_is_handed_over_first(key: KeyboardEvent, world: World, action: ActionView)
    ensures
        ({
            let queries = inquiry(InputEvent::Keyboard(key), world);
            let intercepted = (world.intercepted)(key, world.mod_key, world.serial);
            let handed_over = seq![
                Query::ModKey,
                Query::NextSerial,
                Query::KeyboardInput { key, comp_mod: world.mod_key, serial: world.serial },
                Query::IsLocked,
            ];
            let allowed = match action {
                ActionView::Quit | ActionView::ChangeVt(_) | ActionView::Suspend
                | ActionView::PowerOffMonitors => true,
                _ => !world.locked,
            };
            &&& intercepted is None ==> queries =~= handed_over
            &&& intercepted == Some(action) && !allowed ==> queries =~= handed_over
            &&& intercepted == Some(action) && allowed ==> queries =~= handed_over + inquiry_of(
                action,
                world,
            )
        }),
{
    asked_follows_questions(InputEvent::Keyboard(key), world);
    reveal_with_fuel(asked, 3);
}

/// A screenshot needs something to show; only then a renderer is asked for.
pub proof fn screenshots_ask_for_renderer_last(world: World)
    ensures
        world.active_output is None ==> inquiry_of(ActionView::Screenshot, world) == seq![
            Query::ActiveOutput,
        ],
        world.active_output is Some ==> inquiry_of(ActionView::Screenshot, world) == seq![
            Query::ActiveOutput,
            Query::HasRenderer,
        ],
        world.active_window is None ==> inquiry_of(ActionView::ScreenshotWindow, world) == seq![
            Query::ActiveWindow,
        ],
        world.active_window is Some ==> inquiry_of(ActionView::ScreenshotWindow, world) == seq![
            Query::ActiveWindow,
            Query::HasRenderer,
        ],
{
    reveal_with_fuel(asked, 3);
}

/// Actions on a window ask for the one that has the focus, actions on a monitor for the one in
/// their own direction.
pub proof fn actions_ask_for_what_they_act_on(world: World)
    ensures
        inquiry_of(ActionView::CloseWindow, world) == seq![Query::FocusedWindow],
        inquiry_of(ActionView::FullscreenWindow, world) == seq![Query::FocusedWindow],
        inquiry_of(ActionView::FocusMonitorLeft, world) == seq![
            Query::OutputToward(Direction::Left),
        ],
        inquiry_of(ActionView::FocusMonitorRight, world) == seq![
            Query::OutputToward(Direction::Right),
        ],
        inquiry_of(ActionView::FocusMonitorDown, world) == seq![
            Query::OutputToward(Direction::Down),
        ],
        inquiry_of(ActionView::FocusMonitorUp, world) == seq![Query::OutputToward(Direction::Up)],
        inquiry_of(ActionView::MoveWindowToMonitorLeft, world) == seq![
            Query::OutputToward(Direction::Left),
        ],
        inquiry_of(ActionView::MoveWindowToMonitorRight, world) == seq![
            Query::OutputToward(Direction::Right),
        ],
        inquiry_of(ActionView::MoveWindowToMonitorDown, world) == seq![
            Query::OutputToward(Direction::Down),
        ],
        inquiry_of(ActionView::MoveWindowToMonitorUp, world) == seq![
            Query::OutputToward(Direction::Up),
        ],
{
    reveal_with_fuel(asked, 2);
}

/// All other actions ask nothing.
pub proof fn other_actions_ask_nothing(action: ActionView, world: World)
    requires
        !(action is Screenshot || action is ScreenshotWindow || action is CloseWindow
            || action is FullscreenWindow || action is FocusMonitorLeft
            || action is FocusMonitorRight || action is FocusMonitorDown || action is FocusMonitorUp
            || action is MoveWindowToMonitorLeft || action is MoveWindowToMonitorRight
            || action is MoveWindowToMonitorDown || action is MoveWindowToMonitorUp),
    ensures
        performed(action).next is Idle,
        inquiry_of(action, world).len() == 0,
{
}

/// A motion asks what is where it leads; only if no output is there, what is where it began; and
/// only if none is there either, what the first output is. What is under the pointer is asked
/// last, and of the place where the motion ends.
#[verifier::spinoff_prover]
#[verifier::rlimit(40)]
pub proof fn motion_asks_only_what_it_needs(
    motion: MotionEvent,
    location: Location,
    world: World,
)
    requires
        ends_at(motion, location, world),
    ensures
        ({
            let origin = (world.output_under)(Location::Current);
            inquiry(InputEvent::PointerMotion(motion), world) =~= seq![
                Query::ModKey,
                Query::FirstOutput,
                Query::NextSerial,
                Query::OutputUnder(Location::Moved { delta: motion.delta }),
            ] + match location {
                Location::MovedWithin { .. } => seq![
                    Query::OutputUnder(Location::Current),
                    Query::OutputGeometry(origin->0),
                ],
                Location::CenterOf(_) => seq![
                    Query::OutputUnder(Location::Current),
                    Query::FirstOutput,
                    Query::OutputGeometry(world.fallback_output->0),
                ],
                _ => seq![],
            } + seq![Query::SurfaceUnder(location)]
        }),
{
    asked_follows_questions(InputEvent::PointerMotion(motion), world);
    if let Location::MovedWithin { bounds, .. } = location {
        let origin = (world.output_under)(Location::Current)->0;
        assert(bounds == (world.geometry)(origin).limits());
    }
}

/// A motion for which there is no place asks what it can.
pub proof fn lost_motion_asks(motion: MotionEvent, world: World)
    ensures
        world.first_output is None ==> inquiry(InputEvent::PointerMotion(motion), world) == seq![
            Query::ModKey,
            Query::FirstOutput,
        ],
        world.first_output is Some && (world.output_under)(
            Location::Moved { delta: motion.delta },
        ) is None && (world.output_under)(Location::Current) is None
            && world.fallback_output is None ==> inquiry(InputEvent::PointerMotion(motion), world)
            == seq![
            Query::ModKey,
            Query::FirstOutput,
            Query::NextSerial,
            Query::OutputUnder(Location::Moved { delta: motion.delta }),
            Query::OutputUnder(Location::Current),
            Query::FirstOutput,
        ],
{
    asked_follows_questions(InputEvent::PointerMotion(motion), world);
}

/// The questions for a position that the event gives on an output.
pub open spec fn asks_for_position(
    queries: Seq<Query>,
    which: Query,
    output: Option<OutputId>,
    world: World,
) -> bool {
    &&& queries.len() >= 2
    &&& queries[0] == Query::ModKey
    &&& queries[1] == which
    &&& output is None ==> queries.len() == 2
    &&& output matches Some(output) ==> {
        &&& queries.len() >= 5
        &&& queries[2] == Query::OutputGeometry(output)
        &&& queries[3] == Query::NextSerial
        &&& queries[4] == Query::SurfaceUnder(Location::EventOn((world.geometry)(output)))
    }
}

/// A position is found on the first output, or, for tools, on that of the tablet. A tool that is
/// moved is then looked for, with its tablet, and takes a serial of its own if both are known. A
/// tool that comes or goes is made known, and takes a serial of its own if it comes over a surface
/// and the tablet is known.
pub proof fn positions_ask(
    time_msec: u32,
    axis: ToolAxisEvent,
    proximity: ToolProximityEvent,
    world: World,
    output: OutputId,
)
    ensures
        ({
            let position = inquiry(InputEvent::PointerMotionAbsolute { time_msec }, world);
            let moved = inquiry(InputEvent::TabletToolAxis(axis), world);
            let near = inquiry(InputEvent::TabletToolProximity(proximity), world);
            let location = Location::EventOn((world.geometry)(output));
            let found = world.output_for_tablet == Some(output);
            let reports = world.tablet is Some && world.tool is Some;
            let comes = proximity.state is In && (world.surface_under)(location) is Some
                && world.tablet is Some;
            &&& asks_for_position(position, Query::FirstOutput, world.first_output, world)
            &&& position.len() <= 5
            &&& asks_for_position(moved, Query::OutputForTablet, world.output_for_tablet, world)
            &&& found ==> moved.len() == (if reports {
                8int
            } else {
                7
            }) && moved[5] == Query::Tablet && moved[6] == Query::Tool
            &&& found && reports ==> moved[7] == Query::NextSerial
            &&& asks_for_position(near, Query::OutputForTablet, world.output_for_tablet, world)
            &&& found ==> near.len() == (if comes {
                8int
            } else {
                7
            }) && near[5] == Query::AddTool && near[6] == Query::Tablet
            &&& found && comes ==> near[7] == Query::NextSerial
        }),
{
    asked_follows_questions(InputEvent::PointerMotionAbsolute { time_msec }, world);
    asked_follows_questions(InputEvent::TabletToolAxis(axis), world);
    asked_follows_questions(InputEvent::TabletToolProximity(proximity), world);
}

/// The questions for what is under the cursor: whether there is a grab; if there is none, which
/// window; and if there is none, which output.
pub open spec fn asks_for_activation(queries: Seq<Query>, world: World) -> bool {
    &&& queries.len() == (if world.pointer_grabbed {
        1int
    } else if world.window_under_cursor is Some {
        2
    } else {
        3
    })
    &&& queries[0] == Query::IsPointerGrabbed
    &&& !world.pointer_grabbed ==> queries[1] == Query::WindowUnderCursor
    &&& !world.pointer_grabbed && world.window_under_cursor is None ==> queries[2]
        == Query::OutputUnderCursor
}

/// A button takes a serial; a press then asks what it activates.
pub proof fn buttons_ask(button: ButtonEvent, world: World)
    ensures
        ({
            let queries = inquiry(InputEvent::PointerButton(button), world);
            &&& queries.len() >= 2
            &&& queries[0] == Query::ModKey
            &&& queries[1] == Query::NextSerial
            &&& button.state is Released ==> queries.len() == 2
            &&& button.state is Pressed ==> asks_for_activation(queries.skip(2), world)
        }),
{
    asked_follows_questions(InputEvent::PointerButton(button), world);
    assert(button.state is Pressed ==> inquiry(InputEvent::PointerButton(button), world).skip(2)
        =~= activation_questions(world));
}

/// The tip and the buttons of a tool look for the tool. A known tool takes a serial for its
/// buttons and for its tip when it is put down; then its tip asks what it activates.
pub proof fn tools_ask(tip: ToolTipEvent, button: ToolButtonEvent, world: World)
    ensures
        ({
            let queries = inquiry(InputEvent::TabletToolTip(tip), world);
            &&& queries.len() >= 2
            &&& queries[0] == Query::ModKey
            &&& queries[1] == Query::Tool
            &&& world.tool is None || tip.tip_state is Up ==> queries.len() == 2
            &&& world.tool is Some && tip.tip_state is Down ==> queries.len() >= 3 && queries[2]
                == Query::NextSerial && asks_for_activation(queries.skip(3), world)
        }),
        world.tool is None ==> inquiry(InputEvent::TabletToolButton(button), world) == seq![
            Query::ModKey,
            Query::Tool,
        ],
        world.tool is Some ==> inquiry(InputEvent::TabletToolButton(button), world) == seq![
            Query::ModKey,
            Query::Tool,
            Query::NextSerial,
        ],
{
    asked_follows_questions(InputEvent::TabletToolTip(tip), world);
    asked_follows_questions(InputEvent::TabletToolButton(button), world);
    assert(world.tool is Some && tip.tip_state is Down ==> inquiry(
        InputEvent::TabletToolTip(tip),
        world,
    ).skip(3) =~= activation_questions(world));
}

/// A swipe with three fingers asks for the output under the cursor. Later steps of a swipe are
/// first offered to the layout, with the vertical distance or with whether the swipe was cancelled.
/// What goes to the client takes a serial unless it is an update, and brings the focus up to date
/// last.
pub proof fn gestures_ask(gesture: Gesture, world: World)
    ensures
        ({
            let queries = inquiry(InputEvent::Gesture(gesture), world);
            let with_serial = seq![Query::NextSerial, Query::UpdatePointerFocus];
            let without = seq![Query::UpdatePointerFocus];
            queries =~= seq![Query::ModKey] + match gesture {
                Gesture::SwipeBegin { fingers, .. } => if fingers == 3 {
                    seq![Query::OutputUnderCursor]
                } else {
                    with_serial
                },
                Gesture::SwipeUpdate { delta, .. } => seq![
                    Query::WorkspaceSwitchGestureUpdate(delta.y),
                ] + if (world.swipe_update)(delta.y) is None {
                    without
                } else {
                    seq![]
                },
                Gesture::SwipeEnd { cancelled, .. } => seq![
                    Query::WorkspaceSwitchGestureEnd { cancelled },
                ] + if (world.swipe_end)(cancelled) is None {
                    with_serial
                } else {
                    seq![]
                },
                Gesture::PinchUpdate { .. } => without,
                Gesture::PinchBegin { .. } | Gesture::PinchEnd { .. } | Gesture::HoldBegin { .. }
                | Gesture::HoldEnd { .. } => with_serial,
            }
        }),
{
    asked_follows_questions(InputEvent::Gesture(gesture), world);
}

/// Scrolls, touches and events that are peculiar to a backend ask nothing but what every event
/// asks; nor do devices that come or go, but for the tablets that are left when one goes.
pub proof fn other_events_ask_nothing(event: InputEvent, world: World)
    ensures
        event is PointerAxis || event is DeviceAdded || event is TouchDown || event is TouchMotion
            || event is TouchUp || event is TouchCancel || event is TouchFrame
            || event is Special ==> inquiry(event, world) == seq![Query::ModKey],
        event matches InputEvent::DeviceRemoved { tablet_tool } ==> inquiry(event, world)
            == if tablet_tool {
            seq![Query::ModKey, Query::CountTablets]
        } else {
            seq![Query::ModKey]
        },
{
    asked_follows_questions(event, world);
    assert(event matches InputEvent::DeviceRemoved { tablet_tool } ==> inquiry(event, world)
        =~= if tablet_tool {
        seq![Query::ModKey, Query::CountTablets]
    } else {
        seq![Query::ModKey]
    });
}

/// All that an event asks and does beyond what it begins with, in the order in which it happens.
pub open spec fn happenings(event: InputEvent, world: World) -> Seq<Happening> {
    history(PendingView::Waiting(Wait::ModKey(event)), world)
}

/// Each question and each effect is one thing that happens.
pub proof fn happenings_are_kept(queries: Seq<Query>, effects: Seq<EffectView>, i: int)
    ensures
        asks(queries).len() == queries.len(),
        does(effects).len() == effects.len(),
        0 <= i < queries.len() ==> asks(queries)[i] == Happening::Asks(queries[i]),
        0 <= i < effects.len() ==> does(effects)[i] == Happening::Does(effects[i]),
{
}

proof fn lemma_happenings(event: InputEvent, world: World)
    ensures
        happenings(event, world) == asks(seq![Query::ModKey]) + event_account(event, world),
        inquiry(event, world) == seq![Query::ModKey] + event_questions(event, world),
        outcome(event, world) == event_effects(event, world),
{
    let beginning = does(opening(event));
    let rest = asks(seq![Query::ModKey]) + event_account(event, world);
    history_follows_account(event, world);
    asked_follows_questions(event, world);
    lemma_outcome(event, world);
    assert(happenings(event, world) =~= (beginning + happenings(event, world)).skip(
        beginning.len() as int,
    ));
    assert(rest =~= (beginning + rest).skip(beginning.len() as int));
    assert(beginning + rest =~= account(event, world));
}

/// Everything is found out before anything is done, but for tablet tools that move, come, go or
/// touch, and for tablets that go.
pub proof fn all_is_found_out_first(event: InputEvent, world: World)
    requires
        event is TabletToolAxis || event is TabletToolProximity ==> world.output_for_tablet is None,
        event matches InputEvent::TabletToolTip(tip) ==> tip.tip_state is Up || world.tool is None,
        event matches InputEvent::DeviceRemoved { tablet_tool } ==> !tablet_tool,
    ensures
        happenings(event, world) == asks(inquiry(event, world)) + does(outcome(event, world)),
{
    lemma_happenings(event, world);
    assert(event_account(event, world) =~= asks(event_questions(event, world)) + does(
        event_effects(event, world),
    ));
    assert(asks(inquiry(event, world)) =~= asks(seq![Query::ModKey]) + asks(
        event_questions(event, world),
    ));
}

/// The first questions, then the first effects, then the other questions, then the other effects.
pub open spec fn in_two_turns(
    event: InputEvent,
    world: World,
    queries: int,
    effects: int,
) -> bool {
    &&& 0 <= queries <= inquiry(event, world).len()
    &&& 0 <= effects <= outcome(event, world).len()
    &&& happenings(event, world) =~= asks(inquiry(event, world).take(queries)) + does(
        outcome(event, world).take(effects),
    ) + asks(inquiry(event, world).skip(queries)) + does(outcome(event, world).skip(effects))
}

/// A tool that comes or goes moves the pointer before it is made known itself. The tip of a known
/// tool is down before it is asked what that activates. Tablets are counted when one of them is
/// gone.
pub proof fn some_is_done_first(
    proximity: ToolProximityEvent,
    tip: ToolTipEvent,
    world: World,
)
    ensures
        world.output_for_tablet is Some ==> in_two_turns(
            InputEvent::TabletToolProximity(proximity),
            world,
            5,
            3,
        ),
        world.tool is Some && tip.tip_state is Down ==> in_two_turns(
            InputEvent::TabletToolTip(tip),
            world,
            3,
            1,
        ),
        in_two_turns(InputEvent::DeviceRemoved { tablet_tool: true }, world, 1, 1),
{
    lemma_proximity_turns(proximity, world);
    lemma_tip_turns(tip, world);
    lemma_removed_turns(world);
}

#[verifier::spinoff_prover]
#[verifier::rlimit(40)]
proof fn lemma_proximity_turns(proximity: ToolProximityEvent, world: World)
    ensures
        world.output_for_tablet is Some ==> in_two_turns(
            InputEvent::TabletToolProximity(proximity),
            world,
            5,
            3,
        ),
{
    let event = InputEvent::TabletToolProximity(proximity);
    lemma_happenings(event, world);
    if world.output_for_tablet is Some {
        let queries = event_questions(event, world);
        assert(asks(inquiry(event, world).take(5)) =~= asks(seq![Query::ModKey]) + asks(
            queries.take(4),
        ));
        assert(inquiry(event, world).skip(5) =~= queries.skip(4));
    }
}

#[verifier::spinoff_prover]
#[verifier::rlimit(40)]
proof fn lemma_tip_turns(tip: ToolTipEvent, world: World)
    ensures
        world.tool is Some && tip.tip_state is Down ==> in_two_turns(
            InputEvent::TabletToolTip(tip),
            world,
            3,
            1,
        ),
{
    let event = InputEvent::TabletToolTip(tip);
    lemma_happenings(event, world);
    if world.tool is Some && tip.tip_state is Down {
        assert(inquiry(event, world).skip(3) =~= activation_questions(world));
        assert(outcome(event, world).skip(1) =~= activated(world));
        assert(asks(inquiry(event, world).take(3)) =~= asks(seq![Query::ModKey]) + asks(
            seq![Query::Tool, Query::NextSerial],
        ));
    }
}

proof fn lemma_removed_turns(world: World)
    ensures
        in_two_turns(InputEvent::DeviceRemoved { tablet_tool: true }, world, 1, 1),
{
    let event = InputEvent::DeviceRemoved { tablet_tool: true };
    lemma_happenings(event, world);
    assert(inquiry(event, world).take(1) =~= seq![Query::ModKey]);
    assert(inquiry(event, world).skip(1) =~= seq![Query::CountTablets]);
    assert(outcome(event, world).take(1) =~= seq![EffectView::Tablet(TabletOp::RemoveTablet)]);
    assert(outcome(event, world).skip(1) =~= push_if(
        seq![],
        world.tablets == 0,
        EffectView::Tablet(TabletOp::ClearTools),
    ));
}

/// A tool that is moved takes the pointer along before it is looked for itself. If it and its
/// tablet are known, it reports its readings before it takes a serial of its own and is moved.
#[verifier::spinoff_prover]
#[verifier::rlimit(40)]
pub proof fn moved_tool_in_three_turns(axis: ToolAxisEvent, world: World)
    requires
        world.output_for_tablet is Some,
    ensures
        ({
            let event = InputEvent::TabletToolAxis(axis);
            let queries = inquiry(event, world);
            let effects = outcome(event, world);
            let known = world.tablet is Some && world.tool is Some;
            let reported = if known {
                3 + new_readings(axis)
            } else {
                3
            };
            &&& queries.len() >= 7
            &&& effects.len() >= reported
            &&& happenings(event, world) =~= asks(queries.take(5)) + does(effects.take(3)) + asks(
                queries.subrange(5, 7),
            ) + does(effects.subrange(3, reported)) + asks(queries.skip(7)) + does(
                effects.skip(reported),
            )
        }),
{
    let event = InputEvent::TabletToolAxis(axis);
    let queries = inquiry(event, world);
    let effects = outcome(event, world);
    let output = world.output_for_tablet->0;
    let location = Location::EventOn((world.geometry)(output));
    lemma_happenings(event, world);
    assert(queries.take(5) =~= seq![Query::ModKey] + (seq![Query::OutputForTablet]
        + position_questions(output, world)));
    assert(asks(queries.take(5)) =~= asks(seq![Query::ModKey]) + asks(
        seq![Query::OutputForTablet] + position_questions(output, world),
    ));
    assert(effects.take(3) =~= placed_in(
        Placement::OnOutput(Pointing::ToolAxis(axis)),
        location,
        world,
    ));
    assert(queries.subrange(5, 7) =~= seq![Query::Tablet, Query::Tool]);
    match (world.tablet, world.tool) {
        (Some(tablet), Some(tool)) => {
            lemma_readings(axis, tool);
            let reported = 3 + new_readings(axis);
            assert(effects.subrange(3, reported) =~= readings(axis, tool));
            assert(queries.skip(7) =~= seq![Query::NextSerial]);
            assert(does(effects.skip(reported)) =~= does(effects.subrange(reported, reported + 1))
                + does(seq![EffectView::Screen(ScreenOp::QueueRedrawAll)]));
            assert(effects.subrange(reported, reported + 1) =~= seq![
                EffectView::Tablet(
                    TabletOp::Motion {
                        tool,
                        tablet,
                        under: (world.surface_under)(location),
                        location,
                        serial: world.tool_serial,
                        time_msec: axis.time_msec,
                    },
                ),
            ]);
        },
        _ => {
            assert(queries.skip(7) =~= seq![]);
            assert(effects.skip(3) =~= seq![EffectView::Screen(ScreenOp::QueueRedrawAll)]);
        },
    }
}

} // verus!
