//! What holds of the rules as a whole.

pub mod keys;
pub mod actions;
pub mod pointer;
pub mod tablet;
pub mod gesture;
pub mod waking;
pub mod data;
pub mod order;
pub mod steps;

use vstd::prelude::*;

use crate::account::lemma_run_effects;
use crate::act::{allowed_when_locked, permitted};
use crate::axis::axis_part;
use crate::binds::{
    bind_matches, compositor_mod_held, configured_action, first_bind_decides, first_match,
    key_verdict, pressed_action, CompositorMod, FilterResult, ModifiersState,
};
use crate::config::{ActionView, Bind};
use crate::effect::{
    replies_to, EffectView, OutputId, PointerOp, Query, ReplyView, ScreenOp, SessionOp, TabletOp,
    ToolId,
};
use crate::event::{
    activates_monitors, AxisMotion, AxisSource, Gesture, InputEvent, KeyState, KeyboardEvent,
    MotionEvent, ToolAxisEvent,
};
use crate::geometry::Rectangle;
use crate::keysyms::{first_switch_vt, power_off};
use crate::script::{
    action_effects, answer, answers_left, event_effects, every_event_ends, gesture_effects,
    key_effects, run, script, tool_axis_effects, World,
};
use crate::state::{acceptable, advance, opening};
use crate::step::{open_query, PendingView, Wait};
use crate::tablet::readings;

verus! {

/// All effects of an event beyond those with which every event begins, followed from answer to
/// answer.
pub open spec fn outcome(event: InputEvent, world: World) -> Seq<EffectView> {
    run(PendingView::Waiting(Wait::ModKey(event)), world)
}

proof fn lemma_outcome(event: InputEvent, world: World)
    ensures
        outcome(event, world) == event_effects(event, world),
{
    lemma_run_effects(event, world);
}

/// A key is never kept for no action.
pub proof fn kept_key_has_action(
    binds: Seq<Bind>,
    comp_mod: CompositorMod,
    state: KeyState,
    modified_sym: u32,
    raw_syms: Seq<u32>,
    mods: ModifiersState,
)
    ensures
        key_verdict(binds, comp_mod, state, modified_sym, raw_syms, mods)
            != FilterResult::Intercept(ActionView::Nothing),
{
}

/// The twelve keys that switch virtual terminals do so whatever else is held down and whatever
/// the configuration says.
pub proof fn vt_keys_switch(
    binds: Seq<Bind>,
    comp_mod: CompositorMod,
    vt: i32,
    raw_syms: Seq<u32>,
    mods: ModifiersState,
)
    requires
        1 <= vt <= 12,
    ensures
        pressed_action(
            binds,
            comp_mod,
            (first_switch_vt() + vt - 1) as u32,
            raw_syms,
            mods,
        ) == ActionView::ChangeVt(vt),
{
}

/// The power key suspends whatever else is held down and whatever the configuration says.
pub proof fn power_key_suspends(
    binds: Seq<Bind>,
    comp_mod: CompositorMod,
    raw_syms: Seq<u32>,
    mods: ModifiersState,
)
    ensures
        pressed_action(binds, comp_mod, power_off(), raw_syms, mods) == ActionView::Suspend,
{
}

/// A key for which there is no bind has no configured action.
pub proof fn unbound_key_has_no_action(
    binds: Seq<Bind>,
    raw: u32,
    comp_mod: CompositorMod,
    mods: ModifiersState,
)
    requires
        forall|i: int|
            0 <= i < binds.len() ==> !bind_matches(#[trigger] binds[i], raw, comp_mod, mods),
    ensures
        configured_action(binds, raw, comp_mod, mods) is Nothing,
{
}

/// Binds that come later do not take a key from one that has it.
pub proof fn later_binds_change_nothing(
    binds: Seq<Bind>,
    later: Seq<Bind>,
    i: int,
    raw: u32,
    comp_mod: CompositorMod,
    mods: ModifiersState,
)
    requires
        0 <= i < binds.len(),
        bind_matches(binds[i], raw, comp_mod, mods),
    ensures
        configured_action(binds + later, raw, comp_mod, mods) == configured_action(
            binds,
            raw,
            comp_mod,
            mods,
        ),
{
    let k = lemma_some_first(binds, i, raw, comp_mod, mods);
    assert forall|j: int| 0 <= j < k implies !bind_matches(
        #[trigger] (binds + later)[j],
        raw,
        comp_mod,
        mods,
    ) by {
        assert((binds + later)[j] == binds[j]);
    }
    assert((binds + later)[k] == binds[k]);
    first_bind_decides(binds, k, raw, comp_mod, mods);
    first_bind_decides(binds + later, k, raw, comp_mod, mods);
}

proof fn lemma_some_first(
    binds: Seq<Bind>,
    i: int,
    raw: u32,
    comp_mod: CompositorMod,
    mods: ModifiersState,
) -> (k: int)
    requires
        0 <= i < binds.len(),
        bind_matches(binds[i], raw, comp_mod, mods),
    ensures
        first_match(binds, k, raw, comp_mod, mods),
    decreases i,
{
    if forall|j: int| 0 <= j < i ==> !bind_matches(#[trigger] binds[j], raw, comp_mod, mods) {
        i
    } else {
        let j = choose|j: int|
            0 <= j < i && bind_matches(#[trigger] binds[j], raw, comp_mod, mods);
        lemma_some_first(binds, j, raw, comp_mod, mods)
    }
}

/// A bind matches with exactly its modifiers: those held down are no fewer and no more. The
/// compositor's modifier is held down if and only if the bind is built on it, and then it makes
/// no difference whether the bind also gives the keyboard's own name of it.
pub proof fn modifiers_match_exactly(
    bind: Bind,
    raw: u32,
    comp_mod: CompositorMod,
    mods: ModifiersState,
)
    requires
        bind.key.keysym == raw,
    ensures
        bind_matches(bind, raw, comp_mod, mods) <==> {
            let m = bind.key.modifiers;
            &&& m.ctrl == mods.ctrl
            &&& m.shift == mods.shift
            &&& m.compositor == compositor_mod_held(comp_mod, mods)
            &&& match comp_mod {
                CompositorMod::Super => m.alt == mods.alt && (m.logo ==> mods.logo),
                CompositorMod::Alt => m.logo == mods.logo && (m.alt ==> mods.alt),
            }
        },
{
}

/// What a locked session does for a key: end, switch the virtual terminal, suspend, power the
/// monitors off, or nothing.
#[verifier::spinoff_prover]
#[verifier::rlimit(40)]
pub proof fn locked_session_is_restricted(key: KeyboardEvent, world: World)
    requires
        world.locked,
    ensures
        key_effects(key, world).len() <= 1,
        forall|i: int|
            0 <= i < key_effects(key, world).len() ==> match #[trigger] key_effects(key, world)[i] {
                EffectView::Session(op) => op is Stop || op is ChangeVt || op is Suspend
                    || op is DeactivateMonitors,
                _ => false,
            },
{
}

/// A lock takes nothing from the actions that it allows.
pub proof fn lock_keeps_allowed_actions(action: ActionView, locked: bool)
    requires
        allowed_when_locked(action),
    ensures
        permitted(Some(action), locked) == Some(action),
{
}

/// Keys are handed to the keyboard with the filter of the binds.
pub open spec fn filters_keys(
    world: World,
    binds: Seq<Bind>,
    modified_sym: u32,
    raw_syms: Seq<u32>,
    mods: ModifiersState,
) -> bool {
    forall|key: KeyboardEvent, comp_mod: CompositorMod, serial: u32|
        #[trigger] (world.intercepted)(key, comp_mod, serial) == match key_verdict(
            binds,
            comp_mod,
            key.state,
            modified_sym,
            raw_syms,
            mods,
        ) {
            FilterResult::Intercept(action) => Some(action),
            FilterResult::Forward => None,
        }
}

/// A key that is pressed in a session that is not locked has the effects of its action; a key
/// without one has none.
pub proof fn pressed_key_acts(
    key: KeyboardEvent,
    world: World,
    binds: Seq<Bind>,
    modified_sym: u32,
    raw_syms: Seq<u32>,
    mods: ModifiersState,
)
    requires
        filters_keys(world, binds, modified_sym, raw_syms, mods),
        key.state is Pressed,
        !world.locked,
    ensures
        key_effects(key, world) == action_effects(
            pressed_action(binds, world.mod_key, modified_sym, raw_syms, mods),
            world,
        ),
{
}

/// A key that is released has no effect beyond those with which every event begins.
pub proof fn released_key_does_nothing(
    key: KeyboardEvent,
    world: World,
    binds: Seq<Bind>,
    modified_sym: u32,
    raw_syms: Seq<u32>,
    mods: ModifiersState,
)
    requires
        filters_keys(world, binds, modified_sym, raw_syms, mods),
        key.state is Released,
    ensures
        script(InputEvent::Keyboard(key), world) == seq![
            EffectView::Session(SessionOp::AdvanceAnimations),
        ],
{
}

/// Animations are brought up to date before anything else happens.
pub proof fn animations_come_first(event: InputEvent, world: World)
    ensures
        script(event, world).len() >= 1,
        script(event, world)[0] == EffectView::Session(SessionOp::AdvanceAnimations),
{
}

/// Without an output a motion does not move the pointer.
pub proof fn no_output_no_motion(motion: MotionEvent, world: World)
    requires
        world.first_output is None,
    ensures
        script(InputEvent::PointerMotion(motion), world) == opening(
            InputEvent::PointerMotion(motion),
        ),
{
}

/// The limits to which a motion is clipped are those of the points of the output, and there is a
/// point within them.
pub proof fn clipping_stays_on_output(geometry: Rectangle, x: int, y: int)
    requires
        geometry.has_bounds(),
    ensures
        geometry.limits().x_min <= geometry.limits().x_max,
        geometry.limits().y_min <= geometry.limits().y_max,
        geometry.limits().x_min <= x <= geometry.limits().x_max <==> geometry.loc.x <= x
            < geometry.loc.x + geometry.size.w,
        geometry.limits().y_min <= y <= geometry.limits().y_max <==> geometry.loc.y <= y
            < geometry.loc.y + geometry.size.h,
{
}

/// The step of a gesture belongs to the compositor: a swipe begins with three fingers, or it goes
/// on or ends while workspaces are being swiped.
pub open spec fn kept(gesture: Gesture, world: World) -> bool {
    match gesture {
        Gesture::SwipeBegin { fingers, .. } => fingers == 3,
        Gesture::SwipeUpdate { delta, .. } => (world.swipe_update)(delta.y) is Some,
        Gesture::SwipeEnd { cancelled, .. } => (world.swipe_end)(cancelled) is Some,
        _ => false,
    }
}

/// A step of a gesture that the compositor keeps does not reach the client.
pub proof fn kept_gesture_is_not_forwarded(gesture: Gesture, world: World, i: int)
    requires
        kept(gesture, world),
        0 <= i < gesture_effects(gesture, world).len(),
    ensures
        !(gesture_effects(gesture, world)[i] is Pointer),
{
}

/// A step of a gesture that the compositor does not keep goes to the client last and once, with
/// a serial unless it is an update.
pub proof fn other_gestures_are_forwarded(gesture: Gesture, world: World)
    requires
        !kept(gesture, world),
    ensures
        gesture_effects(gesture, world).last() == EffectView::Pointer(
            PointerOp::Gesture {
                gesture,
                serial: if gesture is SwipeUpdate || gesture is PinchUpdate {
                    None
                } else {
                    Some(world.serial)
                },
            },
        ),
        forall|i: int|
            0 <= i < gesture_effects(gesture, world).len() - 1 ==> #[trigger] gesture_effects(
                gesture,
                world,
            )[i] == EffectView::Pointer(PointerOp::Frame),
{
}

/// A motion of the pointer or of a tablet tool that has an effect ends with everything being
/// drawn anew, so that the cursor is seen where it is.
pub proof fn moved_cursor_is_redrawn(event: InputEvent, world: World)
    requires
        event is PointerMotion || event is PointerMotionAbsolute || event is TabletToolAxis,
        event_effects(event, world).len() > 0,
    ensures
        script(event, world).last() == EffectView::Screen(ScreenOp::QueueRedrawAll),
{
}

/// The tools go if and only if the last tablet goes.
pub proof fn tools_go_with_last_tablet(world: World)
    ensures
        event_effects(InputEvent::DeviceRemoved { tablet_tool: true }, world).contains(
            EffectView::Tablet(TabletOp::ClearTools),
        ) <==> world.tablets == 0,
{
    let effects = event_effects(InputEvent::DeviceRemoved { tablet_tool: true }, world);
    if world.tablets == 0 {
        assert(effects[1] == EffectView::Tablet(TabletOp::ClearTools));
    }
}

/// An axis that stops does not move at the same time.
pub proof fn stopped_axis_does_not_move(source: AxisSource, motion: AxisMotion)
    requires
        axis_part(source, motion).stop,
    ensures
        axis_part(source, motion).step is None,
{
}

/// Monitors that are powered off wake up exactly on the events that count as activity.
#[verifier::spinoff_prover]
#[verifier::rlimit(40)]
pub proof fn only_activity_wakes_monitors(event: InputEvent, world: World)
    ensures
        script(event, world).contains(EffectView::Session(SessionOp::ActivateMonitors))
            <==> activates_monitors(event),
{
    let wake = EffectView::Session(SessionOp::ActivateMonitors);
    if activates_monitors(event) {
        assert(script(event, world)[1] == wake);
    }
    assert forall|i: int| 0 <= i < event_effects(event, world).len() implies #[trigger]
        event_effects(event, world)[i] != wake by {}
}

/// Nothing is activated by a click or by the tip of a tool while the pointer is grabbed.
pub proof fn grab_prevents_activation(event: InputEvent, world: World, i: int)
    requires
        world.pointer_grabbed,
        event is PointerButton || event is TabletToolTip,
        0 <= i < script(event, world).len(),
    ensures
        !(script(event, world)[i] is Layout),
{
}

/// A pointer event that a client takes in only with the end of its group.
pub open spec fn needs_frame(effect: EffectView) -> bool {
    match effect {
        EffectView::Pointer(op) => op is Motion || op is RelativeMotion || op is Button
            || op is Axis,
        _ => false,
    }
}

proof fn lemma_key_framed(key: KeyboardEvent, world: World, i: int)
    requires
        0 <= i < key_effects(key, world).len(),
    ensures
        !needs_frame(key_effects(key, world)[i]),
{
}

proof fn lemma_readings_framed(axis: ToolAxisEvent, tool: ToolId, i: int)
    requires
        0 <= i < readings(axis, tool).len(),
    ensures
        readings(axis, tool)[i] is Tablet,
{
}

proof fn lemma_tool_axis_framed(axis: ToolAxisEvent, output: OutputId, world: World, i: int)
    requires
        0 <= i < tool_axis_effects(axis, output, world).len(),
        needs_frame(tool_axis_effects(axis, output, world)[i]),
    ensures
        i < 2 < tool_axis_effects(axis, output, world).len(),
        tool_axis_effects(axis, output, world)[2] == EffectView::Pointer(PointerOp::Frame),
{
    if let Some(tool) = world.tool {
        if 0 <= i - 3 < readings(axis, tool).len() {
            lemma_readings_framed(axis, tool, i - 3);
        }
    }
}

proof fn lemma_gesture_framed(gesture: Gesture, world: World, i: int)
    requires
        0 <= i < gesture_effects(gesture, world).len(),
    ensures
        !needs_frame(gesture_effects(gesture, world)[i]),
{
}

#[verifier::spinoff_prover]
#[verifier::rlimit(40)]
proof fn lemma_framed(event: InputEvent, world: World, i: int) -> (j: int)
    requires
        0 <= i < event_effects(event, world).len(),
        needs_frame(event_effects(event, world)[i]),
    ensures
        i < j < event_effects(event, world).len(),
        event_effects(event, world)[j] == EffectView::Pointer(PointerOp::Frame),
{
    match event {
        InputEvent::Keyboard(key) => {
            lemma_key_framed(key, world, i);
            0
        },
        InputEvent::PointerMotion(_) => 3,
        InputEvent::PointerButton(_) => event_effects(event, world).len() - 1,
        InputEvent::TabletToolAxis(axis) => {
            lemma_tool_axis_framed(axis, world.output_for_tablet->0, world, i);
            2
        },
        InputEvent::Gesture(gesture) => {
            lemma_gesture_framed(gesture, world, i);
            0
        },
        _ => 2,
    }
}

/// Motions, buttons and scrolls are followed by the end of their group.
pub proof fn pointer_events_are_framed(event: InputEvent, world: World, i: int)
    requires
        0 <= i < script(event, world).len(),
        needs_frame(script(event, world)[i]),
    ensures
        exists|j: int|
            i < j < script(event, world).len() && #[trigger] script(event, world)[j]
                == EffectView::Pointer(PointerOp::Frame),
{
    let at = opening(event).len() as int;
    assert(script(event, world)[i] == event_effects(event, world)[i - at]);
    let j = lemma_framed(event, world, i - at);
    assert(script(event, world)[at + j] == EffectView::Pointer(PointerOp::Frame));
}

/// A world that the rules can go on with at every point: no key is kept for no action, where
/// there was an output there still is one, and outputs have an extent.
pub open spec fn sound(world: World) -> bool {
    &&& forall|key: KeyboardEvent, comp_mod: CompositorMod, serial: u32|
        #[trigger] (world.intercepted)(key, comp_mod, serial) != Some(ActionView::Nothing)
    &&& world.first_output is Some ==> world.fallback_output is Some
    &&& forall|output: OutputId| (#[trigger] (world.geometry)(output)).has_bounds()
}

/// Every answer on the way from a point to the end of the event is one to go on with.
pub open spec fn run_accepts(pending: PendingView, world: World) -> bool
    decreases answers_left(pending),
{
    pending is Idle || {
        proof {
            if !(pending is Idle) {
                every_event_ends(pending, answer(world, pending));
            }
        }
        &&& acceptable(pending, answer(world, pending))
        &&& run_accepts(advance(pending, answer(world, pending)).next, world)
    }
}

/// What holds of the points that can be reached in a sound world.
spec fn reachable(pending: PendingView, world: World) -> bool {
    match pending {
        PendingView::Idle => true,
        PendingView::Lock(action) => action != Some(ActionView::Nothing),
        PendingView::Waiting(wait) => match wait {
            Wait::MotionSerial(_) | Wait::MotionTarget { .. } | Wait::MotionOrigin { .. }
            | Wait::MotionFallback { .. } => world.first_output is Some,
            _ => true,
        },
    }
}

#[verifier::spinoff_prover]
#[verifier::rlimit(40)]
proof fn lemma_run_accepts(pending: PendingView, world: World)
    requires
        sound(world),
        reachable(pending, world),
    ensures
        run_accepts(pending, world),
    decreases answers_left(pending),
{
    if !(pending is Idle) {
        answers_fit(world, pending);
        every_event_ends(pending, answer(world, pending));
        lemma_run_accepts(advance(pending, answer(world, pending)).next, world);
    }
}

/// In a sound world every event can be processed to its end.
pub proof fn sound_world_is_accepted(event: InputEvent, world: World)
    requires
        sound(world),
    ensures
        run_accepts(PendingView::Waiting(Wait::ModKey(event)), world),
{
    lemma_run_accepts(PendingView::Waiting(Wait::ModKey(event)), world);
}

/// The answers of a world have the form that the open question asks for.
pub proof fn answers_fit(world: World, pending: PendingView)
    requires
        !(pending is Idle),
    ensures
        open_query(pending) is Some,
        replies_to(open_query(pending)->0, answer(world, pending)),
{
}

/// The answer of a world is the one to the question that is open, with what the question asks
/// about. A serial or the first output that is asked for again may be another one.
pub proof fn answer_is_to_the_question(world: World, pending: PendingView)
    ensures
        match open_query(pending) {
            None => pending is Idle,
            Some(query) => answer(world, pending) == match query {
                Query::ModKey => ReplyView::ModKey(world.mod_key),
                Query::NextSerial => ReplyView::Serial(
                    if pending matches PendingView::Waiting(wait) && (wait is AxisSerial
                        || wait is ProximitySerial) {
                        world.tool_serial
                    } else {
                        world.serial
                    },
                ),
                Query::KeyboardInput { key, comp_mod, serial } => ReplyView::Intercepted(
                    (world.intercepted)(key, comp_mod, serial),
                ),
                Query::IsLocked => ReplyView::Flag(world.locked),
                Query::ActiveOutput => ReplyView::Output(world.active_output),
                Query::ActiveWindow => ReplyView::WindowOnOutput(world.active_window),
                Query::HasRenderer => ReplyView::Flag(world.has_renderer),
                Query::FocusedWindow => ReplyView::Window(world.focused_window),
                Query::OutputToward(direction) => ReplyView::Output(
                    (world.output_toward)(direction),
                ),
                Query::FirstOutput => ReplyView::Output(
                    if pending matches PendingView::Waiting(wait) && wait is MotionFallback {
                        world.fallback_output
                    } else {
                        world.first_output
                    },
                ),
                Query::OutputUnder(location) => ReplyView::Output((world.output_under)(location)),
                Query::OutputGeometry(output) => ReplyView::Geometry((world.geometry)(output)),
                Query::OutputForTablet => ReplyView::Output(world.output_for_tablet),
                Query::SurfaceUnder(location) => ReplyView::Surface(
                    (world.surface_under)(location),
                ),
                Query::IsPointerGrabbed => ReplyView::Flag(world.pointer_grabbed),
                Query::WindowUnderCursor => ReplyView::Window(world.window_under_cursor),
                Query::OutputUnderCursor => ReplyView::Output(world.output_under_cursor),
                Query::Tablet => ReplyView::Tablet(world.tablet),
                Query::Tool => ReplyView::Tool(world.tool),
                Query::AddTool => ReplyView::NewTool(world.added_tool),
                Query::CountTablets => ReplyView::Count(world.tablets),
                Query::WorkspaceSwitchGestureUpdate(delta_y) => ReplyView::Swiped(
                    (world.swipe_update)(delta_y),
                ),
                Query::WorkspaceSwitchGestureEnd { cancelled } => ReplyView::Output(
                    (world.swipe_end)(cancelled),
                ),
                Query::UpdatePointerFocus => ReplyView::Flag(world.focus_changed),
            },
        },
{
}

} // verus!
