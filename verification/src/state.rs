//! The processing of input events, from one answer to the next.

use vstd::prelude::*;

use crate::act::{
    after_lock, after_screenshot_output, after_screenshot_window, go_after_lock,
    go_after_screenshot_output, go_after_screenshot_window, go_close, go_focus_monitor,
    go_fullscreen, go_move_to_monitor, monitor_focused, moved_to_monitor, on_found, screen_if,
};
use crate::axis::{axis_frame, axis_frame_of};
use crate::binds::CompositorMod;
use crate::config::{Action, ActionView, Config, Real};
use crate::effect::{
    effects_view, replies_to, Effect, EffectView, LayoutOp, OutputId, PointerOp, Query, Reply,
    ReplyView, ScreenOp, SessionOp, TabletOp, WindowId,
};
use crate::event::{activates_monitors, should_activate_monitors, AxisEvent, InputEvent};
use crate::geometry::Location;
use crate::gesture::{
    after_swipe_end, after_swipe_output, after_swipe_update, begin_gesture, forwarded,
    gesture_begun, go_gesture_focus, go_swipe_end, go_swipe_output, go_swipe_update,
};
use crate::pointer::{
    after_button_serial, after_grab, after_motion_center, after_motion_clip, after_motion_fallback,
    after_motion_origin, after_motion_output, after_motion_target, after_output,
    after_place_surface, after_point_output, after_window, go_button_serial, go_grab,
    go_motion_center, go_motion_clip, go_motion_fallback, go_motion_origin, go_motion_output,
    go_motion_target, go_output, go_place_surface, go_point_output, go_window,
};
use crate::step::{
    done, emit, finish, just_wait, no_effects, only, open_query, push_if, query_of, wait_at, waits,
    Pending, PendingView, Placement, Pointing, Step, StepView, Wait,
};
use crate::tablet::{
    after_axis_serial, after_axis_tool, after_proximity_serial, after_proximity_tablet,
    after_tablet_count, after_tip_serial, after_tip_tool, after_tool_button_serial,
    after_tool_button_tool, go_axis_serial, go_axis_tool, go_proximity_serial, go_proximity_tablet,
    go_tablet_count, go_tip_serial, go_tip_tool, go_tool_button_serial, go_tool_button_tool,
};

verus! {

/// The configuration, and how far the current event has come.
pub struct State {
    pub config: Config,
    pub pending: Pending,
}

/// An event of a device that libinput drives.
#[derive(Clone, Copy, PartialEq, Eq, Debug)]
pub enum LibinputEvent {
    /// A device appeared. It can tell this many fingers apart when they tap.
    DeviceAdded { tap_finger_count: u32 },
    Other,
}

/// A setting of a touchpad.
#[derive(Clone, Copy, PartialEq, Eq, Debug)]
pub enum TouchpadSetting {
    TapEnabled(bool),
    NaturalScrollEnabled(bool),
    AccelSpeed(Real),
}

/// The effects with which every event begins.
///
/// The end of an animation runs some logic, so it must not be late. Monitors that were powered
/// off are powered on again.
pub open spec fn opening(event: InputEvent) -> Seq<EffectView> {
    push_if(
        seq![EffectView::Session(SessionOp::AdvanceAnimations)],
        activates_monitors(event),
        EffectView::Session(SessionOp::ActivateMonitors),
    )
}

/// The effects of a scroll.
pub open spec fn scroll_effects(axis: AxisEvent) -> Seq<EffectView> {
    seq![
        EffectView::Pointer(PointerOp::UpdateFocus),
        EffectView::Pointer(PointerOp::Axis(axis_frame_of(axis))),
        EffectView::Pointer(PointerOp::Frame),
    ]
}

/// How an event goes on after its opening.
pub open spec fn after_mod_key(event: InputEvent, comp_mod: CompositorMod) -> StepView {
    match event {
        InputEvent::Keyboard(key) => waits(seq![], Wait::KeySerial { key, comp_mod }),
        InputEvent::PointerMotion(motion) => waits(seq![], Wait::MotionOutput(motion)),
        InputEvent::PointerMotionAbsolute { time_msec } => waits(
            seq![],
            Wait::PointOutput(Pointing::Absolute { time_msec }),
        ),
        InputEvent::PointerButton(button) => waits(seq![], Wait::ButtonSerial(button)),
        InputEvent::PointerAxis(axis) => done(scroll_effects(axis)),
        InputEvent::TabletToolAxis(axis) => waits(
            seq![],
            Wait::PointOutput(Pointing::ToolAxis(axis)),
        ),
        InputEvent::TabletToolTip(tip) => waits(seq![], Wait::TipTool(tip)),
        InputEvent::TabletToolProximity(proximity) => waits(
            seq![],
            Wait::PointOutput(Pointing::ToolProximity(proximity)),
        ),
        InputEvent::TabletToolButton(button) => waits(seq![], Wait::ToolButtonTool(button)),
        InputEvent::DeviceAdded { tablet_tool } => done(
            push_if(seq![], tablet_tool, EffectView::Tablet(TabletOp::AddTablet)),
        ),
        InputEvent::DeviceRemoved { tablet_tool } => if tablet_tool {
            waits(seq![EffectView::Tablet(TabletOp::RemoveTablet)], Wait::TabletCount)
        } else {
            done(seq![])
        },
        InputEvent::Gesture(gesture) => gesture_begun(gesture),
        InputEvent::TouchDown | InputEvent::TouchMotion | InputEvent::TouchUp
        | InputEvent::TouchCancel | InputEvent::TouchFrame | InputEvent::Special => done(seq![]),
    }
}

/// How an event goes on from a point at which it waits.
pub open spec fn after_wait(wait: Wait, reply: ReplyView) -> StepView {
    match (wait, reply) {
        (Wait::ModKey(event), ReplyView::ModKey(comp_mod)) => after_mod_key(event, comp_mod),
        (Wait::KeySerial { key, comp_mod }, ReplyView::Serial(serial)) => waits(
            seq![],
            Wait::KeyInput { key, comp_mod, serial },
        ),
        (Wait::KeyInput { .. }, ReplyView::Intercepted(action)) => StepView {
            effects: seq![],
            next: PendingView::Lock(action),
        },
        (Wait::ScreenshotOutput, ReplyView::Output(output)) => after_screenshot_output(output),
        (Wait::ScreenshotRenderer { output }, ReplyView::Flag(renderer)) => done(
            push_if(seq![], renderer, EffectView::Screen(ScreenOp::Screenshot(output))),
        ),
        (Wait::ScreenshotWindow, ReplyView::WindowOnOutput(active)) => after_screenshot_window(
            active,
        ),
        (Wait::ScreenshotWindowRenderer { window, output }, ReplyView::Flag(renderer)) => done(
            push_if(
                seq![],
                renderer,
                EffectView::Screen(ScreenOp::ScreenshotWindow { window, output }),
            ),
        ),
        (Wait::CloseWindow, ReplyView::Window(window)) => done(
            on_found(window, |w: WindowId| seq![EffectView::Screen(ScreenOp::SendClose(w))]),
        ),
        (Wait::FullscreenWindow, ReplyView::Window(window)) => done(
            on_found(window, |w: WindowId| seq![EffectView::Layout(LayoutOp::ToggleFullscreen(w))]),
        ),
        (Wait::FocusMonitor(_), ReplyView::Output(output)) => done(
            on_found(output, |o: OutputId| monitor_focused(o)),
        ),
        (Wait::MoveWindowToMonitor(_), ReplyView::Output(output)) => done(
            on_found(output, |o: OutputId| moved_to_monitor(o)),
        ),
        (Wait::MotionOutput(motion), ReplyView::Output(first)) => after_motion_output(
            motion,
            first,
        ),
        (Wait::MotionSerial(motion), ReplyView::Serial(serial)) => waits(
            seq![],
            Wait::MotionTarget { motion, serial },
        ),
        (Wait::MotionTarget { motion, serial }, ReplyView::Output(target)) => after_motion_target(
            motion,
            serial,
            target,
        ),
        (Wait::MotionOrigin { motion, serial }, ReplyView::Output(origin)) => after_motion_origin(
            motion,
            serial,
            origin,
        ),
        (Wait::MotionClip { motion, serial, .. }, ReplyView::Geometry(geometry)) =>
            after_motion_clip(motion, serial, geometry),
        (Wait::MotionFallback { motion, serial }, ReplyView::Output(first)) =>
            after_motion_fallback(motion, serial, first),
        (Wait::MotionCenter { motion, serial, .. }, ReplyView::Geometry(geometry)) =>
            after_motion_center(motion, serial, geometry),
        (Wait::PointOutput(pointing), ReplyView::Output(output)) => after_point_output(
            pointing,
            output,
        ),
        (Wait::PointGeometry { pointing, .. }, ReplyView::Geometry(geometry)) => waits(
            seq![],
            Wait::PointSerial { pointing, geometry },
        ),
        (Wait::PointSerial { pointing, geometry }, ReplyView::Serial(serial)) => waits(
            seq![],
            Wait::PlaceSurface {
                placement: Placement::OnOutput(pointing),
                location: Location::EventOn(geometry),
                serial,
            },
        ),
        (Wait::PlaceSurface { placement, location, serial }, ReplyView::Surface(under)) =>
            after_place_surface(placement, location, serial, under),
        (Wait::AxisTablet { axis, location, under }, ReplyView::Tablet(tablet)) => waits(
            seq![],
            Wait::AxisTool { axis, location, under, tablet },
        ),
        (Wait::AxisTool { axis, location, under, tablet }, ReplyView::Tool(tool)) =>
            after_axis_tool(axis, location, under, tablet, tool),
        (Wait::AxisSerial { axis, location, under, tablet, tool }, ReplyView::Serial(serial)) =>
            after_axis_serial(axis, location, under, tablet, tool, serial),
        (Wait::ProximityTool { proximity, location, under }, ReplyView::NewTool(tool)) => waits(
            seq![],
            Wait::ProximityTablet { proximity, location, under, tool },
        ),
        (Wait::ProximityTablet { proximity, location, under, tool }, ReplyView::Tablet(tablet)) =>
            after_proximity_tablet(proximity, location, under, tool, tablet),
        (
            Wait::ProximitySerial { location, under, tablet, tool, time_msec },
            ReplyView::Serial(serial),
        ) => after_proximity_serial(location, under, tablet, tool, time_msec, serial),
        (Wait::ButtonSerial(button), ReplyView::Serial(serial)) => after_button_serial(
            button,
            serial,
        ),
        (Wait::TipTool(tip), ReplyView::Tool(tool)) => after_tip_tool(tip, tool),
        (Wait::TipSerial { tool, time_msec }, ReplyView::Serial(serial)) => after_tip_serial(
            tool,
            time_msec,
            serial,
        ),
        (Wait::ActivateGrab(click), ReplyView::Flag(grabbed)) => after_grab(click, grabbed),
        (Wait::ActivateWindow(click), ReplyView::Window(window)) => after_window(click, window),
        (Wait::ActivateOutput(click), ReplyView::Output(output)) => after_output(click, output),
        (Wait::ToolButtonTool(button), ReplyView::Tool(tool)) => after_tool_button_tool(
            button,
            tool,
        ),
        (Wait::ToolButtonSerial { button, tool }, ReplyView::Serial(serial)) =>
            after_tool_button_serial(button, tool, serial),
        (Wait::TabletCount, ReplyView::Count(count)) => after_tablet_count(count),
        (Wait::SwipeOutput, ReplyView::Output(output)) => after_swipe_output(output),
        (Wait::SwipeUpdate { delta, time_msec }, ReplyView::Swiped(swiped)) => after_swipe_update(
            delta,
            time_msec,
            swiped,
        ),
        (Wait::SwipeEnd { cancelled, time_msec }, ReplyView::Output(output)) => after_swipe_end(
            cancelled,
            time_msec,
            output,
        ),
        (Wait::GestureSerial(gesture), ReplyView::Serial(serial)) => waits(
            seq![],
            Wait::GestureFocus { gesture, serial: Some(serial) },
        ),
        (Wait::GestureFocus { gesture, serial }, ReplyView::Flag(changed)) => done(
            forwarded(gesture, serial, changed),
        ),
        _ => done(seq![]),
    }
}

/// How an event goes on when an answer comes.
pub open spec fn advance(pending: PendingView, reply: ReplyView) -> StepView {
    match (pending, reply) {
        (PendingView::Lock(action), ReplyView::Flag(locked)) => after_lock(action, locked),
        (PendingView::Waiting(wait), _) => after_wait(wait, reply),
        _ => done(seq![]),
    }
}

/// The answer is one that the event can go on with.
///
/// It has the form that the open question asks for. Where an output is clipped to, it has an
/// extent; where there was an output, there still is one; and no key was kept for no action.
pub open spec fn acceptable(pending: PendingView, reply: ReplyView) -> bool {
    &&& open_query(pending) is Some
    &&& replies_to(open_query(pending)->0, reply)
    &&& match (pending, reply) {
        (PendingView::Lock(action), ReplyView::Flag(locked)) => locked || action != Some(
            ActionView::Nothing,
        ),
        (PendingView::Waiting(Wait::MotionFallback { .. }), ReplyView::Output(first)) =>
            first is Some,
        (PendingView::Waiting(Wait::MotionClip { .. }), ReplyView::Geometry(geometry)) =>
            geometry.has_bounds(),
        _ => true,
    }
}

/// The settings of a new touchpad. Only touchpads tell fingers apart when they tap.
pub open spec fn touchpad_settings(config: Config, event: LibinputEvent) -> Seq<TouchpadSetting> {
    let touchpad = config.input.touchpad;
    match event {
        LibinputEvent::DeviceAdded { tap_finger_count } => if tap_finger_count > 0 {
            seq![
                TouchpadSetting::TapEnabled(touchpad.tap),
                TouchpadSetting::NaturalScrollEnabled(touchpad.natural_scroll),
                TouchpadSetting::AccelSpeed(touchpad.accel_speed),
            ]
        } else {
            seq![]
        },
        LibinputEvent::Other => seq![],
    }
}

fn go_mod_key(event: InputEvent, comp_mod: CompositorMod) -> (res: Step)
    ensures
        res@ == after_mod_key(event, comp_mod),
{
    match event {
        InputEvent::Keyboard(key) => just_wait(Wait::KeySerial { key, comp_mod }),
        InputEvent::PointerMotion(motion) => just_wait(Wait::MotionOutput(motion)),
        InputEvent::PointerMotionAbsolute { time_msec } => just_wait(
            Wait::PointOutput(Pointing::Absolute { time_msec }),
        ),
        InputEvent::PointerButton(button) => just_wait(Wait::ButtonSerial(button)),
        InputEvent::PointerAxis(axis) => {
            let mut effects = no_effects();
            emit(&mut effects, Effect::Pointer(PointerOp::UpdateFocus));
            emit(&mut effects, Effect::Pointer(PointerOp::Axis(axis_frame(&axis))));
            emit(&mut effects, Effect::Pointer(PointerOp::Frame));
            finish(effects)
        },
        InputEvent::TabletToolAxis(axis) => just_wait(Wait::PointOutput(Pointing::ToolAxis(axis))),
        InputEvent::TabletToolTip(tip) => just_wait(Wait::TipTool(tip)),
        InputEvent::TabletToolProximity(proximity) => just_wait(
            Wait::PointOutput(Pointing::ToolProximity(proximity)),
        ),
        InputEvent::TabletToolButton(button) => just_wait(Wait::ToolButtonTool(button)),
        InputEvent::DeviceAdded { tablet_tool } => {
            if tablet_tool {
                finish(only(Effect::Tablet(TabletOp::AddTablet)))
            } else {
                finish(no_effects())
            }
        },
        InputEvent::DeviceRemoved { tablet_tool } => {
            if tablet_tool {
                wait_at(only(Effect::Tablet(TabletOp::RemoveTablet)), Wait::TabletCount)
            } else {
                finish(no_effects())
            }
        },
        InputEvent::Gesture(gesture) => begin_gesture(gesture),
        InputEvent::TouchDown
        | InputEvent::TouchMotion
        | InputEvent::TouchUp
        | InputEvent::TouchCancel
        | InputEvent::TouchFrame
        | InputEvent::Special => finish(no_effects()),
    }
}

#[verifier::spinoff_prover]
#[verifier::rlimit(40)]
fn go_wait(wait: Wait, reply: Reply) -> (res: Step)
    requires
        acceptable(PendingView::Waiting(wait), reply@),
    ensures
        res@ == after_wait(wait, reply@),
{
    match (wait, reply) {
        (Wait::ModKey(event), Reply::ModKey(comp_mod)) => go_mod_key(event, comp_mod),
        (Wait::KeySerial { key, comp_mod }, Reply::Serial(serial)) => just_wait(
            Wait::KeyInput { key, comp_mod, serial },
        ),
        (Wait::KeyInput { .. }, Reply::Intercepted(action)) => Step {
            effects: no_effects(),
            next: Pending::Lock(action),
        },
        (Wait::ScreenshotOutput, Reply::Output(output)) => go_after_screenshot_output(output),
        (Wait::ScreenshotRenderer { output }, Reply::Flag(renderer)) => screen_if(
            renderer,
            ScreenOp::Screenshot(output),
        ),
        (Wait::ScreenshotWindow, Reply::WindowOnOutput(active)) => go_after_screenshot_window(
            active,
        ),
        (Wait::ScreenshotWindowRenderer { window, output }, Reply::Flag(renderer)) => screen_if(
            renderer,
            ScreenOp::ScreenshotWindow { window, output },
        ),
        (Wait::CloseWindow, Reply::Window(window)) => go_close(window),
        (Wait::FullscreenWindow, Reply::Window(window)) => go_fullscreen(window),
        (Wait::FocusMonitor(_), Reply::Output(output)) => go_focus_monitor(output),
        (Wait::MoveWindowToMonitor(_), Reply::Output(output)) => go_move_to_monitor(output),
        (Wait::MotionOutput(motion), Reply::Output(first)) => go_motion_output(motion, first),
        (Wait::MotionSerial(motion), Reply::Serial(serial)) => just_wait(
            Wait::MotionTarget { motion, serial },
        ),
        (Wait::MotionTarget { motion, serial }, Reply::Output(target)) => go_motion_target(
            motion,
            serial,
            target,
        ),
        (Wait::MotionOrigin { motion, serial }, Reply::Output(origin)) => go_motion_origin(
            motion,
            serial,
            origin,
        ),
        (Wait::MotionClip { motion, serial, .. }, Reply::Geometry(geometry)) => go_motion_clip(
            motion,
            serial,
            geometry,
        ),
        (Wait::MotionFallback { motion, serial }, Reply::Output(first)) => go_motion_fallback(
            motion,
            serial,
            first,
        ),
        (Wait::MotionCenter { motion, serial, .. }, Reply::Geometry(geometry)) => go_motion_center(
            motion,
            serial,
            geometry,
        ),
        (Wait::PointOutput(pointing), Reply::Output(output)) => go_point_output(pointing, output),
        (Wait::PointGeometry { pointing, .. }, Reply::Geometry(geometry)) => just_wait(
            Wait::PointSerial { pointing, geometry },
        ),
        (Wait::PointSerial { pointing, geometry }, Reply::Serial(serial)) => just_wait(
            Wait::PlaceSurface {
                placement: Placement::OnOutput(pointing),
                location: Location::EventOn(geometry),
                serial,
            },
        ),
        (Wait::PlaceSurface { placement, location, serial }, Reply::Surface(under)) =>
            go_place_surface(placement, location, serial, under),
        (Wait::AxisTablet { axis, location, under }, Reply::Tablet(tablet)) => just_wait(
            Wait::AxisTool { axis, location, under, tablet },
        ),
        (Wait::AxisTool { axis, location, under, tablet }, Reply::Tool(tool)) => go_axis_tool(
            axis,
            location,
            under,
            tablet,
            tool,
        ),
        (Wait::AxisSerial { axis, location, under, tablet, tool }, Reply::Serial(serial)) =>
            go_axis_serial(axis, location, under, tablet, tool, serial),
        (Wait::ProximityTool { proximity, location, under }, Reply::NewTool(tool)) => just_wait(
            Wait::ProximityTablet { proximity, location, under, tool },
        ),
        (Wait::ProximityTablet { proximity, location, under, tool }, Reply::Tablet(tablet)) =>
            go_proximity_tablet(proximity, location, under, tool, tablet),
        (
            Wait::ProximitySerial { location, under, tablet, tool, time_msec },
            Reply::Serial(serial),
        ) => go_proximity_serial(location, under, tablet, tool, time_msec, serial),
        (Wait::ButtonSerial(button), Reply::Serial(serial)) => go_button_serial(button, serial),
        (Wait::TipTool(tip), Reply::Tool(tool)) => go_tip_tool(tip, tool),
        (Wait::TipSerial { tool, time_msec }, Reply::Serial(serial)) => go_tip_serial(
            tool,
            time_msec,
            serial,
        ),
        (Wait::ActivateGrab(click), Reply::Flag(grabbed)) => go_grab(click, grabbed),
        (Wait::ActivateWindow(click), Reply::Window(window)) => go_window(click, window),
        (Wait::ActivateOutput(click), Reply::Output(output)) => go_output(click, output),
        (Wait::ToolButtonTool(button), Reply::Tool(tool)) => go_tool_button_tool(button, tool),
        (Wait::ToolButtonSerial { button, tool }, Reply::Serial(serial)) => go_tool_button_serial(
            button,
            tool,
            serial,
        ),
        (Wait::TabletCount, Reply::Count(count)) => go_tablet_count(count),
        (Wait::SwipeOutput, Reply::Output(output)) => go_swipe_output(output),
        (Wait::SwipeUpdate { delta, time_msec }, Reply::Swiped(swiped)) => go_swipe_update(
            delta,
            time_msec,
            swiped,
        ),
        (Wait::SwipeEnd { cancelled, time_msec }, Reply::Output(output)) => go_swipe_end(
            cancelled,
            time_msec,
            output,
        ),
        (Wait::GestureSerial(gesture), Reply::Serial(serial)) => just_wait(
            Wait::GestureFocus { gesture, serial: Some(serial) },
        ),
        (Wait::GestureFocus { gesture, serial }, Reply::Flag(changed)) => go_gesture_focus(
            gesture,
            serial,
            changed,
        ),
        _ => finish(no_effects()),
    }
}

/// Whether a reply has the form that the answer to a question has.
fn fits(query: &Query, reply: &Reply) -> (res: bool)
    ensures
        res == replies_to(*query, reply@),
{
    match (query, reply) {
        (Query::ModKey, Reply::ModKey(_))
        | (Query::NextSerial, Reply::Serial(_))
        | (Query::KeyboardInput { .. }, Reply::Intercepted(_))
        | (Query::IsLocked, Reply::Flag(_))
        | (Query::HasRenderer, Reply::Flag(_))
        | (Query::IsPointerGrabbed, Reply::Flag(_))
        | (Query::UpdatePointerFocus, Reply::Flag(_))
        | (Query::ActiveOutput, Reply::Output(_))
        | (Query::OutputToward(_), Reply::Output(_))
        | (Query::FirstOutput, Reply::Output(_))
        | (Query::OutputUnder(_), Reply::Output(_))
        | (Query::OutputForTablet, Reply::Output(_))
        | (Query::OutputUnderCursor, Reply::Output(_))
        | (Query::WorkspaceSwitchGestureEnd { .. }, Reply::Output(_))
        | (Query::ActiveWindow, Reply::WindowOnOutput(_))
        | (Query::FocusedWindow, Reply::Window(_))
        | (Query::WindowUnderCursor, Reply::Window(_))
        | (Query::OutputGeometry(_), Reply::Geometry(_))
        | (Query::SurfaceUnder(_), Reply::Surface(_))
        | (Query::Tablet, Reply::Tablet(_))
        | (Query::Tool, Reply::Tool(_))
        | (Query::AddTool, Reply::NewTool(_))
        | (Query::CountTablets, Reply::Count(_))
        | (Query::WorkspaceSwitchGestureUpdate(_), Reply::Swiped(_)) => true,
        _ => false,
    }
}

impl State {
    pub fn new(config: Config) -> (res: State)
        ensures
            res.config == config,
            res.pending@ is Idle,
    {
        State { config, pending: Pending::Idle }
    }

    /// Begins to process an event, and gives the effects that come first.
    ///
    /// An event that was not processed to its end is dropped.
    pub fn process_input_event(&mut self, event: InputEvent) -> (effects: Vec<Effect>)
        ensures
            final(self).config == old(self).config,
            final(self).pending@ == PendingView::Waiting(Wait::ModKey(event)),
            effects_view(effects@) == opening(event),
    {
        // A bit of a hack, but animation end runs some logic (i.e. workspace clean-up) and it
        // doesn't always trigger due to damage, etc. So run it here right before it might prove
        // important. Besides, animations affect the input, so it's best to have up-to-date values
        // here.
        let mut effects = only(Effect::Session(SessionOp::AdvanceAnimations));

        // Power on monitors if they were off.
        if should_activate_monitors(&event) {
            emit(&mut effects, Effect::Session(SessionOp::ActivateMonitors));
        }

        self.pending = Pending::Waiting(Wait::ModKey(event));
        effects
    }

    /// The question that must be answered for the event to go on, unless it is done.
    pub fn query(&self) -> (res: Option<Query>)
        ensures
            res == open_query(self.pending@),
    {
        match &self.pending {
            Pending::Idle => None,
            Pending::Lock(_) => Some(Query::IsLocked),
            Pending::Waiting(wait) => Some(query_of(wait)),
        }
    }

    /// Whether the event can go on with an answer.
    pub fn accepts(&self, reply: &Reply) -> (res: bool)
        ensures
            res == acceptable(self.pending@, reply@),
    {
        match self.query() {
            Some(query) => fits(&query, reply) && match (&self.pending, reply) {
                (Pending::Lock(Some(Action::Nothing)), Reply::Flag(locked)) => *locked,
                (
                    Pending::Waiting(Wait::MotionFallback { .. }),
                    Reply::Output(first),
                ) => first.is_some(),
                (
                    Pending::Waiting(Wait::MotionClip { .. }),
                    Reply::Geometry(geometry),
                ) => geometry.can_clip(),
                _ => true,
            },
            None => false,
        }
    }

    /// Goes on with the event when an answer comes, and gives the effects that come next.
    pub fn resume(&mut self, reply: Reply) -> (effects: Vec<Effect>)
        requires
            acceptable(old(self).pending@, reply@),
        ensures
            final(self).config == old(self).config,
            final(self).pending@ == advance(old(self).pending@, reply@).next,
            effects_view(effects@) == advance(old(self).pending@, reply@).effects,
    {
        let mut pending = Pending::Idle;
        std::mem::swap(&mut pending, &mut self.pending);
        let step = match (pending, reply) {
            (Pending::Lock(action), Reply::Flag(locked)) => go_after_lock(action, locked),
            (Pending::Waiting(wait), reply) => go_wait(wait, reply),
            _ => finish(no_effects()),
        };
        self.pending = step.next;
        step.effects
    }

    /// The settings to make on a device that libinput drives.
    pub fn process_libinput_event(&self, event: &LibinputEvent) -> (settings: Vec<TouchpadSetting>)
        ensures
            settings@ == touchpad_settings(self.config, *event),
    {
        let mut settings: Vec<TouchpadSetting> = Vec::new();
        if let LibinputEvent::DeviceAdded { tap_finger_count } = event {
            // According to Mutter code, this setting is specific to touchpads.
            let is_touchpad = *tap_finger_count > 0;
            if is_touchpad {
                let c = &self.config.input.touchpad;
                settings.push(TouchpadSetting::TapEnabled(c.tap));
                settings.push(TouchpadSetting::NaturalScrollEnabled(c.natural_scroll));
                settings.push(TouchpadSetting::AccelSpeed(c.accel_speed));
            }
        }
        settings
    }
}

} // verus!
