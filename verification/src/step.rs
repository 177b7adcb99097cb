//! The points at which an event waits for an answer, and the effects of going on from them.

use vstd::prelude::*;

use crate::config::{Action, ActionView};
use crate::binds::CompositorMod;
use crate::effect::{
    action_view, effects_view, Direction, Effect, EffectView, OutputId, Query, SurfaceId, TabletId,
    ToolId, WindowId,
};
use crate::event::{
    ButtonEvent, Gesture, InputEvent, KeyboardEvent, MotionEvent, ToolAxisEvent, ToolButtonEvent,
    ToolProximityEvent, ToolTipEvent, Vector,
};
use crate::geometry::{Location, Rectangle};

verus! {

/// An event that gives a position on an output.
#[derive(Clone, Copy, PartialEq, Eq, Debug)]
pub enum Pointing {
    Absolute { time_msec: u32 },
    ToolAxis(ToolAxisEvent),
    ToolProximity(ToolProximityEvent),
}

/// An event that puts the pointer somewhere.
#[derive(Clone, Copy, PartialEq, Eq, Debug)]
pub enum Placement {
    Relative(MotionEvent),
    OnOutput(Pointing),
}

/// A button event that has its serial.
#[derive(Clone, Copy, PartialEq, Eq, Debug)]
pub struct Click {
    pub button: ButtonEvent,
    pub serial: u32,
}

/// A point at which an event waits for an answer, with what was found out before.
#[derive(Clone, Copy, PartialEq, Eq, Debug)]
#[allow(inconsistent_fields)]
pub enum Wait {
    ModKey(InputEvent),
    // A key.
    KeySerial { key: KeyboardEvent, comp_mod: CompositorMod },
    KeyInput { key: KeyboardEvent, comp_mod: CompositorMod, serial: u32 },
    // An action.
    ScreenshotOutput,
    ScreenshotRenderer { output: OutputId },
    ScreenshotWindow,
    ScreenshotWindowRenderer { window: WindowId, output: OutputId },
    CloseWindow,
    FullscreenWindow,
    FocusMonitor(Direction),
    MoveWindowToMonitor(Direction),
    // A relative motion of the pointer.
    MotionOutput(MotionEvent),
    MotionSerial(MotionEvent),
    MotionTarget { motion: MotionEvent, serial: u32 },
    MotionOrigin { motion: MotionEvent, serial: u32 },
    MotionClip { motion: MotionEvent, serial: u32, output: OutputId },
    MotionFallback { motion: MotionEvent, serial: u32 },
    MotionCenter { motion: MotionEvent, serial: u32, output: OutputId },
    // A position that the event gives.
    PointOutput(Pointing),
    PointGeometry { pointing: Pointing, output: OutputId },
    PointSerial { pointing: Pointing, geometry: Rectangle },
    // Any placement of the pointer, once its position is known.
    PlaceSurface { placement: Placement, location: Location, serial: u32 },
    // A tablet tool that was moved.
    AxisTablet { axis: ToolAxisEvent, location: Location, under: Option<SurfaceId> },
    AxisTool {
        axis: ToolAxisEvent,
        location: Location,
        under: Option<SurfaceId>,
        tablet: Option<TabletId>,
    },
    AxisSerial {
        axis: ToolAxisEvent,
        location: Location,
        under: Option<SurfaceId>,
        tablet: TabletId,
        tool: ToolId,
    },
    // A tablet tool that came or went.
    ProximityTool { proximity: ToolProximityEvent, location: Location, under: Option<SurfaceId> },
    ProximityTablet {
        proximity: ToolProximityEvent,
        location: Location,
        under: Option<SurfaceId>,
        tool: ToolId,
    },
    ProximitySerial {
        location: Location,
        under: SurfaceId,
        tablet: TabletId,
        tool: ToolId,
        time_msec: u32,
    },
    // A button, or the tip of a tablet tool.
    ButtonSerial(ButtonEvent),
    TipTool(ToolTipEvent),
    TipSerial { tool: ToolId, time_msec: u32 },
    // What was clicked is activated, then the click goes on to the client, if there was one.
    ActivateGrab(Option<Click>),
    ActivateWindow(Option<Click>),
    ActivateOutput(Option<Click>),
    // A button of a tablet tool.
    ToolButtonTool(ToolButtonEvent),
    ToolButtonSerial { button: ToolButtonEvent, tool: ToolId },
    // A tablet that went away.
    TabletCount,
    // A gesture.
    SwipeOutput,
    SwipeUpdate { delta: Vector, time_msec: u32 },
    SwipeEnd { cancelled: bool, time_msec: u32 },
    GestureSerial(Gesture),
    GestureFocus { gesture: Gesture, serial: Option<u32> },
}

/// How far the current event has come, over a representation `A` of actions.
#[derive(PartialEq, Eq, Debug)]
pub enum PendingOf<A> {
    /// There is no event to go on with.
    Idle,
    /// The action of a key waits for whether the session is locked.
    Lock(Option<A>),
    Waiting(Wait),
}

/// How far the current event has come.
pub type Pending = PendingOf<Action>;

/// The mathematical content of a [`Pending`].
pub type PendingView = PendingOf<ActionView>;

impl View for PendingOf<Action> {
    type V = PendingView;

    open spec fn view(&self) -> PendingView {
        match *self {
            PendingOf::Idle => PendingOf::Idle,
            PendingOf::Lock(action) => PendingOf::Lock(action_view(action)),
            PendingOf::Waiting(wait) => PendingOf::Waiting(wait),
        }
    }
}

/// What comes of an answer: effects, in order, and the point that the event has then come to.
pub struct Step {
    pub effects: Vec<Effect>,
    pub next: Pending,
}

/// The mathematical content of a [`Step`].
#[verifier::ext_equal]
pub struct StepView {
    pub effects: Seq<EffectView>,
    pub next: PendingView,
}

impl View for Step {
    type V = StepView;

    open spec fn view(&self) -> StepView {
        StepView { effects: effects_view(self.effects@), next: self.next@ }
    }
}

/// The event is done after these effects.
pub open spec fn done(effects: Seq<EffectView>) -> StepView {
    StepView { effects, next: PendingView::Idle }
}

/// The event waits at this point, after these effects.
pub open spec fn waits(effects: Seq<EffectView>, wait: Wait) -> StepView {
    StepView { effects, next: PendingView::Waiting(wait) }
}

/// The sequence with one more effect if there is a reason for it.
pub open spec fn push_if(
    effects: Seq<EffectView>,
    reason: bool,
    effect: EffectView,
) -> Seq<EffectView> {
    if reason {
        effects.push(effect)
    } else {
        effects
    }
}

pub(crate) fn no_effects() -> (res: Vec<Effect>)
    ensures
        effects_view(res@) == Seq::<EffectView>::empty(),
{
    let res: Vec<Effect> = Vec::new();
    assert(effects_view(res@) =~= Seq::<EffectView>::empty());
    res
}

pub(crate) fn emit(effects: &mut Vec<Effect>, effect: Effect)
    ensures
        effects_view(final(effects)@) == effects_view(old(effects)@).push(effect@),
{
    let ghost before = effects@;
    effects.push(effect);
    assert(effects_view(before.push(effect)) =~= effects_view(before).push(effect@));
}

/// A single effect.
pub(crate) fn only(effect: Effect) -> (res: Vec<Effect>)
    ensures
        effects_view(res@) == seq![effect@],
{
    let mut res = no_effects();
    emit(&mut res, effect);
    res
}

/// Two effects, in order.
pub(crate) fn both(first: Effect, second: Effect) -> (res: Vec<Effect>)
    ensures
        effects_view(res@) == seq![first@, second@],
{
    let mut res = no_effects();
    emit(&mut res, first);
    emit(&mut res, second);
    res
}

pub(crate) fn finish(effects: Vec<Effect>) -> (res: Step)
    ensures
        res@ == done(effects_view(effects@)),
{
    Step { effects, next: Pending::Idle }
}

pub(crate) fn wait_at(effects: Vec<Effect>, wait: Wait) -> (res: Step)
    ensures
        res@ == waits(effects_view(effects@), wait),
{
    Step { effects, next: Pending::Waiting(wait) }
}

/// Wait, with nothing done.
pub(crate) fn just_wait(wait: Wait) -> (res: Step)
    ensures
        res@ == waits(seq![], wait),
{
    wait_at(no_effects(), wait)
}

/// The question that is open at a point.
pub open spec fn wait_query(wait: Wait) -> Query {
    match wait {
        Wait::ModKey(_) => Query::ModKey,
        Wait::KeySerial { .. } | Wait::MotionSerial(_) | Wait::PointSerial { .. }
        | Wait::AxisSerial { .. } | Wait::ProximitySerial { .. } | Wait::ButtonSerial(_)
        | Wait::TipSerial { .. } | Wait::ToolButtonSerial { .. }
        | Wait::GestureSerial(_) => Query::NextSerial,
        Wait::KeyInput { key, comp_mod, serial } => Query::KeyboardInput { key, comp_mod, serial },
        Wait::ScreenshotOutput => Query::ActiveOutput,
        Wait::ScreenshotWindow => Query::ActiveWindow,
        Wait::ScreenshotRenderer { .. } | Wait::ScreenshotWindowRenderer { .. } =>
            Query::HasRenderer,
        Wait::CloseWindow | Wait::FullscreenWindow => Query::FocusedWindow,
        Wait::FocusMonitor(direction) | Wait::MoveWindowToMonitor(direction) =>
            Query::OutputToward(direction),
        Wait::MotionOutput(_) | Wait::MotionFallback { .. } => Query::FirstOutput,
        Wait::MotionTarget { motion, .. } =>
            Query::OutputUnder(Location::Moved { delta: motion.delta }),
        Wait::MotionOrigin { .. } => Query::OutputUnder(Location::Current),
        Wait::MotionClip { output, .. } | Wait::MotionCenter { output, .. }
        | Wait::PointGeometry { output, .. } => Query::OutputGeometry(output),
        Wait::PointOutput(pointing) => match pointing {
            Pointing::Absolute { .. } => Query::FirstOutput,
            Pointing::ToolAxis(_) | Pointing::ToolProximity(_) => Query::OutputForTablet,
        },
        Wait::PlaceSurface { location, .. } => Query::SurfaceUnder(location),
        Wait::AxisTablet { .. } | Wait::ProximityTablet { .. } => Query::Tablet,
        Wait::AxisTool { .. } | Wait::TipTool(_) | Wait::ToolButtonTool(_) => Query::Tool,
        Wait::ProximityTool { .. } => Query::AddTool,
        Wait::ActivateGrab(_) => Query::IsPointerGrabbed,
        Wait::ActivateWindow(_) => Query::WindowUnderCursor,
        Wait::ActivateOutput(_) | Wait::SwipeOutput => Query::OutputUnderCursor,
        Wait::TabletCount => Query::CountTablets,
        Wait::SwipeUpdate { delta, .. } => Query::WorkspaceSwitchGestureUpdate(delta.y),
        Wait::SwipeEnd { cancelled, .. } => Query::WorkspaceSwitchGestureEnd { cancelled },
        Wait::GestureFocus { .. } => Query::UpdatePointerFocus,
    }
}

/// The question that is open, unless there is no event to go on with.
pub open spec fn open_query(pending: PendingView) -> Option<Query> {
    match pending {
        PendingView::Idle => None,
        PendingView::Lock(_) => Some(Query::IsLocked),
        PendingView::Waiting(wait) => Some(wait_query(wait)),
    }
}

/// The question that is open at a point.
pub(crate) fn query_of(wait: &Wait) -> (res: Query)
    ensures
        res == wait_query(*wait),
{
    match *wait {
        Wait::ModKey(_) => Query::ModKey,
        Wait::KeySerial { .. } | Wait::MotionSerial(_) | Wait::PointSerial { .. }
        | Wait::AxisSerial { .. } | Wait::ProximitySerial { .. } | Wait::ButtonSerial(_)
        | Wait::TipSerial { .. } | Wait::ToolButtonSerial { .. }
        | Wait::GestureSerial(_) => Query::NextSerial,
        Wait::KeyInput { key, comp_mod, serial } => Query::KeyboardInput { key, comp_mod, serial },
        Wait::ScreenshotOutput => Query::ActiveOutput,
        Wait::ScreenshotWindow => Query::ActiveWindow,
        Wait::ScreenshotRenderer { .. } | Wait::ScreenshotWindowRenderer { .. } =>
            Query::HasRenderer,
        Wait::CloseWindow | Wait::FullscreenWindow => Query::FocusedWindow,
        Wait::FocusMonitor(direction) | Wait::MoveWindowToMonitor(direction) =>
            Query::OutputToward(direction),
        Wait::MotionOutput(_) | Wait::MotionFallback { .. } => Query::FirstOutput,
        Wait::MotionTarget { motion, .. } =>
            Query::OutputUnder(Location::Moved { delta: motion.delta }),
        Wait::MotionOrigin { .. } => Query::OutputUnder(Location::Current),
        Wait::MotionClip { output, .. } | Wait::MotionCenter { output, .. }
        | Wait::PointGeometry { output, .. } => Query::OutputGeometry(output),
        Wait::PointOutput(pointing) => match pointing {
            Pointing::Absolute { .. } => Query::FirstOutput,
            Pointing::ToolAxis(_) | Pointing::ToolProximity(_) => Query::OutputForTablet,
        },
        Wait::PlaceSurface { location, .. } => Query::SurfaceUnder(location),
        Wait::AxisTablet { .. } | Wait::ProximityTablet { .. } => Query::Tablet,
        Wait::AxisTool { .. } | Wait::TipTool(_) | Wait::ToolButtonTool(_) => Query::Tool,
        Wait::ProximityTool { .. } => Query::AddTool,
        Wait::ActivateGrab(_) => Query::IsPointerGrabbed,
        Wait::ActivateWindow(_) => Query::WindowUnderCursor,
        Wait::ActivateOutput(_) | Wait::SwipeOutput => Query::OutputUnderCursor,
        Wait::TabletCount => Query::CountTablets,
        Wait::SwipeUpdate { delta, .. } => Query::WorkspaceSwitchGestureUpdate(delta.y),
        Wait::SwipeEnd { cancelled, .. } => Query::WorkspaceSwitchGestureEnd { cancelled },
        Wait::GestureFocus { .. } => Query::UpdatePointerFocus,
    }
}

} // verus!
