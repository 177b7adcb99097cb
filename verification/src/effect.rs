//! What the rules do to the rest of the compositor, and what they ask of it.

use vstd::prelude::*;

use crate::axis::AxisFrame;
use crate::binds::CompositorMod;
use crate::config::{words_view, Action, ActionView, Real, SizeChange};
use crate::event::{ButtonState, Gesture, KeyboardEvent, Vector};
use crate::geometry::{Location, Rectangle};

verus! {

/// The name of an output.
///
/// The compositor hands this name and the following ones out with its answers. They are good for
/// as long as one event is processed.
#[derive(Clone, Copy, PartialEq, Eq, Debug)]
pub struct OutputId(pub u64);

/// The name of a window.
#[derive(Clone, Copy, PartialEq, Eq, Debug)]
pub struct WindowId(pub u64);

/// The name of a surface that the pointer can be over, together with its place.
#[derive(Clone, Copy, PartialEq, Eq, Debug)]
pub struct SurfaceId(pub u64);

/// The name of a tablet.
#[derive(Clone, Copy, PartialEq, Eq, Debug)]
pub struct TabletId(pub u64);

/// The name of a tablet tool.
#[derive(Clone, Copy, PartialEq, Eq, Debug)]
pub struct ToolId(pub u64);

/// A direction in which a monitor is looked for.
#[derive(Clone, Copy, PartialEq, Eq, Debug)]
pub enum Direction {
    Left,
    Right,
    Down,
    Up,
}

/// An effect on the session and the devices that it runs on.
#[derive(Clone, Copy, PartialEq, Eq, Debug)]
pub enum SessionOp {
    AdvanceAnimations,
    ActivateMonitors,
    DeactivateMonitors,
    /// End the session.
    Stop,
    ChangeVt(i32),
    Suspend,
    ToggleDebugTint,
}

/// An effect on the layout of windows and workspaces.
#[derive(Clone, Copy, PartialEq, Eq, Debug)]
pub enum LayoutOp {
    ToggleFullscreen(WindowId),
    MoveLeft,
    MoveRight,
    MoveDown,
    MoveUp,
    FocusLeft,
    FocusRight,
    FocusDown,
    FocusUp,
    MoveToWorkspaceDown,
    MoveToWorkspaceUp,
    MoveToWorkspace(u8),
    SwitchWorkspaceDown,
    SwitchWorkspaceUp,
    SwitchWorkspace(u8),
    MoveWorkspaceDown,
    MoveWorkspaceUp,
    ConsumeIntoColumn,
    ExpelFromColumn,
    ToggleWidth,
    ToggleFullWidth,
    SetColumnWidth(SizeChange),
    FocusOutput(OutputId),
    MoveToOutput(OutputId),
    ActivateWindow(WindowId),
    ActivateOutput(OutputId),
    WorkspaceSwitchGestureBegin(OutputId),
}

/// An effect on what is drawn, and on single windows.
#[derive(Clone, Copy, PartialEq, Eq, Debug)]
pub enum ScreenOp {
    QueueRedrawAll,
    QueueRedraw(OutputId),
    Screenshot(OutputId),
    ScreenshotWindow { window: WindowId, output: OutputId },
    MoveCursorToOutput(OutputId),
    /// Ask a window to close.
    SendClose(WindowId),
}

/// An effect on the pointer of the seat.
#[derive(Clone, Copy, PartialEq, Eq, Debug)]
#[allow(inconsistent_fields)]
pub enum PointerOp {
    /// Note what the pointer is over.
    SetFocus(Option<SurfaceId>),
    /// Find out anew what the pointer is over, and tell the clients.
    UpdateFocus,
    Motion { under: Option<SurfaceId>, location: Location, serial: u32, time_msec: u32 },
    RelativeMotion {
        under: Option<SurfaceId>,
        delta: Vector,
        delta_unaccel: Vector,
        time_usec: u64,
    },
    Button { button: u32, state: ButtonState, serial: u32, time_msec: u32 },
    Axis(AxisFrame),
    /// Forward the step of a gesture, with a serial unless it is an update.
    Gesture { gesture: Gesture, serial: Option<u32> },
    /// End a group of pointer events that belong together.
    Frame,
}

/// An effect on the tablets and the tablet tools of the seat.
#[derive(Clone, Copy, PartialEq, Eq, Debug)]
#[allow(inconsistent_fields)]
pub enum TabletOp {
    AddTablet,
    RemoveTablet,
    ClearTools,
    Pressure { tool: ToolId, value: Real },
    Distance { tool: ToolId, value: Real },
    Tilt { tool: ToolId, value: Vector },
    SliderPosition { tool: ToolId, value: Real },
    Rotation { tool: ToolId, value: Real },
    Wheel { tool: ToolId, delta: Real, delta_discrete: i32 },
    Motion {
        tool: ToolId,
        tablet: TabletId,
        under: Option<SurfaceId>,
        location: Location,
        serial: u32,
        time_msec: u32,
    },
    TipDown { tool: ToolId, serial: u32, time_msec: u32 },
    TipUp { tool: ToolId, time_msec: u32 },
    ProximityIn {
        tool: ToolId,
        tablet: TabletId,
        under: SurfaceId,
        location: Location,
        serial: u32,
        time_msec: u32,
    },
    ProximityOut { tool: ToolId, time_msec: u32 },
    Button { tool: ToolId, button: u32, state: ButtonState, serial: u32, time_msec: u32 },
}

/// An effect, over representations `W` of a word and `C` of a list of words.
#[derive(PartialEq, Eq, Debug)]
pub enum EffectOf<W, C> {
    Session(SessionOp),
    /// Run a program.
    Spawn { command: W, args: C },
    Layout(LayoutOp),
    Screen(ScreenOp),
    Pointer(PointerOp),
    Tablet(TabletOp),
}

/// An effect of an input event on the rest of the compositor.
pub type Effect = EffectOf<String, Vec<String>>;

/// The mathematical content of an [`Effect`].
pub type EffectView = EffectOf<Seq<char>, Seq<Seq<char>>>;

impl View for EffectOf<String, Vec<String>> {
    type V = EffectView;

    open spec fn view(&self) -> EffectView {
        match *self {
            EffectOf::Session(op) => EffectOf::Session(op),
            EffectOf::Spawn { command, args } => EffectOf::Spawn {
                command: command@,
                args: words_view(args@),
            },
            EffectOf::Layout(op) => EffectOf::Layout(op),
            EffectOf::Screen(op) => EffectOf::Screen(op),
            EffectOf::Pointer(op) => EffectOf::Pointer(op),
            EffectOf::Tablet(op) => EffectOf::Tablet(op),
        }
    }
}

/// The content of a list of effects.
pub open spec fn effects_view(effects: Seq<Effect>) -> Seq<EffectView> {
    effects.map_values(|effect: Effect| effect@)
}

/// A question to the rest of the compositor.
#[derive(Clone, Copy, PartialEq, Eq, Debug)]
pub enum Query {
    /// Which modifier the compositor's own binds are built on.
    ModKey,
    /// The next serial number of an event.
    NextSerial,
    /// Hand a key event to the keyboard, with [`filter_key`](crate::binds::filter_key) to decide
    /// what becomes of it; the answer is the action for which it was kept, if it was.
    KeyboardInput { key: KeyboardEvent, comp_mod: CompositorMod, serial: u32 },
    /// Whether the session is locked.
    IsLocked,
    ActiveOutput,
    ActiveWindow,
    /// Whether there is a renderer to take screenshots with.
    HasRenderer,
    /// The window that has the focus.
    FocusedWindow,
    /// The monitor next to the active one.
    OutputToward(Direction),
    /// The first of all outputs.
    FirstOutput,
    OutputUnder(Location),
    OutputGeometry(OutputId),
    OutputForTablet,
    SurfaceUnder(Location),
    /// Whether someone holds a grab of the pointer.
    IsPointerGrabbed,
    WindowUnderCursor,
    OutputUnderCursor,
    /// The tablet that the event comes from.
    Tablet,
    /// The tablet tool that the event comes from.
    Tool,
    /// Make the tablet tool known that the event comes from.
    AddTool,
    CountTablets,
    /// Move the workspaces along with a swipe; the answer is whether they are being swiped, and
    /// then the output to redraw.
    WorkspaceSwitchGestureUpdate(Real),
    /// End the swipe of workspaces; the answer is the output on which they were swiped.
    WorkspaceSwitchGestureEnd { cancelled: bool },
    /// Find out anew what the pointer is over; the answer is whether that changed.
    UpdatePointerFocus,
}

/// An answer to a question, over a representation `A` of actions.
#[derive(PartialEq, Eq, Debug)]
pub enum ReplyOf<A> {
    ModKey(CompositorMod),
    Serial(u32),
    Intercepted(Option<A>),
    Flag(bool),
    Output(Option<OutputId>),
    Window(Option<WindowId>),
    WindowOnOutput(Option<(WindowId, OutputId)>),
    Geometry(Rectangle),
    Surface(Option<SurfaceId>),
    Tablet(Option<TabletId>),
    Tool(Option<ToolId>),
    NewTool(ToolId),
    Count(usize),
    Swiped(Option<Option<OutputId>>),
}

/// An answer to a [`Query`].
pub type Reply = ReplyOf<Action>;

/// The mathematical content of a [`Reply`].
pub type ReplyView = ReplyOf<ActionView>;

/// The content of an action that may be there.
pub open spec fn action_view(action: Option<Action>) -> Option<ActionView> {
    match action {
        Some(action) => Some(action@),
        None => None,
    }
}

impl View for ReplyOf<Action> {
    type V = ReplyView;

    open spec fn view(&self) -> ReplyView {
        match *self {
            ReplyOf::ModKey(x) => ReplyOf::ModKey(x),
            ReplyOf::Serial(x) => ReplyOf::Serial(x),
            ReplyOf::Intercepted(action) => ReplyOf::Intercepted(action_view(action)),
            ReplyOf::Flag(x) => ReplyOf::Flag(x),
            ReplyOf::Output(x) => ReplyOf::Output(x),
            ReplyOf::Window(x) => ReplyOf::Window(x),
            ReplyOf::WindowOnOutput(x) => ReplyOf::WindowOnOutput(x),
            ReplyOf::Geometry(x) => ReplyOf::Geometry(x),
            ReplyOf::Surface(x) => ReplyOf::Surface(x),
            ReplyOf::Tablet(x) => ReplyOf::Tablet(x),
            ReplyOf::Tool(x) => ReplyOf::Tool(x),
            ReplyOf::NewTool(x) => ReplyOf::NewTool(x),
            ReplyOf::Count(x) => ReplyOf::Count(x),
            ReplyOf::Swiped(x) => ReplyOf::Swiped(x),
        }
    }
}

/// A reply has the form that the answer to a question has.
pub open spec fn replies_to(query: Query, reply: ReplyView) -> bool {
    match query {
        Query::ModKey => reply is ModKey,
        Query::NextSerial => reply is Serial,
        Query::KeyboardInput { .. } => reply is Intercepted,
        Query::IsLocked | Query::HasRenderer | Query::IsPointerGrabbed
        | Query::UpdatePointerFocus => reply is Flag,
        Query::ActiveOutput | Query::OutputToward(_) | Query::FirstOutput | Query::OutputUnder(_)
        | Query::OutputForTablet | Query::OutputUnderCursor
        | Query::WorkspaceSwitchGestureEnd { .. } => reply is Output,
        Query::ActiveWindow => reply is WindowOnOutput,
        Query::FocusedWindow | Query::WindowUnderCursor => reply is Window,
        Query::OutputGeometry(_) => reply is Geometry,
        Query::SurfaceUnder(_) => reply is Surface,
        Query::Tablet => reply is Tablet,
        Query::Tool => reply is Tool,
        Query::AddTool => reply is NewTool,
        Query::CountTablets => reply is Count,
        Query::WorkspaceSwitchGestureUpdate(_) => reply is Swiped,
    }
}

} // verus!
