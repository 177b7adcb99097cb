use niri_input::axis::{AxisFrame, AxisPart, AxisStep, AxisValue};
use niri_input::config::{Action, Binds, Config, Input, Real, SizeChange, Touchpad};
use niri_input::effect::{
    Direction, Effect, LayoutOp, OutputId, PointerOp, Query, Reply, ScreenOp, SessionOp, SurfaceId,
    TabletId, TabletOp, ToolId, WindowId,
};
use niri_input::event::{
    should_activate_monitors, AxisEvent, AxisMotion, AxisSource, ButtonEvent, ButtonState, Gesture,
    InputEvent, KeyState, KeyboardEvent, MotionEvent, ProximityState, Reading, TiltReading,
    TipState, ToolAxisEvent, ToolButtonEvent, ToolProximityEvent, ToolTipEvent, Vector,
    WheelReading,
};
use niri_input::geometry::{Bounds, Location, Point, Rectangle, Size};
use niri_input::state::{LibinputEvent, TouchpadSetting};
use niri_input::{CompositorMod, State};

fn num(x: f64) -> Real {
    Real { bits: x.to_bits() }
}

fn vector(x: f64, y: f64) -> Vector {
    Vector { x: num(x), y: num(y) }
}

fn state() -> State {
    State::new(Config {
        input: Input {
            touchpad: Touchpad { tap: true, natural_scroll: false, accel_speed: num(0.2) },
        },
        binds: Binds(vec![]),
    })
}

fn rectangle(x: i32, y: i32, w: i32, h: i32) -> Rectangle {
    Rectangle { loc: Point { x, y }, size: Size { w, h } }
}

/// The answers of a compositor, with serials counted from one.
struct World {
    serial: u32,
    intercepted: Option<Action>,
    locked: bool,
    active_output: Option<OutputId>,
    active_window: Option<(WindowId, OutputId)>,
    has_renderer: bool,
    focused_window: Option<WindowId>,
    left: Option<OutputId>,
    up: Option<OutputId>,
    first_output: Option<OutputId>,
    under_current: Option<OutputId>,
    under_moved: Option<OutputId>,
    output_for_tablet: Option<OutputId>,
    surface: Option<SurfaceId>,
    grabbed: bool,
    window_under_cursor: Option<WindowId>,
    output_under_cursor: Option<OutputId>,
    tablet: Option<TabletId>,
    tool: Option<ToolId>,
    tablets: usize,
    swipe_update: Option<Option<OutputId>>,
    swipe_end: Option<OutputId>,
    focus_changed: bool,
    asked: Vec<Query>,
}

fn world() -> World {
    World {
        serial: 0,
        intercepted: None,
        locked: false,
        active_output: None,
        active_window: None,
        has_renderer: false,
        focused_window: None,
        left: None,
        up: None,
        first_output: None,
        under_current: None,
        under_moved: None,
        output_for_tablet: None,
        surface: None,
        grabbed: false,
        window_under_cursor: None,
        output_under_cursor: None,
        tablet: None,
        tool: None,
        tablets: 0,
        swipe_update: None,
        swipe_end: None,
        focus_changed: false,
        asked: vec![],
    }
}

impl World {
    fn answer(&mut self, query: Query) -> Reply {
        match query {
            Query::ModKey => Reply::ModKey(CompositorMod::Super),
            Query::NextSerial => {
                self.serial += 1;
                Reply::Serial(self.serial)
            }
            Query::KeyboardInput { .. } => Reply::Intercepted(self.intercepted.take()),
            Query::IsLocked => Reply::Flag(self.locked),
            Query::ActiveOutput => Reply::Output(self.active_output),
            Query::ActiveWindow => Reply::WindowOnOutput(self.active_window),
            Query::HasRenderer => Reply::Flag(self.has_renderer),
            Query::FocusedWindow => Reply::Window(self.focused_window),
            Query::OutputToward(Direction::Left) => Reply::Output(self.left),
            Query::OutputToward(Direction::Up) => Reply::Output(self.up),
            Query::OutputToward(_) => Reply::Output(None),
            Query::FirstOutput => Reply::Output(self.first_output),
            Query::OutputUnder(Location::Current) => Reply::Output(self.under_current),
            Query::OutputUnder(_) => Reply::Output(self.under_moved),
            Query::OutputGeometry(OutputId(n)) => {
                Reply::Geometry(rectangle(1920 * n as i32, 0, 1920, 1080))
            }
            Query::OutputForTablet => Reply::Output(self.output_for_tablet),
            Query::SurfaceUnder(_) => Reply::Surface(self.surface),
            Query::IsPointerGrabbed => Reply::Flag(self.grabbed),
            Query::WindowUnderCursor => Reply::Window(self.window_under_cursor),
            Query::OutputUnderCursor => Reply::Output(self.output_under_cursor),
            Query::Tablet => Reply::Tablet(self.tablet),
            Query::Tool => Reply::Tool(self.tool),
            Query::AddTool => Reply::NewTool(ToolId(77)),
            Query::CountTablets => Reply::Count(self.tablets),
            Query::WorkspaceSwitchGestureUpdate(_) => Reply::Swiped(self.swipe_update),
            Query::WorkspaceSwitchGestureEnd { .. } => Reply::Output(self.swipe_end),
            Query::UpdatePointerFocus => Reply::Flag(self.focus_changed),
        }
    }

    /// The effects of an event after those with which every event begins.
    fn run(&mut self, event: InputEvent) -> Vec<Effect> {
        let mut state = state();
        let opening = state.process_input_event(event);
        let mut expected = vec![Effect::Session(SessionOp::AdvanceAnimations)];
        if should_activate_monitors(&event) {
            expected.push(Effect::Session(SessionOp::ActivateMonitors));
        }
        assert_eq!(opening, expected);

        let mut effects = vec![];
        let mut answers = 0;
        while let Some(query) = state.query() {
            self.asked.push(query);
            let reply = self.answer(query);
            assert!(state.accepts(&reply));
            effects.extend(state.resume(reply));
            answers += 1;
        }
        assert!(answers <= 8);
        effects
    }
}

fn press() -> InputEvent {
    InputEvent::Keyboard(KeyboardEvent { key_code: 38, state: KeyState::Pressed, time_msec: 5 })
}

fn act_in(mut world: World, action: Action) -> Vec<Effect> {
    world.intercepted = Some(action);
    world.run(press())
}

fn act(action: Action) -> Vec<Effect> {
    act_in(world(), action)
}

fn redraw() -> Effect {
    Effect::Screen(ScreenOp::QueueRedrawAll)
}

fn frame() -> Effect {
    Effect::Pointer(PointerOp::Frame)
}

#[test]
fn activity_wakes_monitors() {
    let key = |state| InputEvent::Keyboard(KeyboardEvent { key_code: 1, state, time_msec: 0 });
    assert!(should_activate_monitors(&key(KeyState::Pressed)));
    assert!(!should_activate_monitors(&key(KeyState::Released)));
    let gesture = |gesture| should_activate_monitors(&InputEvent::Gesture(gesture));
    assert!(gesture(Gesture::SwipeBegin { fingers: 3, time_msec: 0 }));
    assert!(gesture(Gesture::PinchBegin { fingers: 2, time_msec: 0 }));
    assert!(gesture(Gesture::HoldBegin { fingers: 2, time_msec: 0 }));
    assert!(!gesture(Gesture::SwipeUpdate { delta: vector(1.0, 1.0), time_msec: 0 }));
    assert!(!gesture(Gesture::SwipeEnd { cancelled: false, time_msec: 0 }));
    assert!(!gesture(Gesture::PinchEnd { cancelled: false, time_msec: 0 }));
    assert!(!gesture(Gesture::HoldEnd { cancelled: true, time_msec: 0 }));
    assert!(should_activate_monitors(&InputEvent::PointerMotionAbsolute { time_msec: 0 }));
    assert!(should_activate_monitors(&InputEvent::TouchDown));
    assert!(should_activate_monitors(&InputEvent::TouchMotion));
    assert!(!should_activate_monitors(&InputEvent::TouchUp));
    assert!(!should_activate_monitors(&InputEvent::TouchCancel));
    assert!(!should_activate_monitors(&InputEvent::TouchFrame));
    assert!(!should_activate_monitors(&InputEvent::Special));
    assert!(!should_activate_monitors(&InputEvent::DeviceAdded { tablet_tool: true }));
    assert!(!should_activate_monitors(&InputEvent::DeviceRemoved { tablet_tool: true }));
}

#[test]
fn key_asks_in_order() {
    let mut world = world();
    assert_eq!(world.run(press()), vec![]);
    let InputEvent::Keyboard(key) = press() else { unreachable!() };
    assert_eq!(
        world.asked,
        vec![
            Query::ModKey,
            Query::NextSerial,
            Query::KeyboardInput { key, comp_mod: CompositorMod::Super, serial: 1 },
            Query::IsLocked,
        ],
    );
}

#[test]
fn session_actions() {
    assert_eq!(act(Action::Quit), vec![Effect::Session(SessionOp::Stop)]);
    assert_eq!(act(Action::ChangeVt(4)), vec![Effect::Session(SessionOp::ChangeVt(4))]);
    assert_eq!(act(Action::Suspend), vec![Effect::Session(SessionOp::Suspend)]);
    assert_eq!(
        act(Action::PowerOffMonitors),
        vec![Effect::Session(SessionOp::DeactivateMonitors)],
    );
    assert_eq!(act(Action::ToggleDebugTint), vec![Effect::Session(SessionOp::ToggleDebugTint)]);
}

#[test]
fn locked_session_does_little() {
    let locked = || World { locked: true, ..world() };
    assert_eq!(act_in(locked(), Action::Quit), vec![Effect::Session(SessionOp::Stop)]);
    assert_eq!(act_in(locked(), Action::MoveColumnLeft), vec![]);
    assert_eq!(act_in(locked(), Action::Spawn(vec!["sh".to_string()])), vec![]);
    assert_eq!(act_in(locked(), Action::Nothing), vec![]);
}

#[test]
fn spawn_splits_command_line() {
    let words = vec!["a".to_string(), "b".to_string(), "c d".to_string()];
    assert_eq!(
        act(Action::Spawn(words)),
        vec![Effect::Spawn {
            command: "a".to_string(),
            args: vec!["b".to_string(), "c d".to_string()],
        }],
    );
    assert_eq!(
        act(Action::Spawn(vec!["a".to_string()])),
        vec![Effect::Spawn { command: "a".to_string(), args: vec![] }],
    );
    assert_eq!(act(Action::Spawn(vec![])), vec![]);
}

#[test]
fn layout_actions_that_redraw() {
    let cases = vec![
        (Action::MoveColumnLeft, LayoutOp::MoveLeft),
        (Action::MoveColumnRight, LayoutOp::MoveRight),
        (Action::MoveWindowDown, LayoutOp::MoveDown),
        (Action::MoveWindowUp, LayoutOp::MoveUp),
        (Action::MoveWindowToWorkspaceDown, LayoutOp::MoveToWorkspaceDown),
        (Action::MoveWindowToWorkspaceUp, LayoutOp::MoveToWorkspaceUp),
        (Action::MoveWindowToWorkspace(7), LayoutOp::MoveToWorkspace(7)),
        (Action::FocusWorkspaceDown, LayoutOp::SwitchWorkspaceDown),
        (Action::FocusWorkspaceUp, LayoutOp::SwitchWorkspaceUp),
        (Action::FocusWorkspace(2), LayoutOp::SwitchWorkspace(2)),
        (Action::MoveWorkspaceDown, LayoutOp::MoveWorkspaceDown),
        (Action::MoveWorkspaceUp, LayoutOp::MoveWorkspaceUp),
        (Action::ConsumeWindowIntoColumn, LayoutOp::ConsumeIntoColumn),
        (Action::ExpelWindowFromColumn, LayoutOp::ExpelFromColumn),
    ];
    for (action, op) in cases {
        assert_eq!(act(action), vec![Effect::Layout(op), redraw()]);
    }
}

#[test]
fn layout_actions_that_do_not_redraw() {
    let change = SizeChange::SetFixed(800);
    let cases = vec![
        (Action::FocusColumnLeft, LayoutOp::FocusLeft),
        (Action::FocusColumnRight, LayoutOp::FocusRight),
        (Action::FocusWindowDown, LayoutOp::FocusDown),
        (Action::FocusWindowUp, LayoutOp::FocusUp),
        (Action::SwitchPresetColumnWidth, LayoutOp::ToggleWidth),
        (Action::MaximizeColumn, LayoutOp::ToggleFullWidth),
        (Action::SetColumnWidth(change), LayoutOp::SetColumnWidth(change)),
    ];
    for (action, op) in cases {
        assert_eq!(act(action), vec![Effect::Layout(op)]);
    }
}

#[test]
fn window_actions_need_a_window() {
    let focused = || World { focused_window: Some(WindowId(9)), ..world() };
    assert_eq!(act(Action::CloseWindow), vec![]);
    assert_eq!(
        act_in(focused(), Action::CloseWindow),
        vec![Effect::Screen(ScreenOp::SendClose(WindowId(9)))],
    );
    assert_eq!(act(Action::FullscreenWindow), vec![]);
    assert_eq!(
        act_in(focused(), Action::FullscreenWindow),
        vec![Effect::Layout(LayoutOp::ToggleFullscreen(WindowId(9)))],
    );
}

#[test]
fn screenshots_need_output_and_renderer() {
    let output = Some(OutputId(1));
    let window = Some((WindowId(2), OutputId(1)));
    let with = |has_renderer| World {
        active_output: output,
        active_window: window,
        has_renderer,
        ..world()
    };
    let none = || World { has_renderer: true, ..world() };
    assert_eq!(act_in(none(), Action::Screenshot), vec![]);
    assert_eq!(act_in(with(false), Action::Screenshot), vec![]);
    assert_eq!(
        act_in(with(true), Action::Screenshot),
        vec![Effect::Screen(ScreenOp::Screenshot(OutputId(1)))],
    );
    assert_eq!(act_in(none(), Action::ScreenshotWindow), vec![]);
    assert_eq!(act_in(with(false), Action::ScreenshotWindow), vec![]);
    assert_eq!(
        act_in(with(true), Action::ScreenshotWindow),
        vec![Effect::Screen(ScreenOp::ScreenshotWindow {
            window: WindowId(2),
            output: OutputId(1),
        })],
    );
}

#[test]
fn monitor_actions_take_the_cursor_along() {
    let with = || World { left: Some(OutputId(1)), up: Some(OutputId(2)), ..world() };
    let cursor = |n| Effect::Screen(ScreenOp::MoveCursorToOutput(OutputId(n)));
    assert_eq!(
        act_in(with(), Action::FocusMonitorLeft),
        vec![Effect::Layout(LayoutOp::FocusOutput(OutputId(1))), cursor(1)],
    );
    assert_eq!(
        act_in(with(), Action::FocusMonitorUp),
        vec![Effect::Layout(LayoutOp::FocusOutput(OutputId(2))), cursor(2)],
    );
    assert_eq!(act_in(with(), Action::FocusMonitorRight), vec![]);
    assert_eq!(act_in(with(), Action::FocusMonitorDown), vec![]);
    assert_eq!(
        act_in(with(), Action::MoveWindowToMonitorLeft),
        vec![Effect::Layout(LayoutOp::MoveToOutput(OutputId(1))), cursor(1)],
    );
    assert_eq!(
        act_in(with(), Action::MoveWindowToMonitorUp),
        vec![Effect::Layout(LayoutOp::MoveToOutput(OutputId(2))), cursor(2)],
    );
    assert_eq!(act_in(with(), Action::MoveWindowToMonitorRight), vec![]);
    assert_eq!(act_in(with(), Action::MoveWindowToMonitorDown), vec![]);
}

fn motion() -> MotionEvent {
    MotionEvent {
        delta: vector(3.0, -4.0),
        delta_unaccel: vector(1.5, -2.0),
        time_msec: 12,
        time_usec: 12_345,
    }
}

fn moved(location: Location, under: Option<SurfaceId>) -> Vec<Effect> {
    vec![
        Effect::Pointer(PointerOp::SetFocus(under)),
        Effect::Pointer(PointerOp::Motion { under, location, serial: 1, time_msec: 12 }),
        Effect::Pointer(PointerOp::RelativeMotion {
            under,
            delta: vector(3.0, -4.0),
            delta_unaccel: vector(1.5, -2.0),
            time_usec: 12_345,
        }),
        frame(),
        redraw(),
    ]
}

#[test]
fn motion_without_output() {
    let mut world = world();
    assert_eq!(world.run(InputEvent::PointerMotion(motion())), vec![]);
    assert_eq!(world.asked, vec![Query::ModKey, Query::FirstOutput]);
}

#[test]
fn motion_on_output() {
    let under = Some(SurfaceId(4));
    let mut world = World {
        first_output: Some(OutputId(0)),
        under_moved: Some(OutputId(1)),
        surface: under,
        ..world()
    };
    let location = Location::Moved { delta: motion().delta };
    assert_eq!(world.run(InputEvent::PointerMotion(motion())), moved(location, under));
}

#[test]
fn motion_off_outputs_is_clipped() {
    let mut world =
        World { first_output: Some(OutputId(0)), under_current: Some(OutputId(1)), ..world() };
    let location = Location::MovedWithin {
        delta: motion().delta,
        bounds: Bounds { x_min: 1920, x_max: 3839, y_min: 0, y_max: 1079 },
    };
    assert_eq!(world.run(InputEvent::PointerMotion(motion())), moved(location, None));
}

#[test]
fn lost_pointer_goes_to_first_output() {
    let mut world = World { first_output: Some(OutputId(2)), ..world() };
    let location = Location::CenterOf(rectangle(3840, 0, 1920, 1080));
    assert_eq!(world.run(InputEvent::PointerMotion(motion())), moved(location, None));
    assert_eq!(
        world.asked,
        vec![
            Query::ModKey,
            Query::FirstOutput,
            Query::NextSerial,
            Query::OutputUnder(Location::Moved { delta: motion().delta }),
            Query::OutputUnder(Location::Current),
            Query::FirstOutput,
            Query::OutputGeometry(OutputId(2)),
            Query::SurfaceUnder(location),
        ],
    );
}

#[test]
fn bounds_of_rectangles() {
    let bounds = rectangle(-5, 7, 1, 3).bounds();
    assert_eq!(bounds, Bounds { x_min: -5, x_max: -5, y_min: 7, y_max: 9 });
    assert!(rectangle(-5, 7, 1, 3).can_clip());
    assert!(!rectangle(0, 0, 0, 3).can_clip());
    assert!(!rectangle(0, 0, 3, 0).can_clip());
    assert!(!rectangle(0, 0, -1, 3).can_clip());
    assert!(rectangle(i32::MAX - 3, 0, 3, 3).can_clip());
    assert!(!rectangle(i32::MAX - 2, 0, 3, 3).can_clip());
    assert!(!rectangle(0, i32::MAX, 3, 1).can_clip());
    assert!(rectangle(i32::MIN, i32::MIN, i32::MAX, i32::MAX).can_clip());
}

#[test]
fn absolute_motion() {
    let event = InputEvent::PointerMotionAbsolute { time_msec: 8 };
    assert_eq!(world().run(event), vec![]);
    let under = Some(SurfaceId(1));
    let mut world = World { first_output: Some(OutputId(1)), surface: under, ..world() };
    let location = Location::EventOn(rectangle(1920, 0, 1920, 1080));
    assert_eq!(
        world.run(event),
        vec![
            Effect::Pointer(PointerOp::SetFocus(under)),
            Effect::Pointer(PointerOp::Motion { under, location, serial: 1, time_msec: 8 }),
            frame(),
            redraw(),
        ],
    );
}

fn button(state: ButtonState) -> InputEvent {
    InputEvent::PointerButton(ButtonEvent { button: 0x110, state, time_msec: 3 })
}

fn click(state: ButtonState) -> Vec<Effect> {
    vec![
        Effect::Pointer(PointerOp::UpdateFocus),
        Effect::Pointer(PointerOp::Button { button: 0x110, state, serial: 1, time_msec: 3 }),
        frame(),
    ]
}

#[test]
fn click_activates_window_or_output() {
    let window = Some(WindowId(5));
    let output = Some(OutputId(6));
    let mut over_window =
        World { window_under_cursor: window, output_under_cursor: output, ..world() };
    let mut expected = vec![Effect::Layout(LayoutOp::ActivateWindow(WindowId(5)))];
    expected.extend(click(ButtonState::Pressed));
    assert_eq!(over_window.run(button(ButtonState::Pressed)), expected);

    let mut over_output = World { output_under_cursor: output, ..world() };
    let mut expected = vec![Effect::Layout(LayoutOp::ActivateOutput(OutputId(6)))];
    expected.extend(click(ButtonState::Pressed));
    assert_eq!(over_output.run(button(ButtonState::Pressed)), expected);

    assert_eq!(world().run(button(ButtonState::Pressed)), click(ButtonState::Pressed));
}

#[test]
fn release_and_grab_activate_nothing() {
    let over = |grabbed| World { grabbed, window_under_cursor: Some(WindowId(5)), ..world() };
    let released = over(false).run(button(ButtonState::Released));
    assert_eq!(released, click(ButtonState::Released));
    let grabbed = over(true).run(button(ButtonState::Pressed));
    assert_eq!(grabbed, click(ButtonState::Pressed));
}

fn scroll(source: AxisSource, horizontal: AxisMotion, vertical: AxisMotion) -> AxisFrame {
    let event = InputEvent::PointerAxis(AxisEvent { source, horizontal, vertical, time_msec: 2 });
    let effects = world().run(event);
    assert_eq!(effects.len(), 3);
    assert_eq!(effects[0], Effect::Pointer(PointerOp::UpdateFocus));
    assert_eq!(effects[2], frame());
    let Effect::Pointer(PointerOp::Axis(axis)) = effects[1] else { panic!() };
    assert_eq!(axis.time_msec, 2);
    assert_eq!(axis.source, source);
    axis
}

const STILL: AxisMotion = AxisMotion { amount: None, amount_discrete: None };

const NOTHING: AxisPart = AxisPart { step: None, stop: false };

#[test]
fn scroll_with_amount_and_steps() {
    let motion = AxisMotion { amount: Some(num(15.0)), amount_discrete: Some(num(1.0)) };
    let res = scroll(AxisSource::Wheel, STILL, motion);
    assert_eq!(res.horizontal, NOTHING);
    let step = AxisStep { value: AxisValue::Amount(num(15.0)), discrete: Some(num(1.0)) };
    assert_eq!(res.vertical, AxisPart { step: Some(step), stop: false });
}

#[test]
fn scroll_with_steps_alone() {
    let motion = AxisMotion { amount: None, amount_discrete: Some(num(-2.0)) };
    let res = scroll(AxisSource::Wheel, motion, STILL);
    let step = AxisStep { value: AxisValue::TripleOf(num(-2.0)), discrete: Some(num(-2.0)) };
    assert_eq!(res.horizontal, AxisPart { step: Some(step), stop: false });
    assert_eq!(res.vertical, NOTHING);
}

#[test]
fn scroll_with_amount_alone() {
    let motion = AxisMotion { amount: Some(num(0.5)), amount_discrete: None };
    let res = scroll(AxisSource::Finger, motion, STILL);
    let step = AxisStep { value: AxisValue::Amount(num(0.5)), discrete: None };
    assert_eq!(res.horizontal, AxisPart { step: Some(step), stop: false });
}

#[test]
fn finger_stops_on_zero() {
    for zero in [0.0, -0.0] {
        let motion = AxisMotion { amount: Some(num(zero)), amount_discrete: Some(num(1.0)) };
        let res = scroll(AxisSource::Finger, motion, STILL);
        assert_eq!(res.horizontal, AxisPart { step: None, stop: true });
        assert_eq!(res.vertical, NOTHING);
        let res = scroll(AxisSource::Continuous, STILL, motion);
        assert_eq!(res.vertical, NOTHING);
    }
    let motion = AxisMotion { amount: None, amount_discrete: Some(num(0.0)) };
    assert_eq!(scroll(AxisSource::Finger, motion, STILL).horizontal, NOTHING);
}

#[test]
fn zero_is_what_the_numbers_say() {
    for x in [0.0f64, -0.0, 1.0, -1.0, f64::MIN_POSITIVE, 5e-324, f64::NAN, f64::INFINITY] {
        assert_eq!(num(x).is_zero(), x == 0.0);
        assert_eq!(num(x).is_zero(), !(x * 3.0 != 0.0));
    }
}

fn tool_axis(changed: bool) -> ToolAxisEvent {
    let reading = |value| Reading { changed, value: num(value) };
    ToolAxisEvent {
        pressure: reading(0.1),
        distance: reading(0.2),
        tilt: TiltReading { changed, value: vector(0.3, 0.4) },
        slider: reading(0.5),
        rotation: reading(0.6),
        wheel: WheelReading { changed, delta: num(0.7), delta_discrete: 8 },
        time_msec: 21,
    }
}

fn tool_moved(under: Option<SurfaceId>) -> Vec<Effect> {
    vec![
        Effect::Pointer(PointerOp::SetFocus(under)),
        Effect::Pointer(PointerOp::Motion {
            under,
            location: Location::EventOn(rectangle(0, 0, 1920, 1080)),
            serial: 1,
            time_msec: 21,
        }),
        frame(),
    ]
}

fn with_tablet() -> World {
    World {
        output_for_tablet: Some(OutputId(0)),
        tablet: Some(TabletId(2)),
        tool: Some(ToolId(3)),
        surface: Some(SurfaceId(4)),
        ..world()
    }
}

fn tool_motion() -> Effect {
    Effect::Tablet(TabletOp::Motion {
        tool: ToolId(3),
        tablet: TabletId(2),
        under: Some(SurfaceId(4)),
        location: Location::EventOn(rectangle(0, 0, 1920, 1080)),
        serial: 2,
        time_msec: 21,
    })
}

#[test]
fn tool_reports_what_is_new() {
    let tool = ToolId(3);
    let mut expected = tool_moved(Some(SurfaceId(4)));
    expected.extend(vec![
        Effect::Tablet(TabletOp::Pressure { tool, value: num(0.1) }),
        Effect::Tablet(TabletOp::Distance { tool, value: num(0.2) }),
        Effect::Tablet(TabletOp::Tilt { tool, value: vector(0.3, 0.4) }),
        Effect::Tablet(TabletOp::SliderPosition { tool, value: num(0.5) }),
        Effect::Tablet(TabletOp::Rotation { tool, value: num(0.6) }),
        Effect::Tablet(TabletOp::Wheel { tool, delta: num(0.7), delta_discrete: 8 }),
        tool_motion(),
        redraw(),
    ]);
    let mut world = with_tablet();
    assert_eq!(world.run(InputEvent::TabletToolAxis(tool_axis(true))), expected);
    assert_eq!(
        world.asked[5..],
        [Query::Tablet, Query::Tool, Query::NextSerial],
    );
}

#[test]
fn tool_keeps_quiet_about_the_rest() {
    let mut expected = tool_moved(Some(SurfaceId(4)));
    expected.extend(vec![tool_motion(), redraw()]);
    assert_eq!(with_tablet().run(InputEvent::TabletToolAxis(tool_axis(false))), expected);
}

#[test]
fn unknown_tool_moves_the_pointer_all_the_same() {
    let mut expected = tool_moved(Some(SurfaceId(4)));
    expected.push(redraw());
    let event = InputEvent::TabletToolAxis(tool_axis(true));
    assert_eq!(World { tool: None, ..with_tablet() }.run(event), expected);
    assert_eq!(World { tablet: None, ..with_tablet() }.run(event), expected);
    assert_eq!(World { output_for_tablet: None, ..with_tablet() }.run(event), vec![]);
}

fn proximity(state: ProximityState) -> InputEvent {
    InputEvent::TabletToolProximity(ToolProximityEvent { state, time_msec: 21 })
}

#[test]
fn tool_comes_and_goes() {
    let mut expected = tool_moved(Some(SurfaceId(4)));
    expected.push(Effect::Tablet(TabletOp::ProximityIn {
        tool: ToolId(77),
        tablet: TabletId(2),
        under: SurfaceId(4),
        location: Location::EventOn(rectangle(0, 0, 1920, 1080)),
        serial: 2,
        time_msec: 21,
    }));
    assert_eq!(with_tablet().run(proximity(ProximityState::In)), expected);

    let mut expected = tool_moved(Some(SurfaceId(4)));
    expected.push(Effect::Tablet(TabletOp::ProximityOut { tool: ToolId(77), time_msec: 21 }));
    assert_eq!(with_tablet().run(proximity(ProximityState::Out)), expected);
}

#[test]
fn tool_is_added_after_the_pointer_is_placed() {
    let mut world = with_tablet();
    world.run(proximity(ProximityState::In));
    let location = Location::EventOn(rectangle(0, 0, 1920, 1080));
    assert_eq!(
        world.asked,
        vec![
            Query::ModKey,
            Query::OutputForTablet,
            Query::OutputGeometry(OutputId(0)),
            Query::NextSerial,
            Query::SurfaceUnder(location),
            Query::AddTool,
            Query::Tablet,
            Query::NextSerial,
        ],
    );

    let mut state = state();
    state.process_input_event(proximity(ProximityState::In));
    for _ in 0..4 {
        let query = state.query().unwrap();
        assert_eq!(state.resume(world.answer(query)), vec![]);
    }
    assert_eq!(state.query(), Some(Query::SurfaceUnder(location)));
    let placed = state.resume(Reply::Surface(None));
    assert_eq!(placed.len(), 3);
    assert_eq!(placed[2], frame());
    assert_eq!(state.query(), Some(Query::AddTool));
}

#[test]
fn tool_away_from_surfaces() {
    let event = proximity(ProximityState::In);
    assert_eq!(World { surface: None, ..with_tablet() }.run(event), tool_moved(None));
    assert_eq!(
        World { tablet: None, ..with_tablet() }.run(event),
        tool_moved(Some(SurfaceId(4))),
    );
    assert_eq!(World { output_for_tablet: None, ..with_tablet() }.run(event), vec![]);
}

fn tip(tip_state: TipState) -> InputEvent {
    InputEvent::TabletToolTip(ToolTipEvent { tip_state, time_msec: 33 })
}

#[test]
fn tip_activates() {
    let tool = ToolId(3);
    let down = Effect::Tablet(TabletOp::TipDown { tool, serial: 1, time_msec: 33 });
    let mut world = World { window_under_cursor: Some(WindowId(1)), ..with_tablet() };
    assert_eq!(
        world.run(tip(TipState::Down)),
        vec![down, Effect::Layout(LayoutOp::ActivateWindow(WindowId(1)))],
    );
    let up = Effect::Tablet(TabletOp::TipUp { tool, time_msec: 33 });
    assert_eq!(world.run(tip(TipState::Up)), vec![up]);
    world.tool = None;
    assert_eq!(world.run(tip(TipState::Down)), vec![]);
}

#[test]
fn tip_is_down_before_anything_is_activated() {
    let mut world = with_tablet();
    world.run(tip(TipState::Down));
    assert_eq!(
        world.asked,
        vec![
            Query::ModKey,
            Query::Tool,
            Query::NextSerial,
            Query::IsPointerGrabbed,
            Query::WindowUnderCursor,
            Query::OutputUnderCursor,
        ],
    );

    let mut state = state();
    state.process_input_event(tip(TipState::Down));
    assert_eq!(state.resume(Reply::ModKey(CompositorMod::Super)), vec![]);
    assert_eq!(state.resume(Reply::Tool(Some(ToolId(3)))), vec![]);
    let down = Effect::Tablet(TabletOp::TipDown { tool: ToolId(3), serial: 8, time_msec: 33 });
    assert_eq!(state.resume(Reply::Serial(8)), vec![down]);
    assert_eq!(state.query(), Some(Query::IsPointerGrabbed));
}

#[test]
fn tip_under_grab_activates_nothing() {
    let mut world =
        World { grabbed: true, window_under_cursor: Some(WindowId(1)), ..with_tablet() };
    let down = Effect::Tablet(TabletOp::TipDown { tool: ToolId(3), serial: 1, time_msec: 33 });
    assert_eq!(world.run(tip(TipState::Down)), vec![down]);
}

#[test]
fn tool_button() {
    let event = InputEvent::TabletToolButton(ToolButtonEvent {
        button: 0x14b,
        button_state: ButtonState::Pressed,
        time_msec: 9,
    });
    assert_eq!(
        with_tablet().run(event),
        vec![Effect::Tablet(TabletOp::Button {
            tool: ToolId(3),
            button: 0x14b,
            state: ButtonState::Pressed,
            serial: 1,
            time_msec: 9,
        })],
    );
    assert_eq!(world().run(event), vec![]);
}

#[test]
fn tablets_come_and_go() {
    let add = Effect::Tablet(TabletOp::AddTablet);
    assert_eq!(world().run(InputEvent::DeviceAdded { tablet_tool: true }), vec![add]);
    assert_eq!(world().run(InputEvent::DeviceAdded { tablet_tool: false }), vec![]);
    let remove = || Effect::Tablet(TabletOp::RemoveTablet);
    let event = InputEvent::DeviceRemoved { tablet_tool: true };
    assert_eq!(
        world().run(event),
        vec![remove(), Effect::Tablet(TabletOp::ClearTools)],
    );
    assert_eq!(World { tablets: 1, ..world() }.run(event), vec![remove()]);
    assert_eq!(world().run(InputEvent::DeviceRemoved { tablet_tool: false }), vec![]);
}

#[test]
fn tablets_are_counted_when_one_is_gone() {
    let mut state = state();
    state.process_input_event(InputEvent::DeviceRemoved { tablet_tool: true });
    let effects = state.resume(Reply::ModKey(CompositorMod::Super));
    assert_eq!(effects, vec![Effect::Tablet(TabletOp::RemoveTablet)]);
    assert_eq!(state.query(), Some(Query::CountTablets));
    assert_eq!(state.resume(Reply::Count(0)), vec![Effect::Tablet(TabletOp::ClearTools)]);
    assert_eq!(state.query(), None);
}

#[test]
fn monitors_are_looked_for_in_their_direction() {
    for (action, direction) in vec![
        (Action::FocusMonitorLeft, Direction::Left),
        (Action::FocusMonitorRight, Direction::Right),
        (Action::MoveWindowToMonitorDown, Direction::Down),
        (Action::MoveWindowToMonitorUp, Direction::Up),
    ] {
        let mut world = World { intercepted: Some(action), ..world() };
        world.run(press());
        assert_eq!(world.asked[4..], [Query::OutputToward(direction)]);
    }
}

fn forward(gesture: Gesture, serial: Option<u32>) -> Effect {
    Effect::Pointer(PointerOp::Gesture { gesture, serial })
}

#[test]
fn three_fingers_switch_workspaces() {
    let event = InputEvent::Gesture(Gesture::SwipeBegin { fingers: 3, time_msec: 0 });
    assert_eq!(world().run(event), vec![]);
    assert_eq!(
        World { output_under_cursor: Some(OutputId(3)), ..world() }.run(event),
        vec![Effect::Layout(LayoutOp::WorkspaceSwitchGestureBegin(OutputId(3))), redraw()],
    );
}

#[test]
fn other_swipes_are_forwarded() {
    for fingers in [0, 2, 4] {
        let gesture = Gesture::SwipeBegin { fingers, time_msec: 6 };
        let mut world = World { output_under_cursor: Some(OutputId(3)), ..world() };
        let effects = world.run(InputEvent::Gesture(gesture));
        assert_eq!(effects, vec![forward(gesture, Some(1))]);
    }
}

#[test]
fn swipe_update() {
    let gesture = Gesture::SwipeUpdate { delta: vector(1.0, 2.0), time_msec: 6 };
    let event = InputEvent::Gesture(gesture);
    let mut plain = world();
    assert_eq!(plain.run(event), vec![forward(gesture, None)]);
    assert_eq!(
        plain.asked,
        vec![
            Query::ModKey,
            Query::WorkspaceSwitchGestureUpdate(num(2.0)),
            Query::UpdatePointerFocus,
        ],
    );
    let mut kept = World { swipe_update: Some(None), ..world() };
    assert_eq!(kept.run(event), vec![]);
    let mut kept = World { swipe_update: Some(Some(OutputId(2))), ..world() };
    assert_eq!(kept.run(event), vec![Effect::Screen(ScreenOp::QueueRedraw(OutputId(2)))]);
}

#[test]
fn swipe_end() {
    let gesture = Gesture::SwipeEnd { cancelled: true, time_msec: 6 };
    let event = InputEvent::Gesture(gesture);
    let mut plain = World { focus_changed: true, ..world() };
    assert_eq!(plain.run(event), vec![frame(), forward(gesture, Some(1))]);
    assert_eq!(plain.asked[1], Query::WorkspaceSwitchGestureEnd { cancelled: true });
    let mut kept = World { swipe_end: Some(OutputId(2)), ..world() };
    assert_eq!(kept.run(event), vec![Effect::Screen(ScreenOp::QueueRedraw(OutputId(2)))]);
}

#[test]
fn pinch_and_hold_are_forwarded() {
    let update = Gesture::PinchUpdate {
        delta: vector(1.0, 2.0),
        scale: num(1.1),
        rotation: num(0.5),
        time_msec: 6,
    };
    let cases = vec![
        (Gesture::PinchBegin { fingers: 3, time_msec: 6 }, Some(1)),
        (update, None),
        (Gesture::PinchEnd { cancelled: false, time_msec: 6 }, Some(1)),
        (Gesture::HoldBegin { fingers: 3, time_msec: 6 }, Some(1)),
        (Gesture::HoldEnd { cancelled: true, time_msec: 6 }, Some(1)),
    ];
    for (gesture, serial) in cases {
        let event = InputEvent::Gesture(gesture);
        assert_eq!(world().run(event), vec![forward(gesture, serial)]);
        let mut changed = World { focus_changed: true, ..world() };
        assert_eq!(changed.run(event), vec![frame(), forward(gesture, serial)]);
    }
}

#[test]
fn touch_and_special_events_do_nothing() {
    for event in [
        InputEvent::TouchDown,
        InputEvent::TouchMotion,
        InputEvent::TouchUp,
        InputEvent::TouchCancel,
        InputEvent::TouchFrame,
        InputEvent::Special,
    ] {
        assert_eq!(world().run(event), vec![]);
    }
}

#[test]
fn only_fitting_answers_are_accepted() {
    let mut state = state();
    assert_eq!(state.query(), None);
    assert!(!state.accepts(&Reply::Flag(true)));
    state.process_input_event(press());
    assert_eq!(state.query(), Some(Query::ModKey));
    assert!(!state.accepts(&Reply::Serial(1)));
    state.resume(Reply::ModKey(CompositorMod::Alt));
    assert!(state.accepts(&Reply::Serial(1)));
    state.resume(Reply::Serial(1));
    state.resume(Reply::Intercepted(Some(Action::Nothing)));
    assert!(!state.accepts(&Reply::Flag(false)));
    assert!(state.accepts(&Reply::Flag(true)));
}

#[test]
fn outputs_without_extent_are_not_accepted() {
    let mut state = state();
    state.process_input_event(InputEvent::PointerMotion(motion()));
    state.resume(Reply::ModKey(CompositorMod::Super));
    state.resume(Reply::Output(Some(OutputId(0))));
    state.resume(Reply::Serial(1));
    state.resume(Reply::Output(None));
    state.resume(Reply::Output(Some(OutputId(0))));
    assert_eq!(state.query(), Some(Query::OutputGeometry(OutputId(0))));
    assert!(!state.accepts(&Reply::Geometry(rectangle(0, 0, 0, 1080))));
    assert!(state.accepts(&Reply::Geometry(rectangle(0, 0, 1, 1080))));
}

#[test]
fn vanished_output_is_not_accepted() {
    let mut state = state();
    state.process_input_event(InputEvent::PointerMotion(motion()));
    state.resume(Reply::ModKey(CompositorMod::Super));
    state.resume(Reply::Output(Some(OutputId(0))));
    state.resume(Reply::Serial(1));
    state.resume(Reply::Output(None));
    state.resume(Reply::Output(None));
    assert_eq!(state.query(), Some(Query::FirstOutput));
    assert!(!state.accepts(&Reply::Output(None)));
    assert!(state.accepts(&Reply::Output(Some(OutputId(0)))));
}

#[test]
fn new_event_replaces_unfinished_one() {
    let mut state = state();
    state.process_input_event(press());
    state.resume(Reply::ModKey(CompositorMod::Super));
    state.process_input_event(InputEvent::TouchUp);
    assert_eq!(state.query(), Some(Query::ModKey));
    assert_eq!(state.resume(Reply::ModKey(CompositorMod::Super)), vec![]);
    assert_eq!(state.query(), None);
}

#[test]
fn touchpads_are_configured() {
    let state = state();
    let added = |tap_finger_count| LibinputEvent::DeviceAdded { tap_finger_count };
    assert_eq!(
        state.process_libinput_event(&added(3)),
        vec![
            TouchpadSetting::TapEnabled(true),
            TouchpadSetting::NaturalScrollEnabled(false),
            TouchpadSetting::AccelSpeed(num(0.2)),
        ],
    );
    assert_eq!(state.process_libinput_event(&added(1)).len(), 3);
    assert_eq!(state.process_libinput_event(&added(0)), vec![]);
    assert_eq!(state.process_libinput_event(&LibinputEvent::Other), vec![]);
}
