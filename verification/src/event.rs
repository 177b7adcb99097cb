//! Input events, as far as the rules read them.

use vstd::prelude::*;

use crate::config::Real;

verus! {

/// The new state of a key.
#[derive(Clone, Copy, PartialEq, Eq, Debug)]
pub enum KeyState {
    Released,
    Pressed,
}

/// The new state of a button.
#[derive(Clone, Copy, PartialEq, Eq, Debug)]
pub enum ButtonState {
    Released,
    Pressed,
}

/// What an axis event comes from.
#[derive(Clone, Copy, PartialEq, Eq, Debug)]
pub enum AxisSource {
    Finger,
    Continuous,
    Wheel,
    WheelTilt,
}

/// Whether the tip of a tablet tool touches the tablet.
#[derive(Clone, Copy, PartialEq, Eq, Debug)]
pub enum TipState {
    Up,
    Down,
}

/// Whether a tablet tool is near the tablet.
#[derive(Clone, Copy, PartialEq, Eq, Debug)]
pub enum ProximityState {
    Out,
    In,
}

/// A displacement.
#[derive(Clone, Copy, PartialEq, Eq, Debug)]
pub struct Vector {
    pub x: Real,
    pub y: Real,
}

/// A key was pressed or released.
#[derive(Clone, Copy, PartialEq, Eq, Debug)]
pub struct KeyboardEvent {
    pub key_code: u32,
    pub state: KeyState,
    pub time_msec: u32,
}

/// The pointer was moved by some distance.
#[derive(Clone, Copy, PartialEq, Eq, Debug)]
pub struct MotionEvent {
    pub delta: Vector,
    pub delta_unaccel: Vector,
    pub time_msec: u32,
    pub time_usec: u64,
}

/// A button of the pointer was pressed or released.
#[derive(Clone, Copy, PartialEq, Eq, Debug)]
pub struct ButtonEvent {
    pub button: u32,
    pub state: ButtonState,
    pub time_msec: u32,
}

/// How far an axis was scrolled: in pixels, in steps of a wheel, or both.
#[derive(Clone, Copy, PartialEq, Eq, Debug)]
pub struct AxisMotion {
    pub amount: Option<Real>,
    pub amount_discrete: Option<Real>,
}

/// Something was scrolled.
#[derive(Clone, Copy, PartialEq, Eq, Debug)]
pub struct AxisEvent {
    pub source: AxisSource,
    pub horizontal: AxisMotion,
    pub vertical: AxisMotion,
    pub time_msec: u32,
}

/// A value that a tablet tool reports, and whether it is a new one.
#[derive(Clone, Copy, PartialEq, Eq, Debug)]
pub struct Reading {
    pub changed: bool,
    pub value: Real,
}

/// The tilt that a tablet tool reports, and whether it is a new one.
#[derive(Clone, Copy, PartialEq, Eq, Debug)]
pub struct TiltReading {
    pub changed: bool,
    pub value: Vector,
}

/// The turn of a wheel that a tablet tool reports, and whether there was one.
#[derive(Clone, Copy, PartialEq, Eq, Debug)]
pub struct WheelReading {
    pub changed: bool,
    pub delta: Real,
    pub delta_discrete: i32,
}

/// A tablet tool was moved, or something else about it changed.
#[derive(Clone, Copy, PartialEq, Eq, Debug)]
pub struct ToolAxisEvent {
    pub pressure: Reading,
    pub distance: Reading,
    pub tilt: TiltReading,
    pub slider: Reading,
    pub rotation: Reading,
    pub wheel: WheelReading,
    pub time_msec: u32,
}

/// The tip of a tablet tool was put down or lifted.
#[derive(Clone, Copy, PartialEq, Eq, Debug)]
pub struct ToolTipEvent {
    pub tip_state: TipState,
    pub time_msec: u32,
}

/// A tablet tool came near the tablet or left it.
#[derive(Clone, Copy, PartialEq, Eq, Debug)]
pub struct ToolProximityEvent {
    pub state: ProximityState,
    pub time_msec: u32,
}

/// A button of a tablet tool was pressed or released.
#[derive(Clone, Copy, PartialEq, Eq, Debug)]
pub struct ToolButtonEvent {
    pub button: u32,
    pub button_state: ButtonState,
    pub time_msec: u32,
}

/// A step of a touchpad gesture.
#[derive(Clone, Copy, PartialEq, Eq, Debug)]
pub enum Gesture {
    SwipeBegin { fingers: u32, time_msec: u32 },
    SwipeUpdate { delta: Vector, time_msec: u32 },
    SwipeEnd { cancelled: bool, time_msec: u32 },
    PinchBegin { fingers: u32, time_msec: u32 },
    PinchUpdate { delta: Vector, scale: Real, rotation: Real, time_msec: u32 },
    PinchEnd { cancelled: bool, time_msec: u32 },
    HoldBegin { fingers: u32, time_msec: u32 },
    HoldEnd { cancelled: bool, time_msec: u32 },
}

/// An input event.
#[derive(Clone, Copy, PartialEq, Eq, Debug)]
pub enum InputEvent {
    Keyboard(KeyboardEvent),
    PointerMotion(MotionEvent),
    PointerMotionAbsolute { time_msec: u32 },
    PointerButton(ButtonEvent),
    PointerAxis(AxisEvent),
    TabletToolAxis(ToolAxisEvent),
    TabletToolTip(ToolTipEvent),
    TabletToolProximity(ToolProximityEvent),
    TabletToolButton(ToolButtonEvent),
    /// A device appeared, with the capability of a tablet tool or without it.
    DeviceAdded { tablet_tool: bool },
    /// A device went away, with the capability of a tablet tool or without it.
    DeviceRemoved { tablet_tool: bool },
    Gesture(Gesture),
    TouchDown,
    TouchMotion,
    TouchUp,
    TouchCancel,
    TouchFrame,
    /// An event that is peculiar to a backend.
    Special,
}

/// The user did something with a device: this wakes up monitors that were powered off.
///
/// Device additions and removals, key releases, updates and ends of gestures do not count.
pub open spec fn activates_monitors(event: InputEvent) -> bool {
    match event {
        InputEvent::Keyboard(key) => key.state is Pressed,
        InputEvent::Gesture(gesture) => gesture is SwipeBegin || gesture is PinchBegin
            || gesture is HoldBegin,
        _ => !(event is DeviceAdded || event is DeviceRemoved || event is TouchUp
            || event is TouchCancel || event is TouchFrame || event is Special),
    }
}

/// Whether an event powers the monitors on.
pub fn should_activate_monitors(event: &InputEvent) -> (res: bool)
    ensures
        res == activates_monitors(*event),
{
    match event {
        InputEvent::Keyboard(key) => matches!(key.state, KeyState::Pressed),
        InputEvent::PointerMotion(_)
        | InputEvent::PointerMotionAbsolute { .. }
        | InputEvent::PointerButton(_)
        | InputEvent::PointerAxis(_)
        | InputEvent::Gesture(Gesture::SwipeBegin { .. })
        | InputEvent::Gesture(Gesture::PinchBegin { .. })
        | InputEvent::Gesture(Gesture::HoldBegin { .. })
        | InputEvent::TouchDown
        | InputEvent::TouchMotion
        | InputEvent::TabletToolAxis(_)
        | InputEvent::TabletToolProximity(_)
        | InputEvent::TabletToolTip(_)
        | InputEvent::TabletToolButton(_) => true,
        // Ignore events like device additions and removals, key releases, gesture ends.
        _ => false,
    }
}

} // verus!
