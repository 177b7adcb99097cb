//! The part of the configuration that the input rules read.

use vstd::prelude::*;

verus! {

/// A double-precision number, carried as its IEEE 754 bit pattern.
///
/// The rules hand such numbers on and ask of some whether they are zero; the arithmetic on them
/// is done by those who receive them.
#[derive(Clone, Copy, PartialEq, Eq, Debug)]
pub struct Real {
    pub bits: u64,
}

impl Real {
    /// Equal to zero in the sense of IEEE 754: positive zero or negative zero.
    pub open spec fn zero(self) -> bool {
        self.bits == 0 || self.bits == 0x8000_0000_0000_0000
    }

    pub fn is_zero(self) -> (res: bool)
        ensures
            res == self.zero(),
    {
        self.bits == 0 || self.bits == 0x8000_0000_0000_0000
    }
}

/// A change of a column's width.
#[derive(Clone, Copy, PartialEq, Eq, Debug)]
pub enum SizeChange {
    SetFixed(i32),
    SetProportion(Real),
    AdjustFixed(i32),
    AdjustProportion(Real),
}

/// What a key bind does, over a representation `C` of the command line of `Spawn`.
#[derive(PartialEq, Eq, Debug)]
pub enum ActionOf<C> {
    /// No effect: the key goes on to the focused client.
    Nothing,
    Quit,
    ChangeVt(i32),
    Suspend,
    PowerOffMonitors,
    ToggleDebugTint,
    Spawn(C),
    Screenshot,
    ScreenshotWindow,
    CloseWindow,
    FullscreenWindow,
    MoveColumnLeft,
    MoveColumnRight,
    MoveWindowDown,
    MoveWindowUp,
    FocusColumnLeft,
    FocusColumnRight,
    FocusWindowDown,
    FocusWindowUp,
    MoveWindowToWorkspaceDown,
    MoveWindowToWorkspaceUp,
    MoveWindowToWorkspace(u8),
    FocusWorkspaceDown,
    FocusWorkspaceUp,
    FocusWorkspace(u8),
    MoveWorkspaceDown,
    MoveWorkspaceUp,
    ConsumeWindowIntoColumn,
    ExpelWindowFromColumn,
    SwitchPresetColumnWidth,
    MaximizeColumn,
    FocusMonitorLeft,
    FocusMonitorRight,
    FocusMonitorDown,
    FocusMonitorUp,
    MoveWindowToMonitorLeft,
    MoveWindowToMonitorRight,
    MoveWindowToMonitorDown,
    MoveWindowToMonitorUp,
    SetColumnWidth(SizeChange),
}

/// What a key bind does.
pub type Action = ActionOf<Vec<String>>;

/// The mathematical content of an [`Action`].
pub type ActionView = ActionOf<Seq<Seq<char>>>;

/// The characters of each word of a command line.
pub open spec fn words_view(words: Seq<String>) -> Seq<Seq<char>> {
    words.map_values(|word: String| word@)
}

impl View for ActionOf<Vec<String>> {
    type V = ActionView;

    open spec fn view(&self) -> ActionView {
        match *self {
            ActionOf::Nothing => ActionOf::Nothing,
            ActionOf::Quit => ActionOf::Quit,
            ActionOf::ChangeVt(x) => ActionOf::ChangeVt(x),
            ActionOf::Suspend => ActionOf::Suspend,
            ActionOf::PowerOffMonitors => ActionOf::PowerOffMonitors,
            ActionOf::ToggleDebugTint => ActionOf::ToggleDebugTint,
            ActionOf::Spawn(words) => ActionOf::Spawn(words_view(words@)),
            ActionOf::Screenshot => ActionOf::Screenshot,
            ActionOf::ScreenshotWindow => ActionOf::ScreenshotWindow,
            ActionOf::CloseWindow => ActionOf::CloseWindow,
            ActionOf::FullscreenWindow => ActionOf::FullscreenWindow,
            ActionOf::MoveColumnLeft => ActionOf::MoveColumnLeft,
            ActionOf::MoveColumnRight => ActionOf::MoveColumnRight,
            ActionOf::MoveWindowDown => ActionOf::MoveWindowDown,
            ActionOf::MoveWindowUp => ActionOf::MoveWindowUp,
            ActionOf::FocusColumnLeft => ActionOf::FocusColumnLeft,
            ActionOf::FocusColumnRight => ActionOf::FocusColumnRight,
            ActionOf::FocusWindowDown => ActionOf::FocusWindowDown,
            ActionOf::FocusWindowUp => ActionOf::FocusWindowUp,
            ActionOf::MoveWindowToWorkspaceDown => ActionOf::MoveWindowToWorkspaceDown,
            ActionOf::MoveWindowToWorkspaceUp => ActionOf::MoveWindowToWorkspaceUp,
            ActionOf::MoveWindowToWorkspace(x) => ActionOf::MoveWindowToWorkspace(x),
            ActionOf::FocusWorkspaceDown => ActionOf::FocusWorkspaceDown,
            ActionOf::FocusWorkspaceUp => ActionOf::FocusWorkspaceUp,
            ActionOf::FocusWorkspace(x) => ActionOf::FocusWorkspace(x),
            ActionOf::MoveWorkspaceDown => ActionOf::MoveWorkspaceDown,
            ActionOf::MoveWorkspaceUp => ActionOf::MoveWorkspaceUp,
            ActionOf::ConsumeWindowIntoColumn => ActionOf::ConsumeWindowIntoColumn,
            ActionOf::ExpelWindowFromColumn => ActionOf::ExpelWindowFromColumn,
            ActionOf::SwitchPresetColumnWidth => ActionOf::SwitchPresetColumnWidth,
            ActionOf::MaximizeColumn => ActionOf::MaximizeColumn,
            ActionOf::FocusMonitorLeft => ActionOf::FocusMonitorLeft,
            ActionOf::FocusMonitorRight => ActionOf::FocusMonitorRight,
            ActionOf::FocusMonitorDown => ActionOf::FocusMonitorDown,
            ActionOf::FocusMonitorUp => ActionOf::FocusMonitorUp,
            ActionOf::MoveWindowToMonitorLeft => ActionOf::MoveWindowToMonitorLeft,
            ActionOf::MoveWindowToMonitorRight => ActionOf::MoveWindowToMonitorRight,
            ActionOf::MoveWindowToMonitorDown => ActionOf::MoveWindowToMonitorDown,
            ActionOf::MoveWindowToMonitorUp => ActionOf::MoveWindowToMonitorUp,
            ActionOf::SetColumnWidth(x) => ActionOf::SetColumnWidth(x),
        }
    }
}

/// Copies a command line.
fn clone_words(words: &Vec<String>) -> (res: Vec<String>)
    ensures
        words_view(res@) == words_view(words@),
{
    let mut res: Vec<String> = Vec::new();
    for i in 0..words.len()
        invariant
            res@.len() == i,
            forall|j: int| 0 <= j < i ==> #[trigger] res@[j]@ == words@[j]@,
    {
        res.push(words[i].clone());
    }
    assert(words_view(res@) =~= words_view(words@));
    res
}

impl Clone for ActionOf<Vec<String>> {
    fn clone(&self) -> (res: Self)
        ensures
            res@ == self@,
    {
        match self {
            ActionOf::Nothing => ActionOf::Nothing,
            ActionOf::Quit => ActionOf::Quit,
            ActionOf::ChangeVt(x) => ActionOf::ChangeVt(*x),
            ActionOf::Suspend => ActionOf::Suspend,
            ActionOf::PowerOffMonitors => ActionOf::PowerOffMonitors,
            ActionOf::ToggleDebugTint => ActionOf::ToggleDebugTint,
            ActionOf::Spawn(words) => ActionOf::Spawn(clone_words(words)),
            ActionOf::Screenshot => ActionOf::Screenshot,
            ActionOf::ScreenshotWindow => ActionOf::ScreenshotWindow,
            ActionOf::CloseWindow => ActionOf::CloseWindow,
            ActionOf::FullscreenWindow => ActionOf::FullscreenWindow,
            ActionOf::MoveColumnLeft => ActionOf::MoveColumnLeft,
            ActionOf::MoveColumnRight => ActionOf::MoveColumnRight,
            ActionOf::MoveWindowDown => ActionOf::MoveWindowDown,
            ActionOf::MoveWindowUp => ActionOf::MoveWindowUp,
            ActionOf::FocusColumnLeft => ActionOf::FocusColumnLeft,
            ActionOf::FocusColumnRight => ActionOf::FocusColumnRight,
            ActionOf::FocusWindowDown => ActionOf::FocusWindowDown,
            ActionOf::FocusWindowUp => ActionOf::FocusWindowUp,
            ActionOf::MoveWindowToWorkspaceDown => ActionOf::MoveWindowToWorkspaceDown,
            ActionOf::MoveWindowToWorkspaceUp => ActionOf::MoveWindowToWorkspaceUp,
            ActionOf::MoveWindowToWorkspace(x) => ActionOf::MoveWindowToWorkspace(*x),
            ActionOf::FocusWorkspaceDown => ActionOf::FocusWorkspaceDown,
            ActionOf::FocusWorkspaceUp => ActionOf::FocusWorkspaceUp,
            ActionOf::FocusWorkspace(x) => ActionOf::FocusWorkspace(*x),
            ActionOf::MoveWorkspaceDown => ActionOf::MoveWorkspaceDown,
            ActionOf::MoveWorkspaceUp => ActionOf::MoveWorkspaceUp,
            ActionOf::ConsumeWindowIntoColumn => ActionOf::ConsumeWindowIntoColumn,
            ActionOf::ExpelWindowFromColumn => ActionOf::ExpelWindowFromColumn,
            ActionOf::SwitchPresetColumnWidth => ActionOf::SwitchPresetColumnWidth,
            ActionOf::MaximizeColumn => ActionOf::MaximizeColumn,
            ActionOf::FocusMonitorLeft => ActionOf::FocusMonitorLeft,
            ActionOf::FocusMonitorRight => ActionOf::FocusMonitorRight,
            ActionOf::FocusMonitorDown => ActionOf::FocusMonitorDown,
            ActionOf::FocusMonitorUp => ActionOf::FocusMonitorUp,
            ActionOf::MoveWindowToMonitorLeft => ActionOf::MoveWindowToMonitorLeft,
            ActionOf::MoveWindowToMonitorRight => ActionOf::MoveWindowToMonitorRight,
            ActionOf::MoveWindowToMonitorDown => ActionOf::MoveWindowToMonitorDown,
            ActionOf::MoveWindowToMonitorUp => ActionOf::MoveWindowToMonitorUp,
            ActionOf::SetColumnWidth(x) => ActionOf::SetColumnWidth(*x),
        }
    }
}

/// A set of modifiers.
///
/// `compositor` stands for whichever modifier the compositor's own binds are built on.
#[derive(Clone, Copy, PartialEq, Eq, Structural, Debug)]
pub struct Modifiers {
    pub ctrl: bool,
    pub shift: bool,
    pub alt: bool,
    pub logo: bool,
    pub compositor: bool,
}

impl Modifiers {
    /// The set without a member.
    pub open spec fn none() -> Modifiers {
        Modifiers { ctrl: false, shift: false, alt: false, logo: false, compositor: false }
    }

    /// The modifiers that are in either set.
    pub open spec fn or(self, other: Modifiers) -> Modifiers {
        Modifiers {
            ctrl: self.ctrl || other.ctrl,
            shift: self.shift || other.shift,
            alt: self.alt || other.alt,
            logo: self.logo || other.logo,
            compositor: self.compositor || other.compositor,
        }
    }

    pub fn empty() -> (res: Modifiers)
        ensures
            res == Modifiers::none(),
    {
        Modifiers { ctrl: false, shift: false, alt: false, logo: false, compositor: false }
    }

    pub fn union(self, other: Modifiers) -> (res: Modifiers)
        ensures
            res == self.or(other),
    {
        Modifiers {
            ctrl: self.ctrl || other.ctrl,
            shift: self.shift || other.shift,
            alt: self.alt || other.alt,
            logo: self.logo || other.logo,
            compositor: self.compositor || other.compositor,
        }
    }
}

/// The key that a bind is for: a raw keysym, and the modifiers that go with it.
#[derive(Clone, Copy, PartialEq, Eq, Debug)]
pub struct Key {
    pub keysym: u32,
    pub modifiers: Modifiers,
}

/// A key bind.
#[derive(PartialEq, Eq, Debug)]
pub struct Bind {
    pub key: Key,
    pub actions: Vec<Action>,
}

/// The key binds, in the order of the configuration.
#[derive(PartialEq, Eq, Debug)]
pub struct Binds(pub Vec<Bind>);

/// The settings of touchpads.
#[derive(Clone, Copy, PartialEq, Eq, Debug)]
pub struct Touchpad {
    pub tap: bool,
    pub natural_scroll: bool,
    pub accel_speed: Real,
}

/// The settings of input devices.
#[derive(Clone, Copy, PartialEq, Eq, Debug)]
pub struct Input {
    pub touchpad: Touchpad,
}

/// The configuration.
#[derive(PartialEq, Eq, Debug)]
pub struct Config {
    pub input: Input,
    pub binds: Binds,
}

} // verus!
