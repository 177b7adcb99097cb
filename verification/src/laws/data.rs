//! That contents are kept, and what answers can be.

use vstd::prelude::*;

use crate::binds::FilterResult;
use crate::config::{words_view, Action, ActionView, Config};
use crate::effect::{
    effects_view, replies_to, Effect, EffectView, Query, Reply, ReplyView,
};
use crate::state::{acceptable, touchpad_settings, LibinputEvent, TouchpadSetting};
use crate::step::{open_query, Pending, PendingView};

verus! {

/// A device that can tell at least one finger apart when it is tapped is a touchpad. It gets three
/// settings, in this order and as they are configured. Any other device gets none.
pub proof fn touchpads_are_set_up_as_configured(config: Config, fingers: u32)
    ensures
        ({
            let settings = touchpad_settings(
                config,
                LibinputEvent::DeviceAdded { tap_finger_count: fingers },
            );
            &&& fingers == 0 ==> settings.len() == 0
            &&& fingers != 0 ==> {
                &&& settings.len() == 3
                &&& settings[0] == TouchpadSetting::TapEnabled(config.input.touchpad.tap)
                &&& settings[1] == TouchpadSetting::NaturalScrollEnabled(
                    config.input.touchpad.natural_scroll,
                )
                &&& settings[2] == TouchpadSetting::AccelSpeed(
                    config.input.touchpad.accel_speed,
                )
            }
        }),
        touchpad_settings(config, LibinputEvent::Other).len() == 0,
{
}

/// How many fingers a touchpad can tell apart makes no difference, nor do the binds.
pub proof fn touchpads_are_set_up_alike(a: Config, b: Config, fingers1: u32, fingers2: u32)
    requires
        a.input == b.input,
        fingers1 > 0,
        fingers2 > 0,
    ensures
        touchpad_settings(a, LibinputEvent::DeviceAdded { tap_finger_count: fingers1 })
            == touchpad_settings(b, LibinputEvent::DeviceAdded { tap_finger_count: fingers2 }),
{
}

/// The content of a list of words has the characters of each word, in order.
pub proof fn words_are_kept(words: Seq<String>, i: int)
    ensures
        words_view(words).len() == words.len(),
        0 <= i < words.len() ==> words_view(words)[i] == words[i]@,
{
}

/// The content of a command line is that of its words.
pub proof fn command_line_is_kept(words: Vec<String>)
    ensures
        Action::Spawn(words)@ == ActionView::Spawn(words_view(words@)),
{
}

/// Any other action is its own content, with the number, the index or the change that it names.
pub proof fn actions_are_kept(action: Action)
    ensures
        match action {
            Action::Nothing => action@ == ActionView::Nothing,
            Action::Quit => action@ == ActionView::Quit,
            Action::ChangeVt(vt) => action@ == ActionView::ChangeVt(vt),
            Action::Suspend => action@ == ActionView::Suspend,
            Action::PowerOffMonitors => action@ == ActionView::PowerOffMonitors,
            Action::ToggleDebugTint => action@ == ActionView::ToggleDebugTint,
            Action::Spawn(_) => action@ is Spawn,
            Action::Screenshot => action@ == ActionView::Screenshot,
            Action::ScreenshotWindow => action@ == ActionView::ScreenshotWindow,
            Action::CloseWindow => action@ == ActionView::CloseWindow,
            Action::FullscreenWindow => action@ == ActionView::FullscreenWindow,
            Action::MoveColumnLeft => action@ == ActionView::MoveColumnLeft,
            Action::MoveColumnRight => action@ == ActionView::MoveColumnRight,
            Action::MoveWindowDown => action@ == ActionView::MoveWindowDown,
            Action::MoveWindowUp => action@ == ActionView::MoveWindowUp,
            Action::FocusColumnLeft => action@ == ActionView::FocusColumnLeft,
            Action::FocusColumnRight => action@ == ActionView::FocusColumnRight,
            Action::FocusWindowDown => action@ == ActionView::FocusWindowDown,
            Action::FocusWindowUp => action@ == ActionView::FocusWindowUp,
            Action::MoveWindowToWorkspaceDown => action@ == ActionView::MoveWindowToWorkspaceDown,
            Action::MoveWindowToWorkspaceUp => action@ == ActionView::MoveWindowToWorkspaceUp,
            Action::MoveWindowToWorkspace(idx) => action@ == ActionView::MoveWindowToWorkspace(idx),
            Action::FocusWorkspaceDown => action@ == ActionView::FocusWorkspaceDown,
            Action::FocusWorkspaceUp => action@ == ActionView::FocusWorkspaceUp,
            Action::FocusWorkspace(idx) => action@ == ActionView::FocusWorkspace(idx),
            Action::MoveWorkspaceDown => action@ == ActionView::MoveWorkspaceDown,
            Action::MoveWorkspaceUp => action@ == ActionView::MoveWorkspaceUp,
            Action::ConsumeWindowIntoColumn => action@ == ActionView::ConsumeWindowIntoColumn,
            Action::ExpelWindowFromColumn => action@ == ActionView::ExpelWindowFromColumn,
            Action::SwitchPresetColumnWidth => action@ == ActionView::SwitchPresetColumnWidth,
            Action::MaximizeColumn => action@ == ActionView::MaximizeColumn,
            Action::FocusMonitorLeft => action@ == ActionView::FocusMonitorLeft,
            Action::FocusMonitorRight => action@ == ActionView::FocusMonitorRight,
            Action::FocusMonitorDown => action@ == ActionView::FocusMonitorDown,
            Action::FocusMonitorUp => action@ == ActionView::FocusMonitorUp,
            Action::MoveWindowToMonitorLeft => action@ == ActionView::MoveWindowToMonitorLeft,
            Action::MoveWindowToMonitorRight => action@ == ActionView::MoveWindowToMonitorRight,
            Action::MoveWindowToMonitorDown => action@ == ActionView::MoveWindowToMonitorDown,
            Action::MoveWindowToMonitorUp => action@ == ActionView::MoveWindowToMonitorUp,
            Action::SetColumnWidth(change) => action@ == ActionView::SetColumnWidth(change),
        },
{
}

/// The content of a list of effects is that of each effect, in order. Only of a program to run is
/// it another value: that has the characters of the words.
pub proof fn effects_are_kept(effects: Seq<Effect>, i: int)
    requires
        0 <= i < effects.len(),
    ensures
        effects_view(effects).len() == effects.len(),
        effects_view(effects)[i] == effects[i]@,
        match effects[i] {
            Effect::Session(op) => effects_view(effects)[i] == EffectView::Session(op),
            Effect::Spawn { command, args } => effects_view(effects)[i] == EffectView::Spawn {
                command: command@,
                args: words_view(args@),
            },
            Effect::Layout(op) => effects_view(effects)[i] == EffectView::Layout(op),
            Effect::Screen(op) => effects_view(effects)[i] == EffectView::Screen(op),
            Effect::Pointer(op) => effects_view(effects)[i] == EffectView::Pointer(op),
            Effect::Tablet(op) => effects_view(effects)[i] == EffectView::Tablet(op),
        },
{
}

/// An answer is its own content; only of an action it is the content of the action.
pub proof fn answers_are_kept(reply: Reply)
    ensures
        match reply {
            Reply::ModKey(x) => reply@ == ReplyView::ModKey(x),
            Reply::Serial(x) => reply@ == ReplyView::Serial(x),
            Reply::Intercepted(Some(action)) => reply@ == ReplyView::Intercepted(Some(action@)),
            Reply::Intercepted(None) => reply@ == ReplyView::Intercepted(None),
            Reply::Flag(x) => reply@ == ReplyView::Flag(x),
            Reply::Output(x) => reply@ == ReplyView::Output(x),
            Reply::Window(x) => reply@ == ReplyView::Window(x),
            Reply::WindowOnOutput(x) => reply@ == ReplyView::WindowOnOutput(x),
            Reply::Geometry(x) => reply@ == ReplyView::Geometry(x),
            Reply::Surface(x) => reply@ == ReplyView::Surface(x),
            Reply::Tablet(x) => reply@ == ReplyView::Tablet(x),
            Reply::Tool(x) => reply@ == ReplyView::Tool(x),
            Reply::NewTool(x) => reply@ == ReplyView::NewTool(x),
            Reply::Count(x) => reply@ == ReplyView::Count(x),
            Reply::Swiped(x) => reply@ == ReplyView::Swiped(x),
        },
{
}

/// How far an event has come is kept, with the action that it is about.
pub proof fn progress_is_kept(pending: Pending)
    ensures
        match pending {
            Pending::Idle => pending@ == PendingView::Idle,
            Pending::Lock(Some(action)) => pending@ == PendingView::Lock(Some(action@)),
            Pending::Lock(None) => pending@ == PendingView::Lock(None),
            Pending::Waiting(wait) => pending@ == PendingView::Waiting(wait),
        },
{
}

/// What a filter decided is kept, with the action.
pub proof fn verdicts_are_kept(verdict: FilterResult<Action>)
    ensures
        match verdict {
            FilterResult::Forward => verdict@ == FilterResult::<ActionView>::Forward,
            FilterResult::Intercept(action) => verdict@ == FilterResult::Intercept(action@),
        },
{
}

/// All answers to a question have one form.
pub open spec fn same_form(a: ReplyView, b: ReplyView) -> bool {
    match (a, b) {
        (ReplyView::ModKey(_), ReplyView::ModKey(_)) => true,
        (ReplyView::Serial(_), ReplyView::Serial(_)) => true,
        (ReplyView::Intercepted(_), ReplyView::Intercepted(_)) => true,
        (ReplyView::Flag(_), ReplyView::Flag(_)) => true,
        (ReplyView::Output(_), ReplyView::Output(_)) => true,
        (ReplyView::Window(_), ReplyView::Window(_)) => true,
        (ReplyView::WindowOnOutput(_), ReplyView::WindowOnOutput(_)) => true,
        (ReplyView::Geometry(_), ReplyView::Geometry(_)) => true,
        (ReplyView::Surface(_), ReplyView::Surface(_)) => true,
        (ReplyView::Tablet(_), ReplyView::Tablet(_)) => true,
        (ReplyView::Tool(_), ReplyView::Tool(_)) => true,
        (ReplyView::NewTool(_), ReplyView::NewTool(_)) => true,
        (ReplyView::Count(_), ReplyView::Count(_)) => true,
        (ReplyView::Swiped(_), ReplyView::Swiped(_)) => true,
        _ => false,
    }
}

/// The form of the answers to a question is fixed, and nothing else is: with one answer every
/// other one of its form is an answer, and no other.
pub proof fn answers_have_one_form(query: Query, a: ReplyView, b: ReplyView)
    requires
        replies_to(query, a),
    ensures
        replies_to(query, b) <==> same_form(a, b),
{
}

/// An answer of the right form is refused in three situations only: a session that is not locked
/// is to carry out no action, the first output has gone while it was needed, or an output to clip
/// to holds no point or reaches beyond the last coordinate.
pub proof fn three_answers_are_refused(pending: PendingView, reply: ReplyView)
    requires
        open_query(pending) is Some,
        replies_to(open_query(pending)->0, reply),
    ensures
        !acceptable(pending, reply) <==> {
            ||| pending == PendingView::Lock(Some(ActionView::Nothing)) && reply
                == ReplyView::Flag(false)
            ||| pending matches PendingView::Waiting(wait) && wait is MotionFallback && reply
                == ReplyView::Output(None)
            ||| pending matches PendingView::Waiting(wait) && wait is MotionClip && (
            reply matches ReplyView::Geometry(geometry) && (geometry.size.w <= 0
                || geometry.size.h <= 0 || geometry.loc.x + geometry.size.w > 0x7FFF_FFFF
                || geometry.loc.y + geometry.size.h > 0x7FFF_FFFF))
        },
{
}

/// An answer is accepted only while a question is open, and only if it has the form of its
/// answers.
pub proof fn answers_must_fit(pending: PendingView, reply: ReplyView)
    requires
        acceptable(pending, reply),
    ensures
        !(pending is Idle),
        open_query(pending) is Some,
        replies_to(open_query(pending)->0, reply),
{
}

} // verus!
