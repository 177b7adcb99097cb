//! Carrying out the action of a key.

use vstd::prelude::*;

use crate::config::{words_view, Action, ActionView};
use crate::effect::{
    action_view, Direction, Effect, EffectView, LayoutOp, OutputId, ScreenOp, SessionOp, WindowId,
};
use crate::step::{
    both, done, emit, finish, just_wait, no_effects, only, push_if, waits, Step, StepView, Wait,
};

verus! {

/// The actions that a locked session still carries out.
pub open spec fn allowed_when_locked(action: ActionView) -> bool {
    action is Quit || action is ChangeVt || action is Suspend || action is PowerOffMonitors
}

/// The action that is left of one when it is known whether the session is locked.
pub open spec fn permitted(action: Option<ActionView>, locked: bool) -> Option<ActionView> {
    match action {
        Some(a) => if locked && !allowed_when_locked(a) {
            None
        } else {
            Some(a)
        },
        None => None,
    }
}

/// Filters actions when the session is locked.
pub fn filter_locked(action: Option<Action>, locked: bool) -> (res: Option<Action>)
    ensures
        action_view(res) == permitted(action_view(action), locked),
{
    if locked {
        match action {
            Some(Action::Quit) => Some(Action::Quit),
            Some(Action::ChangeVt(vt)) => Some(Action::ChangeVt(vt)),
            Some(Action::Suspend) => Some(Action::Suspend),
            Some(Action::PowerOffMonitors) => Some(Action::PowerOffMonitors),
            _ => None,
        }
    } else {
        action
    }
}

/// The effect on the session that an action is, if it is one.
pub open spec fn session_op(action: ActionView) -> Option<SessionOp> {
    match action {
        ActionView::Quit => Some(SessionOp::Stop),
        ActionView::ChangeVt(vt) => Some(SessionOp::ChangeVt(vt)),
        ActionView::Suspend => Some(SessionOp::Suspend),
        ActionView::PowerOffMonitors => Some(SessionOp::DeactivateMonitors),
        ActionView::ToggleDebugTint => Some(SessionOp::ToggleDebugTint),
        _ => None,
    }
}

/// The effect on the layout that an action is, if it is one.
pub open spec fn layout_op(action: ActionView) -> Option<LayoutOp> {
    match action {
        ActionView::MoveColumnLeft => Some(LayoutOp::MoveLeft),
        ActionView::MoveColumnRight => Some(LayoutOp::MoveRight),
        ActionView::MoveWindowDown => Some(LayoutOp::MoveDown),
        ActionView::MoveWindowUp => Some(LayoutOp::MoveUp),
        ActionView::FocusColumnLeft => Some(LayoutOp::FocusLeft),
        ActionView::FocusColumnRight => Some(LayoutOp::FocusRight),
        ActionView::FocusWindowDown => Some(LayoutOp::FocusDown),
        ActionView::FocusWindowUp => Some(LayoutOp::FocusUp),
        ActionView::MoveWindowToWorkspaceDown => Some(LayoutOp::MoveToWorkspaceDown),
        ActionView::MoveWindowToWorkspaceUp => Some(LayoutOp::MoveToWorkspaceUp),
        ActionView::MoveWindowToWorkspace(idx) => Some(LayoutOp::MoveToWorkspace(idx)),
        ActionView::FocusWorkspaceDown => Some(LayoutOp::SwitchWorkspaceDown),
        ActionView::FocusWorkspaceUp => Some(LayoutOp::SwitchWorkspaceUp),
        ActionView::FocusWorkspace(idx) => Some(LayoutOp::SwitchWorkspace(idx)),
        ActionView::MoveWorkspaceDown => Some(LayoutOp::MoveWorkspaceDown),
        ActionView::MoveWorkspaceUp => Some(LayoutOp::MoveWorkspaceUp),
        ActionView::ConsumeWindowIntoColumn => Some(LayoutOp::ConsumeIntoColumn),
        ActionView::ExpelWindowFromColumn => Some(LayoutOp::ExpelFromColumn),
        ActionView::SwitchPresetColumnWidth => Some(LayoutOp::ToggleWidth),
        ActionView::MaximizeColumn => Some(LayoutOp::ToggleFullWidth),
        ActionView::SetColumnWidth(change) => Some(LayoutOp::SetColumnWidth(change)),
        _ => None,
    }
}

/// The actions after which everything is drawn anew: those that move windows or workspaces.
pub open spec fn redraws(action: ActionView) -> bool {
    match action {
        ActionView::MoveColumnLeft | ActionView::MoveColumnRight | ActionView::MoveWindowDown
        | ActionView::MoveWindowUp | ActionView::MoveWindowToWorkspaceDown
        | ActionView::MoveWindowToWorkspaceUp | ActionView::MoveWindowToWorkspace(_)
        | ActionView::FocusWorkspaceDown | ActionView::FocusWorkspaceUp
        | ActionView::FocusWorkspace(_) | ActionView::MoveWorkspaceDown
        | ActionView::MoveWorkspaceUp | ActionView::ConsumeWindowIntoColumn
        | ActionView::ExpelWindowFromColumn => true,
        _ => false,
    }
}

/// The point at which an action waits for what it is to act on, if it must be found out.
pub open spec fn action_target(action: ActionView) -> Option<Wait> {
    match action {
        ActionView::Screenshot => Some(Wait::ScreenshotOutput),
        ActionView::ScreenshotWindow => Some(Wait::ScreenshotWindow),
        ActionView::CloseWindow => Some(Wait::CloseWindow),
        ActionView::FullscreenWindow => Some(Wait::FullscreenWindow),
        ActionView::FocusMonitorLeft => Some(Wait::FocusMonitor(Direction::Left)),
        ActionView::FocusMonitorRight => Some(Wait::FocusMonitor(Direction::Right)),
        ActionView::FocusMonitorDown => Some(Wait::FocusMonitor(Direction::Down)),
        ActionView::FocusMonitorUp => Some(Wait::FocusMonitor(Direction::Up)),
        ActionView::MoveWindowToMonitorLeft => Some(Wait::MoveWindowToMonitor(Direction::Left)),
        ActionView::MoveWindowToMonitorRight => Some(Wait::MoveWindowToMonitor(Direction::Right)),
        ActionView::MoveWindowToMonitorDown => Some(Wait::MoveWindowToMonitor(Direction::Down)),
        ActionView::MoveWindowToMonitorUp => Some(Wait::MoveWindowToMonitor(Direction::Up)),
        _ => None,
    }
}

/// Running a command line: its first word is the program. An empty one does nothing.
pub open spec fn spawned(words: Seq<Seq<char>>) -> Seq<EffectView> {
    if words.len() > 0 {
        seq![EffectView::Spawn { command: words[0], args: words.skip(1) }]
    } else {
        seq![]
    }
}

/// The effects of an action that need not find anything out.
pub open spec fn direct_effects(action: ActionView) -> Seq<EffectView> {
    match (session_op(action), layout_op(action), action) {
        (Some(op), _, _) => seq![EffectView::Session(op)],
        (_, Some(op), _) => push_if(
            seq![EffectView::Layout(op)],
            redraws(action),
            EffectView::Screen(ScreenOp::QueueRedrawAll),
        ),
        (_, _, ActionView::Spawn(words)) => spawned(words),
        _ => seq![],
    }
}

/// Carrying out an action.
pub open spec fn performed(action: ActionView) -> StepView {
    match action_target(action) {
        Some(wait) => waits(seq![], wait),
        None => done(direct_effects(action)),
    }
}

fn session(op: SessionOp) -> (res: Step)
    ensures
        res@ == done(seq![EffectView::Session(op)]),
{
    finish(only(Effect::Session(op)))
}

fn layout(op: LayoutOp) -> (res: Step)
    ensures
        res@ == done(seq![EffectView::Layout(op)]),
{
    finish(only(Effect::Layout(op)))
}

fn layout_and_redraw(op: LayoutOp) -> (res: Step)
    ensures
        res@ == done(
            seq![EffectView::Layout(op), EffectView::Screen(ScreenOp::QueueRedrawAll)],
        ),
{
    // Not every output needs this, but which ones do is not known here.
    finish(both(Effect::Layout(op), Effect::Screen(ScreenOp::QueueRedrawAll)))
}

fn spawn(words: Vec<String>) -> (res: Step)
    ensures
        res@ == done(spawned(words_view(words@))),
{
    if words.len() == 0 {
        return finish(no_effects());
    }
    let mut command = words;
    let args = command.split_off(1);
    let program = command[0].clone();
    assert(words_view(args@) =~= words_view(words@).skip(1));
    finish(only(Effect::Spawn { command: program, args }))
}

/// Carries out an action, up to what must be found out for it.
pub fn perform(action: Action) -> (res: Step)
    requires
        !(action is Nothing),
    ensures
        res@ == performed(action@),
{
    match action {
        Action::Nothing => finish(no_effects()),
        Action::Quit => session(SessionOp::Stop),
        Action::ChangeVt(vt) => session(SessionOp::ChangeVt(vt)),
        Action::Suspend => session(SessionOp::Suspend),
        Action::PowerOffMonitors => session(SessionOp::DeactivateMonitors),
        Action::ToggleDebugTint => session(SessionOp::ToggleDebugTint),
        Action::Spawn(words) => spawn(words),
        Action::Screenshot => just_wait(Wait::ScreenshotOutput),
        Action::ScreenshotWindow => just_wait(Wait::ScreenshotWindow),
        Action::CloseWindow => just_wait(Wait::CloseWindow),
        Action::FullscreenWindow => just_wait(Wait::FullscreenWindow),
        Action::MoveColumnLeft => layout_and_redraw(LayoutOp::MoveLeft),
        Action::MoveColumnRight => layout_and_redraw(LayoutOp::MoveRight),
        Action::MoveWindowDown => layout_and_redraw(LayoutOp::MoveDown),
        Action::MoveWindowUp => layout_and_redraw(LayoutOp::MoveUp),
        Action::FocusColumnLeft => layout(LayoutOp::FocusLeft),
        Action::FocusColumnRight => layout(LayoutOp::FocusRight),
        Action::FocusWindowDown => layout(LayoutOp::FocusDown),
        Action::FocusWindowUp => layout(LayoutOp::FocusUp),
        Action::MoveWindowToWorkspaceDown => layout_and_redraw(LayoutOp::MoveToWorkspaceDown),
        Action::MoveWindowToWorkspaceUp => layout_and_redraw(LayoutOp::MoveToWorkspaceUp),
        Action::MoveWindowToWorkspace(idx) => layout_and_redraw(LayoutOp::MoveToWorkspace(idx)),
        Action::FocusWorkspaceDown => layout_and_redraw(LayoutOp::SwitchWorkspaceDown),
        Action::FocusWorkspaceUp => layout_and_redraw(LayoutOp::SwitchWorkspaceUp),
        Action::FocusWorkspace(idx) => layout_and_redraw(LayoutOp::SwitchWorkspace(idx)),
        Action::MoveWorkspaceDown => layout_and_redraw(LayoutOp::MoveWorkspaceDown),
        Action::MoveWorkspaceUp => layout_and_redraw(LayoutOp::MoveWorkspaceUp),
        Action::ConsumeWindowIntoColumn => layout_and_redraw(LayoutOp::ConsumeIntoColumn),
        Action::ExpelWindowFromColumn => layout_and_redraw(LayoutOp::ExpelFromColumn),
        Action::SwitchPresetColumnWidth => layout(LayoutOp::ToggleWidth),
        Action::MaximizeColumn => layout(LayoutOp::ToggleFullWidth),
        Action::FocusMonitorLeft => just_wait(Wait::FocusMonitor(Direction::Left)),
        Action::FocusMonitorRight => just_wait(Wait::FocusMonitor(Direction::Right)),
        Action::FocusMonitorDown => just_wait(Wait::FocusMonitor(Direction::Down)),
        Action::FocusMonitorUp => just_wait(Wait::FocusMonitor(Direction::Up)),
        Action::MoveWindowToMonitorLeft => just_wait(Wait::MoveWindowToMonitor(Direction::Left)),
        Action::MoveWindowToMonitorRight => just_wait(Wait::MoveWindowToMonitor(Direction::Right)),
        Action::MoveWindowToMonitorDown => just_wait(Wait::MoveWindowToMonitor(Direction::Down)),
        Action::MoveWindowToMonitorUp => just_wait(Wait::MoveWindowToMonitor(Direction::Up)),
        Action::SetColumnWidth(change) => layout(LayoutOp::SetColumnWidth(change)),
    }
}

/// Carrying out what is left of an action when it is known whether the session is locked.
pub open spec fn after_lock(action: Option<ActionView>, locked: bool) -> StepView {
    match permitted(action, locked) {
        Some(action) => performed(action),
        None => done(seq![]),
    }
}

pub(crate) fn go_after_lock(action: Option<Action>, locked: bool) -> (res: Step)
    requires
        locked || action_view(action) != Some(ActionView::Nothing),
    ensures
        res@ == after_lock(action_view(action), locked),
{
    match filter_locked(action, locked) {
        Some(action) => perform(action),
        None => finish(no_effects()),
    }
}

/// The effects of `f` on what was found, none if nothing was.
pub open spec fn on_found<T>(
    found: Option<T>,
    f: spec_fn(T) -> Seq<EffectView>,
) -> Seq<EffectView> {
    match found {
        Some(target) => f(target),
        None => seq![],
    }
}

/// Focusing a monitor.
pub open spec fn monitor_focused(output: OutputId) -> Seq<EffectView> {
    seq![
        EffectView::Layout(LayoutOp::FocusOutput(output)),
        EffectView::Screen(ScreenOp::MoveCursorToOutput(output)),
    ]
}

/// Moving a window to a monitor.
pub open spec fn moved_to_monitor(output: OutputId) -> Seq<EffectView> {
    seq![
        EffectView::Layout(LayoutOp::MoveToOutput(output)),
        EffectView::Screen(ScreenOp::MoveCursorToOutput(output)),
    ]
}

/// Going on with a screenshot when the active output is known.
pub open spec fn after_screenshot_output(output: Option<OutputId>) -> StepView {
    match output {
        Some(output) => waits(seq![], Wait::ScreenshotRenderer { output }),
        None => done(seq![]),
    }
}

/// Going on with a screenshot of a window when the active one is known.
pub open spec fn after_screenshot_window(active: Option<(WindowId, OutputId)>) -> StepView {
    match active {
        Some((window, output)) => waits(seq![], Wait::ScreenshotWindowRenderer { window, output }),
        None => done(seq![]),
    }
}

pub(crate) fn go_after_screenshot_output(output: Option<OutputId>) -> (res: Step)
    ensures
        res@ == after_screenshot_output(output),
{
    match output {
        Some(output) => just_wait(Wait::ScreenshotRenderer { output }),
        None => finish(no_effects()),
    }
}

pub(crate) fn go_after_screenshot_window(active: Option<(WindowId, OutputId)>) -> (res: Step)
    ensures
        res@ == after_screenshot_window(active),
{
    match active {
        Some((window, output)) => just_wait(Wait::ScreenshotWindowRenderer { window, output }),
        None => finish(no_effects()),
    }
}

/// A single effect on the screen, if there is a reason for it.
pub(crate) fn screen_if(reason: bool, op: ScreenOp) -> (res: Step)
    ensures
        res@ == done(push_if(seq![], reason, EffectView::Screen(op))),
{
    let mut effects = no_effects();
    if reason {
        emit(&mut effects, Effect::Screen(op));
    }
    finish(effects)
}

pub(crate) fn go_close(window: Option<WindowId>) -> (res: Step)
    ensures
        res@ == done(
            on_found(window, |w: WindowId| seq![EffectView::Screen(ScreenOp::SendClose(w))]),
        ),
{
    match window {
        Some(window) => finish(only(Effect::Screen(ScreenOp::SendClose(window)))),
        None => finish(no_effects()),
    }
}

pub(crate) fn go_fullscreen(window: Option<WindowId>) -> (res: Step)
    ensures
        res@ == done(
            on_found(window, |w: WindowId| seq![EffectView::Layout(LayoutOp::ToggleFullscreen(w))]),
        ),
{
    match window {
        Some(window) => finish(only(Effect::Layout(LayoutOp::ToggleFullscreen(window)))),
        None => finish(no_effects()),
    }
}

pub(crate) fn go_focus_monitor(output: Option<OutputId>) -> (res: Step)
    ensures
        res@ == done(on_found(output, |o: OutputId| monitor_focused(o))),
{
    match output {
        Some(output) => finish(
            both(
                Effect::Layout(LayoutOp::FocusOutput(output)),
                Effect::Screen(ScreenOp::MoveCursorToOutput(output)),
            ),
        ),
        None => finish(no_effects()),
    }
}

pub(crate) fn go_move_to_monitor(output: Option<OutputId>) -> (res: Step)
    ensures
        res@ == done(on_found(output, |o: OutputId| moved_to_monitor(o))),
{
    match output {
        Some(output) => finish(
            both(
                Effect::Layout(LayoutOp::MoveToOutput(output)),
                Effect::Screen(ScreenOp::MoveCursorToOutput(output)),
            ),
        ),
        None => finish(no_effects()),
    }
}

} // verus!
