//! What each action is for.

use vstd::prelude::*;

use crate::act::performed;
use crate::config::{ActionView, SizeChange};
use crate::effect::{Direction, EffectView, LayoutOp, OutputId, ScreenOp, SessionOp, WindowId};
use crate::script::{action_effects, run, World};

verus! {

/// All effects of carrying an action out, followed from answer to answer.
pub open spec fn carried_out(action: ActionView, world: World) -> Seq<EffectView> {
    performed(action).effects + run(performed(action).next, world)
}

/// Carrying an action out, up to its end, has the effects that the script gives it.
#[verifier::spinoff_prover]
#[verifier::rlimit(40)]
pub proof fn carrying_out_follows_script(world: World)
    ensures
        forall|action: ActionView| #[trigger]
            carried_out(action, world) == action_effects(action, world),
{
    reveal_with_fuel(run, 3);
    assert forall|action: ActionView| #[trigger]
        carried_out(action, world) == action_effects(action, world) by {
        assert(carried_out(action, world) =~= action_effects(action, world));
    }
}

/// Actions on the session have one effect, the one that they are named after.
pub proof fn session_actions(world: World, vt: i32)
    ensures
        carried_out(ActionView::Quit, world) == seq![EffectView::Session(SessionOp::Stop)],
        carried_out(ActionView::ChangeVt(vt), world) == seq![
            EffectView::Session(SessionOp::ChangeVt(vt)),
        ],
        carried_out(ActionView::Suspend, world) == seq![
            EffectView::Session(SessionOp::Suspend),
        ],
        carried_out(ActionView::PowerOffMonitors, world) == seq![
            EffectView::Session(SessionOp::DeactivateMonitors),
        ],
        carried_out(ActionView::ToggleDebugTint, world) == seq![
            EffectView::Session(SessionOp::ToggleDebugTint),
        ],
        carried_out(ActionView::Nothing, world).len() == 0,
{
    carrying_out_follows_script(world);
}

/// The first word of a command line is the program, the others are its arguments, in order and
/// unchanged. Without a word nothing is run.
pub proof fn spawned_words(words: Seq<Seq<char>>, world: World)
    ensures
        words.len() == 0 ==> carried_out(ActionView::Spawn(words), world).len() == 0,
        words.len() > 0 ==> {
            let effects = carried_out(ActionView::Spawn(words), world);
            &&& effects.len() == 1
            &&& effects[0] matches EffectView::Spawn { command, args } && seq![command] + args
                == words
        },
{
    carrying_out_follows_script(world);
    if words.len() > 0 {
        let effects = carried_out(ActionView::Spawn(words), world);
        assert(seq![words[0]] + words.skip(1) =~= words);
        assert(effects[0] == EffectView::Spawn { command: words[0], args: words.skip(1) });
    }
}

/// The layout is told this, and then everything is drawn anew.
pub open spec fn moves(action: ActionView, op: LayoutOp, world: World) -> bool {
    carried_out(action, world) =~= seq![
        EffectView::Layout(op),
        EffectView::Screen(ScreenOp::QueueRedrawAll),
    ]
}

/// The layout is told this, and nothing else happens.
pub open spec fn tells_layout(action: ActionView, op: LayoutOp, world: World) -> bool {
    carried_out(action, world) =~= seq![EffectView::Layout(op)]
}

/// Actions that move a window or a column, or take one in or out of a column, move it in their
/// own direction; then everything is drawn anew.
pub proof fn moving_actions(world: World)
    ensures
        moves(ActionView::MoveColumnLeft, LayoutOp::MoveLeft, world),
        moves(ActionView::MoveColumnRight, LayoutOp::MoveRight, world),
        moves(ActionView::MoveWindowDown, LayoutOp::MoveDown, world),
        moves(ActionView::MoveWindowUp, LayoutOp::MoveUp, world),
        moves(ActionView::ConsumeWindowIntoColumn, LayoutOp::ConsumeIntoColumn, world),
        moves(ActionView::ExpelWindowFromColumn, LayoutOp::ExpelFromColumn, world),
{
    carrying_out_follows_script(world);
}

/// Actions on workspaces go up, go down, or go to the workspace that they name; then everything
/// is drawn anew.
pub proof fn workspace_actions(world: World, idx: u8)
    ensures
        moves(ActionView::MoveWindowToWorkspaceDown, LayoutOp::MoveToWorkspaceDown, world),
        moves(ActionView::MoveWindowToWorkspaceUp, LayoutOp::MoveToWorkspaceUp, world),
        moves(ActionView::MoveWindowToWorkspace(idx), LayoutOp::MoveToWorkspace(idx), world),
        moves(ActionView::FocusWorkspaceDown, LayoutOp::SwitchWorkspaceDown, world),
        moves(ActionView::FocusWorkspaceUp, LayoutOp::SwitchWorkspaceUp, world),
        moves(ActionView::FocusWorkspace(idx), LayoutOp::SwitchWorkspace(idx), world),
        moves(ActionView::MoveWorkspaceDown, LayoutOp::MoveWorkspaceDown, world),
        moves(ActionView::MoveWorkspaceUp, LayoutOp::MoveWorkspaceUp, world),
{
    carrying_out_follows_script(world);
}

/// Actions that move the focus move it in their own direction, and nothing else happens.
pub proof fn focusing_actions(world: World)
    ensures
        tells_layout(ActionView::FocusColumnLeft, LayoutOp::FocusLeft, world),
        tells_layout(ActionView::FocusColumnRight, LayoutOp::FocusRight, world),
        tells_layout(ActionView::FocusWindowDown, LayoutOp::FocusDown, world),
        tells_layout(ActionView::FocusWindowUp, LayoutOp::FocusUp, world),
{
    carrying_out_follows_script(world);
}

/// The width of a column is switched, maximized, or changed by exactly the change that the action
/// names.
pub proof fn width_actions(change: SizeChange, world: World)
    ensures
        tells_layout(ActionView::SwitchPresetColumnWidth, LayoutOp::ToggleWidth, world),
        tells_layout(ActionView::MaximizeColumn, LayoutOp::ToggleFullWidth, world),
        tells_layout(
            ActionView::SetColumnWidth(change),
            LayoutOp::SetColumnWidth(change),
            world,
        ),
{
    carrying_out_follows_script(world);
}

/// Two changes of a column's width that have the same effects are the same change, whether they
/// set the width or adjust it.
pub proof fn width_changes_are_told_apart(a: SizeChange, b: SizeChange, world: World)
    requires
        carried_out(ActionView::SetColumnWidth(a), world) == carried_out(
            ActionView::SetColumnWidth(b),
            world,
        ),
    ensures
        a == b,
{
    carrying_out_follows_script(world);
    width_actions(a, world);
    width_actions(b, world);
    assert(carried_out(ActionView::SetColumnWidth(a), world)[0] == EffectView::Layout(
        LayoutOp::SetColumnWidth(a),
    ));
    assert(carried_out(ActionView::SetColumnWidth(b), world)[0] == EffectView::Layout(
        LayoutOp::SetColumnWidth(b),
    ));
}

/// Two actions on workspaces that have the same effects go to the same one.
pub proof fn workspaces_are_told_apart(a: u8, b: u8, world: World)
    requires
        carried_out(ActionView::FocusWorkspace(a), world) == carried_out(
            ActionView::FocusWorkspace(b),
            world,
        ) || carried_out(ActionView::MoveWindowToWorkspace(a), world) == carried_out(
            ActionView::MoveWindowToWorkspace(b),
            world,
        ),
    ensures
        a == b,
{
    carrying_out_follows_script(world);
    workspace_actions(world, a);
    workspace_actions(world, b);
    assert(carried_out(ActionView::FocusWorkspace(a), world)[0] == EffectView::Layout(
        LayoutOp::SwitchWorkspace(a),
    ));
    assert(carried_out(ActionView::FocusWorkspace(b), world)[0] == EffectView::Layout(
        LayoutOp::SwitchWorkspace(b),
    ));
    assert(carried_out(ActionView::MoveWindowToWorkspace(a), world)[0] == EffectView::Layout(
        LayoutOp::MoveToWorkspace(a),
    ));
    assert(carried_out(ActionView::MoveWindowToWorkspace(b), world)[0] == EffectView::Layout(
        LayoutOp::MoveToWorkspace(b),
    ));
}

/// Closing and fullscreen concern the window that has the focus, if one has it.
pub proof fn window_actions(world: World, window: WindowId)
    ensures
        world.focused_window == Some(window) ==> carried_out(ActionView::CloseWindow, world)
            == seq![EffectView::Screen(ScreenOp::SendClose(window))],
        world.focused_window == Some(window) ==> carried_out(
            ActionView::FullscreenWindow,
            world,
        ) == seq![EffectView::Layout(LayoutOp::ToggleFullscreen(window))],
        world.focused_window is None ==> carried_out(ActionView::CloseWindow, world).len() == 0,
        world.focused_window is None ==> carried_out(
            ActionView::FullscreenWindow,
            world,
        ).len() == 0,
{
    carrying_out_follows_script(world);
}

/// A screenshot is taken of the active output, or of the active window on its output, where there
/// are that and a renderer.
pub proof fn screenshot_actions(world: World, window: WindowId, output: OutputId)
    ensures
        world.has_renderer && world.active_output == Some(output) ==> carried_out(
            ActionView::Screenshot,
            world,
        ) == seq![EffectView::Screen(ScreenOp::Screenshot(output))],
        !world.has_renderer || world.active_output is None ==> carried_out(
            ActionView::Screenshot,
            world,
        ).len() == 0,
        world.has_renderer && world.active_window == Some((window, output)) ==> carried_out(
            ActionView::ScreenshotWindow,
            world,
        ) == seq![EffectView::Screen(ScreenOp::ScreenshotWindow { window, output })],
        !world.has_renderer || world.active_window is None ==> carried_out(
            ActionView::ScreenshotWindow,
            world,
        ).len() == 0,
{
    carrying_out_follows_script(world);
}

/// The output is focused, and the cursor goes there.
pub open spec fn focuses(action: ActionView, output: OutputId, world: World) -> bool {
    carried_out(action, world) =~= seq![
        EffectView::Layout(LayoutOp::FocusOutput(output)),
        EffectView::Screen(ScreenOp::MoveCursorToOutput(output)),
    ]
}

/// The window is moved to the output, and the cursor goes there.
pub open spec fn moves_to(action: ActionView, output: OutputId, world: World) -> bool {
    carried_out(action, world) =~= seq![
        EffectView::Layout(LayoutOp::MoveToOutput(output)),
        EffectView::Screen(ScreenOp::MoveCursorToOutput(output)),
    ]
}

/// Actions on monitors concern the monitor in their own direction, if there is one, and take the
/// cursor along.
pub proof fn monitor_actions(world: World, output: OutputId)
    ensures
        (world.output_toward)(Direction::Left) == Some(output) ==> focuses(
            ActionView::FocusMonitorLeft,
            output,
            world,
        ) && moves_to(ActionView::MoveWindowToMonitorLeft, output, world),
        (world.output_toward)(Direction::Right) == Some(output) ==> focuses(
            ActionView::FocusMonitorRight,
            output,
            world,
        ) && moves_to(ActionView::MoveWindowToMonitorRight, output, world),
        (world.output_toward)(Direction::Down) == Some(output) ==> focuses(
            ActionView::FocusMonitorDown,
            output,
            world,
        ) && moves_to(ActionView::MoveWindowToMonitorDown, output, world),
        (world.output_toward)(Direction::Up) == Some(output) ==> focuses(
            ActionView::FocusMonitorUp,
            output,
            world,
        ) && moves_to(ActionView::MoveWindowToMonitorUp, output, world),
{
    carrying_out_follows_script(world);
}

/// Without a monitor in their direction, actions on monitors do nothing.
pub proof fn monitor_actions_without_monitor(world: World)
    ensures
        (world.output_toward)(Direction::Left) is None ==> carried_out(
            ActionView::FocusMonitorLeft,
            world,
        ).len() + carried_out(ActionView::MoveWindowToMonitorLeft, world).len() == 0,
        (world.output_toward)(Direction::Right) is None ==> carried_out(
            ActionView::FocusMonitorRight,
            world,
        ).len() + carried_out(ActionView::MoveWindowToMonitorRight, world).len() == 0,
        (world.output_toward)(Direction::Down) is None ==> carried_out(
            ActionView::FocusMonitorDown,
            world,
        ).len() + carried_out(ActionView::MoveWindowToMonitorDown, world).len() == 0,
        (world.output_toward)(Direction::Up) is None ==> carried_out(
            ActionView::FocusMonitorUp,
            world,
        ).len() + carried_out(ActionView::MoveWindowToMonitorUp, world).len() == 0,
{
    carrying_out_follows_script(world);
}

} // verus!
