//! Operator command dispatch: maps each discrete command to the sequence of
//! actions the surrounding application must perform, and maps a selected menu
//! entry back to its command.

use vstd::prelude::*;

use crate::render::{MenuEntry, MenuEntryV};

verus! {

/// Operator intent, generated by control-surface events.
#[derive(Clone, Copy, Debug, PartialEq, Eq, Structural)]
pub enum ControlCommand {
    /// Bring the dashboard window to the foreground.
    Show,
    /// Terminate the whole application.
    Quit,
    /// Ask the backend to reset its internal state, without replacing the
    /// process.
    Reload,
    /// Replace the backend process and reattach the window to it.
    Restart,
    /// The restart spelled out: shut down, then replace the process.
    ShutdownThenRestart,
}

/// One primitive step the surrounding application performs on behalf of a
/// command.
#[derive(Clone, Copy, Debug, PartialEq, Eq, Structural)]
pub enum Action {
    /// Show and focus the dashboard window.
    FocusWindow,
    /// End the application; supervision teardown has already run.
    ExitApp,
    /// Best-effort POST to the backend's reset endpoint; response ignored.
    PostReset,
    /// Best-effort POST to the backend's shutdown endpoint; response ignored.
    PostShutdown,
    /// Wait the fixed grace delay for the backend to exit on its own.
    GraceDelay,
    /// Forcibly terminate and wait for the held process, if any.
    KillBackend,
    /// Spawn a fresh backend process and record it.
    SpawnBackend,
    /// Reload the window content so it reattaches to the new backend.
    ReloadWindow,
}

/// The full restart sequence, in order: best-effort shutdown request, fixed
/// grace delay, forced kill regardless of the request's outcome, then an
/// unconditional fresh spawn, and finally a window reload. The kill and the
/// spawn always run, so no stale process is left holding the ports.
pub open spec fn restart_actions() -> Seq<Action> {
    seq![
        Action::PostShutdown,
        Action::GraceDelay,
        Action::KillBackend,
        Action::SpawnBackend,
        Action::ReloadWindow,
    ]
}

/// What each command translates to. Quit runs the supervisor's kill as part
/// of teardown before the process exits; reload only posts the reset request.
pub open spec fn dispatch_spec(c: ControlCommand) -> Seq<Action> {
    match c {
        ControlCommand::Show => seq![Action::FocusWindow],
        ControlCommand::Quit => seq![Action::KillBackend, Action::ExitApp],
        ControlCommand::Reload => seq![Action::PostReset],
        ControlCommand::Restart => restart_actions(),
        ControlCommand::ShutdownThenRestart => restart_actions(),
    }
}

/// Translates one operator command into its action sequence.
pub fn dispatch(c: ControlCommand) -> (v: Vec<Action>)
    ensures
        v@ == dispatch_spec(c),
{
    let mut v: Vec<Action> = Vec::new();
    match c {
        ControlCommand::Show => {
            v.push(Action::FocusWindow);
            proof {
                assert(v@ =~= dispatch_spec(c));
            }
        },
        ControlCommand::Quit => {
            v.push(Action::KillBackend);
            v.push(Action::ExitApp);
            proof {
                assert(v@ =~= dispatch_spec(c));
            }
        },
        ControlCommand::Reload => {
            v.push(Action::PostReset);
            proof {
                assert(v@ =~= dispatch_spec(c));
            }
        },
        ControlCommand::Restart | ControlCommand::ShutdownThenRestart => {
            v.push(Action::PostShutdown);
            v.push(Action::GraceDelay);
            v.push(Action::KillBackend);
            v.push(Action::SpawnBackend);
            v.push(Action::ReloadWindow);
            proof {
                assert(v@ =~= dispatch_spec(c));
            }
        },
    }
    v
}

/// The command a selected menu entry stands for. Only the action entries are
/// actionable; headers, separators and tool lines dispatch nothing.
pub open spec fn entry_command_spec(e: MenuEntryV) -> Option<ControlCommand> {
    match e {
        MenuEntryV::RestartAction => Some(ControlCommand::Restart),
        MenuEntryV::ShowAction => Some(ControlCommand::Show),
        MenuEntryV::QuitAction => Some(ControlCommand::Quit),
        _ => None,
    }
}

/// Maps a selected menu entry to its command.
pub fn entry_command(e: &MenuEntry) -> (r: Option<ControlCommand>)
    ensures
        r == entry_command_spec(e@),
{
    match e {
        MenuEntry::RestartAction => Some(ControlCommand::Restart),
        MenuEntry::ShowAction => Some(ControlCommand::Show),
        MenuEntry::QuitAction => Some(ControlCommand::Quit),
        _ => None,
    }
}

} // verus!
