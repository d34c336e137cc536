//! What a `kvx` command line asks the rest of the program to do.

use crate::cli::settings::Channel;
use crate::cli::steps::Step;
use vstd::prelude::*;

verus! {

/// Groups of commands that are run elsewhere in the program.
#[derive(Debug, Clone, Copy, PartialEq, Eq, Structural)]
pub enum Namespace {
    Server,
    Api,
    Status,
    Completion,
    Workspace,
    Worktree,
    Tab,
    Notification,
    Agent,
    Pane,
    Plugin,
    Integration,
}

/// The session of a terminal to watch or to drive.
#[derive(Debug, PartialEq, Eq)]
pub struct TerminalSessionOptions {
    pub target: String,
    pub cols: u16,
    pub rows: u16,
    pub takeover: bool,
}

/// Work for the rest of the program.
#[allow(inconsistent_fields)]
#[derive(Debug, PartialEq, Eq)]
pub enum Task {
    /// A command of another group, with its arguments.
    Elsewhere { namespace: Namespace, args: Vec<String> },
    Workflow(Step),
    ChannelShow,
    ChannelSet(Channel),
    ConfigCheck,
    ConfigResetKeys,
    TerminalAttach { terminal_id: String, takeover: bool },
    TerminalControl(TerminalSessionOptions),
    TerminalObserve(TerminalSessionOptions),
    TitleSet(String),
    TitleClear,
    SessionList { json: bool },
    SessionStop { name: String, json: bool },
    SessionDelete { name: String, json: bool },
}

/// What a command comes to.
#[derive(Debug, PartialEq, Eq)]
pub enum Turn {
    Exit(i32),
    Do(Task),
    /// The command fails with this message.
    Fail(String),
}

} // verus!
