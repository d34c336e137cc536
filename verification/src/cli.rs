//! The `kvx` command line.

pub mod connect;
pub mod definition;
pub mod node_args;
pub mod other_args;
pub mod plans;
pub mod render;
pub mod render_lines;
pub mod run_args;
pub mod sessions;
pub mod settings;
pub mod steps;
pub mod tasks;
pub mod tmux;
pub mod tmux_run;
pub mod values;
pub mod verbs;
pub mod workflow;

use crate::cli::plans::WorkflowEnv;
use crate::cli::sessions::{
    run_session_command, run_terminal_command, session_turn, terminal_turn,
};
use crate::cli::settings::{channel_turn, config_turn, run_channel_command, run_config_command};
use crate::cli::steps::Step;
use crate::cli::tasks::{Namespace, Task, Turn};
use crate::cli::workflow::{run_workflow_command, workflow_started};
use crate::console::Console;
use crate::text::{opt_str, str_eq, tail_strings, texts};
use vstd::prelude::*;

verus! {

broadcast use crate::text::group_texts;

/// What became of an invocation.
#[derive(Debug, Clone, Copy, PartialEq, Eq, Structural)]
pub enum CommandOutcome {
    /// A command was run, and this is its exit code.
    Handled(i32),
    /// It names no command.
    NotCli,
}

/// The commands that print and exit.
pub open spec fn prints_and_exits(command: Seq<char>) -> bool {
    ||| command == "api"@
    ||| command == "status"@
    ||| command == "completion"@
    ||| command == "completions"@
    ||| command == "config"@
    ||| command == "channel"@
    ||| command == "workspace"@
    ||| command == "worktree"@
    ||| command == "tab"@
    ||| command == "notification"@
    ||| command == "agent"@
    ||| command == "terminal"@
    ||| command == "pane"@
    ||| command == "plugin"@
    ||| command == "integration"@
    ||| command == "session"@
    ||| command == "workflow"@
}

/// The flags that print and exit, where they are the whole invocation.
pub open spec fn is_printing_flag(flag: Seq<char>) -> bool {
    ||| flag == "--help"@
    ||| flag == "-h"@
    ||| flag == "--version"@
    ||| flag == "-V"@
    ||| flag == "--default-config"@
    ||| flag == "--skill"@
}

/// The commands that take the terminal over.
pub open spec fn takes_terminal(command: Seq<char>, subcommand: Seq<char>) -> bool {
    ||| command == "agent"@ && subcommand == "attach"@
    ||| command == "terminal"@ && (subcommand == "attach"@ || subcommand == "session"@)
}

/// Whether an invocation only prints and exits, and may die of a closed pipe.
pub open spec fn dies_of_closed_pipe(command: Seq<char>, subcommand: Option<Seq<char>>) -> bool {
    match subcommand {
        None => is_printing_flag(command) || prints_and_exits(command),
        Some(sub) => prints_and_exits(command) && !takes_terminal(command, sub),
    }
}

pub fn restores_default_sigpipe(command: &str, subcommand: Option<&str>) -> (r: bool)
    ensures
        r == dies_of_closed_pipe(command@, opt_str(subcommand)),
{
    let flag = str_eq(command, "--help") || str_eq(command, "-h") || str_eq(command, "--version")
        || str_eq(command, "-V") || str_eq(command, "--default-config") || str_eq(
        command,
        "--skill",
    );
    let prints = str_eq(command, "api") || str_eq(command, "status") || str_eq(
        command,
        "completion",
    ) || str_eq(command, "completions") || str_eq(command, "config") || str_eq(command, "channel")
        || str_eq(command, "workspace") || str_eq(command, "worktree") || str_eq(command, "tab")
        || str_eq(command, "notification") || str_eq(command, "agent") || str_eq(
        command,
        "terminal",
    ) || str_eq(command, "pane") || str_eq(command, "plugin") || str_eq(command, "integration")
        || str_eq(command, "session") || str_eq(command, "workflow");
    match subcommand {
        None => flag || prints,
        Some(sub) => prints && !(str_eq(command, "agent") && str_eq(sub, "attach")) && !(str_eq(
            command,
            "terminal",
        ) && (str_eq(sub, "attach") || str_eq(sub, "session"))),
    }
}

/// What a closed pipe kills never owns the terminal.
pub proof fn law_a_closed_pipe_never_kills_an_attach(command: Seq<char>, subcommand: Seq<char>)
    ensures
        takes_terminal(command, subcommand) ==> !dies_of_closed_pipe(command, Some(subcommand)),
        dies_of_closed_pipe(command, Some(subcommand)) ==> prints_and_exits(command),
{
}

/// The group of commands that is run elsewhere under this name.
pub open spec fn namespace_of(command: Seq<char>) -> Option<Namespace> {
    if command == "server"@ {
        Some(Namespace::Server)
    } else if command == "api"@ {
        Some(Namespace::Api)
    } else if command == "status"@ {
        Some(Namespace::Status)
    } else if command == "completion"@ || command == "completions"@ {
        Some(Namespace::Completion)
    } else if command == "workspace"@ {
        Some(Namespace::Workspace)
    } else if command == "worktree"@ {
        Some(Namespace::Worktree)
    } else if command == "tab"@ {
        Some(Namespace::Tab)
    } else if command == "notification"@ {
        Some(Namespace::Notification)
    } else if command == "agent"@ {
        Some(Namespace::Agent)
    } else if command == "pane"@ {
        Some(Namespace::Pane)
    } else if command == "plugin"@ {
        Some(Namespace::Plugin)
    } else if command == "integration"@ {
        Some(Namespace::Integration)
    } else {
        None
    }
}

fn find_namespace(command: &str) -> (r: Option<Namespace>)
    ensures
        r == namespace_of(command@),
{
    if str_eq(command, "server") {
        Some(Namespace::Server)
    } else if str_eq(command, "api") {
        Some(Namespace::Api)
    } else if str_eq(command, "status") {
        Some(Namespace::Status)
    } else if str_eq(command, "completion") || str_eq(command, "completions") {
        Some(Namespace::Completion)
    } else if str_eq(command, "workspace") {
        Some(Namespace::Workspace)
    } else if str_eq(command, "worktree") {
        Some(Namespace::Worktree)
    } else if str_eq(command, "tab") {
        Some(Namespace::Tab)
    } else if str_eq(command, "notification") {
        Some(Namespace::Notification)
    } else if str_eq(command, "agent") {
        Some(Namespace::Agent)
    } else if str_eq(command, "pane") {
        Some(Namespace::Pane)
    } else if str_eq(command, "plugin") {
        Some(Namespace::Plugin)
    } else if str_eq(command, "integration") {
        Some(Namespace::Integration)
    } else {
        None
    }
}

/// What an invocation comes to.
#[derive(Debug, PartialEq, Eq)]
pub enum Dispatch {
    /// It is over.
    Done(CommandOutcome),
    /// There is work left.
    Run(Task),
    /// It failed with this message.
    Fail(String),
}

/// What a command's turn makes of an invocation.
pub open spec fn dispatched(turn: Turn) -> Dispatch {
    match turn {
        Turn::Exit(code) => Dispatch::Done(CommandOutcome::Handled(code)),
        Turn::Do(task) => Dispatch::Run(task),
        Turn::Fail(message) => Dispatch::Fail(message),
    }
}

/// The turn that the first step of a workflow command is.
pub open spec fn workflow_turn(step: Step) -> Turn {
    match step {
        Step::Exit(code) => Turn::Exit(code),
        _ => Turn::Do(Task::Workflow(step)),
    }
}

/// What a command with these arguments comes to.
pub open spec fn command_turn(
    command: Seq<char>,
    args: Seq<String>,
    env: WorkflowEnv,
    before: Console,
    after: Console,
    turn: Turn,
) -> bool {
    if command == "config"@ {
        config_turn(texts(args), before, after, turn)
    } else if command == "channel"@ {
        channel_turn(texts(args), before, after, turn)
    } else if command == "terminal"@ {
        terminal_turn(texts(args), before, after, turn)
    } else if command == "session"@ {
        session_turn(texts(args), before, after, turn)
    } else {
        exists|step: Step| #[trigger]
            workflow_started(args, env, before, after, step) && turn == workflow_turn(step)
    }
}

/// The commands that are run here.
pub open spec fn is_own_command(command: Seq<char>) -> bool {
    ||| command == "config"@
    ||| command == "channel"@
    ||| command == "terminal"@
    ||| command == "session"@
    ||| command == "workflow"@
}

/// What an invocation comes to.
pub open spec fn invoked(
    args: Seq<String>,
    help_printed: bool,
    env: WorkflowEnv,
    before: Console,
    after: Console,
    r: Dispatch,
) -> bool {
    if args.len() < 2 {
        r == Dispatch::Done(CommandOutcome::NotCli) && after == before
    } else if help_printed {
        r == Dispatch::Done(CommandOutcome::Handled(0)) && after == before
    } else if namespace_of(args[1]@) is Some {
        after == before && (r matches Dispatch::Run(Task::Elsewhere { namespace, args: rest })
            && Some(namespace) == namespace_of(args[1]@) && rest@ == args.skip(2))
    } else if is_own_command(args[1]@) {
        exists|turn: Turn| #[trigger]
            command_turn(args[1]@, args.skip(2), env, before, after, turn) && r == dispatched(turn)
    } else {
        r == Dispatch::Done(CommandOutcome::NotCli) && after == before
    }
}

/// Runs the command that an invocation names. `help_printed` says that the help of
/// one was asked for, and printed.
pub fn maybe_run(
    args: &[String],
    help_printed: bool,
    env: &WorkflowEnv,
    console: &mut Console,
) -> (r: Dispatch)
    ensures
        invoked(args@, help_printed, *env, *old(console), *final(console), r),
{
    if args.len() < 2 {
        return Dispatch::Done(CommandOutcome::NotCli);
    }
    if help_printed {
        return Dispatch::Done(CommandOutcome::Handled(0));
    }
    let command = args[1].as_str();
    let rest = tail_strings(args, 2);
    match find_namespace(command) {
        Some(namespace) => {
            return Dispatch::Run(Task::Elsewhere { namespace, args: rest });
        },
        None => {},
    }
    let turn = if str_eq(command, "config") {
        run_config_command(rest.as_slice(), console)
    } else if str_eq(command, "channel") {
        run_channel_command(rest.as_slice(), console)
    } else if str_eq(command, "terminal") {
        run_terminal_command(rest.as_slice(), console)
    } else if str_eq(command, "session") {
        run_session_command(rest.as_slice(), console)
    } else if str_eq(command, "workflow") {
        let step = run_workflow_command(rest.as_slice(), env, console);
        let ghost started = step;
        assert(workflow_started(rest@, *env, *old(console), *console, started));
        match step {
            Step::Exit(code) => Turn::Exit(code),
            other => Turn::Do(Task::Workflow(other)),
        }
    } else {
        return Dispatch::Done(CommandOutcome::NotCli);
    };
    let ghost taken = turn;
    assert(command_turn(args@[1]@, args@.skip(2), *env, *old(console), *console, taken));
    match turn {
        Turn::Exit(code) => Dispatch::Done(CommandOutcome::Handled(code)),
        Turn::Do(task) => Dispatch::Run(task),
        Turn::Fail(message) => Dispatch::Fail(message),
    }
}

} // verus!
