//! What the commands about updates and the configuration promise, and which command an
//! invocation runs.

use crate::cli::{command_turn, dies_of_closed_pipe, invoked, CommandOutcome, Dispatch};
use crate::cli::plans::WorkflowEnv;
use crate::cli::sessions::{session_turn, terminal_turn};
use crate::cli::settings::{
    backup_path, channel_arg, channel_refused, channel_turn, config_checked, config_turn,
    diagnostics_told, keys_reset, rejection, removal_told, update_checked, update_told,
    written_told, Channel, ChannelSetInstallAction, ResetKeys,
};
use crate::cli::steps::Step;
use crate::cli::tasks::{Namespace, Task, Turn};
use crate::cli::workflow::workflow_started;
use crate::console::Console;
use crate::documents::{toml_document, toml_entries};
use crate::text::texts;
use vstd::prelude::*;

verus! {

// ---------------------------------------------------------------------------
// Channels
// ---------------------------------------------------------------------------

/// A channel is named by one word and by nothing else.
pub proof fn law_a_channel_is_named_by_one_word(args: Seq<Seq<char>>)
    ensures
        channel_arg(args) == Some(Channel::Stable) <==> args.len() == 1 && args[0] == "stable"@,
        channel_arg(args) == Some(Channel::Preview) <==> args.len() == 1 && args[0] == "preview"@,
{
    reveal_strlit("stable");
    reveal_strlit("preview");
    assert("stable"@.len() == 6 && "preview"@.len() == 7);
}

/// The channel command sets the channel that is named, or shows the one that is set. It
/// touches nothing itself, and what it does not understand fails.
pub proof fn law_a_channel_is_set_or_shown(
    args: Seq<Seq<char>>,
    before: Console,
    after: Console,
    turn: Turn,
)
    requires
        channel_turn(args, before, after, turn),
    ensures
        args == seq!["show"@] ==> after == before && turn == Turn::Do(Task::ChannelShow),
        args == seq!["set"@, "stable"@] ==> after == before && turn == Turn::Do(
            Task::ChannelSet(Channel::Stable),
        ),
        args == seq!["set"@, "preview"@] ==> after == before && turn == Turn::Do(
            Task::ChannelSet(Channel::Preview),
        ),
        turn is Do ==> args.len() == 1 && args[0] == "show"@ || args.len() == 2 && args[0]
            == "set"@ && (args[1] == "stable"@ || args[1] == "preview"@),
        turn !is Fail,
        turn is Exit ==> after.out_lines() == before.out_lines() && after.err_lines().len()
            > before.err_lines().len(),
        turn == Turn::Exit(0) <==> args.len() > 0 && (args[0] == "help"@ || args[0] == "--help"@
            || args[0] == "-h"@),
        turn matches Turn::Exit(code) ==> code == 0 || code == 2,
{
    reveal_strlit("stable");
    reveal_strlit("preview");
    reveal_strlit("show");
    reveal_strlit("set");
    reveal_strlit("help");
    reveal_strlit("--help");
    reveal_strlit("-h");
    assert("stable"@.len() == 6 && "preview"@.len() == 7 && "show"@.len() == 4 && "set"@.len()
        == 3);
    assert("help"@.len() == 4 && "--help"@.len() == 6 && "-h"@.len() == 2);
    assert("show"@[0] == 's' && "help"@[0] == 'h');
    assert(before.out_lines() + Seq::<Seq<char>>::empty() =~= before.out_lines());
    if args.len() > 1 {
        assert(args.skip(1)[0] == args[1]);
    }
    if args == seq!["show"@] {
        assert(args[0] == "show"@);
    }
    if args == seq!["set"@, "stable"@] {
        assert(args[0] == "set"@ && args[1] == "stable"@);
    }
    if args == seq!["set"@, "preview"@] {
        assert(args[0] == "set"@ && args[1] == "preview"@);
    }
}

/// Stable builds are refused on Windows alone; previews are refused exactly where the
/// installation has a reason, in its words. A refusal is told and fails, and without one
/// nothing is printed.
pub proof fn law_a_channel_is_refused_for_a_reason(
    channel: Channel,
    install: Option<Seq<char>>,
    windows: bool,
    before: Console,
    after: Console,
    r: Option<i32>,
)
    requires
        channel_refused(channel, install, windows, before, after, r),
    ensures
        channel is Stable && windows ==> r == Some(1i32) && after.err_lines() == before.err_lines()
            + seq![
            "stable channel is not available on Windows yet; Windows builds are preview-only"@
                + "."@,
        ],
        channel is Stable && !windows ==> r is None && after == before,
        channel is Preview && install is None ==> r is None && after == before,
        channel is Preview && install is Some ==> r == Some(1i32) && after.err_lines()
            == before.err_lines() + seq![install->0 + "."@],
        after.out_lines() == before.out_lines(),
{
    assert(before.out_lines() + Seq::<Seq<char>>::empty() =~= before.out_lines());
}

/// A reason against a channel is one against that channel: previews do not suffer from
/// Windows, nor stable builds from the installation.
pub proof fn law_reasons_do_not_mix(
    a: Option<Seq<char>>,
    b: Option<Seq<char>>,
    v: bool,
    w: bool,
)
    ensures
        rejection(Channel::Stable, a, v) == rejection(Channel::Stable, b, v),
        rejection(Channel::Preview, a, v) == rejection(Channel::Preview, a, w),
        rejection(Channel::Preview, a, v) == a,
        rejection(Channel::Stable, a, v) is Some <==> v,
{
}

/// A configuration is changed only where it is valid, and written only where it stays valid;
/// otherwise the command fails, and tells which file it is and what is wrong with it.
pub proof fn law_a_broken_configuration_is_left_alone(
    path: Seq<char>,
    content: Seq<char>,
    before: Console,
    after: Console,
    r: Option<i32>,
)
    ensures
        config_checked(path, content, before, after, r) ==> match toml_document(content) {
            Ok(_) => r is None && after == before,
            Err(e) => r == Some(1i32) && after.out_lines() == before.out_lines()
                && after.err_lines() == before.err_lines() + seq![
                "config file at "@ + path + " is invalid TOML: "@ + e
                    + ". Fix it before changing the update channel."@,
            ],
        },
        update_checked(path, content, before, after, r) ==> match toml_document(content) {
            Ok(_) => r is None && after == before,
            Err(e) => r == Some(1i32) && after.out_lines() == before.out_lines()
                && after.err_lines() == before.err_lines() + seq![
                "changing the update channel would make "@ + path + " invalid TOML: "@ + e
                    + "; leaving config unchanged"@,
            ],
        },
{
    assert(before.out_lines() + Seq::<Seq<char>>::empty() =~= before.out_lines());
}

/// A channel that was set is told by its name and its file. What a package manager says is
/// printed behind that and takes the place of an update; without it an update is run.
pub proof fn law_a_set_channel_is_told_and_updated(
    channel: Channel,
    path: Seq<char>,
    guidance: Option<String>,
    before: Console,
    after: Console,
    r: ChannelSetInstallAction,
)
    requires
        written_told(channel, path, guidance, before, after, r),
    ensures
        ({
            let name = match channel {
                Channel::Stable => "stable"@,
                Channel::Preview => "preview"@,
            };
            let said = "Karvex update channel set to "@ + name + " in "@ + path + "."@;
            &&& after.err_lines() == before.err_lines()
            &&& guidance is None ==> r is RunSelfUpdate && after.out_lines()
                == before.out_lines().push(said)
            &&& guidance matches Some(g) ==> r == ChannelSetInstallAction::PrintGuidance(g)
                && after.out_lines() == before.out_lines().push(said).push(g@)
        }),
{
    let name = match channel {
        Channel::Stable => "stable"@,
        Channel::Preview => "preview"@,
    };
    let said = "Karvex update channel set to "@ + name + " in "@ + path + "."@;
    assert(before.out_lines() + seq![said] + Seq::<Seq<char>>::empty() =~= before.out_lines().push(
        said,
    ));
    if let Some(g) = guidance {
        assert(before.out_lines() + seq![said] + seq![g@] =~= before.out_lines().push(said).push(
            g@,
        ));
    }
}

/// An update that failed fails the command, with the reason and what to do; one that went
/// well says nothing.
pub proof fn law_a_failed_update_fails(
    failure: Option<Seq<char>>,
    before: Console,
    after: Console,
    r: i32,
)
    requires
        update_told(failure, before, after, r),
    ensures
        r == 0 <==> failure is None,
        failure is None ==> after == before,
        failure matches Some(e) ==> r == 1 && after.out_lines() == before.out_lines()
            && after.err_lines() == before.err_lines() + seq![
            "update failed: "@ + e,
            "Run `kvx update` to retry."@,
        ],
{
    assert(before.out_lines() + Seq::<Seq<char>>::empty() =~= before.out_lines());
}

// ---------------------------------------------------------------------------
// The configuration
// ---------------------------------------------------------------------------

/// The configuration command checks the configuration or takes its key bindings out, and
/// only where nothing is said behind that.
pub proof fn law_a_configuration_is_checked_or_reset(
    args: Seq<Seq<char>>,
    before: Console,
    after: Console,
    turn: Turn,
)
    requires
        config_turn(args, before, after, turn),
    ensures
        turn == Turn::Do(Task::ConfigCheck) <==> args.len() == 1 && args[0] == "check"@,
        turn == Turn::Do(Task::ConfigResetKeys) <==> args.len() == 1 && args[0] == "reset-keys"@,
        turn is Do ==> after == before,
        turn !is Fail,
        turn is Exit ==> after.out_lines() == before.out_lines() && after.err_lines().len()
            > before.err_lines().len(),
        turn == Turn::Exit(0) <==> (args.len() > 0 && (args[0] == "help"@ || args[0] == "--help"@
            || args[0] == "-h"@)) || (args.len() == 2 && args[0] == "check"@ && (args[1]
            == "help"@ || args[1] == "--help"@ || args[1] == "-h"@)),
        turn matches Turn::Exit(code) ==> code == 0 || code == 2,
{
    reveal_strlit("check");
    reveal_strlit("reset-keys");
    reveal_strlit("help");
    reveal_strlit("--help");
    reveal_strlit("-h");
    assert("check"@.len() == 5 && "reset-keys"@.len() == 10);
    assert("help"@.len() == 4 && "--help"@.len() == 6 && "-h"@.len() == 2);
    assert(before.out_lines() + Seq::<Seq<char>>::empty() =~= before.out_lines());
}

/// A configuration without issues is fine; every issue of another one is told, in order,
/// and fails the command.
pub proof fn law_every_issue_is_told(
    diagnostics: Seq<Seq<char>>,
    before: Console,
    after: Console,
    r: i32,
    i: int,
)
    requires
        diagnostics_told(diagnostics, before, after, r),
    ensures
        r == 0 <==> diagnostics.len() == 0,
        r == 0 || r == 1,
        after.err_lines() == before.err_lines(),
        after.out_lines().len() == before.out_lines().len() + 1 + diagnostics.len(),
        0 <= i < diagnostics.len() ==> after.out_lines()[before.out_lines().len() + 1 + i]
            == diagnostics[i],
        after.out_lines()[before.out_lines().len() as int] == (if diagnostics.len() == 0 {
            "config: ok"@
        } else {
            "config: issues found"@
        }),
{
}

/// Key bindings are taken out of a configuration exactly where it has some, can do without
/// them and stays valid. What is written is the configuration without them, and the copy
/// goes beside it under the time. Without a file, or without key bindings, there is nothing
/// to do, which is success; everything else fails and changes nothing.
pub proof fn law_key_bindings_are_taken_out_with_a_copy(
    path: Seq<char>,
    content: Option<Seq<char>>,
    stripped: Option<Seq<char>>,
    timestamp: nat,
    windows: bool,
    before: Console,
    after: Console,
    r: ResetKeys,
)
    requires
        keys_reset(path, content, stripped, timestamp, windows, before, after, r),
    ensures
        content is None ==> r == ResetKeys::Exit(0),
        content matches Some(text) ==> {
            let parsed = toml_document(text);
            let table = toml_entries(parsed->Ok_0);
            let named = parsed is Ok && table is Some && table->0.contains_key("keys"@);
            &&& parsed is Err ==> r == ResetKeys::Exit(1)
            &&& parsed is Ok && table is None ==> r == ResetKeys::Exit(1)
            &&& parsed is Ok && table is Some && !table->0.contains_key("keys"@) ==> r
                == ResetKeys::Exit(0)
            &&& named && stripped is None ==> r == ResetKeys::Exit(1)
            &&& named && stripped is Some && toml_document(stripped->0) is Err ==> r
                == ResetKeys::Exit(1)
            &&& named && stripped is Some && toml_document(stripped->0) is Ok ==> (
            r matches ResetKeys::Rewrite { backup, updated } && updated@ == stripped->0 && backup@
                == backup_path(path, timestamp, windows) && after == before)
        },
        r == ResetKeys::Exit(1) ==> after.out_lines() == before.out_lines(),
        r == ResetKeys::Exit(0) ==> after.err_lines() == before.err_lines(),
{
    assert(before.out_lines() + Seq::<Seq<char>>::empty() =~= before.out_lines());
    assert(before.err_lines() + Seq::<Seq<char>>::empty() =~= before.err_lines());
}

/// Taking key bindings out is told with where the copy is and how to get them back.
pub proof fn law_a_removal_tells_how_to_restore(
    path: Seq<char>,
    backup: Seq<char>,
    before: Console,
    after: Console,
    r: i32,
)
    requires
        removal_told(path, backup, before, after, r),
    ensures
        r == 0,
        after.err_lines() == before.err_lines(),
        after.out_lines().len() == before.out_lines().len() + 5,
        after.out_lines()[before.out_lines().len() as int] == "Created backup: "@ + backup,
        after.out_lines()[before.out_lines().len() as int + 1]
            == "Removed [keys], [keys.indexed], and [[keys.command]] from "@ + path + "."@,
        after.out_lines().last() == "To restore: cp "@ + backup + " "@ + path,
{
    assert(before.err_lines() + Seq::<Seq<char>>::empty() =~= before.err_lines());
}

// ---------------------------------------------------------------------------
// Invocations
// ---------------------------------------------------------------------------

proof fn lemma_own_words_differ()
    ensures
        "config"@ != "channel"@,
        "config"@ != "terminal"@,
        "config"@ != "session"@,
        "config"@ != "workflow"@,
        "channel"@ != "terminal"@,
        "channel"@ != "session"@,
        "channel"@ != "workflow"@,
        "terminal"@ != "session"@,
        "terminal"@ != "workflow"@,
        "session"@ != "workflow"@,
{
    reveal_strlit("config");
    reveal_strlit("channel");
    reveal_strlit("terminal");
    reveal_strlit("session");
    reveal_strlit("workflow");
    assert("config"@.len() == 6 && "channel"@.len() == 7 && "terminal"@.len() == 8
        && "session"@.len() == 7 && "workflow"@.len() == 8);
    assert("channel"@[0] == 'c' && "session"@[0] == 's' && "terminal"@[0] == 't' && "workflow"@[0]
        == 'w');
}

proof fn lemma_elsewhere_words_differ()
    ensures
        forall|a: Seq<char>, b: Seq<char>|
            #![trigger elsewhere(a), own(b)]
            elsewhere(a) is Some && own(b) ==> a != b,
{
    reveal_strlit("server");
    reveal_strlit("api");
    reveal_strlit("status");
    reveal_strlit("completion");
    reveal_strlit("completions");
    reveal_strlit("workspace");
    reveal_strlit("worktree");
    reveal_strlit("tab");
    reveal_strlit("notification");
    reveal_strlit("agent");
    reveal_strlit("pane");
    reveal_strlit("plugin");
    reveal_strlit("integration");
    reveal_strlit("config");
    reveal_strlit("channel");
    reveal_strlit("terminal");
    reveal_strlit("session");
    reveal_strlit("workflow");
    assert("config"@.len() == 6 && "config"@[0] == 'c');
    assert("channel"@.len() == 7 && "channel"@[0] == 'c');
    assert("terminal"@.len() == 8 && "terminal"@[0] == 't');
    assert("session"@.len() == 7 && "session"@[0] == 's');
    assert("workflow"@.len() == 8 && "workflow"@[3] == 'k');
    assert("server"@.len() == 6 && "server"@[0] == 's');
    assert("api"@.len() == 3);
    assert("status"@.len() == 6 && "status"@[0] == 's');
    assert("completion"@.len() == 10);
    assert("completions"@.len() == 11);
    assert("workspace"@.len() == 9);
    assert("worktree"@.len() == 8 && "worktree"@[0] == 'w' && "worktree"@[4] == 't');
    assert("workflow"@[4] == 'f');
    assert("tab"@.len() == 3);
    assert("notification"@.len() == 12);
    assert("agent"@.len() == 5);
    assert("pane"@.len() == 4);
    assert("plugin"@.len() == 6 && "plugin"@[0] == 'p');
    assert("integration"@.len() == 11);
}

/// The group of commands that a word names elsewhere.
pub open spec fn elsewhere(word: Seq<char>) -> Option<Namespace> {
    if word == "server"@ {
        Some(Namespace::Server)
    } else if word == "api"@ {
        Some(Namespace::Api)
    } else if word == "status"@ {
        Some(Namespace::Status)
    } else if word == "completion"@ || word == "completions"@ {
        Some(Namespace::Completion)
    } else if word == "workspace"@ {
        Some(Namespace::Workspace)
    } else if word == "worktree"@ {
        Some(Namespace::Worktree)
    } else if word == "tab"@ {
        Some(Namespace::Tab)
    } else if word == "notification"@ {
        Some(Namespace::Notification)
    } else if word == "agent"@ {
        Some(Namespace::Agent)
    } else if word == "pane"@ {
        Some(Namespace::Pane)
    } else if word == "plugin"@ {
        Some(Namespace::Plugin)
    } else if word == "integration"@ {
        Some(Namespace::Integration)
    } else {
        None
    }
}

/// Whether a word names a command of this library.
pub open spec fn own(word: Seq<char>) -> bool {
    word == "config"@ || word == "channel"@ || word == "terminal"@ || word == "session"@ || word
        == "workflow"@
}

/// An invocation runs the command that its first word names, with the arguments behind it.
/// A group that is run elsewhere gets them as they are; without such a word, or without any,
/// it is no command at all, and where help was printed already it is over. A command's own
/// code is the code it ends with.
pub proof fn law_an_invocation_runs_the_command_it_names(
    args: Seq<String>,
    help_printed: bool,
    env: WorkflowEnv,
    before: Console,
    after: Console,
    r: Dispatch,
)
    requires
        invoked(args, help_printed, env, before, after, r),
    ensures
        args.len() < 2 ==> r == Dispatch::Done(CommandOutcome::NotCli) && after == before,
        args.len() >= 2 && help_printed ==> r == Dispatch::Done(CommandOutcome::Handled(0)) && after
            == before,
        args.len() >= 2 && !help_printed ==> {
            let word = args[1]@;
            let rest = args.skip(2);
            &&& elsewhere(word) matches Some(namespace) ==> after == before && (
            r matches Dispatch::Run(Task::Elsewhere { namespace: n, args: given }) && n == namespace
                && given@ == rest)
            &&& elsewhere(word) is None && !own(word) ==> r == Dispatch::Done(
                CommandOutcome::NotCli,
            ) && after == before
            &&& own(word) ==> exists|turn: Turn|
                {
                    &&& #[trigger] command_turn(word, rest, env, before, after, turn)
                    &&& turn matches Turn::Exit(code) ==> r == Dispatch::Done(
                        CommandOutcome::Handled(code),
                    )
                    &&& turn matches Turn::Do(task) ==> r == Dispatch::Run(task)
                    &&& turn matches Turn::Fail(message) ==> r == Dispatch::Fail(message)
                }
        },
{
    lemma_elsewhere_words_differ();
    if args.len() >= 2 && !help_printed {
        let word = args[1]@;
        let rest = args.skip(2);
        assert(own(word) ==> elsewhere(word) is None);
        if own(word) {
            let turn = choose|turn: Turn| #[trigger]
                command_turn(word, rest, env, before, after, turn) && r == crate::cli::dispatched(
                    turn,
                );
            assert(command_turn(word, rest, env, before, after, turn));
        }
    }
}

/// Each of the own commands does with its arguments what that command does; the first step
/// of a workflow command is work to do unless it is the end.
pub proof fn law_each_command_has_its_own_turn(
    args: Seq<String>,
    env: WorkflowEnv,
    before: Console,
    after: Console,
    turn: Turn,
)
    ensures
        command_turn("config"@, args, env, before, after, turn) == config_turn(
            texts(args),
            before,
            after,
            turn,
        ),
        command_turn("channel"@, args, env, before, after, turn) == channel_turn(
            texts(args),
            before,
            after,
            turn,
        ),
        command_turn("terminal"@, args, env, before, after, turn) == terminal_turn(
            texts(args),
            before,
            after,
            turn,
        ),
        command_turn("session"@, args, env, before, after, turn) == session_turn(
            texts(args),
            before,
            after,
            turn,
        ),
        command_turn("workflow"@, args, env, before, after, turn) ==> exists|step: Step|
            {
                &&& #[trigger] workflow_started(args, env, before, after, step)
                &&& step matches Step::Exit(code) ==> turn == Turn::Exit(code)
                &&& step !is Exit ==> turn == Turn::Do(Task::Workflow(step))
            },
{
    lemma_own_words_differ();
    if command_turn("workflow"@, args, env, before, after, turn) {
        let step = choose|step: Step| #[trigger]
            workflow_started(args, env, before, after, step) && turn == crate::cli::workflow_turn(
                step,
            );
        assert(workflow_started(args, env, before, after, step));
    }
}

/// A command dies of a closed pipe where it only prints: never one that takes the terminal
/// over, never the server, and a flag only where nothing follows it.
pub proof fn law_only_what_prints_dies_of_a_closed_pipe(word: Seq<char>, sub: Seq<char>)
    ensures
        own(word) ==> dies_of_closed_pipe(word, None),
        elsewhere(word) is Some && word != "server"@ ==> dies_of_closed_pipe(word, None),
        !dies_of_closed_pipe("server"@, None),
        !dies_of_closed_pipe("server"@, Some(sub)),
        dies_of_closed_pipe(word, None) <==> own(word) || (elsewhere(word) is Some && word
            != "server"@) || word == "--help"@ || word == "-h"@ || word == "--version"@ || word
            == "-V"@ || word == "--default-config"@ || word == "--skill"@,
        dies_of_closed_pipe(word, Some(sub)) <==> (own(word) || (elsewhere(word) is Some && word
            != "server"@)) && !(word == "agent"@ && sub == "attach"@) && !(word == "terminal"@ && (
        sub == "attach"@ || sub == "session"@)),
{
    reveal_strlit("server");
    reveal_strlit("api");
    reveal_strlit("status");
    reveal_strlit("completion");
    reveal_strlit("completions");
    reveal_strlit("config");
    reveal_strlit("channel");
    reveal_strlit("workspace");
    reveal_strlit("worktree");
    reveal_strlit("tab");
    reveal_strlit("notification");
    reveal_strlit("agent");
    reveal_strlit("terminal");
    reveal_strlit("pane");
    reveal_strlit("plugin");
    reveal_strlit("integration");
    reveal_strlit("session");
    reveal_strlit("workflow");
    reveal_strlit("--help");
    reveal_strlit("-h");
    reveal_strlit("--version");
    reveal_strlit("-V");
    reveal_strlit("--default-config");
    reveal_strlit("--skill");
    let s = "server"@;
    assert(s.len() == 6 && s[0] == 's' && s[1] == 'e');
    assert("status"@[1] == 't' && "config"@[0] == 'c' && "plugin"@[0] == 'p' && "--help"@[0]
        == '-');
    assert("api"@.len() == 3 && "completion"@.len() == 10 && "completions"@.len() == 11);
    assert("channel"@.len() == 7 && "workspace"@.len() == 9 && "worktree"@.len() == 8);
    assert("tab"@.len() == 3 && "notification"@.len() == 12 && "agent"@.len() == 5);
    assert("terminal"@.len() == 8 && "pane"@.len() == 4 && "integration"@.len() == 11);
    assert("session"@.len() == 7 && "workflow"@.len() == 8 && "-h"@.len() == 2);
    assert("--version"@.len() == 9 && "-V"@.len() == 2 && "--default-config"@.len() == 16);
    assert("--skill"@.len() == 7);
}

} // verus!
