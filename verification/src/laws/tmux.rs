//! What standing in for `tmux` promises.

use crate::cli::tmux::{
    accent_is, before_separator, command_after, flag_text, foreground, invocation, no_invocation,
    positionals, send_keys_is, separator, serviced, socket_of, split_is, AccentPlan, Invocation,
    SendKeysPlan, SplitPlan,
};
use crate::cli::tmux_run::{
    answer_handled, answer_is, clears_line, dotted, first_real, has_tab, new_pane_id, pane_at,
    pane_resolved, pane_used, panes_handled, panes_of_tab, plain_line, respawn_step, served,
    shell_seen, shim_started, window_of, AnswerPending, Candidate, PaneUse, PanesPending, ShimEnv,
    ShimMethod, ShimPane, ShimStep,
};
use crate::cli::values::SplitDirection;
use crate::console::Console;
use crate::documents::Reply;
use crate::json::{member, Json};
use crate::text::{join, opt_text, texts, trim};
use vstd::prelude::*;

verus! {

broadcast use crate::text::group_texts;

// ---------------------------------------------------------------------------
// A command that is started anew
// ---------------------------------------------------------------------------

/// A conversation with the server: what is done, and what is answered to it, in turn.
pub open spec fn converses(
    steps: Seq<ShimStep>,
    answers: Seq<Result<Reply, String>>,
    counts: Seq<u64>,
    consoles: Seq<Console>,
) -> bool {
    &&& steps.len() == answers.len() + 1
    &&& consoles.len() == steps.len()
    &&& counts.len() >= answers.len()
    &&& forall|i: int|
        #![trigger answers[i]]
        0 <= i < answers.len() ==> (steps[i] matches ShimStep::Request { then, .. }
            && answer_handled(
            then,
            answers[i],
            counts[i],
            consoles[i],
            consoles[i + 1],
            steps[i + 1],
        ))
}

/// Whether a step types a text and one key into a pane, at once.
pub open spec fn types(step: ShimStep, pane: Seq<char>, text: Seq<char>, key: Seq<char>) -> bool {
    step matches ShimStep::Request { delay_ms, method, .. } && delay_ms == 0 && (method matches ShimMethod::PaneSendInput {
        pane_id,
        text: t,
        keys,
    } && pane_id@ == pane && t@ == text && keys@.len() == 1 && keys@[0]@ == key)
}

/// Whether a step looks at the screen of a pane.
pub open spec fn looks_at(step: ShimStep, pane: Seq<char>) -> bool {
    step matches ShimStep::Request { method, .. } && (method matches ShimMethod::PaneRead {
        pane_id,
    } && pane_id@ == pane)
}

spec fn waits_for_shell(
    step: ShimStep,
    pane: Seq<char>,
    command: Seq<char>,
    attempt: int,
) -> bool {
    step matches ShimStep::Request { then, .. } && (then matches AnswerPending::Ready {
        pane_id,
        command: c,
        attempt: a,
        ..
    } && pane_id@ == pane && c@ == command && a == attempt) && looks_at(step, pane)
}

proof fn lemma_typed_in_the_end(
    steps: Seq<ShimStep>,
    answers: Seq<Result<Reply, String>>,
    counts: Seq<u64>,
    consoles: Seq<Console>,
    pane: Seq<char>,
    command: Seq<char>,
    i: int,
) -> (k: int)
    requires
        converses(steps, answers, counts, consoles),
        0 <= i < 10 <= answers.len(),
        waits_for_shell(steps[i], pane, command, i),
    ensures
        i < k <= 10,
        forall|j: int| i <= j < k ==> looks_at(#[trigger] steps[j], pane),
        forall|j: int| i <= j <= k ==> #[trigger] consoles[j] == consoles[i],
        clears_line(steps[k], pane, command),
    decreases 10 - i,
{
    let answer = answers[i];
    assert(steps[i] matches ShimStep::Request { then, .. } && answer_handled(
        then,
        answers[i],
        counts[i],
        consoles[i],
        consoles[i + 1],
        steps[i + 1],
    ));
    if clears_line(steps[i + 1], pane, command) {
        i + 1
    } else {
        assert(waits_for_shell(steps[i + 1], pane, command, i + 1));
        let k = lemma_typed_in_the_end(
            steps,
            answers,
            counts,
            consoles,
            pane,
            command,
            i + 1,
        );
        assert forall|j: int| i <= j <= k implies #[trigger] consoles[j] == consoles[i] by {
            if j > i {
                assert(consoles[j] == consoles[i + 1]);
            }
        }
        k
    }
}

/// Whatever its shell shows and however often it is looked at, a pane that is started anew
/// with a command is first looked at and nothing else, at most ten times. Then its line is
/// cleared, and then exactly the command is typed and exactly Enter pressed, in that pane;
/// and once that is answered the invocation is over, having printed nothing.
pub proof fn law_a_respawned_command_is_typed_and_entered(
    steps: Seq<ShimStep>,
    answers: Seq<Result<Reply, String>>,
    counts: Seq<u64>,
    consoles: Seq<Console>,
    pane: Seq<char>,
    command: String,
    seq: u64,
    before: Console,
) -> (k: int)
    requires
        pane_used(
            PaneUse::Respawn { command: Some(command) },
            pane,
            seq,
            before,
            consoles[0],
            steps[0],
        ),
        converses(steps, answers, counts, consoles),
        answers.len() >= 10,
    ensures
        0 < k <= 10,
        forall|j: int| 0 <= j < k ==> looks_at(#[trigger] steps[j], pane),
        forall|j: int| 0 <= j <= k ==> #[trigger] consoles[j] == before,
        types(steps[k], pane, Seq::empty(), "ctrl+u"@),
        k < answers.len() && answers[k] is Ok ==> types(steps[k + 1], pane, command@, "Enter"@)
            && consoles[k + 1] == before,
        k + 1 < answers.len() && answers[k] is Ok && answers[k + 1] is Ok ==> steps[k + 2]
            == ShimStep::Exit(0) && consoles[k + 2] == before,
{
    assert(waits_for_shell(steps[0], pane, command@, 0));
    let k = lemma_typed_in_the_end(steps, answers, counts, consoles, pane, command@, 0);
    if let ShimStep::Request { method, .. } = steps[k] {
        if let ShimMethod::PaneSendInput { keys, text, .. } = method {
            assert(texts(keys@).len() == keys@.len());
            assert(texts(keys@)[0] == keys@[0]@);
            assert(text@ =~= Seq::empty());
        }
    }
    if k < answers.len() && answers[k] is Ok {
        let answer = answers[k];
        assert(steps[k] matches ShimStep::Request { then, .. } && answer_handled(
            then,
            answers[k],
            counts[k],
            consoles[k],
            consoles[k + 1],
            steps[k + 1],
        ));
        if let ShimStep::Request { method, .. } = steps[k + 1] {
            if let ShimMethod::PaneSendInput { keys, .. } = method {
                assert(texts(keys@).len() == keys@.len());
                assert(texts(keys@)[0] == keys@[0]@);
            }
        }
        if k + 1 < answers.len() && answers[k + 1] is Ok {
            let next = answers[k + 1];
            assert(steps[k + 1] matches ShimStep::Request { then, .. } && answer_handled(
                then,
                answers[k + 1],
                counts[k + 1],
                consoles[k + 1],
                consoles[k + 2],
                steps[k + 2],
            ));
        }
    }
    k
}

/// A shell is waited for as long as its screen changes or is blank: the command follows at
/// once when two looks in a row show the same and something, and after the tenth look in
/// any case; otherwise it is looked at again after a pause of 150 milliseconds.
pub proof fn law_a_shell_is_waited_for_until_it_settles(
    pane: Seq<char>,
    command: Seq<char>,
    attempt: u32,
    previous: Option<Seq<char>>,
    screen: Option<Seq<char>>,
    step: ShimStep,
)
    requires
        shell_seen(pane, command, attempt, previous, screen, step),
    ensures
        ({
            let still = previous is Some && screen is Some && previous->0 == screen->0 && exists|
                i: int,
            |
                0 <= i < screen->0.len() && !crate::text::is_space(#[trigger] screen->0[i]);
            &&& still || attempt >= 9 ==> types(step, pane, Seq::empty(), "ctrl+u"@)
            &&& !still && attempt < 9 ==> looks_at(step, pane) && (step matches ShimStep::Request {
                delay_ms,
                then,
                ..
            } && delay_ms == 150 && (then matches AnswerPending::Ready {
                command: c,
                attempt: next,
                previous: seen,
                ..
            } && c@ == command && next == attempt + 1 && (screen is Some ==> opt_text(seen)
                == screen) && (screen is None ==> opt_text(seen) == previous)))
        }),
{
    if screen is Some {
        let s = screen->0;
        let place = crate::laws::words::law_trimming_takes_off_whitespace_alone(s);
        if trim(s).len() > 0 {
            assert(!crate::text::is_space(s[place.0]));
        }
    }
    if let ShimStep::Request { method, .. } = step {
        if let ShimMethod::PaneSendInput { keys, text, .. } = method {
            assert(texts(keys@).len() == keys@.len());
            if keys@.len() == 1 {
                assert(texts(keys@)[0] == keys@[0]@);
            }
            if text@.len() == 0 {
                assert(text@ =~= Seq::empty());
            }
        }
    }
}

// ---------------------------------------------------------------------------
// Arguments
// ---------------------------------------------------------------------------

proof fn lemma_flag(args: Seq<Seq<char>>, flag: Seq<char>, i: int, k: int)
    requires
        0 <= i <= k < args.len(),
        args[k] == flag,
        forall|j: int| i <= j < k ==> #[trigger] args[j] != flag,
    ensures
        flag_text(args, flag, i) == (if k + 1 < args.len() {
            Some(args[k + 1])
        } else {
            None
        }),
    decreases k - i,
{
    if i < k {
        assert(args[i] != flag);
        lemma_flag(args, flag, i + 1, k);
    }
}

proof fn lemma_no_flag(args: Seq<Seq<char>>, flag: Seq<char>, i: int)
    requires
        0 <= i <= args.len(),
        forall|j: int| i <= j < args.len() ==> #[trigger] args[j] != flag,
    ensures
        flag_text(args, flag, i) is None,
    decreases args.len() - i,
{
    if i < args.len() {
        assert(args[i] != flag);
        lemma_no_flag(args, flag, i + 1);
    }
}

/// The value of a flag is what stands behind the first place where it is given; a flag that
/// is not given has none.
pub proof fn law_a_flag_has_the_value_behind_it(args: Seq<Seq<char>>, flag: Seq<char>, k: int)
    ensures
        (0 <= k && k + 1 < args.len() && args[k] == flag && forall|j: int|
            0 <= j < k ==> #[trigger] args[j] != flag) ==> flag_text(args, flag, 0) == Some(
            args[k + 1],
        ),
        (forall|j: int| 0 <= j < args.len() ==> #[trigger] args[j] != flag) ==> flag_text(
            args,
            flag,
            0,
        ) is None,
{
    if 0 <= k && k + 1 < args.len() && args[k] == flag && forall|j: int|
        0 <= j < k ==> #[trigger] args[j] != flag {
        lemma_flag(args, flag, 0, k);
    }
    if forall|j: int| 0 <= j < args.len() ==> #[trigger] args[j] != flag {
        lemma_no_flag(args, flag, 0);
    }
}

proof fn lemma_separator(args: Seq<Seq<char>>, i: int, n: int)
    requires
        0 <= i <= n <= args.len(),
        n < args.len() ==> args[n] == "--"@,
        forall|j: int| i <= j < n ==> #[trigger] args[j] != "--"@,
    ensures
        separator(args, i) == (if n < args.len() {
            Some(n)
        } else {
            None
        }),
    decreases n - i,
{
    if i < n {
        assert(args[i] != "--"@);
        lemma_separator(args, i + 1, n);
    }
}

/// A command is what stands behind the first `--`, its words with a blank between them, and
/// the flags are what stands before it.
pub proof fn law_a_command_stands_behind_its_dashes(
    flags: Seq<Seq<char>>,
    words: Seq<Seq<char>>,
)
    requires
        forall|j: int| 0 <= j < flags.len() ==> #[trigger] flags[j] != "--"@,
    ensures
        before_separator(flags) == flags,
        command_after(flags) is None,
        before_separator(flags.push("--"@) + words) == flags,
        command_after(flags.push("--"@) + words) == (if join(words, " "@).len() == 0 {
            None
        } else {
            Some(join(words, " "@))
        }),
{
    lemma_separator(flags, 0, flags.len() as int);
    let all = flags.push("--"@) + words;
    assert(forall|j: int| 0 <= j < flags.len() ==> all[j] == #[trigger] flags[j]);
    assert(all[flags.len() as int] == "--"@);
    lemma_separator(all, 0, flags.len() as int);
    assert(all.take(flags.len() as int) =~= flags);
    assert(all.skip(flags.len() as int + 1) =~= words);
}

/// `respawn-pane -t <pane> -- <command>` looks at the shell of that pane, to type that
/// command; without a command nothing is done.
pub proof fn law_respawn_pane_is_about_its_target(
    flags: Seq<Seq<char>>,
    words: Seq<Seq<char>>,
    k: int,
    env: ShimEnv,
    seq: u64,
    before: Console,
    after: Console,
    step: ShimStep,
)
    requires
        served("respawn-pane"@, flags.push("--"@) + words, env, seq, before, after, step),
        forall|j: int| 0 <= j < flags.len() ==> #[trigger] flags[j] != "--"@,
        0 <= k && k + 1 < flags.len() && flags[k] == "-t"@,
        forall|j: int| 0 <= j < k ==> #[trigger] flags[j] != "-t"@,
    ensures
        after == before,
        join(words, " "@).len() == 0 ==> step == ShimStep::Exit(0),
        join(words, " "@).len() > 0 ==> looks_at(step, flags[k + 1]) && (step matches ShimStep::Request {
            then,
            ..
        } && (then matches AnswerPending::Ready { pane_id, command, attempt, .. } && pane_id@
            == flags[k + 1] && command@ == join(words, " "@) && attempt == 0)),
{
    let args = flags.push("--"@) + words;
    lemma_not_others();
    law_a_command_stands_behind_its_dashes(flags, words);
    lemma_flag(flags, "-t"@, 0, k);
    assert(respawn_step(args, env, seq, before, after, step));
    let command = choose|command: Option<String>|
        opt_text(command) == command_after(args) && #[trigger] pane_resolved(
            flag_text(before_separator(args), "-t"@, 0),
            PaneUse::Respawn { command },
            env,
            seq,
            before,
            after,
            step,
        );
    assert(pane_resolved(
        flag_text(before_separator(args), "-t"@, 0),
        PaneUse::Respawn { command },
        env,
        seq,
        before,
        after,
        step,
    ));
}

proof fn lemma_not_others()
    ensures
        "respawn-pane"@ != "display-message"@,
        "respawn-pane"@ != "list-panes"@,
        "respawn-pane"@ != "split-window"@,
        "respawn-pane"@ != "splitw"@,
        "kill-pane"@ != "display-message"@,
        "kill-pane"@ != "list-panes"@,
        "kill-pane"@ != "split-window"@,
        "kill-pane"@ != "splitw"@,
        "kill-pane"@ != "respawn-pane"@,
        "kill-pane"@ != "set-option"@,
        "kill-pane"@ != "set"@,
        "kill-pane"@ != "select-pane"@,
        "kill-pane"@ != "selectp"@,
        "select-pane"@ != "display-message"@,
        "select-pane"@ != "list-panes"@,
        "select-pane"@ != "split-window"@,
        "select-pane"@ != "splitw"@,
        "select-pane"@ != "respawn-pane"@,
        "select-pane"@ != "set-option"@,
        "select-pane"@ != "set"@,
        "split-window"@ != "display-message"@,
        "split-window"@ != "list-panes"@,
        "list-panes"@ != "display-message"@,
        "send-keys"@ != "display-message"@,
        "send-keys"@ != "list-panes"@,
        "send-keys"@ != "split-window"@,
        "send-keys"@ != "splitw"@,
        "send-keys"@ != "respawn-pane"@,
        "send-keys"@ != "set-option"@,
        "send-keys"@ != "set"@,
        "send-keys"@ != "select-pane"@,
        "send-keys"@ != "selectp"@,
        "send-keys"@ != "kill-pane"@,
        "send-keys"@ != "killp"@,
        "send-keys"@ != "show-options"@,
        "set-option"@ != "display-message"@,
        "set-option"@ != "list-panes"@,
        "set-option"@ != "split-window"@,
        "set-option"@ != "splitw"@,
        "set-option"@ != "respawn-pane"@,
{
    reveal_strlit("respawn-pane");
    reveal_strlit("display-message");
    reveal_strlit("list-panes");
    reveal_strlit("split-window");
    reveal_strlit("splitw");
    reveal_strlit("kill-pane");
    reveal_strlit("killp");
    reveal_strlit("set-option");
    reveal_strlit("set");
    reveal_strlit("select-pane");
    reveal_strlit("selectp");
    reveal_strlit("send-keys");
    reveal_strlit("show-options");
    assert("respawn-pane"@[0] == 'r');
    assert("split-window"@[0] == 's');
    assert("display-message"@[0] == 'd');
    assert("kill-pane"@[0] == 'k');
    assert("kill-pane"@.len() == 9);
    assert("list-panes"@[0] == 'l');
    assert("select-pane"@[1] == 'e' && "select-pane"@.len() == 11 && "select-pane"@[2] == 'l');
    assert("set-option"@[2] == 't' && "set-option"@.len() == 10 && "set-option"@[1] == 'e');
    assert("send-keys"@[2] == 'n' && "send-keys"@.len() == 9 && "send-keys"@[1] == 'e');
    assert("split-window"@[1] == 'p' && "split-window"@.len() == 12);
    assert("splitw"@[1] == 'p' && "splitw"@[0] == 's' && "splitw"@.len() == 6);
    assert("set"@.len() == 3);
    assert("selectp"@.len() == 7 && "selectp"@[2] == 'l');
    assert("killp"@.len() == 5 && "killp"@[0] == 'k');
    assert("show-options"@[1] == 'h');
    assert("set"@[0] == 's');
}

/// `kill-pane -t <pane>` closes that pane, and nothing else is asked for.
pub proof fn law_kill_pane_closes_its_target(
    args: Seq<Seq<char>>,
    k: int,
    env: ShimEnv,
    seq: u64,
    before: Console,
    after: Console,
    step: ShimStep,
)
    requires
        served("kill-pane"@, args, env, seq, before, after, step),
        0 <= k && k + 1 < args.len() && args[k] == "-t"@,
        forall|j: int| 0 <= j < k ==> #[trigger] args[j] != "-t"@,
    ensures
        after == before,
        step matches ShimStep::Request { delay_ms, method, then, .. } && delay_ms == 0 && then
            is Quiet && (method matches ShimMethod::PaneClose { pane_id } && pane_id@ == args[k
            + 1]),
{
    lemma_not_others();
    lemma_flag(args, "-t"@, 0, k);
}

/// `select-pane -t <pane> -T <title>` gives that pane that title.
pub proof fn law_select_pane_names_its_target(
    args: Seq<Seq<char>>,
    k: int,
    m: int,
    env: ShimEnv,
    seq: u64,
    before: Console,
    after: Console,
    step: ShimStep,
)
    requires
        served("select-pane"@, args, env, seq, before, after, step),
        0 <= k && k + 1 < args.len() && args[k] == "-t"@,
        forall|j: int| 0 <= j < k ==> #[trigger] args[j] != "-t"@,
        0 <= m && m + 1 < args.len() && args[m] == "-T"@,
        forall|j: int| 0 <= j < m ==> #[trigger] args[j] != "-T"@,
    ensures
        after == before,
        step matches ShimStep::Request { delay_ms, method, then, .. } && delay_ms == 0 && then
            is Quiet && (method matches ShimMethod::PaneRename { pane_id, label } && pane_id@
            == args[k + 1] && label@ == args[m + 1]),
{
    lemma_not_others();
    lemma_flag(args, "-t"@, 0, k);
    lemma_flag(args, "-T"@, 0, m);
}

proof fn lemma_words(args: Seq<Seq<char>>, i: int)
    requires
        0 <= i <= args.len(),
    ensures
        forall|j: int|
            0 <= j < positionals(args, i).len() ==> !"-"@.is_prefix_of(
                #[trigger] positionals(args, i)[j],
            ),
        (forall|j: int| i <= j < args.len() ==> !"-"@.is_prefix_of(#[trigger] args[j]))
            ==> positionals(args, i) == args.skip(i),
    decreases args.len() - i,
{
    reveal_strlit("-");
    reveal_strlit("-t");
    if i < args.len() {
        if args[i] == "-t"@ {
            assert("-"@ =~= "-t"@.subrange(0, 1));
            assert("-"@.is_prefix_of(args[i]));
            if i + 1 < args.len() {
                lemma_words(args, i + 2);
                assert(positionals(args, i) == positionals(args, i + 2));
            } else {
                assert(positionals(args, i).len() == 0);
            }
        } else if "-"@.is_prefix_of(args[i]) {
            lemma_words(args, i + 1);
            assert(positionals(args, i) == positionals(args, i + 1));
        } else {
            lemma_words(args, i + 1);
            let rest = positionals(args, i + 1);
            let all = positionals(args, i);
            assert forall|j: int| 0 <= j < all.len() implies !"-"@.is_prefix_of(
                #[trigger] all[j],
            ) by {
                if j > 0 {
                    assert(all[j] == rest[j - 1]);
                }
            }
            assert(args.skip(i) =~= seq![args[i]] + args.skip(i + 1));
        }
    } else {
        assert(args.skip(i) =~= Seq::empty());
    }
}

/// The words of an invocation are those of its arguments that are no flags, in order;
/// without flags they are all of them, and the value of `-t` in front is none.
pub proof fn law_words_are_what_is_no_flag(words: Seq<Seq<char>>, target: Seq<char>)
    ensures
        forall|j: int|
            0 <= j < positionals(words, 0).len() ==> !"-"@.is_prefix_of(
                #[trigger] positionals(words, 0)[j],
            ),
        (forall|j: int| 0 <= j < words.len() ==> !"-"@.is_prefix_of(#[trigger] words[j]))
            ==> positionals(words, 0) == words && positionals(seq!["-t"@, target] + words, 0)
            == words,
{
    lemma_words(words, 0);
    if forall|j: int| 0 <= j < words.len() ==> !"-"@.is_prefix_of(#[trigger] words[j]) {
        assert(words.skip(0) =~= words);
        let all = seq!["-t"@, target] + words;
        assert(all[0] == "-t"@);
        assert forall|j: int| 2 <= j < all.len() implies !"-"@.is_prefix_of(#[trigger] all[j]) by {
            assert(all[j] == words[j - 2]);
        }
        lemma_words(all, 2);
        assert(all.skip(2) =~= words);
    }
}

/// `send-keys -t <pane> <words>` types those words into that pane; a last word `Enter` is
/// pressed and not typed.
pub proof fn law_send_keys_types_its_words(
    words: Seq<Seq<char>>,
    target: Seq<char>,
    env: ShimEnv,
    seq: u64,
    before: Console,
    after: Console,
    step: ShimStep,
)
    requires
        served("send-keys"@, seq!["-t"@, target] + words, env, seq, before, after, step),
        forall|j: int| 0 <= j < words.len() ==> !"-"@.is_prefix_of(#[trigger] words[j]),
    ensures
        after == before,
        words.len() > 0 && words.last() == "Enter"@ ==> types(
            step,
            target,
            join(words.drop_last(), " "@),
            "Enter"@,
        ),
        !(words.len() > 0 && words.last() == "Enter"@) ==> (step matches ShimStep::Request {
            delay_ms,
            method,
            ..
        } && delay_ms == 0 && (method matches ShimMethod::PaneSendInput { pane_id, text, keys }
            && pane_id@ == target && text@ == join(words, " "@) && keys@.len() == 0)),
{
    let args = seq!["-t"@, target] + words;
    lemma_not_others();
    law_words_are_what_is_no_flag(words, target);
    assert(args[0] == "-t"@ && args[1] == target);
    lemma_flag(args, "-t"@, 0, 0);
    let plan = choose|plan: SendKeysPlan| #[trigger]
        send_keys_is(args, plan) && pane_resolved(
            opt_text(plan.target),
            PaneUse::SendKeys { text: plan.text, keys: plan.keys },
            env,
            seq,
            before,
            after,
            step,
        );
    assert(send_keys_is(args, plan));
    assert(texts(plan.keys@).len() == plan.keys@.len());
    if plan.keys@.len() == 1 {
        assert(texts(plan.keys@)[0] == plan.keys@[0]@);
    }
}

/// Whether some argument is this one.
pub open spec fn given(args: Seq<Seq<char>>, flag: Seq<char>) -> bool {
    exists|j: int| 0 <= j < args.len() && #[trigger] args[j] == flag
}

/// A new pane is made beside the pane that was asked for: below it with `-v` and to its
/// right without, as large as `-l` says in percent, in the directory that pane is in, seen
/// at once unless `-d` was given, and told of exactly where `-P` was.
pub proof fn law_a_pane_is_split_as_asked(
    args: Seq<Seq<char>>,
    plan: SplitPlan,
    panes: Vec<ShimPane>,
    k: int,
    before: Console,
    after: Console,
    step: ShimStep,
)
    requires
        split_is(args, plan),
        forall|j: int| 0 <= j < args.len() ==> #[trigger] args[j] != "--"@,
        0 <= k < panes@.len(),
        forall|j: int| 0 <= j < k ==> (#[trigger] panes@[j]).pane_id@ != panes@[k].pane_id@,
        panes_handled(
            PanesPending::SplitPane { pane_id: panes@[k].pane_id, plan },
            Ok(panes),
            before,
            after,
            step,
        ),
    ensures
        after == before,
        step matches ShimStep::Request { delay_ms, method, then, .. } && delay_ms == 0 && (
        method matches ShimMethod::PaneSplit { target_pane_id, direction, percent, cwd, focus }
            && target_pane_id@ == panes@[k].pane_id@ && (direction == SplitDirection::Down
            <==> given(args, "-v"@)) && (direction == SplitDirection::Right <==> !given(
            args,
            "-v"@,
        )) && (focus <==> !given(args, "-d"@)) && (panes@[k].foreground_cwd is Some ==> cwd
            == panes@[k].foreground_cwd) && (panes@[k].foreground_cwd is None ==> cwd
            == panes@[k].cwd) && (percent matches Some(p) ==> flag_text(args, "-l"@, 0) == Some(
            p@.push('%'),
        )) && (percent is None ==> !(flag_text(args, "-l"@, 0) matches Some(t) && t.len() > 0
            && t.last() == '%'))) && (then matches AnswerPending::Split { print } && (print
            <==> given(args, "-P"@))),
{
    lemma_separator(args, 0, args.len() as int);
    lemma_pane_at(panes@, 0, k);
    if let Some(p) = plan.percent {
        let t = flag_text(args, "-l"@, 0)->0;
        assert(t =~= p@.push('%'));
    }
    assert(given(args, "-v"@) == crate::text::has_text(args, "-v"@));
    assert(given(args, "-d"@) == crate::text::has_text(args, "-d"@));
    assert(given(args, "-P"@) == crate::text::has_text(args, "-P"@));
}

proof fn lemma_pane_at(panes: Seq<ShimPane>, i: int, k: int)
    requires
        0 <= i <= k < panes.len(),
        forall|j: int| i <= j < k ==> (#[trigger] panes[j]).pane_id@ != panes[k].pane_id@,
    ensures
        pane_at(panes, panes[k].pane_id@, i) == Some(panes[k]),
    decreases k - i,
{
    if i < k {
        assert(panes[i].pane_id@ != panes[k].pane_id@);
        lemma_pane_at(panes, i + 1, k);
    }
}

proof fn lemma_no_pane_at(panes: Seq<ShimPane>, id: Seq<char>, i: int)
    requires
        0 <= i <= panes.len(),
        forall|j: int| i <= j < panes.len() ==> (#[trigger] panes[j]).pane_id@ != id,
    ensures
        pane_at(panes, id, i) is None,
    decreases panes.len() - i,
{
    if i < panes.len() {
        assert(panes[i].pane_id@ != id);
        lemma_no_pane_at(panes, id, i + 1);
    }
}

proof fn lemma_has_tab(panes: Seq<ShimPane>, tab: Seq<char>, i: int)
    requires
        0 <= i <= panes.len(),
    ensures
        has_tab(panes, tab, i) <==> exists|j: int|
            i <= j < panes.len() && (#[trigger] panes[j]).tab_id@ == tab,
    decreases panes.len() - i,
{
    if i < panes.len() {
        lemma_has_tab(panes, tab, i + 1);
        if panes[i].tab_id@ == tab {
            assert(panes[i].tab_id@ == tab);
        }
    }
}

/// A target names the window of the pane it is the id of; where it is no pane's, the window
/// it is the id of; and none otherwise.
pub proof fn law_a_target_names_a_window(panes: Seq<ShimPane>, target: Seq<char>, k: int)
    ensures
        (0 <= k < panes.len() && panes[k].pane_id@ == target && forall|j: int|
            0 <= j < k ==> (#[trigger] panes[j]).pane_id@ != target) ==> window_of(panes, target)
            == Some(panes[k].tab_id@),
        (forall|j: int| 0 <= j < panes.len() ==> (#[trigger] panes[j]).pane_id@ != target) ==> (
        window_of(panes, target) == (if exists|j: int|
            0 <= j < panes.len() && (#[trigger] panes[j]).tab_id@ == target {
            Some(target)
        } else {
            None
        })),
{
    lemma_has_tab(panes, target, 0);
    if 0 <= k < panes.len() && panes[k].pane_id@ == target && forall|j: int|
        0 <= j < k ==> (#[trigger] panes[j]).pane_id@ != target {
        lemma_pane_at(panes, 0, k);
    }
    if forall|j: int| 0 <= j < panes.len() ==> (#[trigger] panes[j]).pane_id@ != target {
        lemma_no_pane_at(panes, target, 0);
    }
}

proof fn lemma_panes_of(panes: Seq<ShimPane>, tab: Seq<char>)
    ensures
        forall|i: int|
            0 <= i < panes_of_tab(panes, tab).len() ==> (#[trigger] panes_of_tab(
                panes,
                tab,
            )[i]).tab_id@ == tab && panes.contains(panes_of_tab(panes, tab)[i]),
{
    let all = panes_of_tab(panes, tab);
    crate::cli::tmux_run::law_panes_are_listed_oldest_first(panes, tab);
    let mine = |p: ShimPane| p.tab_id@ == tab;
    let kept = panes.filter(mine);
    let places = crate::laws::places::filtered_places(panes, mine);
    assert(all.to_multiset() == kept.to_multiset());
    assert forall|i: int| 0 <= i < all.len() implies (#[trigger] all[i]).tab_id@ == tab
        && panes.contains(all[i]) by {
        broadcast use vstd::seq_lib::group_to_multiset_ensures;

        assert(all.contains(all[i]));
        assert(all.to_multiset().count(all[i]) > 0);
        assert(kept.to_multiset().count(all[i]) > 0);
        assert(kept.contains(all[i]));
        let j = choose|j: int| 0 <= j < kept.len() && kept[j] == all[i];
        assert(panes[places[j]] == kept[j] && mine(kept[j]));
    }
}

/// The list of a window's panes is printed with their ids, one to a line, in the order of
/// the list, and each of them is a pane of the window.
pub proof fn law_a_window_lists_its_panes(
    tab: String,
    panes: Vec<ShimPane>,
    before: Console,
    after: Console,
    step: ShimStep,
)
    requires
        panes_handled(PanesPending::ListTab { tab_id: tab }, Ok(panes), before, after, step),
    ensures
        step == ShimStep::Exit(0),
        after.err_lines() == before.err_lines(),
        after.out_lines().len() == before.out_lines().len() + panes_of_tab(panes@, tab@).len(),
        forall|i: int|
            0 <= i < panes_of_tab(panes@, tab@).len() ==> after.out_lines()[before.out_lines().len()
                + i] == (#[trigger] panes_of_tab(panes@, tab@)[i]).pane_id@,
        forall|i: int|
            0 <= i < panes_of_tab(panes@, tab@).len() ==> (#[trigger] panes_of_tab(
                panes@,
                tab@,
            )[i]).tab_id@ == tab@ && panes@.contains(panes_of_tab(panes@, tab@)[i]),
{
    let all = panes_of_tab(panes@, tab@);
    let lines = all.map_values(
        |p: ShimPane| crate::cli::tmux::outer_pane_id(p.pane_id@),
    );
    assert(after.out_lines() == before.out_lines() + lines);
    assert(after.err_lines() =~= before.err_lines());
    lemma_panes_of(panes@, tab@);
}

/// What is asked of a pane is asked of the target where one is given, else of the pane the
/// environment names, and else of the one the server calls current: then the server is
/// asked first, and the same is done with the pane it answers.
pub proof fn law_a_pane_is_the_target_or_ones_own(
    target: Option<Seq<char>>,
    usage: PaneUse,
    env: ShimEnv,
    seq: u64,
    before: Console,
    after: Console,
    step: ShimStep,
)
    requires
        pane_resolved(target, usage, env, seq, before, after, step),
    ensures
        target matches Some(t) ==> pane_used(usage, t, seq, before, after, step),
        target is None && env.tmux_pane is None && env.karvex_pane_id is None ==> after == before
            && (step matches ShimStep::Request { method, then, .. } && method is PaneCurrent && then
            == AnswerPending::CurrentPane(usage)),
        target is None && env.tmux_pane is None && (env.karvex_pane_id matches Some(v) && trim(
            v@,
        ).len() > 0) ==> pane_used(usage, trim(env.karvex_pane_id->0@), seq, before, after, step),
        target is None && (env.tmux_pane matches Some(v) && trim(v@).len() > 0 && trim(v@)[0]
            != '%') ==> pane_used(usage, trim(env.tmux_pane->0@), seq, before, after, step),
        target is None && (env.tmux_pane matches Some(v) && trim(v@).len() > 0 && trim(v@)[0] == '%')
            && env.karvex_pane_id is None ==> (step matches ShimStep::Request { method, .. }
            && method is PaneCurrent),
{
    reveal_strlit("%");
    if let Some(v) = env.tmux_pane {
        let id = trim(v@);
        if id.len() > 0 {
            if id[0] == '%' {
                assert("%"@ =~= id.subrange(0, 1));
            } else if "%"@.is_prefix_of(id) {
                assert(id.subrange(0, 1)[0] == "%"@[0]);
            }
        }
    }
}

/// Once the server has named the current pane, what was asked for is done with that pane;
/// without an answer, or without a pane in it, the invocation fails.
pub proof fn law_the_current_pane_is_the_one_answered(
    usage: PaneUse,
    answer: Result<Reply, String>,
    seq: u64,
    before: Console,
    after: Console,
    step: ShimStep,
)
    requires
        answer_handled(AnswerPending::CurrentPane(usage), answer, seq, before, after, step),
    ensures
        answer is Err ==> step == ShimStep::Exit(1),
        answer matches Ok(reply) ==> (member(reply.value, "result"@) matches Some(result)
            ==> member(result, "pane"@) matches Some(pane) ==> member(pane, "pane_id"@) matches Some(
            Json::Str(id),
        ) ==> pane_used(usage, id@, seq, before, after, step)),
        answer matches Ok(reply) ==> (member(reply.value, "result"@) is None ==> step
            == ShimStep::Exit(1)),
{
    if let Ok(reply) = answer {
        if let Some(result) = member(reply.value, "result"@) {
            lemma_pane_id_path(result);
        }
    }
}

proof fn lemma_pane_id_path(result: Json)
    ensures
        dotted(result, "pane.pane_id"@) == (match member(result, "pane"@) {
            Some(pane) => member(pane, "pane_id"@),
            None => None,
        }),
{
    reveal_strlit("pane.pane_id");
    reveal_strlit("pane");
    reveal_strlit("pane_id");
    assert("pane.pane_id"@ =~= "pane"@.push('.') + "pane_id"@);
    law_a_dotted_path_leads_down(result, "pane"@, "pane_id"@);
    assert(!"pane_id"@.contains('.'));
    crate::laws::words::law_a_text_is_parted_at_the_first_place("pane_id"@, '.');
}

/// A dotted path leads to what stands under its first part, and from there on.
pub proof fn law_a_dotted_path_leads_down(value: Json, first: Seq<char>, rest: Seq<char>)
    requires
        !first.contains('.'),
    ensures
        dotted(value, first.push('.') + rest) == (match member(value, first) {
            Some(next) => dotted(next, rest),
            None => None,
        }),
        dotted(value, first) == member(value, first),
{
    let path = first.push('.') + rest;
    crate::text::lemma_char_pos(path, '.');
    assert(path[first.len() as int] == '.');
    assert(forall|j: int| 0 <= j < first.len() ==> path[j] == #[trigger] first[j]);
    let p = crate::text::char_pos(path, '.')->0;
    if p < first.len() {
        assert(first[p] == '.');
    }
    assert(path.take(first.len() as int) =~= first);
    assert(path.skip(first.len() as int + 1) =~= rest);
    crate::text::lemma_char_pos(first, '.');
    if let Some(i) = crate::text::char_pos(first, '.') {
        assert(first[i] == '.');
    }
}

/// The id of a new pane is printed exactly where it was asked for, as the server told it.
pub proof fn law_a_new_pane_is_told_where_asked(
    print: bool,
    answer: Result<Reply, String>,
    seq: u64,
    before: Console,
    after: Console,
    step: ShimStep,
)
    requires
        answer_handled(AnswerPending::Split { print }, answer, seq, before, after, step),
    ensures
        answer is Err ==> step == ShimStep::Exit(1),
        answer matches Ok(reply) ==> (member(reply.value, "result"@) matches Some(result)
            ==> member(result, "pane"@) matches Some(pane) ==> member(pane, "pane_id"@) matches Some(
            Json::Str(id),
        ) ==> step == ShimStep::Exit(0) && after.err_lines() == before.err_lines()
            && after.out_lines() == (if print {
            before.out_lines().push(id@)
        } else {
            before.out_lines()
        })),
{
    if let Ok(reply) = answer {
        if let Some(result) = member(reply.value, "result"@) {
            lemma_pane_id_path(result);
            assert(after.err_lines() =~= before.err_lines() || step == ShimStep::Exit(1));
            if let Some(id) = new_pane_id(reply.value) {
                if print {
                    assert(after.out_lines() =~= before.out_lines().push(id));
                }
            }
        }
    }
}

// ---------------------------------------------------------------------------
// Invocations
// ---------------------------------------------------------------------------

proof fn lemma_shifted(args: Seq<Seq<char>>, i: int, inv: Invocation)
    requires
        0 <= i <= args.len(),
    ensures
        invocation(args, i, inv) == invocation(args.skip(i), 0, inv),
    decreases args.len() - i,
{
    let rest = args.skip(i);
    if i < args.len() {
        assert(rest[0] == args[i]);
        assert(rest.skip(1) =~= args.skip(i + 1));
        if i + 1 < args.len() {
            assert(rest[1] == args[i + 1]);
            assert(rest.skip(2) =~= args.skip(i + 2));
        }
        let pushed = Invocation { args: inv.args.push(args[i]), ..inv };
        lemma_shifted(args, i + 1, pushed);
        lemma_shifted(rest, 1, pushed);
        lemma_shifted(args, i + 1, inv);
        lemma_shifted(rest, 1, inv);
        let version = Invocation { version_only: true, ..inv };
        lemma_shifted(args, i + 1, version);
        lemma_shifted(rest, 1, version);
        let named = Invocation { subcommand: Some(args[i]), ..inv };
        lemma_shifted(args, i + 1, named);
        lemma_shifted(rest, 1, named);
        if i + 1 < args.len() {
            let socket = Invocation { socket_path: Some(args[i + 1]), ..inv };
            lemma_shifted(args, i + 2, socket);
            lemma_shifted(rest, 2, socket);
            let server = Invocation { named_socket: Some(args[i + 1]), ..inv };
            lemma_shifted(args, i + 2, server);
            lemma_shifted(rest, 2, server);
            lemma_shifted(args, i + 2, inv);
            lemma_shifted(rest, 2, inv);
        }
    }
}

proof fn lemma_own_args(args: Seq<Seq<char>>, i: int, inv: Invocation)
    requires
        0 <= i <= args.len(),
        inv.subcommand is Some,
    ensures
        invocation(args, i, inv) == (Invocation { args: inv.args + args.skip(i), ..inv }),
    decreases args.len() - i,
{
    if i < args.len() {
        let next = Invocation { args: inv.args.push(args[i]), ..inv };
        lemma_own_args(args, i + 1, next);
        assert(inv.args.push(args[i]) + args.skip(i + 1) =~= inv.args + args.skip(i));
    } else {
        assert(inv.args + args.skip(i) =~= inv.args);
    }
}

/// A flag in front of the subcommand that takes a value takes it along: both are passed over,
/// and everything behind them is read as if they were not there. Other flags stand alone.
pub proof fn law_a_passed_over_flag_takes_its_value_along(
    flag: Seq<char>,
    value: Seq<char>,
    rest: Seq<Seq<char>>,
)
    ensures
        flag == "-f"@ || flag == "-c"@ || flag == "-T"@ ==> invocation(
            seq![flag, value] + rest,
            0,
            no_invocation(),
        ) == invocation(rest, 0, no_invocation()),
        "-"@.is_prefix_of(flag) && flag != "-f"@ && flag != "-c"@ && flag != "-T"@ && flag != "-S"@
            && flag != "-L"@ && flag != "-V"@ ==> invocation(
            seq![flag] + rest,
            0,
            no_invocation(),
        ) == invocation(rest, 0, no_invocation()),
{
    reveal_strlit("-S");
    reveal_strlit("-L");
    reveal_strlit("-V");
    reveal_strlit("-f");
    reveal_strlit("-c");
    reveal_strlit("-T");
    assert("-S"@[1] == 'S' && "-L"@[1] == 'L' && "-V"@[1] == 'V' && "-f"@[1] == 'f' && "-c"@[1]
        == 'c' && "-T"@[1] == 'T');
    let none = no_invocation();
    let two = seq![flag, value] + rest;
    assert(two[0] == flag && two[1] == value);
    lemma_shifted(two, 2, none);
    assert(two.skip(2) =~= rest);
    let one = seq![flag] + rest;
    assert(one[0] == flag);
    lemma_shifted(one, 1, none);
    assert(one.skip(1) =~= rest);
}

/// The first argument that is no flag is the subcommand, and everything behind it is its
/// own, flags too; the flags in front tell the socket, the named server, or that only the
/// version is wanted.
pub proof fn law_an_invocation_is_its_subcommand_and_arguments(
    sub: Seq<char>,
    own: Seq<Seq<char>>,
    path: Seq<char>,
)
    requires
        !"-"@.is_prefix_of(sub),
    ensures
        ({
            let plain = invocation(seq![sub] + own, 0, no_invocation());
            let at = invocation(seq!["-S"@, path, sub] + own, 0, no_invocation());
            let named = invocation(seq!["-L"@, path, sub] + own, 0, no_invocation());
            let version = invocation(seq!["-V"@], 0, no_invocation());
            &&& plain.subcommand == Some(sub) && plain.args == own && plain.socket_path is None
                && plain.named_socket is None && !plain.version_only
            &&& at.subcommand == Some(sub) && at.args == own && at.socket_path == Some(path)
                && at.named_socket is None && !at.version_only
            &&& named.subcommand == Some(sub) && named.args == own && named.named_socket == Some(
                path,
            ) && named.socket_path is None && !named.version_only
            &&& version.version_only && version.subcommand is None
        }),
{
    reveal_strlit("-");
    reveal_strlit("-S");
    reveal_strlit("-L");
    reveal_strlit("-V");
    reveal_strlit("-f");
    reveal_strlit("-c");
    reveal_strlit("-T");
    assert("-"@ =~= "-S"@.subrange(0, 1));
    assert("-"@ =~= "-L"@.subrange(0, 1));
    assert("-"@ =~= "-V"@.subrange(0, 1));
    assert("-"@ =~= "-f"@.subrange(0, 1));
    assert("-"@ =~= "-c"@.subrange(0, 1));
    assert("-"@ =~= "-T"@.subrange(0, 1));
    assert("-S"@[1] == 'S' && "-L"@[1] == 'L' && "-V"@[1] == 'V');
    let none = no_invocation();
    let a = seq![sub] + own;
    assert(a[0] == sub);
    lemma_own_args(a, 1, Invocation { subcommand: Some(sub), ..none });
    assert(none.args + a.skip(1) =~= own);
    let b = seq!["-S"@, path, sub] + own;
    assert(b[0] == "-S"@ && b[1] == path && b[2] == sub);
    let socket = Invocation { socket_path: Some(path), ..none };
    lemma_own_args(b, 3, Invocation { subcommand: Some(sub), ..socket });
    assert(invocation(b, 2, socket) == invocation(
        b,
        3,
        Invocation { subcommand: Some(sub), ..socket },
    ));
    assert(socket.args + b.skip(3) =~= own);
    let c = seq!["-L"@, path, sub] + own;
    assert(c[0] == "-L"@ && c[1] == path && c[2] == sub);
    let server = Invocation { named_socket: Some(path), ..none };
    lemma_own_args(c, 3, Invocation { subcommand: Some(sub), ..server });
    assert(invocation(c, 2, server) == invocation(
        c,
        3,
        Invocation { subcommand: Some(sub), ..server },
    ));
    assert(server.args + c.skip(3) =~= own);
    let d = seq!["-V"@];
    assert(d[0] == "-V"@);
    assert(invocation(d, 1, Invocation { version_only: true, ..none }).version_only);
}

/// An invocation that is not for our own server, or whose subcommand is not one of those
/// that are served, is left to the real program without a word; whether the version is
/// asked for is looked at first.
pub proof fn law_what_is_not_served_is_passed_on(
    args: Seq<Seq<char>>,
    env: ShimEnv,
    seq: u64,
    before: Console,
    after: Console,
    step: ShimStep,
)
    requires
        shim_started(args, env, seq, before, after, step),
    ensures
        ({
            let inv = invocation(args, 0, no_invocation());
            let foreign = inv.named_socket is Some || inv.subcommand is None || (
            env.socket_path is None && env.tmux is None);
            &&& inv.version_only ==> step == ShimStep::Exit(0) && after.out_lines()
                == before.out_lines().push("tmux 3.5a (karvex-compat)"@) && after.err_lines()
                == before.err_lines()
            &&& !inv.version_only && foreign ==> step is Passthrough && after == before
            &&& step is Passthrough ==> after == before
        }),
{
    let inv = invocation(args, 0, no_invocation());
    if inv.version_only {
        assert(after.out_lines() =~= before.out_lines().push("tmux 3.5a (karvex-compat)"@));
        assert(after.err_lines() =~= before.err_lines());
    }
    lemma_never_passed_on(inv, env, seq, before, after, step);
}

proof fn lemma_never_passed_on(
    inv: Invocation,
    env: ShimEnv,
    seq: u64,
    before: Console,
    after: Console,
    step: ShimStep,
)
    ensures
        inv.subcommand is Some && served(inv.subcommand->0, inv.args, env, seq, before, after, step)
            && step is Passthrough ==> after == before,
{
}

/// Our own socket is the one its variable names, without blanks around it; else the first
/// of the fields of `TMUX`; and a request for another one is not for us.
pub proof fn law_our_socket_is_the_one_we_are_told(
    own: Option<Seq<char>>,
    tmux: Option<Seq<char>>,
    inv: Invocation,
    requested_file: Option<Seq<char>>,
    own_file: Option<Seq<char>>,
)
    ensures
        (own matches Some(p) && trim(p).len() > 0) ==> socket_of(own, tmux) == Some(trim(own->0)),
        own is None && tmux is None ==> socket_of(own, tmux) is None,
        (own is None && (tmux matches Some(t) && !t.contains(',') && trim(t).len() > 0))
            ==> socket_of(own, tmux) == Some(trim(tmux->0)),
        forall|first: Seq<char>, rest: Seq<char>|
            own is None && !first.contains(',') && trim(first).len() > 0 && tmux == Some(
                #[trigger] (first.push(',') + rest),
            ) ==> socket_of(own, tmux) == Some(trim(first)),
        serviced(inv, socket_of(own, tmux), requested_file, own_file) && (inv.socket_path matches Some(
            p,
        ) && trim(p) != trim(socket_of(own, tmux)->0)) ==> requested_file is Some && requested_file
            == own_file,
{
    if let Some(t) = tmux {
        crate::laws::words::law_a_text_is_parted_at_the_first_place(t, ',');
        assert forall|first: Seq<char>, rest: Seq<char>|
            own is None && !first.contains(',') && trim(first).len() > 0 && tmux == Some(
                #[trigger] (first.push(',') + rest),
            ) implies socket_of(own, tmux) == Some(trim(first)) by {
            crate::text::lemma_char_pos(t, ',');
            assert(t[first.len() as int] == ',');
            assert(forall|j: int| 0 <= j < first.len() ==> t[j] == #[trigger] first[j]);
            let p = crate::text::char_pos(t, ',')->0;
            if p < first.len() {
                assert(first[p] == ',');
            }
            assert(t.take(first.len() as int) =~= first);
        }
    }
}

// ---------------------------------------------------------------------------
// Accents
// ---------------------------------------------------------------------------

/// The style of a pane tells its accent where it is a style of the pane or its border and
/// its foreground is one of the colours that are known; a blank foreground takes the accent
/// away, and nothing else has to do with it.
pub proof fn law_an_accent_is_the_foreground(option: Seq<char>, colour: Seq<char>, plan: AccentPlan)
    requires
        accent_is(option, "fg="@ + colour, plan),
        !colour.contains(','),
    ensures
        ({
            let styles = option == "window-style"@ || option == "pane-border-style"@ || option
                == "pane-active-border-style"@;
            let name = trim(colour);
            let same = name == "red"@ || name == "blue"@ || name == "green"@ || name == "yellow"@
                || name == "magenta"@ || name == "cyan"@;
            &&& !styles ==> plan is NotAccent
            &&& styles && name.len() == 0 ==> plan is Clear
            &&& styles && name.len() > 0 && same ==> (plan matches AccentPlan::SetTo(c) && c@
                == name)
            &&& styles && name.len() > 0 && !same && name == "colour208"@ ==> (plan matches AccentPlan::SetTo(
                c,
            ) && c@ == "orange"@)
            &&& styles && name.len() > 0 && !same && name != "colour208"@ && name == "colour205"@
                ==> (plan matches AccentPlan::SetTo(c) && c@ == "pink"@)
            &&& styles && name.len() > 0 && !same && name != "colour208"@ && name != "colour205"@
                ==> plan is Unknown
        }),
{
    reveal_strlit("fg=");
    let value = "fg="@ + colour;
    assert(!value.contains(',')) by {
        if value.contains(',') {
            let i = choose|i: int| 0 <= i < value.len() && value[i] == ',';
            if i >= 3 {
                assert(colour[i - 3] == ',');
            }
        }
    }
    crate::laws::words::law_a_text_is_parted_at_the_first_place(value, ',');
    assert("fg="@ =~= value.subrange(0, 3));
    assert(value.skip(3) =~= colour);
}

/// An accent is told of the pane it is set on, under one name and by one source, with the
/// colour it is set to or none where it is taken away.
pub proof fn law_an_accent_is_told_of_its_pane(
    colour: Option<String>,
    pane: Seq<char>,
    seq: u64,
    before: Console,
    after: Console,
    step: ShimStep,
)
    requires
        pane_used(PaneUse::Accent { colour }, pane, seq, before, after, step),
    ensures
        after == before,
        step matches ShimStep::Request { delay_ms, method, then, .. } && delay_ms == 0 && then
            is Quiet && (method matches ShimMethod::PaneReportMetadata {
            pane_id,
            source,
            token,
            value,
            seq: s,
        } && pane_id@ == pane && source@ == "karvex:tmux-compat"@ && token@ == "agent_accent"@
            && value == colour && s == seq),
{
}

/// `display-message` prints the id of the pane, the id of its window, or what it is asked
/// for otherwise, by the last format that is given.
pub proof fn law_a_pane_is_printed_by_its_own_id(
    pane: Seq<char>,
    pane_text: String,
    panes: Vec<ShimPane>,
    k: int,
    seq: u64,
    before: Console,
    after: Console,
    step: ShimStep,
)
    ensures
        pane_used(PaneUse::PrintPane, pane, seq, before, after, step) ==> step == ShimStep::Exit(0)
            && after.out_lines() == before.out_lines().push(pane) && after.err_lines()
            == before.err_lines(),
        (0 <= k < panes@.len() && panes@[k].pane_id@ == pane_text@ && (forall|j: int|
            0 <= j < k ==> (#[trigger] panes@[j]).pane_id@ != pane_text@) && panes_handled(
            PanesPending::PrintWindow { pane_id: pane_text },
            Ok(panes),
            before,
            after,
            step,
        )) ==> step == ShimStep::Exit(0) && after.out_lines() == before.out_lines().push(
            panes@[k].tab_id@,
        ) && after.err_lines() == before.err_lines(),
{
    if pane_used(PaneUse::PrintPane, pane, seq, before, after, step) {
        assert(after.out_lines() =~= before.out_lines().push(pane));
        assert(after.err_lines() =~= before.err_lines());
    }
    if 0 <= k < panes@.len() && panes@[k].pane_id@ == pane_text@ && (forall|j: int|
        0 <= j < k ==> (#[trigger] panes@[j]).pane_id@ != pane_text@) && panes_handled(
        PanesPending::PrintWindow { pane_id: pane_text },
        Ok(panes),
        before,
        after,
        step,
    ) {
        lemma_pane_at(panes@, 0, k);
        assert(after.out_lines() =~= before.out_lines().push(panes@[k].tab_id@));
        assert(after.err_lines() =~= before.err_lines());
    }
}

/// A refusal of the server fails the invocation in the server's own words, as one plain
/// line behind the name of the program.
pub proof fn law_a_refusal_is_told_in_the_servers_words(
    reply: Reply,
    r: Result<Reply, String>,
    message: Seq<char>,
)
    requires
        answer_is(Ok(reply), r),
    ensures
        member(reply.value, "error"@) is None ==> r == Ok::<Reply, String>(reply),
        (member(reply.value, "error"@) matches Some(error) && crate::json::text_at(
            error,
            "message"@,
        ) == Some(message) && forall|i: int|
            0 <= i < message.len() ==> (#[trigger] message[i]) != '\n' && message[i] != '\r'
                && message[i] != '{' && message[i] != '}') ==> (r matches Err(m) && m@
            == "karvex tmux-compat: "@ + message),
{
    if forall|i: int|
        0 <= i < message.len() ==> (#[trigger] message[i]) != '\n' && message[i] != '\r'
            && message[i] != '{' && message[i] != '}' {
        assert(plain_line(message) =~= message);
    }
}

/// The real program is the first of the candidates that is a file and not this program.
pub proof fn law_the_real_program_is_the_first_other_one(
    cs: Seq<Candidate>,
    own: Option<Seq<char>>,
    i: int,
    k: int,
)
    requires
        0 <= i <= k < cs.len(),
        cs[k].is_file,
        own is None || opt_text(cs[k].file) != own,
        forall|j: int|
            i <= j < k ==> !(#[trigger] cs[j]).is_file || (own is Some && opt_text(cs[j].file)
                == own),
    ensures
        first_real(cs, own, i) == Some(cs[k].path@),
    decreases k - i,
{
    if i < k {
        assert(!cs[i].is_file || (own is Some && opt_text(cs[i].file) == own));
        law_the_real_program_is_the_first_other_one(cs, own, i + 1, k);
    }
}

} // verus!
