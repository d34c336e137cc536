//! What words, verbs and small decisions promise.

use crate::app::effects::{
    channel_word, failure_detail, failure_kind, priority_word, DeliveryChannel, Effect, Priority,
    RunFailure, StoreWrite,
};
use crate::app::lead::{
    blocks, counted_on, marked_running, rearmed, support_assumed, support_code, LiveLeadRun,
    MessagingSupport,
};
use crate::app::lead_talk::{message_error_text, RunMessageError};
use crate::app::review::{cycle_rearmed, LiveReviewCycle};
use crate::app::review_start::{status_word, usable_workspace};
use crate::app::store::{clock_reading, state_word, HandleState};
use crate::cli::node_args::node_target_is;
use crate::cli::run_args::run_target_is;
use crate::cli::sessions::{attach_scan, attach_target_is};
use crate::cli::tmux::file_stem;
use crate::cli::verbs::{choice, Choice, Page, Verb};
use crate::console::Console;
use crate::laws::files::is_name;
use crate::model::RunStatus;
use crate::path::{prefix_kind, PrefixKind};
use crate::text::{has_part, join, texts};
use crate::wire::{WorkflowNodeTarget, WorkflowRunTarget};
use vstd::prelude::*;

verus! {

// ---------------------------------------------------------------------------
// Words
// ---------------------------------------------------------------------------

/// Failures, channels, priorities, states and what is known of messaging each go by one word.
pub proof fn law_each_thing_goes_by_one_word(
    failure: RunFailure,
    channel: DeliveryChannel,
    priority: Priority,
    state: HandleState,
    support: MessagingSupport,
)
    ensures
        failure is LeadUnbound ==> failure_kind(failure) == "lead_unbound"@,
        failure is LeadExited ==> failure_kind(failure) == "lead_exited"@,
        failure matches RunFailure::LeadUnbound { detail, .. } ==> failure_detail(failure)
            == detail@,
        failure is LeadExited ==> failure_detail(failure)
            == "the run's team lead exited without calling `kvx workflow run finish`"@,
        channel is InboxSocket ==> channel_word(channel) == "inbox_socket"@,
        channel is PaneInput ==> channel_word(channel) == "pane_input"@,
        priority is Now ==> priority_word(priority) == "now"@,
        priority is Next ==> priority_word(priority) == "next"@,
        priority is Later ==> priority_word(priority) == "later"@,
        state is Unopened ==> state_word(state) == "unopened"@,
        state is Open ==> state_word(state) == "open"@,
        state is Unavailable ==> state_word(state) == "unavailable"@,
        support is Available ==> support_code(support) == "available"@,
        support is KillSwitchSuspected ==> support_code(support) == "kill_switch_suspected"@,
        support is UnsupportedPlatform ==> support_code(support) == "unsupported_platform"@,
        support is ClaudeTooOld ==> support_code(support) == "claude_too_old"@,
{
}

/// A run's status reads as what it is.
pub proof fn law_a_status_reads_as_it_is(status: RunStatus)
    ensures
        status is Pending ==> status_word(status) == "pending"@,
        status is Running ==> status_word(status) == "running"@,
        status is Paused ==> status_word(status) == "paused"@,
        status is Succeeded ==> status_word(status) == "succeeded"@,
        status is Failed ==> status_word(status) == "failed"@,
        status is Cancelled ==> status_word(status) == "cancelled"@,
{
}

/// A message that was not sent tells why: an unknown target which sessions there are, a
/// session without a socket its name, and a failed write or a refusal its own words.
pub proof fn law_an_unsent_message_tells_why(error: RunMessageError, agent: Seq<char>)
    ensures
        error matches RunMessageError::Unsupported(detail) ==> message_error_text(error, agent)
            == detail@,
        error matches RunMessageError::BadMessage(detail) ==> message_error_text(error, agent)
            == detail@,
        error matches RunMessageError::WriteFailed(detail) ==> has_part(
            message_error_text(error, agent),
            detail@,
        ),
        error matches RunMessageError::TargetNotAddressable { name } ==> has_part(
            message_error_text(error, agent),
            name@,
        ) && has_part(message_error_text(error, agent), agent),
        error matches RunMessageError::UnknownTarget { known, .. } ==> has_part(
            message_error_text(error, agent),
            if known@.len() == 0 {
                "nothing yet"@
            } else {
                join(texts(known@), ", "@)
            },
        ),
        error is NoLiveRun ==> message_error_text(error, agent)
            == "no workflow run is live on this server"@,
{
    broadcast use {
        crate::laws::places::lemma_part_of_either,
        crate::laws::places::lemma_part_of_itself,
    };

}

// ---------------------------------------------------------------------------
// Decisions
// ---------------------------------------------------------------------------

/// What was found out about messaging is what is taken to be so. Where nothing was, the
/// program counts as too old; and only a platform or a program that cannot send keeps
/// messages back, never a suspicion.
pub proof fn law_a_suspicion_keeps_no_message_back(
    classified: Option<MessagingSupport>,
    r: MessagingSupport,
)
    requires
        support_assumed(classified, r),
    ensures
        classified matches Some(s) ==> r == s,
        classified is None ==> (r matches MessagingSupport::ClaudeTooOld { found, required }
            && found@ == "unknown"@ && required@ == "2.1.224"@),
        blocks(r) <==> r is UnsupportedPlatform || r is ClaudeTooOld,
{
}

/// A run and a review are looked at again two seconds on, or at the end of time, and nothing
/// else of them changes.
pub proof fn law_the_next_look_is_two_seconds_on(
    run: LiveLeadRun,
    cycle: LiveReviewCycle,
    now_ms: u64,
)
    ensures
        now_ms + 2000 <= u64::MAX ==> (rearmed(run, now_ms).next_poll_at_ms matches Some(at) && at
            == now_ms + 2000),
        now_ms + 2000 > u64::MAX ==> rearmed(run, now_ms).next_poll_at_ms == Some(u64::MAX),
        rearmed(run, now_ms) == (LiveLeadRun {
            next_poll_at_ms: rearmed(run, now_ms).next_poll_at_ms,
            ..run
        }),
        now_ms + 2000 <= u64::MAX ==> (cycle_rearmed(cycle, now_ms).next_poll_at_ms matches Some(
            at,
        ) && at == now_ms + 2000),
        cycle_rearmed(cycle, now_ms) == (LiveReviewCycle {
            next_poll_at_ms: cycle_rearmed(cycle, now_ms).next_poll_at_ms,
            ..cycle
        }),
{
}

/// Entries of a journal are counted one by one, so that no two have a number in common while
/// the numbers last.
pub proof fn law_entries_are_counted_one_by_one(run: LiveLeadRun)
    ensures
        run.journal_seq < u64::MAX ==> counted_on(run).journal_seq == run.journal_seq + 1,
        run.journal_seq == u64::MAX ==> counted_on(run).journal_seq == u64::MAX,
        counted_on(run) == (LiveLeadRun { journal_seq: counted_on(run).journal_seq, ..run }),
{
}

/// A run that starts is written down as going, with no end, behind all that was to be done
/// before.
pub proof fn law_a_started_run_is_written_down_as_going(
    run_id: Seq<char>,
    before: Seq<Effect>,
    after: Seq<Effect>,
)
    requires
        marked_running(run_id, before, after),
    ensures
        after.len() == before.len() + 1,
        forall|k: int| 0 <= k < before.len() ==> after[k] == #[trigger] before[k],
        after.last() matches Effect::Write(
            StoreWrite::RunStatus { run, status, ended_at_unix_ms },
        ) && run@ == run_id && status is Running && ended_at_unix_ms is None,
{
    assert forall|k: int| 0 <= k < before.len() implies after[k] == #[trigger] before[k] by {
        assert(after.drop_last()[k] == before[k]);
    }
}

/// Panes of a review open in the workspace that is active, if it has a tab at all.
pub proof fn law_reviews_open_in_the_active_workspace(active: Option<usize>, tabs: Seq<usize>)
    ensures
        usable_workspace(active, tabs) matches Some(i) ==> active == Some(i) && i < tabs.len()
            && tabs[i as int] > 0,
        (active matches Some(i) && i < tabs.len() && tabs[i as int] > 0) ==> usable_workspace(
            active,
            tabs,
        ) == active,
{
}

/// A clock before its beginning shows nothing, and one that has run over shows its end.
pub proof fn law_a_clock_never_turns_over(ms: u128)
    ensures
        clock_reading(None) == 0,
        ms <= u64::MAX ==> clock_reading(Some(ms)) == ms,
        ms > u64::MAX ==> clock_reading(Some(ms)) == u64::MAX,
{
}

// ---------------------------------------------------------------------------
// Operands
// ---------------------------------------------------------------------------

/// A command about a run takes that run, one about a node its run and its path, and at most
/// that the answer is wanted as it is; anything else is told how the command is written.
pub proof fn law_operands_are_taken_as_they_stand(
    args: Seq<String>,
    usage: Seq<char>,
    run: Result<(WorkflowRunTarget, bool), String>,
    node: Result<(WorkflowNodeTarget, bool), String>,
)
    ensures
        run_target_is(run, args, usage) ==> {
            let json = args.len() == 2 && args[1]@ == "--json"@;
            &&& args.len() == 1 || json ==> (run matches Ok((t, j)) && t.run_id == args[0] && j
                == json)
            &&& !(args.len() == 1 || json) ==> (run matches Err(m) && m@ == usage)
        },
        node_target_is(node, args, usage) ==> {
            let json = args.len() == 3 && args[2]@ == "--json"@;
            &&& args.len() == 2 || json ==> (node matches Ok((t, j)) && t.run_id == args[0]
                && t.path == args[1] && j == json)
            &&& !(args.len() == 2 || json) ==> (node matches Err(m) && m@ == usage)
        },
{
    assert(texts(args).len() == args.len());
    if args.len() > 1 {
        assert(texts(args)[1] == args[1]@);
    }
    if args.len() > 2 {
        assert(texts(args)[2] == args[2]@);
    }
}

/// An attach has the target that stands first and takes over where that was read; without a
/// target it is told how it is written.
pub proof fn law_an_attach_has_the_target_that_stands_first(
    args: Seq<Seq<char>>,
    usage: Seq<char>,
    before: Console,
    after: Console,
    r: Result<(String, bool), i32>,
)
    requires
        attach_target_is(args, usage, before, after, r),
    ensures
        args.len() == 0 ==> r == Err::<(String, bool), i32>(2) && after.err_lines()
            == before.err_lines() + seq![usage],
        r matches Ok((target, takeover)) ==> after == before && args.len() > 0 && target@ == args[0]
            && attach_scan(args, 1, usage, false) == Ok::<bool, (Seq<char>, i32)>(takeover),
        after.out_lines() == before.out_lines(),
{
    assert(before.out_lines() + Seq::<Seq<char>>::empty() =~= before.out_lines());
}

/// A program goes by its name without the extension.
pub proof fn law_a_program_goes_by_its_name(dir: Seq<char>, stem: Seq<char>, ext: Seq<char>)
    requires
        stem.len() > 0,
        !ext.contains('.'),
        is_name(stem.push('.') + ext, false),
    ensures
        file_stem(dir + seq!['/'] + (stem.push('.') + ext), false) == stem,
        is_name(ext, false) ==> file_stem(dir + seq!['/'] + ext, false) == ext,
{
    let name = stem.push('.') + ext;
    assert(prefix_kind(dir + seq!['/'] + name, false) == PrefixKind::Nothing);
    crate::laws::files::law_an_extension_follows_the_last_dot(dir, stem, ext, false);
    crate::laws::files::law_a_file_goes_by_what_follows_the_last_separator(dir, '/', name, false);
    assert(name.take(name.len() - ext.len() - 1) =~= stem);
    if is_name(ext, false) {
        assert(prefix_kind(dir + seq!['/'] + ext, false) == PrefixKind::Nothing);
        crate::laws::files::law_a_file_goes_by_what_follows_the_last_separator(
            dir,
            '/',
            ext,
            false,
        );
    }
}

// ---------------------------------------------------------------------------
// Verbs
// ---------------------------------------------------------------------------

proof fn lemma_first_words()
    ensures
        "list"@ != "run"@ && "list"@ != "node"@ && "list"@ != "summary"@ && "list"@ != "review"@,
        "show"@ != "run"@ && "show"@ != "node"@ && "show"@ != "summary"@ && "show"@ != "review"@,
        "create"@ != "run"@ && "create"@ != "node"@ && "create"@ != "summary"@ && "create"@
            != "review"@,
        "update"@ != "run"@ && "update"@ != "node"@ && "update"@ != "summary"@ && "update"@
            != "review"@,
        "list"@ != "show"@ && "list"@ != "create"@ && "list"@ != "update"@,
        "show"@ != "create"@ && "show"@ != "update"@ && "create"@ != "update"@,
        "run"@ != "node"@ && "run"@ != "summary"@ && "run"@ != "review"@,
        "node"@ != "summary"@ && "node"@ != "review"@ && "summary"@ != "review"@,
{
    reveal_strlit("list");
    reveal_strlit("show");
    reveal_strlit("create");
    reveal_strlit("update");
    reveal_strlit("run");
    reveal_strlit("node");
    reveal_strlit("summary");
    reveal_strlit("review");
    assert("list"@.len() == 4 && "list"@[0] == 'l');
    assert("show"@.len() == 4 && "show"@[0] == 's');
    assert("node"@.len() == 4 && "node"@[0] == 'n');
    assert("create"@.len() == 6 && "create"@[0] == 'c');
    assert("update"@.len() == 6 && "update"@[0] == 'u');
    assert("review"@.len() == 6 && "review"@[0] == 'r');
    assert("run"@.len() == 3 && "summary"@.len() == 7);
}

/// A word of its own is a verb about workflows, with the arguments behind it.
pub proof fn law_a_verb_about_workflows_is_one_word(args: Seq<Seq<char>>)
    requires
        args.len() > 0,
    ensures
        args[0] == "list"@ ==> choice(args) == (Choice::Verb { verb: Verb::List, words: 1 }),
        args[0] == "show"@ ==> choice(args) == (Choice::Verb { verb: Verb::Show, words: 1 }),
        args[0] == "create"@ ==> choice(args) == (Choice::Verb { verb: Verb::Create, words: 1 }),
        args[0] == "update"@ ==> choice(args) == (Choice::Verb { verb: Verb::Update, words: 1 }),
{
    lemma_first_words();
}

/// Within a group the second word is the verb, with the arguments behind it. A group without
/// a verb it knows shows its own page, as help where that was asked for; and so does a
/// command line without anything the page of all.
pub proof fn law_a_verb_of_a_group_is_two_words(args: Seq<Seq<char>>)
    ensures
        args.len() == 0 ==> choice(args) == (Choice::Help { page: Page::Workflow, asked: false }),
        args.len() == 1 && args[0] == "run"@ ==> choice(args) == (Choice::Help {
            page: Page::Run,
            asked: false,
        }),
        args.len() == 1 && args[0] == "node"@ ==> choice(args) == (Choice::Help {
            page: Page::Node,
            asked: false,
        }),
        args.len() == 1 && args[0] == "summary"@ ==> choice(args) == (Choice::Help {
            page: Page::Summary,
            asked: false,
        }),
        args.len() == 1 && args[0] == "review"@ ==> choice(args) == (Choice::Help {
            page: Page::Review,
            asked: false,
        }),
        args.len() >= 2 ==> forall|verb: Verb|
            #[trigger] second_word(verb) == Some((args[0], args[1])) ==> choice(args)
                == (Choice::Verb { verb, words: 2 }),
{
    lemma_first_words();
    if args.len() >= 2 {
        assert forall|verb: Verb|
            #[trigger] second_word(verb) == Some((args[0], args[1])) implies choice(args)
            == (Choice::Verb { verb, words: 2 }) by {
            lemma_second_words();
        }
    }
}

/// The two words of a verb within a group.
pub open spec fn second_word(verb: Verb) -> Option<(Seq<char>, Seq<char>)> {
    match verb {
        Verb::RunStart => Some(("run"@, "start"@)),
        Verb::RunList => Some(("run"@, "list"@)),
        Verb::RunShow => Some(("run"@, "show"@)),
        Verb::RunCancel => Some(("run"@, "cancel"@)),
        Verb::RunFinish => Some(("run"@, "finish"@)),
        Verb::RunMessage => Some(("run"@, "message"@)),
        Verb::RunReportSession => Some(("run"@, "report-session"@)),
        Verb::NodeShow => Some(("node"@, "show"@)),
        Verb::NodeSteer => Some(("node"@, "steer"@)),
        Verb::NodeInterrupt => Some(("node"@, "interrupt"@)),
        Verb::NodeRestart => Some(("node"@, "restart"@)),
        Verb::NodeComplete => Some(("node"@, "complete"@)),
        Verb::NodeExpand => Some(("node"@, "expand"@)),
        Verb::NodeInterrogate => Some(("node"@, "interrogate"@)),
        Verb::SummaryShow => Some(("summary"@, "show"@)),
        Verb::SummaryList => Some(("summary"@, "list"@)),
        Verb::ReviewStart => Some(("review"@, "start"@)),
        Verb::ReviewShow => Some(("review"@, "show"@)),
        Verb::ReviewApply => Some(("review"@, "apply"@)),
        Verb::ReviewAnswer => Some(("review"@, "answer"@)),
        Verb::ReviewReport => Some(("review"@, "report"@)),
        _ => None,
    }
}

proof fn lemma_second_words()
    ensures
        "start"@ != "list"@ && "start"@ != "show"@ && "list"@ != "show"@,
        "cancel"@ != "start"@ && "cancel"@ != "list"@ && "cancel"@ != "show"@,
        "finish"@ != "start"@ && "finish"@ != "list"@ && "finish"@ != "show"@ && "finish"@
            != "cancel"@,
        "report-session"@ != "start"@ && "report-session"@ != "list"@ && "report-session"@
            != "show"@ && "report-session"@ != "cancel"@ && "report-session"@ != "finish"@,
        "message"@ != "start"@ && "message"@ != "list"@ && "message"@ != "show"@ && "message"@
            != "cancel"@ && "message"@ != "finish"@ && "message"@ != "report-session"@,
        "steer"@ != "show"@,
        "interrupt"@ != "show"@ && "interrupt"@ != "steer"@,
        "restart"@ != "show"@ && "restart"@ != "steer"@ && "restart"@ != "interrupt"@,
        "complete"@ != "show"@ && "complete"@ != "steer"@ && "complete"@ != "interrupt"@
            && "complete"@ != "restart"@,
        "expand"@ != "show"@ && "expand"@ != "steer"@ && "expand"@ != "interrupt"@ && "expand"@
            != "restart"@ && "expand"@ != "complete"@,
        "interrogate"@ != "show"@ && "interrogate"@ != "steer"@ && "interrogate"@ != "interrupt"@
            && "interrogate"@ != "restart"@ && "interrogate"@ != "complete"@ && "interrogate"@
            != "expand"@,
        "apply"@ != "start"@ && "apply"@ != "show"@,
        "answer"@ != "start"@ && "answer"@ != "show"@ && "answer"@ != "apply"@,
        "report"@ != "start"@ && "report"@ != "show"@ && "report"@ != "apply"@ && "report"@
            != "answer"@,
{
    reveal_strlit("start");
    reveal_strlit("list");
    reveal_strlit("show");
    reveal_strlit("cancel");
    reveal_strlit("finish");
    reveal_strlit("message");
    reveal_strlit("report-session");
    reveal_strlit("steer");
    reveal_strlit("interrupt");
    reveal_strlit("restart");
    reveal_strlit("complete");
    reveal_strlit("expand");
    reveal_strlit("interrogate");
    reveal_strlit("apply");
    reveal_strlit("answer");
    reveal_strlit("report");
    assert("start"@.len() == 5 && "list"@.len() == 4 && "show"@.len() == 4 && "steer"@.len() == 5);
    assert("list"@[0] == 'l' && "show"@[0] == 's');
    assert("cancel"@.len() == 6 && "cancel"@[0] == 'c');
    assert("finish"@.len() == 6 && "finish"@[0] == 'f');
    assert("message"@.len() == 7 && "restart"@.len() == 7 && "report-session"@.len() == 14);
    assert("interrupt"@.len() == 9 && "complete"@.len() == 8 && "expand"@.len() == 6);
    assert("interrogate"@.len() == 11);
    assert("apply"@.len() == 5 && "apply"@[0] == 'a' && "start"@[0] == 's');
    assert("answer"@.len() == 6 && "answer"@[0] == 'a');
    assert("report"@.len() == 6 && "report"@[0] == 'r');
}

} // verus!
