//! What driving a run promises.

use crate::app::effects::{Effect, PromptReason, RunFailure, StoreWrite};
use crate::app::lead::{
    cancelled, deadline, ended_without_finishing, failed_unbound, finished, launched, run_polled,
    summary_kept, task_files_of, BindDecision, BindEvidence, LeadDesk, LeadLaunch, LiveLeadRun,
    MemberChange, PollStart, ReportVerdict, TaskChange,
};
use crate::app::lead_talk::{absorbed, heard, plan_handed_over, team_decided};
use crate::app::review::TerminalInfo;
use crate::app::review_desk::reviews_polled;
use crate::app::store::{settled, HandleState, Opening};
use crate::app::tick::{ticked, Tick, WorkflowDesk};
use crate::laws::places::{filtered_places, rising};
use crate::model::RunStatus;
use crate::ordered::TextMap;
use crate::path::extension;
use crate::text::{byte_len, read_unsigned, trim};
use vstd::prelude::*;

verus! {

/// Whether the run of a desk is going on.
pub open spec fn goes_on(desk: LeadDesk) -> bool {
    desk.run is Some && !desk.run->0.closed
}

/// Two runs are the same but for what is named: whether it is closed.
pub open spec fn only_closed(before: LeadDesk, after: LeadDesk) -> bool {
    &&& before.run is Some && after.run is Some
    &&& after.run->0.closed
    &&& LiveLeadRun { closed: before.run->0.closed, ..after.run->0 } == before.run->0
}

/// A run is taken up under its own id, in the pane and the terminal of its lead, with its
/// plan still to be handed over; it is looked at at once, and no one has spoken yet.
pub proof fn law_a_run_starts_with_what_it_was_launched_with(launch: LeadLaunch, after: LeadDesk)
    requires
        launched(launch, after),
    ensures
        goes_on(after),
        after.run->0.run_id == launch.run_id,
        after.run->0.lead_pane_id == launch.lead_pane_id,
        after.run->0.lead_terminal_id == launch.lead_terminal_id,
        after.run->0.lead_cwd == launch.cwd,
        after.run->0.spawned_at_unix_ms == launch.spawned_at_unix_ms,
        after.run->0.seed_prompt == launch.seed_prompt,
        after.run->0.node_keys == launch.node_keys,
        after.run->0.messaging == launch.messaging,
        after.run->0.messaging_detail == launch.messaging_detail,
        !after.run->0.seeded,
        after.run->0.binding is None,
        after.run->0.lead_endpoint is None,
        after.run->0.next_poll_at_ms is None,
        after.run->0.journal_seq == 0,
        forall|pane: Seq<char>|
            !#[trigger] after.run->0.member_endpoints@.contains_key(pane),
        forall|pane: Seq<char>| !#[trigger] after.run->0.roster@.contains_key(pane),
{
}

/// A look at a run begins when it is due and not before, and puts the next one off by two
/// seconds. While the lead's terminal is there the files are read. Once it is gone the run
/// is closed and recorded as failed, with the team it had, and whoever listens is told.
pub proof fn law_a_run_is_looked_at_while_its_lead_is_there(
    before: LeadDesk,
    after: LeadDesk,
    now_ms: u64,
    present: bool,
    unix_ms: u64,
    asked: Seq<Effect>,
    asked_after: Seq<Effect>,
    r: PollStart,
)
    requires
        run_polled(before, after, now_ms, present, unix_ms, asked, asked_after, r),
        now_ms <= u64::MAX - 2000,
    ensures
        ({
            let due = goes_on(before) && (before.run->0.next_poll_at_ms is None
                || before.run->0.next_poll_at_ms->0 <= now_ms);
            &&& !due ==> r is NotDue && after == before && asked_after == asked
            &&& due ==> after.run is Some && after.run->0.next_poll_at_ms == Some(
                (now_ms + 2000) as u64,
            )
            &&& due && present ==> r is Look && asked_after == asked && !after.run->0.closed
                && after.run->0 == (LiveLeadRun {
                next_poll_at_ms: after.run->0.next_poll_at_ms,
                ..before.run->0
            })
            &&& due && !present ==> {
                &&& r is Ended
                &&& after.run->0.closed
                &&& asked_after.len() == asked.len() + 2
                &&& asked_after[asked.len() as int] matches Effect::Write(
                    StoreWrite::RunFailed { run, ended_at_unix_ms, failure },
                ) && run == before.run->0.run_id && ended_at_unix_ms == unix_ms && (
                failure matches RunFailure::LeadExited { team_name } && (before.run->0.binding is None
                    ==> team_name is None) && (before.run->0.binding matches Some(b) ==> team_name
                    == Some(b.team_name)))
                &&& asked_after[asked.len() as int + 1] == (Effect::RunFinished {
                    run_id: before.run->0.run_id,
                })
            }
        }),
{
}

/// A run that ends with its lead is closed and written about once: a second end changes
/// nothing and asks for nothing.
pub proof fn law_a_run_ends_once(
    before: LeadDesk,
    after: LeadDesk,
    ended_at: u64,
    asked: Seq<Effect>,
    asked_after: Seq<Effect>,
    r: bool,
    again: LeadDesk,
    later: u64,
    asked_again: Seq<Effect>,
    r2: bool,
)
    requires
        ended_without_finishing(before, after, ended_at, asked, asked_after, r),
        ended_without_finishing(after, again, later, asked_after, asked_again, r2),
    ensures
        r <==> goes_on(before),
        r ==> only_closed(before, after) && asked_after.len() == asked.len() + 2 && (
        asked_after[asked.len() as int] matches Effect::Write(
            StoreWrite::RunFailed { run, ended_at_unix_ms, failure },
        ) && run == before.run->0.run_id && ended_at_unix_ms == ended_at && failure is LeadExited)
            && asked_after[asked.len() as int + 1] == (Effect::RunFinished {
            run_id: before.run->0.run_id,
        }),
        !r ==> after == before && asked_after == asked,
        !r2 && again == after && asked_again == asked_after,
{
}

/// A run whose team was not recognised in time is closed, and recorded as failed with how
/// long was waited and why, in the given words.
pub proof fn law_a_run_without_a_team_fails(
    before: LeadDesk,
    after: LeadDesk,
    waited_ms: u64,
    reason: String,
    unix_ms: u64,
    asked: Seq<Effect>,
    asked_after: Seq<Effect>,
    r: bool,
)
    requires
        failed_unbound(before, after, waited_ms, reason, unix_ms, asked, asked_after, r),
    ensures
        r <==> before.run is Some,
        !r ==> after == before && asked_after == asked,
        r ==> only_closed(before, after) && asked_after == asked.push(
            Effect::Write(
                StoreWrite::RunFailed {
                    run: before.run->0.run_id,
                    ended_at_unix_ms: unix_ms,
                    failure: RunFailure::LeadUnbound { detail: reason, waited_ms },
                },
            ),
        ),
{
}

/// Finishing a run records it as succeeded at that time under its own id, and closes it
/// where it is the one that is driven; another one goes on as it was.
pub proof fn law_finishing_a_run_closes_that_run(
    before: LeadDesk,
    after: LeadDesk,
    run_id: Seq<char>,
    ended_at: u64,
    asked: Seq<Effect>,
    asked_after: Seq<Effect>,
)
    requires
        finished(before, after, run_id, ended_at, asked, asked_after),
    ensures
        (before.run matches Some(run) && run.run_id@ == run_id) ==> only_closed(before, after),
        !(before.run matches Some(run) && run.run_id@ == run_id) ==> after == before,
        asked_after.len() == asked.len() + 1,
        forall|i: int| 0 <= i < asked.len() ==> #[trigger] asked_after[i] == asked[i],
        asked_after[asked.len() as int] matches Effect::Write(
            StoreWrite::RunStatus { run, status, ended_at_unix_ms },
        ) && run@ == run_id && status == RunStatus::Succeeded && ended_at_unix_ms == Some(ended_at),
{
    assert forall|i: int| 0 <= i < asked.len() implies #[trigger] asked_after[i] == asked[i] by {
        assert(asked_after.drop_last()[i] == asked[i]);
    }
}

/// Cancelling closes the run of that id where it is going on, records it as cancelled and
/// closes the pane of its lead; it touches no other run.
pub proof fn law_cancelling_a_run_closes_its_pane(
    before: LeadDesk,
    after: LeadDesk,
    run_id: Seq<char>,
    ended_at: u64,
    asked: Seq<Effect>,
    asked_after: Seq<Effect>,
    r: bool,
)
    requires
        cancelled(before, after, run_id, ended_at, asked, asked_after, r),
    ensures
        r <==> goes_on(before) && before.run->0.run_id@ == run_id,
        !r ==> after == before && asked_after == asked,
        r ==> only_closed(before, after) && asked_after == asked.push(
            Effect::Write(
                StoreWrite::RunStatus {
                    run: before.run->0.run_id,
                    status: RunStatus::Cancelled,
                    ended_at_unix_ms: Some(ended_at),
                },
            ),
        ).push(Effect::ClosePane { pane_id: before.run->0.lead_pane_id }),
{
}

/// A summary is kept word for word with its outcome, for the run and the version it is of;
/// it is counted as a token for every four bytes.
pub proof fn law_a_summary_is_kept_word_for_word(
    run_id: Seq<char>,
    version: Seq<char>,
    text: String,
    outcome: String,
    asked: Seq<Effect>,
    asked_after: Seq<Effect>,
)
    requires
        summary_kept(run_id, version, text, outcome, asked, asked_after),
    ensures
        asked_after.len() == asked.len() + 1,
        asked_after[asked.len() as int] matches Effect::Write(
            StoreWrite::RunSummary {
                run,
                kvdag_version,
                text: kept,
                outcome: word,
                token_estimate,
                highlights,
                open_gaps,
                per_node,
                generated_by_path,
            },
        ) && run@ == run_id && kvdag_version@ == version && kept == text && word == outcome && (
        byte_len(text@) < 0x4_0000_0000 ==> token_estimate * 4 <= byte_len(text@) < token_estimate
            * 4 + 4) && highlights@.len() == 0 && open_gaps@.len() == 0 && per_node@.len() == 0
            && generated_by_path is None,
{
    assert(asked_after.last() == asked_after[asked.len() as int]);
}

/// A team is taken for the run's own once, while the run is going on: the run is bound to
/// it from then on, and that is written with the lead's pane and terminal. A run that has a
/// team, or is over, is bound to no other.
pub proof fn law_a_run_is_bound_to_one_team(
    before: LeadDesk,
    after: LeadDesk,
    decision: BindDecision,
    prompt_version: u32,
    unix_ms: u64,
    asked: Seq<Effect>,
    asked_after: Seq<Effect>,
    r: bool,
)
    requires
        team_decided(before, after, decision, prompt_version, unix_ms, asked, asked_after, r),
    ensures
        ({
            let open = goes_on(before) && before.run->0.binding is None;
            &&& !open || decision is Waiting ==> !r && after == before && asked_after == asked
            &&& open ==> (decision matches BindDecision::Bound { binding, evidence } ==> {
                let run = before.run->0;
                &&& r
                &&& after.run is Some
                &&& after.run->0.binding == Some(binding)
                &&& after.run->0.bind_evidence == Some(evidence)
                &&& after.run->0.split_pane_confirmed <==> run.split_pane_confirmed || evidence
                    == BindEvidence::InferredOwnPane
                &&& after.run->0.run_id == run.run_id && !after.run->0.closed
                    && after.run->0.seeded == run.seeded && after.run->0.roster == run.roster
                    && after.run->0.member_endpoints == run.member_endpoints
                &&& asked_after == asked.push(
                    Effect::Write(
                        StoreWrite::RunLeadBinding {
                            run: run.run_id,
                            lead_session_id: binding.lead_session_id,
                            team_name: binding.team_name,
                            lead_pane_id: Some(run.lead_pane_id),
                            lead_terminal_id: Some(run.lead_terminal_id),
                            lead_prompt_version: prompt_version,
                        },
                    ),
                )
            })
            &&& open ==> (decision matches BindDecision::Expired { waited_ms, reason } ==> {
                &&& r
                &&& only_closed(before, after)
                &&& asked_after == asked.push(
                    Effect::Write(
                        StoreWrite::RunFailed {
                            run: before.run->0.run_id,
                            ended_at_unix_ms: unix_ms,
                            failure: RunFailure::LeadUnbound { detail: reason, waited_ms },
                        },
                    ),
                )
            })
        }),
{
}

/// The lead is given its own plan, in its own pane, as soon as its team is known and it
/// takes prompts, and never again.
pub proof fn law_the_lead_is_given_its_plan_in_its_pane(
    before: LeadDesk,
    after: LeadDesk,
    ready: bool,
    asked: Seq<Effect>,
    asked_after: Seq<Effect>,
    r: bool,
    again: LeadDesk,
    asked_again: Seq<Effect>,
    r2: bool,
)
    requires
        plan_handed_over(before, after, ready, asked, asked_after, r),
        plan_handed_over(after, again, true, asked_after, asked_again, r2),
    ensures
        r <==> goes_on(before) && before.run->0.binding is Some && !before.run->0.seeded && ready,
        !r ==> after == before && asked_after == asked,
        r ==> asked_after == asked.push(
            Effect::Prompt {
                reason: PromptReason::LeadSeed,
                pane_id: before.run->0.lead_pane_id,
                text: before.run->0.seed_prompt,
            },
        ) && after.run == Some(LiveLeadRun { seeded: true, ..before.run->0 }) && !r2
            && asked_again == asked_after,
{
}

/// A look at the files of a run with a team takes over what the team calls its members,
/// and is worth telling exactly where a task or a member changed; a run without a team has
/// no files to look at.
pub proof fn law_a_look_takes_over_the_roster(
    before: LeadDesk,
    after: LeadDesk,
    split_confirmed: bool,
    roster: TextMap<String>,
    tasks: Seq<TaskChange>,
    members: Seq<MemberChange>,
    unix_ms: u64,
    asked: Seq<Effect>,
    asked_after: Seq<Effect>,
    r: bool,
)
    requires
        absorbed(
            before,
            after,
            split_confirmed,
            roster,
            tasks,
            members,
            unix_ms,
            asked,
            asked_after,
            r,
        ),
        asked_after.len() >= asked.len(),
    ensures
        ({
            let bound = before.run is Some && before.run->0.binding is Some;
            &&& !bound ==> !r && after == before && asked_after == asked
            &&& bound ==> {
                &&& r <==> tasks.len() > 0 || members.len() > 0
                &&& after.run is Some
                &&& after.run->0.roster == roster
                &&& after.run->0.split_pane_confirmed <==> before.run->0.split_pane_confirmed
                    || split_confirmed
                &&& after.run->0.run_id == before.run->0.run_id
                &&& after.run->0.binding == before.run->0.binding
                &&& after.run->0.closed == before.run->0.closed
                &&& after.run->0.member_endpoints == before.run->0.member_endpoints
                &&& asked_after.len() == asked.len() + tasks.len() + members.len() + (if tasks.len()
                    > 0 {
                    1int
                } else {
                    0int
                })
            }
        }),
{
}

/// A run that is over hears no report.
pub proof fn law_a_run_that_is_over_hears_nothing(
    before: LeadDesk,
    verdict: ReportVerdict,
    after: LeadDesk,
    r: bool,
)
    requires
        heard(before, verdict, after, r),
    ensures
        !goes_on(before) ==> !r && after == before,
        verdict is Ignored ==> !r && after == before,
        goes_on(before) ==> goes_on(after) && after.run->0.run_id == before.run->0.run_id,
{
}

/// A run may wait for its team as long as the variable says in milliseconds, where it says
/// a number above zero; otherwise as long as usual.
pub proof fn law_a_deadline_is_what_the_variable_says(v: Seq<char>, default_ms: u64, n: nat)
    ensures
        deadline(None, default_ms) == default_ms,
        read_unsigned(trim(v), u64::MAX as nat) is None ==> deadline(Some(v), default_ms)
            == default_ms,
        read_unsigned(trim(v), u64::MAX as nat) == Some(n) && n > 0 ==> deadline(
            Some(v),
            default_ms,
        ) == n,
        read_unsigned(trim(v), u64::MAX as nat) == Some(0nat) ==> deadline(Some(v), default_ms)
            == default_ms,
{
    if let Some(m) = read_unsigned(trim(v), u64::MAX as nat) {
        crate::laws::words::law_only_a_number_is_read_as_one(trim(v), u64::MAX as nat, m);
    }
}

proof fn lemma_task_files(entries: Seq<Seq<char>>, windows: bool) -> (places: Seq<int>)
    requires
        entries.len() <= 512,
    ensures
        rising(places, entries.len()),
        places.len() == task_files_of(entries, windows).len(),
        forall|j: int|
            0 <= j < places.len() ==> #[trigger] task_files_of(entries, windows)[j]
                == entries[places[j]] && extension(entries[places[j]], windows) == Some("json"@),
        forall|k: int|
            0 <= k < entries.len() && extension(#[trigger] entries[k], windows) == Some("json"@)
                ==> places.contains(k),
{
    let keep = |e: Seq<char>| extension(e, windows) == Some("json"@);
    let places = filtered_places(entries, keep);
    assert(task_files_of(entries, windows) == entries.filter(keep));
    assert forall|j: int| 0 <= j < places.len() implies #[trigger] task_files_of(entries, windows)[j]
        == entries[places[j]] && extension(entries[places[j]], windows) == Some("json"@) by {
        assert(keep(entries[places[j]]));
    }
    assert forall|k: int|
        0 <= k < entries.len() && extension(#[trigger] entries[k], windows) == Some(
            "json"@,
        ) implies places.contains(k) by {
        assert(keep(entries[k]));
    }
    places
}

/// The files of a task list are those with the ending of a task, in the order of the
/// directory, all of them among the first 512 entries and none beyond.
pub proof fn law_task_files_are_read_in_order(entries: Seq<Seq<char>>, windows: bool) -> (places:
    Seq<int>)
    ensures
        rising(places, entries.len()),
        places.len() == task_files_of(entries, windows).len(),
        forall|j: int|
            0 <= j < places.len() ==> places[j] < 512 && #[trigger] task_files_of(
                entries,
                windows,
            )[j] == entries[places[j]] && extension(entries[places[j]], windows) == Some("json"@),
        forall|k: int|
            0 <= k < entries.len() && k < 512 && extension(#[trigger] entries[k], windows) == Some(
                "json"@,
            ) ==> places.contains(k),
{
    let read = if entries.len() > 512 {
        entries.take(512)
    } else {
        entries
    };
    assert(forall|k: int| 0 <= k < read.len() ==> read[k] == #[trigger] entries[k]);
    assert(task_files_of(entries, windows) == task_files_of(read, windows));
    lemma_task_files(read, windows)
}

// ---------------------------------------------------------------------------
// A tick
// ---------------------------------------------------------------------------

/// A tick looks at the reviews first and then at the live run, whose lead is there exactly
/// where its terminal is among those of the server.
pub proof fn law_a_tick_looks_at_the_reviews_and_at_the_run(
    before: WorkflowDesk,
    after: WorkflowDesk,
    terminals: Map<Seq<char>, TerminalInfo>,
    now_ms: u64,
    now_unix_ms: u64,
    asked: Seq<Effect>,
    asked_after: Seq<Effect>,
    tick: Tick,
) -> (between: Seq<Effect>)
    requires
        ticked(before, after, terminals, now_ms, now_unix_ms, asked, asked_after, tick),
    ensures
        exists|moved: bool|
            reviews_polled(
                before.reviews,
                after.reviews,
                tick.syntheses@,
                moved,
                terminals,
                now_ms,
                now_unix_ms,
                asked,
                between,
            ) && (tick.changed <==> moved || tick.run is Ended),
        before.lead.run matches Some(run) ==> run_polled(
            before.lead,
            after.lead,
            now_ms,
            terminals.contains_key(run.lead_terminal_id@),
            now_unix_ms,
            between,
            asked_after,
            tick.run,
        ),
        before.lead.run is None ==> after.lead == before.lead && tick.run is NotDue && asked_after
            == between,
{
    let (between, moved) = choose|between: Seq<Effect>, reviews_changed: bool| #[trigger]
        reviews_polled(
            before.reviews,
            after.reviews,
            tick.syntheses@,
            reviews_changed,
            terminals,
            now_ms,
            now_unix_ms,
            asked,
            between,
        ) && run_polled(
            before.lead,
            after.lead,
            now_ms,
            crate::app::tick::lead_terminal_there(before.lead, terminals),
            now_unix_ms,
            between,
            asked_after,
            tick.run,
        ) && tick.changed == (reviews_changed || tick.run is Ended);
    assert(reviews_polled(
        before.reviews,
        after.reviews,
        tick.syntheses@,
        moved,
        terminals,
        now_ms,
        now_unix_ms,
        asked,
        between,
    ));
    between
}

// ---------------------------------------------------------------------------
// The store
// ---------------------------------------------------------------------------

/// The store is open exactly where its thread said that it is ready; otherwise the reason
/// is kept, its own where it gave one.
pub proof fn law_the_store_is_open_where_it_said_so(
    after: HandleState,
    opening: Opening,
)
    requires
        settled(HandleState::Unopened, after, opening),
    ensures
        after is Open <==> (opening matches Opening::Ready(r) && r is Ok),
        opening matches Opening::Ready(Err(u)) ==> after == HandleState::Unavailable(u),
        opening is NoThread || opening is Silent ==> (after matches HandleState::Unavailable(u)
            && u.code@ == "workflow_store_error"@),
        !(after is Unopened),
{
}

} // verus!
