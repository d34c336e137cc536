//! What speaking to the sessions of a run promises.

use crate::app::effects::{DeliveryChannel, Effect, Priority, StoreWrite};
use crate::app::lead::{
    LeadDesk, LiveLeadRun, MemberChange, ReportVerdict, SessionEndpoint, TaskChange,
};
use crate::app::lead_talk::{
    absorbed, created_paths, handed_over, is_news, member_targets, member_with, member_write,
    message_planned, projected, reported, session_outcome, target_index, target_info_is, target_is,
    targets, targets_are, task_write, Handover, HandoverOutcome, MessagePlan, RunMessageError,
    RunMessageReceipt, RunMessageTarget, TargetView, WorkflowRunMessageTargetInfo,
};
use crate::model::NodeStatus;
use crate::ordered::TextMap;
use crate::text::{byte_len, eq_ascii_case, opt_text, texts};
use vstd::prelude::*;

verus! {

broadcast use crate::text::group_texts;

/// How many targets stand before the members: the lead, where it is known.
pub open spec fn before_members(run: LiveLeadRun) -> int {
    if run.lead_endpoint is Some {
        1
    } else {
        0
    }
}

/// Every session of a live run that identified itself is a target, the lead first and under
/// its own name, then the members in the order of their panes; no one else is. A member is
/// called what the team calls the one in its pane; only one that the team has no name for
/// is called by its pane.
pub proof fn law_members_go_by_their_roster_names(
    desk: LeadDesk,
    ts: Seq<RunMessageTarget>,
    k: int,
)
    requires
        targets_are(ts, targets(desk)),
        desk.run matches Some(run) && !run.closed,
        0 <= k < desk.run->0.member_endpoints.entries@.len(),
    ensures
        ({
            let run = desk.run->0;
            let pane = run.member_endpoints.entries@[k].0@;
            let t = ts[before_members(run) + k];
            &&& ts.len() == before_members(run) + run.member_endpoints.entries@.len()
            &&& run.roster@.contains_key(pane) ==> t.name@ == run.roster@[pane]@
            &&& !run.roster@.contains_key(pane) ==> t.name@ == pane
            &&& t.pane_id is Some && t.pane_id->0@ == pane
            &&& t.endpoint == run.member_endpoints.entries@[k].1
        }),
{
    let run = desk.run->0;
    let e = run.member_endpoints.entries@[k];
    assert(member_targets(run)[k].pane_id == e.0@);
    assert(targets(desk)[before_members(run) + k] == member_targets(run)[k]);
    assert(target_is(ts[before_members(run) + k], targets(desk)[before_members(run) + k]));
}

/// The lead of a live run, once it identified itself, is the first target, under the name
/// of the lead and in the lead's pane; a run that is over has no targets at all.
pub proof fn law_the_lead_is_spoken_to_first(desk: LeadDesk, ts: Seq<RunMessageTarget>)
    requires
        targets_are(ts, targets(desk)),
    ensures
        (desk.run is None || desk.run->0.closed) ==> ts.len() == 0,
        (desk.run matches Some(run) && !run.closed && run.lead_endpoint is Some) ==> {
            let run = desk.run->0;
            &&& ts.len() == 1 + run.member_endpoints.entries@.len()
            &&& ts[0].name@ == "team-lead"@
            &&& ts[0].pane_id is Some && ts[0].pane_id->0@ == run.lead_pane_id@
            &&& ts[0].endpoint == run.lead_endpoint->0
        },
        (desk.run matches Some(run) && !run.closed && run.lead_endpoint is None) ==> ts.len()
            == desk.run->0.member_endpoints.entries@.len(),
{
    if (desk.run matches Some(run) && !run.closed && run.lead_endpoint is Some) {
        assert(target_is(ts[0], targets(desk)[0]));
    }
}

proof fn lemma_first_named(ts: Seq<TargetView>, name: Seq<char>, i: int, k: int)
    requires
        0 <= i <= k < ts.len(),
        eq_ascii_case(ts[k].name, name),
        forall|j: int| i <= j < k ==> !eq_ascii_case((#[trigger] ts[j]).name, name),
    ensures
        target_index(ts, name, i) == Some(k),
    decreases k - i,
{
    if i < k {
        assert(!eq_ascii_case(ts[i].name, name));
        lemma_first_named(ts, name, i + 1, k);
    }
}

proof fn lemma_none_named(ts: Seq<TargetView>, name: Seq<char>, i: int)
    requires
        0 <= i <= ts.len(),
        forall|j: int| i <= j < ts.len() ==> !eq_ascii_case((#[trigger] ts[j]).name, name),
    ensures
        target_index(ts, name, i) is None,
    decreases ts.len() - i,
{
    if i < ts.len() {
        assert(!eq_ascii_case(ts[i].name, name));
        lemma_none_named(ts, name, i + 1);
    }
}

/// A message to the name of a target, however its letters are cased, is planned for that
/// target's session wherever no earlier target has the name: into its inbox with its token
/// where it has one, and typed into its pane otherwise.
pub proof fn law_a_message_goes_to_the_session_it_names(
    desk: LeadDesk,
    ts: Seq<RunMessageTarget>,
    name: Seq<char>,
    k: int,
    r: Result<MessagePlan, RunMessageError>,
)
    requires
        targets_are(ts, targets(desk)),
        message_planned(desk, name, r),
        desk.run matches Some(run) && !run.closed && (run.messaging is Available
            || run.messaging is KillSwitchSuspected),
        0 <= k < ts.len(),
        eq_ascii_case(ts[k].name@, name),
        forall|j: int| 0 <= j < k ==> !eq_ascii_case((#[trigger] ts[j]).name@, name),
    ensures
        r matches Ok(plan) && plan.run_id == desk.run->0.run_id && plan.target.name@ == ts[k].name@
            && opt_text(plan.target.pane_id) == opt_text(ts[k].pane_id) && plan.target.endpoint
            == ts[k].endpoint && (match ts[k].endpoint.messaging_socket {
            Some(inbox) => plan.handover == (Handover::Inbox {
                socket: inbox,
                token: ts[k].endpoint.messaging_token,
                session_id: ts[k].endpoint.session_id,
            }),
            None => plan.handover matches Handover::Pane { pane_id } && Some(pane_id@) == opt_text(
                ts[k].pane_id,
            ),
        }),
{
    let vs = targets(desk);
    assert(target_is(ts[k], vs[k]));
    assert forall|j: int| 0 <= j < k implies !eq_ascii_case((#[trigger] vs[j]).name, name) by {
        assert(target_is(ts[j], vs[j]));
    }
    lemma_first_named(vs, name, 0, k);
}

/// A message to a member by the name that the team has for it reaches the session in that
/// member's pane, where no target before it has the name too.
pub proof fn law_a_message_to_a_member_reaches_its_pane(
    desk: LeadDesk,
    k: int,
    r: Result<MessagePlan, RunMessageError>,
)
    requires
        desk.run matches Some(run) && !run.closed && run.messaging is Available && 0 <= k
            < run.member_endpoints.entries@.len() && run.roster@.contains_key(
            run.member_endpoints.entries@[k].0@,
        ),
        message_planned(
            desk,
            desk.run->0.roster@[desk.run->0.member_endpoints.entries@[k].0@]@,
            r,
        ),
        forall|j: int|
            0 <= j < before_members(desk.run->0) + k ==> !eq_ascii_case(
                (#[trigger] targets(desk)[j]).name,
                desk.run->0.roster@[desk.run->0.member_endpoints.entries@[k].0@]@,
            ),
    ensures
        r matches Ok(plan) && plan.target.pane_id is Some && plan.target.pane_id->0@
            == desk.run->0.member_endpoints.entries@[k].0@ && plan.target.endpoint
            == desk.run->0.member_endpoints.entries@[k].1 && plan.target.name@
            == desk.run->0.roster@[desk.run->0.member_endpoints.entries@[k].0@]@,
{
    let run = desk.run->0;
    let vs = targets(desk);
    let name = run.roster@[run.member_endpoints.entries@[k].0@]@;
    let at = before_members(run) + k;
    assert(vs[at] == member_targets(run)[k]);
    assert(vs[at].name == name);
    crate::laws::words::law_case_does_not_matter(name, name);
    lemma_first_named(vs, name, 0, at);
}

/// A message is refused for what can be checked, and for nothing else: no run is live,
/// messages cannot be handed over here, no session identified itself, or none has the name;
/// then the refusal tells the name and those that would do.
pub proof fn law_a_message_is_refused_for_a_reason(
    desk: LeadDesk,
    ts: Seq<RunMessageTarget>,
    name: Seq<char>,
    r: Result<MessagePlan, RunMessageError>,
)
    requires
        targets_are(ts, targets(desk)),
        message_planned(desk, name, r),
    ensures
        ({
            let live = desk.run matches Some(run) && !run.closed;
            let barred = desk.run->0.messaging is UnsupportedPlatform || desk.run->0.messaging
                is ClaudeTooOld;
            let named = exists|k: int|
                0 <= k < ts.len() && eq_ascii_case((#[trigger] ts[k]).name@, name);
            &&& !live ==> r == Err::<MessagePlan, RunMessageError>(RunMessageError::NoLiveRun)
            &&& live && barred ==> r == Err::<MessagePlan, RunMessageError>(
                RunMessageError::Unsupported(desk.run->0.messaging_detail),
            )
            &&& live && !barred && ts.len() == 0 ==> r == Err::<MessagePlan, RunMessageError>(
                RunMessageError::NoAddressableSessions,
            )
            &&& live && !barred && ts.len() > 0 && !named ==> (r matches Err(
                RunMessageError::UnknownTarget { requested, known },
            ) && requested@ == name && known@.len() == ts.len() && forall|k: int|
                0 <= k < ts.len() ==> (#[trigger] known@[k])@ == ts[k].name@)
            &&& live && !barred && named ==> r is Ok
        }),
{
    let vs = targets(desk);
    assert forall|k: int| 0 <= k < ts.len() implies (#[trigger] ts[k]).name@ == vs[k].name by {
        assert(target_is(ts[k], vs[k]));
    }
    if exists|k: int| 0 <= k < ts.len() && eq_ascii_case((#[trigger] ts[k]).name@, name) {
        let k = choose|k: int| 0 <= k < ts.len() && eq_ascii_case((#[trigger] ts[k]).name@, name);
        assert(eq_ascii_case(vs[k].name, name));
        lemma_some_named(vs, name, 0, k);
    } else {
        assert forall|j: int| 0 <= j < vs.len() implies !eq_ascii_case(
            (#[trigger] vs[j]).name,
            name,
        ) by {
            assert(!eq_ascii_case(ts[j].name@, name));
        }
        lemma_none_named(vs, name, 0);
        if let Err(RunMessageError::UnknownTarget { requested, known }) = r {
            let names = vs.map_values(|t: TargetView| t.name);
            if texts(known@) == names {
                assert(texts(known@).len() == known@.len());
                assert forall|k: int| 0 <= k < ts.len() implies (#[trigger] known@[k])@
                    == ts[k].name@ by {
                    assert(texts(known@)[k] == names[k]);
                    assert(ts[k].name@ == vs[k].name);
                }
            }
        }
    }
}

proof fn lemma_some_named(ts: Seq<TargetView>, name: Seq<char>, i: int, k: int)
    requires
        0 <= i <= k < ts.len(),
        eq_ascii_case(ts[k].name, name),
    ensures
        target_index(ts, name, i) is Some,
    decreases k - i,
{
    if i < k && !eq_ascii_case(ts[i].name, name) {
        lemma_some_named(ts, name, i + 1, k);
    }
}

/// A message that was handed over is receipted and journalled as it went: to whom, into
/// which session and pane, by which way, how urgent, how long and when, under the run's
/// next number; the run changes in nothing but that number. One that was not handed over is
/// not journalled, and the failure is told in its own words.
pub proof fn law_a_delivery_is_journalled_as_it_went(
    before: LeadDesk,
    after: LeadDesk,
    plan: MessagePlan,
    outcome: HandoverOutcome,
    priority: Priority,
    text: Seq<char>,
    unix_ms: u64,
    asked: Seq<Effect>,
    asked_after: Seq<Effect>,
    r: Result<RunMessageReceipt, RunMessageError>,
)
    requires
        handed_over(before, after, plan, outcome, priority, text, unix_ms, asked, asked_after, r),
        before.run is Some,
        byte_len(text) <= u64::MAX,
    ensures
        !(outcome is Done) ==> after == before && asked_after == asked,
        outcome matches HandoverOutcome::BadMessage(m) ==> r == Err::<
            RunMessageReceipt,
            RunMessageError,
        >(RunMessageError::BadMessage(m)),
        outcome matches HandoverOutcome::WriteFailed(m) ==> r == Err::<
            RunMessageReceipt,
            RunMessageError,
        >(RunMessageError::WriteFailed(m)),
        outcome is Done ==> {
            let run = before.run->0;
            &&& asked_after.len() == asked.len() + 1
            &&& forall|i: int| 0 <= i < asked.len() ==> #[trigger] asked_after[i] == asked[i]
            &&& asked_after[asked.len() as int] matches Effect::Write(
                StoreWrite::MessageDelivered {
                    run: id,
                    seq,
                    target,
                    session_id,
                    pane_id,
                    channel,
                    priority: urgency,
                    text_bytes,
                    at_unix_ms,
                },
            ) && id == plan.run_id && seq == run.journal_seq && target == plan.target.name
                && session_id == plan.target.endpoint.session_id && pane_id == plan.target.pane_id
                && (channel == DeliveryChannel::InboxSocket <==> plan.handover is Inbox)
                && urgency == priority && text_bytes == byte_len(text) && at_unix_ms == unix_ms
            &&& after.run is Some
            &&& after.run->0.journal_seq == (if run.journal_seq == u64::MAX {
                run.journal_seq as int
            } else {
                run.journal_seq + 1
            })
            &&& after.run->0 == (LiveLeadRun { journal_seq: after.run->0.journal_seq, ..run })
            &&& r matches Ok(receipt) && receipt.target == plan.target.name && receipt.session_id
                == plan.target.endpoint.session_id && receipt.pane_id == plan.target.pane_id && (
            receipt.channel == DeliveryChannel::InboxSocket <==> plan.handover is Inbox)
        },
{
}

/// What a session says of itself is kept for the one it was taken for and for no one else,
/// and is news exactly where it differs from what was known.
pub proof fn law_a_report_is_kept_for_its_session(
    before: LiveLeadRun,
    verdict: ReportVerdict,
    after: LiveLeadRun,
    pane: Seq<char>,
)
    requires
        reported(before, verdict, after),
    ensures
        verdict matches ReportVerdict::Lead { endpoint } ==> after.lead_endpoint == Some(endpoint)
            && after.member_endpoints == before.member_endpoints && (is_news(before, verdict)
            <==> !(before.lead_endpoint matches Some(known) && known.session_id@
            == endpoint.session_id@ && opt_text(known.messaging_socket) == opt_text(
            endpoint.messaging_socket,
        ) && opt_text(known.messaging_token) == opt_text(endpoint.messaging_token))),
        verdict matches ReportVerdict::Member { pane_id, endpoint } ==> after.lead_endpoint
            == before.lead_endpoint && after.member_endpoints@.contains_key(pane_id@)
            && after.member_endpoints@[pane_id@] == endpoint && (pane != pane_id@ ==> (
        after.member_endpoints@.contains_key(pane) <==> before.member_endpoints@.contains_key(pane))
            && (before.member_endpoints@.contains_key(pane) ==> after.member_endpoints@[pane]
            == before.member_endpoints@[pane])) && (is_news(before, verdict) <==> !(
        before.member_endpoints@.contains_key(pane_id@)
            && before.member_endpoints@[pane_id@].session_id@ == endpoint.session_id@ && opt_text(
            before.member_endpoints@[pane_id@].messaging_socket,
        ) == opt_text(endpoint.messaging_socket) && opt_text(
            before.member_endpoints@[pane_id@].messaging_token,
        ) == opt_text(endpoint.messaging_token))),
        verdict is Ignored ==> after == before && !is_news(before, verdict),
        after.run_id == before.run_id,
        after.binding == before.binding,
        after.closed == before.closed,
        after.seeded == before.seeded,
        after.roster == before.roster,
        after.journal_seq == before.journal_seq,
{
}

proof fn lemma_member_with(entries: Seq<(String, SessionEndpoint)>, session: Seq<char>, i: int)
    requires
        0 <= i <= entries.len(),
    ensures
        member_with(entries, session, i) is None <==> forall|k: int|
            i <= k < entries.len() ==> (#[trigger] entries[k]).1.session_id@ != session,
        member_with(entries, session, i) matches Some(e) ==> exists|k: int|
            i <= k < entries.len() && #[trigger] entries[k].1 == e && e.session_id@ == session
                && forall|j: int| i <= j < k ==> (#[trigger] entries[j]).1.session_id@ != session,
    decreases entries.len() - i,
{
    if i < entries.len() {
        if entries[i].1.session_id@ != session {
            lemma_member_with(entries, session, i + 1);
        } else {
            assert(entries[i].1 == entries[i].1);
        }
    }
}

/// A session is the lead exactly where it is the one the lead reported, a member exactly
/// where it is not the lead and a member reported it, and no one otherwise; and it can be
/// messaged exactly where its own report named an inbox.
pub proof fn law_a_session_is_what_it_reported_itself_to_be(desk: LeadDesk, session: Seq<char>)
    requires
        desk.run is Some,
    ensures
        ({
            let run = desk.run->0;
            let (role, reachable) = session_outcome(desk, session);
            let leads = run.lead_endpoint matches Some(e) && e.session_id@ == session;
            let member = exists|k: int|
                0 <= k < run.member_endpoints.entries@.len() && (
                #[trigger] run.member_endpoints.entries@[k]).1.session_id@ == session;
            &&& role is Lead <==> leads
            &&& role is Member <==> !leads && member
            &&& role is Ignored <==> !leads && !member
            &&& leads ==> reachable == (run.lead_endpoint->0.messaging_socket is Some)
            &&& role is Ignored ==> !reachable
            &&& role is Member ==> exists|k: int|
                0 <= k < run.member_endpoints.entries@.len() && (
                #[trigger] run.member_endpoints.entries@[k]).1.session_id@ == session && reachable
                    == (run.member_endpoints.entries@[k].1.messaging_socket is Some)
        }),
{
    lemma_member_with(desk.run->0.member_endpoints.entries@, session, 0);
}

/// A client sees a target as it is: its name, its session and its pane, and whether it has
/// an inbox to be reached through.
pub proof fn law_a_target_is_shown_as_it_is(
    desk: LeadDesk,
    ts: Seq<RunMessageTarget>,
    shown: Seq<WorkflowRunMessageTargetInfo>,
    k: int,
)
    requires
        targets_are(ts, targets(desk)),
        shown.len() == targets(desk).len(),
        forall|i: int|
            0 <= i < shown.len() ==> target_info_is(#[trigger] shown[i], targets(desk)[i]),
        0 <= k < ts.len(),
    ensures
        shown.len() == ts.len(),
        shown[k].name@ == ts[k].name@,
        shown[k].session_id == ts[k].endpoint.session_id,
        opt_text(shown[k].pane_id) == opt_text(ts[k].pane_id),
        shown[k].addressable <==> ts[k].endpoint.messaging_socket is Some,
        shown[k].channel == DeliveryChannel::InboxSocket <==> ts[k].endpoint.messaging_socket
            is Some,
{
    assert(target_is(ts[k], targets(desk)[k]));
    assert(target_info_is(shown[k], targets(desk)[k]));
}

// ---------------------------------------------------------------------------
// What a look at the team's files leads to
// ---------------------------------------------------------------------------

proof fn lemma_created(tasks: Seq<TaskChange>, p: Seq<char>)
    ensures
        created_paths(tasks).contains(p) <==> exists|k: int|
            0 <= k < tasks.len() && (#[trigger] tasks[k]).emergent && tasks[k].path@ == p,
        created_paths(tasks).len() <= tasks.len(),
    decreases tasks.len(),
{
    if tasks.len() > 0 {
        let n = tasks.len() - 1;
        let init = tasks.drop_last();
        lemma_created(init, p);
        assert(forall|k: int| 0 <= k < n ==> init[k] == #[trigger] tasks[k]);
        let was = created_paths(init);
        let now = created_paths(tasks);
        if tasks[n].emergent {
            assert(now == was.push(tasks[n].path@));
            if now.contains(p) {
                let i = choose|i: int| 0 <= i < now.len() && now[i] == p;
                if i < was.len() {
                    assert(was[i] == p);
                    assert(was.contains(p));
                }
            }
            if was.contains(p) {
                let i = choose|i: int| 0 <= i < was.len() && was[i] == p;
                assert(now[i] == p);
            }
            assert(now[was.len() as int] == tasks[n].path@);
        }
        if exists|k: int|
            0 <= k < tasks.len() && (#[trigger] tasks[k]).emergent && tasks[k].path@ == p {
            let k = choose|k: int|
                0 <= k < tasks.len() && (#[trigger] tasks[k]).emergent && tasks[k].path@ == p;
            if k < n {
                assert(init[k].emergent && init[k].path@ == p);
            }
        }
    }
}

/// Every task that changed is written into the run's own row for its path, with what the
/// list says of it: a task outside the plan under its own id, one that nobody owns without
/// an owner, and its status as the node's, an unknown one leaving the node unstarted.
pub proof fn law_a_task_change_is_written_as_it_was_seen(
    run_id: String,
    tasks: Seq<TaskChange>,
    members: Seq<MemberChange>,
    now: u64,
    added: Seq<Effect>,
    i: int,
)
    requires
        projected(run_id, tasks, members, now, added),
        0 <= i < tasks.len(),
    ensures
        added[i] matches Effect::Write(
            StoreWrite::RunTaskProjected {
                run,
                path,
                node_key,
                task_id,
                subject,
                owner,
                status,
                emergent,
                blocked_by,
                observed_at_unix_ms,
            },
        ) && run == run_id && path == tasks[i].path && (tasks[i].node_key is Some ==> node_key@
            == tasks[i].node_key->0@) && (tasks[i].node_key is None ==> node_key@
            == tasks[i].task_id@) && task_id == tasks[i].task_id && subject == tasks[i].subject && (
        tasks[i].owner is Some ==> owner@ == tasks[i].owner->0@) && (tasks[i].owner is None
            ==> owner@.len() == 0) && (status == NodeStatus::Succeeded <==> tasks[i].status
            is Completed) && (status == NodeStatus::Running <==> tasks[i].status is InProgress) && (
        status == NodeStatus::Pending <==> tasks[i].status is Pending || tasks[i].status is Unknown)
            && emergent == tasks[i].emergent && blocked_by@ == tasks[i].blocked_by@
            && observed_at_unix_ms == now,
{
    assert(added[i] matches Effect::Write(w) && task_write(run_id, tasks[i], now, w));
}

/// Every member that changed is written with what the team says of it, after the tasks.
pub proof fn law_a_member_change_is_written_as_it_was_seen(
    run_id: String,
    tasks: Seq<TaskChange>,
    members: Seq<MemberChange>,
    now: u64,
    added: Seq<Effect>,
    i: int,
)
    requires
        projected(run_id, tasks, members, now, added),
        0 <= i < members.len(),
    ensures
        added[tasks.len() + i] matches Effect::Write(
            StoreWrite::RunMemberSnapshot {
                run,
                name,
                agent_type,
                model,
                pane_id,
                backend_type,
                is_active,
                cwd,
                observed_at_unix_ms,
            },
        ) && run == run_id && name == members[i].name && agent_type == members[i].agent_type && (
        members[i].model is Some ==> model@ == members[i].model->0@) && (members[i].model is None
            ==> model@.len() == 0) && pane_id == members[i].pane_id && backend_type
            == members[i].backend_type && is_active == members[i].is_active && cwd == members[i].cwd
            && observed_at_unix_ms == now,
{
    let k = tasks.len() + i;
    assert(added[k] matches Effect::Write(w) && member_write(
        run_id,
        members[k - tasks.len()],
        now,
        w,
    ));
}

/// Whoever listens is told of every task that changed, and which of them came up by
/// themselves; where no task changed they are told nothing.
pub proof fn law_listeners_hear_of_every_task_that_changed(
    run_id: String,
    tasks: Seq<TaskChange>,
    members: Seq<MemberChange>,
    now: u64,
    added: Seq<Effect>,
    path: Seq<char>,
)
    requires
        projected(run_id, tasks, members, now, added),
    ensures
        tasks.len() == 0 ==> added.len() == members.len(),
        tasks.len() > 0 ==> added.len() == tasks.len() + members.len() + 1 && (added.last() matches Effect::NodeEvents {
            run_id: told,
            touched,
            created,
        } && told == run_id && touched@.len() == tasks.len() && (forall|k: int|
            0 <= k < tasks.len() ==> (#[trigger] touched@[k])@ == tasks[k].path@) && (texts(
            created@,
        ).contains(path) <==> exists|k: int|
            0 <= k < tasks.len() && (#[trigger] tasks[k]).emergent && tasks[k].path@ == path)),
{
    lemma_created(tasks, path);
    if tasks.len() > 0 {
        let n = tasks.len() + members.len();
        assert(added.last() == added[n as int]);
        if let Effect::NodeEvents { run_id: told, touched, created } = added[n as int] {
            let paths = crate::app::lead_talk::touched_paths(tasks);
            assert(texts(touched@) == paths);
            assert(texts(touched@).len() == touched@.len());
            assert forall|k: int| 0 <= k < tasks.len() implies (#[trigger] touched@[k])@
                == tasks[k].path@ by {
                assert(texts(touched@)[k] == paths[k]);
            }
        }
    }
}

/// What was seen of a run with a team is recorded, behind all that was to be done before; its
/// roster is the one that was read, a pane of a member's own is remembered, and nothing else
/// of the run changes. A run without a team, or none, records nothing.
pub proof fn law_what_was_seen_of_a_bound_run_is_recorded(
    before: LeadDesk,
    after: LeadDesk,
    split_confirmed: bool,
    roster: TextMap<String>,
    tasks: Seq<TaskChange>,
    members: Seq<MemberChange>,
    unix_ms: u64,
    asked: Seq<Effect>,
    asked_after: Seq<Effect>,
    r: bool,
)
    requires
        absorbed(
            before,
            after,
            split_confirmed,
            roster,
            tasks,
            members,
            unix_ms,
            asked,
            asked_after,
            r,
        ),
    ensures
        match before.run {
            Some(run) if run.binding is Some => {
                let added = asked_after.skip(asked.len() as int);
                &&& r <==> tasks.len() > 0 || members.len() > 0
                &&& projected(run.run_id, tasks, members, unix_ms, added)
                &&& added.len() == tasks.len() + members.len() + (if tasks.len() > 0 {
                    1int
                } else {
                    0int
                })
                &&& after.run matches Some(now) && now.run_id == run.run_id && now.roster == roster
                    && now.binding == run.binding && now.closed == run.closed
                    && now.split_pane_confirmed == (run.split_pane_confirmed || split_confirmed)
            },
            _ => !r && after == before && asked_after == asked,
        },
{
}

} // verus!
