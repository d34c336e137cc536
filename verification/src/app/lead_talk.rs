//! The sessions of a live run: who they are, how they are spoken to, and what is seen
//! of their work.

use crate::app::effects::{DeliveryChannel, Effect, Priority, PromptReason, StoreWrite};
use crate::app::lead::{
    blocks, is_live, node_status, node_status_for, same_endpoint, support_code, with_closed,
    BindDecision, BindEvidence, LeadBinding, LeadDesk, LiveLeadRun, MemberChange,
    MessagingSupport, ReportVerdict, SessionEndpoint, TaskChange, LEAD_TARGET_NAME,
};
use crate::ordered::TextMap;
use crate::text::{
    byte_len, cat2, cat4, contains_string, copy_opt, copy_strings, count_bytes, eq_ascii_case,
    has_text, join, join_strings, opt_text, quoted, quoted_text, str_eq, str_eq_ascii_case, texts,
};
use vstd::prelude::*;

verus! {

broadcast use crate::text::group_texts;

fn copy_endpoint(e: &SessionEndpoint) -> (r: SessionEndpoint)
    ensures
        r == *e,
{
    SessionEndpoint {
        session_id: e.session_id.clone(),
        messaging_socket: copy_opt(&e.messaging_socket),
        messaging_token: copy_opt(&e.messaging_token),
    }
}

fn same_opt(a: &Option<String>, b: &Option<String>) -> (r: bool)
    ensures
        r == (opt_text(*a) == opt_text(*b)),
{
    match (a, b) {
        (Some(x), Some(y)) => str_eq(x.as_str(), y.as_str()),
        (None, None) => true,
        _ => false,
    }
}

fn endpoints_match(a: &SessionEndpoint, b: &SessionEndpoint) -> (r: bool)
    ensures
        r == same_endpoint(*a, *b),
{
    str_eq(a.session_id.as_str(), b.session_id.as_str()) && same_opt(
        &a.messaging_socket,
        &b.messaging_socket,
    ) && same_opt(&a.messaging_token, &b.messaging_token)
}

// ---------------------------------------------------------------------------
// Identity
// ---------------------------------------------------------------------------

/// What a report changes of a run.
pub open spec fn reported(before: LiveLeadRun, verdict: ReportVerdict, after: LiveLeadRun) -> bool {
    match verdict {
        ReportVerdict::Lead { endpoint } => after == (LiveLeadRun {
            lead_endpoint: Some(endpoint),
            ..before
        }),
        ReportVerdict::Member { pane_id, endpoint } => {
            &&& after.member_endpoints@ == before.member_endpoints@.insert(pane_id@, endpoint)
            &&& after == (LiveLeadRun { member_endpoints: after.member_endpoints, ..before })
        },
        ReportVerdict::Ignored => after == before,
    }
}

/// Whether a report says something new.
pub open spec fn is_news(run: LiveLeadRun, verdict: ReportVerdict) -> bool {
    match verdict {
        ReportVerdict::Lead { endpoint } => !(run.lead_endpoint matches Some(known)
            && same_endpoint(known, endpoint)),
        ReportVerdict::Member { pane_id, endpoint } => !(run.member_endpoints@.contains_key(pane_id@)
            && same_endpoint(run.member_endpoints@[pane_id@], endpoint)),
        ReportVerdict::Ignored => false,
    }
}

/// What a report comes to: only a live run hears it.
pub open spec fn heard(before: LeadDesk, verdict: ReportVerdict, after: LeadDesk, r: bool) -> bool {
    &&& !is_live(before) ==> !r && after == before
    &&& is_live(before) ==> {
        &&& r == is_news(before.run->0, verdict)
        &&& after.run is Some
        &&& reported(before.run->0, verdict, after.run->0)
    }
}

impl LeadDesk {
    /// Takes in what a session said of itself. A run that is over hears nothing.
    pub fn record_run_session_report(&mut self, verdict: ReportVerdict) -> (r: bool)
        requires
            old(self).wf(),
        ensures
            final(self).wf(),
            heard(*old(self), verdict, *final(self), r),
    {
        match &mut self.run {
            None => false,
            Some(run) => {
                if run.closed {
                    return false;
                }
                match verdict {
                    ReportVerdict::Lead { endpoint } => {
                        let changed = match &run.lead_endpoint {
                            Some(known) => !endpoints_match(known, &endpoint),
                            None => true,
                        };
                        run.lead_endpoint = Some(endpoint);
                        changed
                    },
                    ReportVerdict::Member { pane_id, endpoint } => {
                        let changed = match run.member_endpoints.get(pane_id.as_str()) {
                            Some(known) => !endpoints_match(known, &endpoint),
                            None => true,
                        };
                        run.member_endpoints.insert(pane_id, endpoint);
                        changed
                    },
                    ReportVerdict::Ignored => false,
                }
            },
        }
    }
}

/// What part a session has in a run.
#[derive(Debug, Clone, Copy, PartialEq, Eq, Structural)]
pub enum WorkflowSessionRole {
    Lead,
    Member,
    Ignored,
}

/// The first member with this session, from `i` on.
pub open spec fn member_with(
    entries: Seq<(String, SessionEndpoint)>,
    session_id: Seq<char>,
    i: int,
) -> Option<SessionEndpoint>
    decreases entries.len() - i,
{
    if i >= entries.len() {
        None
    } else if entries[i].1.session_id@ == session_id {
        Some(entries[i].1)
    } else {
        member_with(entries, session_id, i + 1)
    }
}

/// What a session was taken for, and whether it can be messaged.
pub open spec fn session_outcome(desk: LeadDesk, session_id: Seq<char>) -> (
    WorkflowSessionRole,
    bool,
) {
    match desk.run {
        None => (WorkflowSessionRole::Ignored, false),
        Some(run) => match run.lead_endpoint {
            Some(e) if e.session_id@ == session_id => (
                WorkflowSessionRole::Lead,
                e.messaging_socket is Some,
            ),
            _ => match member_with(run.member_endpoints.entries@, session_id, 0) {
                Some(e) => (WorkflowSessionRole::Member, e.messaging_socket is Some),
                None => (WorkflowSessionRole::Ignored, false),
            },
        },
    }
}

impl LeadDesk {
    /// Tells what a session was taken for. `team_name` is the name of the team that a
    /// lead with this session has; no one else is told it.
    pub fn run_session_report_outcome(&self, session_id: &str, team_name: Option<String>) -> (r: (
        WorkflowSessionRole,
        Option<String>,
        bool,
    ))
        ensures
            (r.0, r.2) == session_outcome(*self, session_id@),
            r.1 == (if r.0 is Lead {
                team_name
            } else {
                None
            }),
    {
        let run = match &self.run {
            Some(run) => run,
            None => {
                return (WorkflowSessionRole::Ignored, None, false);
            },
        };
        match &run.lead_endpoint {
            Some(e) => {
                if str_eq(e.session_id.as_str(), session_id) {
                    return (WorkflowSessionRole::Lead, team_name, e.messaging_socket.is_some());
                }
            },
            None => {},
        }
        let entries = &run.member_endpoints.entries;
        let mut i: usize = 0;
        while i < entries.len()
            invariant
                i <= entries@.len(),
                self.run == Some(*run),
                *entries == run.member_endpoints.entries,
                !(run.lead_endpoint matches Some(e) && e.session_id@ == session_id@),
                member_with(entries@, session_id@, 0) == member_with(
                    entries@,
                    session_id@,
                    i as int,
                ),
            decreases entries@.len() - i,
        {
            if str_eq(entries[i].1.session_id.as_str(), session_id) {
                return (
                    WorkflowSessionRole::Member,
                    None,
                    entries[i].1.messaging_socket.is_some(),
                );
            }
            i = i + 1;
        }
        (WorkflowSessionRole::Ignored, None, false)
    }
}

// ---------------------------------------------------------------------------
// Binding and seeding
// ---------------------------------------------------------------------------

/// What recognising its team changes of a run.
pub open spec fn bound(run: LiveLeadRun, binding: LeadBinding, evidence: BindEvidence) -> LiveLeadRun {
    LiveLeadRun {
        binding: Some(binding),
        bind_evidence: Some(evidence),
        split_pane_confirmed: run.split_pane_confirmed || evidence is InferredOwnPane,
        ..run
    }
}

/// Whether the lead of a run is to be given its plan.
pub open spec fn takes_seed(run: LiveLeadRun, lead_is_ready: bool) -> bool {
    !run.seeded && !run.closed && run.binding is Some && lead_is_ready
}

/// The row for a recognised team.
pub open spec fn binding_write(run: LiveLeadRun, binding: LeadBinding, prompt_version: u32) -> Effect {
    Effect::Write(
        StoreWrite::RunLeadBinding {
            run: run.run_id,
            lead_session_id: binding.lead_session_id,
            team_name: binding.team_name,
            lead_pane_id: Some(run.lead_pane_id),
            lead_terminal_id: Some(run.lead_terminal_id),
            lead_prompt_version: prompt_version,
        },
    )
}

/// What recognising a team, or not, comes to. It matters only to a run that is going on
/// and has no team yet.
pub open spec fn team_decided(
    before: LeadDesk,
    after: LeadDesk,
    decision: BindDecision,
    prompt_version: u32,
    unix_ms: u64,
    asked: Seq<Effect>,
    asked_after: Seq<Effect>,
    r: bool,
) -> bool {
    match before.run {
        Some(run) if !run.closed && run.binding is None => match decision {
            BindDecision::Bound { binding, evidence } => {
                &&& r
                &&& after.run == Some(bound(run, binding, evidence))
                &&& asked_after == asked.push(binding_write(run, binding, prompt_version))
            },
            BindDecision::Waiting => !r && after == before && asked_after == asked,
            BindDecision::Expired { waited_ms, reason } => {
                &&& r
                &&& after == with_closed(before)
                &&& asked_after == asked.push(
                    Effect::Write(
                        StoreWrite::RunFailed {
                            run: run.run_id,
                            ended_at_unix_ms: unix_ms,
                            failure: crate::app::effects::RunFailure::LeadUnbound {
                                detail: reason,
                                waited_ms,
                            },
                        },
                    ),
                )
            },
        },
        _ => !r && after == before && asked_after == asked,
    }
}

/// What handing the lead its plan comes to.
pub open spec fn plan_handed_over(
    before: LeadDesk,
    after: LeadDesk,
    lead_is_ready: bool,
    asked: Seq<Effect>,
    asked_after: Seq<Effect>,
    r: bool,
) -> bool {
    match before.run {
        Some(run) if takes_seed(run, lead_is_ready) => {
            &&& r
            &&& after.run == Some(LiveLeadRun { seeded: true, ..run })
            &&& asked_after == asked.push(
                Effect::Prompt {
                    reason: PromptReason::LeadSeed,
                    pane_id: run.lead_pane_id,
                    text: run.seed_prompt,
                },
            )
        },
        _ => !r && after == before && asked_after == asked,
    }
}

impl LeadDesk {
    /// Recognises the team of a run, once. A run that waited too long for it fails.
    pub fn bind_run_team(
        &mut self,
        decision: BindDecision,
        prompt_version: u32,
        unix_ms: u64,
        effects: &mut Vec<Effect>,
    ) -> (r: bool)
        ensures
            old(self).wf() ==> final(self).wf(),
            team_decided(
                *old(self),
                *final(self),
                decision,
                prompt_version,
                unix_ms,
                old(effects)@,
                final(effects)@,
                r,
            ),
    {
        match &self.run {
            None => {
                return false;
            },
            Some(run) => {
                if run.closed || run.binding.is_some() {
                    return false;
                }
            },
        }
        match decision {
            BindDecision::Waiting => false,
            BindDecision::Expired { waited_ms, reason } => self.lead_run_failed_unbound(
                waited_ms,
                reason,
                unix_ms,
                effects,
            ),
            BindDecision::Bound { binding, evidence } => {
                match &mut self.run {
                    Some(run) => {
                        effects.push(
                            Effect::Write(
                                StoreWrite::RunLeadBinding {
                                    run: run.run_id.clone(),
                                    lead_session_id: binding.lead_session_id.clone(),
                                    team_name: binding.team_name.clone(),
                                    lead_pane_id: Some(run.lead_pane_id.clone()),
                                    lead_terminal_id: Some(run.lead_terminal_id.clone()),
                                    lead_prompt_version: prompt_version,
                                },
                            ),
                        );
                        run.binding = Some(binding);
                        run.bind_evidence = Some(evidence);
                        match evidence {
                            BindEvidence::InferredOwnPane => {
                                run.split_pane_confirmed = true;
                            },
                            _ => {},
                        }
                    },
                    None => {},
                }
                true
            },
        }
    }

    /// Hands the lead its plan, once its team is known and it is there to take it.
    pub fn seed_lead_if_ready(&mut self, lead_is_ready: bool, effects: &mut Vec<Effect>) -> (r: bool)
        ensures
            old(self).wf() ==> final(self).wf(),
            plan_handed_over(
                *old(self),
                *final(self),
                lead_is_ready,
                old(effects)@,
                final(effects)@,
                r,
            ),
    {
        match &mut self.run {
            None => false,
            Some(run) => {
                if run.seeded || run.closed || run.binding.is_none() || !lead_is_ready {
                    return false;
                }
                run.seeded = true;
                effects.push(
                    Effect::Prompt {
                        reason: PromptReason::LeadSeed,
                        pane_id: run.lead_pane_id.clone(),
                        text: run.seed_prompt.clone(),
                    },
                );
                true
            },
        }
    }
}

/// The plan is handed over at most once: a run that was given it takes it no more,
/// whatever becomes of its lead.
pub proof fn law_the_plan_is_handed_over_once(run: LiveLeadRun, ready: bool, again: bool)
    requires
        takes_seed(run, ready),
    ensures
        !takes_seed(LiveLeadRun { seeded: true, ..run }, again),
{
}

// ---------------------------------------------------------------------------
// The projection
// ---------------------------------------------------------------------------

/// The row for a task that changed.
pub open spec fn task_write(run_id: String, task: TaskChange, now: u64, write: StoreWrite) -> bool {
    write matches StoreWrite::RunTaskProjected {
        run,
        path,
        node_key,
        task_id,
        subject,
        owner,
        status,
        emergent,
        blocked_by,
        observed_at_unix_ms,
    } && run == run_id && path == task.path && node_key@ == (match task.node_key {
        Some(k) => k@,
        None => task.task_id@,
    }) && task_id == task.task_id && subject == task.subject && owner@ == (match task.owner {
        Some(o) => o@,
        None => Seq::empty(),
    }) && status == node_status(task.status) && emergent == task.emergent && blocked_by@
        == task.blocked_by@ && observed_at_unix_ms == now
}

/// The row for a member that changed.
pub open spec fn member_write(run_id: String, member: MemberChange, now: u64, write: StoreWrite) -> bool {
    write matches StoreWrite::RunMemberSnapshot {
        run,
        name,
        agent_type,
        model,
        pane_id,
        backend_type,
        is_active,
        cwd,
        observed_at_unix_ms,
    } && run == run_id && name == member.name && agent_type == member.agent_type && model@ == (
    match member.model {
        Some(m) => m@,
        None => Seq::empty(),
    }) && pane_id == member.pane_id && backend_type == member.backend_type && is_active
        == member.is_active && cwd == member.cwd && observed_at_unix_ms == now
}

/// The paths of the tasks that changed.
pub open spec fn touched_paths(tasks: Seq<TaskChange>) -> Seq<Seq<char>> {
    tasks.map_values(|t: TaskChange| t.path@)
}

/// The paths of the tasks that came up by themselves.
pub open spec fn created_paths(tasks: Seq<TaskChange>) -> Seq<Seq<char>>
    decreases tasks.len(),
{
    if tasks.len() == 0 {
        Seq::empty()
    } else if tasks.last().emergent {
        created_paths(tasks.drop_last()).push(tasks.last().path@)
    } else {
        created_paths(tasks.drop_last())
    }
}

/// What a look at the run's files leads to: a row for every task and every member that
/// changed, in order, and then, where a task changed, what is told about them.
pub open spec fn projected(
    run_id: String,
    tasks: Seq<TaskChange>,
    members: Seq<MemberChange>,
    now: u64,
    added: Seq<Effect>,
) -> bool {
    let n = tasks.len() + members.len();
    &&& added.len() == n + (if tasks.len() > 0 {
        1int
    } else {
        0int
    })
    &&& forall|i: int|
        0 <= i < tasks.len() ==> (#[trigger] added[i] matches Effect::Write(w) && task_write(
            run_id,
            tasks[i],
            now,
            w,
        ))
    &&& forall|i: int|
        tasks.len() <= i < n ==> (#[trigger] added[i] matches Effect::Write(w) && member_write(
            run_id,
            members[i - tasks.len()],
            now,
            w,
        ))
    &&& tasks.len() > 0 ==> (added[n as int] matches Effect::NodeEvents { run_id: r, touched, created }
        && r == run_id && texts(touched@) == touched_paths(tasks) && texts(created@)
        == created_paths(tasks))
}

fn write_task(run_id: &String, task: &TaskChange, now: u64) -> (r: StoreWrite)
    ensures
        task_write(*run_id, *task, now, r),
{
    let node_key = match &task.node_key {
        Some(k) => k.clone(),
        None => task.task_id.clone(),
    };
    let owner = match &task.owner {
        Some(o) => o.clone(),
        None => String::new(),
    };
    StoreWrite::RunTaskProjected {
        run: run_id.clone(),
        path: task.path.clone(),
        node_key,
        task_id: task.task_id.clone(),
        subject: task.subject.clone(),
        owner,
        status: node_status_for(&task.status),
        emergent: task.emergent,
        blocked_by: copy_strings(&task.blocked_by),
        observed_at_unix_ms: now,
    }
}

fn write_member(run_id: &String, member: &MemberChange, now: u64) -> (r: StoreWrite)
    ensures
        member_write(*run_id, *member, now, r),
{
    let model = match &member.model {
        Some(m) => m.clone(),
        None => String::new(),
    };
    StoreWrite::RunMemberSnapshot {
        run: run_id.clone(),
        name: member.name.clone(),
        agent_type: member.agent_type.clone(),
        model,
        pane_id: copy_opt(&member.pane_id),
        backend_type: member.backend_type.clone(),
        is_active: member.is_active,
        cwd: copy_opt(&member.cwd),
        observed_at_unix_ms: now,
    }
}

fn project(
    run_id: &String,
    tasks: &Vec<TaskChange>,
    members: &Vec<MemberChange>,
    now: u64,
    effects: &mut Vec<Effect>,
)
    ensures
        final(effects)@.len() >= old(effects)@.len(),
        final(effects)@.take(old(effects)@.len() as int) == old(effects)@,
        projected(
            *run_id,
            tasks@,
            members@,
            now,
            final(effects)@.skip(old(effects)@.len() as int),
        ),
{
    let ghost start = effects@;
    let ghost base = start.len() as int;
    let mut touched: Vec<String> = Vec::new();
    let mut created: Vec<String> = Vec::new();
    let mut i: usize = 0;
    assert(effects@.take(base) =~= start);
    assert(texts(touched@) =~= touched_paths(tasks@.take(0)));
    assert(texts(created@) =~= created_paths(tasks@.take(0)));
    while i < tasks.len()
        invariant
            i <= tasks@.len(),
            base == start.len(),
            effects@.len() == base + i,
            effects@.take(base) == start,
            texts(touched@) == touched_paths(tasks@.take(i as int)),
            texts(created@) == created_paths(tasks@.take(i as int)),
            forall|k: int|
                0 <= k < i ==> (#[trigger] effects@[base + k] matches Effect::Write(w)
                    && task_write(*run_id, tasks@[k], now, w)),
        decreases tasks@.len() - i,
    {
        let task = &tasks[i];
        let ghost before = effects@;
        effects.push(Effect::Write(write_task(run_id, task, now)));
        touched.push(task.path.clone());
        if task.emergent {
            created.push(task.path.clone());
        }
        proof {
            assert(effects@.take(base) =~= before.take(base));
            let more = tasks@.take(i as int + 1);
            assert(more.drop_last() =~= tasks@.take(i as int));
            assert(touched_paths(more) =~= touched_paths(tasks@.take(i as int)).push(task.path@));
            assert forall|k: int| 0 <= k < i + 1 implies (#[trigger] effects@[base
                + k] matches Effect::Write(w) && task_write(*run_id, tasks@[k], now, w)) by {
                if k < i {
                    assert(effects@[base + k] == before[base + k]);
                }
            }
        }
        i = i + 1;
    }
    assert(tasks@.take(tasks@.len() as int) =~= tasks@);
    let ghost middle = base + tasks@.len();
    let mut j: usize = 0;
    while j < members.len()
        invariant
            j <= members@.len(),
            i == tasks@.len(),
            base == start.len(),
            middle == base + tasks@.len(),
            effects@.len() == middle + j,
            effects@.take(base) == start,
            forall|k: int|
                0 <= k < tasks@.len() ==> (#[trigger] effects@[base + k] matches Effect::Write(w)
                    && task_write(*run_id, tasks@[k], now, w)),
            forall|k: int|
                0 <= k < j ==> (#[trigger] effects@[middle + k] matches Effect::Write(w)
                    && member_write(*run_id, members@[k], now, w)),
        decreases members@.len() - j,
    {
        let ghost before = effects@;
        effects.push(Effect::Write(write_member(run_id, &members[j], now)));
        proof {
            assert(effects@.take(base) =~= before.take(base));
            assert forall|k: int| 0 <= k < tasks@.len() implies (#[trigger] effects@[base
                + k] matches Effect::Write(w) && task_write(*run_id, tasks@[k], now, w)) by {
                assert(effects@[base + k] == before[base + k]);
            }
            assert forall|k: int| 0 <= k < j + 1 implies (#[trigger] effects@[middle
                + k] matches Effect::Write(w) && member_write(*run_id, members@[k], now, w)) by {
                if k < j {
                    assert(effects@[middle + k] == before[middle + k]);
                }
            }
        }
        j = j + 1;
    }
    let ghost before = effects@;
    if tasks.len() > 0 {
        effects.push(Effect::NodeEvents { run_id: run_id.clone(), touched, created });
    }
    proof {
        assert(effects@.take(base) =~= before.take(base));
        let added = effects@.skip(base);
        assert forall|k: int| 0 <= k < tasks@.len() implies (#[trigger] added[k] matches Effect::Write(
            w,
        ) && task_write(*run_id, tasks@[k], now, w)) by {
            assert(added[k] == before[base + k]);
        }
        assert forall|k: int|
            tasks@.len() <= k < tasks@.len() + members@.len() implies (#[trigger] added[k] matches Effect::Write(
            w,
        ) && member_write(*run_id, members@[k - tasks@.len()], now, w)) by {
            assert(added[k] == before[middle + (k - tasks@.len())]);
        }
    }
}

/// What a look at the files of a run comes to. Only a run with a team has any.
pub open spec fn absorbed(
    before: LeadDesk,
    after: LeadDesk,
    split_confirmed: bool,
    roster: TextMap<String>,
    tasks: Seq<TaskChange>,
    members: Seq<MemberChange>,
    unix_ms: u64,
    asked: Seq<Effect>,
    asked_after: Seq<Effect>,
    r: bool,
) -> bool {
    match before.run {
        Some(run) if run.binding is Some => {
            &&& r == (tasks.len() > 0 || members.len() > 0)
            &&& after.run == Some(
                LiveLeadRun {
                    split_pane_confirmed: run.split_pane_confirmed || split_confirmed,
                    roster,
                    ..run
                },
            )
            &&& projected(
                run.run_id,
                tasks,
                members,
                unix_ms,
                asked_after.skip(asked.len() as int),
            )
        },
        _ => !r && after == before && asked_after == asked,
    }
}

impl LeadDesk {
    /// Records what a look at the files of a bound run saw. `split_confirmed` says that
    /// a member has a pane of its own; `roster` is what the team calls its members now.
    pub fn absorb_run_projection(
        &mut self,
        split_confirmed: bool,
        roster: TextMap<String>,
        tasks: &Vec<TaskChange>,
        members: &Vec<MemberChange>,
        unix_ms: u64,
        effects: &mut Vec<Effect>,
    ) -> (r: bool)
        requires
            roster.wf(),
        ensures
            old(self).wf() ==> final(self).wf(),
            final(effects)@.len() >= old(effects)@.len(),
            final(effects)@.take(old(effects)@.len() as int) == old(effects)@,
            absorbed(
                *old(self),
                *final(self),
                split_confirmed,
                roster,
                tasks@,
                members@,
                unix_ms,
                old(effects)@,
                final(effects)@,
                r,
            ),
    {
        let ghost start = effects@;
        assert(effects@.take(start.len() as int) =~= start);
        match &mut self.run {
            None => false,
            Some(run) => {
                if run.binding.is_none() {
                    return false;
                }
                if split_confirmed {
                    run.split_pane_confirmed = true;
                }
                run.roster = roster;
                if tasks.len() == 0 && members.len() == 0 {
                    assert(effects@.skip(start.len() as int) =~= Seq::<Effect>::empty());
                    return false;
                }
                project(&run.run_id, tasks, members, unix_ms, effects);
                true
            },
        }
    }
}

/// What is told about a node that a look touched: that it came up, or that it changed.
#[derive(Debug, Clone, Copy, PartialEq, Eq, Structural)]
pub enum NodeEventKind {
    Created,
    Updated,
}

/// What is told about a stored node: nothing where the look did not touch it.
pub fn projected_node_event(path: &str, touched: &Vec<String>, created: &Vec<String>) -> (r: Option<
    NodeEventKind,
>)
    ensures
        r == (if !has_text(texts(touched@), path@) {
            None
        } else if has_text(texts(created@), path@) {
            Some(NodeEventKind::Created)
        } else {
            Some(NodeEventKind::Updated)
        }),
{
    if !contains_string(touched.as_slice(), path) {
        None
    } else if contains_string(created.as_slice(), path) {
        Some(NodeEventKind::Created)
    } else {
        Some(NodeEventKind::Updated)
    }
}

// ---------------------------------------------------------------------------
// Messages
// ---------------------------------------------------------------------------

/// A session that can be spoken to by name.
#[derive(Debug, PartialEq, Eq)]
pub struct RunMessageTarget {
    pub name: String,
    pub pane_id: Option<String>,
    pub endpoint: SessionEndpoint,
}

/// A session that can be spoken to, by its views.
pub struct TargetView {
    pub name: Seq<char>,
    pub pane_id: Seq<char>,
    pub endpoint: SessionEndpoint,
}

/// The name of the member in a pane: what the team calls it, else its pane.
pub open spec fn member_name(roster: Map<Seq<char>, String>, pane: Seq<char>) -> Seq<char> {
    if roster.contains_key(pane) {
        roster[pane]@
    } else {
        pane
    }
}

/// The members that can be spoken to, by their panes.
pub open spec fn member_targets(run: LiveLeadRun) -> Seq<TargetView> {
    run.member_endpoints.entries@.map_values(
        |e: (String, SessionEndpoint)|
            TargetView {
                name: member_name(run.roster@, e.0@),
                pane_id: e.0@,
                endpoint: e.1,
            },
    )
}

/// The sessions that can be spoken to: the lead first.
pub open spec fn run_targets(run: LiveLeadRun) -> Seq<TargetView> {
    match run.lead_endpoint {
        Some(endpoint) => seq![
            TargetView {
                name: LEAD_TARGET_NAME@,
                pane_id: run.lead_pane_id@,
                endpoint,
            },
        ] + member_targets(run),
        None => member_targets(run),
    }
}

/// The sessions of the live run that can be spoken to.
pub open spec fn targets(desk: LeadDesk) -> Seq<TargetView> {
    if is_live(desk) {
        run_targets(desk.run->0)
    } else {
        Seq::empty()
    }
}

pub open spec fn target_is(t: RunMessageTarget, v: TargetView) -> bool {
    t.name@ == v.name && opt_text(t.pane_id) == Some(v.pane_id) && t.endpoint == v.endpoint
}

pub open spec fn targets_are(ts: Seq<RunMessageTarget>, vs: Seq<TargetView>) -> bool {
    ts.len() == vs.len() && forall|i: int|
        0 <= i < ts.len() ==> target_is(#[trigger] ts[i], vs[i])
}

impl LeadDesk {
    pub fn run_message_targets(&self) -> (r: Vec<RunMessageTarget>)
        requires
            self.wf(),
        ensures
            targets_are(r@, targets(*self)),
    {
        let mut out: Vec<RunMessageTarget> = Vec::new();
        let run = match &self.run {
            Some(run) => run,
            None => {
                return out;
            },
        };
        if run.closed {
            return out;
        }
        match &run.lead_endpoint {
            Some(endpoint) => {
                out.push(
                    RunMessageTarget {
                        name: LEAD_TARGET_NAME.to_owned(),
                        pane_id: Some(run.lead_pane_id.clone()),
                        endpoint: copy_endpoint(endpoint),
                    },
                );
            },
            None => {},
        }
        let ghost head = out@.len() as int;
        let ghost all = run_targets(*run);
        let mut i: usize = 0;
        while i < run.member_endpoints.entries.len()
            invariant
                i <= run.member_endpoints.entries@.len(),
                run.wf(),
                all == run_targets(*run),
                head == (if run.lead_endpoint is Some {
                    1int
                } else {
                    0int
                }),
                out@.len() == head + i,
                forall|k: int| 0 <= k < out@.len() ==> target_is(#[trigger] out@[k], all[k]),
            decreases run.member_endpoints.entries@.len() - i,
        {
            let pane_id = &run.member_endpoints.entries[i].0;
            let name = match run.roster.get(pane_id.as_str()) {
                Some(n) => n.clone(),
                None => pane_id.clone(),
            };
            assert(all[head + i] == member_targets(*run)[i as int]);
            out.push(
                RunMessageTarget {
                    name,
                    pane_id: Some(pane_id.clone()),
                    endpoint: copy_endpoint(&run.member_endpoints.entries[i].1),
                },
            );
            i = i + 1;
        }
        out
    }
}

/// Why a message was not handed over.
#[allow(inconsistent_fields)]
#[derive(Debug, PartialEq, Eq)]
pub enum RunMessageError {
    NoLiveRun,
    /// Messages cannot be handed over on this machine; in words.
    Unsupported(String),
    NoAddressableSessions,
    UnknownTarget { requested: String, known: Vec<String> },
    TargetNotAddressable { name: String },
    BadMessage(String),
    WriteFailed(String),
}

/// What is told of a message that was not handed over. `agent` is what the agent of the
/// sessions is called.
pub open spec fn message_error_text(error: RunMessageError, agent: Seq<char>) -> Seq<char> {
    match error {
        RunMessageError::NoLiveRun => "no workflow run is live on this server"@,
        RunMessageError::Unsupported(detail) => detail@,
        RunMessageError::NoAddressableSessions =>
            "the run has not identified any session yet, so there is nothing to message.                  Its lead reports itself through a SessionStart hook a second or two after the                  pane starts."@,
        RunMessageError::UnknownTarget { requested, known } => "this run has no session called "@
            + quoted(requested@) + "; it can address: "@ + (if known@.len() == 0 {
            "nothing yet"@
        } else {
            join(texts(known@), ", "@)
        }),
        RunMessageError::TargetNotAddressable { name } => name@
            + " identified itself without a messaging socket, so "@ + agent
            + "'s                  cross-session messaging was not on in that session"@,
        RunMessageError::BadMessage(detail) => detail@,
        RunMessageError::WriteFailed(detail) =>
            "the session's inbox socket could not be written: "@ + detail@,
    }
}

impl RunMessageError {
    pub fn message(&self, agent: &str) -> (r: String)
        ensures
            r@ == message_error_text(*self, agent@),
    {
        match self {
            RunMessageError::NoLiveRun => "no workflow run is live on this server".to_owned(),
            RunMessageError::Unsupported(detail) => detail.clone(),
            RunMessageError::NoAddressableSessions =>
                "the run has not identified any session yet, so there is nothing to message.                  Its lead reports itself through a SessionStart hook a second or two after the                  pane starts.".to_owned(),
            RunMessageError::UnknownTarget { requested, known } => {
                let names = if known.len() == 0 {
                    "nothing yet".to_owned()
                } else {
                    join_strings(known.as_slice(), ", ")
                };
                cat4(
                    "this run has no session called ",
                    quoted_text(requested.as_str()).as_str(),
                    "; it can address: ",
                    names.as_str(),
                )
            },
            RunMessageError::TargetNotAddressable { name } => cat4(
                name.as_str(),
                " identified itself without a messaging socket, so ",
                agent,
                "'s                  cross-session messaging was not on in that session",
            ),
            RunMessageError::BadMessage(detail) => detail.clone(),
            RunMessageError::WriteFailed(detail) => cat2(
                "the session's inbox socket could not be written: ",
                detail.as_str(),
            ),
        }
    }
}

/// How a message is handed over.
#[allow(inconsistent_fields)]
#[derive(Debug, PartialEq, Eq)]
pub enum Handover {
    /// Framed, and written into the inbox of the session.
    Inbox { socket: String, token: Option<String>, session_id: String },
    /// Typed into the pane of the session.
    Pane { pane_id: String },
}

/// A message that is to be handed over.
#[derive(Debug, PartialEq, Eq)]
pub struct MessagePlan {
    pub run_id: String,
    pub target: RunMessageTarget,
    pub handover: Handover,
}

/// Where the first target of this name stands, from `i` on. Case does not matter.
pub open spec fn target_index(ts: Seq<TargetView>, name: Seq<char>, i: int) -> Option<int>
    decreases ts.len() - i,
{
    if i >= ts.len() {
        None
    } else if eq_ascii_case(ts[i].name, name) {
        Some(i)
    } else {
        target_index(ts, name, i + 1)
    }
}

/// How a session is reached: through its inbox where it has one, else through its pane.
pub open spec fn handover_is(v: TargetView, h: Handover) -> bool {
    match v.endpoint.messaging_socket {
        Some(s) => h matches Handover::Inbox { socket, token, session_id } && socket == s && token
            == v.endpoint.messaging_token && session_id == v.endpoint.session_id,
        None => h matches Handover::Pane { pane_id } && pane_id@ == v.pane_id,
    }
}

/// What sending a message to `name` begins with.
pub open spec fn message_planned(
    desk: LeadDesk,
    name: Seq<char>,
    r: Result<MessagePlan, RunMessageError>,
) -> bool {
    let ts = targets(desk);
    if !is_live(desk) {
        r == Err::<MessagePlan, RunMessageError>(RunMessageError::NoLiveRun)
    } else if blocks(desk.run->0.messaging) {
        r == Err::<MessagePlan, RunMessageError>(
            RunMessageError::Unsupported(desk.run->0.messaging_detail),
        )
    } else if ts.len() == 0 {
        r == Err::<MessagePlan, RunMessageError>(RunMessageError::NoAddressableSessions)
    } else {
        match target_index(ts, name, 0) {
            None => r matches Err(RunMessageError::UnknownTarget { requested, known }) && requested@
                == name && texts(known@) == ts.map_values(|t: TargetView| t.name),
            Some(i) => r matches Ok(plan) && plan.run_id == desk.run->0.run_id && target_is(
                plan.target,
                ts[i],
            ) && handover_is(ts[i], plan.handover),
        }
    }
}

fn names_of(ts: &Vec<RunMessageTarget>, Ghost(vs): Ghost<Seq<TargetView>>) -> (r: Vec<String>)
    requires
        targets_are(ts@, vs),
    ensures
        texts(r@) == vs.map_values(|t: TargetView| t.name),
{
    let ghost all = vs.map_values(|t: TargetView| t.name);
    let mut out: Vec<String> = Vec::new();
    let mut i: usize = 0;
    assert(texts(out@) =~= all.take(0));
    while i < ts.len()
        invariant
            i <= ts@.len(),
            targets_are(ts@, vs),
            all == vs.map_values(|t: TargetView| t.name),
            texts(out@) == all.take(i as int),
        decreases ts@.len() - i,
    {
        out.push(ts[i].name.clone());
        assert(target_is(ts@[i as int], vs[i as int]));
        assert(all.take(i as int + 1) =~= all.take(i as int).push(all[i as int]));
        i = i + 1;
    }
    assert(all.take(all.len() as int) =~= all);
    out
}

impl LeadDesk {
    /// Finds out how a message is handed over. Only what can be checked refuses one.
    pub fn message_run_session(&self, target_name: &str) -> (r: Result<
        MessagePlan,
        RunMessageError,
    >)
        requires
            self.wf(),
        ensures
            message_planned(*self, target_name@, r),
    {
        let run = match &self.run {
            Some(run) => run,
            None => {
                return Err(RunMessageError::NoLiveRun);
            },
        };
        if run.closed {
            return Err(RunMessageError::NoLiveRun);
        }
        if run.messaging.blocks_messaging() {
            return Err(RunMessageError::Unsupported(run.messaging_detail.clone()));
        }
        let ts = self.run_message_targets();
        let ghost vs = targets(*self);
        if ts.len() == 0 {
            return Err(RunMessageError::NoAddressableSessions);
        }
        let mut i: usize = 0;
        while i < ts.len()
            invariant
                i <= ts@.len(),
                ts@.len() > 0,
                targets_are(ts@, vs),
                vs == targets(*self),
                is_live(*self),
                self.run == Some(*run),
                !blocks(run.messaging),
                target_index(vs, target_name@, 0) == target_index(vs, target_name@, i as int),
            decreases ts@.len() - i,
        {
            assert(target_is(ts@[i as int], vs[i as int]));
            if str_eq_ascii_case(ts[i].name.as_str(), target_name) {
                let t = &ts[i];
                let handover = match (&t.endpoint.messaging_socket, &t.pane_id) {
                    (Some(socket), _) => Handover::Inbox {
                        socket: socket.clone(),
                        token: copy_opt(&t.endpoint.messaging_token),
                        session_id: t.endpoint.session_id.clone(),
                    },
                    (None, Some(pane_id)) => Handover::Pane { pane_id: pane_id.clone() },
                    (None, None) => {
                        return Err(
                            RunMessageError::TargetNotAddressable { name: t.name.clone() },
                        );
                    },
                };
                let target = RunMessageTarget {
                    name: t.name.clone(),
                    pane_id: copy_opt(&t.pane_id),
                    endpoint: copy_endpoint(&t.endpoint),
                };
                return Ok(MessagePlan { run_id: run.run_id.clone(), target, handover });
            }
            i = i + 1;
        }
        Err(
            RunMessageError::UnknownTarget {
                requested: target_name.to_owned(),
                known: names_of(&ts, Ghost(vs)),
            },
        )
    }
}

/// What handing a message over came to.
#[derive(Debug, PartialEq, Eq)]
pub enum HandoverOutcome {
    Done,
    /// The message could not be framed.
    BadMessage(String),
    /// It could not be written.
    WriteFailed(String),
}

/// What is known of a message that was handed over.
#[derive(Debug, PartialEq, Eq)]
pub struct RunMessageReceipt {
    pub target: String,
    pub session_id: String,
    pub pane_id: Option<String>,
    pub channel: DeliveryChannel,
}

pub open spec fn channel_of(handover: Handover) -> DeliveryChannel {
    match handover {
        Handover::Inbox { .. } => DeliveryChannel::InboxSocket,
        Handover::Pane { .. } => DeliveryChannel::PaneInput,
    }
}

/// The journal's entry for a message.
pub open spec fn message_entry(
    plan: MessagePlan,
    seq: u64,
    priority: Priority,
    text: Seq<char>,
    now: u64,
) -> Effect {
    Effect::Write(
        StoreWrite::MessageDelivered {
            run: plan.run_id,
            seq,
            target: plan.target.name,
            session_id: plan.target.endpoint.session_id,
            pane_id: plan.target.pane_id,
            channel: channel_of(plan.handover),
            priority,
            text_bytes: byte_len(text) as u64,
            at_unix_ms: now,
        },
    )
}

/// What handing a message over changes and gives back.
pub open spec fn handed_over(
    before: LeadDesk,
    after: LeadDesk,
    plan: MessagePlan,
    outcome: HandoverOutcome,
    priority: Priority,
    text: Seq<char>,
    unix_ms: u64,
    asked: Seq<Effect>,
    asked_after: Seq<Effect>,
    r: Result<RunMessageReceipt, RunMessageError>,
) -> bool {
    match outcome {
        HandoverOutcome::BadMessage(m) => after == before && asked_after == asked && r == Err::<
            RunMessageReceipt,
            RunMessageError,
        >(RunMessageError::BadMessage(m)),
        HandoverOutcome::WriteFailed(m) => after == before && asked_after == asked && r == Err::<
            RunMessageReceipt,
            RunMessageError,
        >(RunMessageError::WriteFailed(m)),
        HandoverOutcome::Done => {
            &&& r == Ok::<RunMessageReceipt, RunMessageError>(
                RunMessageReceipt {
                    target: plan.target.name,
                    session_id: plan.target.endpoint.session_id,
                    pane_id: plan.target.pane_id,
                    channel: channel_of(plan.handover),
                },
            )
            &&& match before.run {
                Some(run) => {
                    &&& asked_after == asked.push(
                        message_entry(plan, run.journal_seq, priority, text, unix_ms),
                    )
                    &&& after.run == Some(
                        LiveLeadRun {
                            journal_seq: if run.journal_seq == u64::MAX {
                                u64::MAX
                            } else {
                                (run.journal_seq + 1) as u64
                            },
                            ..run
                        },
                    )
                },
                None => after == before && asked_after == asked,
            }
        },
    }
}

impl LeadDesk {
    /// Records what handing a message over came to. Only a message that was handed over
    /// is in the journal, with the way it took and without its text.
    pub fn message_handed_over(
        &mut self,
        plan: MessagePlan,
        outcome: HandoverOutcome,
        priority: Priority,
        text: &str,
        unix_ms: u64,
        effects: &mut Vec<Effect>,
    ) -> (r: Result<RunMessageReceipt, RunMessageError>)
        requires
            byte_len(text@) <= usize::MAX,
        ensures
            old(self).wf() ==> final(self).wf(),
            handed_over(
                *old(self),
                *final(self),
                plan,
                outcome,
                priority,
                text@,
                unix_ms,
                old(effects)@,
                final(effects)@,
                r,
            ),
    {
        match outcome {
            HandoverOutcome::BadMessage(m) => {
                return Err(RunMessageError::BadMessage(m));
            },
            HandoverOutcome::WriteFailed(m) => {
                return Err(RunMessageError::WriteFailed(m));
            },
            HandoverOutcome::Done => {},
        }
        let channel = match &plan.handover {
            Handover::Inbox { .. } => DeliveryChannel::InboxSocket,
            Handover::Pane { .. } => DeliveryChannel::PaneInput,
        };
        self.journal_run_message(&plan, channel, priority, text, unix_ms, effects);
        Ok(
            RunMessageReceipt {
                target: plan.target.name,
                session_id: plan.target.endpoint.session_id,
                pane_id: plan.target.pane_id,
                channel,
            },
        )
    }

    fn journal_run_message(
        &mut self,
        plan: &MessagePlan,
        channel: DeliveryChannel,
        priority: Priority,
        text: &str,
        unix_ms: u64,
        effects: &mut Vec<Effect>,
    )
        requires
            byte_len(text@) <= usize::MAX,
            channel == channel_of(plan.handover),
        ensures
            old(self).wf() ==> final(self).wf(),
            match old(self).run {
                Some(run) => {
                    &&& final(effects)@ == old(effects)@.push(
                        message_entry(*plan, run.journal_seq, priority, text@, unix_ms),
                    )
                    &&& final(self).run == Some(
                        LiveLeadRun {
                            journal_seq: if run.journal_seq == u64::MAX {
                                u64::MAX
                            } else {
                                (run.journal_seq + 1) as u64
                            },
                            ..run
                        },
                    )
                },
                None => *final(self) == *old(self) && final(effects)@ == old(effects)@,
            },
    {
        match &mut self.run {
            None => {},
            Some(run) => {
                let seq = run.next_journal_seq();
                effects.push(
                    Effect::Write(
                        StoreWrite::MessageDelivered {
                            run: plan.run_id.clone(),
                            seq,
                            target: plan.target.name.clone(),
                            session_id: plan.target.endpoint.session_id.clone(),
                            pane_id: copy_opt(&plan.target.pane_id),
                            channel,
                            priority,
                            text_bytes: count_bytes(text),
                            at_unix_ms: unix_ms,
                        },
                    ),
                );
            },
        }
    }
}

/// A suspicion about messaging never refuses a message; what can be checked always
/// does.
pub proof fn law_only_facts_refuse_a_message(
    desk: LeadDesk,
    name: Seq<char>,
    r: Result<MessagePlan, RunMessageError>,
)
    requires
        message_planned(desk, name, r),
        is_live(desk),
    ensures
        r matches Err(RunMessageError::Unsupported(_)) <==> blocks(desk.run->0.messaging),
        desk.run->0.messaging is KillSwitchSuspected ==> !(r matches Err(
            RunMessageError::Unsupported(_),
        )),
{
}

/// A session that has an inbox is never typed at.
pub proof fn law_an_inbox_is_preferred(
    desk: LeadDesk,
    name: Seq<char>,
    r: Result<MessagePlan, RunMessageError>,
)
    requires
        message_planned(desk, name, r),
        r is Ok,
    ensures
        r->Ok_0.handover is Inbox <==> r->Ok_0.target.endpoint.messaging_socket is Some,
        eq_ascii_case(r->Ok_0.target.name@, name),
{
    let ts = targets(desk);
    lemma_target_index(ts, name, 0);
}

proof fn lemma_target_index(ts: Seq<TargetView>, name: Seq<char>, i: int)
    requires
        0 <= i,
    ensures
        target_index(ts, name, i) matches Some(k) ==> i <= k < ts.len() && eq_ascii_case(
            ts[k].name,
            name,
        ),
    decreases ts.len() - i,
{
    if i < ts.len() && !eq_ascii_case(ts[i].name, name) {
        lemma_target_index(ts, name, i + 1);
    }
}

// ---------------------------------------------------------------------------
// What clients are told
// ---------------------------------------------------------------------------

/// A session as a client sees it.
#[derive(Debug, PartialEq, Eq)]
pub struct WorkflowRunMessageTargetInfo {
    pub name: String,
    pub session_id: String,
    pub channel: DeliveryChannel,
    pub pane_id: Option<String>,
    pub addressable: bool,
}

/// The state of messaging of a run, as a client sees it.
#[derive(Debug, PartialEq, Eq)]
pub struct WorkflowRunMessagingInfo {
    pub supported: bool,
    pub reason: Option<String>,
    pub detail: Option<String>,
    pub targets: Vec<WorkflowRunMessageTargetInfo>,
}

pub open spec fn target_info_is(t: WorkflowRunMessageTargetInfo, v: TargetView) -> bool {
    &&& t.name@ == v.name
    &&& t.session_id == v.endpoint.session_id
    &&& opt_text(t.pane_id) == Some(v.pane_id)
    &&& t.addressable == (v.endpoint.messaging_socket is Some)
    &&& t.channel == (if t.addressable {
        DeliveryChannel::InboxSocket
    } else {
        DeliveryChannel::PaneInput
    })
}

impl LeadDesk {
    /// The state of messaging of the live run. Anything but plain availability is told
    /// in words, a suspicion too.
    pub fn run_messaging_info(&self, run_id: &str) -> (r: Option<WorkflowRunMessagingInfo>)
        requires
            self.wf(),
        ensures
            r is Some <==> crate::app::lead::is_live_run(*self, run_id@),
            r matches Some(info) ==> {
                let run = self.run->0;
                let ts = targets(*self);
                &&& info.supported == !blocks(run.messaging)
                &&& opt_text(info.reason) == (if run.messaging is Available {
                    None
                } else {
                    Some(support_code(run.messaging))
                })
                &&& info.detail == (if run.messaging is Available {
                    None
                } else {
                    Some(run.messaging_detail)
                })
                &&& info.targets@.len() == ts.len()
                &&& forall|i: int|
                    0 <= i < ts.len() ==> target_info_is(#[trigger] info.targets@[i], ts[i])
            },
    {
        let run = match &self.run {
            Some(run) => run,
            None => {
                return None;
            },
        };
        if run.closed || !str_eq(run.run_id.as_str(), run_id) {
            return None;
        }
        let noteworthy = match &run.messaging {
            MessagingSupport::Available => false,
            _ => true,
        };
        let reason = if noteworthy {
            Some(run.messaging.code())
        } else {
            None
        };
        let detail = if noteworthy {
            Some(run.messaging_detail.clone())
        } else {
            None
        };
        let ts = self.run_message_targets();
        let ghost vs = targets(*self);
        let mut out: Vec<WorkflowRunMessageTargetInfo> = Vec::new();
        let mut i: usize = 0;
        while i < ts.len()
            invariant
                i <= ts@.len(),
                targets_are(ts@, vs),
                out@.len() == i,
                forall|k: int| 0 <= k < i ==> target_info_is(#[trigger] out@[k], vs[k]),
            decreases ts@.len() - i,
        {
            let t = &ts[i];
            assert(target_is(ts@[i as int], vs[i as int]));
            let addressable = t.endpoint.messaging_socket.is_some();
            let channel = if addressable {
                DeliveryChannel::InboxSocket
            } else {
                DeliveryChannel::PaneInput
            };
            out.push(
                WorkflowRunMessageTargetInfo {
                    name: t.name.clone(),
                    session_id: t.endpoint.session_id.clone(),
                    channel,
                    pane_id: copy_opt(&t.pane_id),
                    addressable,
                },
            );
            i = i + 1;
        }
        Some(
            WorkflowRunMessagingInfo {
                supported: !run.messaging.blocks_messaging(),
                reason,
                detail,
                targets: out,
            },
        )
    }
}

} // verus!
