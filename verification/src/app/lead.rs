//! The run that a team lead is executing: how it is recognised, watched, spoken to
//! and closed.

use crate::app::effects::{Effect, RunFailure, StoreWrite};
use crate::path::{extension, path_extension};
use crate::model::{NodeStatus, RunStatus};
use crate::ordered::TextMap;
use crate::text::{
    byte_len, count_bytes, opt_str, opt_text, parse_unsigned, read_unsigned, str_eq, texts, trim,
    trim_str,
};
use vstd::prelude::*;

verus! {

broadcast use crate::text::group_texts;

/// How often the task and team files of a run are read, in milliseconds.
pub const RUN_PROJECTION_INTERVAL_MS: u64 = 2000;

/// How many task files one look reads.
pub const MAX_TASK_FILES: usize = 512;

/// How many teams one look reads.
pub const MAX_TEAM_CONFIGS: usize = 256;

/// How long a session's inbox may keep a write waiting, in milliseconds.
pub const INBOX_WRITE_TIMEOUT_MS: u64 = 500;

/// The name under which a run's lead is spoken to.
pub const LEAD_TARGET_NAME: &'static str = "team-lead";

/// The version from which sessions can be messaged.
pub const MESSAGING_REQUIRED_VERSION: &'static str = "2.1.224";

// ---------------------------------------------------------------------------
// What is known of a run
// ---------------------------------------------------------------------------

/// A session that identified itself, and how it is reached.
#[derive(Debug, PartialEq, Eq)]
pub struct SessionEndpoint {
    pub session_id: String,
    pub messaging_socket: Option<String>,
    pub messaging_token: Option<String>,
}

/// Whether two endpoints say the same.
pub open spec fn same_endpoint(a: SessionEndpoint, b: SessionEndpoint) -> bool {
    a.session_id@ == b.session_id@ && opt_text(a.messaging_socket) == opt_text(b.messaging_socket)
        && opt_text(a.messaging_token) == opt_text(b.messaging_token)
}

/// The team a run was recognised by.
#[derive(Debug, PartialEq, Eq)]
pub struct LeadBinding {
    pub lead_session_id: String,
    pub team_name: String,
}

/// How a team was recognised.
#[derive(Debug, Clone, Copy, PartialEq, Eq, Structural)]
pub enum BindEvidence {
    /// The lead said so.
    Asserted,
    /// It holds one of our panes.
    InferredOwnPane,
    /// It came up when and where the lead did.
    InferredSpawnWindow,
}

/// Whether the sessions of a run can be messaged on this machine.
#[derive(Debug, PartialEq, Eq)]
pub enum MessagingSupport {
    Available,
    /// A variable that may switch messaging off is set.
    KillSwitchSuspected { variable: String, value: String },
    UnsupportedPlatform { platform: String },
    ClaudeTooOld { found: String, required: String },
}

/// Only what can be checked keeps messages back: a suspicion does not.
pub open spec fn blocks(support: MessagingSupport) -> bool {
    support is UnsupportedPlatform || support is ClaudeTooOld
}

/// The word for a state of messaging.
pub open spec fn support_code(support: MessagingSupport) -> Seq<char> {
    match support {
        MessagingSupport::Available => "available"@,
        MessagingSupport::KillSwitchSuspected { .. } => "kill_switch_suspected"@,
        MessagingSupport::UnsupportedPlatform { .. } => "unsupported_platform"@,
        MessagingSupport::ClaudeTooOld { .. } => "claude_too_old"@,
    }
}

impl MessagingSupport {
    pub fn blocks_messaging(&self) -> (r: bool)
        ensures
            r == blocks(*self),
    {
        match self {
            MessagingSupport::UnsupportedPlatform { .. } => true,
            MessagingSupport::ClaudeTooOld { .. } => true,
            _ => false,
        }
    }

    pub fn code(&self) -> (r: String)
        ensures
            r@ == support_code(*self),
    {
        match self {
            MessagingSupport::Available => "available".to_owned(),
            MessagingSupport::KillSwitchSuspected { .. } => "kill_switch_suspected".to_owned(),
            MessagingSupport::UnsupportedPlatform { .. } => "unsupported_platform".to_owned(),
            MessagingSupport::ClaudeTooOld { .. } => "claude_too_old".to_owned(),
        }
    }
}

/// What is taken to be known of messaging: what was found out, and without that the worst.
pub open spec fn support_assumed(
    classified: Option<MessagingSupport>,
    r: MessagingSupport,
) -> bool {
    match classified {
        Some(s) => r == s,
        None => r matches MessagingSupport::ClaudeTooOld { found, required } && found@
            == "unknown"@ && required@ == MESSAGING_REQUIRED_VERSION@,
    }
}

/// The state of messaging on this machine. `classified` is what its version, its
/// platform and its variables make of it, and nothing where no version could be read.
pub fn preflight_messaging_for_lead(classified: Option<MessagingSupport>) -> (r: MessagingSupport)
    ensures
        support_assumed(classified, r),
{
    match classified {
        Some(s) => s,
        None => MessagingSupport::ClaudeTooOld {
            found: "unknown".to_owned(),
            required: MESSAGING_REQUIRED_VERSION.to_owned(),
        },
    }
}

/// The run of a team lead. Times are in milliseconds.
#[derive(Debug, PartialEq, Eq)]
pub struct LiveLeadRun {
    pub run_id: String,
    pub lead_pane_id: String,
    pub lead_terminal_id: String,
    pub lead_cwd: String,
    pub spawned_at_unix_ms: u64,
    pub binding: Option<LeadBinding>,
    pub bind_evidence: Option<BindEvidence>,
    pub lead_endpoint: Option<SessionEndpoint>,
    /// The other sessions that identified themselves, by their pane.
    pub member_endpoints: TextMap<SessionEndpoint>,
    pub messaging: MessagingSupport,
    /// The state of messaging in words.
    pub messaging_detail: String,
    pub split_pane_confirmed: bool,
    /// The names the team has for the members in its panes.
    pub roster: TextMap<String>,
    pub node_keys: Vec<String>,
    pub seeded: bool,
    pub seed_prompt: String,
    pub closed: bool,
    pub journal_seq: u64,
    pub next_poll_at_ms: Option<u64>,
}

/// The same run, to be looked at again once the interval is over.
pub open spec fn rearmed(run: LiveLeadRun, now_ms: u64) -> LiveLeadRun {
    LiveLeadRun {
        next_poll_at_ms: Some(
            if now_ms + RUN_PROJECTION_INTERVAL_MS > u64::MAX {
                u64::MAX
            } else {
                (now_ms + RUN_PROJECTION_INTERVAL_MS) as u64
            },
        ),
        ..run
    }
}

/// The same run, with one more entry counted in its journal.
pub open spec fn counted_on(run: LiveLeadRun) -> LiveLeadRun {
    LiveLeadRun {
        journal_seq: if run.journal_seq == u64::MAX {
            u64::MAX
        } else {
            (run.journal_seq + 1) as u64
        },
        ..run
    }
}

impl LiveLeadRun {
    pub open spec fn wf(self) -> bool {
        self.member_endpoints.wf() && self.roster.wf()
    }

    pub fn poll_due(&self, now_ms: u64) -> (r: bool)
        ensures
            r == (!self.closed && match self.next_poll_at_ms {
                Some(due) => now_ms >= due,
                None => true,
            }),
    {
        !self.closed && match self.next_poll_at_ms {
            Some(due) => now_ms >= due,
            None => true,
        }
    }

    pub fn rearm(&mut self, now_ms: u64)
        ensures
            *final(self) == rearmed(*old(self), now_ms),
    {
        self.next_poll_at_ms = Some(now_ms.saturating_add(RUN_PROJECTION_INTERVAL_MS));
    }

    /// Takes the next number for the journal of the run.
    pub fn next_journal_seq(&mut self) -> (r: u64)
        ensures
            r == old(self).journal_seq,
            *final(self) == counted_on(*old(self)),
    {
        let seq = self.journal_seq;
        self.journal_seq = seq.saturating_add(1);
        seq
    }

    pub fn next_poll_deadline(&self, now_ms: u64) -> (r: Option<u64>)
        ensures
            r == (if self.closed {
                None
            } else {
                match self.next_poll_at_ms {
                    Some(due) => Some(due),
                    None => Some(now_ms),
                }
            }),
    {
        if self.closed {
            return None;
        }
        match self.next_poll_at_ms {
            Some(due) => Some(due),
            None => Some(now_ms),
        }
    }
}

/// The run that is live, if any.
#[derive(Debug, PartialEq, Eq)]
pub struct LeadDesk {
    pub run: Option<LiveLeadRun>,
}

/// Whether there is a run that is not closed.
pub open spec fn is_live(desk: LeadDesk) -> bool {
    desk.run matches Some(run) && !run.closed
}

/// Whether the live run is this one.
pub open spec fn is_live_run(desk: LeadDesk, run_id: Seq<char>) -> bool {
    desk.run matches Some(run) && !run.closed && run.run_id@ == run_id
}

/// The same desk, but for one field of its run.
pub open spec fn with_closed(desk: LeadDesk) -> LeadDesk {
    match desk.run {
        Some(run) => LeadDesk { run: Some(LiveLeadRun { closed: true, ..run }) },
        None => desk,
    }
}

/// What a new run starts with.
#[derive(Debug, PartialEq, Eq)]
pub struct LeadLaunch {
    pub run_id: String,
    pub lead_pane_id: String,
    pub lead_terminal_id: String,
    pub cwd: String,
    pub spawned_at_unix_ms: u64,
    pub messaging: MessagingSupport,
    pub messaging_detail: String,
    pub node_keys: Vec<String>,
    pub seed_prompt: String,
}

/// What recognising a team came to.
#[allow(inconsistent_fields)]
#[derive(Debug, PartialEq, Eq)]
pub enum BindDecision {
    Bound { binding: LeadBinding, evidence: BindEvidence },
    Waiting,
    /// It took too long; `reason` says so in words.
    Expired { waited_ms: u64, reason: String },
}

/// What a session's report about itself was taken for.
#[allow(inconsistent_fields)]
#[derive(Debug, PartialEq, Eq)]
pub enum ReportVerdict {
    Lead { endpoint: SessionEndpoint },
    Member { pane_id: String, endpoint: SessionEndpoint },
    Ignored,
}

/// A change that was seen in the task list.
#[derive(Debug, PartialEq, Eq)]
pub struct TaskChange {
    pub path: String,
    pub node_key: Option<String>,
    pub task_id: String,
    pub subject: String,
    pub owner: Option<String>,
    pub status: TaskStatus,
    pub emergent: bool,
    pub blocked_by: Vec<String>,
}

/// A change that was seen in the team.
#[derive(Debug, PartialEq, Eq)]
pub struct MemberChange {
    pub name: String,
    pub agent_type: String,
    pub model: Option<String>,
    pub pane_id: Option<String>,
    pub backend_type: String,
    pub is_active: bool,
    pub cwd: Option<String>,
}

/// The status of a task, as its list has it.
#[derive(Debug, PartialEq, Eq)]
pub enum TaskStatus {
    Pending,
    InProgress,
    Completed,
    Unknown(String),
}

/// A status that is not known leaves a node unstarted.
pub open spec fn node_status(status: TaskStatus) -> NodeStatus {
    match status {
        TaskStatus::Pending => NodeStatus::Pending,
        TaskStatus::InProgress => NodeStatus::Running,
        TaskStatus::Completed => NodeStatus::Succeeded,
        TaskStatus::Unknown(_) => NodeStatus::Pending,
    }
}

pub fn node_status_for(status: &TaskStatus) -> (r: NodeStatus)
    ensures
        r == node_status(*status),
{
    match status {
        TaskStatus::Pending => NodeStatus::Pending,
        TaskStatus::InProgress => NodeStatus::Running,
        TaskStatus::Completed => NodeStatus::Succeeded,
        TaskStatus::Unknown(_) => NodeStatus::Pending,
    }
}

/// Whether a file of a task list holds a task.
pub fn is_task_file(path: &str, windows: bool) -> (r: bool)
    ensures
        r == (extension(path@, windows) == Some("json"@)),
{
    match path_extension(path, windows) {
        Some(ext) => str_eq(ext.as_str(), "json"),
        None => false,
    }
}

/// Which files of a task list are read: those that hold a task, among the first so many
/// that the directory has.
pub open spec fn task_files_of(entries: Seq<Seq<char>>, windows: bool) -> Seq<Seq<char>> {
    (if entries.len() > MAX_TASK_FILES {
        entries.take(MAX_TASK_FILES as int)
    } else {
        entries
    }).filter(|path: Seq<char>| extension(path, windows) == Some("json"@))
}

pub fn task_files(entries: &Vec<String>, windows: bool) -> (r: Vec<String>)
    ensures
        texts(r@) == task_files_of(texts(entries@), windows),
{
    let ghost holds = |path: Seq<char>| extension(path, windows) == Some("json"@);
    let n: usize = if entries.len() > MAX_TASK_FILES {
        MAX_TASK_FILES
    } else {
        entries.len()
    };
    let mut out: Vec<String> = Vec::new();
    let mut i: usize = 0;
    proof {
        reveal(Seq::filter);
        assert(texts(entries@).take(0).filter(holds) =~= Seq::<Seq<char>>::empty());
    }
    while i < n
        invariant
            i <= n <= entries@.len(),
            holds == (|path: Seq<char>| extension(path, windows) == Some("json"@)),
            texts(out@) == texts(entries@).take(i as int).filter(holds),
        decreases n - i,
    {
        proof {
            reveal(Seq::filter);
            assert(texts(entries@).take(i as int + 1).drop_last() =~= texts(entries@).take(
                i as int,
            ));
            assert(texts(entries@).take(i as int + 1).last() == entries@[i as int]@);
        }
        if is_task_file(entries[i].as_str(), windows) {
            let ghost before = out@;
            out.push(entries[i].clone());
            assert(texts(out@) =~= texts(before).push(entries@[i as int]@));
        }
        i = i + 1;
    }
    assert(texts(entries@).take(texts(entries@).len() as int) =~= texts(entries@));
    out
}

/// How long a run may wait for its team, in milliseconds: what the variable says, where
/// it says a number above zero.
pub open spec fn deadline(variable: Option<Seq<char>>, default_ms: u64) -> u64 {
    match variable {
        Some(v) => match read_unsigned(trim(v), u64::MAX as nat) {
            Some(ms) if ms > 0 => ms as u64,
            _ => default_ms,
        },
        None => default_ms,
    }
}

pub fn bind_deadline(variable: Option<&str>, default_ms: u64) -> (r: u64)
    ensures
        r == deadline(opt_str(variable), default_ms),
{
    match variable {
        Some(v) => match parse_unsigned(trim_str(v).as_str(), u64::MAX) {
            Some(ms) => if ms > 0 {
                ms
            } else {
                default_ms
            },
            None => default_ms,
        },
        None => default_ms,
    }
}

// ---------------------------------------------------------------------------
// Life and death
// ---------------------------------------------------------------------------

/// What a look at a run begins with.
#[derive(Debug, Clone, Copy, PartialEq, Eq, Structural)]
pub enum PollStart {
    /// It is not time, or there is no run.
    NotDue,
    /// The lead is gone, and the run is closed.
    Ended,
    /// The files are to be read.
    Look,
}

/// The beginning of a look at the live run: nothing where there is none, or where it is not
/// due. A run whose lead is gone is closed with what was last seen of it.
pub open spec fn run_polled(
    before: LeadDesk,
    after: LeadDesk,
    now_ms: u64,
    lead_terminal_present: bool,
    unix_ms: u64,
    asked: Seq<Effect>,
    asked_after: Seq<Effect>,
    r: PollStart,
) -> bool {
    match before.run {
        None => r is NotDue && after == before && asked_after == asked,
        Some(run) => if run.closed || (run.next_poll_at_ms matches Some(due) && now_ms < due) {
            r is NotDue && after == before && asked_after == asked
        } else {
            let armed = LiveLeadRun {
                next_poll_at_ms: Some(
                    if now_ms + RUN_PROJECTION_INTERVAL_MS > u64::MAX {
                        u64::MAX
                    } else {
                        (now_ms + RUN_PROJECTION_INTERVAL_MS) as u64
                    },
                ),
                ..run
            };
            if lead_terminal_present {
                r is Look && after.run == Some(armed) && asked_after == asked
            } else {
                r is Ended && after.run == Some(LiveLeadRun { closed: true, ..armed })
                    && asked_after == asked.push(exited_write(run, unix_ms)).push(
                    Effect::RunFinished { run_id: run.run_id },
                )
            }
        },
    }
}

/// The failure of a run whose lead is gone.
pub open spec fn exited_write(run: LiveLeadRun, ended_at: u64) -> Effect {
    Effect::Write(
        StoreWrite::RunFailed {
            run: run.run_id,
            ended_at_unix_ms: ended_at,
            failure: RunFailure::LeadExited {
                team_name: match run.binding {
                    Some(b) => Some(b.team_name),
                    None => None,
                },
            },
        },
    )
}

/// A run is taken up with what it was launched with, and nothing is known of it yet.
pub open spec fn launched(launch: LeadLaunch, after: LeadDesk) -> bool {
    after.run matches Some(run) && {
        &&& run.run_id == launch.run_id
        &&& run.lead_pane_id == launch.lead_pane_id
        &&& run.lead_terminal_id == launch.lead_terminal_id
        &&& run.lead_cwd == launch.cwd
        &&& run.spawned_at_unix_ms == launch.spawned_at_unix_ms
        &&& run.binding is None && run.bind_evidence is None && run.lead_endpoint is None
        &&& run.member_endpoints@ == Map::<Seq<char>, SessionEndpoint>::empty()
        &&& run.roster@ == Map::<Seq<char>, String>::empty()
        &&& run.messaging == launch.messaging
        &&& run.messaging_detail == launch.messaging_detail
        &&& run.node_keys == launch.node_keys
        &&& run.seed_prompt == launch.seed_prompt
        &&& !run.split_pane_confirmed && !run.seeded && !run.closed
        &&& run.journal_seq == 0
        &&& run.next_poll_at_ms is None
    }
}

/// The live run ends with its lead; where no run is live nothing changes.
pub open spec fn ended_without_finishing(
    before: LeadDesk,
    after: LeadDesk,
    ended_at: u64,
    asked: Seq<Effect>,
    asked_after: Seq<Effect>,
    r: bool,
) -> bool {
    &&& r == is_live(before)
    &&& r ==> after == with_closed(before) && asked_after == asked.push(
        exited_write(before.run->0, ended_at),
    ).push(Effect::RunFinished { run_id: before.run->0.run_id })
    &&& !r ==> after == before && asked_after == asked
}

/// The run fails for want of its team.
pub open spec fn failed_unbound(
    before: LeadDesk,
    after: LeadDesk,
    waited_ms: u64,
    reason: String,
    unix_ms: u64,
    asked: Seq<Effect>,
    asked_after: Seq<Effect>,
    r: bool,
) -> bool {
    &&& r == (before.run is Some)
    &&& after == with_closed(before)
    &&& asked_after == (match before.run {
        Some(run) => asked.push(
            Effect::Write(
                StoreWrite::RunFailed {
                    run: run.run_id,
                    ended_at_unix_ms: unix_ms,
                    failure: RunFailure::LeadUnbound { detail: reason, waited_ms },
                },
            ),
        ),
        None => asked,
    })
}

/// A run is recorded as ended well, and closed where it is the one that is driven.
pub open spec fn finished(
    before: LeadDesk,
    after: LeadDesk,
    run_id: Seq<char>,
    ended_at: u64,
    asked: Seq<Effect>,
    asked_after: Seq<Effect>,
) -> bool {
    &&& after == (if before.run is Some && before.run->0.run_id@ == run_id {
        with_closed(before)
    } else {
        before
    })
    &&& asked_after.len() == asked.len() + 1
    &&& asked_after.drop_last() == asked
    &&& asked_after.last() matches Effect::Write(
        StoreWrite::RunStatus { run, status, ended_at_unix_ms: at },
    ) && run@ == run_id && status is Succeeded && at == Some(ended_at)
}

/// The live run of this id is cancelled; any other is left alone.
pub open spec fn cancelled(
    before: LeadDesk,
    after: LeadDesk,
    run_id: Seq<char>,
    ended_at: u64,
    asked: Seq<Effect>,
    asked_after: Seq<Effect>,
    r: bool,
) -> bool {
    &&& r == is_live_run(before, run_id)
    &&& r ==> after == with_closed(before) && asked_after == asked.push(
        Effect::Write(
            StoreWrite::RunStatus {
                run: before.run->0.run_id,
                status: RunStatus::Cancelled,
                ended_at_unix_ms: Some(ended_at),
            },
        ),
    ).push(Effect::ClosePane { pane_id: before.run->0.lead_pane_id })
    &&& !r ==> after == before && asked_after == asked
}

impl LeadDesk {
    pub open spec fn wf(self) -> bool {
        self.run matches Some(run) ==> run.wf()
    }

    pub fn new() -> (r: Self)
        ensures
            r.run is None,
            r.wf(),
    {
        LeadDesk { run: None }
    }

    pub fn lead_run_is_live(&self) -> (r: bool)
        ensures
            r == is_live(*self),
    {
        match &self.run {
            Some(run) => !run.closed,
            None => false,
        }
    }

    pub fn is_live_lead_run(&self, run_id: &str) -> (r: bool)
        ensures
            r == is_live_run(*self, run_id@),
    {
        match &self.run {
            Some(run) => !run.closed && str_eq(run.run_id.as_str(), run_id),
            None => false,
        }
    }

    pub fn live_lead_run_id(&self) -> (r: Option<String>)
        ensures
            match self.run {
                Some(run) => if run.closed {
                    r is None
                } else {
                    r == Some(run.run_id)
                },
                None => r is None,
            },
    {
        match &self.run {
            Some(run) => if run.closed {
                None
            } else {
                Some(run.run_id.clone())
            },
            None => None,
        }
    }

    pub fn run_projection_deadline(&self, now_ms: u64) -> (r: Option<u64>)
        ensures
            r == (match self.run {
                Some(run) => if run.closed {
                    None
                } else {
                    match run.next_poll_at_ms {
                        Some(due) => Some(due),
                        None => Some(now_ms),
                    }
                },
                None => None,
            }),
    {
        match &self.run {
            Some(run) => run.next_poll_deadline(now_ms),
            None => None,
        }
    }

    /// Takes up a run whose lead's pane has just come up.
    pub fn bind_lead_run(&mut self, launch: LeadLaunch)
        ensures
            final(self).wf(),
            launched(launch, *final(self)),
    {
        self.run = Some(
            LiveLeadRun {
                run_id: launch.run_id,
                lead_pane_id: launch.lead_pane_id,
                lead_terminal_id: launch.lead_terminal_id,
                lead_cwd: launch.cwd,
                spawned_at_unix_ms: launch.spawned_at_unix_ms,
                binding: None,
                bind_evidence: None,
                lead_endpoint: None,
                member_endpoints: TextMap::new(),
                messaging: launch.messaging,
                messaging_detail: launch.messaging_detail,
                split_pane_confirmed: false,
                roster: TextMap::new(),
                node_keys: launch.node_keys,
                seeded: false,
                seed_prompt: launch.seed_prompt,
                closed: false,
                journal_seq: 0,
                next_poll_at_ms: None,
            },
        );
    }

    /// Whether the terminal of the live run's lead is gone. `present` says that it is
    /// still there.
    pub fn lead_terminal_is_gone(&self, present: bool) -> (r: bool)
        ensures
            r == (is_live(*self) && !present),
    {
        self.lead_run_is_live() && !present
    }

    /// Begins a look at the run. A run whose lead is gone is closed with what was last
    /// seen of it.
    pub fn poll_run_projection(
        &mut self,
        now_ms: u64,
        lead_terminal_present: bool,
        unix_ms: u64,
        effects: &mut Vec<Effect>,
    ) -> (r: PollStart)
        ensures
            old(self).wf() ==> final(self).wf(),
            run_polled(
                *old(self),
                *final(self),
                now_ms,
                lead_terminal_present,
                unix_ms,
                old(effects)@,
                final(effects)@,
                r,
            ),
    {
        match &mut self.run {
            None => {
                return PollStart::NotDue;
            },
            Some(run) => {
                if !run.poll_due(now_ms) {
                    return PollStart::NotDue;
                }
                run.rearm(now_ms);
            },
        }
        if lead_terminal_present {
            PollStart::Look
        } else {
            let _ = self.lead_run_ended_without_finishing(unix_ms, effects);
            PollStart::Ended
        }
    }

    /// One look of the watchdog. It does not watch yet: nothing is seen, and nothing is
    /// changed.
    pub fn poll_run_watchdog(&mut self, now_ms: u64) -> (r: bool)
        ensures
            !r,
            *final(self) == *old(self),
    {
        let _ = now_ms;
        false
    }

    /// Closes a run whose lead ended without a word. It can be taken up again.
    pub fn lead_run_ended_without_finishing(
        &mut self,
        ended_at_unix_ms: u64,
        effects: &mut Vec<Effect>,
    ) -> (r: bool)
        ensures
            old(self).wf() ==> final(self).wf(),
            ended_without_finishing(
                *old(self),
                *final(self),
                ended_at_unix_ms,
                old(effects)@,
                final(effects)@,
                r,
            ),
    {
        match &mut self.run {
            None => false,
            Some(run) => {
                if run.closed {
                    return false;
                }
                let team_name = match &run.binding {
                    Some(b) => Some(b.team_name.clone()),
                    None => None,
                };
                effects.push(
                    Effect::Write(
                        StoreWrite::RunFailed {
                            run: run.run_id.clone(),
                            ended_at_unix_ms,
                            failure: RunFailure::LeadExited { team_name },
                        },
                    ),
                );
                effects.push(Effect::RunFinished { run_id: run.run_id.clone() });
                run.closed = true;
                true
            },
        }
    }

    /// Closes a run whose team was not recognised in time. Its pane stays, with whatever
    /// went wrong to be seen in it.
    pub fn lead_run_failed_unbound(
        &mut self,
        waited_ms: u64,
        reason: String,
        unix_ms: u64,
        effects: &mut Vec<Effect>,
    ) -> (r: bool)
        ensures
            old(self).wf() ==> final(self).wf(),
            failed_unbound(
                *old(self),
                *final(self),
                waited_ms,
                reason,
                unix_ms,
                old(effects)@,
                final(effects)@,
                r,
            ),
    {
        match &mut self.run {
            None => false,
            Some(run) => {
                effects.push(
                    Effect::Write(
                        StoreWrite::RunFailed {
                            run: run.run_id.clone(),
                            ended_at_unix_ms: unix_ms,
                            failure: RunFailure::LeadUnbound { detail: reason, waited_ms },
                        },
                    ),
                );
                run.closed = true;
                true
            },
        }
    }

    /// Records that a run ended well. Only the live run is closed by it.
    pub fn finish_lead_run(
        &mut self,
        run_id: &str,
        ended_at_unix_ms: u64,
        effects: &mut Vec<Effect>,
    )
        ensures
            old(self).wf() ==> final(self).wf(),
            finished(
                *old(self),
                *final(self),
                run_id@,
                ended_at_unix_ms,
                old(effects)@,
                final(effects)@,
            ),
    {
        let ghost before = effects@;
        effects.push(
            Effect::Write(
                StoreWrite::RunStatus {
                    run: run_id.to_owned(),
                    status: RunStatus::Succeeded,
                    ended_at_unix_ms: Some(ended_at_unix_ms),
                },
            ),
        );
        assert(effects@.drop_last() =~= before);
        match &mut self.run {
            Some(run) => {
                if str_eq(run.run_id.as_str(), run_id) {
                    run.closed = true;
                }
            },
            None => {},
        }
    }

    /// Cancels the live run: closing the pane of its lead is all it takes.
    pub fn cancel_lead_run(
        &mut self,
        run_id: &str,
        ended_at_unix_ms: u64,
        effects: &mut Vec<Effect>,
    ) -> (r: bool)
        ensures
            old(self).wf() ==> final(self).wf(),
            cancelled(
                *old(self),
                *final(self),
                run_id@,
                ended_at_unix_ms,
                old(effects)@,
                final(effects)@,
                r,
            ),
    {
        match &mut self.run {
            None => false,
            Some(run) => {
                if run.closed || !str_eq(run.run_id.as_str(), run_id) {
                    return false;
                }
                effects.push(
                    Effect::Write(
                        StoreWrite::RunStatus {
                            run: run.run_id.clone(),
                            status: RunStatus::Cancelled,
                            ended_at_unix_ms: Some(ended_at_unix_ms),
                        },
                    ),
                );
                effects.push(Effect::ClosePane { pane_id: run.lead_pane_id.clone() });
                run.closed = true;
                true
            },
        }
    }
}

/// Writing that a run is going.
pub open spec fn marked_running(
    run_id: Seq<char>,
    before: Seq<Effect>,
    after: Seq<Effect>,
) -> bool {
    &&& after.len() == before.len() + 1
    &&& after.drop_last() == before
    &&& after.last() matches Effect::Write(
        StoreWrite::RunStatus { run, status, ended_at_unix_ms },
    ) && run@ == run_id && status is Running && ended_at_unix_ms is None
}

/// Records that a run is under way.
pub fn mark_lead_run_running(run_id: &str, effects: &mut Vec<Effect>)
    ensures
        marked_running(run_id@, old(effects)@, final(effects)@),
{
    let ghost before = effects@;
    effects.push(
        Effect::Write(
            StoreWrite::RunStatus {
                run: run_id.to_owned(),
                status: RunStatus::Running,
                ended_at_unix_ms: None,
            },
        ),
    );
    assert(effects@.drop_last() =~= before);
}

/// The summary of a run is kept as it was written.
pub open spec fn summary_kept(
    run_id: Seq<char>,
    version: Seq<char>,
    text: String,
    outcome: String,
    asked: Seq<Effect>,
    asked_after: Seq<Effect>,
) -> bool {
    &&& asked_after.len() == asked.len() + 1
    &&& asked_after.drop_last() == asked
    &&& asked_after.last() matches Effect::Write(
        StoreWrite::RunSummary {
            run,
            kvdag_version,
            text: t,
            outcome: o,
            highlights,
            open_gaps,
            per_node,
            token_estimate,
            generated_by_path,
        },
    ) && run@ == run_id && kvdag_version@ == version && t == text && o == outcome
        && highlights@.len() == 0 && open_gaps@.len() == 0 && per_node@.len() == 0
        && generated_by_path is None && token_estimate == (if byte_len(text@) / 4 > u32::MAX {
        u32::MAX as nat
    } else {
        byte_len(text@) / 4
    })
}

/// Keeps the summary a lead wrote: prose, and nothing but prose. Four bytes are taken
/// for a token.
pub fn persist_lead_run_summary(
    run_id: &str,
    version: &str,
    text: String,
    outcome: String,
    effects: &mut Vec<Effect>,
)
    requires
        byte_len(text@) <= usize::MAX,
    ensures
        summary_kept(run_id@, version@, text, outcome, old(effects)@, final(effects)@),
{
    let quarter: u64 = count_bytes(text.as_str()) / 4;
    let token_estimate: u32 = if quarter > u32::MAX as u64 {
        u32::MAX
    } else {
        quarter as u32
    };
    let ghost before = effects@;
    effects.push(
        Effect::Write(
            StoreWrite::RunSummary {
                run: run_id.to_owned(),
                kvdag_version: version.to_owned(),
                text,
                outcome,
                highlights: Vec::new(),
                open_gaps: Vec::new(),
                per_node: Vec::new(),
                token_estimate,
                generated_by_path: None,
            },
        ),
    );
    assert(effects@.drop_last() =~= before);
}

/// A closed run stays closed, and is never written about again: no look opens it, no
/// second end is recorded, and it cannot be cancelled.
pub proof fn law_a_closed_run_stays_closed(desk: LeadDesk, run_id: Seq<char>)
    requires
        desk.run matches Some(run) && run.closed,
    ensures
        !is_live(desk),
        !is_live_run(desk, run_id),
        with_closed(desk) == desk,
{
    assert(with_closed(desk).run->0 == desk.run->0);
}

} // verus!
