//! Starting a review cycle, and starting its synthesis.
//!
//! Preconditions are asked in the order a user would ask them, and only then is
//! anything written or spawned. Writing a document and spawning a pane happen
//! outside; their outcomes come back as values.

use crate::app::effects::{
    extends, leaves_run_status, Effect, NoticeLevel, ReviewEventKind, StoreWrite, UserNotice,
};
use crate::app::review::{
    Attributed, InterviewPane, InterviewPhase, LiveReviewCycle, PlannedInterview, SynthesisPane,
    SynthesisState,
};
use crate::app::review_desk::{
    lemma_open_cycle, one_cycle_per_run, open_cycle, LiveReviews, ReviewRefusal, ReviewRefusalCode,
};
use crate::app::review_inputs::{build_review_inputs, inputs_are, RawReview, ReviewInputs};
use crate::app::store::StoreUnavailable;
use crate::model::{
    is_terminal, Assignment, InterviewMode, MemberEvidence, ReviewCycleStatus, RunEvidence,
    RunStatus,
};
use crate::ordered::{entry_keys, TextMap};
use crate::text::{
    cat2, cat3, cat4, copy_opt, copy_strings, decimal, decimal_text, opt_text, split_once,
    split_once_at, str_eq, texts,
};
use vstd::prelude::*;

verus! {

broadcast use crate::text::group_texts;

/// The run an interview or synthesis pane reports against. Deliberately not the
/// variable that lets a lead close its run.
pub const REVIEW_RUN_ID_ENV_VAR: &'static str = "KARVEX_WORKFLOW_REVIEW_RUN_ID";

/// The member an interview pane answers for. A synthesis pane has none.
pub const REVIEW_MEMBER_ENV_VAR: &'static str = "KARVEX_WORKFLOW_REVIEW_MEMBER";

/// The cycle a pane belongs to.
pub const REVIEW_CYCLE_ENV_VAR: &'static str = "KARVEX_WORKFLOW_REVIEW_CYCLE";

/// What the pane list calls the synthesis pane.
pub const SYNTHESIS_PANE_TITLE: &'static str = "review: synthesis";

/// The one command the synthesis pane may run without asking.
pub const SYNTHESIS_ALLOWED_TOOL: &'static str = "Bash(kvx workflow review report:*)";

/// The one command an interview pane may run without asking.
pub const INTERVIEW_ALLOWED_TOOL: &'static str = "Bash(kvx workflow review answer:*)";

/// How far a review pane may act on its own.
pub const INTERVIEW_PERMISSION_MODE: &'static str = "acceptEdits";

// ---------------------------------------------------------------------------
// Words and ids
// ---------------------------------------------------------------------------

/// How a run's status reads in a sentence.
pub open spec fn status_word(status: RunStatus) -> Seq<char> {
    match status {
        RunStatus::Pending => "pending"@,
        RunStatus::Running => "running"@,
        RunStatus::Paused => "paused"@,
        RunStatus::Succeeded => "succeeded"@,
        RunStatus::Failed => "failed"@,
        RunStatus::Cancelled => "cancelled"@,
    }
}

pub fn run_status_word(status: RunStatus) -> (r: &'static str)
    ensures
        r@ == status_word(status),
{
    match status {
        RunStatus::Pending => "pending",
        RunStatus::Running => "running",
        RunStatus::Paused => "paused",
        RunStatus::Succeeded => "succeeded",
        RunStatus::Failed => "failed",
        RunStatus::Cancelled => "cancelled",
    }
}

/// Whether a run has finished.
pub fn run_status_is_terminal(status: RunStatus) -> (r: bool)
    ensures
        r == is_terminal(status),
{
    match status {
        RunStatus::Succeeded | RunStatus::Failed | RunStatus::Cancelled => true,
        _ => false,
    }
}

/// The key of a record id: what follows its first colon.
pub open spec fn id_key(id: Seq<char>) -> Seq<char> {
    match split_once(id, ':') {
        Some((_, key)) => key,
        None => id,
    }
}

pub fn record_key(id: &str) -> (r: String)
    ensures
        r@ == id_key(id@),
{
    match split_once_at(id, ':') {
        Some((_, key)) => key,
        None => id.to_owned(),
    }
}

/// `review_cycle:<run>-<started at>`, from the run's key as a path segment.
pub fn mint_review_cycle_id(run_segment: &str, started_at_unix_ms: u64) -> (r: String)
    ensures
        r@ == "review_cycle:"@ + run_segment@ + "-"@ + decimal(started_at_unix_ms as nat),
{
    cat4("review_cycle:", run_segment, "-", decimal_text(started_at_unix_ms).as_str())
}

/// `interrogation:<cycle>-<member>`, from both keys as path segments.
pub fn mint_interrogation_id(cycle_segment: &str, member_segment: &str) -> (r: String)
    ensures
        r@ == "interrogation:"@ + cycle_segment@ + "-"@ + member_segment@,
{
    cat4("interrogation:", cycle_segment, "-", member_segment)
}

// ---------------------------------------------------------------------------
// Preconditions
// ---------------------------------------------------------------------------

/// How the command override of the environment was read.
pub enum CommandOverride {
    Unset,
    Command(Vec<String>),
    Malformed(String),
}

/// The first precondition that a review of `run_id` fails, word for word.
pub open spec fn start_refusal(
    desk: LiveReviews,
    run_id: Seq<char>,
    inputs: ReviewInputs,
    planned: nat,
    workspace: Option<usize>,
    no_pane: Seq<char>,
    command: CommandOverride,
) -> Option<(ReviewRefusalCode, Seq<char>)> {
    if open_cycle(desk.cycles@, run_id) is Some {
        Some(
            (
                ReviewRefusalCode::InFlight,
                "a review cycle is already running for "@ + run_id,
            ),
        )
    } else if !is_terminal(inputs.status) {
        Some(
            (
                ReviewRefusalCode::RunNotTerminal,
                run_id + " is still "@ + status_word(inputs.status)
                    + "; a review interviews a run that has finished"@,
            ),
        )
    } else if inputs.existing_cycle == Some(ReviewCycleStatus::AwaitingUser) {
        Some(
            (
                ReviewRefusalCode::InFlight,
                run_id + " already has a review cycle that is "@ + "waiting for your decision"@,
            ),
        )
    } else if inputs.existing_cycle == Some(ReviewCycleStatus::Running) {
        Some(
            (
                ReviewRefusalCode::InFlight,
                run_id + " already has a review cycle that is "@ + "running"@,
            ),
        )
    } else if planned == 0 {
        Some(
            (
                ReviewRefusalCode::NoInterviewableMembers,
                run_id
                    + " has no interviewable members: karvex never recorded a team for it"@,
            ),
        )
    } else if workspace is None {
        Some((ReviewRefusalCode::NoTargetPane, no_pane))
    } else {
        match command {
            CommandOverride::Malformed(notice) => Some((ReviewRefusalCode::NotFound, notice@)),
            _ => None,
        }
    }
}

/// A refusal, or none, as the precondition says.
pub open spec fn refusal_is(
    r: Option<ReviewRefusal>,
    want: Option<(ReviewRefusalCode, Seq<char>)>,
) -> bool {
    match (r, want) {
        (Some(e), Some((code, message))) => e.says(code, message),
        (None, None) => true,
        _ => false,
    }
}

/// Whether a review of `run_id` may start, and the first reason why not. `no_pane`
/// is the sentence for a server without a pane to split.
pub fn refuse_review(
    desk: &LiveReviews,
    run_id: &str,
    inputs: &ReviewInputs,
    planned: usize,
    workspace: Option<usize>,
    no_pane: &str,
    command: &CommandOverride,
) -> (r: Option<ReviewRefusal>)
    ensures
        refusal_is(
            r,
            start_refusal(*desk, run_id@, *inputs, planned as nat, workspace, no_pane@, *command),
        ),
{
    let second = desk.refuse_second_review(run_id);
    if second.is_some() {
        return second;
    }
    if !run_status_is_terminal(inputs.status) {
        return Some(
            ReviewRefusal::new(
                ReviewRefusalCode::RunNotTerminal,
                cat4(
                    run_id,
                    " is still ",
                    run_status_word(inputs.status),
                    "; a review interviews a run that has finished",
                ),
            ),
        );
    }
    match inputs.existing_cycle {
        Some(ReviewCycleStatus::AwaitingUser) => {
            return Some(
                ReviewRefusal::new(
                    ReviewRefusalCode::InFlight,
                    cat3(
                        run_id,
                        " already has a review cycle that is ",
                        "waiting for your decision",
                    ),
                ),
            );
        },
        Some(ReviewCycleStatus::Running) => {
            return Some(
                ReviewRefusal::new(
                    ReviewRefusalCode::InFlight,
                    cat3(run_id, " already has a review cycle that is ", "running"),
                ),
            );
        },
        _ => {},
    }
    if planned == 0 {
        return Some(
            ReviewRefusal::new(
                ReviewRefusalCode::NoInterviewableMembers,
                cat2(
                    run_id,
                    " has no interviewable members: karvex never recorded a team for it",
                ),
            ),
        );
    }
    if workspace.is_none() {
        return Some(ReviewRefusal::new(ReviewRefusalCode::NoTargetPane, no_pane.to_owned()));
    }
    match command {
        CommandOverride::Malformed(notice) => Some(
            ReviewRefusal::new(ReviewRefusalCode::NotFound, notice.clone()),
        ),
        _ => None,
    }
}

/// A review of a run starts only when nothing stands against it: no open cycle, a
/// finished run, no stored cycle that is running or waiting, and somebody to ask.
pub proof fn law_a_review_starts_only_on_a_finished_run(
    desk: LiveReviews,
    run_id: Seq<char>,
    inputs: ReviewInputs,
    planned: nat,
    workspace: Option<usize>,
    no_pane: Seq<char>,
    command: CommandOverride,
)
    requires
        start_refusal(desk, run_id, inputs, planned, workspace, no_pane, command) is None,
    ensures
        is_terminal(inputs.status),
        planned > 0,
        workspace is Some,
        inputs.existing_cycle != Some(ReviewCycleStatus::Running),
        inputs.existing_cycle != Some(ReviewCycleStatus::AwaitingUser),
        forall|i: int|
            0 <= i < desk.cycles@.len() ==> (#[trigger] desk.cycles@[i]).closed
                || desk.cycles@[i].run_id@ != run_id,
{
    crate::app::review_desk::lemma_open_cycle(desk.cycles@, run_id);
}

/// What reading a run for its review gave.
pub enum ReviewLoaded {
    Found(RawReview),
    /// The store has no such run.
    Missing,
    /// The store failed, or could not be had.
    Store(StoreUnavailable),
}

/// Why a run cannot be reviewed before anything of it is known.
#[derive(Debug, PartialEq, Eq)]
pub enum LoadRefusal {
    Refused(ReviewRefusal),
    /// In the store's own words, under its own code.
    Store(StoreUnavailable),
}

/// What a review works from, out of what the store gave.
pub fn load_review_inputs(run_id: &str, loaded: ReviewLoaded) -> (r: Result<
    ReviewInputs,
    LoadRefusal,
>)
    ensures
        match loaded {
            ReviewLoaded::Found(raw) => r matches Ok(inputs) && inputs_are(inputs, raw),
            ReviewLoaded::Missing => r matches Err(LoadRefusal::Refused(e)) && e.says(
                ReviewRefusalCode::NotFound,
                "no run with id "@ + run_id@,
            ),
            ReviewLoaded::Store(u) => r == Err::<ReviewInputs, LoadRefusal>(LoadRefusal::Store(u)),
        },
{
    match loaded {
        ReviewLoaded::Found(raw) => Ok(build_review_inputs(raw)),
        ReviewLoaded::Missing => Err(
            LoadRefusal::Refused(
                ReviewRefusal::new(ReviewRefusalCode::NotFound, cat2("no run with id ", run_id)),
            ),
        ),
        ReviewLoaded::Store(u) => Err(LoadRefusal::Store(u)),
    }
}

/// The workspace that is active, where it has a tab to open a pane in.
pub open spec fn usable_workspace(active: Option<usize>, tabs: Seq<usize>) -> Option<usize> {
    match active {
        Some(i) if i < tabs.len() && tabs[i as int] > 0 => Some(i),
        _ => None,
    }
}

/// Where the panes of a review are opened: in the workspace that is active, where it has
/// a tab. `tabs` has the number of tabs of each workspace.
pub fn review_workspace(active: Option<usize>, tabs: &Vec<usize>) -> (r: Option<usize>)
    ensures
        r == usable_workspace(active, tabs@),
{
    match active {
        Some(i) => if i < tabs.len() && tabs[i] > 0 {
            Some(i)
        } else {
            None
        },
        None => None,
    }
}

/// The refusal for a cycle directory that could not be made.
pub fn cycle_dir_refusal(error: &str) -> (r: ReviewRefusal)
    ensures
        r.says(
            ReviewRefusalCode::NotFound,
            "the review cycle directory could not be created: "@ + error@,
        ),
{
    ReviewRefusal::new(
        ReviewRefusalCode::NotFound,
        cat2("the review cycle directory could not be created: ", error),
    )
}

// ---------------------------------------------------------------------------
// Interviews
// ---------------------------------------------------------------------------

/// Which command an interview pane runs.
#[derive(Debug, PartialEq, Eq)]
pub enum InterviewCommand {
    /// The command of the environment, as it stands.
    Override(Vec<String>),
    /// Fork the member's own session.
    Resume(String),
    /// Work from the record.
    EvidenceOnly,
}

/// What a pane of a cycle is started from.
#[derive(Debug, PartialEq, Eq)]
pub struct InterviewSpawnSpec {
    pub agent: String,
    pub member: String,
    pub cycle_dir: String,
    pub member_project_dir: Option<String>,
    pub assignment: Assignment,
}

/// How one interview pane is to be started.
#[derive(Debug, PartialEq, Eq)]
pub struct InterviewRequest<'a> {
    /// Who is interviewed, and how: what its document is about.
    pub planned: &'a PlannedInterview,
    /// What is on record of the run.
    pub run: &'a RunEvidence,
    /// What is on record of the member.
    pub evidence: Option<&'a MemberEvidence>,
    pub spec: InterviewSpawnSpec,
    /// The directory the pane starts in.
    pub cwd: String,
    /// The workspace the pane is opened in.
    pub ws_idx: usize,
    pub interrogation: Option<String>,
    pub env: Vec<(String, String)>,
    pub command: InterviewCommand,
    /// Whether the pane runs an agent that reports itself ready.
    pub managed: bool,
}

/// The record of a member; the first of them where there are more.
pub open spec fn member_record(members: Seq<MemberEvidence>, name: Seq<char>) -> Option<
    MemberEvidence,
>
    decreases members.len(),
{
    if members.len() == 0 {
        None
    } else if members[0].name@ == name {
        Some(members[0])
    } else {
        member_record(members.skip(1), name)
    }
}

fn find_member<'a>(evidence: &'a RunEvidence, name: &str) -> (r: Option<&'a MemberEvidence>)
    ensures
        match r {
            Some(m) => member_record(evidence.members@, name@) == Some(*m),
            None => member_record(evidence.members@, name@) is None,
        },
{
    let mut i: usize = 0;
    assert(evidence.members@.skip(0) =~= evidence.members@);
    while i < evidence.members.len()
        invariant
            i <= evidence.members@.len(),
            member_record(evidence.members@, name@) == member_record(
                evidence.members@.skip(i as int),
                name@,
            ),
        decreases evidence.members@.len() - i,
    {
        assert(evidence.members@.skip(i as int)[0] == evidence.members@[i as int]);
        if str_eq(evidence.members[i].name.as_str(), name) {
            return Some(&evidence.members[i]);
        }
        assert(evidence.members@.skip(i as int).skip(1) =~= evidence.members@.skip(i as int + 1));
        i = i + 1;
    }
    None
}

/// The variables of a pane, by their views.
pub open spec fn env_text(env: Seq<(String, String)>) -> Seq<(Seq<char>, Seq<char>)> {
    env.map_values(|e: (String, String)| (e.0@, e.1@))
}

/// A cycle that is being started: what every interview shares, and what the
/// interviews started so far left behind.
pub struct ReviewStart {
    pub run_id: String,
    pub cycle_id: String,
    /// The program of the agent that its panes run.
    pub agent: String,
    pub cycle_dir: String,
    pub ws_idx: usize,
    pub assignment: Assignment,
    pub started_at_unix_ms: u64,
    pub command_override: Option<Vec<String>>,
    pub spawned: Vec<PlannedInterview>,
    pub panes: TextMap<InterviewPane>,
    pub interrogations: TextMap<String>,
    pub rows: Vec<Effect>,
}

/// How an interview is asked for: who is interviewed and from what record, where its pane
/// is opened, what it is told by its environment, and which command it runs.
pub open spec fn interview_asked(
    start: ReviewStart,
    planned: PlannedInterview,
    inputs: ReviewInputs,
    interrogation: Seq<char>,
    fork_env: Seq<(String, String)>,
    r: InterviewRequest<'_>,
) -> bool {
    &&& *r.planned == planned
    &&& *r.run == inputs.evidence
    &&& match r.evidence {
        Some(m) => member_record(inputs.evidence.members@, planned.member@) == Some(*m),
        None => member_record(inputs.evidence.members@, planned.member@) is None,
    }
    &&& r.spec == (InterviewSpawnSpec {
        agent: start.agent,
        member: planned.member,
        cycle_dir: start.cycle_dir,
        member_project_dir: planned.member_cwd,
        assignment: start.assignment,
    })
    &&& r.cwd == start.cycle_dir
    &&& r.ws_idx == start.ws_idx
    &&& opt_text(r.interrogation) == (if planned.mode == InterviewMode::Resumed {
        Some(interrogation)
    } else {
        None
    })
    &&& env_text(r.env@) == seq![
        (REVIEW_RUN_ID_ENV_VAR@, start.run_id@),
        (REVIEW_CYCLE_ENV_VAR@, start.cycle_id@),
        (REVIEW_MEMBER_ENV_VAR@, planned.member@),
    ] + (if planned.mode == InterviewMode::Resumed {
        env_text(fork_env)
    } else {
        Seq::empty()
    })
    &&& r.managed == (start.command_override is None)
    &&& match start.command_override {
        Some(argv) => r.command matches InterviewCommand::Override(a) && a@ == argv@,
        None => match planned.source_session_id {
            Some(id) => r.command == InterviewCommand::Resume(id),
            None => r.command == InterviewCommand::EvidenceOnly,
        },
    }
}

impl ReviewStart {
    pub open spec fn wf(self) -> bool {
        &&& self.panes.wf()
        &&& self.interrogations.wf()
        &&& forall|i: int|
            0 <= i < self.rows@.len() ==> self.is_own_row(#[trigger] self.rows@[i])
    }

    /// A row that records an interrogation of this run, in the directory of this cycle.
    pub open spec fn is_own_row(self, row: Effect) -> bool {
        row matches Effect::Write(StoreWrite::InterrogationStarted { run, cwd, .. }) && run
            == self.run_id && cwd == self.cycle_dir
    }

    /// How the interview of `planned` is started, and what its document is made from. The
    /// pane starts in the directory of the cycle, never in the member's own, which it is
    /// only told of. `interrogation` is the id its record takes, and `fork_env` what a
    /// forked session needs; both are used for a resumed interview only.
    pub fn interview_request<'a>(
        &self,
        planned: &'a PlannedInterview,
        inputs: &'a ReviewInputs,
        interrogation: &str,
        fork_env: &Vec<(String, String)>,
    ) -> (r: InterviewRequest<'a>)
        ensures
            interview_asked(*self, *planned, *inputs, interrogation@, fork_env@, r),
    {
        let resumed = planned.mode == InterviewMode::Resumed;
        let mut env: Vec<(String, String)> = Vec::new();
        env.push((REVIEW_RUN_ID_ENV_VAR.to_owned(), self.run_id.clone()));
        env.push((REVIEW_CYCLE_ENV_VAR.to_owned(), self.cycle_id.clone()));
        env.push((REVIEW_MEMBER_ENV_VAR.to_owned(), planned.member.clone()));
        let ghost base = env_text(env@);
        proof {
            assert(base =~= seq![
                (REVIEW_RUN_ID_ENV_VAR@, self.run_id@),
                (REVIEW_CYCLE_ENV_VAR@, self.cycle_id@),
                (REVIEW_MEMBER_ENV_VAR@, planned.member@),
            ]);
        }
        if resumed {
            let mut i: usize = 0;
            assert(base + env_text(fork_env@.take(0)) =~= base);
            while i < fork_env.len()
                invariant
                    i <= fork_env@.len(),
                    env_text(env@) == base + env_text(fork_env@.take(i as int)),
                decreases fork_env@.len() - i,
            {
                let ghost prev = env@;
                env.push((fork_env[i].0.clone(), fork_env[i].1.clone()));
                proof {
                    let one = (fork_env@[i as int].0@, fork_env@[i as int].1@);
                    assert(env_text(env@) =~= env_text(prev).push(one));
                    assert(env_text(fork_env@.take(i as int + 1)) =~= env_text(
                        fork_env@.take(i as int),
                    ).push(one));
                    assert(env_text(env@) =~= base + env_text(fork_env@.take(i as int + 1)));
                }
                i = i + 1;
            }
            assert(fork_env@.take(fork_env@.len() as int) =~= fork_env@);
        } else {
            assert(env_text(env@) =~= base + Seq::<(Seq<char>, Seq<char>)>::empty());
        }
        let command = match &self.command_override {
            Some(argv) => InterviewCommand::Override(copy_strings(argv)),
            None => match &planned.source_session_id {
                Some(id) => InterviewCommand::Resume(id.clone()),
                None => InterviewCommand::EvidenceOnly,
            },
        };
        InterviewRequest {
            planned,
            run: &inputs.evidence,
            evidence: find_member(&inputs.evidence, planned.member.as_str()),
            spec: InterviewSpawnSpec {
                agent: self.agent.clone(),
                member: planned.member.clone(),
                cycle_dir: self.cycle_dir.clone(),
                member_project_dir: copy_opt(&planned.member_cwd),
                assignment: self.assignment,
            },
            cwd: self.cycle_dir.clone(),
            ws_idx: self.ws_idx,
            interrogation: if resumed {
                Some(interrogation.to_owned())
            } else {
                None
            },
            env,
            command,
            managed: self.command_override.is_none(),
        }
    }

    /// The interrogation an interview that came up is recorded under: only a
    /// resumed one, with a node to hang it off and a session it came from.
    pub open spec fn recorded_as(
        planned: PlannedInterview,
        interrogation: Option<String>,
        path: Option<String>,
    ) -> bool {
        interrogation is Some && path is Some && planned.source_session_id is Some
    }

    /// The pane of `planned` is up: remembers it with the moment it was launched, from which
    /// its deadline runs, and records the interrogation where there is one to record.
    pub fn interview_spawned(
        &mut self,
        planned: PlannedInterview,
        interrogation: Option<String>,
        path: Option<String>,
        pane_id: String,
        terminal_id: String,
        launched_at_unix_ms: u64,
        seed_prompt: String,
    )
        requires
            old(self).wf(),
        ensures
            final(self).wf(),
            came_up(
                *old(self),
                *final(self),
                (InterviewUp {
                    planned,
                    interrogation,
                    path,
                    pane_id,
                    terminal_id,
                    launched_at_unix_ms,
                    seed_prompt,
                }),
            ),
    {
        match (interrogation, path, &planned.source_session_id) {
            (Some(id), Some(path), Some(session)) => {
                self.interrogations.insert(planned.member.clone(), id.clone());
                self.rows.push(
                    Effect::Write(
                        StoreWrite::InterrogationStarted {
                            id,
                            run: self.run_id.clone(),
                            path,
                            source_session_id: session.clone(),
                            forked_session_id: None,
                            transcript_path: None,
                            cwd: self.cycle_dir.clone(),
                            pane_id: pane_id.clone(),
                            reconstructed: false,
                            seeded_from_seq: None,
                            note: "review interview".to_owned(),
                            started_at_unix_ms: self.started_at_unix_ms,
                        },
                    ),
                );
                assert(self.rows@.drop_last() =~= old(self).rows@);
                assert forall|i: int| 0 <= i < self.rows@.len() implies self.is_own_row(
                    #[trigger] self.rows@[i],
                ) by {
                    if i < old(self).rows@.len() {
                        assert(self.rows@[i] == old(self).rows@[i]);
                    }
                }
            },
            _ => {},
        }
        self.panes.insert(
            planned.member.clone(),
            InterviewPane {
                pane_id,
                terminal_id,
                started_at_unix_ms: launched_at_unix_ms,
                seeded: self.command_override.is_some(),
                seed_prompt,
                identity_recorded: false,
            },
        );
        self.spawned.push(planned);
    }

    /// What a started cycle asks for: its row, the rows of its interrogations, one
    /// event and one notice.
    pub open spec fn start_effects(self, version: String, made: Seq<Effect>) -> bool {
        let n: int = self.rows@.len() as int;
        &&& made.len() == n + 3
        &&& made[0] == Effect::Write(
            StoreWrite::ReviewCycleStarted {
                id: self.cycle_id,
                run: self.run_id,
                kvdag_version: version,
                started_at_unix_ms: self.started_at_unix_ms,
            },
        )
        &&& made.subrange(1, 1 + n) == self.rows@
        &&& made[n + 1] == (Effect::ReviewEvent {
            kind: ReviewEventKind::Started,
            run_id: self.run_id,
        })
        &&& made[n + 2] matches Effect::Notice(notice) && notice.level == NoticeLevel::Info
            && notice.run == Some(self.run_id) && notice.path is None && notice.message@
            == "review started: "@ + decimal(self.spawned@.len()) + " interview(s) running"@
    }

    /// Every planned interview has been tried. With none of them up the review is
    /// refused and nothing is written; otherwise the cycle is live.
    pub fn finish(
        self,
        skipped: Vec<String>,
        inputs: ReviewInputs,
        effects: &mut Vec<Effect>,
    ) -> (r: Result<LiveReviewCycle, ReviewRefusal>)
        requires
            self.wf(),
            inputs.run_nodes.wf(),
        ensures
            extends(old(effects)@, final(effects)@),
            leaves_run_status(final(effects)@, old(effects)@.len() as int),
            finished(self, skipped, inputs, old(effects)@, final(effects)@, r),
    {
        assert(effects@.take(effects@.len() as int) =~= effects@);
        let ghost start = self;
        let ghost n0 = effects@.len() as int;
        if self.spawned.len() == 0 {
            return Err(
                ReviewRefusal::new(
                    ReviewRefusalCode::NotFound,
                    "no interview pane could be started for this review".to_owned(),
                ),
            );
        }
        let ReviewStart {
            run_id,
            cycle_id,
            agent,
            cycle_dir,
            ws_idx,
            assignment,
            started_at_unix_ms,
            command_override,
            spawned,
            panes,
            interrogations,
            rows,
        } = self;
        effects.push(
            Effect::Write(
                StoreWrite::ReviewCycleStarted {
                    id: cycle_id.clone(),
                    run: run_id.clone(),
                    kvdag_version: inputs.version_id.clone(),
                    started_at_unix_ms,
                },
            ),
        );
        let mut rows = rows;
        effects.append(&mut rows);
        effects.push(
            Effect::ReviewEvent { kind: ReviewEventKind::Started, run_id: run_id.clone() },
        );
        effects.push(
            Effect::Notice(
                UserNotice {
                    level: NoticeLevel::Info,
                    run: Some(run_id.clone()),
                    path: None,
                    message: cat3(
                        "review started: ",
                        decimal_text(spawned.len() as u64).as_str(),
                        " interview(s) running",
                    ),
                },
            ),
        );
        proof {
            assert(effects@.take(n0) =~= old(effects)@);
            let made = effects@.skip(n0);
            assert(made.subrange(1, 1 + start.rows@.len() as int) =~= start.rows@);
            assert forall|i: int| n0 <= i < effects@.len() implies (
            #[trigger] effects@[i] matches Effect::Write(w)
                ==> !crate::app::effects::touches_run_status(w)) by {
                if n0 < i <= n0 + start.rows@.len() {
                    assert(effects@[i] == start.rows@[i - n0 - 1]);
                    assert(start.is_own_row(start.rows@[i - n0 - 1]));
                }
            }
        }
        let mut phases: TextMap<InterviewPhase> = TextMap { entries: Vec::new() };
        let mut i: usize = 0;
        while i < panes.entries.len()
            invariant
                i <= panes.entries@.len(),
                panes == start.panes,
                entry_keys(phases.entries@) == entry_keys(panes.entries@).take(i as int),
                phases.entries@.len() == i,
                forall|j: int|
                    0 <= j < i ==> (#[trigger] phases.entries@[j]).1 == InterviewPhase::Running,
            decreases panes.entries@.len() - i,
        {
            phases.entries.push((panes.entries[i].0.clone(), InterviewPhase::Running));
            assert(entry_keys(phases.entries@) =~= entry_keys(panes.entries@).take(i as int + 1));
            i = i + 1;
        }
        assert(entry_keys(panes.entries@).take(panes.entries@.len() as int) =~= entry_keys(
            panes.entries@,
        ));
        Ok(
            LiveReviewCycle {
                cycle_id,
                run_id,
                agent,
                cycle_dir,
                ws_idx,
                plan: spawned,
                skipped,
                phases,
                synthesis_failed_once: false,
                assignment,
                evidence: inputs.evidence,
                node_keys: inputs.node_keys,
                run_nodes: inputs.run_nodes,
                interviews: panes,
                interrogations,
                answers: TextMap::new(),
                synthesis: SynthesisState::Waiting,
                command_override,
                closed: false,
                next_poll_at_ms: None,
            },
        )
    }
}

/// An interview whose pane came up.
#[derive(Debug, PartialEq, Eq)]
pub struct InterviewUp {
    pub planned: PlannedInterview,
    pub interrogation: Option<String>,
    pub path: Option<String>,
    pub pane_id: String,
    pub terminal_id: String,
    /// When its pane was launched, which is after the cycle was started.
    pub launched_at_unix_ms: u64,
    pub seed_prompt: String,
}

/// What a pane that came up leaves behind: the interview, its pane, and the row of its
/// interrogation where there is one to record.
pub open spec fn came_up(before: ReviewStart, after: ReviewStart, up: InterviewUp) -> bool {
    &&& after == (ReviewStart {
        spawned: after.spawned,
        panes: after.panes,
        interrogations: after.interrogations,
        rows: after.rows,
        ..before
    })
    &&& after.spawned@ == before.spawned@.push(up.planned)
    &&& after.panes@ == before.panes@.insert(
        up.planned.member@,
        (InterviewPane {
            pane_id: up.pane_id,
            terminal_id: up.terminal_id,
            started_at_unix_ms: up.launched_at_unix_ms,
            seeded: before.command_override is Some,
            seed_prompt: up.seed_prompt,
            identity_recorded: false,
        }),
    )
    &&& if ReviewStart::recorded_as(up.planned, up.interrogation, up.path) {
        &&& after.interrogations@ == before.interrogations@.insert(
            up.planned.member@,
            up.interrogation->0,
        )
        &&& after.rows@.len() == before.rows@.len() + 1
        &&& after.rows@.drop_last() == before.rows@
        &&& interrogation_row(
            before,
            after.rows@.last(),
            up.interrogation->0,
            up.path->0,
            up.planned.source_session_id->0,
            up.pane_id,
        )
    } else {
        after.interrogations == before.interrogations && after.rows == before.rows
    }
}

/// What a start comes to once every interview has been tried.
pub open spec fn finished(
    start: ReviewStart,
    skipped: Vec<String>,
    inputs: ReviewInputs,
    asked: Seq<Effect>,
    asked_after: Seq<Effect>,
    r: Result<LiveReviewCycle, ReviewRefusal>,
) -> bool {
    match r {
        Err(e) => start.spawned@.len() == 0 && asked_after == asked && e.says(
            ReviewRefusalCode::NotFound,
            "no interview pane could be started for this review"@,
        ),
        Ok(cycle) => {
            &&& start.spawned@.len() > 0
            &&& start.start_effects(inputs.version_id, asked_after.skip(asked.len() as int))
            &&& cycle.wf()
            &&& cycle.cycle_id == start.cycle_id
            &&& cycle.run_id == start.run_id
            &&& cycle.agent == start.agent
            &&& cycle.cycle_dir == start.cycle_dir
            &&& cycle.ws_idx == start.ws_idx
            &&& cycle.plan == start.spawned
            &&& cycle.skipped == skipped
            &&& cycle.assignment == start.assignment
            &&& cycle.evidence == inputs.evidence
            &&& cycle.node_keys == inputs.node_keys
            &&& cycle.run_nodes == inputs.run_nodes
            &&& cycle.interviews == start.panes
            &&& cycle.interrogations == start.interrogations
            &&& cycle.answers@ == Map::<Seq<char>, String>::empty()
            &&& cycle.synthesis == SynthesisState::Waiting
            &&& cycle.command_override == start.command_override
            &&& !cycle.synthesis_failed_once
            &&& !cycle.closed
            &&& cycle.next_poll_at_ms is None
            &&& forall|i: int|
                0 <= i < cycle.phases.entries@.len() ==> (#[trigger] cycle.phases.entries@[i]).1
                    == InterviewPhase::Running
        },
    }
}

/// A cycle that is being started, before any of its interviews.
pub open spec fn begun(
    start: ReviewStart,
    run_id: Seq<char>,
    run_segment: Seq<char>,
    ws_idx: usize,
    command: CommandOverride,
    agent: String,
    cycle_dir: String,
    assignment: Assignment,
    started_at_unix_ms: u64,
) -> bool {
    &&& start.wf()
    &&& start.run_id@ == run_id
    &&& start.agent == agent
    &&& start.cycle_id@ == "review_cycle:"@ + run_segment + "-"@ + decimal(
        started_at_unix_ms as nat,
    )
    &&& start.cycle_dir == cycle_dir
    &&& start.ws_idx == ws_idx
    &&& start.assignment == assignment
    &&& start.started_at_unix_ms == started_at_unix_ms
    &&& start.command_override == (match command {
        CommandOverride::Command(argv) => Some(argv),
        _ => None,
    })
    &&& start.spawned@.len() == 0
    &&& start.panes@ == Map::<Seq<char>, InterviewPane>::empty()
    &&& start.interrogations@ == Map::<Seq<char>, String>::empty()
    &&& start.rows@.len() == 0
}

impl LiveReviews {
    /// The refusal of a second review over a run that is being reviewed. It is asked before
    /// anything is read.
    pub fn refuse_second_review(&self, run_id: &str) -> (r: Option<ReviewRefusal>)
        ensures
            refusal_is(
                r,
                if open_cycle(self.cycles@, run_id@) is Some {
                    Some(
                        (
                            ReviewRefusalCode::InFlight,
                            "a review cycle is already running for "@ + run_id@,
                        ),
                    )
                } else {
                    None
                },
            ),
    {
        match self.live_review_index(run_id) {
            Ok(_) => Some(
                ReviewRefusal::new(
                    ReviewRefusalCode::InFlight,
                    cat2("a review cycle is already running for ", run_id),
                ),
            ),
            Err(_) => None,
        }
    }

    /// Begins a review of `run_id` where nothing stands against it. Its interviews are
    /// then tried one by one, and it is live once it is finished.
    pub fn start_review_cycle(
        &self,
        run_id: &str,
        run_segment: &str,
        inputs: &ReviewInputs,
        planned: usize,
        workspace: Option<usize>,
        no_pane: &str,
        command: CommandOverride,
        agent: String,
        cycle_dir: String,
        assignment: Assignment,
        started_at_unix_ms: u64,
    ) -> (r: Result<ReviewStart, ReviewRefusal>)
        ensures
            match (
                r,
                start_refusal(*self, run_id@, *inputs, planned as nat, workspace, no_pane@, command),
            ) {
                (Err(e), Some((code, message))) => e.says(code, message),
                (Ok(start), None) => workspace matches Some(ws) && begun(
                    start,
                    run_id@,
                    run_segment@,
                    ws,
                    command,
                    agent,
                    cycle_dir,
                    assignment,
                    started_at_unix_ms,
                ),
                _ => false,
            },
    {
        let refusal = refuse_review(self, run_id, inputs, planned, workspace, no_pane, &command);
        match (refusal, workspace) {
            (Some(refusal), _) => Err(refusal),
            (None, Some(ws_idx)) => Ok(
                ReviewStart {
                    run_id: run_id.to_owned(),
                    cycle_id: mint_review_cycle_id(run_segment, started_at_unix_ms),
                    agent,
                    cycle_dir,
                    ws_idx,
                    assignment,
                    started_at_unix_ms,
                    command_override: match command {
                        CommandOverride::Command(argv) => Some(argv),
                        _ => None,
                    },
                    spawned: Vec::new(),
                    panes: TextMap::new(),
                    interrogations: TextMap::new(),
                    rows: Vec::new(),
                },
            ),
            (None, None) => Err(
                ReviewRefusal::new(ReviewRefusalCode::NoTargetPane, no_pane.to_owned()),
            ),
        }
    }

    /// Drives one more cycle, over a run that no other is open for.
    pub fn add_cycle(&mut self, cycle: LiveReviewCycle)
        requires
            old(self).wf(),
            cycle.wf(),
            open_cycle(old(self).cycles@, cycle.run_id@) is None,
        ensures
            final(self).wf(),
            final(self).cycles@ == old(self).cycles@.push(cycle),
    {
        proof {
            lemma_one_more_cycle(self.cycles@, cycle);
        }
        self.cycles.push(cycle);
    }
}

proof fn lemma_one_more_cycle(cycles: Seq<LiveReviewCycle>, cycle: LiveReviewCycle)
    requires
        one_cycle_per_run(cycles),
        open_cycle(cycles, cycle.run_id@) is None,
    ensures
        one_cycle_per_run(cycles.push(cycle)),
{
    lemma_open_cycle(cycles, cycle.run_id@);
    let after = cycles.push(cycle);
    assert forall|i: int, j: int|
        0 <= i < j < after.len() && !(#[trigger] after[i]).closed && !(
        #[trigger] after[j]).closed implies after[i].run_id@ != after[j].run_id@ by {
        assert(after[i] == cycles[i]);
        if j < cycles.len() {
            assert(after[j] == cycles[j]);
        }
    }
}

/// The panes that came up one after the other: `states[i]` is the start before the pane of
/// `ups[i]`. Only a resumed interview has an interrogation.
pub open spec fn interviewed(states: Seq<ReviewStart>, ups: Seq<InterviewUp>) -> bool {
    &&& states.len() == ups.len() + 1
    &&& forall|i: int|
        0 <= i < ups.len() ==> {
            &&& came_up(states[i], states[i + 1], #[trigger] ups[i])
            &&& ups[i].interrogation is Some <==> ups[i].planned.mode == InterviewMode::Resumed
        }
}

/// Whether an interview that came up is put on record: a resumed one that has a node to
/// hang it off, and a session it came from.
pub open spec fn on_record(up: InterviewUp) -> bool {
    up.planned.mode == InterviewMode::Resumed && up.path is Some
        && up.planned.source_session_id is Some
}

/// How many interviews that came up are put on record.
pub open spec fn records(ups: Seq<InterviewUp>) -> nat
    decreases ups.len(),
{
    if ups.len() == 0 {
        0
    } else {
        records(ups.drop_last()) + (if on_record(ups.last()) {
            1nat
        } else {
            0nat
        })
    }
}

proof fn lemma_interviewed(states: Seq<ReviewStart>, ups: Seq<InterviewUp>)
    requires
        interviewed(states, ups),
        states[0].wf(),
    ensures
        states.last().rows@.len() == states[0].rows@.len() + records(ups),
        states.last().spawned@.len() == states[0].spawned@.len() + ups.len(),
        states.last().run_id == states[0].run_id,
        states.last().cycle_id == states[0].cycle_id,
        states.last().cycle_dir == states[0].cycle_dir,
        states.last().started_at_unix_ms == states[0].started_at_unix_ms,
        forall|i: int|
            0 <= i < states.last().rows@.len() ==> states[0].is_own_row(
                #[trigger] states.last().rows@[i],
            ),
    decreases ups.len(),
{
    if ups.len() > 0 {
        let n = ups.len() - 1;
        let front = states.drop_last();
        let rest = ups.drop_last();
        assert(interviewed(front, rest)) by {
            assert forall|i: int| 0 <= i < rest.len() implies {
                &&& came_up(front[i], front[i + 1], #[trigger] rest[i])
                &&& rest[i].interrogation is Some <==> rest[i].planned.mode
                    == InterviewMode::Resumed
            } by {
                assert(rest[i] == ups[i]);
                assert(front[i] == states[i] && front[i + 1] == states[i + 1]);
            }
        }
        lemma_interviewed(front, rest);
        let before = states[n];
        let after = states[n + 1];
        assert(front.last() == before && states.last() == after && ups.last() == ups[n]);
        assert(came_up(before, after, ups[n]));
        assert forall|i: int| 0 <= i < after.rows@.len() implies states[0].is_own_row(
            #[trigger] after.rows@[i],
        ) by {
            if i < before.rows@.len() {
                if ReviewStart::recorded_as(ups[n].planned, ups[n].interrogation, ups[n].path) {
                    assert(after.rows@.drop_last()[i] == before.rows@[i]);
                }
                assert(states[0].is_own_row(before.rows@[i]));
            }
        }
    }
}

/// The first review of a run that nothing stands against adds one open cycle over it, with
/// one interview for each pane that came up; asks for one row that starts the cycle, one
/// row for each resumed interview that has a node, none for the others, and for nothing
/// that touches the status of a run. As long as that cycle is open a second review of the
/// run is refused as in flight, whatever it comes with, and adds nothing.
pub proof fn law_one_review_per_run(
    desk: LiveReviews,
    after: LiveReviews,
    run_id: Seq<char>,
    run_segment: Seq<char>,
    inputs: ReviewInputs,
    planned: nat,
    workspace: Option<usize>,
    no_pane: Seq<char>,
    command: CommandOverride,
    agent: String,
    cycle_dir: String,
    assignment: Assignment,
    started_at_unix_ms: u64,
    states: Seq<ReviewStart>,
    ups: Seq<InterviewUp>,
    skipped: Vec<String>,
    asked: Seq<Effect>,
    asked_after: Seq<Effect>,
    cycle: LiveReviewCycle,
    second_inputs: ReviewInputs,
    second_planned: nat,
    second_workspace: Option<usize>,
    second_command: CommandOverride,
)
    requires
        desk.wf(),
        start_refusal(desk, run_id, inputs, planned, workspace, no_pane, command) is None,
        interviewed(states, ups),
        ups.len() <= planned,
        begun(
            states[0],
            run_id,
            run_segment,
            workspace->0,
            command,
            agent,
            cycle_dir,
            assignment,
            started_at_unix_ms,
        ),
        finished(
            states.last(),
            skipped,
            inputs,
            asked,
            asked_after,
            Ok::<LiveReviewCycle, ReviewRefusal>(cycle),
        ),
        extends(asked, asked_after),
        after.cycles@ == desk.cycles@.push(cycle),
    ensures
        after.wf(),
        after.cycles@.len() == desk.cycles@.len() + 1,
        cycle.run_id@ == run_id && !cycle.closed,
        cycle.plan@.len() == ups.len(),
        cycle.plan@.len() <= planned,
        ({
            let made = asked_after.skip(asked.len() as int);
            let n: int = records(ups) as int;
            &&& made.len() == n + 3
            &&& made[0] == Effect::Write(
                StoreWrite::ReviewCycleStarted {
                    id: cycle.cycle_id,
                    run: cycle.run_id,
                    kvdag_version: inputs.version_id,
                    started_at_unix_ms,
                },
            )
            &&& forall|k: int|
                1 <= k <= n ==> (#[trigger] made[k] matches Effect::Write(
                    StoreWrite::InterrogationStarted { run, cwd, .. },
                ) && run == cycle.run_id && cwd == cycle.cycle_dir)
            &&& !(made[n + 1] is Write)
            &&& !(made[n + 2] is Write)
        }),
        leaves_run_status(asked_after, asked.len() as int),
        start_refusal(
            after,
            run_id,
            second_inputs,
            second_planned,
            second_workspace,
            no_pane,
            second_command,
        ) == Some(
            (ReviewRefusalCode::InFlight, "a review cycle is already running for "@ + run_id),
        ),
{
    lemma_interviewed(states, ups);
    let start = states.last();
    let made = asked_after.skip(asked.len() as int);
    let n: int = records(ups) as int;
    assert forall|k: int| 1 <= k <= n implies (#[trigger] made[k] matches Effect::Write(
        StoreWrite::InterrogationStarted { run, cwd, .. },
    ) && run == cycle.run_id && cwd == cycle.cycle_dir) by {
        assert(made[k] == made.subrange(1, 1 + n)[k - 1]);
        assert(made[k] == start.rows@[k - 1]);
        assert(states[0].is_own_row(start.rows@[k - 1]));
    }
    assert forall|i: int| asked.len() <= i < asked_after.len() implies (
    #[trigger] asked_after[i] matches Effect::Write(w)
        ==> !crate::app::effects::touches_run_status(w)) by {
        assert(asked_after[i] == made[i - asked.len()]);
    }
    lemma_one_more_cycle(desk.cycles@, cycle);
    assert forall|i: int| 0 <= i < after.cycles@.len() implies (
    #[trigger] after.cycles@[i]).wf() by {
        if i < desk.cycles@.len() {
            assert(after.cycles@[i] == desk.cycles@[i]);
        }
    }
    lemma_open_cycle(after.cycles@, run_id);
    assert(after.cycles@[desk.cycles@.len() as int] == cycle);
}

/// `row` records that the interview of a resumed session has started in `pane_id`.
pub open spec fn interrogation_row(
    start: ReviewStart,
    row: Effect,
    id: String,
    path: String,
    session: String,
    pane_id: String,
) -> bool {
    row matches Effect::Write(w) && w matches StoreWrite::InterrogationStarted {
        id: row_id,
        run,
        path: row_path,
        source_session_id,
        forked_session_id,
        transcript_path,
        cwd,
        pane_id: row_pane,
        reconstructed,
        seeded_from_seq,
        note,
        started_at_unix_ms,
    } && row_id == id && run == start.run_id && row_path == path && source_session_id == session
        && forked_session_id is None && transcript_path is None && cwd == start.cycle_dir && row_pane
        == pane_id && !reconstructed && seeded_from_seq is None && note@ == "review interview"@
        && started_at_unix_ms == start.started_at_unix_ms
}

// ---------------------------------------------------------------------------
// Synthesis
// ---------------------------------------------------------------------------

/// The synthesis pane's arguments: no session to continue, no prompt on the command
/// line, and the report verb as the one command it may run unasked.
pub open spec fn synthesis_args(agent: Seq<char>, assignment: Assignment) -> Seq<Seq<char>> {
    seq![
        agent,
        "--model"@,
        assignment.model.name(),
        "--effort"@,
        assignment.effort.name(),
        "--permission-mode"@,
        INTERVIEW_PERMISSION_MODE@,
        "--allowedTools"@,
        SYNTHESIS_ALLOWED_TOOL@,
    ]
}

pub fn synthesis_argv(spec: &InterviewSpawnSpec) -> (r: Vec<String>)
    ensures
        texts(r@) == synthesis_args(spec.agent@, spec.assignment),
{
    let mut argv: Vec<String> = Vec::new();
    argv.push(spec.agent.clone());
    argv.push("--model".to_owned());
    argv.push(spec.assignment.model.as_str().to_owned());
    argv.push("--effort".to_owned());
    argv.push(spec.assignment.effort.as_str().to_owned());
    argv.push("--permission-mode".to_owned());
    argv.push(INTERVIEW_PERMISSION_MODE.to_owned());
    argv.push("--allowedTools".to_owned());
    argv.push(SYNTHESIS_ALLOWED_TOOL.to_owned());
    assert(texts(argv@) =~= synthesis_args(spec.agent@, spec.assignment));
    argv
}

/// What the synthesis is told about one interview.
#[derive(Debug, PartialEq, Eq)]
pub struct SynthesisSource {
    pub member: String,
    pub is_lead: bool,
    pub attribution: Attributed,
    pub answer: Option<String>,
}

/// How the synthesis pane is to be started, and what its document is made from.
#[derive(Debug, PartialEq, Eq)]
pub struct SynthesisRequest<'a> {
    pub title: String,
    /// The directory the pane starts in.
    pub cwd: String,
    /// The workspace the pane is opened in.
    pub ws_idx: usize,
    /// What is on record of the run.
    pub evidence: &'a RunEvidence,
    /// The nodes that a finding may name.
    pub node_keys: &'a Vec<String>,
    pub argv: Vec<String>,
    pub env: Vec<(String, String)>,
    pub managed: bool,
    pub sources: Vec<SynthesisSource>,
}

/// Each source is the interview at the same place of the plan, with the claim the
/// cycle supports.
pub open spec fn sources_are(sources: Seq<SynthesisSource>, cycle: LiveReviewCycle) -> bool {
    &&& sources.len() == cycle.plan@.len()
    &&& forall|i: int|
        0 <= i < sources.len() ==> {
            let s = #[trigger] sources[i];
            let p = cycle.plan@[i];
            &&& s.member == p.member
            &&& s.is_lead == p.is_lead
            &&& s.attribution == cycle.attributed(Some(p.member@))
            &&& s.answer == (if cycle.answers@.contains_key(p.member@) {
                Some(cycle.answers@[p.member@])
            } else {
                None
            })
        }
}

/// How the synthesis is asked for: from what record and which answers, where its pane is
/// opened, what it is told by its environment, and which command it runs.
pub open spec fn synthesis_asked(cycle: LiveReviewCycle, r: SynthesisRequest<'_>) -> bool {
    &&& r.title@ == SYNTHESIS_PANE_TITLE@
    &&& r.cwd == cycle.cycle_dir
    &&& r.ws_idx == cycle.ws_idx
    &&& *r.evidence == cycle.evidence
    &&& *r.node_keys == cycle.node_keys
    &&& texts(r.argv@) == (match cycle.command_override {
        Some(argv) => texts(argv@),
        None => synthesis_args(cycle.agent@, cycle.assignment),
    })
    &&& env_text(r.env@) == seq![
        (REVIEW_RUN_ID_ENV_VAR@, cycle.run_id@),
        (REVIEW_CYCLE_ENV_VAR@, cycle.cycle_id@),
    ]
    &&& r.managed == (cycle.command_override is None)
    &&& sources_are(r.sources@, cycle)
}

/// How starting the synthesis pane went.
pub enum SynthesisSpawn {
    DocumentUnwritten,
    PaneUnspawned,
    Spawned { pane_id: String, terminal_id: String, seed_prompt: String },
}

/// What starting the synthesis pane comes to: it is up, or the cycle has failed.
pub open spec fn synthesis_came_up(
    before: LiveReviewCycle,
    after: LiveReviewCycle,
    outcome: SynthesisSpawn,
    now_unix_ms: u64,
    asked: Seq<Effect>,
    asked_after: Seq<Effect>,
) -> bool {
    match outcome {
        SynthesisSpawn::Spawned { pane_id, terminal_id, seed_prompt } => asked_after == asked && after == (LiveReviewCycle {
            synthesis: SynthesisState::Running(
                SynthesisPane {
                    pane_id,
                    terminal_id,
                    seeded: before.command_override is Some,
                    seed_prompt,
                },
            ),
            ..before
        }),
        SynthesisSpawn::DocumentUnwritten => after == (LiveReviewCycle {
            closed: true,
            ..before
        }) && before.failure_effects(
            asked_after.skip(asked.len() as int),
            "the review synthesis document could not be written"@,
            now_unix_ms,
        ),
        SynthesisSpawn::PaneUnspawned => after == (LiveReviewCycle {
            closed: true,
            ..before
        }) && before.failure_effects(
            asked_after.skip(asked.len() as int),
            "the review synthesis pane could not be spawned"@,
            now_unix_ms,
        ),
    }
}

impl LiveReviewCycle {
    pub fn synthesis_spawn_spec(&self) -> (r: InterviewSpawnSpec)
        ensures
            r.agent == self.agent,
            r.member@ == "synthesis"@,
            r.cycle_dir == self.cycle_dir,
            r.member_project_dir is None,
            r.assignment == self.assignment,
    {
        InterviewSpawnSpec {
            agent: self.agent.clone(),
            member: "synthesis".to_owned(),
            cycle_dir: self.cycle_dir.clone(),
            member_project_dir: None,
            assignment: self.assignment,
        }
    }

    /// How the synthesis pane is started, and what it is told.
    pub fn start_review_synthesis(&self) -> (r: SynthesisRequest<'_>)
        requires
            self.wf(),
        ensures
            synthesis_asked(*self, r),
    {
        let mut sources: Vec<SynthesisSource> = Vec::new();
        let mut i: usize = 0;
        while i < self.plan.len()
            invariant
                self.wf(),
                i <= self.plan@.len(),
                sources@.len() == i,
                forall|j: int|
                    0 <= j < i ==> {
                        let s = #[trigger] sources@[j];
                        let p = self.plan@[j];
                        &&& s.member == p.member
                        &&& s.is_lead == p.is_lead
                        &&& s.attribution == self.attributed(Some(p.member@))
                        &&& s.answer == (if self.answers@.contains_key(p.member@) {
                            Some(self.answers@[p.member@])
                        } else {
                            None
                        })
                    },
            decreases self.plan@.len() - i,
        {
            let planned = &self.plan[i];
            sources.push(
                SynthesisSource {
                    member: planned.member.clone(),
                    is_lead: planned.is_lead,
                    attribution: self.attribution(Some(planned.member.as_str())),
                    answer: match self.answers.get(planned.member.as_str()) {
                        Some(a) => Some(a.clone()),
                        None => None,
                    },
                },
            );
            i = i + 1;
        }
        let argv = match &self.command_override {
            Some(argv) => copy_strings(argv),
            None => synthesis_argv(&self.synthesis_spawn_spec()),
        };
        let mut env: Vec<(String, String)> = Vec::new();
        env.push((REVIEW_RUN_ID_ENV_VAR.to_owned(), self.run_id.clone()));
        env.push((REVIEW_CYCLE_ENV_VAR.to_owned(), self.cycle_id.clone()));
        assert(env_text(env@) =~= seq![
            (REVIEW_RUN_ID_ENV_VAR@, self.run_id@),
            (REVIEW_CYCLE_ENV_VAR@, self.cycle_id@),
        ]);
        SynthesisRequest {
            title: SYNTHESIS_PANE_TITLE.to_owned(),
            cwd: self.cycle_dir.clone(),
            ws_idx: self.ws_idx,
            evidence: &self.evidence,
            node_keys: &self.node_keys,
            argv,
            env,
            managed: self.command_override.is_none(),
            sources,
        }
    }

    /// The synthesis pane is up, or the cycle has failed for want of it.
    pub fn synthesis_spawned(
        &mut self,
        outcome: SynthesisSpawn,
        now_unix_ms: u64,
        effects: &mut Vec<Effect>,
    )
        requires
            old(self).wf(),
        ensures
            final(self).wf(),
            extends(old(effects)@, final(effects)@),
            leaves_run_status(final(effects)@, old(effects)@.len() as int),
            synthesis_came_up(*old(self), *final(self), outcome, now_unix_ms, old(effects)@, final(effects)@),
    {
        assert(effects@.take(effects@.len() as int) =~= effects@);
        match outcome {
            SynthesisSpawn::DocumentUnwritten => {
                self.fail_review_cycle(
                    "the review synthesis document could not be written",
                    now_unix_ms,
                    effects,
                );
            },
            SynthesisSpawn::PaneUnspawned => {
                self.fail_review_cycle(
                    "the review synthesis pane could not be spawned",
                    now_unix_ms,
                    effects,
                );
            },
            SynthesisSpawn::Spawned { pane_id, terminal_id, seed_prompt } => {
                self.synthesis = SynthesisState::Running(
                    SynthesisPane {
                        pane_id,
                        terminal_id,
                        seeded: self.command_override.is_some(),
                        seed_prompt,
                    },
                );
            },
        }
    }
}

} // verus!
