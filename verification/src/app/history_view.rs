//! The screen that shows a run of the past: what is open on it, and what its keys do.

use crate::app::effects::{Effect, NoticeLevel, UserNotice};
use crate::app::history::{
    facts_told, graph_is, projected_facts, rehydrate_run_graph, ProjectedNodeFacts, RunGraph,
};
use crate::app::lead::{is_live, LeadDesk};
use crate::documents::{json_contents, json_document, read_json};
use crate::json::{at, text_at, Json};
use crate::model::{is_terminal, RunStatus};
use crate::ordered::TextMap;
use crate::text::{cat2, contains_string, has_text, opt_text, str_eq, texts};
use crate::wire::{
    WorkflowInterrogationMode, WorkflowReviewStatus, WorkflowRunGraph, WorkflowRunInfo,
};
use vstd::prelude::*;

verus! {

// ---------------------------------------------------------------------------
// Answers of the server
// ---------------------------------------------------------------------------

/// Why the server said no.
#[derive(Debug, PartialEq, Eq)]
pub struct ErrorBody {
    pub code: String,
    pub message: String,
}

/// The code and the message of a refusal; nothing where the answer is none.
pub open spec fn error_told(answer: Json) -> Option<(Seq<char>, Seq<char>)> {
    let error = at(answer, "error"@);
    match (text_at(answer, "id"@), text_at(error, "code"@), text_at(error, "message"@)) {
        (Some(_), Some(code), Some(message)) => Some((code, message)),
        _ => None,
    }
}

/// The kind of result that an answer carries; nothing where it carries none.
pub open spec fn result_kind(answer: Json) -> Option<Seq<char>> {
    match text_at(answer, "id"@) {
        Some(_) => text_at(at(answer, "result"@), "type"@),
        None => None,
    }
}

/// What an answer holds; nothing where it is no JSON.
pub open spec fn answer_read(response: Seq<char>) -> Json {
    match json_document(response) {
        Ok(value) => json_contents(value),
        Err(_) => Json::Null,
    }
}

fn read_answer(response: &str) -> (r: Json)
    ensures
        r == answer_read(response@),
{
    match read_json(response) {
        Ok(value) => value,
        Err(_) => Json::Null,
    }
}

pub fn error_body(answer: &Json) -> (r: Option<ErrorBody>)
    ensures
        match (r, error_told(*answer)) {
            (Some(e), Some((code, message))) => e.code@ == code && e.message@ == message,
            (None, None) => true,
            _ => false,
        },
{
    let null = Json::Null;
    let error = answer.at("error", &null);
    match (answer.text_at("id"), error.text_at("code"), error.text_at("message")) {
        (Some(_), Some(code), Some(message)) => Some(ErrorBody { code, message }),
        _ => None,
    }
}

pub fn success_kind(answer: &Json) -> (r: Option<String>)
    ensures
        opt_text(r) == result_kind(*answer),
{
    let null = Json::Null;
    match answer.text_at("id") {
        Some(_) => answer.at("result", &null).text_at("type"),
        None => None,
    }
}

/// What is said of a refusal: its own message, or `otherwise` where it has none.
pub open spec fn refusal_message(answer: Json, otherwise: Seq<char>) -> Seq<char> {
    match error_told(answer) {
        Some((_, message)) => message,
        None => otherwise,
    }
}

pub fn error_message(answer: &Json, otherwise: String) -> (r: String)
    ensures
        r@ == refusal_message(*answer, otherwise@),
{
    match error_body(answer) {
        Some(error) => error.message,
        None => otherwise,
    }
}

// ---------------------------------------------------------------------------
// Interrogations
// ---------------------------------------------------------------------------

/// An interrogation, as the store has it.
#[derive(Debug, PartialEq, Eq)]
pub struct InterrogationRecord {
    pub id: String,
    pub path: String,
    pub source_session_id: String,
    pub forked_session_id: Option<String>,
    pub transcript_path: Option<String>,
    pub cwd: String,
    pub pane_id: Option<String>,
    pub reconstructed: bool,
    pub note: String,
    pub started_at_unix_ms: u64,
    pub ended_at_unix_ms: Option<u64>,
}

/// An interrogation, as the screen shows it.
#[derive(Debug, PartialEq, Eq)]
pub struct HistoricalInterrogation {
    pub id: String,
    pub path: String,
    pub ended: bool,
    pub pane_id: Option<String>,
    pub reconstructed: bool,
}

/// An interrogation is over once the store says so, and also once there is no pane of it
/// to go to.
pub open spec fn row_is(
    row: HistoricalInterrogation,
    record: InterrogationRecord,
    live_pane: Option<Seq<char>>,
) -> bool {
    &&& row.id == record.id
    &&& row.path == record.path
    &&& row.ended == (record.ended_at_unix_ms is Some || live_pane is None)
    &&& opt_text(row.pane_id) == live_pane
    &&& row.reconstructed == record.reconstructed
}

pub fn interrogation_row(record: &InterrogationRecord, live_pane: Option<String>) -> (r:
    HistoricalInterrogation)
    ensures
        row_is(r, *record, opt_text(live_pane)),
{
    HistoricalInterrogation {
        id: record.id.clone(),
        path: record.path.clone(),
        ended: record.ended_at_unix_ms.is_some() || live_pane.is_none(),
        pane_id: live_pane,
        reconstructed: record.reconstructed,
    }
}

/// The pane of an interrogation, where it is among those that are alive.
pub open spec fn live_pane(
    record: InterrogationRecord,
    panes: Seq<Seq<char>>,
) -> Option<Seq<char>> {
    match record.pane_id {
        Some(pane) => if has_text(panes, pane@) {
            Some(pane@)
        } else {
            None
        },
        None => None,
    }
}

/// The rows of interrogations, one for one.
pub open spec fn rows_are(
    rows: Seq<HistoricalInterrogation>,
    records: Seq<InterrogationRecord>,
    panes: Seq<Seq<char>>,
) -> bool {
    &&& rows.len() == records.len()
    &&& forall|i: int|
        0 <= i < records.len() ==> row_is(
            #[trigger] rows[i],
            records[i],
            live_pane(records[i], panes),
        )
}

/// The interrogations of a run, for the screen, in the order of the store.
pub fn historical_interrogations(records: &Vec<InterrogationRecord>, panes: &Vec<String>) -> (r:
    Vec<HistoricalInterrogation>)
    ensures
        rows_are(r@, records@, texts(panes@)),
{
    let mut out: Vec<HistoricalInterrogation> = Vec::new();
    let mut i: usize = 0;
    while i < records.len()
        invariant
            i <= records@.len(),
            out@.len() == i,
            forall|k: int|
                0 <= k < i ==> row_is(
                    #[trigger] out@[k],
                    records@[k],
                    live_pane(records@[k], texts(panes@)),
                ),
        decreases records@.len() - i,
    {
        let record = &records[i];
        let live = match &record.pane_id {
            Some(pane) => if contains_string(panes.as_slice(), pane.as_str()) {
                Some(pane.clone())
            } else {
                None
            },
            None => None,
        };
        out.push(interrogation_row(record, live));
        i = i + 1;
    }
    out
}

// ---------------------------------------------------------------------------
// The keys that interrogate
// ---------------------------------------------------------------------------

/// A node, as the screen shows it.
#[derive(Debug, PartialEq, Eq)]
pub struct DagNode {
    pub idx: usize,
    pub path: String,
}

/// What the screen shows.
#[derive(Debug, PartialEq, Eq)]
pub struct DagViewState {
    pub run_id: String,
    pub nodes: Vec<DagNode>,
    pub selected: Option<usize>,
    pub lead_run: bool,
    pub run_status: Option<RunStatus>,
    pub review_status: Option<WorkflowReviewStatus>,
}

/// The first node with this number.
pub open spec fn node_numbered(nodes: Seq<DagNode>, idx: usize) -> Option<DagNode>
    decreases nodes.len(),
{
    if nodes.len() == 0 {
        None
    } else if nodes[0].idx == idx {
        Some(nodes[0])
    } else {
        node_numbered(nodes.skip(1), idx)
    }
}

/// The node that is selected.
pub open spec fn node_selected(dag: DagViewState) -> Option<DagNode> {
    match dag.selected {
        Some(idx) => node_numbered(dag.nodes@, idx),
        None => None,
    }
}

impl DagViewState {
    pub fn selected_node(&self) -> (r: Option<&DagNode>)
        ensures
            match (r, node_selected(*self)) {
                (Some(n), Some(m)) => *n == m,
                (None, None) => true,
                _ => false,
            },
    {
        match self.selected {
            Some(idx) => {
                let mut i: usize = 0;
                assert(self.nodes@.skip(0) =~= self.nodes@);
                while i < self.nodes.len()
                    invariant
                        i <= self.nodes@.len(),
                        self.selected == Some(idx),
                        node_selected(*self) == node_numbered(self.nodes@.skip(i as int), idx),
                    decreases self.nodes@.len() - i,
                {
                    assert(self.nodes@.skip(i as int)[0] == self.nodes@[i as int]);
                    if self.nodes[i].idx == idx {
                        return Some(&self.nodes[i]);
                    }
                    assert(self.nodes@.skip(i as int).skip(1) =~= self.nodes@.skip(i as int + 1));
                    i = i + 1;
                }
                None
            },
            None => None,
        }
    }
}

/// What a key that interrogates is to do.
#[derive(Debug, PartialEq, Eq)]
pub enum InterrogateIntent {
    Ignore,
    Send { run_id: String, path: String, mode: WorkflowInterrogationMode },
}

/// The key asks about the node that is selected, in its own mode; without a run or a
/// selection it does nothing.
pub open spec fn intent_is(
    intent: InterrogateIntent,
    dag: DagViewState,
    mode: WorkflowInterrogationMode,
) -> bool {
    match (dag.run_id@.len() == 0, node_selected(dag)) {
        (false, Some(node)) => intent == (InterrogateIntent::Send {
            run_id: dag.run_id,
            path: node.path,
            mode,
        }),
        _ => intent is Ignore,
    }
}

pub fn interrogate_intent(dag: &DagViewState, mode: WorkflowInterrogationMode) -> (r:
    InterrogateIntent)
    ensures
        intent_is(r, *dag, mode),
{
    if dag.run_id.as_str().is_empty() {
        return InterrogateIntent::Ignore;
    }
    match dag.selected_node() {
        Some(node) => InterrogateIntent::Send {
            run_id: dag.run_id.clone(),
            path: node.path.clone(),
            mode,
        },
        None => InterrogateIntent::Ignore,
    }
}

/// The code of a refusal where there is no transcript to take up.
pub const TRANSCRIPT_UNAVAILABLE_CODE: &'static str = "workflow_transcript_unavailable";

/// What came of an interrogation.
#[derive(Debug, PartialEq, Eq)]
pub enum InterrogateOutcome {
    /// A pane opened, and says enough.
    Opened,
    /// There is nothing to take up, but another key may help.
    OfferReconstructed(String),
    /// There is nothing more to do.
    Refused(String),
}

/// What came of an interrogation, by what the answer holds. The other key is named only
/// to one who has not pressed it yet.
pub open spec fn outcome_is(
    outcome: InterrogateOutcome,
    path: Seq<char>,
    mode: WorkflowInterrogationMode,
    answer: Json,
) -> bool {
    if result_kind(answer) == Some("workflow_node_interrogated"@) {
        outcome is Opened
    } else {
        match error_told(answer) {
            None => outcome matches InterrogateOutcome::Refused(m) && m@
                == "could not interrogate "@ + path,
            Some((code, message)) => if code == "workflow_transcript_unavailable"@ && mode is Resumed {
                outcome matches InterrogateOutcome::OfferReconstructed(m) && m@ == message
                    + " — press Shift+I for a reconstructed session"@
            } else {
                outcome matches InterrogateOutcome::Refused(m) && m@ == message
            },
        }
    }
}

/// Tells what came of an interrogation by what the answer holds.
pub fn interrogate_outcome_of(path: &str, mode: WorkflowInterrogationMode, answer: &Json) -> (r:
    InterrogateOutcome)
    ensures
        outcome_is(r, path@, mode, *answer),
{
    let opened = match success_kind(answer) {
        Some(kind) => str_eq(kind.as_str(), "workflow_node_interrogated"),
        None => false,
    };
    if opened {
        return InterrogateOutcome::Opened;
    }
    match error_body(answer) {
        None => InterrogateOutcome::Refused(cat2("could not interrogate ", path)),
        Some(error) => if str_eq(error.code.as_str(), TRANSCRIPT_UNAVAILABLE_CODE) && matches!(
            mode,
            WorkflowInterrogationMode::Resumed
        ) {
            InterrogateOutcome::OfferReconstructed(
                cat2(
                    error.message.as_str(),
                    " — press Shift+I for a reconstructed session",
                ),
            )
        } else {
            InterrogateOutcome::Refused(error.message)
        },
    }
}

/// Tells what came of an interrogation by the answer itself.
pub fn interrogate_outcome(path: &str, mode: WorkflowInterrogationMode, response: &str) -> (r:
    InterrogateOutcome)
    ensures
        outcome_is(r, path@, mode, answer_read(response@)),
{
    let answer = read_answer(response);
    interrogate_outcome_of(path, mode, &answer)
}

/// One who asked for a reconstructed session is never sent to that key again, whatever
/// the answer.
pub proof fn law_no_one_is_sent_in_a_circle(
    outcome: InterrogateOutcome,
    path: Seq<char>,
    answer: Json,
)
    requires
        outcome_is(outcome, path, WorkflowInterrogationMode::Reconstructed, answer),
    ensures
        outcome !is OfferReconstructed,
{
}

/// Why a run of the past cannot be steered.
pub fn historical_steer_refusal() -> (r: String)
    ensures
        r@ == "this is a past run, not the active one — steering is unavailable"@,
{
    "this is a past run, not the active one — steering is unavailable".to_owned()
}

// ---------------------------------------------------------------------------
// What is open
// ---------------------------------------------------------------------------

#[derive(Debug, Clone, Copy, PartialEq, Eq, Structural)]
pub enum Mode {
    Terminal,
    WorkflowDag,
    WorkflowReview,
}

/// The review of a run, as the server tells it.
#[derive(Debug, PartialEq, Eq)]
pub struct ReviewAnswer {
    pub review: Option<Json>,
    pub findings: Vec<Json>,
}

/// A run of the past, as it is shown.
#[derive(Debug, PartialEq, Eq)]
pub struct HistoricalRunSnapshot {
    pub graph: RunGraph,
    pub workflow_name: String,
    pub interrogations: Vec<HistoricalInterrogation>,
    pub team_name: Option<String>,
    pub lead_pane_id: Option<String>,
    pub projected: TextMap<ProjectedNodeFacts>,
    pub members: Vec<Json>,
    pub review: Option<Json>,
    pub review_findings: Vec<Json>,
}

/// Whether a team lead drives a run.
pub open spec fn led(team_name: Option<String>, lead_pane_id: Option<String>) -> bool {
    team_name is Some || lead_pane_id is Some
}

impl HistoricalRunSnapshot {
    pub fn is_lead_run(&self) -> (r: bool)
        ensures
            r == led(self.team_name, self.lead_pane_id),
    {
        self.team_name.is_some() || self.lead_pane_id.is_some()
    }
}

/// Only a run that a team lead drove can have a review, so only that one is asked for it.
pub fn wants_review(run: &WorkflowRunInfo) -> (r: bool)
    ensures
        r == led(run.team_name, run.lead_pane_id),
{
    run.team_name.is_some() || run.lead_pane_id.is_some()
}

/// What the server and the store gave for a run.
#[derive(Debug, PartialEq, Eq)]
pub enum RunFetched {
    Found {
        run: WorkflowRunInfo,
        graph: WorkflowRunGraph,
        review: ReviewAnswer,
        interrogations: Vec<HistoricalInterrogation>,
    },
    /// The server's answer, where it is not the run.
    Refused { response: String },
}

/// A run of the past, as it is shown once it was fetched.
pub open spec fn snapshot_is(
    s: HistoricalRunSnapshot,
    run: WorkflowRunInfo,
    graph: WorkflowRunGraph,
    review: ReviewAnswer,
    interrogations: Vec<HistoricalInterrogation>,
) -> bool {
    &&& graph_is(s.graph, run, graph)
    &&& s.workflow_name == run.workflow_name
    &&& s.interrogations == interrogations
    &&& s.team_name == run.team_name
    &&& s.lead_pane_id == run.lead_pane_id
    &&& s.projected.wf()
    &&& s.projected@ == facts_told(graph.nodes@)
    &&& s.members == graph.members
    &&& if led(run.team_name, run.lead_pane_id) {
        s.review == review.review && s.review_findings == review.findings
    } else {
        s.review is None && s.review_findings@.len() == 0
    }
}

/// What a key of the screen is to do about a review.
#[derive(Debug, PartialEq, Eq)]
pub enum ReviewKey {
    Nothing,
    /// Ask the server to start one.
    Start { run_id: String },
    /// Show what was found.
    Open,
}

/// A review can be started once, on a run that is over and that a team lead drove; one
/// that waits for its reader can be opened.
pub open spec fn review_key_is(
    key: ReviewKey,
    open: Option<HistoricalRunSnapshot>,
    dag: DagViewState,
) -> bool {
    match open {
        None => key is Nothing,
        Some(s) => match dag.review_status {
            None => if dag.lead_run && (match dag.run_status {
                Some(status) => is_terminal(status),
                None => false,
            }) {
                key == (ReviewKey::Start { run_id: s.graph.run_id })
            } else {
                key is Nothing
            },
            Some(WorkflowReviewStatus::AwaitingUser) => key is Open,
            Some(_) => key is Nothing,
        },
    }
}

/// The screen that shows a run of the past.
#[derive(Debug, PartialEq, Eq)]
pub struct HistoryScreen {
    pub mode: Mode,
    pub historical_run: Option<HistoricalRunSnapshot>,
}

/// Whether this run is the one on the screen.
pub open spec fn shows_run(screen: HistoryScreen, run_id: Seq<char>) -> bool {
    screen.mode is WorkflowDag && (screen.historical_run matches Some(s) && s.graph.run_id@
        == run_id)
}

/// Whether this run is the one on the screen, and a team lead drives it.
pub open spec fn shows_lead_run(screen: HistoryScreen, run_id: Seq<char>) -> bool {
    shows_run(screen, run_id) && (screen.historical_run matches Some(s) && led(
        s.team_name,
        s.lead_pane_id,
    ))
}

/// What is open differs in its review alone.
pub open spec fn only_review_changed(
    before: Option<HistoricalRunSnapshot>,
    after: Option<HistoricalRunSnapshot>,
) -> bool {
    match (before, after) {
        (Some(b), Some(a)) => a.graph == b.graph && a.workflow_name == b.workflow_name
            && a.interrogations == b.interrogations && a.team_name == b.team_name
            && a.lead_pane_id == b.lead_pane_id && a.projected == b.projected && a.members
            == b.members,
        (None, None) => true,
        _ => false,
    }
}

/// What a review found, as it is shown.
pub open spec fn findings_of(open: Option<HistoricalRunSnapshot>) -> Option<Vec<Json>> {
    match open {
        Some(s) => Some(s.review_findings),
        None => None,
    }
}

/// A notice about this run.
pub open spec fn notice_is(
    effect: Effect,
    level: NoticeLevel,
    run_id: Seq<char>,
    message: Seq<char>,
) -> bool {
    effect matches Effect::Notice(n) && n.level == level && opt_text(n.run) == Some(run_id)
        && n.path is None && n.message@ == message
}

/// Opening a run of the past.
pub open spec fn run_opened(
    before: HistoryScreen,
    after: HistoryScreen,
    run_id: Seq<char>,
    fetched: RunFetched,
    r: Result<(), String>,
) -> bool {
    match fetched {
        RunFetched::Found { run, graph, review, interrogations } => r is Ok
            && after.mode is WorkflowDag && (after.historical_run matches Some(s) && snapshot_is(
            s,
            run,
            graph,
            review,
            interrogations,
        )),
        RunFetched::Refused { response } => after == before && (r matches Err(m) && m@
            == refusal_message(answer_read(response@), "could not open run "@ + run_id)),
    }
}

/// Showing a run anew where that is wanted and the run was fetched; `r` says whether it
/// was.
pub open spec fn shown_anew(
    before: HistoryScreen,
    after: HistoryScreen,
    wanted: bool,
    fetched: RunFetched,
    r: bool,
) -> bool {
    &&& r == (wanted && fetched is Found)
    &&& r ==> after.mode is WorkflowDag && (after.historical_run matches Some(s) && (
    fetched matches RunFetched::Found { run, graph, review, interrogations } && snapshot_is(
        s,
        run,
        graph,
        review,
        interrogations,
    )))
    &&& !r ==> after == before
}

/// Bringing the review on the screen up to date; `r` says whether it was.
pub open spec fn review_refreshed(
    before: HistoryScreen,
    after: HistoryScreen,
    run_id: Seq<char>,
    answer: ReviewAnswer,
    r: bool,
) -> bool {
    &&& r == shows_run(before, run_id)
    &&& !r ==> after == before
    &&& after.mode == before.mode
    &&& only_review_changed(before.historical_run, after.historical_run)
    &&& r ==> (after.historical_run matches Some(s) && s.review == answer.review
        && s.review_findings == answer.findings)
}

/// Pressing the review key.
pub open spec fn review_key_pressed(
    before: HistoryScreen,
    after: HistoryScreen,
    dag: DagViewState,
    r: ReviewKey,
) -> bool {
    &&& review_key_is(r, before.historical_run, dag)
    &&& after.historical_run == before.historical_run
    &&& after.mode == (if r is Open {
        Mode::WorkflowReview
    } else {
        before.mode
    })
}

/// Taking in what came of asking for a review.
pub open spec fn review_asked(
    before: HistoryScreen,
    after: HistoryScreen,
    run_id: Seq<char>,
    started: Option<Json>,
    response: Seq<char>,
    told: Seq<Effect>,
    tells: Seq<Effect>,
) -> bool {
    &&& after.mode == before.mode
    &&& only_review_changed(before.historical_run, after.historical_run)
    &&& tells.len() == told.len() + 1
    &&& tells.drop_last() == told
    &&& match started {
        Some(review) => (after.historical_run matches Some(s) ==> s.review == Some(review))
            && findings_of(after.historical_run) == findings_of(before.historical_run)
            && notice_is(
            tells.last(),
            NoticeLevel::Info,
            run_id,
            "review started — interviewing the run's team"@,
        ),
        None => after == before && notice_is(
            tells.last(),
            NoticeLevel::Warning,
            run_id,
            refusal_message(answer_read(response), "could not start a review for this run"@),
        ),
    }
}

/// Showing no run of the past any more.
pub open spec fn closed(before: HistoryScreen, after: HistoryScreen) -> bool {
    after.historical_run is None && after.mode == before.mode
}

impl HistoryScreen {
    /// Opens a run of the past. Where it cannot be opened nothing changes, and the
    /// server's own words say why.
    pub fn load_historical_run(&mut self, run_id: &str, fetched: RunFetched) -> (r: Result<
        (),
        String,
    >)
        ensures
            run_opened(*old(self), *final(self), run_id@, fetched, r),
    {
        match fetched {
            RunFetched::Found { run, graph, review, interrogations } => {
                let projected = projected_facts(&graph);
                let rehydrated = rehydrate_run_graph(&run, &graph);
                let (review, review_findings): (Option<Json>, Vec<Json>) = if wants_review(&run) {
                    (review.review, review.findings)
                } else {
                    (None, Vec::new())
                };
                self.historical_run =
                Some(
                    HistoricalRunSnapshot {
                        graph: rehydrated,
                        workflow_name: run.workflow_name,
                        interrogations,
                        team_name: run.team_name,
                        lead_pane_id: run.lead_pane_id,
                        projected,
                        members: graph.members,
                        review,
                        review_findings,
                    },
                );
                self.mode = Mode::WorkflowDag;
                Ok(())
            },
            RunFetched::Refused { response } => {
                let answer = read_answer(response.as_str());
                Err(error_message(&answer, cat2("could not open run ", run_id)))
            },
        }
    }

    /// Opens the run that is live, if there is one; whether it opened. `fetched` is what
    /// asking for that run gave.
    pub fn open_workflow_dag_on_the_live_run(
        &mut self,
        lead: &LeadDesk,
        fetched: RunFetched,
    ) -> (r: bool)
        ensures
            shown_anew(*old(self), *final(self), is_live(*lead), fetched, r),
    {
        match lead.live_lead_run_id() {
            Some(run_id) => match self.load_historical_run(run_id.as_str(), fetched) {
                Ok(()) => true,
                Err(_) => false,
            },
            None => false,
        }
    }

    /// Whether this run is the one on the screen.
    pub fn shows(&self, run_id: &str) -> (r: bool)
        ensures
            r == shows_run(*self, run_id@),
    {
        let dag = matches!(self.mode, Mode::WorkflowDag);
        match &self.historical_run {
            Some(s) => dag && str_eq(s.graph.run_id.as_str(), run_id),
            None => false,
        }
    }

    /// Brings the review of the run on the screen up to date. Another run's review is
    /// not looked at. Returns whether it was.
    pub fn refresh_open_dag_review(&mut self, run_id: &str, answer: ReviewAnswer) -> (r: bool)
        ensures
            review_refreshed(*old(self), *final(self), run_id@, answer, r),
    {
        if !self.shows(run_id) {
            return false;
        }
        match self.historical_run.take() {
            Some(mut snapshot) => {
                snapshot.review = answer.review;
                snapshot.review_findings = answer.findings;
                self.historical_run = Some(snapshot);
            },
            None => {},
        }
        true
    }

    /// Does what the review key does: shows what was found, or says that a review is to
    /// be started.
    pub fn handle_workflow_dag_review_key(&mut self, dag: &DagViewState) -> (r: ReviewKey)
        ensures
            review_key_pressed(*old(self), *final(self), *dag, r),
    {
        match &self.historical_run {
            None => ReviewKey::Nothing,
            Some(s) => match dag.review_status {
                None => {
                    let over = match dag.run_status {
                        Some(status) => run_status_is_terminal_for_review(status),
                        None => false,
                    };
                    if dag.lead_run && over {
                        ReviewKey::Start { run_id: s.graph.run_id.clone() }
                    } else {
                        ReviewKey::Nothing
                    }
                },
                Some(WorkflowReviewStatus::AwaitingUser) => {
                    self.mode = Mode::WorkflowReview;
                    ReviewKey::Open
                },
                Some(_) => ReviewKey::Nothing,
            },
        }
    }

    /// Takes in what came of asking for a review: the review itself, or the server's
    /// answer where there is none.
    pub fn start_review_from_dag(
        &mut self,
        run_id: &str,
        started: Option<Json>,
        response: &str,
        effects: &mut Vec<Effect>,
    )
        ensures
            review_asked(
                *old(self),
                *final(self),
                run_id@,
                started,
                response@,
                old(effects)@,
                final(effects)@,
            ),
    {
        match started {
            Some(review) => {
                match self.historical_run.take() {
                    Some(mut snapshot) => {
                        snapshot.review = Some(review);
                        self.historical_run = Some(snapshot);
                    },
                    None => {},
                }
                effects.push(
                    Effect::Notice(
                        UserNotice {
                            level: NoticeLevel::Info,
                            run: Some(run_id.to_owned()),
                            path: None,
                            message: "review started — interviewing the run's team".to_owned(),
                        },
                    ),
                );
            },
            None => {
                let answer = read_answer(response);
                let message = error_message(
                    &answer,
                    "could not start a review for this run".to_owned(),
                );
                effects.push(
                    Effect::Notice(
                        UserNotice {
                            level: NoticeLevel::Warning,
                            run: Some(run_id.to_owned()),
                            path: None,
                            message,
                        },
                    ),
                );
            },
        }
        assert(effects@.drop_last() =~= old(effects)@);
    }

    /// Whether the run on the screen is to be fetched again now that it moved.
    pub fn wants_reload(&self, run_id: &str) -> (r: bool)
        ensures
            r == shows_lead_run(*self, run_id@),
    {
        match &self.historical_run {
            Some(s) => s.is_lead_run() && self.shows(run_id),
            None => false,
        }
    }

    /// Shows the run on the screen anew now that it moved. Where it cannot be fetched,
    /// what was shown stays. Returns whether it was.
    pub fn reload_open_lead_run(&mut self, run_id: &str, fetched: RunFetched) -> (r: bool)
        ensures
            shown_anew(*old(self), *final(self), shows_lead_run(*old(self), run_id@), fetched, r),
    {
        if !self.wants_reload(run_id) {
            return false;
        }
        match self.load_historical_run(run_id, fetched) {
            Ok(_) => true,
            Err(_) => false,
        }
    }

    /// Shows no run of the past any more.
    pub fn close_historical_run(&mut self)
        ensures
            closed(*old(self), *final(self)),
    {
        self.historical_run = None;
    }
}

fn run_status_is_terminal_for_review(status: RunStatus) -> (r: bool)
    ensures
        r == is_terminal(status),
{
    matches!(status, RunStatus::Succeeded | RunStatus::Failed | RunStatus::Cancelled)
}

/// What happens to one run never changes what is shown of another.
pub proof fn law_other_runs_stay_as_shown(screen: HistoryScreen, open: Seq<char>, moved: Seq<char>)
    requires
        shows_run(screen, open),
        open != moved,
    ensures
        !shows_run(screen, moved),
        !shows_lead_run(screen, moved),
{
}

/// A key never starts a review of a run that is still going, or of one that has a review
/// already.
pub proof fn law_no_review_of_a_going_run(
    key: ReviewKey,
    open: Option<HistoricalRunSnapshot>,
    dag: DagViewState,
)
    requires
        review_key_is(key, open, dag),
        key is Start,
    ensures
        dag.run_status matches Some(status) && is_terminal(status),
        dag.review_status is None,
        dag.lead_run,
{
}

} // verus!
