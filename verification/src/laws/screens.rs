//! What the screen that shows runs of the past promises.

use crate::app::effects::Effect;
use crate::app::history::facts_told;
use crate::app::history_view::{
    answer_read, closed, intent_is, led, node_numbered, outcome_is, review_asked,
    review_key_pressed, review_refreshed, rows_are, run_opened, shown_anew, shows_lead_run, DagNode,
    DagViewState, HistoricalInterrogation, HistoryScreen, InterrogateIntent, InterrogateOutcome,
    InterrogationRecord, ReviewAnswer, ReviewKey, RunFetched,
};
use crate::json::{at, text_at, Json};
use crate::model::RunStatus;
use crate::text::{opt_text, texts};
use crate::wire::{WorkflowInterrogationMode, WorkflowReviewStatus, WorkflowRunInfo};
use vstd::prelude::*;

verus! {

/// Every interrogation is shown, in its order, under its own id and path. Its pane is shown
/// exactly where it is alive, and it is over where it ended or where no pane of it is alive.
pub proof fn law_every_interrogation_is_shown(
    rows: Seq<HistoricalInterrogation>,
    records: Seq<InterrogationRecord>,
    panes: Seq<String>,
    i: int,
)
    requires
        rows_are(rows, records, texts(panes)),
        0 <= i < records.len(),
    ensures
        rows.len() == records.len(),
        rows[i].id@ == records[i].id@,
        rows[i].path@ == records[i].path@,
        rows[i].reconstructed == records[i].reconstructed,
        rows[i].pane_id matches Some(pane) ==> records[i].pane_id matches Some(own) && own@ == pane@
            && exists|j: int| 0 <= j < panes.len() && #[trigger] panes[j]@ == pane@,
        forall|j: int|
            0 <= j < panes.len() && (records[i].pane_id matches Some(own) && own@ == (
            #[trigger] panes[j])@) ==> rows[i].pane_id is Some,
        rows[i].ended <==> records[i].ended_at_unix_ms is Some || rows[i].pane_id is None,
{
    let row = rows[i];
    assert(texts(panes).len() == panes.len());
    assert(forall|j: int| 0 <= j < panes.len() ==> texts(panes)[j] == #[trigger] panes[j]@);
    if row.pane_id is Some {
        let j = choose|j: int|
            0 <= j < texts(panes).len() && #[trigger] texts(panes)[j] == records[i].pane_id->0@;
        assert(panes[j]@ == row.pane_id->0@);
    }
}

proof fn lemma_numbered(nodes: Seq<DagNode>, idx: usize)
    ensures
        match node_numbered(nodes, idx) {
            Some(n) => exists|k: int|
                0 <= k < nodes.len() && #[trigger] nodes[k] == n && n.idx == idx && forall|j: int|
                    0 <= j < k ==> (#[trigger] nodes[j]).idx != idx,
            None => forall|j: int| 0 <= j < nodes.len() ==> (#[trigger] nodes[j]).idx != idx,
        },
    decreases nodes.len(),
{
    if nodes.len() > 0 && nodes[0].idx != idx {
        let rest = nodes.skip(1);
        lemma_numbered(rest, idx);
        assert(forall|j: int| 0 <= j < rest.len() ==> rest[j] == #[trigger] nodes[j + 1]);
        match node_numbered(rest, idx) {
            Some(n) => {
                let k = choose|k: int|
                    0 <= k < rest.len() && #[trigger] rest[k] == n && n.idx == idx && forall|j: int|
                        0 <= j < k ==> (#[trigger] rest[j]).idx != idx;
                assert(nodes[k + 1] == n);
                assert forall|j: int| 0 <= j < k + 1 implies (#[trigger] nodes[j]).idx != idx by {
                    if j > 0 {
                        assert(rest[j - 1] == nodes[j]);
                    }
                }
            },
            None => {
                assert forall|j: int| 0 <= j < nodes.len() implies (#[trigger] nodes[j]).idx
                    != idx by {
                    if j > 0 {
                        assert(rest[j - 1] == nodes[j]);
                    }
                }
            },
        }
    } else if nodes.len() > 0 {
        assert(nodes[0].idx == idx);
    }
}

/// A key interrogates the first node with the selected number, in the mode that is its own
/// and about the run that is shown. It does nothing without a run or such a node.
pub proof fn law_a_key_asks_about_the_selected_node(
    intent: InterrogateIntent,
    dag: DagViewState,
    mode: WorkflowInterrogationMode,
    k: int,
)
    requires
        intent_is(intent, dag, mode),
    ensures
        dag.run_id@.len() == 0 ==> intent is Ignore,
        dag.selected is None ==> intent is Ignore,
        (forall|j: int|
            0 <= j < dag.nodes@.len() ==> Some((#[trigger] dag.nodes@[j]).idx) != dag.selected)
            ==> intent is Ignore,
        dag.run_id@.len() > 0 && 0 <= k < dag.nodes@.len() && dag.selected == Some(
            dag.nodes@[k].idx,
        ) && (forall|j: int| 0 <= j < k ==> (#[trigger] dag.nodes@[j]).idx != dag.nodes@[k].idx)
            ==> (intent matches InterrogateIntent::Send { run_id, path, mode: m } && run_id@
            == dag.run_id@ && path@ == dag.nodes@[k].path@ && m == mode),
{
    if let Some(idx) = dag.selected {
        lemma_numbered(dag.nodes@, idx);
        if let Some(n) = node_numbered(dag.nodes@, idx) {
            let w = choose|w: int|
                0 <= w < dag.nodes@.len() && #[trigger] dag.nodes@[w] == n && n.idx == idx
                    && forall|j: int| 0 <= j < w ==> (#[trigger] dag.nodes@[j]).idx != idx;
            assert(dag.nodes@[w].idx == idx);
            if 0 <= k < dag.nodes@.len() && dag.nodes@[k].idx == idx && (forall|j: int|
                0 <= j < k ==> (#[trigger] dag.nodes@[j]).idx != dag.nodes@[k].idx) {
                if w < k {
                    assert(dag.nodes@[w].idx != dag.nodes@[k].idx);
                } else if k < w {
                    assert(dag.nodes@[k].idx != idx);
                }
                assert(w == k);
            }
        }
    }
}

/// An interrogation opened where the answer carries one. Otherwise the answer's own words
/// are told, with the other key behind them only where there was no transcript to take up
/// and that key was not the one pressed; and an answer without words names the node.
pub proof fn law_an_interrogation_is_told_in_the_answers_words(
    outcome: InterrogateOutcome,
    path: Seq<char>,
    mode: WorkflowInterrogationMode,
    answer: Json,
)
    requires
        outcome_is(outcome, path, mode, answer),
    ensures
        ({
            let id = text_at(answer, "id"@);
            let kind = text_at(at(answer, "result"@), "type"@);
            let code = text_at(at(answer, "error"@), "code"@);
            let message = text_at(at(answer, "error"@), "message"@);
            let opened = id is Some && kind == Some("workflow_node_interrogated"@);
            let refused = id is Some && code is Some && message is Some;
            let untold = code == Some("workflow_transcript_unavailable"@);
            &&& outcome is Opened <==> opened
            &&& !opened && !refused ==> (outcome matches InterrogateOutcome::Refused(m) && m@
                == "could not interrogate "@ + path)
            &&& !opened && refused && untold && mode is Resumed ==> (
            outcome matches InterrogateOutcome::OfferReconstructed(m) && m@ == message->0
                + " — press Shift+I for a reconstructed session"@)
            &&& !opened && refused && !(untold && mode is Resumed) ==> (
            outcome matches InterrogateOutcome::Refused(m) && m@ == message->0)
        }),
{
}

/// What a refusal says of itself, and what is said of one that says nothing.
pub open spec fn says(answer: Json, otherwise: Seq<char>, said: Seq<char>) -> bool {
    let message = text_at(at(answer, "error"@), "message"@);
    let told = text_at(answer, "id"@) is Some && text_at(at(answer, "error"@), "code"@) is Some
        && message is Some;
    said == (if told {
        message->0
    } else {
        otherwise
    })
}

/// Whether this is what a screen shows of a run that was fetched: the run by its own name
/// and number, with all its interrogations and members, and with its review where a team
/// lead drove it.
pub open spec fn shows_fetched(screen: HistoryScreen, fetched: RunFetched) -> bool {
    match (fetched, screen.historical_run) {
        (RunFetched::Found { run, graph, review, interrogations }, Some(s)) => {
            let lead = run.team_name is Some || run.lead_pane_id is Some;
            &&& s.graph.run_id@ == run.run_id@
            &&& s.graph.nodes@.len() == graph.nodes@.len()
            &&& s.workflow_name@ == run.workflow_name@
            &&& s.interrogations@ == interrogations@
            &&& opt_text(s.team_name) == opt_text(run.team_name)
            &&& opt_text(s.lead_pane_id) == opt_text(run.lead_pane_id)
            &&& s.members@ == graph.members@
            &&& s.projected@ == facts_told(graph.nodes@)
            &&& lead ==> s.review == review.review && s.review_findings@ == review.findings@
            &&& !lead ==> s.review is None && s.review_findings@.len() == 0
        },
        _ => false,
    }
}

/// A run that was found is opened and shown with all that was fetched of it. One that was
/// refused leaves the screen as it was, and the refusal is told.
pub proof fn law_a_found_run_is_opened(
    before: HistoryScreen,
    after: HistoryScreen,
    run_id: Seq<char>,
    fetched: RunFetched,
    r: Result<(), String>,
)
    requires
        run_opened(before, after, run_id, fetched, r),
    ensures
        r is Ok <==> fetched is Found,
        fetched is Found ==> after.mode is WorkflowDag && shows_fetched(after, fetched),
        fetched matches RunFetched::Refused { response } ==> after == before && says(
            answer_read(response@),
            "could not open run "@ + run_id,
            r->Err_0@,
        ),
{
}

/// A run is shown anew exactly where it is wanted and was found; otherwise what was shown
/// stays.
pub proof fn law_a_run_is_shown_anew(
    before: HistoryScreen,
    after: HistoryScreen,
    wanted: bool,
    fetched: RunFetched,
    r: bool,
)
    requires
        shown_anew(before, after, wanted, fetched, r),
    ensures
        wanted && fetched is Found ==> r && after.mode is WorkflowDag && shows_fetched(
            after,
            fetched,
        ),
        !wanted ==> !r && after == before,
        fetched is Refused ==> !r && after == before,
{
}

/// A run that moved is wanted anew only where it is the one on the screen, in the view of
/// its nodes, and a team lead drives it.
pub proof fn law_only_the_lead_run_on_the_screen_is_wanted_anew(
    screen: HistoryScreen,
    run_id: Seq<char>,
)
    ensures
        shows_lead_run(screen, run_id) <==> screen.mode is WorkflowDag && (
        screen.historical_run matches Some(s) && s.graph.run_id@ == run_id && (s.team_name is Some
            || s.lead_pane_id is Some)),
{
}

/// A team lead drove a run that names a team or a pane of a lead.
pub proof fn law_a_lead_run_names_a_team_or_a_pane(run: WorkflowRunInfo)
    ensures
        led(run.team_name, run.lead_pane_id) <==> run.team_name is Some || run.lead_pane_id is Some,
{
}

/// A review is brought up to date on the screen of its own run alone, and nothing else of
/// what is shown changes.
pub proof fn law_a_review_is_refreshed_on_its_own_screen(
    before: HistoryScreen,
    after: HistoryScreen,
    run_id: Seq<char>,
    answer: ReviewAnswer,
    r: bool,
)
    requires
        review_refreshed(before, after, run_id, answer, r),
    ensures
        r <==> before.mode is WorkflowDag && (before.historical_run matches Some(s)
            && s.graph.run_id@ == run_id),
        !r ==> after == before,
        after.mode == before.mode,
        r ==> (after.historical_run matches Some(s) && (before.historical_run matches Some(b)
            && s.review == answer.review && s.review_findings@ == answer.findings@ && s.graph
            == b.graph && s.interrogations@ == b.interrogations@ && s.members@ == b.members@
            && s.workflow_name == b.workflow_name && s.team_name == b.team_name && s.lead_pane_id
            == b.lead_pane_id && s.projected == b.projected)),
{
}

/// The review key opens a review that waits for its reader. It starts one for the run on
/// the screen where that run is over, a team lead drove it and it has none yet. Otherwise it
/// does nothing; and it never changes what is open.
pub proof fn law_the_review_key_opens_or_starts_a_review(
    before: HistoryScreen,
    after: HistoryScreen,
    dag: DagViewState,
    r: ReviewKey,
)
    requires
        review_key_pressed(before, after, dag, r),
    ensures
        after.historical_run == before.historical_run,
        ({
            let over = dag.run_status == Some(RunStatus::Succeeded) || dag.run_status == Some(
                RunStatus::Failed,
            ) || dag.run_status == Some(RunStatus::Cancelled);
            match before.historical_run {
                None => r is Nothing && after.mode == before.mode,
                Some(s) => {
                    &&& r is Open <==> dag.review_status == Some(
                        WorkflowReviewStatus::AwaitingUser,
                    )
                    &&& r is Start <==> dag.review_status is None && dag.lead_run && over
                    &&& r matches ReviewKey::Start { run_id } ==> run_id@ == s.graph.run_id@
                    &&& r is Open ==> after.mode is WorkflowReview
                    &&& r !is Open ==> after.mode == before.mode
                },
            }
        }),
{
}

/// Asking for a review is told once, behind what was told before: as news with the review
/// shown where it started, and as a warning in the server's words where it did not.
pub proof fn law_asking_for_a_review_is_told(
    before: HistoryScreen,
    after: HistoryScreen,
    run_id: Seq<char>,
    started: Option<Json>,
    response: Seq<char>,
    told: Seq<Effect>,
    tells: Seq<Effect>,
)
    requires
        review_asked(before, after, run_id, started, response, told, tells),
    ensures
        tells.len() == told.len() + 1,
        forall|k: int| 0 <= k < told.len() ==> tells[k] == #[trigger] told[k],
        tells.last() matches Effect::Notice(n) && opt_text(n.run) == Some(run_id) && n.path is None
            && (started is Some ==> n.level is Info && n.message@
            == "review started — interviewing the run's team"@) && (started is None
            ==> n.level is Warning && says(
            answer_read(response),
            "could not start a review for this run"@,
            n.message@,
        )),
        after.mode == before.mode,
        started is None ==> after == before,
        after.historical_run is Some <==> before.historical_run is Some,
        (started is Some && (after.historical_run is Some)) ==> (
        after.historical_run matches Some(s) && (before.historical_run matches Some(b) && s.review
            == started && s.review_findings == b.review_findings && s.graph == b.graph
            && s.interrogations == b.interrogations && s.members == b.members)),
{
    assert forall|k: int| 0 <= k < told.len() implies tells[k] == #[trigger] told[k] by {
        assert(tells.drop_last()[k] == told[k]);
    }
}

/// Closing a run of the past shows none, wherever one is.
pub proof fn law_a_closed_run_is_shown_no_more(before: HistoryScreen, after: HistoryScreen)
    requires
        closed(before, after),
    ensures
        after.historical_run is None,
        after.mode == before.mode,
{
}

} // verus!
