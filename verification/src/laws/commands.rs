//! What the verbs of the command line promise to ask for.

use crate::cli::node_args::{expand_args, interrogate_args, ExpandFlags, InterrogateFlags};
use crate::cli::other_args::{
    answer_args, apply_args, create_args, findings_args, summary_list_flags, update_args,
    ApplyFlags,
};
use crate::cli::plans::{verb_plan, Plan, WorkflowEnv};
use crate::cli::run_args::{
    report_session_flags, run_finish_args, run_list_flags, run_message_args, run_start_args,
    RunFinishFlags, RunMessageFlags, RunStartFlags,
};
use crate::cli::steps::{Pending, Reading, Step};
use crate::cli::verbs::Verb;
use crate::text::{join, opt_text, texts, trim};
use crate::wire::Method;
use vstd::prelude::*;

verus! {

broadcast use crate::text::group_texts;

/// The request that a plan sends, and what is done with its answer.
pub open spec fn sends(plan: Plan) -> Option<(Method, Pending)> {
    match plan {
        Plan::Go(Step::Send { method, then, .. }) => Some((method, then)),
        _ => None,
    }
}

/// Whether the arguments are this many operands, and perhaps that the answer is wanted as
/// it is.
pub open spec fn operands(args: Seq<String>, n: int, json: bool) -> bool {
    if json {
        args.len() == n + 1 && args[n]@ == "--json"@
    } else {
        args.len() == n
    }
}

proof fn lemma_operands(args: Seq<String>, n: int, json: bool)
    requires
        n >= 0,
        operands(args, n, json),
    ensures
        crate::cli::run_args::operands_then_json(texts(args), n) == Some(json),
{
    assert(texts(args).len() == args.len());
    if json {
        assert(texts(args)[n] == args[n]@);
    }
}

/// A verb about a run asks for that run, and the answer is told as it was wanted.
pub proof fn law_a_verb_about_a_run_asks_for_that_run(
    verb: Verb,
    args: Seq<String>,
    env: WorkflowEnv,
    plan: Plan,
    j: bool,
)
    requires
        verb_plan(verb, args, env, plan),
        operands(args, 1, j),
    ensures
        verb == Verb::RunShow ==> (sends(plan) matches Some(
            (Method::WorkflowRunGet(t), Pending::Run { json }),
        ) && t.run_id == args[0] && json == j),
        verb == Verb::RunCancel ==> (sends(plan) matches Some(
            (Method::WorkflowRunCancel(t), Pending::Mutation { json }),
        ) && t.run_id == args[0] && json == j),
        verb == Verb::SummaryShow ==> (sends(plan) matches Some(
            (Method::WorkflowSummaryGet(t), Pending::SummaryShow { json }),
        ) && t.run_id == args[0] && json == j),
        verb == Verb::ReviewStart ==> (sends(plan) matches Some(
            (Method::WorkflowReviewStart(t), Pending::Mutation { json }),
        ) && t.run_id == args[0] && json == j),
        verb == Verb::ReviewShow ==> (sends(plan) matches Some(
            (Method::WorkflowReviewGet(t), Pending::ReviewShow { json }),
        ) && t.run_id == args[0] && json == j),
        verb == Verb::Show ==> (sends(plan) matches Some((Method::WorkflowGet(t), then))
            && t.workflow_id == args[0] && (j ==> then is Raw) && (!j ==> then is Show)),
{
    lemma_operands(args, 1, j);
}

/// A verb about a node asks for that node of that run.
pub proof fn law_a_verb_about_a_node_asks_for_that_node(
    verb: Verb,
    args: Seq<String>,
    env: WorkflowEnv,
    plan: Plan,
    j: bool,
)
    requires
        verb_plan(verb, args, env, plan),
        operands(args, 2, j),
    ensures
        verb == Verb::NodeShow ==> (sends(plan) matches Some(
            (Method::WorkflowNodeGet(t), Pending::Node { json }),
        ) && t.run_id == args[0] && t.path == args[1] && json == j),
        verb == Verb::NodeInterrupt ==> (sends(plan) matches Some(
            (Method::WorkflowNodeInterrupt(t), Pending::Mutation { json }),
        ) && t.run_id == args[0] && t.path == args[1] && json == j),
        verb == Verb::NodeRestart ==> (sends(plan) matches Some(
            (Method::WorkflowNodeRestart(t), Pending::Mutation { json }),
        ) && t.run_id == args[0] && t.path == args[1] && json == j),
{
    lemma_operands(args, 2, j);
}

/// The workflows are listed whenever nothing else is asked; another operand is refused.
pub proof fn law_workflows_are_listed(args: Seq<String>, env: WorkflowEnv, plan: Plan, j: bool)
    requires
        verb_plan(Verb::List, args, env, plan),
    ensures
        operands(args, 0, j) ==> (sends(plan) matches Some((Method::WorkflowList, Pending::Raw))),
        args.len() > 1 ==> plan is Refuse,
{
    if operands(args, 0, j) {
        lemma_operands(args, 0, j);
    }
    assert(texts(args).len() == args.len());
}

/// Whether a text map holds what a map of texts does.
pub open spec fn holds_texts(m: Map<Seq<char>, String>, want: Map<Seq<char>, Seq<char>>) -> bool {
    forall|k: Seq<char>|
        (#[trigger] m.contains_key(k) <==> want.contains_key(k)) && (m.contains_key(k) ==> m[k]@
            == want[k])
}

proof fn lemma_holds(m: Map<Seq<char>, String>, want: Map<Seq<char>, Seq<char>>)
    requires
        crate::cli::values::text_values(m) == want,
    ensures
        holds_texts(m, want),
{
    assert forall|k: Seq<char>| (#[trigger] m.contains_key(k) <==> want.contains_key(k)) && (
    m.contains_key(k) ==> m[k]@ == want[k]) by {
        assert(crate::cli::values::text_values(m).contains_key(k) <==> m.contains_key(k));
    }
}

/// A run is asked for with everything that was said of it and nothing else: its workflow,
/// its tier, its arguments, what to restore and from where, and whether to leave the
/// summaries out. Where it names arguments the workflow is looked up first.
pub proof fn law_a_run_is_asked_for_as_it_was_said(
    args: Seq<String>,
    env: WorkflowEnv,
    plan: Plan,
    target: Seq<char>,
    f: RunStartFlags,
)
    requires
        verb_plan(Verb::RunStart, args, env, plan),
        run_start_args(texts(args)) == Ok::<(Seq<char>, RunStartFlags), Seq<char>>((target, f)),
    ensures
        ({
            let p = match sends(plan) {
                Some((Method::WorkflowRun(p), _)) => p,
                Some((_, Pending::RunPrecheck { params, .. })) => params,
                _ => arbitrary(),
            };
            let named = exists|k: Seq<char>| #[trigger] f.args.contains_key(k);
            &&& (sends(plan) matches Some((Method::WorkflowRun(_), Pending::Run { json })) && json
                == f.json && !named) || (sends(plan) matches Some(
                (Method::WorkflowGet(t), Pending::RunPrecheck { json, .. }),
            ) && t.workflow_id@ == target && json == f.json && named)
            &&& p.workflow_id@ == target
            &&& p.version is None
            &&& p.tier == f.tier
            &&& holds_texts(p.args@, f.args)
            &&& p.restore_from is Some <==> f.restore_from is Some
            &&& p.restore_from matches Some(r) ==> r.run_id@ == f.restore_from->0 && texts(r.nodes@)
                == f.restore && r.allow_changed == f.allow_changed
            &&& f.no_prior_summaries ==> p.include_prior_summaries == Some(false)
            &&& !f.no_prior_summaries ==> p.include_prior_summaries is None
        }),
{
    let p = match sends(plan) {
        Some((Method::WorkflowRun(p), _)) => p,
        Some((_, Pending::RunPrecheck { params, .. })) => params,
        _ => arbitrary(),
    };
    lemma_holds(p.args@, f.args);
    crate::ordered::lemma_entry_map(p.args.entries@);
    let keys = crate::ordered::entry_keys(p.args.entries@);
    assert(keys.len() == p.args.entries@.len());
    if p.args.keys().len() > 0 {
        let k = keys[0];
        assert(p.args@.contains_key(k));
        assert(f.args.contains_key(k));
    } else {
        assert forall|k: Seq<char>| !#[trigger] f.args.contains_key(k) by {
            if f.args.contains_key(k) {
                assert(p.args@.contains_key(k));
                let i = choose|i: int| 0 <= i < p.args.entries@.len() && #[trigger] keys[i] == k;
            }
        }
    }
}

/// A run is finished, and a message sent, with what was said of it; a message that is in a
/// file is read first.
pub proof fn law_a_run_is_finished_and_spoken_to_as_it_was_said(
    args: Seq<String>,
    env: WorkflowEnv,
    plan: Plan,
    run: Seq<char>,
    f: RunFinishFlags,
    m: RunMessageFlags,
)
    ensures
        verb_plan(Verb::RunFinish, args, env, plan) && run_finish_args(
            texts(args),
            opt_text(env.run_id),
        ) == Ok::<(Seq<char>, RunFinishFlags), Seq<char>>((run, f)) ==> (sends(plan) matches Some(
            (Method::WorkflowRunFinish(p), Pending::Mutation { json }),
        ) && p.run_id@ == run && opt_text(p.summary) == f.summary && opt_text(p.summary_file)
            == f.summary_file && opt_text(p.outcome) == f.outcome && json == f.json),
        verb_plan(Verb::RunMessage, args, env, plan) && run_message_args(
            texts(args),
            opt_text(env.run_id),
        ) == Ok::<(Seq<char>, RunMessageFlags), Seq<char>>((run, m)) && m.text is Some ==> (
        sends(plan) matches Some((Method::WorkflowRunMessage(p), Pending::Mutation { json }))
            && p.run_id@ == run && Some(p.target@) == m.target && Some(p.text@) == m.text
            && opt_text(p.priority) == m.priority && json == m.json),
        verb_plan(Verb::RunMessage, args, env, plan) && run_message_args(
            texts(args),
            opt_text(env.run_id),
        ) == Ok::<(Seq<char>, RunMessageFlags), Seq<char>>((run, m)) && m.text is None ==> (
        plan matches Plan::Go(Step::ReadFile { path, what: Reading::Message { request, json } })
            && Some(path@) == m.text_file && request.run_id@ == run && Some(request.target@)
            == m.target && opt_text(request.priority) == m.priority && json == m.json),
{
}

/// The runs of the workflow that is named are listed, as many as asked for; the summaries
/// of a workflow likewise, or those of all.
pub proof fn law_lists_are_of_what_is_named(
    args: Seq<String>,
    env: WorkflowEnv,
    plan: Plan,
    limit: Option<u32>,
    j: bool,
    workflow: Option<Seq<char>>,
)
    ensures
        verb_plan(Verb::RunList, args, env, plan) && args.len() > 0 && run_list_flags(
            texts(args),
            1,
            None,
            false,
        ) == Ok::<(Option<u32>, bool), Seq<char>>((limit, j)) ==> (sends(plan) matches Some(
            (Method::WorkflowRunList(p), Pending::Raw),
        ) && p.workflow_id == Some(args[0]) && p.limit == limit),
        verb_plan(Verb::SummaryList, args, env, plan) && summary_list_flags(
            texts(args),
            0,
            None,
            None,
            false,
        ) == Ok::<(Option<Seq<char>>, Option<u32>, bool), Seq<char>>((workflow, limit, j)) ==> (
        sends(plan) matches Some((Method::WorkflowSummaryList(p), Pending::SummaryList { json }))
            && opt_text(p.workflow_id) == workflow && p.limit == limit && json == j),
{
}

/// A definition is read from the file that is named, to create the workflow under the given
/// name or to update the one that is named, with the change described as it was or not at
/// all.
pub proof fn law_a_definition_is_read_from_its_file(
    args: Seq<String>,
    env: WorkflowEnv,
    plan: Plan,
    id: Seq<char>,
    file: Seq<char>,
    text: Option<Seq<char>>,
    j: bool,
)
    ensures
        verb_plan(Verb::Create, args, env, plan) && create_args(texts(args)) == Ok::<
            (Seq<char>, Option<Seq<char>>, bool),
            Seq<char>,
        >((file, text, j)) ==> (plan matches Plan::Go(
            Step::ReadFile { path, what: Reading::CreateDefinition { name, json } },
        ) && path@ == file && opt_text(name) == text && json == j),
        verb_plan(Verb::Update, args, env, plan) && update_args(texts(args)) == Ok::<
            (Seq<char>, Seq<char>, Option<Seq<char>>, bool),
            Seq<char>,
        >((id, file, text, j)) ==> (plan matches Plan::Go(
            Step::ReadFile {
                path,
                what: Reading::UpdateDefinition { workflow_id, change_summary, json },
            },
        ) && path@ == file && workflow_id@ == id && json == j && (text matches Some(t)
            ==> change_summary@ == t) && (text is None ==> change_summary@.len() == 0)),
{
}

/// A node is steered, expanded and interrogated as was said: with every word, from the
/// template and under the label with each input, and in the mode and with the note given.
pub proof fn law_a_node_is_asked_as_it_was_said(
    args: Seq<String>,
    env: WorkflowEnv,
    plan: Plan,
    x: ExpandFlags,
    q: InterrogateFlags,
)
    ensures
        verb_plan(Verb::NodeSteer, args, env, plan) && args.len() >= 3 && args.last()@
            != "--json"@ ==> (sends(plan) matches Some(
            (Method::WorkflowNodeSteer(p), Pending::Mutation { json }),
        ) && p.run_id == args[0] && p.path == args[1] && p.text@ == join(
            texts(args).skip(2),
            " "@,
        ) && !json),
        verb_plan(Verb::NodeExpand, args, env, plan) && expand_args(texts(args)) == Ok::<
            ExpandFlags,
            Seq<char>,
        >(x) && env.node_token is Some ==> (sends(plan) matches Some(
            (Method::WorkflowNodeExpand(p), Pending::Expand { json }),
        ) && p.run_id == args[0] && p.path == args[1] && p.token == env.node_token->0 && Some(
            p.template@,
        ) == x.template && Some(p.label@) == x.label && holds_texts(p.inputs@, x.inputs) && p.count
            == x.count && json == x.json),
        verb_plan(Verb::NodeExpand, args, env, plan) && expand_args(texts(args)) is Ok
            && env.node_token is None ==> plan is Fail,
        verb_plan(Verb::NodeInterrogate, args, env, plan) && interrogate_args(texts(args)) == Ok::<
            InterrogateFlags,
            Seq<char>,
        >(q) ==> (sends(plan) matches Some(
            (Method::WorkflowNodeInterrogate(p), Pending::Interrogate { json }),
        ) && p.run_id == args[0] && p.path == args[1] && p.mode == q.mode && opt_text(p.note)
            == q.note && json == q.json),
{
    assert(texts(args).len() == args.len());
    if args.len() > 0 {
        assert(texts(args).last() == args.last()@);
    }
    if verb_plan(Verb::NodeExpand, args, env, plan) && expand_args(texts(args)) == Ok::<
        ExpandFlags,
        Seq<char>,
    >(x) && env.node_token is Some {
        if let Some((Method::WorkflowNodeExpand(p), _)) = sends(plan) {
            lemma_holds(p.inputs@, x.inputs);
        }
    }
}

/// A node reports for itself: for the run, the node, the directory and with the token that
/// its environment names, all four of which it needs.
pub proof fn law_a_node_reports_for_itself(
    args: Seq<String>,
    env: WorkflowEnv,
    plan: Plan,
    file: Option<Seq<char>>,
)
    requires
        verb_plan(Verb::NodeComplete, args, env, plan),
        crate::cli::node_args::complete_flags(texts(args), 0, None) == Ok::<
            Option<Seq<char>>,
            Seq<char>,
        >(file),
    ensures
        ({
            let known = env.run_id is Some && env.node_path is Some && env.node_dir is Some
                && env.node_token is Some;
            &&& !known ==> (plan matches Plan::Fail { code, json, .. } && code@
                == "missing_node_environment"@ && json)
            &&& known ==> (plan matches Plan::Go(
                Step::ReadFile { path, what: Reading::NodeResult { env: node } },
            ) && node.run_id == env.run_id->0 && node.node_path == env.node_path->0 && node.node_dir
                == env.node_dir->0 && node.node_token == env.node_token->0 && (file matches Some(p)
                ==> path@ == p))
        }),
{
}

/// A review is answered, reported and applied as was said: for the run and the member of
/// one's own environment, from the file that is named, and with exactly the nodes that were
/// accepted.
pub proof fn law_a_review_is_answered_and_applied_as_it_was_said(
    args: Seq<String>,
    env: WorkflowEnv,
    plan: Plan,
    a: ApplyFlags,
    run: Seq<char>,
    who: Seq<char>,
    file: Seq<char>,
    j: bool,
)
    ensures
        verb_plan(Verb::ReviewApply, args, env, plan) && apply_args(texts(args)) == Ok::<
            ApplyFlags,
            Seq<char>,
        >(a) ==> (sends(plan) matches Some(
            (Method::WorkflowReviewApply(p), Pending::Mutation { json }),
        ) && p.run_id == args[0] && texts(p.accept@) == a.accept && json == a.json),
        verb_plan(Verb::ReviewAnswer, args, env, plan) && answer_args(
            texts(args),
            opt_text(env.review_run_id),
            opt_text(env.review_member),
        ) == Ok::<(Seq<char>, Seq<char>, Seq<char>, bool), Seq<char>>((run, who, file, j)) ==> (
        sends(plan) matches Some((Method::WorkflowReviewAnswer(p), Pending::Mutation { json }))
            && p.run_id@ == run && p.member@ == who && opt_text(p.answer_file) == Some(file)
            && p.answer is None && json == j),
        verb_plan(Verb::ReviewReport, args, env, plan) && findings_args(
            texts(args),
            opt_text(env.review_run_id),
        ) == Ok::<(Seq<char>, Seq<char>, bool), Seq<char>>((run, file, j)) ==> (sends(
            plan,
        ) matches Some((Method::WorkflowReviewReport(p), Pending::Mutation { json })) && p.run_id@
            == run && opt_text(p.findings_file) == Some(file) && p.findings is None && json == j),
{
}

/// A session reports for the run that is named, else for that of its environment; one that
/// belongs to none has nothing to report, and none fails over it.
pub proof fn law_a_session_never_fails_over_its_report(
    args: Seq<String>,
    env: WorkflowEnv,
    plan: Plan,
    flag: Option<Seq<char>>,
    j: bool,
)
    requires
        verb_plan(Verb::RunReportSession, args, env, plan),
    ensures
        !(plan is Refuse) && !(plan is Fail),
        report_session_flags(texts(args), 0, None, false, env.agent_name@) == Ok::<
            (Option<Seq<char>>, bool),
            Seq<char>,
        >((flag, j)) ==> {
            let named = if flag is Some {
                flag
            } else {
                opt_text(env.run_id)
            };
            let known = named matches Some(v) && trim(v).len() > 0;
            &&& known ==> (plan matches Plan::Go(Step::ReadHook { run_id, json }) && Some(run_id@)
                == named && json == j)
            &&& !known ==> plan is Nothing
        },
{
}

} // verus!
