//! What becomes of the files and answers that a command asked for.

use crate::cli::definition::{definition_loaded, json_renamed, renamed_definition, toml_renamed};
use crate::cli::plans::WorkflowEnv;
use crate::cli::render_lines::items_at;
use crate::cli::run_args::RunMessageRequest;
use crate::cli::steps::{NodeCompleteEnv, Pending, Reading, Step};
use crate::cli::workflow::{
    declared_names, definition_step, envelope_is, failure_shown, file_handled, hook_handled,
    local_error_lines, reply_handled, silence_handled, unknown_keys, HookInput,
};
use crate::console::Console;
use crate::documents::{
    json_compact, json_contents, json_document, json_pretty, toml_document, toml_entries,
    toml_pretty, toml_text, Reply,
};
use crate::json::{at, member, text_at, unsigned_at, Json};
use crate::laws::places::filtered_places;
use crate::path::extension;
use crate::text::{lines, opt_text, trim};
use crate::wire::{Method, WorkflowDefinitionDocument, WorkflowDefinitionFormat, WorkflowRunParams};
use vstd::prelude::*;

verus! {

broadcast use crate::text::group_texts;

/// The request that a step sends, and what is done with its answer.
pub open spec fn asks(step: Step) -> Option<(Method, Pending)> {
    match step {
        Step::Send { method, then, .. } => Some((method, then)),
        _ => None,
    }
}

/// Whether an answer is printed as it is, on the output where it is none of an error and on
/// the error output where it is one, which fails the command.
pub open spec fn printed_as_it_is(
    reply: Reply,
    before: Console,
    after: Console,
    step: Step,
) -> bool {
    if member(reply.value, "error"@) is Some {
        step == Step::Exit(1) && after.out_lines() == before.out_lines() && after.err_lines()
            == before.err_lines().push(reply.compact@)
    } else {
        step == Step::Exit(0) && after.err_lines() == before.err_lines() && after.out_lines()
            == before.out_lines().push(reply.compact@)
    }
}

/// Where the answer is wanted as it is, it is printed as it is, whatever was asked.
pub proof fn law_an_answer_is_printed_as_it_is_where_wanted(
    then: Pending,
    reply: Reply,
    before: Console,
    after: Console,
    step: Step,
)
    requires
        reply_handled(then, reply, before, after, step),
        then is Raw || then == (Pending::Create { json: true }) || (then matches Pending::Update {
            json,
            ..
        } && json) || then == (Pending::Run { json: true }) || then == (Pending::Mutation {
            json: true,
        }) || then == (Pending::Node { json: true }) || then == (Pending::Expand { json: true })
            || then == (Pending::Interrogate { json: true }) || then == (Pending::SummaryShow {
            json: true,
        }) || then == (Pending::SummaryList { json: true }) || then == (Pending::ReviewShow {
            json: true,
        }),
    ensures
        printed_as_it_is(reply, before, after, step),
{
    if member(reply.value, "error"@) is Some {
        assert(after.err_lines() =~= before.err_lines().push(reply.compact@));
        assert(after.out_lines() =~= before.out_lines());
    } else {
        assert(after.out_lines() =~= before.out_lines().push(reply.compact@));
        assert(after.err_lines() =~= before.err_lines());
    }
}

/// A refusal fails every command that was after an answer, and nothing of it is taken for
/// one: nothing is printed but the refusal, on the error output.
pub proof fn law_a_refused_command_fails(
    then: Pending,
    reply: Reply,
    before: Console,
    after: Console,
    step: Step,
)
    requires
        reply_handled(then, reply, before, after, step),
        member(reply.value, "error"@) is Some,
        !(then is ShowVersion) && !(then is UpdatePrecheck) && !(then is RunPrecheck) && !(then
            is RunPrecheckVersion) && !(then is ReportSession),
    ensures
        step == Step::Exit(1),
        after.out_lines() == before.out_lines(),
        after.err_lines().len() == before.err_lines().len() + 1,
{
    assert(after.out_lines() =~= before.out_lines());
}

/// A workflow that is shown is asked for its head version first, by the id that the answer
/// names; an update is sent as it was asked for, whatever stood before it; and a run that
/// names arguments asks for the version they are held against.
pub proof fn law_a_look_up_leads_to_what_was_asked(
    then: Pending,
    reply: Reply,
    before: Console,
    after: Console,
    step: Step,
    version: Seq<char>,
)
    requires
        reply_handled(then, reply, before, after, step),
        member(reply.value, "error"@) is None,
        text_at(at(at(reply.value, "result"@), "workflow"@), "head_version_id"@) == Some(version),
    ensures
        then is Show ==> after == before && (asks(step) matches Some(
            (Method::WorkflowVersionGet(v), Pending::ShowVersion { response }),
        ) && v@ == version && response == reply.value),
        then matches Pending::RunPrecheck { params, json } ==> after == before && (asks(
            step,
        ) matches Some((Method::WorkflowVersionGet(v), p)) && v@ == version && p
            == (Pending::RunPrecheckVersion { params, json })),
        then matches Pending::UpdatePrecheck { workflow_id, definition, change_summary, json }
            ==> after == before && (asks(step) matches Some(
            (Method::WorkflowVersionCreate(p), Pending::Update { previous, json: j }),
        ) && p.workflow_id == workflow_id && p.definition == definition && p.change_summary
            == change_summary && j == json && (unsigned_at(
            at(at(reply.value, "result"@), "workflow"@),
            "head_version"@,
        ) is None ==> previous is None) && (unsigned_at(
            at(at(reply.value, "result"@), "workflow"@),
            "head_version"@,
        ) matches Some(n) ==> n <= u32::MAX ==> previous == Some(n as u32))),
{
}

/// A run whose every argument is declared is started as it was asked for; one that names
/// another is not.
pub proof fn law_declared_arguments_start_the_run(
    params: WorkflowRunParams,
    json: bool,
    reply: Reply,
    before: Console,
    after: Console,
    step: Step,
)
    requires
        reply_handled(Pending::RunPrecheckVersion { params, json }, reply, before, after, step),
        member(reply.value, "error"@) is None,
    ensures
        ({
            let declared = declared_names(
                items_at(at(at(reply.value, "result"@), "version"@), "args"@),
            );
            let keys = params.args.keys();
            let fine = forall|i: int| 0 <= i < keys.len() ==> declared.contains(#[trigger] keys[i]);
            &&& fine ==> after == before && asks(step) == Some(
                (Method::WorkflowRun(params), Pending::Run { json }),
            )
            &&& !fine ==> step == Step::Exit(1) && after.out_lines() == before.out_lines()
        }),
{
    let declared = declared_names(items_at(at(at(reply.value, "result"@), "version"@), "args"@));
    let keys = params.args.keys();
    lemma_unknown(keys, declared);
    if exists|i: int| 0 <= i < keys.len() && !declared.contains(#[trigger] keys[i]) {
        assert(after.out_lines() =~= before.out_lines());
    }
}

proof fn lemma_unknown(keys: Seq<Seq<char>>, declared: Seq<Seq<char>>)
    ensures
        unknown_keys(keys, declared).len() == 0 <==> forall|i: int|
            0 <= i < keys.len() ==> declared.contains(#[trigger] keys[i]),
{
    let keep = |k: Seq<char>| !crate::text::has_text(declared, k);
    let unknown = keys.filter(keep);
    assert(unknown_keys(keys, declared) == unknown);
    let places = filtered_places(keys, keep);
    assert forall|i: int| 0 <= i < keys.len() implies keep(#[trigger] keys[i])
        == !declared.contains(keys[i]) by {
        if declared.contains(keys[i]) {
            let j = choose|j: int| 0 <= j < declared.len() && declared[j] == keys[i];
            assert(declared[j] == keys[i]);
        }
    }
    if unknown.len() == 0 {
        assert forall|i: int| 0 <= i < keys.len() implies declared.contains(#[trigger] keys[i]) by {
            if keep(keys[i]) {
                assert(places.contains(i));
            }
        }
    } else {
        assert(keep(keys[places[0]]));
    }
}

proof fn lemma_declared(args: Seq<Json>, name: Seq<char>)
    ensures
        declared_names(args).contains(name) <==> exists|i: int|
            0 <= i < args.len() && text_at(#[trigger] args[i], "name"@) == Some(name),
    decreases args.len(),
{
    broadcast use {crate::laws::places::lemma_in_either, crate::laws::places::lemma_in_pushed};

    if args.len() > 0 {
        let n = args.len() - 1;
        let init = args.drop_last();
        lemma_declared(init, name);
        assert(forall|i: int| 0 <= i < n ==> init[i] == #[trigger] args[i]);
        if exists|i: int| 0 <= i < args.len() && text_at(#[trigger] args[i], "name"@) == Some(name) {
            let i = choose|i: int|
                0 <= i < args.len() && text_at(#[trigger] args[i], "name"@) == Some(name);
            if i < n {
                assert(text_at(init[i], "name"@) == Some(name));
            }
        }
        if exists|i: int| 0 <= i < init.len() && text_at(#[trigger] init[i], "name"@) == Some(name) {
            let i = choose|i: int|
                0 <= i < init.len() && text_at(#[trigger] init[i], "name"@) == Some(name);
            assert(text_at(args[i], "name"@) == Some(name));
        }
        assert(args[n] == args.last());
    }
}

/// An argument is declared exactly where the version lists one of its name.
pub proof fn law_an_argument_is_declared_by_its_name(args: Seq<Json>, name: Seq<char>)
    ensures
        declared_names(args).contains(name) <==> exists|i: int|
            0 <= i < args.len() && text_at(#[trigger] args[i], "name"@) == Some(name),
{
    lemma_declared(args, name);
}

// ---------------------------------------------------------------------------
// Files
// ---------------------------------------------------------------------------

/// A message that was read from a file is sent word for word to whom it was meant for; one
/// that could not be read is not sent.
pub proof fn law_a_message_from_a_file_is_sent_word_for_word(
    path: Seq<char>,
    request: RunMessageRequest,
    json: bool,
    read: Result<String, String>,
    windows: bool,
    before: Console,
    after: Console,
    step: Step,
)
    requires
        file_handled(
            path,
            Reading::Message { request, json },
            read,
            windows,
            before,
            after,
            step,
        ),
    ensures
        read matches Ok(text) ==> after == before && (asks(step) matches Some(
            (Method::WorkflowRunMessage(p), Pending::Mutation { json: j }),
        ) && p.run_id == request.run_id && p.target == request.target && p.text == text && p.priority
            == request.priority && j == json),
        read is Err ==> step == Step::Exit(2) && after.out_lines() == before.out_lines(),
{
    if read is Err {
        assert(after.out_lines() =~= before.out_lines());
    }
}

/// A node reports itself with its own token, and with the result that its file holds; a
/// file that cannot be read or parsed is reported as no result, with a warning.
pub proof fn law_a_node_reports_what_its_file_holds(
    path: Seq<char>,
    env: NodeCompleteEnv,
    read: Result<String, String>,
    windows: bool,
    before: Console,
    after: Console,
    step: Step,
)
    requires
        file_handled(path, Reading::NodeResult { env }, read, windows, before, after, step),
    ensures
        asks(step) matches Some((Method::WorkflowNodeReport(p), Pending::Mutation { json }))
            && p.run_id == env.run_id && p.path == env.node_path && p.token == env.node_token && !json
            && (match read {
            Ok(text) => match json_document(text@) {
                Ok(value) => p.result == json_contents(value) && after.err_lines()
                    == before.err_lines(),
                Err(_) => p.result is Null && after.err_lines().len() == before.err_lines().len()
                    + 1,
            },
            Err(_) => p.result is Null && after.err_lines().len() == before.err_lines().len() + 1,
        }),
        after.out_lines() == before.out_lines(),
{
    if let Ok(text) = read {
        if json_document(text@) is Ok {
            assert(after.err_lines() =~= before.err_lines());
        }
    }
}

/// A definition that was loaded is sent as it was loaded: to create a workflow, or for the
/// workflow and with the change that were named, at once where the answer is wanted as it
/// is and after a look at the version before it otherwise. One that could not be loaded is
/// not sent.
pub proof fn law_a_definition_is_sent_as_it_was_loaded(
    what: Reading,
    loaded: Result<WorkflowDefinitionDocument, String>,
    before: Console,
    after: Console,
    step: Step,
)
    requires
        definition_step(what, loaded, before, after, step),
    ensures
        loaded is Err ==> step == Step::Exit(1),
        loaded matches Ok(d) ==> after == before,
        loaded matches Ok(d) ==> (what matches Reading::CreateDefinition { json, .. } ==> asks(step)
            == Some((Method::WorkflowCreate(d), Pending::Create { json }))),
        loaded matches Ok(d) ==> (what matches Reading::UpdateDefinition {
            workflow_id,
            change_summary,
            json,
        } ==> (json ==> (asks(step) matches Some(
            (Method::WorkflowVersionCreate(p), Pending::Update { previous, json: j }),
        ) && p.workflow_id == workflow_id && p.definition == d && p.change_summary
            == change_summary && previous is None && j)) && (!json ==> (asks(step) matches Some(
            (
                Method::WorkflowGet(t),
                Pending::UpdatePrecheck {
                    workflow_id: id,
                    definition,
                    change_summary: change,
                    json: j,
                },
            ),
        ) && t.workflow_id == workflow_id && id == workflow_id && definition == d && change
            == change_summary && !j))),
{
}

/// A definition is loaded as what its ending says it is, word for word where it keeps its
/// name; a file with another ending is none, and neither is one that cannot be read.
pub proof fn law_a_definition_is_what_its_file_holds(
    path: Seq<char>,
    read: Result<String, String>,
    name: Option<String>,
    windows: bool,
    r: Result<WorkflowDefinitionDocument, String>,
)
    requires
        definition_loaded(path, read, name, windows, r),
    ensures
        ({
            let ending = extension(path, windows);
            let known = ending == Some("toml"@) || ending == Some("json"@);
            &&& !known || read is Err ==> r is Err
            &&& r matches Ok(d) ==> (d.format == WorkflowDefinitionFormat::Toml <==> ending == Some(
                "toml"@,
            )) && (d.format == WorkflowDefinitionFormat::Json <==> ending == Some("json"@))
            &&& known && name is None ==> (read matches Ok(text) ==> r is Ok && r->Ok_0.text == text)
        }),
{
    reveal_strlit("toml");
    reveal_strlit("json");
    assert("toml"@[0] == 't' && "json"@[0] == 'j');
}

/// A definition that is given another name has that name, and every other member it had
/// before.
pub proof fn law_a_renamed_definition_differs_in_its_name(
    before: serde_json::Value,
    after: serde_json::Value,
    name: Seq<char>,
    key: Seq<char>,
)
    requires
        json_renamed(before, after, name),
    ensures
        text_at(json_contents(after), "name"@) == Some(name),
        key != "name"@ ==> member(json_contents(after), key) == member(json_contents(before), key),
{
}

/// Whether giving a definition another name came out as this: the definition that `renamed`
/// says, or why it could not be written.
pub open spec fn came_out(r: Result<String, String>, notation: Result<Seq<char>, Seq<char>>) -> bool {
    match notation {
        Ok(text) => r matches Ok(t) && t@ == text,
        Err(e) => r matches Err(m) && m@ == "failed to re-serialize definition: "@ + e,
    }
}

/// A definition that can be read and has entries is given its new name, with all its other
/// entries as they were, and comes out in its own notation. What cannot be read, or has no
/// entries, is refused with the reason.
pub proof fn law_a_definition_is_renamed_where_it_can_be(
    r: Result<String, String>,
    format: WorkflowDefinitionFormat,
    text: Seq<char>,
    name: Seq<char>,
)
    requires
        renamed_definition(r, format, text, name),
    ensures
        format is Toml ==> match toml_document(text) {
            Err(e) => r matches Err(m) && m@ == "invalid TOML definition: "@ + e,
            Ok(value) => match toml_entries(value) {
                None => r matches Err(m) && m@ == "definition must be a TOML table"@,
                Some(entries) => exists|after: toml::Value|
                    {
                        &&& #[trigger] toml_entries(after) matches Some(new)
                        &&& toml_text(new["name"@]) == Some(name)
                        &&& forall|k: Seq<char>|
                            k != "name"@ ==> (new.contains_key(k) <==> entries.contains_key(k)) && (
                            entries.contains_key(k) ==> #[trigger] new[k] == entries[k])
                        &&& came_out(r, toml_pretty(after))
                    },
            },
        },
        format is Json ==> match json_document(text) {
            Err(e) => r matches Err(m) && m@ == "invalid JSON definition: "@ + e,
            Ok(value) => if json_contents(value) is Object {
                exists|after: serde_json::Value|
                    {
                        &&& text_at(#[trigger] json_contents(after), "name"@) == Some(name)
                        &&& forall|k: Seq<char>|
                            k != "name"@ ==> #[trigger] member(json_contents(after), k) == member(
                                json_contents(value),
                                k,
                            )
                        &&& came_out(r, json_pretty(after))
                    }
            } else {
                r matches Err(m) && m@ == "definition must be a JSON object"@
            },
        },
{
    if format is Toml {
        if let Ok(value) = toml_document(text) {
            if let Some(entries) = toml_entries(value) {
                let after = choose|after: toml::Value| #[trigger]
                    toml_renamed(value, after, name) && crate::cli::definition::written(
                        r,
                        toml_pretty(after),
                    );
                let new = toml_entries(after)->0;
                assert(toml_entries(after) is Some);
                assert(forall|k: Seq<char>|
                    k != "name"@ ==> (new.contains_key(k) <==> entries.contains_key(k)) && (
                    entries.contains_key(k) ==> #[trigger] new[k] == entries[k]));
            }
        }
    } else {
        if let Ok(value) = json_document(text) {
            if json_contents(value) is Object {
                let after = choose|after: serde_json::Value| #[trigger]
                    json_renamed(value, after, name) && crate::cli::definition::written(
                        r,
                        json_pretty(after),
                    );
                assert(text_at(json_contents(after), "name"@) == Some(name));
            }
        }
    }
}

/// A local error is told with its code, and with its message line for line; as a document
/// it holds both and nothing else. Either way the command fails and prints nothing else.
pub proof fn law_a_local_error_is_told_in_full(
    before: Console,
    after: Console,
    r: i32,
    code: Seq<char>,
    message: Seq<char>,
    json: bool,
    i: int,
)
    requires
        failure_shown(before, after, r, code, message, json),
    ensures
        r == 1,
        after.out_lines() == before.out_lines(),
        !json ==> {
            let n: int = before.err_lines().len() as int;
            &&& after.err_lines().len() == n + 1 + lines(message).len()
            &&& after.err_lines()[n] == "error: "@ + code
            &&& 0 <= i < lines(message).len() ==> after.err_lines()[n + 1 + i] == "  "@ + lines(
                message,
            )[i]
        },
        json ==> after.err_lines().len() == before.err_lines().len() + 1 && exists|
            v: serde_json::Value,
        | after.err_lines().last() == #[trigger] json_compact(v) && {
            let error = at(json_contents(v), "error"@);
            text_at(error, "code"@) == Some(code) && text_at(error, "message"@) == Some(message)
        },
{
    assert(after.out_lines() =~= before.out_lines());
    if json {
        let v = choose|v: serde_json::Value|
            envelope_is(#[trigger] json_contents(v), code, message) && crate::cli::render::shows(
                before,
                after,
                r,
                crate::cli::render::complaint(json_compact(v), 1),
            );
        assert(envelope_is(json_contents(v), code, message));
        assert(after.err_lines().last() == json_compact(v));
    } else {
        let told = local_error_lines(code, message);
        let rest = lines(message).map_values(|l: Seq<char>| "  "@ + l);
        assert(told =~= seq!["error: "@ + code] + rest);
        let n: int = before.err_lines().len() as int;
        assert(after.err_lines()[n] == told[0]);
        if 0 <= i < lines(message).len() {
            assert(after.err_lines()[n + 1 + i] == told[1 + i]);
            assert(told[1 + i] == rest[i]);
        }
    }
}

// ---------------------------------------------------------------------------
// Sessions
// ---------------------------------------------------------------------------

/// A session is reported as its hook tells it, for the run it belongs to, with the pane, the
/// inbox and the token of its environment where they are not blank; without a hook there is
/// nothing to report.
pub proof fn law_a_session_is_reported_as_its_hook_tells(
    run_id: String,
    json: bool,
    hook: Option<HookInput>,
    env: WorkflowEnv,
    step: Step,
)
    requires
        hook_handled(run_id, json, hook, env, step),
    ensures
        hook is None ==> step == Step::Exit(0),
        hook matches Some(h) ==> (asks(step) matches Some(
            (Method::WorkflowRunReportSession(p), Pending::ReportSession { json: j }),
        ) && p.run_id == run_id && p.session_id == h.session_id && p.transcript_path
            == h.transcript_path && p.cwd == h.cwd && p.source == h.source && p.agent_id
            == h.agent_id && j == json && (env.pane_id is None ==> p.pane_id is None) && (
        env.pane_id matches Some(v) ==> (if trim(v@).len() > 0 {
            opt_text(p.pane_id) == Some(trim(v@))
        } else {
            p.pane_id is None
        })) && (env.messaging_socket is None ==> p.messaging_socket is None) && (
        env.messaging_socket matches Some(v) ==> (if trim(v@).len() > 0 {
            opt_text(p.messaging_socket) == Some(trim(v@))
        } else {
            p.messaging_socket is None
        })) && (env.messaging_token is None ==> p.messaging_token is None) && (
        env.messaging_token matches Some(v) ==> (if trim(v@).len() > 0 {
            opt_text(p.messaging_token) == Some(trim(v@))
        } else {
            p.messaging_token is None
        }))),
{
}

/// Where no answer comes, a session's own report ends well, a look-up stands in no one's
/// way, and every other command is told of it.
pub proof fn law_silence_stands_in_no_ones_way(then: Pending, r: Option<Step>)
    requires
        silence_handled(then, r),
    ensures
        then is ReportSession ==> r == Some(Step::Exit(0)),
        then matches Pending::RunPrecheck { params, json } ==> (r matches Some(step) && asks(step)
            == Some((Method::WorkflowRun(params), Pending::Run { json }))),
        then matches Pending::RunPrecheckVersion { params, json } ==> (r matches Some(step) && asks(
            step,
        ) == Some((Method::WorkflowRun(params), Pending::Run { json }))),
        then matches Pending::UpdatePrecheck { workflow_id, definition, change_summary, json } ==> (
        r matches Some(step) && (asks(step) matches Some(
            (Method::WorkflowVersionCreate(p), Pending::Update { previous, json: j }),
        ) && p.workflow_id == workflow_id && p.definition == definition && p.change_summary
            == change_summary && previous is None && j == json)),
        !(then is ReportSession) && !(then is RunPrecheck) && !(then is RunPrecheckVersion) && !(
        then is UpdatePrecheck) ==> r is None,
{
}

} // verus!
