//! What giving a flag on the command line promises.

use crate::cli::node_args::{
    complete_flags, expand_args, expand_defaults, expand_flags, interrogate_args,
    interrogate_defaults, interrogate_flags, steer_json, steer_words, ExpandFlags, InterrogateFlags,
};
use crate::cli::other_args::{
    answer_args, apply_args, apply_defaults, apply_flags, create_args, definition_defaults,
    definition_flags, findings_args, report_flags, summary_list_flags, update_args, ApplyFlags,
    DefinitionFlags,
};
use crate::cli::run_args::{
    operands_then_json, report_session_flags, run_finish_args, run_finish_defaults,
    run_finish_flags, run_list_flags, run_message_args, run_message_defaults, run_message_flags,
    run_start_args, run_start_defaults, run_start_flags, RunFinishFlags, RunMessageFlags,
    RunStartFlags,
};
use crate::cli::values::{assignment_of, flag_or_env, tier_of, token_of, u32_flag, variable_of};
use crate::text::{decimal, split_once, trim};
use crate::wire::{WorkflowInterrogationMode, WorkflowTier};
use vstd::prelude::*;

verus! {

proof fn lemma_flags_differ()
    ensures
        "--json"@.len() == 6 && "--json"@[2] == 'j',
        "--tier"@.len() == 6 && "--tier"@[2] == 't' && "--tier"@[3] == 'i',
        "--arg"@.len() == 5 && "--arg"@[2] == 'a',
        "--restore-from"@.len() == 14 && "--restore-from"@[2] == 'r',
        "--restore"@.len() == 9 && "--restore"@[2] == 'r',
        "--restore-allow-changed"@.len() == 23 && "--restore-allow-changed"@[2] == 'r',
        "--no-prior-summaries"@.len() == 20 && "--no-prior-summaries"@[2] == 'n',
        "--limit"@.len() == 7 && "--limit"@[2] == 'l' && "--limit"@[3] == 'i',
        "--run"@.len() == 5 && "--run"@[2] == 'r',
        "--run-id"@.len() == 8 && "--run-id"@[2] == 'r',
        "--summary"@.len() == 9 && "--summary"@[2] == 's',
        "--summary-file"@.len() == 14 && "--summary-file"@[2] == 's',
        "--outcome"@.len() == 9 && "--outcome"@[2] == 'o',
        "--to"@.len() == 4 && "--to"@[2] == 't',
        "--target"@.len() == 8 && "--target"@[2] == 't',
        "--text"@.len() == 6 && "--text"@[2] == 't' && "--text"@[3] == 'e',
        "--text-file"@.len() == 11 && "--text-file"@[2] == 't',
        "--priority"@.len() == 10 && "--priority"@[2] == 'p',
        "--template"@.len() == 10 && "--template"@[2] == 't',
        "--label"@.len() == 7 && "--label"@[2] == 'l' && "--label"@[3] == 'a',
        "--input"@.len() == 7 && "--input"@[2] == 'i',
        "--count"@.len() == 7 && "--count"@[2] == 'c',
        "--reconstructed"@.len() == 15 && "--reconstructed"@[2] == 'r',
        "--note"@.len() == 6 && "--note"@[2] == 'n',
        "--file"@.len() == 6 && "--file"@[2] == 'f',
        "--name"@.len() == 6 && "--name"@[2] == 'n',
        "--change-summary"@.len() == 16,
        "--accept"@.len() == 8 && "--accept"@[2] == 'a',
        "--decline-all"@.len() == 13,
        "--result-file"@.len() == 13,
{
    reveal_strlit("--json");
    reveal_strlit("--tier");
    reveal_strlit("--arg");
    reveal_strlit("--restore-from");
    reveal_strlit("--restore");
    reveal_strlit("--restore-allow-changed");
    reveal_strlit("--no-prior-summaries");
    reveal_strlit("--limit");
    reveal_strlit("--run");
    reveal_strlit("--run-id");
    reveal_strlit("--summary");
    reveal_strlit("--summary-file");
    reveal_strlit("--outcome");
    reveal_strlit("--to");
    reveal_strlit("--target");
    reveal_strlit("--text");
    reveal_strlit("--text-file");
    reveal_strlit("--priority");
    reveal_strlit("--template");
    reveal_strlit("--label");
    reveal_strlit("--input");
    reveal_strlit("--count");
    reveal_strlit("--reconstructed");
    reveal_strlit("--note");
    reveal_strlit("--file");
    reveal_strlit("--name");
    reveal_strlit("--change-summary");
    reveal_strlit("--accept");
    reveal_strlit("--decline-all");
    reveal_strlit("--result-file");
}

// ---------------------------------------------------------------------------
// Starting a run
// ---------------------------------------------------------------------------

proof fn lemma_run_start_on(
    args: Seq<Seq<char>>,
    tail: Seq<Seq<char>>,
    i: int,
    f: RunStartFlags,
)
    requires
        0 <= i <= args.len(),
        run_start_flags(args, i, f) is Ok,
    ensures
        run_start_flags(args + tail, i, f) == run_start_flags(
            args + tail,
            args.len() as int,
            run_start_flags(args, i, f)->Ok_0,
        ),
    decreases args.len() - i,
{
    let all = args + tail;
    if i < args.len() {
        assert(all[i] == args[i]);
        if i + 1 < args.len() {
            assert(all[i + 1] == args[i + 1]);
        }
        if args[i] == "--tier"@ {
            lemma_run_start_on(
                args,
                tail,
                i + 2,
                RunStartFlags { tier: Some(tier_of(args[i + 1])->Ok_0), ..f },
            );
        } else if args[i] == "--arg"@ {
            let (k, v) = assignment_of(args[i + 1])->Ok_0;
            lemma_run_start_on(
                args,
                tail,
                i + 2,
                RunStartFlags { args: f.args.insert(k, v), ..f },
            );
        } else if args[i] == "--restore-from"@ {
            lemma_run_start_on(
                args,
                tail,
                i + 2,
                RunStartFlags { restore_from: Some(args[i + 1]), ..f },
            );
        } else if args[i] == "--restore"@ {
            lemma_run_start_on(
                args,
                tail,
                i + 2,
                RunStartFlags { restore: f.restore.push(args[i + 1]), ..f },
            );
        } else if args[i] == "--restore-allow-changed"@ {
            lemma_run_start_on(args, tail, i + 1, RunStartFlags { allow_changed: true, ..f });
        } else if args[i] == "--no-prior-summaries"@ {
            lemma_run_start_on(args, tail, i + 1, RunStartFlags { no_prior_summaries: true, ..f });
        } else {
            lemma_run_start_on(args, tail, i + 1, RunStartFlags { json: true, ..f });
        }
    }
}

/// One more flag of `run start` says what it says and leaves the others as they were: a
/// tier, an argument under its name, the run to restore from, one more node to restore,
/// that changed nodes may be restored, that no summaries are told, or that the answer is
/// wanted as it is. What is no flag is refused.
pub proof fn law_one_more_flag_starts_a_run_with_it(
    args: Seq<Seq<char>>,
    f: RunStartFlags,
    g: RunStartFlags,
    value: Seq<char>,
    tier: WorkflowTier,
    key: Seq<char>,
    other: Seq<char>,
)
    requires
        args.len() > 0,
        run_start_flags(args, 1, f) == Ok::<RunStartFlags, Seq<char>>(g),
    ensures
        tier_of(value) == Ok::<WorkflowTier, Seq<char>>(tier) ==> run_start_flags(
            args + seq!["--tier"@, value],
            1,
            f,
        ) == Ok::<RunStartFlags, Seq<char>>(RunStartFlags { tier: Some(tier), ..g }),
        key.len() > 0 && !key.contains('=') ==> run_start_flags(
            args + seq!["--arg"@, key.push('=') + value],
            1,
            f,
        ) == Ok::<RunStartFlags, Seq<char>>(RunStartFlags { args: g.args.insert(key, value), ..g }),
        run_start_flags(args + seq!["--restore-from"@, value], 1, f) == Ok::<
            RunStartFlags,
            Seq<char>,
        >(RunStartFlags { restore_from: Some(value), ..g }),
        run_start_flags(args + seq!["--restore"@, value], 1, f) == Ok::<RunStartFlags, Seq<char>>(
            RunStartFlags { restore: g.restore.push(value), ..g },
        ),
        run_start_flags(args + seq!["--restore-allow-changed"@], 1, f) == Ok::<
            RunStartFlags,
            Seq<char>,
        >(RunStartFlags { allow_changed: true, ..g }),
        run_start_flags(args + seq!["--no-prior-summaries"@], 1, f) == Ok::<
            RunStartFlags,
            Seq<char>,
        >(RunStartFlags { no_prior_summaries: true, ..g }),
        run_start_flags(args + seq!["--json"@], 1, f) == Ok::<RunStartFlags, Seq<char>>(
            RunStartFlags { json: true, ..g },
        ),
        (other != "--tier"@ && other != "--arg"@ && other != "--restore-from"@ && other
            != "--restore"@ && other != "--restore-allow-changed"@ && other
            != "--no-prior-summaries"@ && other != "--json"@) ==> run_start_flags(
            args + seq![other],
            1,
            f,
        ) is Err,
{
    lemma_flags_differ();
    if key.len() > 0 && !key.contains('=') {
        law_a_key_stands_before_its_value(key, value);
    }
    let n = args.len() as int;
    if tier_of(value) == Ok::<WorkflowTier, Seq<char>>(tier) {
        assert(run_start_flags(args + seq!["--tier"@, value], 1, f) == Ok::<RunStartFlags, Seq<char>>(RunStartFlags { tier: Some(tier), ..g })) by {
            let all = args + seq!["--tier"@, value];
            lemma_run_start_on(args, seq!["--tier"@, value], 1, f);
            assert(all[n] == "--tier"@);
            assert(all[n + 1] == value);
            assert(run_start_flags(all, n, g) == run_start_flags(all, n + 2, RunStartFlags { tier: Some(tier), ..g }));
        }
    }
    if key.len() > 0 && !key.contains('=') {
        assert(run_start_flags(args + seq!["--arg"@, key.push('=') + value], 1, f) == Ok::<RunStartFlags, Seq<char>>(RunStartFlags { args: g.args.insert(key, value), ..g })) by {
            let all = args + seq!["--arg"@, key.push('=') + value];
            lemma_run_start_on(args, seq!["--arg"@, key.push('=') + value], 1, f);
            assert(all[n] == "--arg"@);
            assert(all[n + 1] == key.push('=') + value);
            assert(run_start_flags(all, n, g) == run_start_flags(all, n + 2, RunStartFlags { args: g.args.insert(key, value), ..g }));
        }
    }
    assert(run_start_flags(args + seq!["--restore-from"@, value], 1, f) == Ok::<RunStartFlags, Seq<char>>(RunStartFlags { restore_from: Some(value), ..g })) by {
        let all = args + seq!["--restore-from"@, value];
        lemma_run_start_on(args, seq!["--restore-from"@, value], 1, f);
        assert(all[n] == "--restore-from"@);
        assert(all[n + 1] == value);
        assert(run_start_flags(all, n, g) == run_start_flags(all, n + 2, RunStartFlags { restore_from: Some(value), ..g }));
    }
    assert(run_start_flags(args + seq!["--restore"@, value], 1, f) == Ok::<RunStartFlags, Seq<char>>(RunStartFlags { restore: g.restore.push(value), ..g })) by {
        let all = args + seq!["--restore"@, value];
        lemma_run_start_on(args, seq!["--restore"@, value], 1, f);
        assert(all[n] == "--restore"@);
        assert(all[n + 1] == value);
        assert(run_start_flags(all, n, g) == run_start_flags(all, n + 2, RunStartFlags { restore: g.restore.push(value), ..g }));
    }
    assert(run_start_flags(args + seq!["--restore-allow-changed"@], 1, f) == Ok::<RunStartFlags, Seq<char>>(RunStartFlags { allow_changed: true, ..g })) by {
        let all = args + seq!["--restore-allow-changed"@];
        lemma_run_start_on(args, seq!["--restore-allow-changed"@], 1, f);
        assert(all[n] == "--restore-allow-changed"@);
        assert(run_start_flags(all, n, g) == run_start_flags(all, n + 1, RunStartFlags { allow_changed: true, ..g }));
    }
    assert(run_start_flags(args + seq!["--no-prior-summaries"@], 1, f) == Ok::<RunStartFlags, Seq<char>>(RunStartFlags { no_prior_summaries: true, ..g })) by {
        let all = args + seq!["--no-prior-summaries"@];
        lemma_run_start_on(args, seq!["--no-prior-summaries"@], 1, f);
        assert(all[n] == "--no-prior-summaries"@);
        assert(run_start_flags(all, n, g) == run_start_flags(all, n + 1, RunStartFlags { no_prior_summaries: true, ..g }));
    }
    assert(run_start_flags(args + seq!["--json"@], 1, f) == Ok::<RunStartFlags, Seq<char>>(RunStartFlags { json: true, ..g })) by {
        let all = args + seq!["--json"@];
        lemma_run_start_on(args, seq!["--json"@], 1, f);
        assert(all[n] == "--json"@);
        assert(run_start_flags(all, n, g) == run_start_flags(all, n + 1, RunStartFlags { json: true, ..g }));
    }
    let last = args + seq![other];
    lemma_run_start_on(args, seq![other], 1, f);
    assert(last[n] == other);
}

/// A run is started on the workflow that is named first, without anything that was not
/// asked for; what to restore may be said only with where to restore it from.
pub proof fn law_a_run_is_started_on_what_is_named_first(
    args: Seq<Seq<char>>,
    target: Seq<char>,
    f: RunStartFlags,
)
    ensures
        run_start_args(seq![target]) is Ok,
        (run_start_args(seq![target])->Ok_0).0 == target,
        ({
            let g = (run_start_args(seq![target])->Ok_0).1;
            &&& g.tier is None && !g.json && g.restore_from is None && g.restore.len() == 0
                && !g.allow_changed && !g.no_prior_summaries
            &&& forall|k: Seq<char>| !#[trigger] g.args.contains_key(k)
        }),
        run_start_args(Seq::empty()) is Err,
        run_start_args(args) == Ok::<(Seq<char>, RunStartFlags), Seq<char>>((target, f)) ==> (
        args.len() > 0 && target == args[0] && run_start_flags(args, 1, run_start_defaults())
            == Ok::<RunStartFlags, Seq<char>>(f) && (f.restore_from is None ==> f.restore.len() == 0
            && !f.allow_changed)),
{
    assert(run_start_flags(seq![target], 1, run_start_defaults()) == Ok::<
        RunStartFlags,
        Seq<char>,
    >(run_start_defaults()));
}

// ---------------------------------------------------------------------------
// Finishing a run, and speaking to it
// ---------------------------------------------------------------------------

proof fn lemma_run_finish_on(
    args: Seq<Seq<char>>,
    tail: Seq<Seq<char>>,
    i: int,
    f: RunFinishFlags,
)
    requires
        0 <= i <= args.len(),
        run_finish_flags(args, i, f) is Ok,
    ensures
        run_finish_flags(args + tail, i, f) == run_finish_flags(
            args + tail,
            args.len() as int,
            run_finish_flags(args, i, f)->Ok_0,
        ),
    decreases args.len() - i,
{
    let all = args + tail;
    if i < args.len() {
        assert(all[i] == args[i]);
        if i + 1 < args.len() {
            assert(all[i + 1] == args[i + 1]);
        }
        if args[i] == "--json"@ {
            lemma_run_finish_on(args, tail, i + 1, RunFinishFlags { json: true, ..f });
        } else {
            let v = Some(args[i + 1]);
            let next = if args[i] == "--summary"@ {
                RunFinishFlags { summary: v, ..f }
            } else if args[i] == "--summary-file"@ {
                RunFinishFlags { summary_file: v, ..f }
            } else if args[i] == "--outcome"@ {
                RunFinishFlags { outcome: v, ..f }
            } else {
                RunFinishFlags { run: v, ..f }
            };
            lemma_run_finish_on(args, tail, i + 2, next);
        }
    }
}

/// One more flag of `run finish` says what it says and leaves the others as they were: the
/// run, its summary or the file it is in, the outcome, or that the answer is wanted as it
/// is. What is no flag is refused.
pub proof fn law_one_more_flag_finishes_a_run_with_it(
    args: Seq<Seq<char>>,
    f: RunFinishFlags,
    g: RunFinishFlags,
    value: Seq<char>,
    other: Seq<char>,
)
    requires
        run_finish_flags(args, 0, f) == Ok::<RunFinishFlags, Seq<char>>(g),
    ensures
        run_finish_flags(args + seq!["--run"@, value], 0, f) == Ok::<RunFinishFlags, Seq<char>>(
            RunFinishFlags { run: Some(value), ..g },
        ),
        run_finish_flags(args + seq!["--run-id"@, value], 0, f) == Ok::<RunFinishFlags, Seq<char>>(
            RunFinishFlags { run: Some(value), ..g },
        ),
        run_finish_flags(args + seq!["--summary"@, value], 0, f) == Ok::<
            RunFinishFlags,
            Seq<char>,
        >(RunFinishFlags { summary: Some(value), ..g }),
        run_finish_flags(args + seq!["--summary-file"@, value], 0, f) == Ok::<
            RunFinishFlags,
            Seq<char>,
        >(RunFinishFlags { summary_file: Some(value), ..g }),
        run_finish_flags(args + seq!["--outcome"@, value], 0, f) == Ok::<
            RunFinishFlags,
            Seq<char>,
        >(RunFinishFlags { outcome: Some(value), ..g }),
        run_finish_flags(args + seq!["--json"@], 0, f) == Ok::<RunFinishFlags, Seq<char>>(
            RunFinishFlags { json: true, ..g },
        ),
        (other != "--run"@ && other != "--run-id"@ && other != "--summary"@ && other
            != "--summary-file"@ && other != "--outcome"@ && other != "--json"@)
            ==> run_finish_flags(args + seq![other], 0, f) is Err,
{
    reveal_with_fuel(run_finish_flags, 3);
    lemma_flags_differ();
    let n = args.len() as int;
    let t1 = seq!["--run"@, value];
    lemma_run_finish_on(args, t1, 0, f);
    assert((args + t1)[n] == "--run"@ && (args + t1)[n + 1] == value);
    let t2 = seq!["--run-id"@, value];
    lemma_run_finish_on(args, t2, 0, f);
    assert((args + t2)[n] == "--run-id"@ && (args + t2)[n + 1] == value);
    let t3 = seq!["--summary"@, value];
    lemma_run_finish_on(args, t3, 0, f);
    assert((args + t3)[n] == "--summary"@ && (args + t3)[n + 1] == value);
    let t4 = seq!["--summary-file"@, value];
    lemma_run_finish_on(args, t4, 0, f);
    assert((args + t4)[n] == "--summary-file"@ && (args + t4)[n + 1] == value);
    let t5 = seq!["--outcome"@, value];
    lemma_run_finish_on(args, t5, 0, f);
    assert((args + t5)[n] == "--outcome"@ && (args + t5)[n + 1] == value);
    let t6 = seq!["--json"@];
    lemma_run_finish_on(args, t6, 0, f);
    assert((args + t6)[n] == "--json"@);
    let t7 = seq![other];
    lemma_run_finish_on(args, t7, 0, f);
    assert((args + t7)[n] == other);
}

/// A run is finished with exactly one summary, given as a text or as a file; the run is the
/// one that is named, else the one of the environment, and a blank name is none.
pub proof fn law_a_run_is_finished_with_one_summary(
    args: Seq<Seq<char>>,
    env: Option<Seq<char>>,
    f: RunFinishFlags,
)
    requires
        run_finish_flags(args, 0, run_finish_defaults()) == Ok::<RunFinishFlags, Seq<char>>(f),
    ensures
        ({
            let named = if f.run is Some {
                f.run
            } else {
                env
            };
            let r = run_finish_args(args, env);
            &&& (r is Ok <==> (named matches Some(v) && trim(v).len() > 0) && (f.summary is Some) != (
            f.summary_file is Some))
            &&& r matches Ok((run, g)) ==> Some(run) == named && g == f
        }),
        run_finish_flags(Seq::empty(), 0, run_finish_defaults()) matches Ok(g) && g.run is None
            && g.summary is None && g.summary_file is None && g.outcome is None && !g.json,
{
}

proof fn lemma_run_message_on(
    args: Seq<Seq<char>>,
    tail: Seq<Seq<char>>,
    i: int,
    f: RunMessageFlags,
)
    requires
        0 <= i <= args.len(),
        run_message_flags(args, i, f) is Ok,
    ensures
        run_message_flags(args + tail, i, f) == run_message_flags(
            args + tail,
            args.len() as int,
            run_message_flags(args, i, f)->Ok_0,
        ),
    decreases args.len() - i,
{
    let all = args + tail;
    if i < args.len() {
        assert(all[i] == args[i]);
        if i + 1 < args.len() {
            assert(all[i + 1] == args[i + 1]);
        }
        if args[i] == "--json"@ {
            lemma_run_message_on(args, tail, i + 1, RunMessageFlags { json: true, ..f });
        } else {
            let v = Some(args[i + 1]);
            let next = if args[i] == "--to"@ || args[i] == "--target"@ {
                RunMessageFlags { target: v, ..f }
            } else if args[i] == "--text"@ {
                RunMessageFlags { text: v, ..f }
            } else if args[i] == "--text-file"@ {
                RunMessageFlags { text_file: v, ..f }
            } else if args[i] == "--priority"@ {
                RunMessageFlags { priority: v, ..f }
            } else {
                RunMessageFlags { run: v, ..f }
            };
            lemma_run_message_on(args, tail, i + 2, next);
        }
    }
}

/// One more flag of `run message` says what it says and leaves the others as they were: the
/// run, to whom, the text or the file it is in, how urgent, or that the answer is wanted as
/// it is. What is no flag is refused.
pub proof fn law_one_more_flag_sends_a_message_with_it(
    args: Seq<Seq<char>>,
    f: RunMessageFlags,
    g: RunMessageFlags,
    value: Seq<char>,
    other: Seq<char>,
)
    requires
        run_message_flags(args, 0, f) == Ok::<RunMessageFlags, Seq<char>>(g),
    ensures
        run_message_flags(args + seq!["--run"@, value], 0, f) == Ok::<RunMessageFlags, Seq<char>>(
            RunMessageFlags { run: Some(value), ..g },
        ),
        run_message_flags(args + seq!["--to"@, value], 0, f) == Ok::<RunMessageFlags, Seq<char>>(
            RunMessageFlags { target: Some(value), ..g },
        ),
        run_message_flags(args + seq!["--target"@, value], 0, f) == Ok::<
            RunMessageFlags,
            Seq<char>,
        >(RunMessageFlags { target: Some(value), ..g }),
        run_message_flags(args + seq!["--text"@, value], 0, f) == Ok::<RunMessageFlags, Seq<char>>(
            RunMessageFlags { text: Some(value), ..g },
        ),
        run_message_flags(args + seq!["--text-file"@, value], 0, f) == Ok::<
            RunMessageFlags,
            Seq<char>,
        >(RunMessageFlags { text_file: Some(value), ..g }),
        run_message_flags(args + seq!["--priority"@, value], 0, f) == Ok::<
            RunMessageFlags,
            Seq<char>,
        >(RunMessageFlags { priority: Some(value), ..g }),
        run_message_flags(args + seq!["--json"@], 0, f) == Ok::<RunMessageFlags, Seq<char>>(
            RunMessageFlags { json: true, ..g },
        ),
        (other != "--run"@ && other != "--run-id"@ && other != "--to"@ && other != "--target"@
            && other != "--text"@ && other != "--text-file"@ && other != "--priority"@ && other
            != "--json"@) ==> run_message_flags(args + seq![other], 0, f) is Err,
{
    reveal_with_fuel(run_message_flags, 3);
    lemma_flags_differ();
    let n = args.len() as int;
    let t1 = seq!["--run"@, value];
    lemma_run_message_on(args, t1, 0, f);
    assert((args + t1)[n] == "--run"@ && (args + t1)[n + 1] == value);
    let t2 = seq!["--to"@, value];
    lemma_run_message_on(args, t2, 0, f);
    assert((args + t2)[n] == "--to"@ && (args + t2)[n + 1] == value);
    let t3 = seq!["--target"@, value];
    lemma_run_message_on(args, t3, 0, f);
    assert((args + t3)[n] == "--target"@ && (args + t3)[n + 1] == value);
    let t4 = seq!["--text"@, value];
    lemma_run_message_on(args, t4, 0, f);
    assert((args + t4)[n] == "--text"@ && (args + t4)[n + 1] == value);
    let t5 = seq!["--text-file"@, value];
    lemma_run_message_on(args, t5, 0, f);
    assert((args + t5)[n] == "--text-file"@ && (args + t5)[n + 1] == value);
    let t6 = seq!["--priority"@, value];
    lemma_run_message_on(args, t6, 0, f);
    assert((args + t6)[n] == "--priority"@ && (args + t6)[n + 1] == value);
    let t7 = seq!["--json"@];
    lemma_run_message_on(args, t7, 0, f);
    assert((args + t7)[n] == "--json"@);
    let t8 = seq![other];
    lemma_run_message_on(args, t8, 0, f);
    assert((args + t8)[n] == other);
}

/// A message goes to one named session, with exactly one text, given as it is or as a file;
/// the run is the one that is named, else the one of the environment.
pub proof fn law_a_message_has_one_text_and_one_target(
    args: Seq<Seq<char>>,
    env: Option<Seq<char>>,
    f: RunMessageFlags,
)
    requires
        run_message_flags(args, 0, run_message_defaults()) == Ok::<RunMessageFlags, Seq<char>>(f),
    ensures
        ({
            let named = if f.run is Some {
                f.run
            } else {
                env
            };
            let r = run_message_args(args, env);
            &&& (r is Ok <==> (named matches Some(v) && trim(v).len() > 0) && f.target is Some && (
            f.text is Some) != (f.text_file is Some))
            &&& r matches Ok((run, g)) ==> Some(run) == named && g == f
        }),
        run_message_flags(Seq::empty(), 0, run_message_defaults()) matches Ok(g) && g.run is None
            && g.target is None && g.text is None && g.text_file is None && g.priority is None
            && !g.json,
{
}

// ---------------------------------------------------------------------------
// Lists
// ---------------------------------------------------------------------------

proof fn lemma_run_list_on(
    args: Seq<Seq<char>>,
    tail: Seq<Seq<char>>,
    i: int,
    limit: Option<u32>,
    json: bool,
)
    requires
        0 <= i <= args.len(),
        run_list_flags(args, i, limit, json) is Ok,
    ensures
        run_list_flags(args + tail, i, limit, json) == run_list_flags(
            args + tail,
            args.len() as int,
            (run_list_flags(args, i, limit, json)->Ok_0).0,
            (run_list_flags(args, i, limit, json)->Ok_0).1,
        ),
    decreases args.len() - i,
{
    let all = args + tail;
    if i < args.len() {
        assert(all[i] == args[i]);
        if i + 1 < args.len() {
            assert(all[i + 1] == args[i + 1]);
        }
        if args[i] == "--limit"@ {
            lemma_run_list_on(
                args,
                tail,
                i + 2,
                Some(u32_flag("--limit"@, args[i + 1])->Ok_0),
                json,
            );
        } else {
            lemma_run_list_on(args, tail, i + 1, limit, true);
        }
    }
}

/// A list of runs is as long as was asked for last, and has no limit where none was given;
/// a limit that is no number is refused, and so is what is no flag.
pub proof fn law_a_list_of_runs_has_the_last_limit(
    args: Seq<Seq<char>>,
    limit: Option<u32>,
    json: bool,
    n: u32,
    other: Seq<char>,
)
    requires
        args.len() > 0,
        run_list_flags(args, 1, None, false) == Ok::<(Option<u32>, bool), Seq<char>>((limit, json)),
    ensures
        run_list_flags(args + seq!["--limit"@, decimal(n as nat)], 1, None, false) == Ok::<
            (Option<u32>, bool),
            Seq<char>,
        >((Some(n), json)),
        run_list_flags(args + seq!["--json"@], 1, None, false) == Ok::<
            (Option<u32>, bool),
            Seq<char>,
        >((limit, true)),
        other != "--limit"@ && other != "--json"@ ==> run_list_flags(
            args + seq![other],
            1,
            None,
            false,
        ) is Err,
        run_list_flags(args.take(1), 1, None, false) == Ok::<(Option<u32>, bool), Seq<char>>(
            (None, false),
        ),
{
    reveal_with_fuel(run_list_flags, 3);
    lemma_flags_differ();
    let m = args.len() as int;
    crate::laws::words::law_a_number_is_read_as_it_was_written(n as nat, u32::MAX as nat);
    let t1 = seq!["--limit"@, decimal(n as nat)];
    lemma_run_list_on(args, t1, 1, None, false);
    assert((args + t1)[m] == "--limit"@ && (args + t1)[m + 1] == decimal(n as nat));
    let t2 = seq!["--json"@];
    lemma_run_list_on(args, t2, 1, None, false);
    assert((args + t2)[m] == "--json"@);
    let t3 = seq![other];
    lemma_run_list_on(args, t3, 1, None, false);
    assert((args + t3)[m] == other);
}

proof fn lemma_summary_list_on(
    args: Seq<Seq<char>>,
    tail: Seq<Seq<char>>,
    i: int,
    workflow: Option<Seq<char>>,
    limit: Option<u32>,
    json: bool,
)
    requires
        0 <= i <= args.len(),
        summary_list_flags(args, i, workflow, limit, json) is Ok,
    ensures
        ({
            let read = summary_list_flags(args, i, workflow, limit, json)->Ok_0;
            summary_list_flags(args + tail, i, workflow, limit, json) == summary_list_flags(
                args + tail,
                args.len() as int,
                read.0,
                read.1,
                read.2,
            )
        }),
    decreases args.len() - i,
{
    let all = args + tail;
    if i < args.len() {
        assert(all[i] == args[i]);
        if args[i] == "--limit"@ {
            assert(all[i + 1] == args[i + 1]);
            let n = u32_flag("--limit"@, args[i + 1])->Ok_0;
            lemma_summary_list_on(args, tail, i + 2, workflow, Some(n), json);
        } else if args[i] == "--json"@ {
            lemma_summary_list_on(args, tail, i + 1, workflow, limit, true);
        } else {
            lemma_summary_list_on(args, tail, i + 1, Some(args[i]), limit, json);
        }
    }
}

/// A list of summaries is of one workflow at most, as long as was asked for last, and told
/// as it was wanted. Without anything it is of all of them; a second workflow is refused, and
/// so is a flag that there is none.
pub proof fn law_one_more_flag_lists_summaries_with_it(
    args: Seq<Seq<char>>,
    workflow: Option<Seq<char>>,
    limit: Option<u32>,
    json: bool,
    n: u32,
    other: Seq<char>,
)
    requires
        summary_list_flags(args, 0, None, None, false) == Ok::<
            (Option<Seq<char>>, Option<u32>, bool),
            Seq<char>,
        >((workflow, limit, json)),
    ensures
        args.len() == 0 ==> workflow is None && limit is None && !json,
        summary_list_flags(args + seq!["--limit"@, decimal(n as nat)], 0, None, None, false)
            == Ok::<(Option<Seq<char>>, Option<u32>, bool), Seq<char>>((workflow, Some(n), json)),
        summary_list_flags(args + seq!["--json"@], 0, None, None, false) == Ok::<
            (Option<Seq<char>>, Option<u32>, bool),
            Seq<char>,
        >((workflow, limit, true)),
        !"--"@.is_prefix_of(other) && workflow is None ==> summary_list_flags(
            args + seq![other],
            0,
            None,
            None,
            false,
        ) == Ok::<(Option<Seq<char>>, Option<u32>, bool), Seq<char>>((Some(other), limit, json)),
        !"--"@.is_prefix_of(other) && workflow is Some ==> summary_list_flags(
            args + seq![other],
            0,
            None,
            None,
            false,
        ) is Err,
        "--"@.is_prefix_of(other) && other != "--limit"@ && other != "--json"@
            ==> summary_list_flags(args + seq![other], 0, None, None, false) is Err,
{
    reveal_with_fuel(summary_list_flags, 3);
    lemma_flags_differ();
    reveal_strlit("--");
    reveal_strlit("--limit");
    reveal_strlit("--json");
    let m = args.len() as int;
    crate::laws::words::law_a_number_is_read_as_it_was_written(n as nat, u32::MAX as nat);
    assert("--"@.is_prefix_of("--limit"@) && "--"@.is_prefix_of("--json"@)) by {
        assert("--"@ =~= "--limit"@.subrange(0, 2));
        assert("--"@ =~= "--json"@.subrange(0, 2));
    }
    let t1 = seq!["--limit"@, decimal(n as nat)];
    lemma_summary_list_on(args, t1, 0, None, None, false);
    assert((args + t1)[m] == "--limit"@ && (args + t1)[m + 1] == decimal(n as nat));
    let t2 = seq!["--json"@];
    lemma_summary_list_on(args, t2, 0, None, None, false);
    assert((args + t2)[m] == "--json"@);
    let t3 = seq![other];
    lemma_summary_list_on(args, t3, 0, None, None, false);
    assert((args + t3)[m] == other);
}

/// Whether these arguments are read to their end: no flag at the end waits for its value.
pub open spec fn settled(args: Seq<Seq<char>>, i: int) -> bool
    decreases args.len() - i,
{
    if i >= args.len() {
        true
    } else if args[i] != "--run"@ && args[i] != "--run-id"@ {
        settled(args, i + 1)
    } else if i + 1 < args.len() {
        settled(args, i + 2)
    } else {
        false
    }
}

proof fn lemma_report_session_on(
    args: Seq<Seq<char>>,
    tail: Seq<Seq<char>>,
    i: int,
    run: Option<Seq<char>>,
    json: bool,
    agent: Seq<char>,
)
    requires
        0 <= i <= args.len(),
        settled(args, i),
        report_session_flags(args, i, run, json, agent) is Ok,
    ensures
        ({
            let read = report_session_flags(args, i, run, json, agent)->Ok_0;
            report_session_flags(args + tail, i, run, json, agent) == report_session_flags(
                args + tail,
                args.len() as int,
                read.0,
                read.1,
                agent,
            )
        }),
    decreases args.len() - i,
{
    let all = args + tail;
    if i < args.len() {
        assert(all[i] == args[i]);
        if args[i] == "--run"@ || args[i] == "--run-id"@ {
            assert(settled(args, i + 2));
            assert(all[i + 1] == args[i + 1]);
            lemma_report_session_on(args, tail, i + 2, Some(args[i + 1]), json, agent);
        } else {
            lemma_report_session_on(args, tail, i + 1, run, true, agent);
        }
    }
}

/// A session is reported for the run that was named last, under either name of the flag. A
/// flag that waits for its value at the end takes an earlier run back, and what is no flag is
/// refused.
pub proof fn law_one_more_flag_reports_a_session_with_it(
    args: Seq<Seq<char>>,
    run: Option<Seq<char>>,
    json: bool,
    agent: Seq<char>,
    id: Seq<char>,
    other: Seq<char>,
)
    requires
        settled(args, 0),
        report_session_flags(args, 0, None, false, agent) == Ok::<
            (Option<Seq<char>>, bool),
            Seq<char>,
        >((run, json)),
    ensures
        args.len() == 0 ==> run is None && !json,
        report_session_flags(args + seq!["--run"@, id], 0, None, false, agent) == Ok::<
            (Option<Seq<char>>, bool),
            Seq<char>,
        >((Some(id), json)),
        report_session_flags(args + seq!["--run-id"@, id], 0, None, false, agent) == Ok::<
            (Option<Seq<char>>, bool),
            Seq<char>,
        >((Some(id), json)),
        report_session_flags(args + seq!["--json"@], 0, None, false, agent) == Ok::<
            (Option<Seq<char>>, bool),
            Seq<char>,
        >((run, true)),
        report_session_flags(args + seq!["--run"@], 0, None, false, agent) == Ok::<
            (Option<Seq<char>>, bool),
            Seq<char>,
        >((None, json)),
        other != "--run"@ && other != "--run-id"@ && other != "--json"@ ==> report_session_flags(
            args + seq![other],
            0,
            None,
            false,
            agent,
        ) is Err,
{
    reveal_with_fuel(report_session_flags, 3);
    lemma_flags_differ();
    reveal_strlit("--run");
    reveal_strlit("--run-id");
    reveal_strlit("--json");
    assert("--run"@.len() == 5 && "--run-id"@.len() == 8 && "--json"@.len() == 6);
    let m = args.len() as int;
    let t1 = seq!["--run"@, id];
    lemma_report_session_on(args, t1, 0, None, false, agent);
    assert((args + t1)[m] == "--run"@ && (args + t1)[m + 1] == id);
    let t2 = seq!["--run-id"@, id];
    lemma_report_session_on(args, t2, 0, None, false, agent);
    assert((args + t2)[m] == "--run-id"@ && (args + t2)[m + 1] == id);
    let t3 = seq!["--json"@];
    lemma_report_session_on(args, t3, 0, None, false, agent);
    assert((args + t3)[m] == "--json"@);
    let t4 = seq!["--run"@];
    lemma_report_session_on(args, t4, 0, None, false, agent);
    assert((args + t4)[m] == "--run"@);
    let t5 = seq![other];
    lemma_report_session_on(args, t5, 0, None, false, agent);
    assert((args + t5)[m] == other);
}

/// A command with operands takes exactly those, and at most that its answer is wanted as it
/// is behind them.
pub proof fn law_operands_are_counted(args: Seq<Seq<char>>, n: int)
    requires
        n >= 0,
    ensures
        operands_then_json(args, n) == Some(false) <==> args.len() == n,
        operands_then_json(args, n) == Some(true) <==> args.len() == n + 1 && args[n] == "--json"@,
{
}

// ---------------------------------------------------------------------------
// Nodes
// ---------------------------------------------------------------------------

proof fn lemma_expand_on(args: Seq<Seq<char>>, tail: Seq<Seq<char>>, i: int, f: ExpandFlags)
    requires
        0 <= i <= args.len(),
        expand_flags(args, i, f) is Ok,
    ensures
        expand_flags(args + tail, i, f) == expand_flags(
            args + tail,
            args.len() as int,
            expand_flags(args, i, f)->Ok_0,
        ),
    decreases args.len() - i,
{
    let all = args + tail;
    if i < args.len() {
        assert(all[i] == args[i]);
        if i + 1 < args.len() {
            assert(all[i + 1] == args[i + 1]);
        }
        if args[i] == "--json"@ {
            lemma_expand_on(args, tail, i + 1, ExpandFlags { json: true, ..f });
        } else if args[i] == "--template"@ {
            lemma_expand_on(args, tail, i + 2, ExpandFlags { template: Some(args[i + 1]), ..f });
        } else if args[i] == "--label"@ {
            lemma_expand_on(args, tail, i + 2, ExpandFlags { label: Some(args[i + 1]), ..f });
        } else if args[i] == "--input"@ {
            let (k, v) = assignment_of(args[i + 1])->Ok_0;
            lemma_expand_on(args, tail, i + 2, ExpandFlags { inputs: f.inputs.insert(k, v), ..f });
        } else {
            lemma_expand_on(
                args,
                tail,
                i + 2,
                ExpandFlags { count: Some(u32_flag("--count"@, args[i + 1])->Ok_0), ..f },
            );
        }
    }
}

/// One more flag of `node expand` says what it says and leaves the others as they were: the
/// template, the label, an input under its name, how many, or that the answer is wanted as
/// it is.
pub proof fn law_one_more_flag_expands_a_node_with_it(
    args: Seq<Seq<char>>,
    f: ExpandFlags,
    g: ExpandFlags,
    value: Seq<char>,
    key: Seq<char>,
    count: u32,
    other: Seq<char>,
)
    requires
        args.len() >= 2,
        expand_flags(args, 2, f) == Ok::<ExpandFlags, Seq<char>>(g),
    ensures
        expand_flags(args + seq!["--template"@, value], 2, f) == Ok::<ExpandFlags, Seq<char>>(
            ExpandFlags { template: Some(value), ..g },
        ),
        expand_flags(args + seq!["--label"@, value], 2, f) == Ok::<ExpandFlags, Seq<char>>(
            ExpandFlags { label: Some(value), ..g },
        ),
        key.len() > 0 && !key.contains('=') ==> expand_flags(
            args + seq!["--input"@, key.push('=') + value],
            2,
            f,
        ) == Ok::<ExpandFlags, Seq<char>>(ExpandFlags { inputs: g.inputs.insert(key, value), ..g }),
        expand_flags(args + seq!["--count"@, decimal(count as nat)], 2, f) == Ok::<
            ExpandFlags,
            Seq<char>,
        >(ExpandFlags { count: Some(count), ..g }),
        expand_flags(args + seq!["--json"@], 2, f) == Ok::<ExpandFlags, Seq<char>>(
            ExpandFlags { json: true, ..g },
        ),
        (other != "--template"@ && other != "--label"@ && other != "--input"@ && other
            != "--count"@ && other != "--json"@) ==> expand_flags(args + seq![other], 2, f) is Err,
{
    lemma_flags_differ();
    if key.len() > 0 && !key.contains('=') {
        law_a_key_stands_before_its_value(key, value);
    }
    crate::laws::words::law_a_number_is_read_as_it_was_written(count as nat, u32::MAX as nat);
    let n = args.len() as int;
    assert(expand_flags(args + seq!["--template"@, value], 2, f) == Ok::<ExpandFlags, Seq<char>>(ExpandFlags { template: Some(value), ..g })) by {
        let all = args + seq!["--template"@, value];
        lemma_expand_on(args, seq!["--template"@, value], 2, f);
        assert(all[n] == "--template"@);
        assert(all[n + 1] == value);
        assert(expand_flags(all, n, g) == expand_flags(all, n + 2, ExpandFlags { template: Some(value), ..g }));
    }
    assert(expand_flags(args + seq!["--label"@, value], 2, f) == Ok::<ExpandFlags, Seq<char>>(ExpandFlags { label: Some(value), ..g })) by {
        let all = args + seq!["--label"@, value];
        lemma_expand_on(args, seq!["--label"@, value], 2, f);
        assert(all[n] == "--label"@);
        assert(all[n + 1] == value);
        assert(expand_flags(all, n, g) == expand_flags(all, n + 2, ExpandFlags { label: Some(value), ..g }));
    }
    if key.len() > 0 && !key.contains('=') {
        assert(expand_flags(args + seq!["--input"@, key.push('=') + value], 2, f) == Ok::<ExpandFlags, Seq<char>>(ExpandFlags { inputs: g.inputs.insert(key, value), ..g })) by {
            let all = args + seq!["--input"@, key.push('=') + value];
            lemma_expand_on(args, seq!["--input"@, key.push('=') + value], 2, f);
            assert(all[n] == "--input"@);
            assert(all[n + 1] == key.push('=') + value);
            assert(expand_flags(all, n, g) == expand_flags(all, n + 2, ExpandFlags { inputs: g.inputs.insert(key, value), ..g }));
        }
    }
    assert(expand_flags(args + seq!["--count"@, decimal(count as nat)], 2, f) == Ok::<ExpandFlags, Seq<char>>(ExpandFlags { count: Some(count), ..g })) by {
        let all = args + seq!["--count"@, decimal(count as nat)];
        lemma_expand_on(args, seq!["--count"@, decimal(count as nat)], 2, f);
        assert(all[n] == "--count"@);
        assert(all[n + 1] == decimal(count as nat));
        assert(expand_flags(all, n, g) == expand_flags(all, n + 2, ExpandFlags { count: Some(count), ..g }));
    }
    assert(expand_flags(args + seq!["--json"@], 2, f) == Ok::<ExpandFlags, Seq<char>>(ExpandFlags { json: true, ..g })) by {
        let all = args + seq!["--json"@];
        lemma_expand_on(args, seq!["--json"@], 2, f);
        assert(all[n] == "--json"@);
        assert(expand_flags(all, n, g) == expand_flags(all, n + 1, ExpandFlags { json: true, ..g }));
    }
    let last = args + seq![other];
    lemma_expand_on(args, seq![other], 2, f);
    assert(last[n] == other);
}

/// A node is expanded from a template under a label: both have to be given.
pub proof fn law_an_expansion_needs_a_template_and_a_label(args: Seq<Seq<char>>, f: ExpandFlags)
    requires
        args.len() >= 2,
        expand_flags(args, 2, expand_defaults()) == Ok::<ExpandFlags, Seq<char>>(f),
    ensures
        expand_args(args) is Ok <==> f.template is Some && f.label is Some,
        expand_args(args) matches Ok(g) ==> g == f,
        expand_args(args.take(1)) is Err,
{
}

proof fn lemma_interrogate_on(
    args: Seq<Seq<char>>,
    tail: Seq<Seq<char>>,
    i: int,
    f: InterrogateFlags,
)
    requires
        0 <= i <= args.len(),
        interrogate_flags(args, i, f) is Ok,
    ensures
        interrogate_flags(args + tail, i, f) == interrogate_flags(
            args + tail,
            args.len() as int,
            interrogate_flags(args, i, f)->Ok_0,
        ),
    decreases args.len() - i,
{
    let all = args + tail;
    if i < args.len() {
        assert(all[i] == args[i]);
        if i + 1 < args.len() {
            assert(all[i + 1] == args[i + 1]);
        }
        if args[i] == "--reconstructed"@ {
            lemma_interrogate_on(
                args,
                tail,
                i + 1,
                InterrogateFlags { mode: WorkflowInterrogationMode::Reconstructed, ..f },
            );
        } else if args[i] == "--note"@ {
            lemma_interrogate_on(
                args,
                tail,
                i + 2,
                InterrogateFlags { note: Some(args[i + 1]), ..f },
            );
        } else {
            lemma_interrogate_on(args, tail, i + 1, InterrogateFlags { json: true, ..f });
        }
    }
}

/// A node is interrogated in its own session unless a reconstructed one is asked for, and
/// with the note that was given last.
pub proof fn law_one_more_flag_interrogates_a_node_with_it(
    args: Seq<Seq<char>>,
    g: InterrogateFlags,
    value: Seq<char>,
    other: Seq<char>,
)
    requires
        args.len() >= 2,
        interrogate_args(args) == Ok::<InterrogateFlags, Seq<char>>(g),
    ensures
        interrogate_args(args + seq!["--reconstructed"@]) == Ok::<InterrogateFlags, Seq<char>>(
            InterrogateFlags { mode: WorkflowInterrogationMode::Reconstructed, ..g },
        ),
        interrogate_args(args + seq!["--note"@, value]) == Ok::<InterrogateFlags, Seq<char>>(
            InterrogateFlags { note: Some(value), ..g },
        ),
        interrogate_args(args + seq!["--json"@]) == Ok::<InterrogateFlags, Seq<char>>(
            InterrogateFlags { json: true, ..g },
        ),
        other != "--reconstructed"@ && other != "--note"@ && other != "--json"@
            ==> interrogate_args(args + seq![other]) is Err,
        interrogate_args(args.take(2)) matches Ok(d) && d.mode
            == WorkflowInterrogationMode::Resumed && d.note is None && !d.json,
{
    reveal_with_fuel(interrogate_flags, 3);
    lemma_flags_differ();
    let n = args.len() as int;
    let f = interrogate_defaults();
    let t1 = seq!["--reconstructed"@];
    lemma_interrogate_on(args, t1, 2, f);
    assert((args + t1)[n] == "--reconstructed"@);
    let t2 = seq!["--note"@, value];
    lemma_interrogate_on(args, t2, 2, f);
    assert((args + t2)[n] == "--note"@ && (args + t2)[n + 1] == value);
    let t3 = seq!["--json"@];
    lemma_interrogate_on(args, t3, 2, f);
    assert((args + t3)[n] == "--json"@);
    let t4 = seq![other];
    lemma_interrogate_on(args, t4, 2, f);
    assert((args + t4)[n] == other);
    assert(interrogate_flags(args.take(2), 2, f) == Ok::<InterrogateFlags, Seq<char>>(f));
}

/// A node is steered with the words behind its path, all of them and in order; only a last
/// word that asks for the answer as it is, behind some other, is none of them.
pub proof fn law_a_node_is_steered_with_every_word(
    run: Seq<char>,
    path: Seq<char>,
    words: Seq<Seq<char>>,
)
    requires
        words.len() > 0,
    ensures
        words.last() != "--json"@ ==> steer_words(seq![run, path] + words) == words && !steer_json(
            seq![run, path] + words,
        ),
        steer_words(seq![run, path] + words.push("--json"@)) == words && steer_json(
            seq![run, path] + words.push("--json"@),
        ),
{
    let a = seq![run, path] + words;
    assert(a.skip(2) =~= words);
    assert(a.last() == words.last());
    let b = seq![run, path] + words.push("--json"@);
    assert(b.last() == "--json"@);
    assert(b.drop_last().skip(2) =~= words);
}

/// A node reports the file that was given last, or none; nothing else can be said.
pub proof fn law_a_node_reports_the_file_it_is_given(
    args: Seq<Seq<char>>,
    file: Option<Seq<char>>,
    value: Seq<char>,
    other: Seq<char>,
)
    requires
        complete_flags(args, 0, None) == Ok::<Option<Seq<char>>, Seq<char>>(file),
    ensures
        complete_flags(args + seq!["--result-file"@, value], 0, None) == Ok::<
            Option<Seq<char>>,
            Seq<char>,
        >(Some(value)),
        other != "--result-file"@ ==> complete_flags(args + seq![other], 0, None) is Err,
        complete_flags(Seq::empty(), 0, None) == Ok::<Option<Seq<char>>, Seq<char>>(None),
{
    reveal_with_fuel(complete_flags, 3);
    let n = args.len() as int;
    let t1 = seq!["--result-file"@, value];
    lemma_complete_on(args, t1, 0, None);
    assert((args + t1)[n] == "--result-file"@ && (args + t1)[n + 1] == value);
    let t2 = seq![other];
    lemma_complete_on(args, t2, 0, None);
    assert((args + t2)[n] == other);
}

proof fn lemma_complete_on(
    args: Seq<Seq<char>>,
    tail: Seq<Seq<char>>,
    i: int,
    file: Option<Seq<char>>,
)
    requires
        0 <= i <= args.len(),
        complete_flags(args, i, file) is Ok,
    ensures
        complete_flags(args + tail, i, file) == complete_flags(
            args + tail,
            args.len() as int,
            complete_flags(args, i, file)->Ok_0,
        ),
    decreases args.len() - i,
{
    let all = args + tail;
    if i < args.len() {
        assert(all[i] == args[i]);
        assert(all[i + 1] == args[i + 1]);
        lemma_complete_on(args, tail, i + 2, Some(args[i + 1]));
    }
}

// ---------------------------------------------------------------------------
// Definitions
// ---------------------------------------------------------------------------

proof fn lemma_definition_on(
    args: Seq<Seq<char>>,
    tail: Seq<Seq<char>>,
    i: int,
    extra: Seq<char>,
    f: DefinitionFlags,
)
    requires
        0 <= i <= args.len(),
        definition_flags(args, i, extra, f) is Ok,
    ensures
        definition_flags(args + tail, i, extra, f) == definition_flags(
            args + tail,
            args.len() as int,
            extra,
            definition_flags(args, i, extra, f)->Ok_0,
        ),
    decreases args.len() - i,
{
    let all = args + tail;
    if i < args.len() {
        assert(all[i] == args[i]);
        if i + 1 < args.len() {
            assert(all[i + 1] == args[i + 1]);
        }
        if args[i] == "--file"@ {
            lemma_definition_on(
                args,
                tail,
                i + 2,
                extra,
                DefinitionFlags { file: Some(args[i + 1]), ..f },
            );
        } else if args[i] == extra {
            lemma_definition_on(
                args,
                tail,
                i + 2,
                extra,
                DefinitionFlags { extra: Some(args[i + 1]), ..f },
            );
        } else {
            lemma_definition_on(args, tail, i + 1, extra, DefinitionFlags { json: true, ..f });
        }
    }
}

/// A workflow is created from the file that was given last, under its own name unless
/// another one is given; without a file it is not.
pub proof fn law_a_workflow_is_created_from_its_file(
    args: Seq<Seq<char>>,
    file: Seq<char>,
    name: Option<Seq<char>>,
    json: bool,
    value: Seq<char>,
    other: Seq<char>,
)
    requires
        create_args(args) == Ok::<(Seq<char>, Option<Seq<char>>, bool), Seq<char>>(
            (file, name, json),
        ),
    ensures
        create_args(args + seq!["--file"@, value]) == Ok::<
            (Seq<char>, Option<Seq<char>>, bool),
            Seq<char>,
        >((value, name, json)),
        create_args(args + seq!["--name"@, value]) == Ok::<
            (Seq<char>, Option<Seq<char>>, bool),
            Seq<char>,
        >((file, Some(value), json)),
        create_args(args + seq!["--json"@]) == Ok::<
            (Seq<char>, Option<Seq<char>>, bool),
            Seq<char>,
        >((file, name, true)),
        other != "--file"@ && other != "--name"@ && other != "--json"@ ==> create_args(
            args + seq![other],
        ) is Err,
        create_args(Seq::empty()) is Err,
        create_args(seq!["--file"@, value]) == Ok::<
            (Seq<char>, Option<Seq<char>>, bool),
            Seq<char>,
        >((value, None, false)),
{
    reveal_with_fuel(definition_flags, 3);
    lemma_flags_differ();
    let n = args.len() as int;
    let f = definition_defaults();
    let t1 = seq!["--file"@, value];
    lemma_definition_on(args, t1, 0, "--name"@, f);
    assert((args + t1)[n] == "--file"@ && (args + t1)[n + 1] == value);
    let t2 = seq!["--name"@, value];
    lemma_definition_on(args, t2, 0, "--name"@, f);
    assert((args + t2)[n] == "--name"@ && (args + t2)[n + 1] == value);
    let t3 = seq!["--json"@];
    lemma_definition_on(args, t3, 0, "--name"@, f);
    assert((args + t3)[n] == "--json"@);
    let t4 = seq![other];
    lemma_definition_on(args, t4, 0, "--name"@, f);
    assert((args + t4)[n] == other);
    assert(definition_flags(t1, 2, "--name"@, DefinitionFlags { file: Some(value), ..f }) == Ok::<
        DefinitionFlags,
        Seq<char>,
    >(DefinitionFlags { file: Some(value), ..f }));
}

/// The workflow that is named first is updated from the file that was given last, with the
/// change described as it was; without a file it is not.
pub proof fn law_a_workflow_is_updated_from_its_file(
    args: Seq<Seq<char>>,
    id: Seq<char>,
    file: Seq<char>,
    summary: Option<Seq<char>>,
    json: bool,
    value: Seq<char>,
)
    requires
        update_args(args) == Ok::<(Seq<char>, Seq<char>, Option<Seq<char>>, bool), Seq<char>>(
            (id, file, summary, json),
        ),
    ensures
        id == args[0],
        update_args(args + seq!["--file"@, value]) == Ok::<
            (Seq<char>, Seq<char>, Option<Seq<char>>, bool),
            Seq<char>,
        >((id, value, summary, json)),
        update_args(args + seq!["--change-summary"@, value]) == Ok::<
            (Seq<char>, Seq<char>, Option<Seq<char>>, bool),
            Seq<char>,
        >((id, file, Some(value), json)),
        update_args(args + seq!["--json"@]) == Ok::<
            (Seq<char>, Seq<char>, Option<Seq<char>>, bool),
            Seq<char>,
        >((id, file, summary, true)),
        update_args(args.take(1)) is Err,
        update_args(seq![id, "--file"@, value]) == Ok::<
            (Seq<char>, Seq<char>, Option<Seq<char>>, bool),
            Seq<char>,
        >((id, value, None, false)),
{
    reveal_with_fuel(definition_flags, 3);
    lemma_flags_differ();
    let n = args.len() as int;
    let f = definition_defaults();
    let extra = "--change-summary"@;
    let t1 = seq!["--file"@, value];
    lemma_definition_on(args, t1, 1, extra, f);
    assert((args + t1)[n] == "--file"@ && (args + t1)[n + 1] == value && (args + t1)[0] == args[0]);
    let t2 = seq![extra, value];
    lemma_definition_on(args, t2, 1, extra, f);
    assert((args + t2)[n] == extra && (args + t2)[n + 1] == value && (args + t2)[0] == args[0]);
    let t3 = seq!["--json"@];
    lemma_definition_on(args, t3, 1, extra, f);
    assert((args + t3)[n] == "--json"@ && (args + t3)[0] == args[0]);
    let one = seq![id, "--file"@, value];
    assert(one[0] == id && one[1] == "--file"@ && one[2] == value);
    assert(definition_flags(one, 3, extra, DefinitionFlags { file: Some(value), ..f }) == Ok::<
        DefinitionFlags,
        Seq<char>,
    >(DefinitionFlags { file: Some(value), ..f }));
}

// ---------------------------------------------------------------------------
// Reviews
// ---------------------------------------------------------------------------

proof fn lemma_apply_on(args: Seq<Seq<char>>, tail: Seq<Seq<char>>, i: int, f: ApplyFlags)
    requires
        0 <= i <= args.len(),
        apply_flags(args, i, f) is Ok,
    ensures
        apply_flags(args + tail, i, f) == apply_flags(
            args + tail,
            args.len() as int,
            apply_flags(args, i, f)->Ok_0,
        ),
    decreases args.len() - i,
{
    let all = args + tail;
    if i < args.len() {
        assert(all[i] == args[i]);
        if i + 1 < args.len() {
            assert(all[i + 1] == args[i + 1]);
        }
        if args[i] == "--accept"@ {
            lemma_apply_on(args, tail, i + 2, ApplyFlags { accept: f.accept.push(args[i + 1]), ..f });
        } else if args[i] == "--decline-all"@ {
            lemma_apply_on(args, tail, i + 1, ApplyFlags { decline_all: true, ..f });
        } else {
            lemma_apply_on(args, tail, i + 1, ApplyFlags { json: true, ..f });
        }
    }
}

/// What is accepted of a review is every node that was named, in order, and one more where
/// one more is named.
pub proof fn law_every_accepted_node_is_kept(
    args: Seq<Seq<char>>,
    f: ApplyFlags,
    g: ApplyFlags,
    value: Seq<char>,
    other: Seq<char>,
)
    requires
        args.len() > 0,
        apply_flags(args, 1, f) == Ok::<ApplyFlags, Seq<char>>(g),
    ensures
        apply_flags(args + seq!["--accept"@, value], 1, f) == Ok::<ApplyFlags, Seq<char>>(
            ApplyFlags { accept: g.accept.push(value), ..g },
        ),
        apply_flags(args + seq!["--decline-all"@], 1, f) == Ok::<ApplyFlags, Seq<char>>(
            ApplyFlags { decline_all: true, ..g },
        ),
        apply_flags(args + seq!["--json"@], 1, f) == Ok::<ApplyFlags, Seq<char>>(
            ApplyFlags { json: true, ..g },
        ),
        other != "--accept"@ && other != "--decline-all"@ && other != "--json"@ ==> apply_flags(
            args + seq![other],
            1,
            f,
        ) is Err,
{
    reveal_with_fuel(apply_flags, 3);
    lemma_flags_differ();
    let n = args.len() as int;
    let t1 = seq!["--accept"@, value];
    lemma_apply_on(args, t1, 1, f);
    assert((args + t1)[n] == "--accept"@ && (args + t1)[n + 1] == value);
    let t2 = seq!["--decline-all"@];
    lemma_apply_on(args, t2, 1, f);
    assert((args + t2)[n] == "--decline-all"@);
    let t3 = seq!["--json"@];
    lemma_apply_on(args, t3, 1, f);
    assert((args + t3)[n] == "--json"@);
    let t4 = seq![other];
    lemma_apply_on(args, t4, 1, f);
    assert((args + t4)[n] == other);
}

/// A review is applied only where it was said how: either some node is accepted or all are
/// declined, and never both.
pub proof fn law_a_review_is_accepted_or_declined(args: Seq<Seq<char>>, f: ApplyFlags)
    requires
        args.len() > 0,
        apply_flags(args, 1, apply_defaults()) == Ok::<ApplyFlags, Seq<char>>(f),
    ensures
        apply_args(args) is Ok <==> f.decline_all != (f.accept.len() > 0),
        apply_args(args) matches Ok(g) ==> g == f,
        apply_args(args.take(1)) is Err,
{
}

proof fn lemma_report_on(
    args: Seq<Seq<char>>,
    tail: Seq<Seq<char>>,
    i: int,
    usage: Seq<char>,
    file: Option<Seq<char>>,
    json: bool,
)
    requires
        0 <= i <= args.len(),
        report_flags(args, i, usage, file, json) is Ok,
    ensures
        report_flags(args + tail, i, usage, file, json) == report_flags(
            args + tail,
            args.len() as int,
            usage,
            (report_flags(args, i, usage, file, json)->Ok_0).0,
            (report_flags(args, i, usage, file, json)->Ok_0).1,
        ),
    decreases args.len() - i,
{
    let all = args + tail;
    if i < args.len() {
        assert(all[i] == args[i]);
        if i + 1 < args.len() {
            assert(all[i + 1] == args[i + 1]);
        }
        if args[i] == "--file"@ {
            lemma_report_on(args, tail, i + 2, usage, Some(args[i + 1]), json);
        } else {
            lemma_report_on(args, tail, i + 1, usage, file, true);
        }
    }
}

/// An answer is that of the member the environment names, for the run it names, in the file
/// that was given last; without any of the three there is none.
pub proof fn law_an_answer_is_given_for_ones_own_interview(
    args: Seq<Seq<char>>,
    env_run: Option<Seq<char>>,
    env_member: Option<Seq<char>>,
    file: Option<Seq<char>>,
    json: bool,
    usage: Seq<char>,
    value: Seq<char>,
)
    requires
        report_flags(args, 0, usage, None, false) == Ok::<(Option<Seq<char>>, bool), Seq<char>>(
            (file, json),
        ),
        usage == crate::cli::other_args::REVIEW_ANSWER_USAGE@,
    ensures
        ({
            let known = (env_run matches Some(v) && trim(v).len() > 0) && (env_member matches Some(v)
                && trim(v).len() > 0);
            &&& answer_args(args, env_run, env_member) is Ok <==> file is Some && known
            &&& file is Some && known ==> answer_args(args, env_run, env_member) == Ok::<
                (Seq<char>, Seq<char>, Seq<char>, bool),
                Seq<char>,
            >((env_run->0, env_member->0, file->0, json))
            &&& known ==> answer_args(args + seq!["--file"@, value], env_run, env_member) == Ok::<
                (Seq<char>, Seq<char>, Seq<char>, bool),
                Seq<char>,
            >((env_run->0, env_member->0, value, json))
        }),
{
    reveal_with_fuel(report_flags, 3);
    let n = args.len() as int;
    let t1 = seq!["--file"@, value];
    lemma_report_on(args, t1, 0, usage, None, false);
    assert((args + t1)[n] == "--file"@ && (args + t1)[n + 1] == value);
}

/// Findings are reported for the run the environment names, in the file that was given
/// last; without either there are none.
pub proof fn law_findings_are_reported_for_ones_own_run(
    args: Seq<Seq<char>>,
    env_run: Option<Seq<char>>,
    file: Option<Seq<char>>,
    json: bool,
    usage: Seq<char>,
    value: Seq<char>,
)
    requires
        report_flags(args, 0, usage, None, false) == Ok::<(Option<Seq<char>>, bool), Seq<char>>(
            (file, json),
        ),
        usage == crate::cli::other_args::REVIEW_REPORT_USAGE@,
    ensures
        ({
            let known = env_run matches Some(v) && trim(v).len() > 0;
            &&& findings_args(args, env_run) is Ok <==> file is Some && known
            &&& file is Some && known ==> findings_args(args, env_run) == Ok::<
                (Seq<char>, Seq<char>, bool),
                Seq<char>,
            >((env_run->0, file->0, json))
            &&& known ==> findings_args(args + seq!["--file"@, value], env_run) == Ok::<
                (Seq<char>, Seq<char>, bool),
                Seq<char>,
            >((env_run->0, value, json))
        }),
{
    reveal_with_fuel(report_flags, 3);
    let n = args.len() as int;
    let t1 = seq!["--file"@, value];
    lemma_report_on(args, t1, 0, usage, None, false);
    assert((args + t1)[n] == "--file"@ && (args + t1)[n + 1] == value);
}

// ---------------------------------------------------------------------------
// Values
// ---------------------------------------------------------------------------

/// A key stands before the first equals sign and its value behind it, whatever that holds;
/// without a sign, or without a key, there is neither.
pub proof fn law_a_key_stands_before_its_value(key: Seq<char>, value: Seq<char>)
    requires
        !key.contains('='),
    ensures
        key.len() > 0 ==> assignment_of(key.push('=') + value) == Ok::<
            (Seq<char>, Seq<char>),
            Seq<char>,
        >((key, value)),
        key.len() > 0 ==> token_of(key.push('=') + value) == Ok::<
            (Seq<char>, Seq<char>),
            Seq<char>,
        >((key, value)),
        key.len() > 0 && !key.contains('\0') && !value.contains('\0') ==> variable_of(
            key.push('=') + value,
        ) == Ok::<(Seq<char>, Seq<char>), Seq<char>>((key, value)),
        key.contains('\0') || value.contains('\0') ==> variable_of(key.push('=') + value) is Err,
        assignment_of(seq!['='] + value) is Err,
        token_of(seq!['='] + value) is Err,
        variable_of(seq!['='] + value) is Err,
        assignment_of(key) is Err,
        token_of(key) is Err,
        variable_of(key) is Err,
{
    lemma_parted(key, value);
    lemma_parted(Seq::empty(), value);
    assert(Seq::<char>::empty().push('=') =~= seq!['=']);
    crate::laws::words::law_a_text_is_parted_at_the_first_place(key, '=');
}

proof fn lemma_parted(a: Seq<char>, b: Seq<char>)
    requires
        !a.contains('='),
    ensures
        split_once(a.push('=') + b, '=') == Some((a, b)),
{
    let s = a.push('=') + b;
    crate::text::lemma_char_pos(s, '=');
    assert(s[a.len() as int] == '=');
    assert(forall|j: int| 0 <= j < a.len() ==> s[j] == #[trigger] a[j]);
    let p = crate::text::char_pos(s, '=')->0;
    if p < a.len() {
        assert(a[p] == '=');
    }
    assert(s.take(a.len() as int) =~= a);
    assert(s.skip(a.len() as int + 1) =~= b);
}

/// A tier is understood by its own name, and nothing else is a tier.
pub proof fn law_a_tier_is_understood_by_its_name(value: Seq<char>)
    ensures
        tier_of("auto"@) == Ok::<WorkflowTier, Seq<char>>(WorkflowTier::Auto),
        tier_of("max"@) == Ok::<WorkflowTier, Seq<char>>(WorkflowTier::Max),
        tier_of("high"@) == Ok::<WorkflowTier, Seq<char>>(WorkflowTier::High),
        tier_of("medium"@) == Ok::<WorkflowTier, Seq<char>>(WorkflowTier::Medium),
        tier_of("low"@) == Ok::<WorkflowTier, Seq<char>>(WorkflowTier::Low),
        tier_of(value) is Ok <==> value == "auto"@ || value == "max"@ || value == "high"@ || value
            == "medium"@ || value == "low"@,
{
    reveal_strlit("auto");
    reveal_strlit("max");
    reveal_strlit("high");
    reveal_strlit("medium");
    reveal_strlit("low");
    assert("auto"@[0] == 'a' && "max"@[0] == 'm' && "high"@[0] == 'h' && "medium"@[0] == 'm'
        && "low"@[0] == 'l');
    assert("max"@.len() == 3 && "medium"@.len() == 6);
}

/// A flag goes before the environment, and what is blank counts as not given.
pub proof fn law_a_flag_goes_before_the_environment(
    flag: Option<Seq<char>>,
    env: Option<Seq<char>>,
)
    ensures
        (flag matches Some(v) && trim(v).len() > 0) ==> flag_or_env(flag, env) == flag,
        (flag matches Some(v) && trim(v).len() == 0) ==> flag_or_env(flag, env) is None,
        flag is None && (env matches Some(v) && trim(v).len() > 0) ==> flag_or_env(flag, env) == env,
        flag is None && (env matches Some(v) && trim(v).len() == 0) ==> flag_or_env(flag, env)
            is None,
        flag is None && env is None ==> flag_or_env(flag, env) is None,
{
}

/// A number that is written in digits is read from a flag as it is.
pub proof fn law_a_number_is_read_from_its_flag(flag: Seq<char>, n: u32)
    ensures
        u32_flag(flag, decimal(n as nat)) == Ok::<u32, Seq<char>>(n),
        u32_flag(flag, Seq::empty()) is Err,
{
    crate::laws::words::law_a_number_is_read_as_it_was_written(n as nat, u32::MAX as nat);
}

} // verus!
