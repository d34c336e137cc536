//! The verbs of `kvx workflow`, and which one a command line names.

use crate::text::{str_eq, texts};
use vstd::prelude::*;

verus! {

broadcast use crate::text::group_texts;

// ---------------------------------------------------------------------------
// Which verb
// ---------------------------------------------------------------------------

#[derive(Debug, Clone, Copy, PartialEq, Eq, Structural)]
pub enum Verb {
    List,
    Show,
    Create,
    Update,
    RunStart,
    RunList,
    RunShow,
    RunCancel,
    RunFinish,
    RunMessage,
    RunReportSession,
    NodeShow,
    NodeSteer,
    NodeInterrupt,
    NodeRestart,
    NodeComplete,
    NodeExpand,
    NodeInterrogate,
    SummaryShow,
    SummaryList,
    ReviewStart,
    ReviewShow,
    ReviewApply,
    ReviewAnswer,
    ReviewReport,
}

/// The words a verb is named with.
pub open spec fn verb_path(verb: Verb) -> Seq<Seq<char>> {
    match verb {
        Verb::List => seq!["list"@],
        Verb::Show => seq!["show"@],
        Verb::Create => seq!["create"@],
        Verb::Update => seq!["update"@],
        Verb::RunStart => seq!["run"@, "start"@],
        Verb::RunList => seq!["run"@, "list"@],
        Verb::RunShow => seq!["run"@, "show"@],
        Verb::RunCancel => seq!["run"@, "cancel"@],
        Verb::RunFinish => seq!["run"@, "finish"@],
        Verb::RunMessage => seq!["run"@, "message"@],
        Verb::RunReportSession => seq!["run"@, "report-session"@],
        Verb::NodeShow => seq!["node"@, "show"@],
        Verb::NodeSteer => seq!["node"@, "steer"@],
        Verb::NodeInterrupt => seq!["node"@, "interrupt"@],
        Verb::NodeRestart => seq!["node"@, "restart"@],
        Verb::NodeComplete => seq!["node"@, "complete"@],
        Verb::NodeExpand => seq!["node"@, "expand"@],
        Verb::NodeInterrogate => seq!["node"@, "interrogate"@],
        Verb::SummaryShow => seq!["summary"@, "show"@],
        Verb::SummaryList => seq!["summary"@, "list"@],
        Verb::ReviewStart => seq!["review"@, "start"@],
        Verb::ReviewShow => seq!["review"@, "show"@],
        Verb::ReviewApply => seq!["review"@, "apply"@],
        Verb::ReviewAnswer => seq!["review"@, "answer"@],
        Verb::ReviewReport => seq!["review"@, "report"@],
    }
}

/// The pages of the help text.
#[derive(Debug, Clone, Copy, PartialEq, Eq, Structural)]
pub enum Page {
    Workflow,
    Run,
    Node,
    Summary,
    Review,
}

/// What a command line names.
#[derive(Debug, Clone, Copy, PartialEq, Eq, Structural)]
pub enum Choice {
    /// A page of help. It was asked for where `asked`.
    Help { page: Page, asked: bool },
    /// A verb, whose arguments follow after `words` words.
    Verb { verb: Verb, words: usize },
}

pub open spec fn is_help(word: Seq<char>) -> bool {
    word == "help"@ || word == "--help"@ || word == "-h"@
}

pub(crate) fn word_is_help(word: &str) -> (r: bool)
    ensures
        r == is_help(word@),
{
    str_eq(word, "help") || str_eq(word, "--help") || str_eq(word, "-h")
}

/// The second word, within `page`.
pub open spec fn group_choice(args: Seq<Seq<char>>, page: Page) -> Choice {
    if args.len() < 2 {
        Choice::Help { page, asked: false }
    } else {
        match group_verb(page, args[1]) {
            Some(verb) => Choice::Verb { verb, words: 2 },
            None => Choice::Help { page, asked: is_help(args[1]) },
        }
    }
}

/// The verb that `word` names within `page`.
pub open spec fn group_verb(page: Page, word: Seq<char>) -> Option<Verb> {
    match page {
        Page::Workflow => if word == "list"@ {
            Some(Verb::List)
        } else if word == "show"@ {
            Some(Verb::Show)
        } else if word == "create"@ {
            Some(Verb::Create)
        } else if word == "update"@ {
            Some(Verb::Update)
        } else {
            None
        },
        Page::Run => if word == "start"@ {
            Some(Verb::RunStart)
        } else if word == "list"@ {
            Some(Verb::RunList)
        } else if word == "show"@ {
            Some(Verb::RunShow)
        } else if word == "cancel"@ {
            Some(Verb::RunCancel)
        } else if word == "finish"@ {
            Some(Verb::RunFinish)
        } else if word == "report-session"@ {
            Some(Verb::RunReportSession)
        } else if word == "message"@ {
            Some(Verb::RunMessage)
        } else {
            None
        },
        Page::Node => if word == "show"@ {
            Some(Verb::NodeShow)
        } else if word == "steer"@ {
            Some(Verb::NodeSteer)
        } else if word == "interrupt"@ {
            Some(Verb::NodeInterrupt)
        } else if word == "restart"@ {
            Some(Verb::NodeRestart)
        } else if word == "complete"@ {
            Some(Verb::NodeComplete)
        } else if word == "expand"@ {
            Some(Verb::NodeExpand)
        } else if word == "interrogate"@ {
            Some(Verb::NodeInterrogate)
        } else {
            None
        },
        Page::Summary => if word == "show"@ {
            Some(Verb::SummaryShow)
        } else if word == "list"@ {
            Some(Verb::SummaryList)
        } else {
            None
        },
        Page::Review => if word == "start"@ {
            Some(Verb::ReviewStart)
        } else if word == "show"@ {
            Some(Verb::ReviewShow)
        } else if word == "apply"@ {
            Some(Verb::ReviewApply)
        } else if word == "answer"@ {
            Some(Verb::ReviewAnswer)
        } else if word == "report"@ {
            Some(Verb::ReviewReport)
        } else {
            None
        },
    }
}

/// The page whose group `word` names.
pub open spec fn group_of(word: Seq<char>) -> Option<Page> {
    if word == "run"@ {
        Some(Page::Run)
    } else if word == "node"@ {
        Some(Page::Node)
    } else if word == "summary"@ {
        Some(Page::Summary)
    } else if word == "review"@ {
        Some(Page::Review)
    } else {
        None
    }
}

/// What a command line names.
pub open spec fn choice(args: Seq<Seq<char>>) -> Choice {
    if args.len() == 0 {
        Choice::Help { page: Page::Workflow, asked: false }
    } else {
        match (group_verb(Page::Workflow, args[0]), group_of(args[0])) {
            (Some(verb), _) => Choice::Verb { verb, words: 1 },
            (None, Some(page)) => group_choice(args, page),
            (None, None) => Choice::Help { page: Page::Workflow, asked: is_help(args[0]) },
        }
    }
}

fn find_verb(page: Page, word: &str) -> (r: Option<Verb>)
    ensures
        r == group_verb(page, word@),
{
    match page {
        Page::Workflow => if str_eq(word, "list") {
            Some(Verb::List)
        } else if str_eq(word, "show") {
            Some(Verb::Show)
        } else if str_eq(word, "create") {
            Some(Verb::Create)
        } else if str_eq(word, "update") {
            Some(Verb::Update)
        } else {
            None
        },
        Page::Run => if str_eq(word, "start") {
            Some(Verb::RunStart)
        } else if str_eq(word, "list") {
            Some(Verb::RunList)
        } else if str_eq(word, "show") {
            Some(Verb::RunShow)
        } else if str_eq(word, "cancel") {
            Some(Verb::RunCancel)
        } else if str_eq(word, "finish") {
            Some(Verb::RunFinish)
        } else if str_eq(word, "report-session") {
            Some(Verb::RunReportSession)
        } else if str_eq(word, "message") {
            Some(Verb::RunMessage)
        } else {
            None
        },
        Page::Node => if str_eq(word, "show") {
            Some(Verb::NodeShow)
        } else if str_eq(word, "steer") {
            Some(Verb::NodeSteer)
        } else if str_eq(word, "interrupt") {
            Some(Verb::NodeInterrupt)
        } else if str_eq(word, "restart") {
            Some(Verb::NodeRestart)
        } else if str_eq(word, "complete") {
            Some(Verb::NodeComplete)
        } else if str_eq(word, "expand") {
            Some(Verb::NodeExpand)
        } else if str_eq(word, "interrogate") {
            Some(Verb::NodeInterrogate)
        } else {
            None
        },
        Page::Summary => if str_eq(word, "show") {
            Some(Verb::SummaryShow)
        } else if str_eq(word, "list") {
            Some(Verb::SummaryList)
        } else {
            None
        },
        Page::Review => if str_eq(word, "start") {
            Some(Verb::ReviewStart)
        } else if str_eq(word, "show") {
            Some(Verb::ReviewShow)
        } else if str_eq(word, "apply") {
            Some(Verb::ReviewApply)
        } else if str_eq(word, "answer") {
            Some(Verb::ReviewAnswer)
        } else if str_eq(word, "report") {
            Some(Verb::ReviewReport)
        } else {
            None
        },
    }
}

/// Finds what a command line names.
pub fn choose_verb(args: &[String]) -> (r: Choice)
    ensures
        r == choice(texts(args@)),
        r matches Choice::Verb { words, .. } ==> words <= args@.len(),
{
    if args.len() == 0 {
        return Choice::Help { page: Page::Workflow, asked: false };
    }
    let first = args[0].as_str();
    match find_verb(Page::Workflow, first) {
        Some(verb) => {
            return Choice::Verb { verb, words: 1 };
        },
        None => {},
    }
    let page = if str_eq(first, "run") {
        Page::Run
    } else if str_eq(first, "node") {
        Page::Node
    } else if str_eq(first, "summary") {
        Page::Summary
    } else if str_eq(first, "review") {
        Page::Review
    } else {
        return Choice::Help { page: Page::Workflow, asked: word_is_help(first) };
    };
    if args.len() < 2 {
        return Choice::Help { page, asked: false };
    }
    let second = args[1].as_str();
    match find_verb(page, second) {
        Some(verb) => Choice::Verb { verb, words: 2 },
        None => Choice::Help { page, asked: word_is_help(second) },
    }
}

/// Every verb is reached by its own words, whatever arguments follow them.
pub proof fn law_every_verb_is_reached(verb: Verb, rest: Seq<Seq<char>>)
    ensures
        choice(verb_path(verb) + rest) == (Choice::Verb {
            verb,
            words: verb_path(verb).len() as usize,
        }),
{
    reveal_strlit("list");
    reveal_strlit("show");
    reveal_strlit("create");
    reveal_strlit("update");
    reveal_strlit("run");
    reveal_strlit("node");
    reveal_strlit("summary");
    reveal_strlit("review");
    reveal_strlit("start");
    reveal_strlit("cancel");
    reveal_strlit("finish");
    reveal_strlit("message");
    reveal_strlit("report-session");
    reveal_strlit("steer");
    reveal_strlit("interrupt");
    reveal_strlit("restart");
    reveal_strlit("complete");
    reveal_strlit("expand");
    reveal_strlit("interrogate");
    reveal_strlit("apply");
    reveal_strlit("answer");
    reveal_strlit("report");
    let all = verb_path(verb) + rest;
    let a = all[0];
    let words = verb_path(verb);
    assert(a == words[0]);
    assert("run"@[0] == 'r' && "node"@[0] == 'n' && "summary"@[0] == 's' && "review"@[0] == 'r');
    assert("list"@[0] == 'l' && "show"@[0] == 's' && "create"@[0] == 'c' && "update"@[0] == 'u');
    assert("run"@.len() == 3 && "show"@.len() == 4 && "summary"@.len() == 7 && "review"@.len()
        == 6);
    if words.len() == 2 {
        let b = all[1];
        assert(b == words[1]);
        assert(group_verb(Page::Workflow, a) is None);
        lemma_second_words();
    } else {
        lemma_first_words();
    }
}

proof fn lemma_first_words()
    ensures
        "list"@ != "show"@,
        "list"@ != "create"@,
        "list"@ != "update"@,
        "show"@ != "create"@,
        "show"@ != "update"@,
        "create"@ != "update"@,
{
    reveal_strlit("list");
    reveal_strlit("show");
    reveal_strlit("create");
    reveal_strlit("update");
    assert("list"@[0] == 'l' && "show"@[0] == 's' && "create"@[0] == 'c' && "update"@[0] == 'u');
}

proof fn lemma_second_words()
    ensures
        group_verb(Page::Run, "start"@) == Some(Verb::RunStart),
        group_verb(Page::Run, "list"@) == Some(Verb::RunList),
        group_verb(Page::Run, "show"@) == Some(Verb::RunShow),
        group_verb(Page::Run, "cancel"@) == Some(Verb::RunCancel),
        group_verb(Page::Run, "finish"@) == Some(Verb::RunFinish),
        group_verb(Page::Run, "message"@) == Some(Verb::RunMessage),
        group_verb(Page::Run, "report-session"@) == Some(Verb::RunReportSession),
        group_verb(Page::Node, "show"@) == Some(Verb::NodeShow),
        group_verb(Page::Node, "steer"@) == Some(Verb::NodeSteer),
        group_verb(Page::Node, "interrupt"@) == Some(Verb::NodeInterrupt),
        group_verb(Page::Node, "restart"@) == Some(Verb::NodeRestart),
        group_verb(Page::Node, "complete"@) == Some(Verb::NodeComplete),
        group_verb(Page::Node, "expand"@) == Some(Verb::NodeExpand),
        group_verb(Page::Node, "interrogate"@) == Some(Verb::NodeInterrogate),
        group_verb(Page::Summary, "show"@) == Some(Verb::SummaryShow),
        group_verb(Page::Summary, "list"@) == Some(Verb::SummaryList),
        group_verb(Page::Review, "start"@) == Some(Verb::ReviewStart),
        group_verb(Page::Review, "show"@) == Some(Verb::ReviewShow),
        group_verb(Page::Review, "apply"@) == Some(Verb::ReviewApply),
        group_verb(Page::Review, "answer"@) == Some(Verb::ReviewAnswer),
        group_verb(Page::Review, "report"@) == Some(Verb::ReviewReport),
{
    reveal_strlit("list");
    reveal_strlit("show");
    reveal_strlit("start");
    reveal_strlit("cancel");
    reveal_strlit("finish");
    reveal_strlit("message");
    reveal_strlit("report-session");
    reveal_strlit("steer");
    reveal_strlit("interrupt");
    reveal_strlit("restart");
    reveal_strlit("complete");
    reveal_strlit("expand");
    reveal_strlit("interrogate");
    reveal_strlit("apply");
    reveal_strlit("answer");
    reveal_strlit("report");
    assert("list"@[0] == 'l' && "show"@[0] == 's' && "start"@[0] == 's' && "cancel"@[0] == 'c');
    assert("show"@[1] == 'h' && "start"@[1] == 't' && "steer"@[1] == 't' && "start"@[2] == 'a'
        && "steer"@[2] == 'e');
    assert("finish"@[0] == 'f' && "message"@[0] == 'm' && "report-session"@[0] == 'r'
        && "report"@[0] == 'r' && "restart"@[0] == 'r');
    assert("interrupt"@[0] == 'i' && "interrogate"@[0] == 'i' && "interrupt"@.len() == 9
        && "interrogate"@.len() == 11);
    assert("complete"@[0] == 'c' && "expand"@[0] == 'e' && "apply"@[0] == 'a' && "answer"@[0] == 'a'
        && "apply"@[1] == 'p' && "answer"@[1] == 'n');
}

} // verus!
