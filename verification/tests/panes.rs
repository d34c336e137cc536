//! The panes of leads and reviews.

use karvex::app::panes::{
    preflight_claude_for_lead, preflight_cwd_trust_for_lead, spawn_lead_pane, spawn_review_pane,
    split_plan, write_lead_run_files, Launch, LeadSpawnError, SpawnedPane, SplitPlan,
};

fn up(public_id: Option<&str>) -> Launch {
    Launch::Up {
        terminal_id: "term-1".to_string(),
        public_id: public_id.map(str::to_string),
    }
}

fn pane() -> SpawnedPane {
    SpawnedPane {
        pane_id: "1-2".to_string(),
        terminal_id: "term-1".to_string(),
    }
}

#[test]
fn a_version_is_read_from_trimmed_text() {
    assert_eq!(
        preflight_claude_for_lead(Ok("2.1.224 \n".to_string())),
        Ok("2.1.224".to_string())
    );
    assert_eq!(
        preflight_claude_for_lead(Err("not found".to_string())),
        Err(LeadSpawnError::ClaudeUnavailable("not found".to_string()))
    );
}

#[test]
fn an_untrusted_directory_is_named() {
    assert_eq!(preflight_cwd_trust_for_lead(true, "/work"), Ok(()));
    assert_eq!(
        preflight_cwd_trust_for_lead(false, "/work"),
        Err(LeadSpawnError::CwdNotTrusted("/work".to_string()))
    );
}

#[test]
fn the_first_file_that_cannot_be_written_is_told() {
    let failed = |word: &str| Err(word.to_string());
    let unwritable = |word: &str| Err(LeadSpawnError::RunDirUnwritable(word.to_string()));
    assert_eq!(write_lead_run_files(Ok(()), Ok(()), Ok(())), Ok(()));
    assert_eq!(
        write_lead_run_files(failed("dir"), failed("prompt"), Ok(())),
        unwritable("dir")
    );
    assert_eq!(
        write_lead_run_files(Ok(()), failed("prompt"), failed("settings")),
        unwritable("prompt")
    );
    assert_eq!(
        write_lead_run_files(Ok(()), Ok(()), failed("settings")),
        unwritable("settings")
    );
}

#[test]
fn a_pane_is_never_smaller_than_an_agent_needs() {
    assert_eq!(
        split_plan(Some(7), (10, 200), (24, 80)),
        Some(SplitPlan {
            target_pane: 7,
            rows: 24,
            cols: 200
        })
    );
    assert_eq!(split_plan(None, (10, 200), (24, 80)), None);
}

#[test]
fn a_lead_needs_a_pane_that_can_be_named() {
    assert_eq!(spawn_lead_pane(up(Some("1-2"))), Ok(pane()));
    assert_eq!(spawn_lead_pane(up(None)), Err(LeadSpawnError::NoTargetPane));
    assert_eq!(
        spawn_lead_pane(Launch::NoPane),
        Err(LeadSpawnError::NoTargetPane)
    );
    assert_eq!(
        spawn_lead_pane(Launch::Failed("no pty".to_string())),
        Err(LeadSpawnError::PaneLaunchFailed("no pty".to_string()))
    );
}

#[test]
fn a_review_pane_says_why_it_is_missing() {
    assert_eq!(spawn_review_pane(up(Some("1-2"))), Ok(pane()));
    assert_eq!(
        spawn_review_pane(up(None)),
        Err("the review pane has no public id".to_string())
    );
    assert_eq!(
        spawn_review_pane(Launch::NoPane),
        Err("no pane to split for the review".to_string())
    );
    assert_eq!(
        spawn_review_pane(Launch::Failed("no pty".to_string())),
        Err("no pty".to_string())
    );
}
