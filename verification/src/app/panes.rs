//! The panes that leads and reviews run in: what is asked for before one is opened, and
//! what its opening means.

use crate::text::{trim, trim_str};
use vstd::prelude::*;

verus! {

/// Why a run's lead was not started.
#[derive(Debug, PartialEq, Eq)]
pub enum LeadSpawnError {
    /// Its program could not be run.
    ClaudeUnavailable(String),
    /// Its directory was never trusted.
    CwdNotTrusted(String),
    /// The files of the run could not be written.
    RunDirUnwritable(String),
    /// There is no pane to split, or none came of it.
    NoTargetPane,
    PaneLaunchFailed(String),
}

/// What is read of the program's version.
pub open spec fn version_read(
    output: Result<String, String>,
    r: Result<String, LeadSpawnError>,
) -> bool {
    match output {
        Ok(printed) => r matches Ok(text) && text@ == trim(printed@),
        Err(e) => r == Err::<String, LeadSpawnError>(LeadSpawnError::ClaudeUnavailable(e)),
    }
}

/// `output` is what the program printed when asked for its version. Returns the text to
/// read the version from.
pub fn preflight_claude_for_lead(output: Result<String, String>) -> (r: Result<
    String,
    LeadSpawnError,
>)
    ensures
        version_read(output, r),
{
    match output {
        Ok(printed) => Ok(trim_str(printed.as_str())),
        Err(e) => Err(LeadSpawnError::ClaudeUnavailable(e)),
    }
}

/// Whether a lead may start in a directory.
pub open spec fn trust_checked(
    trusted: bool,
    cwd: Seq<char>,
    r: Result<(), LeadSpawnError>,
) -> bool {
    &&& trusted <==> r is Ok
    &&& !trusted ==> (r matches Err(LeadSpawnError::CwdNotTrusted(named)) && named@ == cwd)
}

/// A lead starts only in a directory that its user has trusted.
pub fn preflight_cwd_trust_for_lead(trusted: bool, cwd: &str) -> (r: Result<(), LeadSpawnError>)
    ensures
        trust_checked(trusted, cwd@, r),
{
    if trusted {
        Ok(())
    } else {
        Err(LeadSpawnError::CwdNotTrusted(cwd.to_owned()))
    }
}

/// The first failure among the steps that write the files of a run.
pub open spec fn files_written(
    directory: Result<(), String>,
    prompt: Result<(), String>,
    settings: Result<(), String>,
) -> Result<(), LeadSpawnError> {
    match (directory, prompt, settings) {
        (Err(e), _, _) => Err(LeadSpawnError::RunDirUnwritable(e)),
        (Ok(_), Err(e), _) => Err(LeadSpawnError::RunDirUnwritable(e)),
        (Ok(_), Ok(_), Err(e)) => Err(LeadSpawnError::RunDirUnwritable(e)),
        (Ok(_), Ok(_), Ok(_)) => Ok(()),
    }
}

/// The first of the steps that failed: making the directory of a run, writing its
/// prompt, and writing its settings.
pub fn write_lead_run_files(
    directory: Result<(), String>,
    prompt: Result<(), String>,
    settings: Result<(), String>,
) -> (r: Result<(), LeadSpawnError>)
    ensures
        r == files_written(directory, prompt, settings),
{
    match (directory, prompt, settings) {
        (Err(e), _, _) => Err(LeadSpawnError::RunDirUnwritable(e)),
        (Ok(_), Err(e), _) => Err(LeadSpawnError::RunDirUnwritable(e)),
        (Ok(_), Ok(_), Err(e)) => Err(LeadSpawnError::RunDirUnwritable(e)),
        (Ok(_), Ok(_), Ok(_)) => Ok(()),
    }
}

/// A pane to split, and the size of the one that comes of it.
#[derive(Debug, PartialEq, Eq)]
pub struct SplitPlan {
    pub target_pane: u64,
    pub rows: u16,
    pub cols: u16,
}

/// The larger of two sizes.
pub open spec fn at_least(size: u16, least: u16) -> u16 {
    if size < least {
        least
    } else {
        size
    }
}

/// How a pane is split.
pub open spec fn planned_split(
    focused: Option<u64>,
    estimate: (u16, u16),
    least: (u16, u16),
) -> Option<SplitPlan> {
    match focused {
        Some(target_pane) => Some(
            SplitPlan {
                target_pane,
                rows: at_least(estimate.0, least.0),
                cols: at_least(estimate.1, least.1),
            },
        ),
        None => None,
    }
}

/// The pane with the focus is split, and no pane is smaller than an agent needs.
pub fn split_plan(
    focused: Option<u64>,
    estimate: (u16, u16),
    least: (u16, u16),
) -> (r: Option<SplitPlan>)
    ensures
        r == planned_split(focused, estimate, least),
{
    match focused {
        None => None,
        Some(target_pane) => {
            let (rows, cols) = estimate;
            let (least_rows, least_cols) = least;
            Some(
                SplitPlan {
                    target_pane,
                    rows: if rows < least_rows {
                        least_rows
                    } else {
                        rows
                    },
                    cols: if cols < least_cols {
                        least_cols
                    } else {
                        cols
                    },
                },
            )
        },
    }
}

/// What came of splitting a pane.
#[derive(Debug, PartialEq, Eq)]
pub enum Launch {
    /// There was no pane to split.
    NoPane,
    Failed(String),
    /// A pane is up. Its public id is how everyone else names it.
    Up { terminal_id: String, public_id: Option<String> },
}

/// A pane that everyone can name.
#[derive(Debug, PartialEq, Eq)]
pub struct SpawnedPane {
    pub pane_id: String,
    pub terminal_id: String,
}

/// What came of opening the pane of a run's lead.
pub open spec fn lead_spawned(launch: Launch) -> Result<SpawnedPane, LeadSpawnError> {
    match launch {
        Launch::NoPane => Err(LeadSpawnError::NoTargetPane),
        Launch::Failed(e) => Err(LeadSpawnError::PaneLaunchFailed(e)),
        Launch::Up { terminal_id, public_id: Some(pane_id) } => Ok(
            SpawnedPane { pane_id, terminal_id },
        ),
        Launch::Up { public_id: None, .. } => Err(LeadSpawnError::NoTargetPane),
    }
}

/// The pane of a run's lead.
pub fn spawn_lead_pane(launch: Launch) -> (r: Result<SpawnedPane, LeadSpawnError>)
    ensures
        r == lead_spawned(launch),
{
    match launch {
        Launch::NoPane => Err(LeadSpawnError::NoTargetPane),
        Launch::Failed(e) => Err(LeadSpawnError::PaneLaunchFailed(e)),
        Launch::Up { terminal_id, public_id } => match public_id {
            Some(pane_id) => Ok(SpawnedPane { pane_id, terminal_id }),
            None => Err(LeadSpawnError::NoTargetPane),
        },
    }
}

/// What came of opening the pane of an interview or a synthesis.
pub open spec fn review_spawned(launch: Launch, r: Result<SpawnedPane, String>) -> bool {
    match launch {
        Launch::NoPane => r matches Err(m) && m@ == "no pane to split for the review"@,
        Launch::Failed(e) => r == Err::<SpawnedPane, String>(e),
        Launch::Up { terminal_id, public_id: Some(pane_id) } => r == Ok::<SpawnedPane, String>(
            SpawnedPane { pane_id, terminal_id },
        ),
        Launch::Up { public_id: None, .. } => r matches Err(m) && m@
            == "the review pane has no public id"@,
    }
}

/// The pane of an interview or a synthesis, or the sentence for the log.
pub fn spawn_review_pane(launch: Launch) -> (r: Result<SpawnedPane, String>)
    ensures
        review_spawned(launch, r),
{
    match launch {
        Launch::NoPane => Err("no pane to split for the review".to_owned()),
        Launch::Failed(e) => Err(e),
        Launch::Up { terminal_id, public_id } => match public_id {
            Some(pane_id) => Ok(SpawnedPane { pane_id, terminal_id }),
            None => Err("the review pane has no public id".to_owned()),
        },
    }
}

} // verus!
