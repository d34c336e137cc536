//! The values that command line flags carry.

use crate::text::{
    cat2, cat3, cat4, contains_char, lemma_split_once, opt_text, parse_unsigned, read_unsigned,
    split_once, split_once_at, str_eq, trim,
};
use crate::wire::WorkflowTier;
use vstd::prelude::*;

verus! {

/// A map of strings, by its views.
pub open spec fn text_values(m: Map<Seq<char>, String>) -> Map<Seq<char>, Seq<char>> {
    m.map_values(|s: String| s@)
}

pub broadcast proof fn lemma_text_values_insert(
    m: Map<Seq<char>, String>,
    k: Seq<char>,
    v: String,
)
    ensures
        #[trigger] text_values(m.insert(k, v)) == text_values(m).insert(k, v@),
{
    assert(text_values(m.insert(k, v)) =~= text_values(m).insert(k, v@));
}

/// The tier a word names.
pub open spec fn tier_of(value: Seq<char>) -> Result<WorkflowTier, Seq<char>> {
    if value == "auto"@ {
        Ok(WorkflowTier::Auto)
    } else if value == "max"@ {
        Ok(WorkflowTier::Max)
    } else if value == "high"@ {
        Ok(WorkflowTier::High)
    } else if value == "medium"@ {
        Ok(WorkflowTier::Medium)
    } else if value == "low"@ {
        Ok(WorkflowTier::Low)
    } else {
        Err("invalid tier: "@ + value + " (expected auto, max, high, medium, or low)"@)
    }
}

pub fn parse_workflow_tier(value: &str) -> (r: Result<WorkflowTier, String>)
    ensures
        match r {
            Ok(t) => tier_of(value@) == Ok::<WorkflowTier, Seq<char>>(t),
            Err(m) => tier_of(value@) == Err::<WorkflowTier, Seq<char>>(m@),
        },
{
    if str_eq(value, "auto") {
        Ok(WorkflowTier::Auto)
    } else if str_eq(value, "max") {
        Ok(WorkflowTier::Max)
    } else if str_eq(value, "high") {
        Ok(WorkflowTier::High)
    } else if str_eq(value, "medium") {
        Ok(WorkflowTier::Medium)
    } else if str_eq(value, "low") {
        Ok(WorkflowTier::Low)
    } else {
        Err(cat3("invalid tier: ", value, " (expected auto, max, high, medium, or low)"))
    }
}

/// The key and value of `KEY=VALUE`; the value may hold more equals signs.
pub open spec fn assignment_of(raw: Seq<char>) -> Result<(Seq<char>, Seq<char>), Seq<char>> {
    match split_once(raw, '=') {
        None => Err("--arg must use KEY=VALUE"@),
        Some((key, value)) => if key.len() == 0 {
            Err("--arg key must not be empty"@)
        } else {
            Ok((key, value))
        },
    }
}

pub fn parse_arg_assignment(raw: &str) -> (r: Result<(String, String), String>)
    ensures
        match r {
            Ok((k, v)) => assignment_of(raw@) == Ok::<(Seq<char>, Seq<char>), Seq<char>>(
                (k@, v@),
            ),
            Err(m) => assignment_of(raw@) == Err::<(Seq<char>, Seq<char>), Seq<char>>(m@),
        },
{
    match split_once_at(raw, '=') {
        None => Err("--arg must use KEY=VALUE".to_owned()),
        Some((key, value)) => if key.as_str().is_empty() {
            Err("--arg key must not be empty".to_owned())
        } else {
            Ok((key, value))
        },
    }
}

/// An accepted assignment is its key, an equals sign and its value again, and the
/// key holds no equals sign.
pub proof fn law_assignment_rebuilds(raw: Seq<char>)
    ensures
        match assignment_of(raw) {
            Ok((key, value)) => raw == key.push('=') + value && key.len() > 0 && !key.contains('='),
            Err(_) => true,
        },
{
    crate::text::lemma_split_once(raw, '=');
}

/// The `u32` of a flag, or the complaint about it.
pub open spec fn u32_flag(flag: Seq<char>, value: Seq<char>) -> Result<u32, Seq<char>> {
    match read_unsigned(value, u32::MAX as nat) {
        Some(n) => Ok(n as u32),
        None => Err("invalid value for "@ + flag + ": "@ + value),
    }
}

pub fn parse_u32_flag(flag: &str, value: &str) -> (r: Result<u32, String>)
    ensures
        match r {
            Ok(n) => u32_flag(flag@, value@) == Ok::<u32, Seq<char>>(n),
            Err(m) => u32_flag(flag@, value@) == Err::<u32, Seq<char>>(m@),
        },
{
    match parse_unsigned(value, u32::MAX as u64) {
        Some(n) => Ok(n as u32),
        None => Err(crate::text::cat4("invalid value for ", flag, ": ", value)),
    }
}

/// `value`, unless it is blank.
pub open spec fn unless_blank(value: Option<Seq<char>>) -> Option<Seq<char>> {
    match value {
        Some(v) => if trim(v).len() == 0 {
            None
        } else {
            Some(v)
        },
        None => None,
    }
}

pub fn drop_blank(value: Option<String>) -> (r: Option<String>)
    ensures
        opt_text(r) == unless_blank(opt_text(value)),
        r is Some ==> r == value,
{
    match value {
        Some(v) => if crate::text::is_blank(v.as_str()) {
            None
        } else {
            Some(v)
        },
        None => None,
    }
}

/// The flag's value, or else the environment's; a blank one counts as none.
pub open spec fn flag_or_env(
    flag: Option<Seq<char>>,
    env: Option<Seq<char>>,
) -> Option<Seq<char>> {
    unless_blank(
        match flag {
            Some(_) => flag,
            None => env,
        },
    )
}

pub fn flag_or(flag: Option<String>, env: Option<String>) -> (r: Option<String>)
    ensures
        opt_text(r) == flag_or_env(opt_text(flag), opt_text(env)),
{
    match flag {
        Some(v) => drop_blank(Some(v)),
        None => drop_blank(env),
    }
}

// ---------------------------------------------------------------------------
// Words and numbers
// ---------------------------------------------------------------------------

/// A `NAME=VALUE` token, and what is wrong with one that is not.
pub open spec fn token_of(raw: Seq<char>) -> Result<(Seq<char>, Seq<char>), Seq<char>> {
    match split_once(raw, '=') {
        None => Err("token must use NAME=VALUE"@),
        Some((key, value)) => if key.len() == 0 {
            Err("token name must not be empty"@)
        } else {
            Ok((key, value))
        },
    }
}

pub fn parse_token_assignment(raw: &str) -> (r: Result<(String, Option<String>), String>)
    ensures
        match (r, token_of(raw@)) {
            (Ok((k, v)), Ok((key, value))) => k@ == key && opt_text(v) == Some(value),
            (Err(m), Err(e)) => m@ == e,
            _ => false,
        },
{
    match split_once_at(raw, '=') {
        None => Err("token must use NAME=VALUE".to_owned()),
        Some((key, value)) => if key.as_str().is_empty() {
            Err("token name must not be empty".to_owned())
        } else {
            Ok((key, Some(value)))
        },
    }
}

/// A `KEY=VALUE` variable, and what is wrong with one that is not.
pub open spec fn variable_of(raw: Seq<char>) -> Result<(Seq<char>, Seq<char>), Seq<char>> {
    match split_once(raw, '=') {
        None => Err("env must use KEY=VALUE"@),
        Some((key, value)) => if key.len() == 0 {
            Err("env key must not be empty"@)
        } else if key.contains('\0') || value.contains('\0') {
            Err("env must not contain NUL bytes"@)
        } else {
            Ok((key, value))
        },
    }
}

pub fn parse_env_assignment(raw: &str) -> (r: Result<(String, String), String>)
    ensures
        match (r, variable_of(raw@)) {
            (Ok((k, v)), Ok((key, value))) => k@ == key && v@ == value,
            (Err(m), Err(e)) => m@ == e,
            _ => false,
        },
{
    match split_once_at(raw, '=') {
        None => Err("env must use KEY=VALUE".to_owned()),
        Some((key, value)) => if key.as_str().is_empty() {
            Err("env key must not be empty".to_owned())
        } else if contains_char(key.as_str(), '\0') || contains_char(value.as_str(), '\0') {
            Err("env must not contain NUL bytes".to_owned())
        } else {
            Ok((key, value))
        },
    }
}

/// An accepted variable is what was written, cut at its first `=`, and a shell could
/// hold it.
pub proof fn law_variables_rebuild(raw: Seq<char>)
    ensures
        match variable_of(raw) {
            Ok((key, value)) => raw == key + seq!['='] + value && key.len() > 0 && !key.contains(
                '=',
            ) && !raw.contains('\0'),
            Err(_) => true,
        },
{
    lemma_split_once(raw, '=');
    match variable_of(raw) {
        Ok((key, value)) => {
            if raw.contains('\0') {
                let i = choose|i: int| 0 <= i < raw.len() && raw[i] == '\0';
                let whole = key + seq!['='] + value;
                assert(whole[i] == '\0');
                if i < key.len() {
                    assert(key[i] == '\0');
                } else if i > key.len() {
                    assert(value[i - key.len() - 1] == '\0');
                }
            }
        },
        Err(_) => {},
    }
}

/// A whole number for `flag`, up to the largest 64 bits hold.
pub fn parse_u64_flag(flag: &str, value: &str) -> (r: Result<u64, String>)
    ensures
        match (r, read_unsigned(value@, u64::MAX as nat)) {
            (Ok(n), Some(v)) => n == v,
            (Err(m), None) => m@ == "invalid value for "@ + flag@ + ": "@ + value@,
            _ => false,
        },
{
    match parse_unsigned(value, u64::MAX) {
        Some(n) => Ok(n),
        None => Err(cat4("invalid value for ", flag, ": ", value)),
    }
}

/// Where a pane is split to.
#[derive(Debug, Clone, Copy, PartialEq, Eq, Structural)]
pub enum SplitDirection {
    Right,
    Down,
}

pub open spec fn split_direction_of(value: Seq<char>) -> Option<SplitDirection> {
    if value == "right"@ {
        Some(SplitDirection::Right)
    } else if value == "down"@ {
        Some(SplitDirection::Down)
    } else {
        None
    }
}

pub fn parse_split_direction(value: &str) -> (r: Result<SplitDirection, String>)
    ensures
        match (r, split_direction_of(value@)) {
            (Ok(d), Some(want)) => d == want,
            (Err(m), None) => m@ == "invalid split direction: "@ + value@,
            _ => false,
        },
{
    if str_eq(value, "right") {
        Ok(SplitDirection::Right)
    } else if str_eq(value, "down") {
        Ok(SplitDirection::Down)
    } else {
        Err(cat2("invalid split direction: ", value))
    }
}

/// What of a pane is read.
#[derive(Debug, Clone, Copy, PartialEq, Eq, Structural)]
pub enum ReadSource {
    Visible,
    Recent,
    RecentUnwrapped,
    Detection,
}

pub open spec fn read_source_of(value: Seq<char>) -> Option<ReadSource> {
    if value == "visible"@ {
        Some(ReadSource::Visible)
    } else if value == "recent"@ {
        Some(ReadSource::Recent)
    } else if value == "recent-unwrapped"@ || value == "recent_unwrapped"@ {
        Some(ReadSource::RecentUnwrapped)
    } else if value == "detection"@ {
        Some(ReadSource::Detection)
    } else {
        None
    }
}

pub fn parse_read_source(value: &str) -> (r: Result<ReadSource, String>)
    ensures
        match (r, read_source_of(value@)) {
            (Ok(s), Some(want)) => s == want,
            (Err(m), None) => m@ == "invalid read source: "@ + value@,
            _ => false,
        },
{
    if str_eq(value, "visible") {
        Ok(ReadSource::Visible)
    } else if str_eq(value, "recent") {
        Ok(ReadSource::Recent)
    } else if str_eq(value, "recent-unwrapped") || str_eq(value, "recent_unwrapped") {
        Ok(ReadSource::RecentUnwrapped)
    } else if str_eq(value, "detection") {
        Ok(ReadSource::Detection)
    } else {
        Err(cat2("invalid read source: ", value))
    }
}

/// How a pane is read.
#[derive(Debug, Clone, Copy, PartialEq, Eq, Structural)]
pub enum ReadFormat {
    Text,
    Ansi,
}

pub open spec fn read_format_of(value: Seq<char>) -> Option<ReadFormat> {
    if value == "text"@ {
        Some(ReadFormat::Text)
    } else if value == "ansi"@ {
        Some(ReadFormat::Ansi)
    } else {
        None
    }
}

pub fn parse_read_format(value: &str) -> (r: Result<ReadFormat, String>)
    ensures
        match (r, read_format_of(value@)) {
            (Ok(f), Some(want)) => f == want,
            (Err(m), None) => m@ == "invalid read format: "@ + value@,
            _ => false,
        },
{
    if str_eq(value, "text") {
        Ok(ReadFormat::Text)
    } else if str_eq(value, "ansi") {
        Ok(ReadFormat::Ansi)
    } else {
        Err(cat2("invalid read format: ", value))
    }
}

/// What an agent is waited for.
#[derive(Debug, Clone, Copy, PartialEq, Eq, Structural)]
pub enum AgentStatus {
    Idle,
    Working,
    Blocked,
    Done,
    Unknown,
}

pub open spec fn agent_status_of(value: Seq<char>) -> Option<AgentStatus> {
    if value == "idle"@ {
        Some(AgentStatus::Idle)
    } else if value == "working"@ {
        Some(AgentStatus::Working)
    } else if value == "blocked"@ {
        Some(AgentStatus::Blocked)
    } else if value == "done"@ {
        Some(AgentStatus::Done)
    } else if value == "unknown"@ {
        Some(AgentStatus::Unknown)
    } else {
        None
    }
}

pub fn parse_agent_status(value: &str) -> (r: Result<AgentStatus, String>)
    ensures
        match (r, agent_status_of(value@)) {
            (Ok(s), Some(want)) => s == want,
            (Err(m), None) => m@ == "invalid agent status: "@ + value@
                + " (expected idle, working, blocked, done, or unknown)"@,
            _ => false,
        },
{
    if str_eq(value, "idle") {
        Ok(AgentStatus::Idle)
    } else if str_eq(value, "working") {
        Ok(AgentStatus::Working)
    } else if str_eq(value, "blocked") {
        Ok(AgentStatus::Blocked)
    } else if str_eq(value, "done") {
        Ok(AgentStatus::Done)
    } else if str_eq(value, "unknown") {
        Ok(AgentStatus::Unknown)
    } else {
        Err(
            cat3(
                "invalid agent status: ",
                value,
                " (expected idle, working, blocked, done, or unknown)",
            ),
        )
    }
}

/// The state a pane reports of its agent.
#[derive(Debug, Clone, Copy, PartialEq, Eq, Structural)]
pub enum PaneAgentState {
    Idle,
    Working,
    Blocked,
    Unknown,
}

pub open spec fn pane_agent_state_of(value: Seq<char>) -> Option<PaneAgentState> {
    if value == "idle"@ {
        Some(PaneAgentState::Idle)
    } else if value == "working"@ {
        Some(PaneAgentState::Working)
    } else if value == "blocked"@ {
        Some(PaneAgentState::Blocked)
    } else if value == "unknown"@ {
        Some(PaneAgentState::Unknown)
    } else {
        None
    }
}

pub fn parse_pane_agent_state(value: &str) -> (r: Result<PaneAgentState, String>)
    ensures
        match (r, pane_agent_state_of(value@)) {
            (Ok(s), Some(want)) => s == want,
            (Err(m), None) => m@ == "invalid pane agent state: "@ + value@
                + " (expected idle, working, blocked, or unknown)"@,
            _ => false,
        },
{
    if str_eq(value, "idle") {
        Ok(PaneAgentState::Idle)
    } else if str_eq(value, "working") {
        Ok(PaneAgentState::Working)
    } else if str_eq(value, "blocked") {
        Ok(PaneAgentState::Blocked)
    } else if str_eq(value, "unknown") {
        Ok(PaneAgentState::Unknown)
    } else {
        Err(
            cat3(
                "invalid pane agent state: ",
                value,
                " (expected idle, working, blocked, or unknown)",
            ),
        )
    }
}

} // verus!
