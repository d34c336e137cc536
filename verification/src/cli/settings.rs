//! `kvx channel` and `kvx config`: the update channel, and the configuration file.

use crate::cli::render::{complaint, shows, success, Shown};
use crate::cli::tasks::{Task, Turn};
use crate::cli::verbs::{is_help, word_is_help};
use crate::console::Console;
use crate::documents::{
    check_toml, parse_toml, toml_document, toml_entries, toml_has_key,
};
use crate::path::{
    beside, file_name, has_name, law_a_file_beside_is_another_one, path_beside, path_file_name,
    prefix_kind, PrefixKind,
};
use crate::text::{cat2, cat3, cat5, decimal, decimal_text, digit, opt_text, str_eq, texts};
use vstd::prelude::*;

verus! {

broadcast use crate::text::group_texts;

// ---------------------------------------------------------------------------
// channel
// ---------------------------------------------------------------------------

/// The channels updates come from.
#[derive(Debug, Clone, Copy, PartialEq, Eq, Structural)]
pub enum Channel {
    Stable,
    Preview,
}

pub open spec fn channel_name(channel: Channel) -> Seq<char> {
    match channel {
        Channel::Stable => "stable"@,
        Channel::Preview => "preview"@,
    }
}

impl Channel {
    pub fn name(self) -> (r: &'static str)
        ensures
            r@ == channel_name(self),
    {
        match self {
            Channel::Stable => "stable",
            Channel::Preview => "preview",
        }
    }
}

/// The channel that exactly one argument names.
pub open spec fn channel_arg(args: Seq<Seq<char>>) -> Option<Channel> {
    if args.len() != 1 {
        None
    } else if args[0] == "stable"@ {
        Some(Channel::Stable)
    } else if args[0] == "preview"@ {
        Some(Channel::Preview)
    } else {
        None
    }
}

pub fn parse_channel_set_arg(args: &[String]) -> (r: Option<Channel>)
    ensures
        r == channel_arg(texts(args@)),
{
    if args.len() != 1 {
        None
    } else if str_eq(args[0].as_str(), "stable") {
        Some(Channel::Stable)
    } else if str_eq(args[0].as_str(), "preview") {
        Some(Channel::Preview)
    } else {
        None
    }
}

pub const STABLE_ON_WINDOWS: &'static str =
    "stable channel is not available on Windows yet; Windows builds are preview-only";

/// Why a channel cannot be chosen: there is no stable build on Windows, and an
/// installation may have its own reason against previews.
pub open spec fn rejection(
    channel: Channel,
    install: Option<Seq<char>>,
    windows: bool,
) -> Option<Seq<char>> {
    if windows && channel is Stable {
        Some(STABLE_ON_WINDOWS@)
    } else if channel is Preview {
        install
    } else {
        None
    }
}

pub fn channel_set_rejection(
    channel: Channel,
    install_rejection: Option<String>,
    windows: bool,
) -> (r: Option<String>)
    ensures
        opt_text(r) == rejection(channel, opt_text(install_rejection), windows),
{
    match channel {
        Channel::Stable => if windows {
            Some(STABLE_ON_WINDOWS.to_owned())
        } else {
            None
        },
        Channel::Preview => install_rejection,
    }
}

/// What is left to do once the channel is set.
#[derive(Debug, PartialEq, Eq)]
pub enum ChannelSetInstallAction {
    RunSelfUpdate,
    PrintGuidance(String),
}

/// A package manager's own guidance takes the place of an update.
pub fn channel_set_install_action(package_manager_guidance: Option<String>) -> (r:
    ChannelSetInstallAction)
    ensures
        r == (match package_manager_guidance {
            Some(guidance) => ChannelSetInstallAction::PrintGuidance(guidance),
            None => ChannelSetInstallAction::RunSelfUpdate,
        }),
{
    match package_manager_guidance {
        Some(guidance) => ChannelSetInstallAction::PrintGuidance(guidance),
        None => ChannelSetInstallAction::RunSelfUpdate,
    }
}

pub open spec fn channel_help() -> Seq<Seq<char>> {
    seq![
        "kvx channel commands:"@,
        "  kvx channel show                  print the configured update channel"@,
        "  kvx channel set <stable|preview>  choose the update channel"@,
    ]
}

fn print_channel_help(console: &mut Console)
    ensures
        final(console).out_lines() == old(console).out_lines(),
        final(console).err_lines() == old(console).err_lines() + channel_help(),
{
    console.eprint("kvx channel commands:");
    console.eprint("  kvx channel show                  print the configured update channel");
    console.eprint("  kvx channel set <stable|preview>  choose the update channel");
    assert(console.err_lines() =~= old(console).err_lines() + channel_help());
}

/// What `kvx channel` does with its arguments.
pub open spec fn channel_turn(
    args: Seq<Seq<char>>,
    before: Console,
    after: Console,
    turn: Turn,
) -> bool {
    if args.len() > 0 && args[0] == "set"@ {
        match channel_arg(args.skip(1)) {
            Some(channel) => after == before && turn == Turn::Do(Task::ChannelSet(channel)),
            None => turn == Turn::Exit(2) && shows(
                before,
                after,
                2,
                complaint("usage: kvx channel set <stable|preview>"@, 2),
            ),
        }
    } else if args.len() == 1 && args[0] == "show"@ {
        after == before && turn == Turn::Do(Task::ChannelShow)
    } else {
        let code = if args.len() > 0 && is_help(args[0]) {
            0i32
        } else {
            2i32
        };
        turn == Turn::Exit(code) && shows(
            before,
            after,
            code,
            Shown { out: Seq::empty(), err: channel_help(), code },
        )
    }
}

pub fn run_channel_command(args: &[String], console: &mut Console) -> (r: Turn)
    ensures
        channel_turn(texts(args@), *old(console), *final(console), r),
{
    if args.len() > 0 && str_eq(args[0].as_str(), "set") {
        let rest = crate::text::tail_strings(args, 1);
        assert(texts(rest@) =~= texts(args@).skip(1));
        return match parse_channel_set_arg(rest.as_slice()) {
            Some(channel) => Turn::Do(Task::ChannelSet(channel)),
            None => Turn::Exit(console.complain("usage: kvx channel set <stable|preview>", 2)),
        };
    }
    if args.len() == 1 && str_eq(args[0].as_str(), "show") {
        return Turn::Do(Task::ChannelShow);
    }
    let asked = args.len() > 0 && word_is_help(args[0].as_str());
    print_channel_help(console);
    assert(console.out_lines() =~= old(console).out_lines() + Seq::<Seq<char>>::empty());
    if asked {
        Turn::Exit(0)
    } else {
        Turn::Exit(2)
    }
}

/// What becomes of a channel that may be rejected.
pub open spec fn channel_refused(
    channel: Channel,
    install: Option<Seq<char>>,
    windows: bool,
    before: Console,
    after: Console,
    r: Option<i32>,
) -> bool {
    match rejection(channel, install, windows) {
        Some(reason) => r == Some(1i32) && shows(before, after, 1, complaint(reason + "."@, 1)),
        None => r is None && after == before,
    }
}

/// A rejected channel is never written: what its rejection prints, and nothing where
/// it may be set.
pub fn refuse_channel(
    channel: Channel,
    install_rejection: Option<String>,
    windows: bool,
    console: &mut Console,
) -> (r: Option<i32>)
    ensures
        channel_refused(
            channel,
            opt_text(install_rejection),
            windows,
            *old(console),
            *final(console),
            r,
        ),
{
    match channel_set_rejection(channel, install_rejection, windows) {
        Some(reason) => Some(console.complain(cat2(reason.as_str(), ".").as_str(), 1)),
        None => None,
    }
}

/// The complaint about a configuration that is no valid TOML.
pub open spec fn broken_config(path: Seq<char>, error: Seq<char>, remedy: Seq<char>) -> Seq<char> {
    "config file at "@ + path + " is invalid TOML: "@ + error + remedy
}

/// What becomes of a configuration that is to be changed.
pub open spec fn config_checked(
    path: Seq<char>,
    content: Seq<char>,
    before: Console,
    after: Console,
    r: Option<i32>,
) -> bool {
    match toml_document(content) {
        Ok(_) => r is None && after == before,
        Err(e) => r == Some(1i32) && shows(
            before,
            after,
            1,
            complaint(
                broken_config(path, e, ". Fix it before changing the update channel."@),
                1,
            ),
        ),
    }
}

/// Whether a configuration may be changed: only a valid one is.
pub fn check_channel_config(path: &str, content: &str, console: &mut Console) -> (r: Option<i32>)
    ensures
        config_checked(path@, content@, *old(console), *final(console), r),
{
    match check_toml(content) {
        None => None,
        Some(error) => Some(
            console.complain(
                cat5(
                    "config file at ",
                    path,
                    " is invalid TOML: ",
                    error.as_str(),
                    ". Fix it before changing the update channel.",
                ).as_str(),
                1,
            ),
        ),
    }
}

/// What becomes of a configuration that was changed and is to be written.
pub open spec fn update_checked(
    path: Seq<char>,
    updated: Seq<char>,
    before: Console,
    after: Console,
    r: Option<i32>,
) -> bool {
    match toml_document(updated) {
        Ok(_) => r is None && after == before,
        Err(e) => r == Some(1i32) && shows(
            before,
            after,
            1,
            complaint(
                "changing the update channel would make "@ + path + " invalid TOML: "@ + e
                    + "; leaving config unchanged"@,
                1,
            ),
        ),
    }
}

/// Whether a changed configuration may be written: only a valid one is.
pub fn check_channel_update(path: &str, updated: &str, console: &mut Console) -> (r: Option<i32>)
    ensures
        update_checked(path@, updated@, *old(console), *final(console), r),
{
    match check_toml(updated) {
        None => None,
        Some(error) => Some(
            console.complain(
                cat5(
                    "changing the update channel would make ",
                    path,
                    " invalid TOML: ",
                    error.as_str(),
                    "; leaving config unchanged",
                ).as_str(),
                1,
            ),
        ),
    }
}

/// What is told of a channel that was set, and what is left to do.
pub open spec fn written_told(
    channel: Channel,
    path: Seq<char>,
    guidance: Option<String>,
    before: Console,
    after: Console,
    r: ChannelSetInstallAction,
) -> bool {
    &&& r == (match guidance {
        Some(g) => ChannelSetInstallAction::PrintGuidance(g),
        None => ChannelSetInstallAction::RunSelfUpdate,
    })
    &&& after.err_lines() == before.err_lines()
    &&& after.out_lines() == before.out_lines() + seq![
        "Karvex update channel set to "@ + channel_name(channel) + " in "@ + path + "."@,
    ] + (match opt_text(guidance) {
        Some(g) => seq![g],
        None => Seq::empty(),
    })
}

/// Tells that the channel is set, and what is left to do.
pub fn channel_written(
    channel: Channel,
    path: &str,
    guidance: Option<String>,
    console: &mut Console,
) -> (r: ChannelSetInstallAction)
    ensures
        written_told(channel, path@, guidance, *old(console), *final(console), r),
{
    console.print(
        cat5("Karvex update channel set to ", channel.name(), " in ", path, ".").as_str(),
    );
    let action = channel_set_install_action(guidance);
    match &action {
        ChannelSetInstallAction::PrintGuidance(g) => {
            console.print(g.as_str());
        },
        ChannelSetInstallAction::RunSelfUpdate => {},
    }
    assert(console.out_lines() =~= old(console).out_lines() + seq![
        "Karvex update channel set to "@ + channel_name(channel) + " in "@ + path@ + "."@,
    ] + (match opt_text(guidance) {
        Some(g) => seq![g],
        None => Seq::empty(),
    }));
    action
}

/// What is told of an update.
pub open spec fn update_told(
    failure: Option<Seq<char>>,
    before: Console,
    after: Console,
    r: i32,
) -> bool {
    match failure {
        Some(e) => shows(
            before,
            after,
            r,
            Shown {
                out: Seq::empty(),
                err: seq!["update failed: "@ + e, "Run `kvx update` to retry."@],
                code: 1,
            },
        ),
        None => r == 0 && after == before,
    }
}

/// Tells how the update went.
pub fn self_update_done(failure: Option<String>, console: &mut Console) -> (r: i32)
    ensures
        update_told(opt_text(failure), *old(console), *final(console), r),
{
    match failure {
        Some(e) => {
            console.eprint(cat2("update failed: ", e.as_str()).as_str());
            console.eprint("Run `kvx update` to retry.");
            assert(console.err_lines() =~= old(console).err_lines() + seq![
                "update failed: "@ + e@,
                "Run `kvx update` to retry."@,
            ]);
            assert(console.out_lines() =~= old(console).out_lines() + Seq::<Seq<char>>::empty());
            1
        },
        None => 0,
    }
}

// ---------------------------------------------------------------------------
// config
// ---------------------------------------------------------------------------

pub open spec fn config_help() -> Seq<Seq<char>> {
    seq![
        "kvx config commands:"@,
        "  kvx config check  validate config.toml and print diagnostics"@,
        "  kvx config reset-keys  back up config.toml and remove custom keybindings"@,
    ]
}

fn print_config_help(console: &mut Console)
    ensures
        final(console).out_lines() == old(console).out_lines(),
        final(console).err_lines() == old(console).err_lines() + config_help(),
{
    console.eprint("kvx config commands:");
    console.eprint("  kvx config check  validate config.toml and print diagnostics");
    console.eprint("  kvx config reset-keys  back up config.toml and remove custom keybindings");
    assert(console.err_lines() =~= old(console).err_lines() + config_help());
}

/// What `kvx config` does with its arguments.
pub open spec fn config_turn(
    args: Seq<Seq<char>>,
    before: Console,
    after: Console,
    turn: Turn,
) -> bool {
    if args.len() > 0 && args[0] == "check"@ {
        if args.len() == 1 {
            after == before && turn == Turn::Do(Task::ConfigCheck)
        } else {
            let code = if args.len() == 2 && is_help(args[1]) {
                0i32
            } else {
                2i32
            };
            turn == Turn::Exit(code) && shows(
                before,
                after,
                code,
                complaint("usage: kvx config check"@, code),
            )
        }
    } else if args.len() > 0 && args[0] == "reset-keys"@ {
        if args.len() == 1 {
            after == before && turn == Turn::Do(Task::ConfigResetKeys)
        } else {
            turn == Turn::Exit(2) && shows(
                before,
                after,
                2,
                complaint("usage: kvx config reset-keys"@, 2),
            )
        }
    } else {
        let code = if args.len() > 0 && is_help(args[0]) {
            0i32
        } else {
            2i32
        };
        turn == Turn::Exit(code) && shows(
            before,
            after,
            code,
            Shown { out: Seq::empty(), err: config_help(), code },
        )
    }
}

pub fn run_config_command(args: &[String], console: &mut Console) -> (r: Turn)
    ensures
        config_turn(texts(args@), *old(console), *final(console), r),
{
    if args.len() > 0 && str_eq(args[0].as_str(), "check") {
        if args.len() == 1 {
            return Turn::Do(Task::ConfigCheck);
        }
        let code: i32 = if args.len() == 2 && word_is_help(args[1].as_str()) {
            0
        } else {
            2
        };
        return Turn::Exit(console.complain("usage: kvx config check", code));
    }
    if args.len() > 0 && str_eq(args[0].as_str(), "reset-keys") {
        if args.len() == 1 {
            return Turn::Do(Task::ConfigResetKeys);
        }
        return Turn::Exit(console.complain("usage: kvx config reset-keys", 2));
    }
    let asked = args.len() > 0 && word_is_help(args[0].as_str());
    print_config_help(console);
    assert(console.out_lines() =~= old(console).out_lines() + Seq::<Seq<char>>::empty());
    if asked {
        Turn::Exit(0)
    } else {
        Turn::Exit(2)
    }
}

/// What is told of the issues of a configuration.
pub open spec fn diagnostics_told(
    diagnostics: Seq<Seq<char>>,
    before: Console,
    after: Console,
    r: i32,
) -> bool {
    &&& after.err_lines() == before.err_lines()
    &&& diagnostics.len() == 0 ==> r == 0 && after.out_lines() == before.out_lines().push(
        "config: ok"@,
    )
    &&& diagnostics.len() > 0 ==> r == 1 && after.out_lines() == before.out_lines().push(
        "config: issues found"@,
    ) + diagnostics
}

/// Tells what is wrong with the configuration. Any issue fails the command.
pub fn config_check(diagnostics: &Vec<String>, console: &mut Console) -> (r: i32)
    ensures
        diagnostics_told(texts(diagnostics@), *old(console), *final(console), r),
{
    if diagnostics.len() == 0 {
        console.print("config: ok");
        0
    } else {
        console.print("config: issues found");
        console.print_all(diagnostics);
        1
    }
}

/// Where a configuration is kept before its key bindings are taken out: beside it,
/// under its own name with the time behind it.
pub open spec fn backup_path(path: Seq<char>, timestamp: nat, windows: bool) -> Seq<char> {
    let name = if has_name(path, windows) {
        file_name(path, windows)
    } else {
        "config.toml"@
    };
    beside(path, name + (".bak-keybind-v2-"@ + decimal(timestamp)), windows)
}

pub fn key_config_backup_path(path: &str, timestamp: u64, windows: bool) -> (r: String)
    ensures
        r@ == backup_path(path@, timestamp as nat, windows),
{
    proof {
        reveal_strlit(".");
        reveal_strlit("..");
        assert("."@ =~= seq!['.']);
        assert(".."@ =~= seq!['.', '.']);
    }
    let suffix = cat2(".bak-keybind-v2-", decimal_text(timestamp).as_str());
    let own = path_file_name(path, windows);
    let name = if own.as_str().is_empty() || str_eq(own.as_str(), ".") || str_eq(
        own.as_str(),
        "..",
    ) {
        "config.toml".to_owned()
    } else {
        own
    };
    path_beside(path, cat2(name.as_str(), suffix.as_str()).as_str(), windows)
}

/// What is to be done about the key bindings of a configuration.
#[derive(Debug, PartialEq, Eq)]
pub enum ResetKeys {
    /// Nothing; the command is over.
    Exit(i32),
    /// Copy the file to `backup`, then write `updated` to it.
    Rewrite { backup: String, updated: String },
}

/// Whether a configuration names key bindings: `Err` is the complaint about one that
/// cannot be read.
pub open spec fn has_keys(path: Seq<char>, content: Seq<char>) -> Result<bool, Seq<char>> {
    match toml_document(content) {
        Err(e) => Err(
            broken_config(path, e, ". Fix it manually or move it aside to use defaults."@),
        ),
        Ok(value) => match toml_entries(value) {
            None => Err(
                "config file at "@ + path
                    + " is invalid TOML: top-level config must be a table."@,
            ),
            Some(table) => Ok(table.contains_key("keys"@)),
        },
    }
}

/// What is decided about a configuration. `stripped` is the configuration without its
/// key bindings, and nothing where they could not be taken out safely.
pub open spec fn keys_reset(
    path: Seq<char>,
    content: Option<Seq<char>>,
    stripped: Option<Seq<char>>,
    timestamp: nat,
    windows: bool,
    before: Console,
    after: Console,
    r: ResetKeys,
) -> bool {
    match content {
        None => r == ResetKeys::Exit(0) && shows(
            before,
            after,
            0,
            success(
                seq![
                    "No config file found at "@ + path
                        + ". Built-in v2 keybindings already apply."@,
                ],
            ),
        ),
        Some(text) => match has_keys(path, text) {
            Err(e) => r == ResetKeys::Exit(1) && shows(before, after, 1, complaint(e, 1)),
            Ok(false) => r == ResetKeys::Exit(0) && shows(
                before,
                after,
                0,
                success(
                    seq![
                        "No [keys] config found in "@ + path
                            + ". Built-in v2 keybindings already apply."@,
                    ],
                ),
            ),
            Ok(true) => match stripped {
                None => r == ResetKeys::Exit(1) && shows(
                    before,
                    after,
                    1,
                    complaint(
                        "could not safely remove keybinding config from "@ + path
                            + " without rewriting comments; edit the file manually or remove the top-level keys setting."@,
                        1,
                    ),
                ),
                Some(new) => match toml_document(new) {
                    Err(e) => r == ResetKeys::Exit(1) && shows(
                        before,
                        after,
                        1,
                        complaint(
                            "removing keybinding config would make "@ + path + " invalid TOML: "@
                                + e + "; leaving config unchanged"@,
                            1,
                        ),
                    ),
                    Ok(_) => after == before && (r matches ResetKeys::Rewrite { backup, updated }
                        && backup@ == backup_path(path, timestamp, windows) && updated@ == new),
                },
            },
        },
    }
}

fn say(line: String, console: &mut Console) -> (r: i32)
    ensures
        shows(*old(console), *final(console), r, success(seq![line@])),
{
    let mut out: Vec<String> = Vec::new();
    out.push(line);
    assert(texts(out@) =~= seq![line@]);
    console.succeed(&out)
}

pub fn config_reset_keys(
    path: &str,
    content: Option<String>,
    stripped: Option<String>,
    timestamp: u64,
    windows: bool,
    console: &mut Console,
) -> (r: ResetKeys)
    ensures
        keys_reset(
            path@,
            opt_text(content),
            opt_text(stripped),
            timestamp as nat,
            windows,
            *old(console),
            *final(console),
            r,
        ),
{
    let content = match content {
        Some(text) => text,
        None => {
            return ResetKeys::Exit(
                say(
                    cat3(
                        "No config file found at ",
                        path,
                        ". Built-in v2 keybindings already apply.",
                    ),
                    console,
                ),
            );
        },
    };
    let parsed = match parse_toml(content.as_str()) {
        Ok(value) => value,
        Err(error) => {
            return ResetKeys::Exit(
                console.complain(
                    cat5(
                        "config file at ",
                        path,
                        " is invalid TOML: ",
                        error.as_str(),
                        ". Fix it manually or move it aside to use defaults.",
                    ).as_str(),
                    1,
                ),
            );
        },
    };
    match toml_has_key(&parsed, "keys") {
        None => {
            return ResetKeys::Exit(
                console.complain(
                    cat3(
                        "config file at ",
                        path,
                        " is invalid TOML: top-level config must be a table.",
                    ).as_str(),
                    1,
                ),
            );
        },
        Some(false) => {
            return ResetKeys::Exit(
                say(
                    cat3(
                        "No [keys] config found in ",
                        path,
                        ". Built-in v2 keybindings already apply.",
                    ),
                    console,
                ),
            );
        },
        Some(true) => {},
    }
    let updated = match stripped {
        Some(text) => text,
        None => {
            return ResetKeys::Exit(
                console.complain(
                    cat3(
                        "could not safely remove keybinding config from ",
                        path,
                        " without rewriting comments; edit the file manually or remove the top-level keys setting.",
                    ).as_str(),
                    1,
                ),
            );
        },
    };
    match check_toml(updated.as_str()) {
        Some(error) => ResetKeys::Exit(
            console.complain(
                cat5(
                    "removing keybinding config would make ",
                    path,
                    " invalid TOML: ",
                    error.as_str(),
                    "; leaving config unchanged",
                ).as_str(),
                1,
            ),
        ),
        None => ResetKeys::Rewrite {
            backup: key_config_backup_path(path, timestamp, windows),
            updated,
        },
    }
}

/// What is told of key bindings that were taken out.
pub open spec fn removal_told(
    path: Seq<char>,
    backup: Seq<char>,
    before: Console,
    after: Console,
    r: i32,
) -> bool {
    shows(
        before,
        after,
        r,
        success(
            seq![
                "Created backup: "@ + backup,
                "Removed [keys], [keys.indexed], and [[keys.command]] from "@ + path + "."@,
                "Built-in v2 keybindings will apply after Karvex restarts or reloads config."@,
                "If a Karvex server is running, run `kvx server reload-config` to apply this now."@,
                "To restore: cp "@ + backup + " "@ + path,
            ],
        ),
    )
}

/// Tells that the key bindings are gone, and how to get them back.
pub fn config_keys_removed(path: &str, backup: &str, console: &mut Console) -> (r: i32)
    ensures
        removal_told(path@, backup@, *old(console), *final(console), r),
{
    console.print(cat2("Created backup: ", backup).as_str());
    console.print(
        cat3("Removed [keys], [keys.indexed], and [[keys.command]] from ", path, ".").as_str(),
    );
    console.print("Built-in v2 keybindings will apply after Karvex restarts or reloads config.");
    console.print(
        "If a Karvex server is running, run `kvx server reload-config` to apply this now.",
    );
    console.print(crate::text::cat4("To restore: cp ", backup, " ", path).as_str());
    assert(console.out_lines() =~= old(console).out_lines() + seq![
        "Created backup: "@ + backup@,
        "Removed [keys], [keys.indexed], and [[keys.command]] from "@ + path@ + "."@,
        "Built-in v2 keybindings will apply after Karvex restarts or reloads config."@,
        "If a Karvex server is running, run `kvx server reload-config` to apply this now."@,
        "To restore: cp "@ + backup@ + " "@ + path@,
    ]);
    assert(console.err_lines() =~= old(console).err_lines() + Seq::<Seq<char>>::empty());
    0
}

proof fn lemma_digits(n: nat)
    ensures
        decimal(n).len() > 0,
        forall|k: int| 0 <= k < decimal(n).len() ==> '0' <= #[trigger] decimal(n)[k] <= '9',
    decreases n,
{
    if n >= 10 {
        lemma_digits(n / 10);
    }
}

/// A configuration is only rewritten where it was valid, named key bindings, and stays
/// valid without them; and the copy is never the file itself.
pub proof fn law_only_valid_configurations_are_rewritten(
    path: Seq<char>,
    content: Option<Seq<char>>,
    stripped: Option<Seq<char>>,
    timestamp: nat,
    windows: bool,
    before: Console,
    after: Console,
    r: ResetKeys,
)
    requires
        keys_reset(path, content, stripped, timestamp, windows, before, after, r),
        r is Rewrite,
    ensures
        content is Some,
        has_keys(path, content->0) == Ok::<bool, Seq<char>>(true),
        stripped is Some,
        toml_document(stripped->0) is Ok,
        r->updated@ == stripped->0,
        r->backup@ != path,
{
    reveal_strlit(".bak-keybind-v2-");
    reveal_strlit("config.toml");
    let tail = ".bak-keybind-v2-"@ + decimal(timestamp);
    lemma_digits(timestamp);
    assert(decimal(timestamp).last() == digit(timestamp % 10));
    assert(tail.last() == decimal(timestamp).last());
    assert(prefix_kind("config.toml"@ + tail, windows) == PrefixKind::Nothing);
    law_a_file_beside_is_another_one(path, "config.toml"@, tail, windows);
}

} // verus!
