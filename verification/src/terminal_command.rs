//! The command that starts the runtime from a terminal: which name it gets,
//! which files are written for it, and how it is taken away again without
//! touching anything that others put there.

use vstd::prelude::*;

use crate::host::Platform;
use crate::npm::{lossy_form, lossy_text};
use crate::paths::{
    below, below_each, equal_ignoring_case, first_found, first_held, join_each, join_path,
    same_ignoring_case, same_path, same_place, without_trailing_separators, FoundPaths,
};
use crate::shell::posix_quoted;
use crate::text::{cat2, cat4, contains, has_text, occurs_at, same};
use crate::trim::{lines, lines_of, lowered, strip_trailing, trim, trimmed, CharClass};

pub use crate::profiles::{
    configure_shell_targets, fish_config_path, legacy_profile_to_clean, remove_managed_path_block,
    removal_step, resolve_config_dir, shell_path_change, shell_targets, user_path_change,
    user_path_removal, validate_shell_config, validate_terminal_path_removal,
    write_fish_shell_config, write_posix_shell_config, zsh_config_path, FileStep, ObservedConfig,
    PathChange, RecordedConfig, ShellConfigKind, ShellConfigTarget,
};
pub use crate::shell::{
    fish_quote, managed_path_marker_counts, remove_path_block, shell_quote, PATH_BLOCK_END,
    PATH_BLOCK_START, SHIM_MARKER,
};

verus! {

/// The file that starts the runtime for the terminal.
pub const LAUNCHER_NAME: &'static str = "terminal-launcher.mjs";

/// The file that tells the launcher where the runtimes are.
pub const CONFIG_NAME: &'static str = "terminal-runtime.json";

/// The file that records what was installed.
pub const METADATA_NAME: &'static str = "terminal-command.json";

/// The program in [`LAUNCHER_NAME`].
pub const TERMINAL_LAUNCHER: &'static str = r#"import { existsSync, readFileSync } from "node:fs";
import { dirname, delimiter, join } from "node:path";
import { fileURLToPath, pathToFileURL } from "node:url";

const root = dirname(fileURLToPath(import.meta.url));
const config = JSON.parse(readFileSync(join(root, "terminal-runtime.json"), "utf8"));
const requestedCwd = process.env.DSH_DESKTOP_TERMINAL_CWD;
if (requestedCwd) process.chdir(requestedCwd);

let state = {};
try {
  state = JSON.parse(readFileSync(config.statePath, "utf8"));
} catch {}

const installed = state.active ? join(config.runtimesPath, state.active) : undefined;
const candidates = [installed, config.bundledRuntime].filter(Boolean);
const runtime = candidates.find((candidate) =>
  existsSync(join(candidate, "node_modules", "@deepseek-ai", "dsh", "lib", "bin.js")),
);
if (!runtime) {
  console.error("DSH Desktop 找不到可用的 DSH 运行时，请先打开桌面应用。");
  process.exit(1);
}

const cli = join(runtime, "node_modules", "@deepseek-ai", "dsh", "lib", "bin.js");
const runtimeBin = join(runtime, "node_modules", ".bin");
process.env.PATH = [dirname(process.execPath), runtimeBin, process.env.PATH]
  .filter(Boolean)
  .join(delimiter);
process.argv[1] = cli;
await import(pathToFileURL(cli).href);
"#;

/// What [`CONFIG_NAME`] holds.
#[derive(Debug)]
pub struct LauncherConfig {
    pub state_path: String,
    pub runtimes_path: String,
    pub bundled_runtime: String,
}

/// What [`METADATA_NAME`] holds.
#[derive(Debug)]
pub struct InstallMetadata {
    pub command: String,
    pub shim_path: String,
    /// The one profile that earlier versions wrote to.
    pub profile_path: Option<String>,
    pub shell_config_paths: Vec<String>,
    pub path_added: bool,
}

/// What was installed.
#[derive(Debug)]
pub struct TerminalCommandInstall {
    pub command: String,
    pub shim_path: String,
    pub configured_shells: Vec<String>,
}

/// A step of writing the installed command again.
#[derive(Clone, Copy, Debug, PartialEq, Eq, Structural)]
pub enum RefreshStep {
    /// The directory of the launcher is made.
    Directory,
    /// The launcher is written.
    Launcher,
    /// What the launcher is told is written.
    Config,
    /// The command file is written.
    Command,
    Done,
}

/// The command that is written again, and how far that has come.
#[derive(Debug)]
pub struct Refresh {
    pub shim_path: String,
    pub step: RefreshStep,
}

/// What a refresh does next.
#[derive(Debug)]
pub enum RefreshAction {
    MakeDirectory { path: String },
    WriteLauncher { path: String, text: String },
    WriteConfig { path: String, config: LauncherConfig },
    /// The command file is to be written and made executable.
    WriteCommand { path: String, text: String },
    Finish,
}

/// The step after this one: a failed step is the last.
pub open spec fn refresh_next(step: RefreshStep, succeeded: bool) -> RefreshStep {
    if !succeeded {
        RefreshStep::Done
    } else {
        match step {
            RefreshStep::Directory => RefreshStep::Launcher,
            RefreshStep::Launcher => RefreshStep::Config,
            RefreshStep::Config => RefreshStep::Command,
            RefreshStep::Command => RefreshStep::Done,
            RefreshStep::Done => RefreshStep::Done,
        }
    }
}

impl Refresh {
    /// Takes whether the last step succeeded.
    pub fn advance(&mut self, succeeded: bool)
        ensures
            final(self).shim_path == old(self).shim_path,
            final(self).step == refresh_next(old(self).step, succeeded),
    {
        self.step = if !succeeded {
            RefreshStep::Done
        } else {
            match self.step {
                RefreshStep::Directory => RefreshStep::Launcher,
                RefreshStep::Launcher => RefreshStep::Config,
                RefreshStep::Config => RefreshStep::Command,
                RefreshStep::Command => RefreshStep::Done,
                RefreshStep::Done => RefreshStep::Done,
            }
        };
    }
}

/// The step that a refresh has come to after steps with these outcomes.
pub open spec fn refresh_reached(outcomes: Seq<bool>) -> RefreshStep
    decreases outcomes.len(),
{
    if outcomes.len() == 0 {
        RefreshStep::Directory
    } else {
        refresh_next(refresh_reached(outcomes.drop_last()), outcomes.last())
    }
}

/// The command file is written again exactly where the directory was made and both
/// files of the launcher were written, and then once.
pub proof fn law_command_file_is_refreshed_last(outcomes: Seq<bool>)
    ensures
        refresh_reached(outcomes) == RefreshStep::Command <==> outcomes == seq![true, true, true],
        outcomes.len() > 3 ==> refresh_reached(outcomes) == RefreshStep::Done,
        outcomes.contains(false) ==> refresh_reached(outcomes) == RefreshStep::Done,
{
    lemma_refresh_counts(outcomes);
    if outcomes.len() == 3 && !outcomes.contains(false) {
        assert(outcomes.contains(outcomes[0]) && outcomes.contains(outcomes[1])
            && outcomes.contains(outcomes[2]));
        assert(outcomes =~= seq![true, true, true]);
    }
}

proof fn lemma_refresh_counts(outcomes: Seq<bool>)
    ensures
        refresh_reached(outcomes) == (if outcomes.contains(false) || outcomes.len() > 3 {
            RefreshStep::Done
        } else if outcomes.len() == 0 {
            RefreshStep::Directory
        } else if outcomes.len() == 1 {
            RefreshStep::Launcher
        } else if outcomes.len() == 2 {
            RefreshStep::Config
        } else {
            RefreshStep::Command
        }),
    decreases outcomes.len(),
{
    if outcomes.len() > 0 {
        let front = outcomes.drop_last();
        lemma_refresh_counts(front);
        assert(outcomes =~= front.push(outcomes.last()));
        if front.contains(false) {
            let at = choose|at: int| 0 <= at < front.len() && !front[at];
            assert(!outcomes[at]);
        }
        if outcomes.contains(false) && outcomes.last() {
            let at = choose|at: int| 0 <= at < outcomes.len() && !outcomes[at];
            assert(!front[at]);
        }
        if !outcomes.last() {
            assert(outcomes.contains(false));
        }
    }
}

/// Where a command stands on `PATH`.
pub struct CommandResolution {
    pub exists: bool,
    pub path: Option<String>,
}

/// What reading a file gave.
pub enum FileContents {
    Missing,
    /// The file could not be read, for this reason.
    Unreadable(String),
    Text(String),
}

/// The directories and files behind the terminal command.
pub struct TerminalCommandManager {
    pub root: String,
    pub node: String,
    pub bundled_runtime: String,
    pub runtimes: String,
    pub state: String,
    pub platform: Platform,
}

/// Two paths are one to the terminal command. On Windows the case of letters
/// and separators at the end make no difference.
pub open spec fn paths_same(left: Seq<char>, right: Seq<char>, platform: Platform) -> bool {
    if platform.windows() {
        same_ignoring_case(
            strip_trailing(left, CharClass::Separator),
            strip_trailing(right, CharClass::Separator),
        )
    } else {
        same_place(left, right, platform)
    }
}

/// Whether two paths are one.
pub fn paths_equal(left: &str, right: &str, platform: Platform) -> (equal: bool)
    ensures
        equal == paths_same(left@, right@, platform),
{
    if platform.is_windows() {
        equal_ignoring_case(
            without_trailing_separators(left).as_str(),
            without_trailing_separators(right).as_str(),
        )
    } else {
        same_path(left, right, platform)
    }
}

/// The name for the command: one that the application already installed, else
/// `dsh` unless that name is taken.
pub open spec fn command_name(
    managed_command: Option<Seq<char>>,
    dsh_on_path: bool,
    dsh_target_exists: bool,
) -> Seq<char> {
    if managed_command == Some("dsh"@) {
        "dsh"@
    } else if managed_command == Some("dsh-desktop"@) {
        "dsh-desktop"@
    } else if dsh_on_path || dsh_target_exists {
        "dsh-desktop"@
    } else {
        "dsh"@
    }
}

/// Chooses the name for the command.
pub fn choose_command_name(
    managed_command: Option<&str>,
    dsh_on_path: bool,
    dsh_target_exists: bool,
) -> (name: &'static str)
    ensures
        name@ == command_name(
            match managed_command {
                Some(command) => Some(command@),
                None => None,
            },
            dsh_on_path,
            dsh_target_exists,
        ),
{
    if let Some(command) = managed_command {
        if same(command, "dsh") {
            return "dsh";
        }
        if same(command, "dsh-desktop") {
            return "dsh-desktop";
        }
    }
    if dsh_on_path || dsh_target_exists {
        "dsh-desktop"
    } else {
        "dsh"
    }
}

/// The file of a command in the command directory.
pub open spec fn shim_file(bin_dir: Seq<char>, command: Seq<char>, platform: Platform) -> Seq<char> {
    if platform.windows() {
        below(bin_dir, command + ".cmd"@, platform)
    } else {
        below(bin_dir, command, platform)
    }
}

/// The file of a command in the command directory.
pub fn shim_path(bin_dir: &str, command: &str, platform: Platform) -> (path: String)
    ensures
        path@ == shim_file(bin_dir@, command@, platform),
{
    if platform.is_windows() {
        join_path(bin_dir, cat2(command, ".cmd").as_str(), platform)
    } else {
        join_path(bin_dir, command, platform)
    }
}

/// The file was written by the application: it can be read and holds the
/// marker.
pub open spec fn managed_shim(contents: FileContents) -> bool {
    contents matches FileContents::Text(text) && has_text(text@, SHIM_MARKER@)
}

/// Whether a file was written by the application.
pub fn is_managed_shim(contents: &FileContents) -> (yes: bool)
    ensures
        yes == managed_shim(*contents),
{
    match contents {
        FileContents::Text(text) => contains(text.as_str(), SHIM_MARKER),
        _ => false,
    }
}

/// The command file: it starts Node.js with the launcher and hands on all
/// arguments.
pub open spec fn shim_text(root: Seq<char>, node: Seq<char>, platform: Platform) -> Seq<char> {
    if platform.windows() {
        "@echo off\r\nrem "@ + SHIM_MARKER@
            + "\r\nsetlocal\r\nset \"DSH_DESKTOP_TERMINAL_CWD=%CD%\"\r\npushd \""@ + root
            + "\" >nul || exit /b 1\r\n\""@ + node + "\" \""@ + LAUNCHER_NAME@
            + "\" %*\r\nset \"DSH_DESKTOP_EXIT=%ERRORLEVEL%\"\r\npopd >nul\r\nexit /b %DSH_DESKTOP_EXIT%\r\n"@
    } else {
        "#!/bin/sh\n# "@ + SHIM_MARKER@ + "\nexec "@ + posix_quoted(node) + " "@ + posix_quoted(
            below(root, LAUNCHER_NAME@, platform),
        ) + " \"$@\"\n"@
    }
}

/// The command file is recognised as one that the application wrote.
pub proof fn law_shim_is_recognised(root: Seq<char>, node: Seq<char>, platform: Platform)
    ensures
        has_text(shim_text(root, node, platform), SHIM_MARKER@),
{
    let text = shim_text(root, node, platform);
    let at = if platform.windows() {
        "@echo off\r\nrem "@.len() as int
    } else {
        "#!/bin/sh\n# "@.len() as int
    };
    assert(text.subrange(at, at + SHIM_MARKER@.len()) =~= SHIM_MARKER@);
    assert(occurs_at(text, SHIM_MARKER@, at));
}

impl TerminalCommandManager {
    /// The manager for the application data below `app_data_dir`.
    pub fn new(
        app_data_dir: &str,
        node: String,
        bundled_runtime: String,
        runtimes: String,
        state: String,
        platform: Platform,
    ) -> (manager: TerminalCommandManager)
        ensures
            manager.root@ == below(app_data_dir@, "terminal"@, platform),
            manager.node == node,
            manager.bundled_runtime == bundled_runtime,
            manager.runtimes == runtimes,
            manager.state == state,
            manager.platform == platform,
    {
        TerminalCommandManager {
            root: join_path(app_data_dir, "terminal", platform),
            node,
            bundled_runtime,
            runtimes,
            state,
            platform,
        }
    }

    /// The directory that is put on `PATH`.
    pub open spec fn bin(self) -> Seq<char> {
        below(self.root@, "bin"@, self.platform)
    }

    /// The directory that is put on `PATH`.
    pub fn bin_dir(&self) -> (path: String)
        ensures
            path@ == self.bin(),
    {
        join_path(self.root.as_str(), "bin", self.platform)
    }

    /// A file directly below the root of the terminal command.
    pub fn file(&self, name: &str) -> (path: String)
        ensures
            path@ == below(self.root@, name@, self.platform),
    {
        join_path(self.root.as_str(), name, self.platform)
    }

    /// Whether the command is written again when the application starts: where one is
    /// recorded and its file is still one that the application wrote.
    pub fn refresh_if_installed(
        &self,
        metadata: &Option<InstallMetadata>,
        shim: &FileContents,
    ) -> (refresh: Option<Refresh>)
        ensures
            match refresh {
                Some(refresh) => {
                    &&& metadata matches Some(recorded)
                    &&& managed_shim(*shim)
                    &&& refresh.shim_path == recorded.shim_path
                    &&& refresh.step == RefreshStep::Directory
                },
                None => metadata is None || !managed_shim(*shim),
            },
    {
        match metadata {
            Some(recorded) => if is_managed_shim(shim) {
                Some(
                    Refresh { shim_path: recorded.shim_path.clone(), step: RefreshStep::Directory },
                )
            } else {
                None
            },
            None => None,
        }
    }

    /// What a refresh does next: the directory and the files of the launcher come
    /// before the command file.
    pub fn refresh_action(&self, refresh: &Refresh) -> (action: RefreshAction)
        ensures
            match refresh.step {
                RefreshStep::Directory => action matches RefreshAction::MakeDirectory { path }
                    && path@ == self.root@,
                RefreshStep::Launcher => action matches RefreshAction::WriteLauncher { path, text }
                    && path@ == below(self.root@, LAUNCHER_NAME@, self.platform) && text@
                    == TERMINAL_LAUNCHER@,
                RefreshStep::Config => action matches RefreshAction::WriteConfig { path, config }
                    && path@ == below(self.root@, CONFIG_NAME@, self.platform)
                    && config.state_path@ == self.state@ && config.runtimes_path@
                    == self.runtimes@ && config.bundled_runtime@ == self.bundled_runtime@,
                RefreshStep::Command => action matches RefreshAction::WriteCommand { path, text }
                    && path@ == refresh.shim_path@ && text@ == shim_text(
                    self.root@,
                    self.node@,
                    self.platform,
                ),
                RefreshStep::Done => action is Finish,
            },
    {
        match refresh.step {
            RefreshStep::Directory => RefreshAction::MakeDirectory { path: self.root.clone() },
            RefreshStep::Launcher => RefreshAction::WriteLauncher {
                path: self.file(LAUNCHER_NAME),
                text: TERMINAL_LAUNCHER.to_string(),
            },
            RefreshStep::Config => RefreshAction::WriteConfig {
                path: self.file(CONFIG_NAME),
                config: self.launcher_config(),
            },
            RefreshStep::Command => RefreshAction::WriteCommand {
                path: refresh.shim_path.clone(),
                text: self.shim_contents(),
            },
            RefreshStep::Done => RefreshAction::Finish,
        }
    }

    /// The files beside the command file that an installation leaves.
    pub open spec fn recorded(self) -> Seq<Seq<char>> {
        seq![
            below(self.root@, METADATA_NAME@, self.platform),
            below(self.root@, LAUNCHER_NAME@, self.platform),
            below(self.root@, CONFIG_NAME@, self.platform),
        ]
    }

    /// The files beside the command file that an installation leaves, in the order in
    /// which they are deleted: what was installed, the launcher, and its
    /// configuration.
    pub fn recorded_files(&self) -> (paths: Vec<String>)
        ensures
            paths.deep_view() == self.recorded(),
    {
        let mut paths: Vec<String> = Vec::new();
        paths.push(self.file(METADATA_NAME));
        paths.push(self.file(LAUNCHER_NAME));
        paths.push(self.file(CONFIG_NAME));
        assert(paths.deep_view() =~= self.recorded());
        paths
    }

    /// What the launcher is told.
    pub fn launcher_config(&self) -> (config: LauncherConfig)
        ensures
            config.state_path@ == self.state@,
            config.runtimes_path@ == self.runtimes@,
            config.bundled_runtime@ == self.bundled_runtime@,
    {
        LauncherConfig {
            state_path: self.state.clone(),
            runtimes_path: self.runtimes.clone(),
            bundled_runtime: self.bundled_runtime.clone(),
        }
    }

    /// The text of the command file.
    pub fn shim_contents(&self) -> (text: String)
        ensures
            text@ == shim_text(self.root@, self.node@, self.platform),
    {
        if self.platform.is_windows() {
            let mut text = cat4(
                "@echo off\r\nrem ",
                SHIM_MARKER,
                "\r\nsetlocal\r\nset \"DSH_DESKTOP_TERMINAL_CWD=%CD%\"\r\npushd \"",
                self.root.as_str(),
            );
            text.append("\" >nul || exit /b 1\r\n\"");
            text.append(self.node.as_str());
            text.append("\" \"");
            text.append(LAUNCHER_NAME);
            text.append(
                "\" %*\r\nset \"DSH_DESKTOP_EXIT=%ERRORLEVEL%\"\r\npopd >nul\r\nexit /b %DSH_DESKTOP_EXIT%\r\n",
            );
            text
        } else {
            let mut text = cat4(
                "#!/bin/sh\n# ",
                SHIM_MARKER,
                "\nexec ",
                shell_quote(self.node.as_str()).as_str(),
            );
            text.append(" ");
            text.append(shell_quote(self.file(LAUNCHER_NAME).as_str()).as_str());
            text.append(" \"$@\"\n");
            text
        }
    }
}

impl FileContents {
    /// There is a file.
    pub open spec fn present(self) -> bool {
        self !is Missing
    }

    /// Whether there is a file.
    pub fn is_present(&self) -> (yes: bool)
        ensures
            yes == self.present(),
    {
        match self {
            FileContents::Missing => false,
            _ => true,
        }
    }
}

/// The first line that is not blank, without the white space around it.
pub open spec fn first_written_line(list: Seq<Seq<char>>) -> Option<Seq<char>>
    decreases list.len(),
{
    if list.len() == 0 {
        None
    } else if trimmed(list[0]).len() > 0 {
        Some(trimmed(list[0]))
    } else {
        first_written_line(list.drop_first())
    }
}

fn written_line(list: &Vec<String>) -> (line: Option<String>)
    ensures
        line.deep_view() == first_written_line(list.deep_view()),
{
    let ghost all = list.deep_view();
    assert(all.skip(0) =~= all);
    let mut i: usize = 0;
    while i < list.len()
        invariant
            i <= list.len(),
            all == list.deep_view(),
            first_written_line(all) == first_written_line(all.skip(i as int)),
        decreases list.len() - i,
    {
        proof {
            assert(all.skip(i as int)[0] == list[i as int]@);
            assert(all.skip(i as int).drop_first() =~= all.skip(i + 1));
        }
        let line = trim(list[i].as_str());
        if !line.as_str().is_empty() {
            return Some(line);
        }
        i += 1;
    }
    None
}

/// Where a command stands, from what `where.exe` answered: it exists where the
/// program succeeded, at the first path that was printed.
pub fn resolution_from_where(success: bool, stdout: &Vec<u8>) -> (resolution: CommandResolution)
    ensures
        resolution.exists == success,
        resolution.path.deep_view() == if success {
            first_written_line(lines_of(lossy_form(stdout@)))
        } else {
            None
        },
{
    if !success {
        return CommandResolution { exists: false, path: None };
    }
    resolution_from_listing(lossy_text(stdout.as_slice()).as_str())
}

/// Where a command stands, from the paths that were printed.
pub fn resolution_from_listing(listing: &str) -> (resolution: CommandResolution)
    ensures
        resolution.exists,
        resolution.path.deep_view() == first_written_line(lines_of(listing@)),
{
    CommandResolution { exists: true, path: written_line(&lines(listing)) }
}

/// Where a command stands: in the first of the directories of `PATH` in which an
/// executable file of that name was found.
pub fn resolve_command(
    name: &str,
    directories: &Vec<String>,
    executables: &FoundPaths,
    platform: Platform,
) -> (resolution: CommandResolution)
    ensures
        resolution.path.deep_view() == first_held(
            below_each(directories.deep_view(), name@, platform),
            *executables,
        ),
        resolution.exists == (resolution.path is Some),
{
    let path = first_found(&join_each(directories, name, platform), executables);
    CommandResolution { exists: path.is_some(), path }
}

/// What an installation starts from.
pub struct InstallSeen {
    pub metadata: Option<InstallMetadata>,
    /// The command file that the metadata records.
    pub recorded_shim: FileContents,
    /// The file for `dsh` in the command directory.
    pub dsh_target: FileContents,
    /// The file for `dsh-desktop` in the command directory.
    pub desktop_target: FileContents,
    /// Where `dsh` stands on `PATH`.
    pub dsh: CommandResolution,
    /// Where `dsh-desktop` stands on `PATH`.
    pub desktop: CommandResolution,
}

/// Which command is to be written where.
pub struct InstallPlan {
    pub command: String,
    pub target: String,
}

/// What an installation does.
pub struct InstallDecision {
    /// The command file to remove first, whatever the outcome.
    pub remove_first: Option<String>,
    pub outcome: Result<InstallPlan, String>,
}

/// The value of an [`InstallDecision`]: the file to remove first, then the
/// command and its file, or why there is none.
pub struct InstallDecisionView {
    pub remove_first: Option<Seq<char>>,
    pub outcome: Result<(Seq<char>, Seq<char>), Seq<char>>,
}

impl View for InstallDecision {
    type V = InstallDecisionView;

    open spec fn view(&self) -> InstallDecisionView {
        InstallDecisionView {
            remove_first: self.remove_first.deep_view(),
            outcome: match self.outcome {
                Ok(plan) => Ok((plan.command@, plan.target@)),
                Err(reason) => Err(reason@),
            },
        }
    }
}

/// The command resolves to this file.
pub open spec fn resolves_to(
    resolution: CommandResolution,
    path: Seq<char>,
    platform: Platform,
) -> bool {
    resolution.path matches Some(found) && paths_same(found@, path, platform)
}

fn is_at(resolution: &CommandResolution, path: &str, platform: Platform) -> (yes: bool)
    ensures
        yes == resolves_to(*resolution, path@, platform),
{
    match &resolution.path {
        Some(found) => paths_equal(found.as_str(), path, platform),
        None => false,
    }
}

/// The command is not on `PATH`, or it is this file.
pub open spec fn free_for(resolution: CommandResolution, path: Seq<char>, platform: Platform) -> bool {
    !resolution.exists || resolves_to(resolution, path, platform)
}

/// The name that the application already has on this system: the recorded one
/// while its file is the application's own, where `dsh` counts only while no
/// other `dsh` comes first on `PATH`; else `dsh` while the file in the command
/// directory is the application's own.
pub open spec fn adopted_command(seen: InstallSeen, bin_dir: Seq<char>, platform: Platform) -> Option<
    Seq<char>,
> {
    let dsh_path = shim_file(bin_dir, "dsh"@, platform);
    if seen.metadata matches Some(metadata) && managed_shim(seen.recorded_shim) && metadata.command@
        == "dsh"@ && free_for(seen.dsh, metadata.shim_path@, platform) {
        Some("dsh"@)
    } else if seen.metadata matches Some(metadata) && managed_shim(seen.recorded_shim)
        && metadata.command@ == "dsh-desktop"@ {
        Some("dsh-desktop"@)
    } else if managed_shim(seen.dsh_target) && free_for(seen.dsh, dsh_path, platform) {
        Some("dsh"@)
    } else {
        None
    }
}

fn adopt_command(seen: &InstallSeen, bin_dir: &str, platform: Platform) -> (command: Option<
    &'static str,
>)
    ensures
        match command {
            Some(name) => adopted_command(*seen, bin_dir@, platform) == Some(name@),
            None => adopted_command(*seen, bin_dir@, platform) is None,
        },
{
    proof {
        reveal_strlit("dsh");
        reveal_strlit("dsh-desktop");
        assert("dsh"@.len() != "dsh-desktop"@.len());
    }
    if let Some(metadata) = &seen.metadata {
        if is_managed_shim(&seen.recorded_shim) {
            if same(metadata.command.as_str(), "dsh") {
                if !seen.dsh.exists || is_at(&seen.dsh, metadata.shim_path.as_str(), platform) {
                    return Some("dsh");
                }
            } else if same(metadata.command.as_str(), "dsh-desktop") {
                return Some("dsh-desktop");
            }
        }
    }
    let dsh_path = shim_path(bin_dir, "dsh", platform);
    if is_managed_shim(&seen.dsh_target) && (!seen.dsh.exists || is_at(
        &seen.dsh,
        dsh_path.as_str(),
        platform,
    )) {
        return Some("dsh");
    }
    None
}

/// The name that the command gets.
pub open spec fn installed_command(seen: InstallSeen, bin_dir: Seq<char>, platform: Platform) -> Seq<
    char,
> {
    command_name(
        adopted_command(seen, bin_dir, platform),
        seen.dsh.exists,
        seen.dsh_target.present() && !managed_shim(seen.dsh_target),
    )
}

/// What an installation does with what it found. A `dsh` or `dsh-desktop` that
/// is not the application's own keeps its place.
pub open spec fn install_decision(seen: InstallSeen, bin_dir: Seq<char>, platform: Platform) ->
    InstallDecisionView {
    let command = installed_command(seen, bin_dir, platform);
    let target = shim_file(bin_dir, command, platform);
    let dsh_path = shim_file(bin_dir, "dsh"@, platform);
    let desktop = command == "dsh-desktop"@;
    let occupant = if desktop {
        seen.desktop_target
    } else {
        seen.dsh_target
    };
    if desktop && !free_for(seen.desktop, target, platform) {
        InstallDecisionView {
            remove_first: None,
            outcome: Err("终端中已经有另一个 dsh-desktop，DSH Desktop 不会改变它的优先级。"@),
        }
    } else if desktop && seen.dsh_target.present() && !managed_shim(seen.dsh_target) {
        InstallDecisionView {
            remove_first: None,
            outcome: Err(
                dsh_path + " 已存在；加入命令目录会改变它的优先级，因此 DSH Desktop 没有修改 PATH。"@,
            ),
        }
    } else {
        InstallDecisionView {
            remove_first: if desktop && seen.dsh_target.present() {
                Some(dsh_path)
            } else {
                None
            },
            outcome: if occupant.present() && !managed_shim(occupant) {
                Err(target + " 已存在，DSH Desktop 不会覆盖它。请先确认该文件的用途。"@)
            } else {
                Ok((command, target))
            },
        }
    }
}

impl TerminalCommandManager {
    /// Decides which command is installed, from what was found.
    pub fn install(&self, seen: &InstallSeen) -> (decision: InstallDecision)
        ensures
            decision@ == install_decision(*seen, self.bin(), self.platform),
    {
        let platform = self.platform;
        let bin_dir = self.bin_dir();
        let dsh_path = shim_path(bin_dir.as_str(), "dsh", platform);
        let dsh_is_managed = is_managed_shim(&seen.dsh_target);
        let command: &'static str = choose_command_name(
            adopt_command(seen, bin_dir.as_str(), platform),
            seen.dsh.exists,
            seen.dsh_target.is_present() && !dsh_is_managed,
        );
        let target = shim_path(bin_dir.as_str(), command, platform);
        let desktop = same(command, "dsh-desktop");
        if desktop && seen.desktop.exists && !is_at(&seen.desktop, target.as_str(), platform) {
            return InstallDecision {
                remove_first: None,
                outcome: Err(
                    "终端中已经有另一个 dsh-desktop，DSH Desktop 不会改变它的优先级。".to_string(),
                ),
            };
        }
        let mut remove_first: Option<String> = None;
        if desktop && seen.dsh_target.is_present() {
            if !dsh_is_managed {
                return InstallDecision {
                    remove_first: None,
                    outcome: Err(
                        cat2(
                            dsh_path.as_str(),
                            " 已存在；加入命令目录会改变它的优先级，因此 DSH Desktop 没有修改 PATH。",
                        ),
                    ),
                };
            }
            remove_first = Some(dsh_path);
        }
        let occupant = if desktop {
            &seen.desktop_target
        } else {
            &seen.dsh_target
        };
        if occupant.is_present() && !is_managed_shim(occupant) {
            return InstallDecision {
                remove_first,
                outcome: Err(
                    cat2(
                        target.as_str(),
                        " 已存在，DSH Desktop 不会覆盖它。请先确认该文件的用途。",
                    ),
                ),
            };
        }
        InstallDecision {
            remove_first,
            outcome: Ok(InstallPlan { command: command.to_string(), target }),
        }
    }
}

/// The command file of an earlier installation that is removed: the recorded
/// one, where another file takes its place and it is still the application's
/// own.
pub open spec fn superseded(
    metadata: Option<InstallMetadata>,
    shim: FileContents,
    target: Seq<char>,
    platform: Platform,
) -> Option<Seq<char>> {
    match metadata {
        Some(previous) if !same_place(previous.shim_path@, target, platform) && managed_shim(
            shim,
        ) => Some(previous.shim_path@),
        _ => None,
    }
}

/// The command file of an earlier installation that is removed.
pub fn superseded_shim(
    metadata: &Option<InstallMetadata>,
    shim: &FileContents,
    target: &str,
    platform: Platform,
) -> (path: Option<String>)
    ensures
        path.deep_view() == superseded(*metadata, *shim, target@, platform),
{
    match metadata {
        Some(previous) => if !same_path(previous.shim_path.as_str(), target, platform)
            && is_managed_shim(shim) {
            Some(previous.shim_path.clone())
        } else {
            None
        },
        None => None,
    }
}

/// The profile that an earlier version wrote to, where it put the command
/// directory on `PATH`.
pub fn legacy_profile(metadata: &Option<InstallMetadata>) -> (profile: Option<String>)
    ensures
        profile == (match metadata {
            Some(previous) if previous.path_added => previous.profile_path,
            _ => None,
        }),
{
    match metadata {
        Some(previous) => if previous.path_added {
            previous.profile_path.clone()
        } else {
            None
        },
        None => None,
    }
}

/// Whether an earlier installation put the command directory on `PATH`.
pub fn path_owned_before(metadata: &Option<InstallMetadata>) -> (owned: bool)
    ensures
        owned == (metadata matches Some(previous) && previous.path_added),
{
    match metadata {
        Some(previous) => previous.path_added,
        None => false,
    }
}

/// What is recorded and reported once the command is installed.
pub fn installed(plan: InstallPlan, change: PathChange) -> (result: (
    InstallMetadata,
    TerminalCommandInstall,
))
    ensures
        result.0.command@ == plan.command@,
        result.0.shim_path@ == plan.target@,
        result.0.profile_path is None,
        result.0.shell_config_paths == change.config_paths,
        result.0.path_added == change.added,
        result.1.command@ == plan.command@,
        result.1.shim_path@ == plan.target@,
        result.1.configured_shells == change.configured_shells,
{
    let metadata = InstallMetadata {
        command: plan.command.clone(),
        shim_path: plan.target.clone(),
        profile_path: None,
        shell_config_paths: change.config_paths,
        path_added: change.added,
    };
    let report = TerminalCommandInstall {
        command: plan.command,
        shim_path: plan.target,
        configured_shells: change.configured_shells,
    };
    (metadata, report)
}

/// What taking the command away does.
pub struct UninstallPlan {
    /// The start-up files to clean, where the application put the command
    /// directory on `PATH`.
    pub clean: Option<Vec<String>>,
    /// The command file to delete after that.
    pub shim: Option<String>,
    /// The other files to delete then, in this order, those that are there.
    pub files: Vec<String>,
    pub command: String,
}

/// The start-up files that an installation recorded, with the profile of an
/// earlier version last.
pub open spec fn recorded_configs(metadata: InstallMetadata) -> Seq<Seq<char>> {
    match metadata.profile_path {
        Some(profile) => metadata.shell_config_paths.deep_view().push(profile@),
        None => metadata.shell_config_paths.deep_view(),
    }
}

/// Why the command cannot be taken away: there is none, or its file is not the
/// application's own any more.
pub open spec fn uninstall_refusal(
    metadata: Option<InstallMetadata>,
    shim: FileContents,
) -> Option<Seq<char>> {
    match metadata {
        None => Some("没有由 DSH Desktop 安装的终端命令。"@),
        Some(installed) => if shim.present() && !managed_shim(shim) {
            Some(installed.shim_path@ + " 已被修改，DSH Desktop 不会删除它。"@)
        } else {
            None
        },
    }
}

impl TerminalCommandManager {
    /// Decides how the command is taken away. `shim` is the recorded command file.
    pub fn uninstall(&self, metadata: Option<InstallMetadata>, shim: &FileContents) -> (plan: Result<
        UninstallPlan,
        String,
    >)
        ensures
            match uninstall_refusal(metadata, *shim) {
                Some(reason) => plan matches Err(message) && message@ == reason,
                None => {
                    &&& plan matches Ok(plan)
                    &&& metadata matches Some(installed)
                    &&& plan.command == installed.command
                    &&& match plan.clean {
                        Some(paths) => installed.path_added && paths.deep_view() == recorded_configs(
                            installed,
                        ),
                        None => !installed.path_added,
                    }
                    &&& plan.shim.deep_view() == if shim.present() {
                        Some(installed.shim_path@)
                    } else {
                        None
                    }
                    &&& plan.files.deep_view() == self.recorded()
                },
            },
    {
        match metadata {
            None => Err("没有由 DSH Desktop 安装的终端命令。".to_string()),
            Some(installed) => {
                let ghost recorded = recorded_configs(installed);
                if shim.is_present() && !is_managed_shim(shim) {
                    return Err(
                        cat2(installed.shim_path.as_str(), " 已被修改，DSH Desktop 不会删除它。"),
                    );
                }
                let mut paths = installed.shell_config_paths;
                let ghost before = paths.deep_view();
                if let Some(profile) = installed.profile_path {
                    let ghost text = profile@;
                    paths.push(profile);
                    assert(paths.deep_view() =~= before.push(text));
                }
                assert(paths.deep_view() == recorded);
                Ok(
                    UninstallPlan {
                        clean: if installed.path_added {
                            Some(paths)
                        } else {
                            None
                        },
                        shim: if shim.is_present() {
                            Some(installed.shim_path)
                        } else {
                            None
                        },
                        files: self.recorded_files(),
                        command: installed.command,
                    },
                )
            },
        }
    }
}

proof fn lemma_command_names()
    ensures
        "dsh"@ != "dsh-desktop"@,
{
    reveal_strlit("dsh");
    reveal_strlit("dsh-desktop");
    assert("dsh"@.len() != "dsh-desktop"@.len());
}

/// An existing `dsh` keeps its place: the application takes the name only where
/// no `dsh` is on `PATH`, or where the one that is found is its own.
pub proof fn law_foreign_dsh_keeps_its_place(
    seen: InstallSeen,
    bin_dir: Seq<char>,
    platform: Platform,
)
    requires
        install_decision(seen, bin_dir, platform).outcome is Ok,
        ({
            let plan = install_decision(seen, bin_dir, platform).outcome->Ok_0;
            plan.0 == "dsh"@
        }),
        seen.dsh.exists,
    ensures
        ({
            ||| managed_shim(seen.recorded_shim) && seen.metadata is Some && resolves_to(
                seen.dsh,
                seen.metadata->0.shim_path@,
                platform,
            )
            ||| managed_shim(seen.dsh_target) && resolves_to(
                seen.dsh,
                shim_file(bin_dir, "dsh"@, platform),
                platform,
            )
        }),
{
    lemma_command_names();
}

/// No file of someone else is overwritten or removed: the file that is written
/// is new or the application's own, and so is the one that is removed first.
pub proof fn law_only_own_files_are_replaced(
    seen: InstallSeen,
    bin_dir: Seq<char>,
    platform: Platform,
)
    ensures
        ({
            let decision = install_decision(seen, bin_dir, platform);
            &&& decision.remove_first is Some ==> managed_shim(seen.dsh_target)
            &&& decision.outcome matches Ok(plan) ==> {
                ||| plan.1 == shim_file(bin_dir, "dsh"@, platform) && (!seen.dsh_target.present()
                    || managed_shim(seen.dsh_target))
                ||| plan.1 == shim_file(bin_dir, "dsh-desktop"@, platform) && (
                !seen.desktop_target.present() || managed_shim(seen.desktop_target))
            }
        }),
{
}

/// The command is called `dsh` or `dsh-desktop`, and its file has its name.
pub proof fn law_command_is_one_of_two(seen: InstallSeen, bin_dir: Seq<char>, platform: Platform)
    ensures
        install_decision(seen, bin_dir, platform).outcome matches Ok(plan) ==> (plan.0 == "dsh"@
            || plan.0 == "dsh-desktop"@) && plan.1 == shim_file(bin_dir, plan.0, platform),
{
}

/// Installing again keeps the name: where the last installation is recorded, its
/// file is the one that was written, and the command is found there or not at
/// all, the same command is installed at the same place and nothing is removed.
pub proof fn law_second_install_keeps_the_name(
    seen: InstallSeen,
    root: Seq<char>,
    node: Seq<char>,
    bin_dir: Seq<char>,
    text: String,
    platform: Platform,
)
    requires
        seen.metadata matches Some(metadata) && metadata.shim_path@ == shim_file(
            bin_dir,
            metadata.command@,
            platform,
        ) && (metadata.command@ == "dsh"@ && seen.dsh_target == FileContents::Text(text)
            && free_for(seen.dsh, metadata.shim_path@, platform) || metadata.command@
            == "dsh-desktop"@ && seen.desktop_target == FileContents::Text(text)
            && !seen.dsh_target.present() && free_for(
            seen.desktop,
            metadata.shim_path@,
            platform,
        )),
        seen.recorded_shim == FileContents::Text(text),
        text@ == shim_text(root, node, platform),
    ensures
        ({
            let metadata = seen.metadata->0;
            let decision = install_decision(seen, bin_dir, platform);
            &&& decision.remove_first is None
            &&& decision.outcome == Ok::<(Seq<char>, Seq<char>), Seq<char>>(
                (metadata.command@, metadata.shim_path@),
            )
        }),
{
    lemma_command_names();
    law_shim_is_recognised(root, node, platform);
}

/// What was installed can be taken away: the recorded command file that the
/// application wrote is deleted and not refused.
pub proof fn law_written_shim_is_removed(
    metadata: InstallMetadata,
    root: Seq<char>,
    node: Seq<char>,
    text: String,
    platform: Platform,
)
    requires
        text@ == shim_text(root, node, platform),
    ensures
        uninstall_refusal(Some(metadata), FileContents::Text(text)) is None,
{
    law_shim_is_recognised(root, node, platform);
}

/// The command keeps the name that the application already has. Without one it is
/// called `dsh`, unless another `dsh` has that name, on `PATH` or at its place.
pub proof fn law_command_gets_a_free_name(
    managed: Option<Seq<char>>,
    dsh_on_path: bool,
    dsh_target_exists: bool,
)
    ensures
        ({
            let name = command_name(managed, dsh_on_path, dsh_target_exists);
            &&& managed == Some("dsh"@) || managed == Some("dsh-desktop"@) ==> managed == Some(name)
            &&& managed != Some("dsh"@) && managed != Some("dsh-desktop"@) && !dsh_on_path
                && !dsh_target_exists ==> name == "dsh"@
            &&& managed != Some("dsh"@) && (dsh_on_path || dsh_target_exists) ==> name
                == "dsh-desktop"@
        }),
{
    lemma_command_names();
}

/// The file of a command lies in the command directory and has its name, on Windows with
/// the ending of a batch file.
pub proof fn law_command_file_has_the_name_of_the_command(
    bin_dir: Seq<char>,
    command: Seq<char>,
    platform: Platform,
)
    ensures
        platform != Platform::Windows ==> shim_file(bin_dir, command, platform) == below(
            bin_dir,
            command,
            platform,
        ),
        platform == Platform::Windows ==> shim_file(bin_dir, command, platform) == below(
            bin_dir,
            command + ".cmd"@,
            platform,
        ),
{
}

/// A file is the application's own exactly where it can be read and holds the marker,
/// and it is there unless it is missing.
pub proof fn law_own_file_holds_the_marker(contents: FileContents)
    ensures
        managed_shim(contents) <==> (contents matches FileContents::Text(text) && has_text(
            text@,
            "Managed by DSH Desktop"@,
        )),
        contents.present() <==> !(contents is Missing),
{
}

/// The command file runs the launcher with Node.js and hands on every argument.
pub proof fn law_command_file_runs_the_launcher(
    root: Seq<char>,
    node: Seq<char>,
    platform: Platform,
)
    ensures
        platform != Platform::Windows ==> shim_text(root, node, platform) == "#!/bin/sh\n# "@
            + "Managed by DSH Desktop"@ + "\nexec "@ + posix_quoted(node) + " "@ + posix_quoted(
            below(root, "terminal-launcher.mjs"@, platform),
        ) + " \"$@\"\n"@,
        platform == Platform::Windows ==> has_text(
            shim_text(root, node, platform),
            "\""@ + node + "\" \""@ + "terminal-launcher.mjs"@ + "\" %*\r\n"@,
        ) && has_text(shim_text(root, node, platform), "pushd \""@ + root + "\" >nul"@) && has_text(
            shim_text(root, node, platform),
            "exit /b %DSH_DESKTOP_EXIT%\r\n"@,
        ) && has_text(
            shim_text(root, node, platform),
            "set \"DSH_DESKTOP_TERMINAL_CWD=%CD%\"\r\n"@,
        ),
{
    if platform == Platform::Windows {
        let text = shim_text(root, node, platform);
        let a = "@echo off\r\nrem "@ + SHIM_MARKER@;
        let b = "\r\nsetlocal\r\nset \"DSH_DESKTOP_TERMINAL_CWD=%CD%\"\r\npushd \""@;
        let c = "\" >nul || exit /b 1\r\n\""@;
        let d = "\" \""@ + LAUNCHER_NAME@;
        let e = "\" %*\r\nset \"DSH_DESKTOP_EXIT=%ERRORLEVEL%\"\r\npopd >nul\r\nexit /b %DSH_DESKTOP_EXIT%\r\n"@;
        reveal_strlit("\r\nsetlocal\r\nset \"DSH_DESKTOP_TERMINAL_CWD=%CD%\"\r\npushd \"");
        reveal_strlit("\r\nsetlocal\r\n");
        reveal_strlit("set \"DSH_DESKTOP_TERMINAL_CWD=%CD%\"\r\n");
        reveal_strlit("pushd \"");
        reveal_strlit("\" >nul || exit /b 1\r\n\"");
        reveal_strlit("\" >nul");
        reveal_strlit(" || exit /b 1\r\n");
        reveal_strlit("\"");
        reveal_strlit("\" %*\r\n");
        reveal_strlit(
            "\" %*\r\nset \"DSH_DESKTOP_EXIT=%ERRORLEVEL%\"\r\npopd >nul\r\nexit /b %DSH_DESKTOP_EXIT%\r\n",
        );
        reveal_strlit("set \"DSH_DESKTOP_EXIT=%ERRORLEVEL%\"\r\npopd >nul\r\n");
        reveal_strlit("exit /b %DSH_DESKTOP_EXIT%\r\n");
        assert(b =~= "\r\nsetlocal\r\n"@ + "set \"DSH_DESKTOP_TERMINAL_CWD=%CD%\"\r\n"@
            + "pushd \""@);
        assert(c =~= "\" >nul"@ + " || exit /b 1\r\n"@ + "\""@);
        assert(e =~= "\" %*\r\n"@ + "set \"DSH_DESKTOP_EXIT=%ERRORLEVEL%\"\r\npopd >nul\r\n"@
            + "exit /b %DSH_DESKTOP_EXIT%\r\n"@);
        let w1 = "set \"DSH_DESKTOP_TERMINAL_CWD=%CD%\"\r\n"@;
        let w2 = "pushd \""@ + root + "\" >nul"@;
        let w3 = "\""@ + node + "\" \""@ + "terminal-launcher.mjs"@ + "\" %*\r\n"@;
        let w4 = "exit /b %DSH_DESKTOP_EXIT%\r\n"@;
        let p1 = a + "\r\nsetlocal\r\n"@;
        let p2 = p1 + w1;
        let p3 = p2 + w2 + " || exit /b 1\r\n"@;
        let p4 = p3 + w3 + "set \"DSH_DESKTOP_EXIT=%ERRORLEVEL%\"\r\npopd >nul\r\n"@;
        assert(text =~= a + b + root + c + node + d + e);
        assert(text =~= p4 + w4);
        assert(text.subrange(p1.len() as int, p1.len() as int + w1.len()) =~= w1);
        assert(occurs_at(text, w1, p1.len() as int));
        assert(text.subrange(p2.len() as int, p2.len() as int + w2.len()) =~= w2);
        assert(occurs_at(text, w2, p2.len() as int));
        assert(text.subrange(p3.len() as int, p3.len() as int + w3.len()) =~= w3);
        assert(occurs_at(text, w3, p3.len() as int));
        assert(text.subrange(p4.len() as int, p4.len() as int + w4.len()) =~= w4);
        assert(occurs_at(text, w4, p4.len() as int));
    }
}

/// A path is the same as itself, whichever comes first. On Windows the case of ASCII
/// letters and separators at the end make no difference.
pub proof fn law_same_path(left: Seq<char>, right: Seq<char>, platform: Platform)
    ensures
        paths_same(left, left, platform),
        paths_same(left, right, platform) <==> paths_same(right, left, platform),
        platform == Platform::Windows ==> (paths_same(left, right, platform) <==> lowered(
            strip_trailing(left, CharClass::Separator),
        ) == lowered(strip_trailing(right, CharClass::Separator))),
        platform != Platform::Windows ==> (paths_same(left, right, platform) <==> same_place(
            left,
            right,
            platform,
        )),
{
}

/// A command that is not on `PATH` is free, and so is one that stands where it is
/// looked for; a path that was not found resolves to nothing.
pub proof fn law_free_command(
    resolution: CommandResolution,
    path: Seq<char>,
    platform: Platform,
)
    ensures
        !resolution.exists ==> free_for(resolution, path, platform),
        resolution.exists ==> (free_for(resolution, path, platform) <==> resolution.path is Some
            && paths_same(resolution.path->0@, path, platform)),
        resolves_to(resolution, path, platform) <==> resolution.path is Some && paths_same(
            resolution.path->0@,
            path,
            platform,
        ),
{
}

/// The application keeps a name only while its own file has it: the recorded one, where
/// `dsh` counts only while no other `dsh` comes first, or else the file for `dsh` at its
/// place.
pub proof fn law_name_is_kept_while_its_file_is_ours(
    seen: InstallSeen,
    bin_dir: Seq<char>,
    platform: Platform,
)
    ensures
        ({
            let recorded = seen.metadata is Some && managed_shim(seen.recorded_shim);
            let dsh_recorded = recorded && seen.metadata->0.command@ == "dsh"@ && free_for(
                seen.dsh,
                seen.metadata->0.shim_path@,
                platform,
            );
            let desktop_recorded = recorded && seen.metadata->0.command@ == "dsh-desktop"@;
            let dsh_in_place = managed_shim(seen.dsh_target) && free_for(
                seen.dsh,
                shim_file(bin_dir, "dsh"@, platform),
                platform,
            );
            let kept = adopted_command(seen, bin_dir, platform);
            &&& kept == Some("dsh"@) <==> dsh_recorded || (!desktop_recorded && dsh_in_place)
            &&& kept == Some("dsh-desktop"@) <==> desktop_recorded
            &&& kept is None <==> !dsh_recorded && !desktop_recorded && !dsh_in_place
        }),
{
    lemma_command_names();
}

/// Where nothing is installed and no `dsh` is on `PATH` or in the command directory, the
/// command is called `dsh` and written there; nothing is removed.
pub proof fn law_first_installation_is_called_dsh(
    seen: InstallSeen,
    bin_dir: Seq<char>,
    platform: Platform,
)
    requires
        seen.metadata is None,
        !seen.dsh.exists,
        seen.dsh_target is Missing,
    ensures
        install_decision(seen, bin_dir, platform) == (InstallDecisionView {
            remove_first: None,
            outcome: Ok(("dsh"@, shim_file(bin_dir, "dsh"@, platform))),
        }),
{
    lemma_command_names();
}

/// Where another `dsh` is on `PATH`, and nothing of the application's, the command is
/// called `dsh-desktop` and written where nothing is in its way.
pub proof fn law_second_choice_is_dsh_desktop(
    seen: InstallSeen,
    bin_dir: Seq<char>,
    platform: Platform,
)
    requires
        seen.metadata is None,
        seen.dsh.exists,
        seen.dsh_target is Missing,
        seen.desktop_target is Missing,
        !seen.desktop.exists,
    ensures
        install_decision(seen, bin_dir, platform) == (InstallDecisionView {
            remove_first: None,
            outcome: Ok(("dsh-desktop"@, shim_file(bin_dir, "dsh-desktop"@, platform))),
        }),
{
    lemma_command_names();
}

/// An installation is refused exactly where a file of someone else has the place of the
/// command, where another `dsh-desktop` comes first on `PATH`, or where the command
/// directory would bring a foreign `dsh` forward; the reason says which. Only the
/// application's own `dsh` is removed, where the command takes the other name.
pub proof fn law_installation_gives_way_to_others(
    seen: InstallSeen,
    bin_dir: Seq<char>,
    platform: Platform,
)
    ensures
        ({
            let decision = install_decision(seen, bin_dir, platform);
            let name = command_name(
                adopted_command(seen, bin_dir, platform),
                seen.dsh.exists,
                !(seen.dsh_target is Missing) && !managed_shim(seen.dsh_target),
            );
            let desktop = name == "dsh-desktop"@;
            let target = shim_file(bin_dir, name, platform);
            let dsh_path = shim_file(bin_dir, "dsh"@, platform);
            let foreign_dsh = !(seen.dsh_target is Missing) && !managed_shim(seen.dsh_target);
            let foreign_desktop = !(seen.desktop_target is Missing) && !managed_shim(
                seen.desktop_target,
            );
            let shadowed = desktop && !free_for(seen.desktop, target, platform);
            let taken = if desktop {
                foreign_desktop
            } else {
                foreign_dsh
            };
            &&& shadowed ==> decision == (InstallDecisionView {
                remove_first: None,
                outcome: Err("终端中已经有另一个 dsh-desktop，DSH Desktop 不会改变它的优先级。"@),
            })
            &&& !shadowed && desktop && foreign_dsh ==> decision == (InstallDecisionView {
                remove_first: None,
                outcome: Err(
                    dsh_path + " 已存在；加入命令目录会改变它的优先级，因此 DSH Desktop 没有修改 PATH。"@,
                ),
            })
            &&& !shadowed && !(desktop && foreign_dsh) && taken ==> decision.outcome == Err::<
                (Seq<char>, Seq<char>),
                Seq<char>,
            >(target + " 已存在，DSH Desktop 不会覆盖它。请先确认该文件的用途。"@)
            &&& !shadowed && !(desktop && foreign_dsh) && !taken ==> decision.outcome == Ok::<
                (Seq<char>, Seq<char>),
                Seq<char>,
            >((name, target))
            &&& decision.remove_first is Some <==> !shadowed && desktop && managed_shim(
                seen.dsh_target,
            )
            &&& decision.remove_first is Some ==> decision.remove_first == Some(dsh_path)
        }),
{
    lemma_command_names();
}

/// The command file of an earlier installation goes exactly where another takes its
/// place and it is still the application's own.
pub proof fn law_earlier_command_file_goes(
    metadata: Option<InstallMetadata>,
    shim: FileContents,
    target: Seq<char>,
    platform: Platform,
)
    ensures
        superseded(metadata, shim, target, platform) is Some <==> metadata is Some && managed_shim(
            shim,
        ) && !same_place(metadata->0.shim_path@, target, platform),
        superseded(metadata, shim, target, platform) matches Some(path) ==> path
            == metadata->0.shim_path@,
{
}

/// The first line that is not blank is the first of those that were printed.
pub proof fn law_first_written_line(list: Seq<Seq<char>>)
    ensures
        match first_written_line(list) {
            Some(line) => line.len() > 0 && exists|at: int|
                0 <= at < list.len() && trimmed(#[trigger] list[at]) == line && forall|i: int|
                    0 <= i < at ==> trimmed(#[trigger] list[i]).len() == 0,
            None => forall|i: int| 0 <= i < list.len() ==> trimmed(#[trigger] list[i]).len() == 0,
        },
    decreases list.len(),
{
    if list.len() > 0 {
        let rest = list.drop_first();
        law_first_written_line(rest);
        if trimmed(list[0]).len() == 0 {
            match first_written_line(rest) {
                Some(line) => {
                    let at = choose|at: int|
                        0 <= at < rest.len() && trimmed(#[trigger] rest[at]) == line && forall|
                            i: int,
                        |
                            0 <= i < at ==> trimmed(#[trigger] rest[i]).len() == 0;
                    assert(list[at + 1] == rest[at]);
                    assert forall|i: int| 0 <= i < at + 1 implies trimmed(#[trigger] list[i]).len()
                        == 0 by {
                        if i > 0 {
                            assert(rest[i - 1] == list[i]);
                        }
                    }
                },
                None => {
                    assert forall|i: int| 0 <= i < list.len() implies trimmed(
                        #[trigger] list[i],
                    ).len() == 0 by {
                        if i > 0 {
                            assert(rest[i - 1] == list[i]);
                        }
                    }
                },
            }
        } else {
            assert(trimmed(list[0]) == first_written_line(list)->0);
        }
    }
}

/// Every start-up file that an installation recorded is cleaned, the profile of an
/// earlier version too.
pub proof fn law_every_recorded_file_is_cleaned(metadata: InstallMetadata)
    ensures
        metadata.shell_config_paths.deep_view().is_prefix_of(recorded_configs(metadata)),
        metadata.profile_path matches Some(profile) ==> recorded_configs(metadata)
            == metadata.shell_config_paths.deep_view().push(profile@),
        metadata.profile_path is None ==> recorded_configs(metadata)
            == metadata.shell_config_paths.deep_view(),
{
    let all = recorded_configs(metadata);
    let listed = metadata.shell_config_paths.deep_view();
    assert(all.take(listed.len() as int) =~= listed);
}

/// The command can be taken away exactly where one was installed and its file is the
/// application's own or gone; otherwise the reason says which is wrong.
pub proof fn law_uninstalling_is_refused_for_a_reason(
    metadata: Option<InstallMetadata>,
    shim: FileContents,
)
    ensures
        ({
            let refusal = uninstall_refusal(metadata, shim);
            &&& refusal is None <==> metadata is Some && (shim is Missing || managed_shim(shim))
            &&& metadata is None ==> refusal == Some("没有由 DSH Desktop 安装的终端命令。"@)
            &&& metadata is Some && refusal is Some ==> refusal == Some(
                metadata->0.shim_path@ + " 已被修改，DSH Desktop 不会删除它。"@,
            )
        }),
{
}

/// The command directory and the files of the command lie below its root.
pub proof fn law_files_of_the_command(manager: TerminalCommandManager)
    ensures
        manager.bin() == below(manager.root@, "bin"@, manager.platform),
        manager.recorded() == seq![
            below(manager.root@, "terminal-command.json"@, manager.platform),
            below(manager.root@, "terminal-launcher.mjs"@, manager.platform),
            below(manager.root@, "terminal-runtime.json"@, manager.platform),
        ],
{
}

/// The directory is made before the launcher is written, and that before what it is
/// told; nothing follows a step that failed.
pub proof fn law_refresh_goes_step_by_step(step: RefreshStep)
    ensures
        refresh_reached(Seq::empty()) == RefreshStep::Directory,
        refresh_next(RefreshStep::Directory, true) == RefreshStep::Launcher,
        refresh_next(RefreshStep::Launcher, true) == RefreshStep::Config,
        refresh_next(RefreshStep::Config, true) == RefreshStep::Command,
        refresh_next(RefreshStep::Command, true) == RefreshStep::Done,
        refresh_next(step, false) == RefreshStep::Done,
{
}

/// What contracts say of a [`InstallDecision`] they say of every part of it.
pub proof fn law_value_of_install_decision(value: InstallDecision)
    ensures
        value@.remove_first == value.remove_first.deep_view(),
        value@.outcome == (match value.outcome {
                Ok(plan) => Ok((plan.command@, plan.target@)),
                Err(reason) => Err(reason@),
            }),
{
}

/// The launcher reads what it is told beside itself, works in the directory of the user,
/// takes the active version before the one that came with the application, and runs it.
pub proof fn law_launcher_runs_the_active_version()
    ensures
        has_text(
            TERMINAL_LAUNCHER@,
            "const config = JSON.parse(readFileSync(join(root, \"terminal-runtime.json\"), \"utf8\"));\n"@,
        ),
        has_text(
            TERMINAL_LAUNCHER@,
            "if (requestedCwd) process.chdir(requestedCwd);\n"@,
        ),
        has_text(
            TERMINAL_LAUNCHER@,
            "state = JSON.parse(readFileSync(config.statePath, \"utf8\"));\n"@,
        ),
        has_text(
            TERMINAL_LAUNCHER@,
            "const installed = state.active ? join(config.runtimesPath, state.active) : undefined;\nconst candidates = [installed, config.bundledRuntime].filter(Boolean);\n"@,
        ),
        has_text(
            TERMINAL_LAUNCHER@,
            "process.argv[1] = cli;\nawait import(pathToFileURL(cli).href);\n"@,
        ),
{
    reveal_strlit(r#"import { existsSync, readFileSync } from "node:fs";
import { dirname, delimiter, join } from "node:path";
import { fileURLToPath, pathToFileURL } from "node:url";

const root = dirname(fileURLToPath(import.meta.url));
const config = JSON.parse(readFileSync(join(root, "terminal-runtime.json"), "utf8"));
const requestedCwd = process.env.DSH_DESKTOP_TERMINAL_CWD;
if (requestedCwd) process.chdir(requestedCwd);

let state = {};
try {
  state = JSON.parse(readFileSync(config.statePath, "utf8"));
} catch {}

const installed = state.active ? join(config.runtimesPath, state.active) : undefined;
const candidates = [installed, config.bundledRuntime].filter(Boolean);
const runtime = candidates.find((candidate) =>
  existsSync(join(candidate, "node_modules", "@deepseek-ai", "dsh", "lib", "bin.js")),
);
if (!runtime) {
  console.error("DSH Desktop 找不到可用的 DSH 运行时，请先打开桌面应用。");
  process.exit(1);
}

const cli = join(runtime, "node_modules", "@deepseek-ai", "dsh", "lib", "bin.js");
const runtimeBin = join(runtime, "node_modules", ".bin");
process.env.PATH = [dirname(process.execPath), runtimeBin, process.env.PATH]
  .filter(Boolean)
  .join(delimiter);
process.argv[1] = cli;
await import(pathToFileURL(cli).href);
"#);
    reveal_strlit("const config = JSON.parse(readFileSync(join(root, \"terminal-runtime.json\"), \"utf8\"));\n");
    let part = "const config = JSON.parse(readFileSync(join(root, \"terminal-runtime.json\"), \"utf8\"));\n"@;
    assert(TERMINAL_LAUNCHER@.subrange(218, 304) =~= part);
    assert(occurs_at(TERMINAL_LAUNCHER@, part, 218));
    reveal_strlit("if (requestedCwd) process.chdir(requestedCwd);\n");
    let part = "if (requestedCwd) process.chdir(requestedCwd);\n"@;
    assert(TERMINAL_LAUNCHER@.subrange(363, 410) =~= part);
    assert(occurs_at(TERMINAL_LAUNCHER@, part, 363));
    reveal_strlit("state = JSON.parse(readFileSync(config.statePath, \"utf8\"));\n");
    let part = "state = JSON.parse(readFileSync(config.statePath, \"utf8\"));\n"@;
    assert(TERMINAL_LAUNCHER@.subrange(435, 495) =~= part);
    assert(occurs_at(TERMINAL_LAUNCHER@, part, 435));
    reveal_strlit("const installed = state.active ? join(config.runtimesPath, state.active) : undefined;\nconst candidates = [installed, config.bundledRuntime].filter(Boolean);\n");
    let part = "const installed = state.active ? join(config.runtimesPath, state.active) : undefined;\nconst candidates = [installed, config.bundledRuntime].filter(Boolean);\n"@;
    assert(TERMINAL_LAUNCHER@.subrange(507, 664) =~= part);
    assert(occurs_at(TERMINAL_LAUNCHER@, part, 507));
    reveal_strlit("process.argv[1] = cli;\nawait import(pathToFileURL(cli).href);\n");
    let part = "process.argv[1] = cli;\nawait import(pathToFileURL(cli).href);\n"@;
    assert(TERMINAL_LAUNCHER@.subrange(1153, 1215) =~= part);
    assert(occurs_at(TERMINAL_LAUNCHER@, part, 1153));
}

} // verus!
