//! The runtime that the user has, or that is installed for the user with their
//! own npm: how it is found or installed, and how it is started.

use vstd::prelude::*;

use crate::command::{CommandPlan, CommandPlanView};
use crate::host::{directory_opener, log_directory_opener, Platform};
use crate::node_path::{node_compatible_path, node_form};
use crate::paths::{below, join_path, parent, parent_of};
use crate::schedule::{due, is_due};
use crate::system_tools::{
    dsh_of, global_dsh_command, paths_equal, paths_same, runtime_error_text, update_prefix,
    update_prefix_for_command, user_runtime_error, UserToolchain, UserToolchainView,
};
use crate::text::{cat2, cat4, texts};
use crate::version::{debug_form, debug_text, fault_of_named, named_fault};

pub use crate::launch::{parse_ready_url, remember_stderr_line, with_stderr_tail};
pub use crate::npm::{parse_npm_publish_time, parse_npm_version};
pub use crate::runtime::{StartupInfo, StartupInfoView};
pub use crate::schedule::FAILED_RETRY_SECS;
pub use crate::version::{npm_supports_allow_scripts, supported_node_version, version_is_newer};

verus! {

/// The seconds that a runtime has to announce its address.
pub const START_TIMEOUT_SECS: u64 = 30;

/// The seconds between the start of the application and the first check.
pub const UPDATE_DELAY_SECS: u64 = 60;

/// The seconds between two checks that succeeded.
pub const UPDATE_INTERVAL_SECS: u64 = 86400;

/// What is kept on disk between two runs.
#[derive(Clone, Copy, Debug, PartialEq, Eq, Structural)]
pub struct RuntimeState {
    pub last_update_attempt: Option<u64>,
    pub last_successful_check: Option<u64>,
}

impl Default for RuntimeState {
    /// No check was ever made.
    fn default() -> (state: RuntimeState)
        ensures
            state.last_update_attempt is None,
            state.last_successful_check is None,
    {
        RuntimeState { last_update_attempt: None, last_successful_check: None }
    }
}

/// A check is due: a day after the last one that succeeded, and an hour after the
/// last attempt.
pub open spec fn check_due(state: RuntimeState, now: u64) -> bool {
    due(state.last_successful_check, state.last_update_attempt, now, UPDATE_INTERVAL_SECS)
}

/// Whether a check is due.
pub fn update_is_due(state: &RuntimeState, now: u64) -> (yes: bool)
    ensures
        yes == check_due(*state, now),
{
    is_due(state.last_successful_check, state.last_update_attempt, now, UPDATE_INTERVAL_SECS)
}

/// How far an update has come.
#[derive(Clone, Copy, Debug, PartialEq, Eq, Structural)]
pub enum RuntimeUpdatePhase {
    Idle,
    Checking,
    Current,
    Available,
    Installing,
    Verifying,
    Ready,
    Error,
}

impl Default for RuntimeUpdatePhase {
    fn default() -> (phase: RuntimeUpdatePhase)
        ensures
            phase == RuntimeUpdatePhase::Idle,
    {
        RuntimeUpdatePhase::Idle
    }
}

/// What the user sees of an update.
#[derive(Debug)]
pub struct RuntimeUpdateSnapshot {
    pub phase: RuntimeUpdatePhase,
    pub target_version: Option<String>,
    pub detail: Option<String>,
}

/// The value of a [`RuntimeUpdateSnapshot`].
#[verifier::ext_equal]
pub struct RuntimeUpdateSnapshotView {
    pub phase: RuntimeUpdatePhase,
    pub target_version: Option<Seq<char>>,
    pub detail: Option<Seq<char>>,
}

impl View for RuntimeUpdateSnapshot {
    type V = RuntimeUpdateSnapshotView;

    open spec fn view(&self) -> RuntimeUpdateSnapshotView {
        RuntimeUpdateSnapshotView {
            phase: self.phase,
            target_version: self.target_version.deep_view(),
            detail: self.detail.deep_view(),
        }
    }
}

/// A status.
pub open spec fn update_status(
    phase: RuntimeUpdatePhase,
    target_version: Option<Seq<char>>,
    detail: Option<Seq<char>>,
) -> RuntimeUpdateSnapshotView {
    RuntimeUpdateSnapshotView { phase, target_version, detail }
}

impl Default for RuntimeUpdateSnapshot {
    fn default() -> (snapshot: RuntimeUpdateSnapshot)
        ensures
            snapshot@ == update_status(RuntimeUpdatePhase::Idle, None, None),
    {
        RuntimeUpdateSnapshot {
            phase: RuntimeUpdatePhase::Idle,
            target_version: None,
            detail: None,
        }
    }
}

impl Clone for RuntimeUpdateSnapshot {
    fn clone(&self) -> (copy: RuntimeUpdateSnapshot)
        ensures
            copy@ == self@,
    {
        RuntimeUpdateSnapshot {
            phase: self.phase,
            target_version: self.target_version.clone(),
            detail: self.detail.clone(),
        }
    }
}

impl RuntimeUpdateSnapshot {
    /// What is shown where the state of the updates cannot be read.
    pub fn unreadable() -> (snapshot: RuntimeUpdateSnapshot)
        ensures
            snapshot@ == update_status(
                RuntimeUpdatePhase::Error,
                None,
                Some("无法读取 DSH 更新状态"@),
            ),
    {
        RuntimeUpdateSnapshot {
            phase: RuntimeUpdatePhase::Error,
            target_version: None,
            detail: Some("无法读取 DSH 更新状态".to_string()),
        }
    }
}

/// What the user sees of the runtime.
#[derive(Debug)]
pub struct RuntimeSnapshot {
    pub current_version: String,
    pub pending_version: Option<String>,
    pub node_version: String,
    pub npm_version: String,
    pub update: RuntimeUpdateSnapshot,
}

/// The value of a [`RuntimeSnapshot`].
#[verifier::ext_equal]
pub struct RuntimeSnapshotView {
    pub current_version: Seq<char>,
    pub pending_version: Option<Seq<char>>,
    pub node_version: Seq<char>,
    pub npm_version: Seq<char>,
    pub update: RuntimeUpdateSnapshotView,
}

impl View for RuntimeSnapshot {
    type V = RuntimeSnapshotView;

    open spec fn view(&self) -> RuntimeSnapshotView {
        RuntimeSnapshotView {
            current_version: self.current_version@,
            pending_version: self.pending_version.deep_view(),
            node_version: self.node_version@,
            npm_version: self.npm_version@,
            update: self.update@,
        }
    }
}

/// A runtime that can be used.
#[derive(Debug)]
pub struct RuntimeInstallation {
    pub toolchain: UserToolchain,
    pub bin_dir: String,
    pub dsh_command: String,
    pub dsh_version: String,
    /// Where an update goes; `None` where it is not known how the runtime was
    /// installed.
    pub update_prefix: Option<String>,
}

/// The value of a [`RuntimeInstallation`].
#[verifier::ext_equal]
pub struct RuntimeInstallationView {
    pub toolchain: UserToolchainView,
    pub bin_dir: Seq<char>,
    pub dsh_command: Seq<char>,
    pub dsh_version: Seq<char>,
    pub update_prefix: Option<Seq<char>>,
}

impl View for RuntimeInstallation {
    type V = RuntimeInstallationView;

    open spec fn view(&self) -> RuntimeInstallationView {
        RuntimeInstallationView {
            toolchain: self.toolchain@,
            bin_dir: self.bin_dir@,
            dsh_command: self.dsh_command@,
            dsh_version: self.dsh_version@,
            update_prefix: self.update_prefix.deep_view(),
        }
    }
}

impl Clone for RuntimeInstallation {
    fn clone(&self) -> (copy: RuntimeInstallation)
        ensures
            copy@ == self@,
    {
        RuntimeInstallation {
            toolchain: self.toolchain.clone(),
            bin_dir: self.bin_dir.clone(),
            dsh_command: self.dsh_command.clone(),
            dsh_version: self.dsh_version.clone(),
            update_prefix: self.update_prefix.clone(),
        }
    }
}

/// The value of an installation, or of the error in its place.
pub open spec fn installation_view(result: Result<RuntimeInstallation, String>) -> Result<
    RuntimeInstallationView,
    Seq<char>,
> {
    match result {
        Ok(installation) => Ok(installation@),
        Err(reason) => Err(reason@),
    }
}

/// The version that a command named. `fault` says why what it printed is no
/// version.
pub open spec fn dsh_release(
    dsh_command: Seq<char>,
    executable: bool,
    printed: Result<Seq<char>, Seq<char>>,
    fault: Option<Seq<char>>,
) -> Result<Seq<char>, Seq<char>> {
    if !executable {
        Err("DSH 命令不可执行："@ + dsh_command)
    } else {
        match (printed, fault) {
            (Err(reason), _) => Err(reason),
            (Ok(text), Some(error)) => Err(
                "DSH 返回了无效版本 "@ + debug_form(text) + "："@ + error,
            ),
            (Ok(text), None) => Ok(text),
        }
    }
}

/// The version that a command named.
pub fn dsh_version_from(
    dsh_command: &str,
    executable: bool,
    printed: Result<String, String>,
    fault: Option<String>,
) -> (version: Result<String, String>)
    ensures
        texts(version) == dsh_release(
            dsh_command@,
            executable,
            texts(printed),
            fault.deep_view(),
        ),
{
    if !executable {
        return Err(cat2("DSH 命令不可执行：", dsh_command));
    }
    let text = printed?;
    match fault {
        None => Ok(text),
        Some(error) => Err(
            cat4(
                "DSH 返回了无效版本 ",
                debug_text(text.as_str()).as_str(),
                "：",
                error.as_str(),
            ),
        ),
    }
}

/// Reads the version that a command named, from what it printed.
pub fn read_dsh_version(dsh_command: &str, executable: bool, printed: Result<String, String>) -> (
    version: Result<String, String>)
    ensures
        texts(version) == dsh_release(
            dsh_command@,
            executable,
            texts(printed),
            named_fault(texts(printed)),
        ),
{
    let fault = fault_of_named(&printed);
    dsh_version_from(dsh_command, executable, printed, fault)
}

/// The installation behind a command that named its version.
pub open spec fn installed_at(
    toolchain: UserToolchainView,
    dsh_command: Seq<char>,
    prefix: Option<Seq<char>>,
    version: Result<Seq<char>, Seq<char>>,
    platform: Platform,
) -> Result<RuntimeInstallationView, Seq<char>> {
    match (parent_of(dsh_command, platform), version) {
        (None, _) => Err("DSH 命令没有父目录："@ + dsh_command),
        (Some(_), Err(reason)) => Err(reason),
        (Some(bin_dir), Ok(dsh_version)) => Ok(
            RuntimeInstallationView {
                toolchain,
                bin_dir,
                dsh_command,
                dsh_version,
                update_prefix: prefix,
            },
        ),
    }
}

/// The installation behind a command. `version` is what asking it for its version
/// gave.
pub fn installation_from_command(
    toolchain: UserToolchain,
    dsh_command: String,
    prefix: Option<String>,
    version: Result<String, String>,
    platform: Platform,
) -> (installation: Result<RuntimeInstallation, String>)
    ensures
        installation_view(installation) == installed_at(
            toolchain@,
            dsh_command@,
            prefix.deep_view(),
            texts(version),
            platform,
        ),
{
    let bin_dir = match parent(dsh_command.as_str(), platform) {
        Some(directory) => directory,
        None => {
            return Err(cat2("DSH 命令没有父目录：", dsh_command.as_str()));
        },
    };
    let dsh_version = version?;
    Ok(RuntimeInstallation { toolchain, bin_dir, dsh_command, dsh_version, update_prefix: prefix })
}

/// Where things are.
#[derive(Debug)]
pub struct Paths {
    pub state: String,
    pub logs: String,
    pub staging: String,
    pub smoke: String,
}

/// The value of a [`Paths`].
#[verifier::ext_equal]
pub struct PathsView {
    pub state: Seq<char>,
    pub logs: Seq<char>,
    pub staging: Seq<char>,
    pub smoke: Seq<char>,
}

impl View for Paths {
    type V = PathsView;

    open spec fn view(&self) -> PathsView {
        PathsView {
            state: self.state@,
            logs: self.logs@,
            staging: self.staging@,
            smoke: self.smoke@,
        }
    }
}

/// Where things are below the application data.
pub open spec fn layout(app_data_dir: Seq<char>, platform: Platform) -> PathsView {
    PathsView {
        state: below(app_data_dir, "runtime-state.json"@, platform),
        logs: below(app_data_dir, "logs"@, platform),
        staging: below(app_data_dir, "runtime-staging"@, platform),
        smoke: below(app_data_dir, "runtime-smoke"@, platform),
    }
}

/// The runtime of the user.
pub struct RuntimeManager {
    pub paths: Paths,
    pub platform: Platform,
    pub state: RuntimeState,
    pub installation: Option<RuntimeInstallation>,
    pub startup: Option<StartupInfo>,
    pub update_status: RuntimeUpdateSnapshot,
    pub update_scheduled: bool,
    pub update_running: bool,
    pub shutting_down: bool,
}

/// The part of a [`RuntimeManager`] that changes.
#[verifier::ext_equal]
pub struct RuntimeManagerView {
    pub state: RuntimeState,
    pub installation: Option<RuntimeInstallationView>,
    pub startup: Option<StartupInfoView>,
    pub update_status: RuntimeUpdateSnapshotView,
    pub update_scheduled: bool,
    pub update_running: bool,
    pub shutting_down: bool,
}

impl View for RuntimeManager {
    type V = RuntimeManagerView;

    open spec fn view(&self) -> RuntimeManagerView {
        RuntimeManagerView {
            state: self.state,
            installation: match self.installation {
                Some(installation) => Some(installation@),
                None => None,
            },
            startup: match self.startup {
                Some(info) => Some(info@),
                None => None,
            },
            update_status: self.update_status@,
            update_scheduled: self.update_scheduled,
            update_running: self.update_running,
            shutting_down: self.shutting_down,
        }
    }
}

/// What was found of the runtime on the user's system.
pub struct DshSearch {
    pub toolchain: UserToolchain,
    /// The command on `PATH`.
    pub dsh_command: Option<String>,
    /// Where the application installs for the user.
    pub desktop_prefix: String,
    /// Whether the command there is executable.
    pub managed_executable: bool,
}

/// Where an installation that is being looked at comes from.
pub enum Origin {
    /// The user's `PATH`.
    Found,
    /// The application installed it, and the terminal is set up for it next.
    Managed,
}

/// How far the search for a runtime has come.
pub enum EnsureStage {
    Start,
    /// The tools and the command are being searched.
    Searching,
    /// npm is being asked where it installs for all.
    ReadingPrefix { toolchain: UserToolchain, dsh_command: String, desktop_prefix: String },
    /// The command is being asked for its version.
    Inspecting { dsh_command: String, origin: Origin },
    /// npm is being asked for the newest version.
    QueryingLatest { toolchain: UserToolchain, prefix: String },
    /// The runtime is being installed.
    Installing { toolchain: UserToolchain, prefix: String },
    /// The terminal is being set up.
    Configuring(RuntimeInstallation),
    Done,
}

/// The value of an [`EnsureStage`].
pub enum EnsureStageView {
    Start,
    Searching,
    ReadingPrefix { toolchain: UserToolchainView, dsh_command: Seq<char>, desktop_prefix: Seq<char> },
    Inspecting { dsh_command: Seq<char>, origin: Origin },
    QueryingLatest { toolchain: UserToolchainView, prefix: Seq<char> },
    Installing { toolchain: UserToolchainView, prefix: Seq<char> },
    Configuring(RuntimeInstallationView),
    Done,
}

impl View for EnsureStage {
    type V = EnsureStageView;

    open spec fn view(&self) -> EnsureStageView {
        match self {
            EnsureStage::Start => EnsureStageView::Start,
            EnsureStage::Searching => EnsureStageView::Searching,
            EnsureStage::ReadingPrefix { toolchain, dsh_command, desktop_prefix } =>
                EnsureStageView::ReadingPrefix {
                toolchain: toolchain@,
                dsh_command: dsh_command@,
                desktop_prefix: desktop_prefix@,
            },
            EnsureStage::Inspecting { dsh_command, origin } => EnsureStageView::Inspecting {
                dsh_command: dsh_command@,
                origin: *origin,
            },
            EnsureStage::QueryingLatest { toolchain, prefix } => EnsureStageView::QueryingLatest {
                toolchain: toolchain@,
                prefix: prefix@,
            },
            EnsureStage::Installing { toolchain, prefix } => EnsureStageView::Installing {
                toolchain: toolchain@,
                prefix: prefix@,
            },
            EnsureStage::Configuring(installation) => EnsureStageView::Configuring(installation@),
            EnsureStage::Done => EnsureStageView::Done,
        }
    }
}

/// What happened outside.
pub enum EnsureEvent {
    /// The search may begin; whether the command that is known is executable.
    Begin { known_executable: bool },
    /// The tools were searched.
    Searched(Result<DshSearch, String>),
    /// npm named the place where it installs for all, or did not.
    Prefix(Option<String>),
    /// The command was asked for its version.
    Inspected(Result<RuntimeInstallation, String>),
    /// npm was asked for the newest version.
    Latest(Result<String, String>),
    /// The runtime was installed.
    Installed(Result<(), String>),
    /// The terminal was set up.
    Configured(Result<(), String>),
}

/// What is to be done outside.
pub enum EnsureAction {
    Search,
    /// npm is to be asked where it installs for all.
    ReadPrefix(UserToolchain),
    /// The command is to be asked for its version.
    Inspect { toolchain: UserToolchain, dsh_command: String, update_prefix: Option<String> },
    /// npm is to be asked for the newest version.
    QueryLatest(UserToolchain),
    /// The version is to be installed to the prefix.
    Install { toolchain: UserToolchain, prefix: String, version: String },
    /// The terminal is to be set up for the commands of the installation.
    ConfigureTerminal(RuntimeInstallation),
    Finish(Result<RuntimeInstallation, String>),
    /// The event did not belong to the stage.
    Ignore,
}

/// The value of an [`EnsureAction`].
#[verifier::ext_equal]
pub enum EnsureActionView {
    Search,
    ReadPrefix(UserToolchainView),
    Inspect {
        toolchain: UserToolchainView,
        dsh_command: Seq<char>,
        update_prefix: Option<Seq<char>>,
    },
    QueryLatest(UserToolchainView),
    Install { toolchain: UserToolchainView, prefix: Seq<char>, version: Seq<char> },
    ConfigureTerminal(RuntimeInstallationView),
    Finish(Result<RuntimeInstallationView, Seq<char>>),
    Ignore,
}

impl View for EnsureAction {
    type V = EnsureActionView;

    open spec fn view(&self) -> EnsureActionView {
        match self {
            EnsureAction::Search => EnsureActionView::Search,
            EnsureAction::ReadPrefix(toolchain) => EnsureActionView::ReadPrefix(toolchain@),
            EnsureAction::Inspect {
                toolchain,
                dsh_command,
                update_prefix,
            } => EnsureActionView::Inspect {
                toolchain: toolchain@,
                dsh_command: dsh_command@,
                update_prefix: update_prefix.deep_view(),
            },
            EnsureAction::QueryLatest(toolchain) => EnsureActionView::QueryLatest(toolchain@),
            EnsureAction::Install { toolchain, prefix, version } => EnsureActionView::Install {
                toolchain: toolchain@,
                prefix: prefix@,
                version: version@,
            },
            EnsureAction::ConfigureTerminal(installation) =>
                EnsureActionView::ConfigureTerminal(installation@),
            EnsureAction::Finish(result) => EnsureActionView::Finish(installation_view(*result)),
            EnsureAction::Ignore => EnsureActionView::Ignore,
        }
    }
}

/// The search is over.
pub open spec fn ensured(
    manager: RuntimeManagerView,
    result: Result<RuntimeInstallationView, Seq<char>>,
) -> (RuntimeManagerView, EnsureStageView, EnsureActionView) {
    (manager, EnsureStageView::Done, EnsureActionView::Finish(result))
}

/// What follows the search for the tools. A command on the user's `PATH` comes
/// first, then the one that the application installed; where there is neither,
/// the newest version is installed.
pub open spec fn after_search(
    manager: RuntimeManagerView,
    search: DshSearch,
    platform: Platform,
) -> (RuntimeManagerView, EnsureStageView, EnsureActionView) {
    let managed = dsh_of(search.desktop_prefix@, platform);
    match search.dsh_command {
        Some(command) => if paths_same(command@, managed, platform) {
            (
                manager,
                EnsureStageView::Inspecting { dsh_command: command@, origin: Origin::Found },
                EnsureActionView::Inspect {
                    toolchain: search.toolchain@,
                    dsh_command: command@,
                    update_prefix: update_prefix(command@, search.desktop_prefix@, None, platform),
                },
            )
        } else {
            (
                manager,
                EnsureStageView::ReadingPrefix {
                    toolchain: search.toolchain@,
                    dsh_command: command@,
                    desktop_prefix: search.desktop_prefix@,
                },
                EnsureActionView::ReadPrefix(search.toolchain@),
            )
        },
        None => if search.managed_executable {
            (
                manager,
                EnsureStageView::Inspecting { dsh_command: managed, origin: Origin::Managed },
                EnsureActionView::Inspect {
                    toolchain: search.toolchain@,
                    dsh_command: managed,
                    update_prefix: Some(search.desktop_prefix@),
                },
            )
        } else {
            (
                manager,
                EnsureStageView::QueryingLatest {
                    toolchain: search.toolchain@,
                    prefix: search.desktop_prefix@,
                },
                EnsureActionView::QueryLatest(search.toolchain@),
            )
        },
    }
}

/// What follows an event. An event that does not belong to the stage changes
/// nothing.
pub open spec fn ensure_step(
    manager: RuntimeManagerView,
    platform: Platform,
    stage: EnsureStageView,
    event: EnsureEvent,
) -> (RuntimeManagerView, EnsureStageView, EnsureActionView) {
    let ignored = (manager, stage, EnsureActionView::Ignore);
    match event {
        EnsureEvent::Begin { known_executable } => if stage is Start {
            match manager.installation {
                Some(installation) if known_executable => ensured(manager, Ok(installation)),
                _ => (manager, EnsureStageView::Searching, EnsureActionView::Search),
            }
        } else {
            ignored
        },
        EnsureEvent::Searched(result) => if stage is Searching {
            match result {
                Err(reason) => ensured(manager, Err(reason@)),
                Ok(search) => after_search(manager, search, platform),
            }
        } else {
            ignored
        },
        EnsureEvent::Prefix(npm_prefix) => match stage {
            EnsureStageView::ReadingPrefix { toolchain, dsh_command, desktop_prefix } => (
                manager,
                EnsureStageView::Inspecting { dsh_command, origin: Origin::Found },
                EnsureActionView::Inspect {
                    toolchain,
                    dsh_command,
                    update_prefix: update_prefix(
                        dsh_command,
                        desktop_prefix,
                        npm_prefix.deep_view(),
                        platform,
                    ),
                },
            ),
            _ => ignored,
        },
        EnsureEvent::Inspected(result) => match stage {
            EnsureStageView::Inspecting { dsh_command, origin: Origin::Found } => match result {
                Err(reason) => ensured(
                    manager,
                    Err("检测到 DSH "@ + dsh_command + "，但无法使用："@ + reason@),
                ),
                Ok(installation) => ensured(
                    RuntimeManagerView { installation: Some(installation@), ..manager },
                    Ok(installation@),
                ),
            },
            EnsureStageView::Inspecting { dsh_command, origin: Origin::Managed } => match result {
                Err(reason) => ensured(manager, Err(reason@)),
                Ok(installation) => (
                    manager,
                    EnsureStageView::Configuring(installation@),
                    EnsureActionView::ConfigureTerminal(installation@),
                ),
            },
            _ => ignored,
        },
        EnsureEvent::Latest(result) => match stage {
            EnsureStageView::QueryingLatest { toolchain, prefix } => match result {
                Err(reason) => ensured(manager, Err(reason@)),
                Ok(version) => (
                    RuntimeManagerView {
                        update_status: update_status(
                            RuntimeUpdatePhase::Installing,
                            Some(version@),
                            Some("正在准备 DSH "@ + version@),
                        ),
                        ..manager
                    },
                    EnsureStageView::Installing { toolchain, prefix },
                    EnsureActionView::Install { toolchain, prefix, version: version@ },
                ),
            },
            _ => ignored,
        },
        EnsureEvent::Installed(result) => match stage {
            EnsureStageView::Installing { toolchain, prefix } => match result {
                Err(reason) => ensured(
                    manager,
                    Err(runtime_error_text(reason@, platform) + " 详细信息已写入日志。"@),
                ),
                Ok(()) => (
                    manager,
                    EnsureStageView::Inspecting {
                        dsh_command: dsh_of(prefix, platform),
                        origin: Origin::Managed,
                    },
                    EnsureActionView::Inspect {
                        toolchain,
                        dsh_command: dsh_of(prefix, platform),
                        update_prefix: Some(prefix),
                    },
                ),
            },
            _ => ignored,
        },
        EnsureEvent::Configured(result) => match stage {
            EnsureStageView::Configuring(installation) => match result {
                Err(reason) => ensured(manager, Err(reason@)),
                Ok(()) => ensured(
                    RuntimeManagerView { installation: Some(installation), ..manager },
                    Ok(installation),
                ),
            },
            _ => ignored,
        },
    }
}

/// How a start goes on.
pub enum StartDecision {
    /// The runtime runs already.
    Running(StartupInfo),
    /// A runtime is to be found or installed, and then started.
    Ensure,
}

impl RuntimeManager {
    /// Nothing that stays fixed after the set-up differs.
    pub open spec fn same_setup(self, other: RuntimeManager) -> bool {
        self.paths == other.paths && self.platform == other.platform
    }

    /// The manager as the set-up leaves it.
    pub open spec fn is_initial(
        self,
        app_data_dir: Seq<char>,
        saved: Option<RuntimeState>,
        platform: Platform,
    ) -> bool {
        &&& self.paths@ == layout(app_data_dir, platform)
        &&& self.platform == platform
        &&& self@ == (RuntimeManagerView {
            state: match saved {
                Some(state) => state,
                None => RuntimeState { last_update_attempt: None, last_successful_check: None },
            },
            installation: None,
            startup: None,
            update_status: update_status(RuntimeUpdatePhase::Idle, None, None),
            update_scheduled: false,
            update_running: false,
            shutting_down: false,
        })
    }

    /// The runtime for the application data below a directory, which is brought
    /// into the form that Node.js takes, with what an earlier run left.
    pub fn new(app_data_dir: &str, saved: Option<RuntimeState>, platform: Platform) -> (manager:
        RuntimeManager)
        ensures
            exists|directory: Seq<char>|
                node_form(app_data_dir@, directory, platform) && #[trigger] manager.is_initial(
                    directory,
                    saved,
                    platform,
                ),
    {
        let directory = node_compatible_path(app_data_dir, platform);
        RuntimeManager::set_up(directory.as_str(), saved, platform)
    }

    /// The runtime for the application data below a directory in the form that
    /// Node.js takes.
    pub fn set_up(directory: &str, saved: Option<RuntimeState>, platform: Platform) -> (manager:
        RuntimeManager)
        ensures
            manager.is_initial(directory@, saved, platform),
    {
        let state = match saved {
            Some(state) => state,
            None => RuntimeState::default(),
        };
        RuntimeManager {
            paths: Paths {
                state: join_path(directory, "runtime-state.json", platform),
                logs: join_path(directory, "logs", platform),
                staging: join_path(directory, "runtime-staging", platform),
                smoke: join_path(directory, "runtime-smoke", platform),
            },
            platform,
            state,
            installation: None,
            startup: None,
            update_status: RuntimeUpdateSnapshot::default(),
            update_scheduled: false,
            update_running: false,
            shutting_down: false,
        }
    }

    /// Begins a start. A runtime that runs and is known is left alone.
    pub fn start(&mut self, process_running: bool) -> (decision: StartDecision)
        ensures
            final(self).same_setup(*old(self)),
            final(self)@ == (RuntimeManagerView { shutting_down: false, ..old(self)@ }),
            if process_running && old(self)@.startup is Some {
                decision matches StartDecision::Running(info) && info@ == old(self)@.startup->0
            } else {
                decision is Ensure
            },
    {
        self.shutting_down = false;
        if process_running {
            if let Some(info) = &self.startup {
                return StartDecision::Running(info.clone());
            }
        }
        StartDecision::Ensure
    }

    /// Takes note of the runtime that runs.
    pub fn finish_launch(&mut self, version: &str, url: String) -> (info: StartupInfo)
        ensures
            final(self).same_setup(*old(self)),
            info@ == (StartupInfoView { url: url@, dsh_version: version@ }),
            final(self)@ == (RuntimeManagerView {
                startup: Some(info@),
                update_status: update_status(
                    RuntimeUpdatePhase::Idle,
                    None,
                    Some("当前版本已就绪"@),
                ),
                ..old(self)@
            }),
    {
        let info = StartupInfo { url, dsh_version: version.to_string() };
        self.startup = Some(info.clone());
        self.set_update_status(
            RuntimeUpdatePhase::Idle,
            None,
            Some("当前版本已就绪".to_string()),
        );
        info
    }

    /// Changes what the user sees of updates.
    pub fn set_update_status(
        &mut self,
        phase: RuntimeUpdatePhase,
        target_version: Option<String>,
        detail: Option<String>,
    )
        ensures
            final(self).same_setup(*old(self)),
            final(self)@ == (RuntimeManagerView {
                update_status: update_status(
                    phase,
                    target_version.deep_view(),
                    detail.deep_view(),
                ),
                ..old(self)@
            }),
    {
        self.update_status = RuntimeUpdateSnapshot { phase, target_version, detail };
    }

    /// What the user sees of the runtime.
    pub fn snapshot(&self) -> (snapshot: RuntimeSnapshot)
        ensures
            snapshot@ == (match self@.installation {
                Some(installation) => RuntimeSnapshotView {
                    current_version: installation.dsh_version,
                    pending_version: None,
                    node_version: installation.toolchain.node_version,
                    npm_version: installation.toolchain.npm_version,
                    update: self@.update_status,
                },
                None => RuntimeSnapshotView {
                    current_version: "未初始化"@,
                    pending_version: None,
                    node_version: "未检测"@,
                    npm_version: "未检测"@,
                    update: self@.update_status,
                },
            }),
    {
        match &self.installation {
            Some(installation) => RuntimeSnapshot {
                current_version: installation.dsh_version.clone(),
                pending_version: None,
                node_version: installation.toolchain.node_version.clone(),
                npm_version: installation.toolchain.npm_version.clone(),
                update: self.update_status.clone(),
            },
            None => RuntimeSnapshot {
                current_version: "未初始化".to_string(),
                pending_version: None,
                node_version: "未检测".to_string(),
                npm_version: "未检测".to_string(),
                update: self.update_status.clone(),
            },
        }
    }

    /// The application is about to end, and so is the runtime.
    pub fn terminate(&mut self)
        ensures
            final(self).same_setup(*old(self)),
            final(self)@ == (RuntimeManagerView {
                shutting_down: true,
                startup: None,
                ..old(self)@
            }),
    {
        self.shutting_down = true;
        self.startup = None;
    }

    /// Shows the directory of the logs.
    pub fn open_logs(&self) -> (plan: CommandPlan)
        ensures
            plan@ == (CommandPlanView {
                program: directory_opener(self.platform),
                arguments: seq![self.paths@.logs],
                directory: None,
                inherit: true,
                environment: Seq::empty(),
            }),
    {
        let mut plan = CommandPlan::new(log_directory_opener(self.platform));
        plan.add_argument(self.paths.logs.as_str());
        assert(plan@.arguments =~= seq![self.paths@.logs]);
        plan
    }

    fn read_search(&mut self, stage: &mut EnsureStage, search: DshSearch) -> (action: EnsureAction)
        ensures
            final(self).same_setup(*old(self)),
            (final(self)@, final(stage)@, action@) == after_search(
                old(self)@,
                search,
                old(self).platform,
            ),
    {
        let platform = self.platform;
        let managed = global_dsh_command(search.desktop_prefix.as_str(), platform);
        match search.dsh_command {
            Some(command) => {
                if paths_equal(command.as_str(), managed.as_str(), platform) {
                    let update_prefix = update_prefix_for_command(
                        command.as_str(),
                        search.desktop_prefix.as_str(),
                        &None,
                        platform,
                    );
                    *stage = EnsureStage::Inspecting {
                        dsh_command: command.clone(),
                        origin: Origin::Found,
                    };
                    EnsureAction::Inspect {
                        toolchain: search.toolchain,
                        dsh_command: command,
                        update_prefix,
                    }
                } else {
                    let toolchain = search.toolchain.clone();
                    *stage = EnsureStage::ReadingPrefix {
                        toolchain: search.toolchain,
                        dsh_command: command,
                        desktop_prefix: search.desktop_prefix,
                    };
                    EnsureAction::ReadPrefix(toolchain)
                }
            },
            None => {
                if search.managed_executable {
                    *stage = EnsureStage::Inspecting {
                        dsh_command: managed.clone(),
                        origin: Origin::Managed,
                    };
                    EnsureAction::Inspect {
                        toolchain: search.toolchain,
                        dsh_command: managed,
                        update_prefix: Some(search.desktop_prefix),
                    }
                } else {
                    let toolchain = search.toolchain.clone();
                    *stage = EnsureStage::QueryingLatest {
                        toolchain: search.toolchain,
                        prefix: search.desktop_prefix,
                    };
                    EnsureAction::QueryLatest(toolchain)
                }
            },
        }
    }

    fn take_inspection(
        &mut self,
        stage: &mut EnsureStage,
        result: Result<RuntimeInstallation, String>,
    ) -> (action: EnsureAction)
        ensures
            final(self).same_setup(*old(self)),
            (final(self)@, final(stage)@, action@) == ensure_step(
                old(self)@,
                old(self).platform,
                old(stage)@,
                EnsureEvent::Inspected(result),
            ),
    {
        if let EnsureStage::Inspecting { dsh_command, origin } = &*stage {
            match origin {
                Origin::Found => {
                    match result {
                        Err(reason) => {
                            let message = cat4(
                                "检测到 DSH ",
                                dsh_command.as_str(),
                                "，但无法使用：",
                                reason.as_str(),
                            );
                            *stage = EnsureStage::Done;
                            return EnsureAction::Finish(Err(message));
                        },
                        Ok(installation) => {
                            self.installation = Some(installation.clone());
                            *stage = EnsureStage::Done;
                            return EnsureAction::Finish(Ok(installation));
                        },
                    }
                },
                Origin::Managed => {
                    match result {
                        Err(reason) => {
                            *stage = EnsureStage::Done;
                            return EnsureAction::Finish(Err(reason));
                        },
                        Ok(installation) => {
                            *stage = EnsureStage::Configuring(installation.clone());
                            return EnsureAction::ConfigureTerminal(installation);
                        },
                    }
                },
            }
        }
        EnsureAction::Ignore
    }

    fn take_latest(&mut self, stage: &mut EnsureStage, result: Result<String, String>) -> (action:
        EnsureAction)
        ensures
            final(self).same_setup(*old(self)),
            (final(self)@, final(stage)@, action@) == ensure_step(
                old(self)@,
                old(self).platform,
                old(stage)@,
                EnsureEvent::Latest(result),
            ),
    {
        if let EnsureStage::QueryingLatest { toolchain, prefix } = &*stage {
            let toolchain: UserToolchain = toolchain.clone();
            let prefix: String = prefix.clone();
            match result {
                Err(reason) => {
                    *stage = EnsureStage::Done;
                    return EnsureAction::Finish(Err(reason));
                },
                Ok(version) => {
                    self.set_update_status(
                        RuntimeUpdatePhase::Installing,
                        Some(version.clone()),
                        Some(cat2("正在准备 DSH ", version.as_str())),
                    );
                    *stage = EnsureStage::Installing {
                        toolchain: toolchain.clone(),
                        prefix: prefix.clone(),
                    };
                    return EnsureAction::Install { toolchain, prefix, version };
                },
            }
        }
        EnsureAction::Ignore
    }

    fn take_installed(&mut self, stage: &mut EnsureStage, result: Result<(), String>) -> (action:
        EnsureAction)
        ensures
            final(self).same_setup(*old(self)),
            (final(self)@, final(stage)@, action@) == ensure_step(
                old(self)@,
                old(self).platform,
                old(stage)@,
                EnsureEvent::Installed(result),
            ),
    {
        if let EnsureStage::Installing { toolchain, prefix } = &*stage {
            let toolchain: UserToolchain = toolchain.clone();
            let prefix: String = prefix.clone();
            match result {
                Err(reason) => {
                    *stage = EnsureStage::Done;
                    return EnsureAction::Finish(
                        Err(
                            cat2(
                                user_runtime_error(reason.as_str(), self.platform),
                                " 详细信息已写入日志。",
                            ),
                        ),
                    );
                },
                Ok(()) => {
                    let command = global_dsh_command(prefix.as_str(), self.platform);
                    *stage = EnsureStage::Inspecting {
                        dsh_command: command.clone(),
                        origin: Origin::Managed,
                    };
                    return EnsureAction::Inspect {
                        toolchain,
                        dsh_command: command,
                        update_prefix: Some(prefix),
                    };
                },
            }
        }
        EnsureAction::Ignore
    }

    /// Takes an event of the search for a runtime and says what is to be done
    /// next.
    pub fn ensure_installation(&mut self, stage: &mut EnsureStage, event: EnsureEvent) -> (action:
        EnsureAction)
        ensures
            final(self).same_setup(*old(self)),
            (final(self)@, final(stage)@, action@) == ensure_step(
                old(self)@,
                old(self).platform,
                old(stage)@,
                event,
            ),
    {
        match event {
            EnsureEvent::Begin { known_executable } => {
                if let EnsureStage::Start = *stage {
                    if known_executable {
                        if let Some(installation) = &self.installation {
                            let installation: RuntimeInstallation = installation.clone();
                            *stage = EnsureStage::Done;
                            return EnsureAction::Finish(Ok(installation));
                        }
                    }
                    *stage = EnsureStage::Searching;
                    return EnsureAction::Search;
                }
            },
            EnsureEvent::Searched(result) => {
                if let EnsureStage::Searching = *stage {
                    match result {
                        Err(reason) => {
                            *stage = EnsureStage::Done;
                            return EnsureAction::Finish(Err(reason));
                        },
                        Ok(search) => {
                            return self.read_search(stage, search);
                        },
                    }
                }
            },
            EnsureEvent::Prefix(npm_prefix) => {
                if let EnsureStage::ReadingPrefix { toolchain, dsh_command, desktop_prefix } =
                    &*stage {
                    let toolchain: UserToolchain = toolchain.clone();
                    let dsh_command: String = dsh_command.clone();
                    let update_prefix = update_prefix_for_command(
                        dsh_command.as_str(),
                        desktop_prefix.as_str(),
                        &npm_prefix,
                        self.platform,
                    );
                    *stage = EnsureStage::Inspecting {
                        dsh_command: dsh_command.clone(),
                        origin: Origin::Found,
                    };
                    return EnsureAction::Inspect { toolchain, dsh_command, update_prefix };
                }
            },
            EnsureEvent::Inspected(result) => {
                return self.take_inspection(stage, result);
            },
            EnsureEvent::Latest(result) => {
                return self.take_latest(stage, result);
            },
            EnsureEvent::Installed(result) => {
                return self.take_installed(stage, result);
            },
            EnsureEvent::Configured(result) => {
                if let EnsureStage::Configuring(installation) = &*stage {
                    let installation: RuntimeInstallation = installation.clone();
                    *stage = EnsureStage::Done;
                    match result {
                        Err(reason) => {
                            return EnsureAction::Finish(Err(reason));
                        },
                        Ok(()) => {
                            self.installation = Some(installation.clone());
                            return EnsureAction::Finish(Ok(installation));
                        },
                    }
                }
            },
        }
        EnsureAction::Ignore
    }
}

/// The error of a start in which the runtime did not come up.
pub fn launch_error(version: &str, error: &str) -> (message: String)
    ensures
        message@ == "DSH "@ + version@ + " 启动失败："@ + error@,
{
    cat4("DSH ", version, " 启动失败：", error)
}

/// A runtime that is found is remembered, and one that is not leaves what was
/// known: the installation that the manager knows after a step is the one before
/// or the one with which the search ends.
pub proof fn law_search_remembers_what_it_finds(
    manager: RuntimeManagerView,
    platform: Platform,
    stage: EnsureStageView,
    event: EnsureEvent,
)
    ensures
        ({
            let (next, after, action) = ensure_step(manager, platform, stage, event);
            &&& action matches EnsureActionView::Finish(result) ==> {
                &&& result matches Ok(installation) ==> next.installation == Some(installation)
                &&& result is Err ==> next.installation == manager.installation
            }
            &&& next.installation != manager.installation ==> after is Done
            &&& next.state == manager.state
            &&& next.startup == manager.startup
            &&& next.update_running == manager.update_running
            &&& next.shutting_down == manager.shutting_down
        }),
{
}

/// A runtime that the user has is used as it is: nothing is installed where a
/// command is on `PATH`.
pub proof fn law_found_runtime_is_not_replaced(
    manager: RuntimeManagerView,
    platform: Platform,
    search: DshSearch,
)
    requires
        search.dsh_command is Some,
    ensures
        ({
            let (next, after, action) = ensure_step(
                manager,
                platform,
                EnsureStageView::Searching,
                EnsureEvent::Searched(Ok(search)),
            );
            &&& next == manager
            &&& action is Inspect || action is ReadPrefix
        }),
{
}

/// A check is due where none was made yet. After one that succeeded none is due for a
/// day, after any attempt none for an hour, and after both one is.
pub proof fn law_checks_are_made_once_a_day(state: RuntimeState, now: u64)
    ensures
        ({
            let rested = (state.last_successful_check is Some ==> now
                >= state.last_successful_check->0 + 24 * 60 * 60) && (state.last_update_attempt
                is Some ==> now >= state.last_update_attempt->0 + 60 * 60);
            check_due(state, now) <==> rested
        }),
{
}

/// A command has a version where it can be run and what it prints is one, and that
/// unchanged; otherwise the error says what is wrong.
pub proof fn law_command_names_its_version(
    dsh_command: Seq<char>,
    executable: bool,
    printed: Result<Seq<char>, Seq<char>>,
    fault: Option<Seq<char>>,
)
    ensures
        ({
            let version = dsh_release(dsh_command, executable, printed, fault);
            &&& version is Ok <==> executable && printed is Ok && fault is None
            &&& version is Ok ==> version == printed
            &&& !executable ==> version == Err::<Seq<char>, Seq<char>>(
                "DSH 命令不可执行："@ + dsh_command,
            )
            &&& executable && printed is Err ==> version == printed
            &&& executable && printed is Ok && fault is Some ==> version == Err::<
                Seq<char>,
                Seq<char>,
            >("DSH 返回了无效版本 "@ + debug_form(printed->Ok_0) + "："@ + fault->0)
        }),
{
}

/// An installation is known where its command has a directory and named its version; it
/// holds the tools, the command, the version and the place for updates as they are.
pub proof fn law_installation_is_what_was_inspected(
    toolchain: UserToolchainView,
    dsh_command: Seq<char>,
    prefix: Option<Seq<char>>,
    version: Result<Seq<char>, Seq<char>>,
    platform: Platform,
)
    ensures
        ({
            let found = installed_at(toolchain, dsh_command, prefix, version, platform);
            let directory = parent_of(dsh_command, platform);
            &&& found is Ok <==> directory is Some && version is Ok
            &&& found is Ok ==> found->Ok_0.toolchain == toolchain && found->Ok_0.dsh_command
                == dsh_command && found->Ok_0.dsh_version == version->Ok_0
                && found->Ok_0.update_prefix == prefix && found->Ok_0.bin_dir == directory->0
            &&& directory is None ==> found->Err_0 == "DSH 命令没有父目录："@ + dsh_command
            &&& directory is Some && version is Err ==> found->Err_0 == version->Err_0
        }),
{
}

/// What is kept, logged, staged and tried lies in places of its own below the data
/// directory.
pub proof fn law_everything_has_its_place(app_data_dir: Seq<char>, platform: Platform)
    ensures
        layout(app_data_dir, platform).state == below(
            app_data_dir,
            "runtime-state.json"@,
            platform,
        ),
        layout(app_data_dir, platform).logs == below(app_data_dir, "logs"@, platform),
        layout(app_data_dir, platform).staging == below(
            app_data_dir,
            "runtime-staging"@,
            platform,
        ),
        layout(app_data_dir, platform).smoke == below(app_data_dir, "runtime-smoke"@, platform),
{
}

/// A manager that was set up keeps what was saved, and nothing is found or runs yet.
pub proof fn law_set_up_manager_is_at_its_beginning(
    manager: RuntimeManager,
    app_data_dir: Seq<char>,
    saved: Option<RuntimeState>,
    platform: Platform,
)
    requires
        manager.is_initial(app_data_dir, saved, platform),
    ensures
        saved matches Some(state) ==> manager.state == state,
        saved is None ==> manager.state.last_update_attempt is None
            && manager.state.last_successful_check is None,
        manager.installation is None && manager.startup is None,
        manager.update_status@.phase == RuntimeUpdatePhase::Idle,
        manager.update_status@.target_version is None && manager.update_status@.detail is None,
        !manager.update_scheduled && !manager.update_running && !manager.shutting_down,
        manager.platform == platform,
        manager.paths@ == layout(app_data_dir, platform),
{
}

/// What the set-up fixes is the places and the platform, and a status shows what it was
/// made of.
pub proof fn law_setup_and_status(
    one: RuntimeManager,
    other: RuntimeManager,
    phase: RuntimeUpdatePhase,
    version: Option<Seq<char>>,
    detail: Option<Seq<char>>,
)
    ensures
        one.same_setup(other) <==> one.paths == other.paths && one.platform == other.platform,
        update_status(phase, version, detail).phase == phase,
        update_status(phase, version, detail).target_version == version,
        update_status(phase, version, detail).detail == detail,
{
}

/// The runtime that is known is used while its command can be run; otherwise the tools
/// are searched, and a search that fails is the error.
pub proof fn law_known_runtime_is_used_again(
    manager: RuntimeManagerView,
    platform: Platform,
    known_executable: bool,
    reason: String,
)
    ensures
        ({
            let step = ensure_step(
                manager,
                platform,
                EnsureStageView::Start,
                (EnsureEvent::Begin { known_executable }),
            );
            &&& known_executable && manager.installation is Some ==> step == (
                manager,
                EnsureStageView::Done,
                EnsureActionView::Finish(Ok(manager.installation->0)),
            )
            &&& !known_executable || manager.installation is None ==> step == (
                manager,
                EnsureStageView::Searching,
                EnsureActionView::Search,
            )
            &&& ensure_step(
                manager,
                platform,
                EnsureStageView::Searching,
                EnsureEvent::Searched(Err(reason)),
            ) == (manager, EnsureStageView::Done, EnsureActionView::Finish(Err(reason@)))
        }),
{
}

/// The command on `PATH` comes first, then the one that the application installed; where
/// there is neither, npm is asked for the newest version. For a command that the
/// application did not install npm is first asked where it installs.
pub proof fn law_search_prefers_the_command_of_the_user(
    manager: RuntimeManagerView,
    platform: Platform,
    search: DshSearch,
)
    ensures
        ({
            let step = ensure_step(
                manager,
                platform,
                EnsureStageView::Searching,
                EnsureEvent::Searched(Ok(search)),
            );
            let managed = dsh_of(search.desktop_prefix@, platform);
            let own = search.dsh_command is Some && paths_same(
                search.dsh_command->0@,
                managed,
                platform,
            );
            &&& step.0 == manager
            &&& search.dsh_command is Some && own ==> step.1 == (EnsureStageView::Inspecting {
                dsh_command: search.dsh_command->0@,
                origin: Origin::Found,
            }) && step.2 == (EnsureActionView::Inspect {
                toolchain: search.toolchain@,
                dsh_command: search.dsh_command->0@,
                update_prefix: update_prefix(
                    search.dsh_command->0@,
                    search.desktop_prefix@,
                    None,
                    platform,
                ),
            })
            &&& search.dsh_command is Some && !own ==> step.1 == (EnsureStageView::ReadingPrefix {
                toolchain: search.toolchain@,
                dsh_command: search.dsh_command->0@,
                desktop_prefix: search.desktop_prefix@,
            }) && step.2 == EnsureActionView::ReadPrefix(search.toolchain@)
            &&& search.dsh_command is None && search.managed_executable ==> step.1 == (
            EnsureStageView::Inspecting { dsh_command: managed, origin: Origin::Managed })
                && step.2 == (EnsureActionView::Inspect {
                toolchain: search.toolchain@,
                dsh_command: managed,
                update_prefix: Some(search.desktop_prefix@),
            })
            &&& search.dsh_command is None && !search.managed_executable ==> step.1 == (
            EnsureStageView::QueryingLatest {
                toolchain: search.toolchain@,
                prefix: search.desktop_prefix@,
            }) && step.2 == EnsureActionView::QueryLatest(search.toolchain@)
        }),
{
}

/// A command on `PATH` that named its version is the runtime, and is remembered; one
/// that cannot be used is an error that names it, and nothing is installed in its place.
pub proof fn law_found_command_is_the_runtime(
    manager: RuntimeManagerView,
    platform: Platform,
    toolchain: UserToolchainView,
    dsh_command: Seq<char>,
    desktop_prefix: Seq<char>,
    npm_prefix: Option<String>,
    installation: RuntimeInstallation,
    reason: String,
)
    ensures
        ({
            let found = EnsureStageView::Inspecting { dsh_command, origin: Origin::Found };
            &&& ensure_step(
                manager,
                platform,
                (EnsureStageView::ReadingPrefix { toolchain, dsh_command, desktop_prefix }),
                EnsureEvent::Prefix(npm_prefix),
            ) == (
                manager,
                found,
                EnsureActionView::Inspect {
                    toolchain,
                    dsh_command,
                    update_prefix: update_prefix(
                        dsh_command,
                        desktop_prefix,
                        npm_prefix.deep_view(),
                        platform,
                    ),
                },
            )
            &&& ensure_step(manager, platform, found, EnsureEvent::Inspected(Ok(installation)))
                == (
                RuntimeManagerView { installation: Some(installation@), ..manager },
                EnsureStageView::Done,
                EnsureActionView::Finish(Ok(installation@)),
            )
            &&& ensure_step(manager, platform, found, EnsureEvent::Inspected(Err(reason))) == (
                manager,
                EnsureStageView::Done,
                EnsureActionView::Finish(
                    Err("检测到 DSH "@ + dsh_command + "，但无法使用："@ + reason@),
                ),
            )
        }),
{
}

/// Where there is no runtime, the newest version is installed to the prefix of the
/// application, asked for its version, and put on the `PATH` of the terminal; then it is
/// the runtime, and is remembered. Each step that fails ends the search with its error.
pub proof fn law_missing_runtime_is_installed(
    manager: RuntimeManagerView,
    platform: Platform,
    toolchain: UserToolchainView,
    prefix: Seq<char>,
    dsh_command: Seq<char>,
    version: String,
    installation: RuntimeInstallation,
    reason: String,
)
    ensures
        ({
            let step = |stage: EnsureStageView, event: EnsureEvent|
                ensure_step(manager, platform, stage, event);
            let failed = |message: Seq<char>|
                (manager, EnsureStageView::Done, EnsureActionView::Finish(Err(message)));
            let querying = EnsureStageView::QueryingLatest { toolchain, prefix };
            let installing = EnsureStageView::Installing { toolchain, prefix };
            let inspecting = EnsureStageView::Inspecting { dsh_command, origin: Origin::Managed };
            let configuring = EnsureStageView::Configuring(installation@);
            let asked = step(querying, EnsureEvent::Latest(Ok(version)));
            &&& asked.1 == installing
            &&& asked.2 == (EnsureActionView::Install { toolchain, prefix, version: version@ })
            &&& asked.0.installation == manager.installation && asked.0.state == manager.state
            &&& asked.0.update_status.phase == RuntimeUpdatePhase::Installing
                && asked.0.update_status.target_version == Some(version@)
                && asked.0.update_status.detail == Some("正在准备 DSH "@ + version@)
            &&& step(querying, EnsureEvent::Latest(Err(reason))) == failed(reason@)
            &&& step(installing, EnsureEvent::Installed(Ok(()))) == (
                manager,
                EnsureStageView::Inspecting {
                    dsh_command: dsh_of(prefix, platform),
                    origin: Origin::Managed,
                },
                EnsureActionView::Inspect {
                    toolchain,
                    dsh_command: dsh_of(prefix, platform),
                    update_prefix: Some(prefix),
                },
            )
            &&& step(installing, EnsureEvent::Installed(Err(reason))) == failed(
                runtime_error_text(reason@, platform) + " 详细信息已写入日志。"@,
            )
            &&& step(inspecting, EnsureEvent::Inspected(Ok(installation))) == (
                manager,
                configuring,
                EnsureActionView::ConfigureTerminal(installation@),
            )
            &&& step(inspecting, EnsureEvent::Inspected(Err(reason))) == failed(reason@)
            &&& step(configuring, EnsureEvent::Configured(Ok(()))) == (
                RuntimeManagerView { installation: Some(installation@), ..manager },
                EnsureStageView::Done,
                EnsureActionView::Finish(Ok(installation@)),
            )
            &&& step(configuring, EnsureEvent::Configured(Err(reason))) == failed(reason@)
        }),
{
}

/// What does not belong to the stage changes nothing.
pub proof fn law_stray_event_changes_nothing(
    manager: RuntimeManagerView,
    platform: Platform,
    stage: EnsureStageView,
    event: EnsureEvent,
)
    requires
        match event {
            EnsureEvent::Begin { known_executable } => !(stage is Start),
            EnsureEvent::Searched(_) => !(stage is Searching),
            EnsureEvent::Prefix(_) => !(stage is ReadingPrefix),
            EnsureEvent::Inspected(_) => !(stage is Inspecting),
            EnsureEvent::Latest(_) => !(stage is QueryingLatest),
            EnsureEvent::Installed(_) => !(stage is Installing),
            EnsureEvent::Configured(_) => !(stage is Configuring),
        },
    ensures
        ensure_step(manager, platform, stage, event) == (
            manager,
            stage,
            EnsureActionView::Ignore,
        ),
{
}

/// What contracts say of a [`RuntimeUpdateSnapshot`] they say of every part of it.
pub proof fn law_value_of_runtime_update_snapshot(value: RuntimeUpdateSnapshot)
    ensures
        value@.phase == value.phase,
        value@.target_version == value.target_version.deep_view(),
        value@.detail == value.detail.deep_view(),
{
}

/// What contracts say of a [`RuntimeSnapshot`] they say of every part of it.
pub proof fn law_value_of_runtime_snapshot(value: RuntimeSnapshot)
    ensures
        value@.current_version == value.current_version@,
        value@.pending_version == value.pending_version.deep_view(),
        value@.node_version == value.node_version@,
        value@.npm_version == value.npm_version@,
        value@.update == value.update@,
{
}

/// What contracts say of a [`RuntimeInstallation`] they say of every part of it.
pub proof fn law_value_of_runtime_installation(value: RuntimeInstallation)
    ensures
        value@.toolchain == value.toolchain@,
        value@.bin_dir == value.bin_dir@,
        value@.dsh_command == value.dsh_command@,
        value@.dsh_version == value.dsh_version@,
        value@.update_prefix == value.update_prefix.deep_view(),
{
}

/// What contracts say of a [`Paths`] they say of every part of it.
pub proof fn law_value_of_paths(value: Paths)
    ensures
        value@.state == value.state@,
        value@.logs == value.logs@,
        value@.staging == value.staging@,
        value@.smoke == value.smoke@,
{
}

/// What contracts say of a [`RuntimeManager`] they say of every part of it.
pub proof fn law_value_of_runtime_manager(value: RuntimeManager)
    ensures
        value@.state == value.state,
        value@.installation == (match value.installation {
                Some(installation) => Some(installation@),
                None => None,
            }),
        value@.startup == (match value.startup {
                Some(info) => Some(info@),
                None => None,
            }),
        value@.update_status == value.update_status@,
        value@.update_scheduled == value.update_scheduled,
        value@.update_running == value.update_running,
        value@.shutting_down == value.shutting_down,
{
}

/// What an inspection returned is the installation or its error, unchanged.
pub proof fn law_value_of_an_inspection(installation: RuntimeInstallation, error: String)
    ensures
        installation_view(Ok(installation)) == Ok::<RuntimeInstallationView, Seq<char>>(
            installation@,
        ),
        installation_view(Err(error)) == Err::<RuntimeInstallationView, Seq<char>>(error@),
{
}

} // verus!
