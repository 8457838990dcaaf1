//! The runtime that comes with the application and the versions that were
//! installed beside it: which one is started, and what is kept of it.

use vstd::prelude::*;

use crate::host::{node_arch, node_arch_name, node_platform, node_platform_name, Platform};
use crate::node_path::{node_compatible_path, node_form};
use crate::paths::{below, join_path, FoundPaths};
use crate::schedule::{due, is_due};
use crate::terminal_command::TerminalCommandManager;
use crate::text::{cat2, cat4, list_has, same};
use crate::version::{
    law_newer_is_a_strict_order, newer, parse_version, semver_parse, version_is_newer,
};

pub use crate::command::prefixed_path_env_with;
pub use crate::launch::{
    no_open_is_unsupported, parse_ready_url, remember_stderr_line, with_stderr_tail,
};
pub use crate::npm::{parse_npm_version, update_package_manifest};
pub use crate::paths::user_home;
pub use crate::schedule::FAILED_RETRY_SECS;
pub use crate::startup::{running_title, staged_title, LaunchChoice, StartDecision, StartRun};
pub use crate::version::compare_runtime_versions;

verus! {

/// The seconds that a runtime has to announce its address.
pub const START_TIMEOUT_SECS: u64 = 30;

/// The seconds between the start of the application and the first check.
pub const UPDATE_DELAY_SECS: u64 = 60;

/// The seconds between two checks that succeeded.
pub const UPDATE_INTERVAL_SECS: u64 = 43200;

/// A runtime that was started.
#[derive(Debug)]
pub struct StartupInfo {
    pub url: String,
    pub dsh_version: String,
}

/// The value of a [`StartupInfo`].
#[verifier::ext_equal]
pub struct StartupInfoView {
    pub url: Seq<char>,
    pub dsh_version: Seq<char>,
}

impl View for StartupInfo {
    type V = StartupInfoView;

    open spec fn view(&self) -> StartupInfoView {
        StartupInfoView { url: self.url@, dsh_version: self.dsh_version@ }
    }
}

impl Clone for StartupInfo {
    fn clone(&self) -> (copy: StartupInfo)
        ensures
            copy@ == self@,
    {
        StartupInfo { url: self.url.clone(), dsh_version: self.dsh_version.clone() }
    }
}

/// What came with the application.
#[derive(Debug)]
pub struct BundledManifest {
    pub node_version: String,
    pub npm_version: String,
    pub dsh_version: String,
    pub platform: String,
    pub arch: String,
}

/// The tag of the npm package that updates follow.
#[derive(Clone, Copy, Debug, PartialEq, Eq, Structural)]
pub enum RuntimeUpdateChannel {
    Latest,
    Next,
}

impl Default for RuntimeUpdateChannel {
    fn default() -> (channel: RuntimeUpdateChannel)
        ensures
            channel == RuntimeUpdateChannel::Latest,
    {
        RuntimeUpdateChannel::Latest
    }
}

impl RuntimeUpdateChannel {
    /// The name of the tag.
    pub open spec fn tag(self) -> Seq<char> {
        match self {
            RuntimeUpdateChannel::Latest => "latest"@,
            RuntimeUpdateChannel::Next => "next"@,
        }
    }

    /// The name of the tag.
    pub fn dist_tag(self) -> (name: &'static str)
        ensures
            name@ == self.tag(),
    {
        match self {
            RuntimeUpdateChannel::Latest => "latest",
            RuntimeUpdateChannel::Next => "next",
        }
    }
}

/// What is kept on disk between two runs.
#[derive(Debug)]
pub struct RuntimeState {
    /// The version that was started last.
    pub active: Option<String>,
    /// The version that was started before it.
    pub previous: Option<String>,
    /// The version that is started next.
    pub pending: Option<String>,
    pub last_update_attempt: Option<u64>,
    pub last_successful_check: Option<u64>,
    pub update_channel: RuntimeUpdateChannel,
}

/// The value of a [`RuntimeState`].
#[verifier::ext_equal]
pub struct RuntimeStateView {
    pub active: Option<Seq<char>>,
    pub previous: Option<Seq<char>>,
    pub pending: Option<Seq<char>>,
    pub last_update_attempt: Option<u64>,
    pub last_successful_check: Option<u64>,
    pub update_channel: RuntimeUpdateChannel,
}

impl View for RuntimeState {
    type V = RuntimeStateView;

    open spec fn view(&self) -> RuntimeStateView {
        RuntimeStateView {
            active: self.active.deep_view(),
            previous: self.previous.deep_view(),
            pending: self.pending.deep_view(),
            last_update_attempt: self.last_update_attempt,
            last_successful_check: self.last_successful_check,
            update_channel: self.update_channel,
        }
    }
}

/// Nothing was installed or checked yet.
pub open spec fn first_state() -> RuntimeStateView {
    RuntimeStateView {
        active: None,
        previous: None,
        pending: None,
        last_update_attempt: None,
        last_successful_check: None,
        update_channel: RuntimeUpdateChannel::Latest,
    }
}

impl Default for RuntimeState {
    fn default() -> (state: RuntimeState)
        ensures
            state@ == first_state(),
    {
        RuntimeState {
            active: None,
            previous: None,
            pending: None,
            last_update_attempt: None,
            last_successful_check: None,
            update_channel: RuntimeUpdateChannel::Latest,
        }
    }
}

impl Clone for RuntimeState {
    fn clone(&self) -> (copy: RuntimeState)
        ensures
            copy@ == self@,
    {
        RuntimeState {
            active: self.active.clone(),
            previous: self.previous.clone(),
            pending: self.pending.clone(),
            last_update_attempt: self.last_update_attempt,
            last_successful_check: self.last_successful_check,
            update_channel: self.update_channel,
        }
    }
}

/// How far an update of the runtime has come.
#[derive(Clone, Copy, Debug, PartialEq, Eq, Structural)]
pub enum RuntimeUpdatePhase {
    Idle,
    Checking,
    Current,
    Ahead,
    Installing,
    Verifying,
    Ready,
    Error,
}

impl Default for RuntimeUpdatePhase {
    fn default() -> (phase: RuntimeUpdatePhase)
        ensures
            phase == RuntimeUpdatePhase::Idle,
    {
        RuntimeUpdatePhase::Idle
    }
}

/// What the user sees of an update of the runtime.
#[derive(Debug)]
pub struct RuntimeUpdateSnapshot {
    pub phase: RuntimeUpdatePhase,
    pub target_version: Option<String>,
    pub detail: Option<String>,
}

/// The value of a [`RuntimeUpdateSnapshot`].
#[verifier::ext_equal]
pub struct RuntimeUpdateSnapshotView {
    pub phase: RuntimeUpdatePhase,
    pub target_version: Option<Seq<char>>,
    pub detail: Option<Seq<char>>,
}

impl View for RuntimeUpdateSnapshot {
    type V = RuntimeUpdateSnapshotView;

    open spec fn view(&self) -> RuntimeUpdateSnapshotView {
        RuntimeUpdateSnapshotView {
            phase: self.phase,
            target_version: self.target_version.deep_view(),
            detail: self.detail.deep_view(),
        }
    }
}

/// Nothing is going on.
pub open spec fn idle_update() -> RuntimeUpdateSnapshotView {
    RuntimeUpdateSnapshotView {
        phase: RuntimeUpdatePhase::Idle,
        target_version: None,
        detail: None,
    }
}

/// A version waits for the next start.
pub open spec fn ready_update(version: Seq<char>) -> RuntimeUpdateSnapshotView {
    RuntimeUpdateSnapshotView {
        phase: RuntimeUpdatePhase::Ready,
        target_version: Some(version),
        detail: Some("更新已就绪，重启后生效"@),
    }
}

impl Default for RuntimeUpdateSnapshot {
    fn default() -> (snapshot: RuntimeUpdateSnapshot)
        ensures
            snapshot@ == idle_update(),
    {
        RuntimeUpdateSnapshot {
            phase: RuntimeUpdatePhase::Idle,
            target_version: None,
            detail: None,
        }
    }
}

impl Clone for RuntimeUpdateSnapshot {
    fn clone(&self) -> (copy: RuntimeUpdateSnapshot)
        ensures
            copy@ == self@,
    {
        RuntimeUpdateSnapshot {
            phase: self.phase,
            target_version: self.target_version.clone(),
            detail: self.detail.clone(),
        }
    }
}

impl RuntimeUpdateSnapshot {
    /// A version waits for the next start.
    pub fn ready(version: &str) -> (snapshot: RuntimeUpdateSnapshot)
        ensures
            snapshot@ == ready_update(version@),
    {
        RuntimeUpdateSnapshot {
            phase: RuntimeUpdatePhase::Ready,
            target_version: Some(version.to_string()),
            detail: Some("更新已就绪，重启后生效".to_string()),
        }
    }

    /// What is shown where the state of the updates cannot be read.
    pub fn unreadable() -> (snapshot: RuntimeUpdateSnapshot)
        ensures
            snapshot@ == (RuntimeUpdateSnapshotView {
                phase: RuntimeUpdatePhase::Error,
                target_version: None,
                detail: Some("无法读取 DSH 更新状态"@),
            }),
    {
        RuntimeUpdateSnapshot {
            phase: RuntimeUpdatePhase::Error,
            target_version: None,
            detail: Some("无法读取 DSH 更新状态".to_string()),
        }
    }
}

/// What the user sees of the runtime.
#[derive(Debug)]
pub struct RuntimeSnapshot {
    pub current_version: String,
    pub pending_version: Option<String>,
    pub node_version: String,
    pub npm_version: String,
    pub update_channel: RuntimeUpdateChannel,
    pub update: RuntimeUpdateSnapshot,
}

/// The value of a [`RuntimeSnapshot`].
#[verifier::ext_equal]
pub struct RuntimeSnapshotView {
    pub current_version: Seq<char>,
    pub pending_version: Option<Seq<char>>,
    pub node_version: Seq<char>,
    pub npm_version: Seq<char>,
    pub update_channel: RuntimeUpdateChannel,
    pub update: RuntimeUpdateSnapshotView,
}

impl View for RuntimeSnapshot {
    type V = RuntimeSnapshotView;

    open spec fn view(&self) -> RuntimeSnapshotView {
        RuntimeSnapshotView {
            current_version: self.current_version@,
            pending_version: self.pending_version.deep_view(),
            node_version: self.node_version@,
            npm_version: self.npm_version@,
            update_channel: self.update_channel,
            update: self.update@,
        }
    }
}

/// A check is due: half a day after the last one that succeeded, and an hour
/// after the last attempt.
pub open spec fn check_due(state: RuntimeStateView, now: u64) -> bool {
    due(state.last_successful_check, state.last_update_attempt, now, UPDATE_INTERVAL_SECS)
}

/// Whether a check is due.
pub fn update_is_due(state: &RuntimeState, now: u64) -> (yes: bool)
    ensures
        yes == check_due(state@, now),
{
    is_due(state.last_successful_check, state.last_update_attempt, now, UPDATE_INTERVAL_SECS)
}

/// Whether a check is made: one that the user asks for always is.
pub fn update_check_is_due(state: &RuntimeState, now: u64, force: bool) -> (yes: bool)
    ensures
        yes == (force || check_due(state@, now)),
{
    force || update_is_due(state, now)
}

/// The state after the channel was chosen. A change forgets the version that
/// waits and the times of the last checks, and nothing else.
pub open spec fn channel_selected(
    state: RuntimeStateView,
    channel: RuntimeUpdateChannel,
) -> RuntimeStateView {
    if state.update_channel == channel {
        state
    } else {
        RuntimeStateView {
            update_channel: channel,
            pending: None,
            last_update_attempt: None,
            last_successful_check: None,
            ..state
        }
    }
}

/// Chooses the channel. The answer is whether it changed.
pub fn select_update_channel(state: &mut RuntimeState, channel: RuntimeUpdateChannel) -> (changed:
    bool)
    ensures
        changed == (old(state)@.update_channel != channel),
        final(state)@ == channel_selected(old(state)@, channel),
{
    if state.update_channel == channel {
        return false;
    }
    state.update_channel = channel;
    state.pending = None;
    state.last_update_attempt = None;
    state.last_successful_check = None;
    true
}

/// Changing the channel keeps the version that runs and the one before it, drops
/// the one that waits, and makes a check due at once.
pub proof fn law_channel_change_does_not_downgrade(
    state: RuntimeStateView,
    channel: RuntimeUpdateChannel,
    now: u64,
)
    requires
        state.update_channel != channel,
    ensures
        channel_selected(state, channel).active == state.active,
        channel_selected(state, channel).previous == state.previous,
        channel_selected(state, channel).pending is None,
        channel_selected(state, channel).update_channel == channel,
        check_due(channel_selected(state, channel), now),
{
}

/// Choosing the same channel again changes nothing.
pub proof fn law_channel_choice_is_idempotent(
    state: RuntimeStateView,
    channel: RuntimeUpdateChannel,
)
    ensures
        channel_selected(channel_selected(state, channel), channel) == channel_selected(
            state,
            channel,
        ),
{
}

/// The list with the version at its end, unless it holds it already.
pub open spec fn with_version(list: Seq<Seq<char>>, version: Option<Seq<char>>) -> Seq<Seq<char>> {
    match version {
        Some(version) if !list.contains(version) => list.push(version),
        _ => list,
    }
}

/// The versions to try, in order: the one that waits, the one that ran last, the
/// one before it, the one that came with the application; each once.
pub open spec fn candidates(state: RuntimeStateView, bundled: Seq<char>) -> Seq<Seq<char>> {
    with_version(
        with_version(
            with_version(with_version(Seq::empty(), state.pending), state.active),
            state.previous,
        ),
        Some(bundled),
    )
}

fn add_version(list: &mut Vec<String>, version: &str)
    ensures
        final(list).deep_view() == with_version(old(list).deep_view(), Some(version@)),
{
    if !list_has(list, version) {
        list.push(version.to_string());
        assert(list.deep_view() =~= old(list).deep_view().push(version@));
    }
}

fn add_held_version(list: &mut Vec<String>, version: &Option<String>)
    ensures
        final(list).deep_view() == with_version(old(list).deep_view(), version.deep_view()),
{
    if let Some(version) = version {
        add_version(list, version.as_str());
    }
}

/// The versions to try, in order.
pub fn launch_candidates(state: &RuntimeState, bundled: &str) -> (list: Vec<String>)
    ensures
        list.deep_view() == candidates(state@, bundled@),
{
    let mut list: Vec<String> = Vec::new();
    assert(list.deep_view() =~= Seq::empty());
    add_held_version(&mut list, &state.pending);
    add_held_version(&mut list, &state.active);
    add_held_version(&mut list, &state.previous);
    add_version(&mut list, bundled);
    list
}

/// What adding a version to a list keeps and adds.
pub proof fn lemma_with_version(list: Seq<Seq<char>>, version: Option<Seq<char>>)
    requires
        list.no_duplicates(),
    ensures
        with_version(list, version).no_duplicates(),
        list.is_prefix_of(with_version(list, version)),
        version matches Some(version) ==> with_version(list, Some(version)).contains(version),
        forall|other: Seq<char>|
            list.contains(other) ==> with_version(list, version).contains(other),
        forall|other: Seq<char>|
            with_version(list, version).contains(other) ==> list.contains(other) || version == Some(
                other,
            ),
{
    if let Some(added) = version {
        if !list.contains(added) {
            let longer = list.push(added);
            assert(longer[list.len() as int] == added);
            assert forall|other: Seq<char>| list.contains(other) implies longer.contains(other) by {
                let at = choose|at: int| 0 <= at < list.len() && list[at] == other;
                assert(longer[at] == other);
            }
            assert forall|other: Seq<char>| longer.contains(other) implies list.contains(other)
                || other == added by {
                let at = choose|at: int| 0 <= at < longer.len() && longer[at] == other;
                if at < list.len() {
                    assert(list[at] == other);
                }
            }
        }
    }
}

/// No version is tried twice; the one that waits comes first, and the one that
/// ran last comes first where none waits; every version that is kept is tried,
/// and so is the one that came with the application.
pub proof fn law_candidates(state: RuntimeStateView, bundled: Seq<char>)
    ensures
        candidates(state, bundled).no_duplicates(),
        candidates(state, bundled).contains(bundled),
        state.pending matches Some(version) ==> candidates(state, bundled)[0] == version,
        state.pending is None ==> (state.active matches Some(version) ==> candidates(
            state,
            bundled,
        )[0] == version),
        state.active matches Some(version) ==> candidates(state, bundled).contains(version),
        state.previous matches Some(version) ==> candidates(state, bundled).contains(version),
        forall|version: Seq<char>| #[trigger]
            candidates(state, bundled).contains(version) ==> version == bundled || state.pending
                == Some(version) || state.active == Some(version) || state.previous == Some(
                version,
            ),
{
    let none: Seq<Seq<char>> = Seq::empty();
    let first = with_version(none, state.pending);
    let second = with_version(first, state.active);
    let third = with_version(second, state.previous);
    lemma_with_version(none, state.pending);
    lemma_with_version(first, state.active);
    lemma_with_version(second, state.previous);
    lemma_with_version(third, Some(bundled));
}

/// Where things are.
#[derive(Debug)]
pub struct Paths {
    pub node: String,
    pub node_launcher: String,
    pub npm_cli: String,
    pub bundled_runtime: String,
    pub runtimes: String,
    pub state: String,
    pub logs: String,
    pub npm_cache: String,
    pub smoke: String,
}

/// The value of a [`Paths`].
#[verifier::ext_equal]
pub struct PathsView {
    pub node: Seq<char>,
    pub node_launcher: Seq<char>,
    pub npm_cli: Seq<char>,
    pub bundled_runtime: Seq<char>,
    pub runtimes: Seq<char>,
    pub state: Seq<char>,
    pub logs: Seq<char>,
    pub npm_cache: Seq<char>,
    pub smoke: Seq<char>,
}

impl View for Paths {
    type V = PathsView;

    open spec fn view(&self) -> PathsView {
        PathsView {
            node: self.node@,
            node_launcher: self.node_launcher@,
            npm_cli: self.npm_cli@,
            bundled_runtime: self.bundled_runtime@,
            runtimes: self.runtimes@,
            state: self.state@,
            logs: self.logs@,
            npm_cache: self.npm_cache@,
            smoke: self.smoke@,
        }
    }
}

/// The computer that the application runs on.
pub struct Host {
    pub platform: Platform,
    /// The operating system, as Rust calls it.
    pub os: String,
    /// The processor, as Rust calls it.
    pub arch: String,
}

/// A file that comes with the application: directly below the resource
/// directory where it is found there, else below `resources` in it.
pub open spec fn resource(
    root: Seq<char>,
    relative: Seq<char>,
    found: FoundPaths,
    platform: Platform,
) -> Seq<char> {
    if found.holds(below(root, relative, platform)) {
        below(root, relative, platform)
    } else {
        below(below(root, "resources"@, platform), relative, platform)
    }
}

/// A file that comes with the application.
pub fn resolve_resource(root: &str, relative: &str, found: &FoundPaths, platform: Platform) -> (path:
    String)
    ensures
        path@ == resource(root@, relative@, *found, platform),
{
    let direct = join_path(root, relative, platform);
    if found.has(direct.as_str()) {
        direct
    } else {
        join_path(join_path(root, "resources", platform).as_str(), relative, platform)
    }
}

/// Where Node.js is among the files that come with the application.
pub open spec fn node_resource(platform: Platform) -> Seq<char> {
    if platform.windows() {
        "node/node.exe"@
    } else {
        "node/bin/node"@
    }
}

/// Where Node.js is among the files that come with the application.
pub fn bundled_node_resource(platform: Platform) -> (relative: &'static str)
    ensures
        relative@ == node_resource(platform),
{
    if platform.is_windows() {
        "node/node.exe"
    } else {
        "node/bin/node"
    }
}

/// The program of a runtime.
pub open spec fn cli_of(runtime: Seq<char>, platform: Platform) -> Seq<char> {
    below(runtime, "node_modules/@deepseek-ai/dsh/lib/bin.js"@, platform)
}

/// The program of a runtime.
pub fn runtime_cli(runtime: &str, platform: Platform) -> (path: String)
    ensures
        path@ == cli_of(runtime@, platform),
{
    join_path(runtime, "node_modules/@deepseek-ai/dsh/lib/bin.js", platform)
}

/// Where things are below the two directories.
pub open spec fn layout(
    resource_dir: Seq<char>,
    app_data_dir: Seq<char>,
    found: FoundPaths,
    platform: Platform,
) -> PathsView {
    let data_root = below(app_data_dir, "runtime"@, platform);
    PathsView {
        node: resource(resource_dir, node_resource(platform), found, platform),
        node_launcher: resource(resource_dir, "node-launcher.mjs"@, found, platform),
        npm_cli: resource(
            resource_dir,
            "npm/node_modules/npm/bin/npm-cli.js"@,
            found,
            platform,
        ),
        bundled_runtime: resource(resource_dir, "bootstrap-runtime"@, found, platform),
        runtimes: below(data_root, "versions"@, platform),
        state: below(data_root, "state.json"@, platform),
        logs: below(app_data_dir, "logs"@, platform),
        npm_cache: below(data_root, "npm-cache"@, platform),
        smoke: below(data_root, "smoke"@, platform),
    }
}

/// Where things are below the two directories.
pub fn lay_out(resource_dir: &str, app_data_dir: &str, found: &FoundPaths, platform: Platform) -> (
    paths: Paths)
    ensures
        paths@ == layout(resource_dir@, app_data_dir@, *found, platform),
{
    let data_root = join_path(app_data_dir, "runtime", platform);
    Paths {
        node: resolve_resource(resource_dir, bundled_node_resource(platform), found, platform),
        node_launcher: resolve_resource(resource_dir, "node-launcher.mjs", found, platform),
        npm_cli: resolve_resource(
            resource_dir,
            "npm/node_modules/npm/bin/npm-cli.js",
            found,
            platform,
        ),
        bundled_runtime: resolve_resource(resource_dir, "bootstrap-runtime", found, platform),
        runtimes: join_path(data_root.as_str(), "versions", platform),
        state: join_path(data_root.as_str(), "state.json", platform),
        logs: join_path(app_data_dir, "logs", platform),
        npm_cache: join_path(data_root.as_str(), "npm-cache", platform),
        smoke: join_path(data_root.as_str(), "smoke", platform),
    }
}

/// The first of the files that must come with the application and was not found.
pub open spec fn missing_resource(paths: PathsView, found: FoundPaths) -> Option<Seq<char>> {
    if !found.holds(paths.node) {
        Some(paths.node)
    } else if !found.holds(paths.node_launcher) {
        Some(paths.node_launcher)
    } else if !found.holds(paths.npm_cli) {
        Some(paths.npm_cli)
    } else if !found.holds(paths.bundled_runtime) {
        Some(paths.bundled_runtime)
    } else {
        None
    }
}

/// Why the manifest that came with the application is of no use: the runtime has no
/// version, or it was made for another computer.
pub open spec fn manifest_error(manifest: BundledManifest, host: Host) -> Option<Seq<char>> {
    if semver_parse(manifest.dsh_version@) is Err {
        Some(semver_parse(manifest.dsh_version@)->Err_0)
    } else if manifest.platform@ != node_platform(host.os@) || manifest.arch@ != node_arch(
        host.arch@,
    ) {
        Some(
            "bundled runtime targets "@ + manifest.platform@ + "-"@ + manifest.arch@
                + ", but this computer is "@ + node_platform(host.os@) + "-"@ + node_arch(
                host.arch@,
            ),
        )
    } else {
        None
    }
}

/// Why the application cannot use what came with it.
pub open spec fn setup_error(
    manifest: BundledManifest,
    paths: PathsView,
    found: FoundPaths,
    host: Host,
) -> Option<Seq<char>> {
    match manifest_error(manifest, host) {
        Some(reason) => Some(reason),
        None => match missing_resource(paths, found) {
            Some(path) => Some("bundled runtime resource is missing: "@ + path),
            None => None,
        },
    }
}

/// Checks the manifest that came with the application.
pub fn check_manifest(manifest: &BundledManifest, host: &Host) -> (verdict: Result<(), String>)
    ensures
        match manifest_error(*manifest, *host) {
            Some(reason) => verdict matches Err(message) && message@ == reason,
            None => verdict is Ok,
        },
{
    if let Err(error) = parse_version(manifest.dsh_version.as_str()) {
        return Err(error);
    }
    let platform = node_platform_name(host.os.as_str());
    let arch = node_arch_name(host.arch.as_str());
    if !same(manifest.platform.as_str(), platform) || !same(manifest.arch.as_str(), arch) {
        let mut message = cat4(
            "bundled runtime targets ",
            manifest.platform.as_str(),
            "-",
            manifest.arch.as_str(),
        );
        message.append(", but this computer is ");
        message.append(platform);
        message.append("-");
        message.append(arch);
        return Err(message);
    }
    Ok(())
}

/// Checks that the application can use what came with it.
pub fn check_setup(
    manifest: &BundledManifest,
    paths: &Paths,
    found: &FoundPaths,
    host: &Host,
) -> (verdict: Result<(), String>)
    ensures
        match setup_error(*manifest, paths@, *found, *host) {
            Some(reason) => verdict matches Err(message) && message@ == reason,
            None => verdict is Ok,
        },
{
    if let Err(error) = check_manifest(manifest, host) {
        return Err(error);
    }
    if !found.has(paths.node.as_str()) {
        return Err(cat2("bundled runtime resource is missing: ", paths.node.as_str()));
    }
    if !found.has(paths.node_launcher.as_str()) {
        return Err(cat2("bundled runtime resource is missing: ", paths.node_launcher.as_str()));
    }
    if !found.has(paths.npm_cli.as_str()) {
        return Err(cat2("bundled runtime resource is missing: ", paths.npm_cli.as_str()));
    }
    if !found.has(paths.bundled_runtime.as_str()) {
        return Err(cat2("bundled runtime resource is missing: ", paths.bundled_runtime.as_str()));
    }
    Ok(())
}

/// The runtimes of the application.
pub struct RuntimeManager {
    pub paths: Paths,
    pub manifest: BundledManifest,
    pub terminal_command: TerminalCommandManager,
    pub platform: Platform,
    pub state: RuntimeState,
    pub startup: Option<StartupInfo>,
    pub update_status: RuntimeUpdateSnapshot,
    pub update_scheduled: bool,
    pub update_running: bool,
    pub shutting_down: bool,
}

/// The part of a [`RuntimeManager`] that changes.
#[verifier::ext_equal]
pub struct RuntimeManagerView {
    pub state: RuntimeStateView,
    pub startup: Option<StartupInfoView>,
    pub update_status: RuntimeUpdateSnapshotView,
    pub update_scheduled: bool,
    pub update_running: bool,
    pub shutting_down: bool,
}

impl View for RuntimeManager {
    type V = RuntimeManagerView;

    open spec fn view(&self) -> RuntimeManagerView {
        RuntimeManagerView {
            state: self.state@,
            startup: match self.startup {
                Some(info) => Some(info@),
                None => None,
            },
            update_status: self.update_status@,
            update_scheduled: self.update_scheduled,
            update_running: self.update_running,
            shutting_down: self.shutting_down,
        }
    }
}

/// Where a version is: in its own directory, or, for the one that came with the
/// application, where that lies. There is none without the program of the
/// runtime.
pub open spec fn location(
    paths: PathsView,
    bundled: Seq<char>,
    version: Seq<char>,
    found: FoundPaths,
    platform: Platform,
) -> Option<Seq<char>> {
    let installed = below(paths.runtimes, version, platform);
    if found.holds(cli_of(installed, platform)) {
        Some(installed)
    } else if version == bundled && found.holds(cli_of(paths.bundled_runtime, platform)) {
        Some(paths.bundled_runtime)
    } else {
        None
    }
}

impl RuntimeManager {
    /// Nothing that stays fixed after the set-up differs.
    pub open spec fn same_setup(self, other: RuntimeManager) -> bool {
        &&& self.paths == other.paths
        &&& self.manifest == other.manifest
        &&& self.terminal_command == other.terminal_command
        &&& self.platform == other.platform
    }

    /// Where a version is.
    pub open spec fn place(self, version: Seq<char>, found: FoundPaths) -> Option<Seq<char>> {
        location(self.paths@, self.manifest.dsh_version@, version, found, self.platform)
    }

    /// The runtimes below the two directories, with what came with the application
    /// and what an earlier run left. The directories are brought into the form that
    /// Node.js takes first.
    pub fn new(
        resource_dir: &str,
        app_data_dir: &str,
        manifest: BundledManifest,
        saved: Option<RuntimeState>,
        found: &FoundPaths,
        host: &Host,
    ) -> (manager: Result<RuntimeManager, String>)
        ensures
            exists|resources: Seq<char>, app_data: Seq<char>|
                #![trigger layout(resources, app_data, *found, host.platform)]
                node_form(resource_dir@, resources, host.platform) && node_form(
                    app_data_dir@,
                    app_data,
                    host.platform,
                ) && match setup_error(
                    manifest,
                    layout(resources, app_data, *found, host.platform),
                    *found,
                    *host,
                ) {
                    Some(reason) => manager matches Err(message) && message@ == reason,
                    None => manager matches Ok(manager) && manager.is_initial(
                        resources,
                        app_data,
                        manifest,
                        saved,
                        *found,
                        host.platform,
                    ),
                },
    {
        let resources = node_compatible_path(resource_dir, host.platform);
        let app_data = node_compatible_path(app_data_dir, host.platform);
        RuntimeManager::set_up(
            resources.as_str(),
            app_data.as_str(),
            manifest,
            saved,
            found,
            host,
        )
    }

    /// The manager as the set-up leaves it: the files in their places, the saved
    /// state, and a waiting version shown as ready.
    pub open spec fn is_initial(
        self,
        resource_dir: Seq<char>,
        app_data_dir: Seq<char>,
        manifest: BundledManifest,
        saved: Option<RuntimeState>,
        found: FoundPaths,
        platform: Platform,
    ) -> bool {
        let state = match saved {
            Some(state) => state@,
            None => first_state(),
        };
        &&& self.paths@ == layout(resource_dir, app_data_dir, found, platform)
        &&& self.manifest == manifest
        &&& self.platform == platform
        &&& self.terminal_command.root@ == below(app_data_dir, "terminal"@, platform)
        &&& self.terminal_command.node@ == self.paths.node@
        &&& self.terminal_command.bundled_runtime@ == self.paths.bundled_runtime@
        &&& self.terminal_command.runtimes@ == self.paths.runtimes@
        &&& self.terminal_command.state@ == self.paths.state@
        &&& self.terminal_command.platform == platform
        &&& self@ == (RuntimeManagerView {
            state,
            startup: None,
            update_status: match state.pending {
                Some(version) => ready_update(version),
                None => idle_update(),
            },
            update_scheduled: false,
            update_running: false,
            shutting_down: false,
        })
    }

    /// The runtimes below the two directories, which are already in the form that
    /// Node.js takes.
    pub fn set_up(
        resource_dir: &str,
        app_data_dir: &str,
        manifest: BundledManifest,
        saved: Option<RuntimeState>,
        found: &FoundPaths,
        host: &Host,
    ) -> (manager: Result<RuntimeManager, String>)
        ensures
            match setup_error(
                manifest,
                layout(resource_dir@, app_data_dir@, *found, host.platform),
                *found,
                *host,
            ) {
                Some(reason) => manager matches Err(message) && message@ == reason,
                None => manager matches Ok(manager) && manager.is_initial(
                    resource_dir@,
                    app_data_dir@,
                    manifest,
                    saved,
                    *found,
                    host.platform,
                ),
            },
    {
        let platform = host.platform;
        let paths = lay_out(resource_dir, app_data_dir, found, platform);
        check_setup(&manifest, &paths, found, host)?;
        let state = match saved {
            Some(state) => state,
            None => RuntimeState::default(),
        };
        let terminal_command = TerminalCommandManager::new(
            app_data_dir,
            paths.node.clone(),
            paths.bundled_runtime.clone(),
            paths.runtimes.clone(),
            paths.state.clone(),
            platform,
        );
        let update_status = match &state.pending {
            Some(version) => RuntimeUpdateSnapshot::ready(version.as_str()),
            None => RuntimeUpdateSnapshot::default(),
        };
        Ok(
            RuntimeManager {
                paths,
                manifest,
                terminal_command,
                platform,
                state,
                startup: None,
                update_status,
                update_scheduled: false,
                update_running: false,
                shutting_down: false,
            },
        )
    }

    /// Where a version is.
    pub fn runtime_path(&self, version: &str, found: &FoundPaths) -> (path: Option<String>)
        ensures
            path.deep_view() == self.place(version@, *found),
    {
        let installed = join_path(self.paths.runtimes.as_str(), version, self.platform);
        if found.has(runtime_cli(installed.as_str(), self.platform).as_str()) {
            return Some(installed);
        }
        if same(version, self.manifest.dsh_version.as_str()) && found.has(
            runtime_cli(self.paths.bundled_runtime.as_str(), self.platform).as_str(),
        ) {
            return Some(self.paths.bundled_runtime.clone());
        }
        None
    }
}

/// A held version that can be started.
pub open spec fn startable(
    version: Option<Seq<char>>,
    paths: PathsView,
    bundled: Seq<char>,
    found: FoundPaths,
    platform: Platform,
) -> bool {
    version matches Some(version) && location(paths, bundled, version, found, platform) is Some
}

/// The state before a start. Versions that are gone are forgotten, the one that
/// came with the application takes the place of a lost active one, and it also
/// takes over where it is newer than the active one and nothing waits.
pub open spec fn reconciled(
    state: RuntimeStateView,
    paths: PathsView,
    bundled: Seq<char>,
    found: FoundPaths,
    platform: Platform,
) -> RuntimeStateView {
    let kept = startable(state.active, paths, bundled, found, platform);
    let active = if kept {
        state.active->0
    } else {
        bundled
    };
    let pending = if startable(state.pending, paths, bundled, found, platform) {
        state.pending
    } else {
        None
    };
    let previous = if kept && startable(state.previous, paths, bundled, found, platform) {
        state.previous
    } else {
        None
    };
    if pending is None && newer(bundled, active) {
        RuntimeStateView { active: Some(bundled), previous: Some(active), pending, ..state }
    } else {
        RuntimeStateView { active: Some(active), previous, pending, ..state }
    }
}

impl RuntimeManager {
    /// The state of this manager before a start.
    pub open spec fn reconciled_state(self, found: FoundPaths) -> RuntimeStateView {
        reconciled(
            self.state@,
            self.paths@,
            self.manifest.dsh_version@,
            found,
            self.platform,
        )
    }

    fn can_start(&self, version: &Option<String>, found: &FoundPaths) -> (yes: bool)
        ensures
            yes == startable(
                version.deep_view(),
                self.paths@,
                self.manifest.dsh_version@,
                *found,
                self.platform,
            ),
    {
        match version {
            Some(version) => self.runtime_path(version.as_str(), found).is_some(),
            None => false,
        }
    }

    /// Brings the state in line with what is on disk.
    pub fn reconcile_state(&mut self, found: &FoundPaths)
        ensures
            final(self).same_setup(*old(self)),
            final(self)@ == (RuntimeManagerView {
                state: old(self).reconciled_state(*found),
                ..old(self)@
            }),
    {
        if !self.can_start(&self.state.active, found) {
            self.state.active = Some(self.manifest.dsh_version.clone());
            self.state.previous = None;
        }
        if !self.can_start(&self.state.pending, found) {
            self.state.pending = None;
        }
        if !self.can_start(&self.state.previous, found) {
            self.state.previous = None;
        }
        if self.state.pending.is_none() {
            if let Some(active) = &self.state.active {
                let active: String = active.clone();
                if version_is_newer(self.manifest.dsh_version.as_str(), active.as_str()) {
                    self.state.previous = Some(active);
                    self.state.active = Some(self.manifest.dsh_version.clone());
                }
            }
        }
    }

    /// The programs whose presence decides which versions can be started.
    pub fn probe_paths(&self) -> (paths: Vec<String>)
        ensures
            forall|version: Seq<char>|
                self.state@.active == Some(version) || self.state@.pending == Some(version)
                    || self.state@.previous == Some(version) || version
                    == self.manifest.dsh_version@ ==> paths.deep_view().contains(
                    #[trigger] cli_of(below(self.paths@.runtimes, version, self.platform), self.platform),
                ),
            paths.deep_view().contains(cli_of(self.paths@.bundled_runtime, self.platform)),
    {
        let versions = launch_candidates(&self.state, self.manifest.dsh_version.as_str());
        proof {
            law_candidates(self.state@, self.manifest.dsh_version@);
        }
        let mut paths: Vec<String> = Vec::new();
        let mut i: usize = 0;
        while i < versions.len()
            invariant
                i <= versions.len(),
                paths@.len() == i,
                forall|j: int|
                    0 <= j < i ==> #[trigger] paths.deep_view()[j] == cli_of(
                        below(self.paths@.runtimes, versions.deep_view()[j], self.platform),
                        self.platform,
                    ),
            decreases versions.len() - i,
        {
            let installed = join_path(
                self.paths.runtimes.as_str(),
                versions[i].as_str(),
                self.platform,
            );
            let ghost before = paths.deep_view();
            let cli = runtime_cli(installed.as_str(), self.platform);
            let ghost text = cli@;
            paths.push(cli);
            proof {
                assert(paths.deep_view() =~= before.push(text));
            }
            i += 1;
        }
        let ghost listed = paths.deep_view();
        let bundled = runtime_cli(self.paths.bundled_runtime.as_str(), self.platform);
        let ghost text = bundled@;
        paths.push(bundled);
        proof {
            let all = paths.deep_view();
            assert(all =~= listed.push(text));
            assert(all[listed.len() as int] == text);
            assert forall|version: Seq<char>|
                self.state@.active == Some(version) || self.state@.pending == Some(version)
                    || self.state@.previous == Some(version) || version
                    == self.manifest.dsh_version@ implies all.contains(
                #[trigger] cli_of(below(self.paths@.runtimes, version, self.platform), self.platform),
            ) by {
                let tried = versions.deep_view();
                if self.state@.pending == Some(version) {
                    assert(tried[0] == version);
                }
                assert(tried.contains(version));
                let at = choose|at: int| 0 <= at < tried.len() && tried[at] == version;
                assert(listed[at] == cli_of(
                    below(self.paths@.runtimes, version, self.platform),
                    self.platform,
                ));
                assert(all[at] == listed[at]);
            }
        }
        paths
    }
}

/// Whatever the state was, a version is active afterwards; and where the one that
/// came with the application can be started, so can every version that the state
/// names.
pub proof fn law_reconciled_versions_can_start(
    state: RuntimeStateView,
    paths: PathsView,
    bundled: Seq<char>,
    found: FoundPaths,
    platform: Platform,
)
    requires
        location(paths, bundled, bundled, found, platform) is Some,
    ensures
        ({
            let after = reconciled(state, paths, bundled, found, platform);
            &&& startable(after.active, paths, bundled, found, platform)
            &&& after.pending is Some ==> startable(after.pending, paths, bundled, found, platform)
            &&& after.previous is Some ==> startable(
                after.previous,
                paths,
                bundled,
                found,
                platform,
            )
            &&& forall|version: Seq<char>| #[trigger]
                candidates(after, bundled).contains(version) ==> location(
                    paths,
                    bundled,
                    version,
                    found,
                    platform,
                ) is Some
        }),
{
    law_candidates(reconciled(state, paths, bundled, found, platform), bundled);
}

/// Where the versions on disk stay as they are, a second look changes nothing. This
/// fails where the version that came with the application takes over though it is
/// not on disk.
pub proof fn law_reconciling_is_idempotent(
    state: RuntimeStateView,
    paths: PathsView,
    bundled: Seq<char>,
    found: FoundPaths,
    platform: Platform,
)
    requires
        location(paths, bundled, bundled, found, platform) is Some || !startable(
            state.active,
            paths,
            bundled,
            found,
            platform,
        ) || reconciled(state, paths, bundled, found, platform).active == state.active,
    ensures
        ({
            let once = reconciled(state, paths, bundled, found, platform);
            reconciled(once, paths, bundled, found, platform) == once
        }),
{
    law_newer_is_a_strict_order(bundled, bundled, bundled);
}

/// A look at the disk leaves the channel and the times of the checks alone, keeps
/// a version that waits and can be started, and never makes an older version
/// active in place of one that can be started.
pub proof fn law_reconciling_does_not_downgrade(
    state: RuntimeStateView,
    paths: PathsView,
    bundled: Seq<char>,
    found: FoundPaths,
    platform: Platform,
)
    ensures
        ({
            let after = reconciled(state, paths, bundled, found, platform);
            &&& after.update_channel == state.update_channel
            &&& after.last_update_attempt == state.last_update_attempt
            &&& after.last_successful_check == state.last_successful_check
            &&& startable(state.pending, paths, bundled, found, platform) ==> after.pending
                == state.pending
            &&& startable(state.active, paths, bundled, found, platform) ==> after.active
                == state.active || (after.active == Some(bundled) && newer(
                bundled,
                state.active->0,
            ) && after.previous == state.active)
        }),
{
}

impl RuntimeManager {
    /// Changes what the user sees of updates.
    pub fn set_update_status(
        &mut self,
        phase: RuntimeUpdatePhase,
        target_version: Option<String>,
        detail: Option<String>,
    )
        ensures
            final(self).same_setup(*old(self)),
            final(self)@ == (RuntimeManagerView {
                update_status: RuntimeUpdateSnapshotView {
                    phase,
                    target_version: target_version.deep_view(),
                    detail: detail.deep_view(),
                },
                ..old(self)@
            }),
    {
        self.update_status = RuntimeUpdateSnapshot { phase, target_version, detail };
    }
}

/// The rank of a version among those to try.
pub open spec fn start_rank(state: RuntimeStateView, version: Seq<char>) -> int {
    if state.pending == Some(version) {
        0
    } else if state.active == Some(version) {
        1
    } else if state.previous == Some(version) {
        2
    } else {
        3
    }
}

/// The version that waits is tried before the active one, that one before the
/// previous one, and any of them before the one that came with the application.
pub proof fn law_candidates_come_in_order(state: RuntimeStateView, bundled: Seq<char>)
    ensures
        forall|i: int, j: int|
            0 <= i < j < candidates(state, bundled).len() ==> start_rank(
                state,
                #[trigger] candidates(state, bundled)[i],
            ) < start_rank(state, #[trigger] candidates(state, bundled)[j]),
        ({
            let pending = state.pending;
            let active = state.active;
            let previous = state.previous;
            pending is Some && active is Some && previous is Some && pending != active && pending
                != previous && active != previous && pending != Some(bundled) && active != Some(
                bundled,
            ) && previous != Some(bundled) ==> candidates(state, bundled) == seq![
                pending->0,
                active->0,
                previous->0,
                bundled,
            ]
        }),
{
    let none: Seq<Seq<char>> = Seq::empty();
    let first = with_version(none, state.pending);
    let second = with_version(first, state.active);
    let third = with_version(second, state.previous);
    let all = candidates(state, bundled);
    lemma_with_version(none, state.pending);
    lemma_with_version(first, state.active);
    lemma_with_version(second, state.previous);
    lemma_with_version(third, Some(bundled));
    assert(forall|i: int| 0 <= i < first.len() ==> start_rank(state, #[trigger] first[i]) == 0);
    assert(forall|i: int|
        first.len() <= i < second.len() ==> start_rank(state, #[trigger] second[i]) == 1) by {
        if second.len() > first.len() {
            if state.pending == state.active {
                assert(first.contains(first[0]));
            }
        }
    }
    assert(forall|i: int|
        second.len() <= i < third.len() ==> start_rank(state, #[trigger] third[i]) == 2) by {
        if third.len() > second.len() {
            if state.pending == state.previous {
                assert(second[0] == state.pending->0);
                assert(second.contains(second[0]));
            }
        }
    }
    assert(forall|i: int|
        third.len() <= i < all.len() ==> start_rank(state, #[trigger] all[i]) == 3) by {
        if all.len() > third.len() {
            assert(!third.contains(bundled));
            if state.pending == Some(bundled) {
                assert(first.contains(bundled));
            }
        }
    }
    assert forall|i: int, j: int| 0 <= i < j < all.len() implies start_rank(
        state,
        #[trigger] all[i],
    ) < start_rank(state, #[trigger] all[j]) by {
        assert(first =~= second.take(first.len() as int));
        assert(second =~= third.take(second.len() as int));
        assert(third =~= all.take(third.len() as int));
        if i < third.len() {
            assert(all[i] == third[i]);
            if i < second.len() {
                assert(third[i] == second[i]);
                if i < first.len() {
                    assert(second[i] == first[i]);
                }
            }
        }
        if j < third.len() {
            assert(all[j] == third[j]);
            if j < second.len() {
                assert(third[j] == second[j]);
                if j < first.len() {
                    assert(second[j] == first[j]);
                }
            }
        }
    }
    if state.pending is Some && state.active is Some && state.previous is Some && state.pending
        != state.active && state.pending != state.previous && state.active != state.previous
        && state.pending != Some(bundled) && state.active != Some(bundled) && state.previous
        != Some(bundled) {
        assert(first =~= seq![state.pending->0]);
        assert(!first.contains(state.active->0));
        assert(second =~= seq![state.pending->0, state.active->0]);
        assert(!second.contains(state.previous->0));
        assert(third =~= seq![state.pending->0, state.active->0, state.previous->0]);
        assert(!third.contains(bundled));
        assert(all =~= seq![state.pending->0, state.active->0, state.previous->0, bundled]);
    }
}

/// A check is due where none was made yet. After one that succeeded none is due for
/// half a day, after any attempt none for an hour, and after both one is.
pub proof fn law_checks_are_made_twice_a_day(state: RuntimeStateView, now: u64)
    ensures
        state.last_successful_check is None && state.last_update_attempt is None ==> check_due(
            state,
            now,
        ),
        state.last_successful_check matches Some(success) && now < success + 12 * 60 * 60
            ==> !check_due(state, now),
        state.last_update_attempt matches Some(attempt) && now < attempt + 60 * 60 ==> !check_due(
            state,
            now,
        ),
        (state.last_successful_check matches Some(success) ==> now >= success + 12 * 60 * 60) && (
        state.last_update_attempt matches Some(attempt) ==> now >= attempt + 60 * 60) ==> check_due(
            state,
            now,
        ),
{
}

/// Choosing the channel that is followed already changes nothing, and a change of it
/// forgets what was known of the other one.
pub proof fn law_channel_choice(state: RuntimeStateView, channel: RuntimeUpdateChannel)
    ensures
        state.update_channel == channel ==> channel_selected(state, channel) == state,
        state.update_channel != channel ==> channel_selected(state, channel) == (RuntimeStateView {
            active: state.active,
            previous: state.previous,
            pending: None,
            last_update_attempt: None,
            last_successful_check: None,
            update_channel: channel,
        }),
{
}

/// A file is taken from directly below the resource directory where it is there, else
/// from below `resources` in it; so it is found wherever either is.
pub proof fn law_resource_is_found_where_it_is(
    root: Seq<char>,
    relative: Seq<char>,
    found: FoundPaths,
    platform: Platform,
)
    ensures
        ({
            let direct = below(root, relative, platform);
            let nested = below(below(root, "resources"@, platform), relative, platform);
            let path = resource(root, relative, found, platform);
            &&& path == direct || path == nested
            &&& found.paths.deep_view().contains(direct) ==> path == direct
            &&& !found.paths.deep_view().contains(direct) ==> path == nested
        }),
{
}

/// What came with the application lies below the resource directory, and what it keeps
/// below the data directory: every runtime, the state, the cache and the trials in a
/// place of their own.
pub proof fn law_everything_has_its_place(
    resource_dir: Seq<char>,
    app_data_dir: Seq<char>,
    found: FoundPaths,
    platform: Platform,
)
    ensures
        ({
            let paths = layout(resource_dir, app_data_dir, found, platform);
            let data = below(app_data_dir, "runtime"@, platform);
            &&& paths.node == resource(
                resource_dir,
                if platform is Windows {
                    "node/node.exe"@
                } else {
                    "node/bin/node"@
                },
                found,
                platform,
            )
            &&& paths.node_launcher == resource(
                resource_dir,
                "node-launcher.mjs"@,
                found,
                platform,
            )
            &&& paths.npm_cli == resource(
                resource_dir,
                "npm/node_modules/npm/bin/npm-cli.js"@,
                found,
                platform,
            )
            &&& paths.bundled_runtime == resource(
                resource_dir,
                "bootstrap-runtime"@,
                found,
                platform,
            )
            &&& paths.runtimes == below(data, "versions"@, platform)
            &&& paths.state == below(data, "state.json"@, platform)
            &&& paths.npm_cache == below(data, "npm-cache"@, platform)
            &&& paths.smoke == below(data, "smoke"@, platform)
            &&& paths.logs == below(app_data_dir, "logs"@, platform)
        }),
{
}

/// The program of a runtime is the one of its package.
pub proof fn law_program_of_a_runtime(runtime: Seq<char>, platform: Platform)
    ensures
        cli_of(runtime, platform) == below(
            runtime,
            "node_modules/@deepseek-ai/dsh/lib/bin.js"@,
            platform,
        ),
{
}

/// Nothing is missing exactly where all four files were found, and what is said to be
/// missing is one of them that was not.
pub proof fn law_missing_resource_was_not_found(paths: PathsView, found: FoundPaths)
    ensures
        ({
            let held = found.paths.deep_view();
            let required = seq![
                paths.node,
                paths.node_launcher,
                paths.npm_cli,
                paths.bundled_runtime,
            ];
            &&& missing_resource(paths, found) is None <==> forall|i: int|
                0 <= i < 4 ==> held.contains(#[trigger] required[i])
            &&& missing_resource(paths, found) matches Some(path) ==> exists|i: int|
                0 <= i < 4 && #[trigger] required[i] == path && !held.contains(path) && forall|
                    earlier: int,
                |
                    0 <= earlier < i ==> held.contains(#[trigger] required[earlier])
        }),
{
    let required = seq![paths.node, paths.node_launcher, paths.npm_cli, paths.bundled_runtime];
    assert(required[0] == paths.node && required[1] == paths.node_launcher && required[2]
        == paths.npm_cli && required[3] == paths.bundled_runtime);
    if let Some(path) = missing_resource(paths, found) {
        let at: int = if !found.holds(paths.node) {
            0
        } else if !found.holds(paths.node_launcher) {
            1
        } else if !found.holds(paths.npm_cli) {
            2
        } else {
            3
        };
        assert(required[at] == path);
        assert(forall|earlier: int|
            0 <= earlier < at ==> found.paths.deep_view().contains(#[trigger] required[earlier]));
    }
}

/// The application can be used exactly where its runtime has a version, was made for
/// this computer, and nothing is missing; of several faults the first is told.
pub proof fn law_setup_succeeds_exactly_on_a_whole_bundle(
    manifest: BundledManifest,
    paths: PathsView,
    found: FoundPaths,
    host: Host,
)
    ensures
        ({
            let valid = semver_parse(manifest.dsh_version@) is Ok;
            let fits = manifest.platform@ == node_platform(host.os@) && manifest.arch@ == node_arch(
                host.arch@,
            );
            let whole = missing_resource(paths, found) is None;
            let error = setup_error(manifest, paths, found, host);
            &&& error is None <==> valid && fits && whole
            &&& manifest_error(manifest, host) is None <==> valid && fits
            &&& !valid ==> error == Some(semver_parse(manifest.dsh_version@)->Err_0)
            &&& valid && !fits ==> error == Some(
                "bundled runtime targets "@ + manifest.platform@ + "-"@ + manifest.arch@
                    + ", but this computer is "@ + node_platform(host.os@) + "-"@ + node_arch(
                    host.arch@,
                ),
            )
            &&& valid && fits && !whole ==> error == Some(
                "bundled runtime resource is missing: "@ + missing_resource(paths, found)->0,
            )
        }),
{
}

/// A version is where its program was found: in its own directory before any other,
/// and only the one that came with the application where that lies. Without its
/// program it is nowhere.
pub proof fn law_version_is_where_its_program_is(
    paths: PathsView,
    bundled: Seq<char>,
    version: Seq<char>,
    found: FoundPaths,
    platform: Platform,
)
    ensures
        ({
            let held = found.paths.deep_view();
            let own = below(paths.runtimes, version, platform);
            let place = location(paths, bundled, version, found, platform);
            &&& place matches Some(path) ==> held.contains(cli_of(path, platform))
            &&& held.contains(cli_of(own, platform)) ==> place == Some(own)
            &&& !held.contains(cli_of(own, platform)) && version != bundled ==> place is None
            &&& !held.contains(cli_of(own, platform)) && version == bundled ==> place == if held.contains(
                cli_of(paths.bundled_runtime, platform),
            ) {
                Some(paths.bundled_runtime)
            } else {
                None
            }
        }),
{
}

/// A manager that was set up keeps what was saved, shows a version that waits as
/// ready, runs nothing yet, and gives the terminal command its own runtimes.
pub proof fn law_set_up_manager_is_at_its_beginning(
    manager: RuntimeManager,
    resource_dir: Seq<char>,
    app_data_dir: Seq<char>,
    manifest: BundledManifest,
    saved: Option<RuntimeState>,
    found: FoundPaths,
    platform: Platform,
)
    requires
        manager.is_initial(resource_dir, app_data_dir, manifest, saved, found, platform),
    ensures
        saved matches Some(state) ==> manager.state@ == state@,
        saved is None ==> manager.state@.active is None && manager.state@.previous is None
            && manager.state@.pending is None && manager.state@.last_update_attempt is None
            && manager.state@.last_successful_check is None && manager.state@.update_channel
            == RuntimeUpdateChannel::Latest,
        manager.state@.pending matches Some(version) ==> manager.update_status@.phase
            == RuntimeUpdatePhase::Ready && manager.update_status@.target_version == Some(version),
        manager.state@.pending is None ==> manager.update_status@.phase == RuntimeUpdatePhase::Idle
            && manager.update_status@.target_version is None,
        manager.startup is None && !manager.update_scheduled && !manager.update_running
            && !manager.shutting_down,
        manager.manifest == manifest,
        manager.platform == platform,
        manager.paths@ == layout(resource_dir, app_data_dir, found, platform),
        manager.terminal_command.root@ == below(app_data_dir, "terminal"@, platform),
        manager.terminal_command.node@ == manager.paths.node@,
        manager.terminal_command.bundled_runtime@ == manager.paths.bundled_runtime@,
        manager.terminal_command.runtimes@ == manager.paths.runtimes@,
        manager.terminal_command.state@ == manager.paths.state@,
        manager.terminal_command.platform == platform,
{
}

/// What the set-up fixes is the places, the manifest, the terminal command and the
/// platform.
pub proof fn law_same_setup(one: RuntimeManager, other: RuntimeManager)
    ensures
        one.same_setup(other) <==> one.paths == other.paths && one.manifest == other.manifest
            && one.terminal_command == other.terminal_command && one.platform == other.platform,
{
}

/// Before a start, what can be started stays: the version that waits, the active one
/// and the one to fall back to. A lost active version is replaced by the one that came
/// with the application, with nothing to fall back to; a lost one that waits, or to
/// fall back to, is forgotten. Only where nothing waits and the one that came with the
/// application is newer than the active one does it take over, and the active one is
/// then the one to fall back to.
pub proof fn law_reconciling_keeps_what_can_start(
    state: RuntimeStateView,
    paths: PathsView,
    bundled: Seq<char>,
    found: FoundPaths,
    platform: Platform,
)
    ensures
        ({
            let after = reconciled(state, paths, bundled, found, platform);
            let there = |version: Option<Seq<char>>|
                version is Some && location(paths, bundled, version->0, found, platform) is Some;
            let active = if there(state.active) {
                state.active->0
            } else {
                bundled
            };
            let takes_over = !there(state.pending) && newer(bundled, active);
            &&& after.pending == if there(state.pending) {
                state.pending
            } else {
                None
            }
            &&& takes_over ==> after.active == Some(bundled) && after.previous == Some(active)
            &&& !takes_over ==> after.active == Some(active)
            &&& !takes_over && there(state.active) && there(state.previous) ==> after.previous
                == state.previous
            &&& !takes_over && !(there(state.active) && there(state.previous)) ==> after.previous
                is None
        }),
{
}

/// The two channels are two tags of the package.
pub proof fn law_channels_are_tags()
    ensures
        RuntimeUpdateChannel::Latest.tag() == "latest"@,
        RuntimeUpdateChannel::Next.tag() == "next"@,
{
}

/// A version that waits is shown as ready, and nothing as idle.
pub proof fn law_waiting_version_is_shown(version: Seq<char>)
    ensures
        ready_update(version).phase == RuntimeUpdatePhase::Ready,
        ready_update(version).target_version == Some(version),
        ready_update(version).detail == Some("更新已就绪，重启后生效"@),
        idle_update().phase == RuntimeUpdatePhase::Idle,
        idle_update().target_version is None && idle_update().detail is None,
{
}

/// What contracts say of a [`StartupInfo`] they say of every part of it.
pub proof fn law_value_of_startup_info(value: StartupInfo)
    ensures
        value@.url == value.url@,
        value@.dsh_version == value.dsh_version@,
{
}

/// What contracts say of a [`RuntimeState`] they say of every part of it.
pub proof fn law_value_of_runtime_state(value: RuntimeState)
    ensures
        value@.active == value.active.deep_view(),
        value@.previous == value.previous.deep_view(),
        value@.pending == value.pending.deep_view(),
        value@.last_update_attempt == value.last_update_attempt,
        value@.last_successful_check == value.last_successful_check,
        value@.update_channel == value.update_channel,
{
}

/// What contracts say of a [`RuntimeUpdateSnapshot`] they say of every part of it.
pub proof fn law_value_of_runtime_update_snapshot(value: RuntimeUpdateSnapshot)
    ensures
        value@.phase == value.phase,
        value@.target_version == value.target_version.deep_view(),
        value@.detail == value.detail.deep_view(),
{
}

/// What contracts say of a [`RuntimeSnapshot`] they say of every part of it.
pub proof fn law_value_of_runtime_snapshot(value: RuntimeSnapshot)
    ensures
        value@.current_version == value.current_version@,
        value@.pending_version == value.pending_version.deep_view(),
        value@.node_version == value.node_version@,
        value@.npm_version == value.npm_version@,
        value@.update_channel == value.update_channel,
        value@.update == value.update@,
{
}

/// What contracts say of a [`Paths`] they say of every part of it.
pub proof fn law_value_of_paths(value: Paths)
    ensures
        value@.node == value.node@,
        value@.node_launcher == value.node_launcher@,
        value@.npm_cli == value.npm_cli@,
        value@.bundled_runtime == value.bundled_runtime@,
        value@.runtimes == value.runtimes@,
        value@.state == value.state@,
        value@.logs == value.logs@,
        value@.npm_cache == value.npm_cache@,
        value@.smoke == value.smoke@,
{
}

/// What contracts say of a [`RuntimeManager`] they say of every part of it.
pub proof fn law_value_of_runtime_manager(value: RuntimeManager)
    ensures
        value@.state == value.state@,
        value@.startup == (match value.startup {
                Some(info) => Some(info@),
                None => None,
            }),
        value@.update_status == value.update_status@,
        value@.update_scheduled == value.update_scheduled,
        value@.update_running == value.update_running,
        value@.shutting_down == value.shutting_down,
{
}

/// A manager looks for versions, and brings its state in line with the disk, by its own
/// places, its own bundled version and its own platform.
pub proof fn law_manager_goes_by_its_own_places(
    manager: RuntimeManager,
    version: Seq<char>,
    found: FoundPaths,
)
    ensures
        manager.place(version, found) == location(
            manager.paths@,
            manager.manifest.dsh_version@,
            version,
            found,
            manager.platform,
        ),
        manager.reconciled_state(found) == reconciled(
            manager.state@,
            manager.paths@,
            manager.manifest.dsh_version@,
            found,
            manager.platform,
        ),
{
}

} // verus!
