use std::collections::VecDeque;

use dsh_desktop::host::{log_directory_opener, node_arch_name, node_platform_name, Platform};
use dsh_desktop::launch::{
    poll_launch, taskkill_arguments, termination_step, web_command_args, LaunchAttempt, LaunchStep,
    ProcessState, TerminationStep,
};
use dsh_desktop::node_path::node_compatible_path;
use dsh_desktop::npm::output_text;
use dsh_desktop::paths::{user_home, FoundPaths, HomeVariables};
use dsh_desktop::runtime::{
    bundled_node_resource, compare_runtime_versions, launch_candidates, no_open_is_unsupported,
    parse_npm_version, parse_ready_url, prefixed_path_env_with, remember_stderr_line,
    resolve_resource, running_title, runtime_cli, select_update_channel, staged_title,
    update_check_is_due, update_is_due, update_package_manifest, with_stderr_tail,
    BundledManifest, Host, LaunchChoice, RuntimeManager, RuntimeState, RuntimeUpdateChannel,
    RuntimeUpdatePhase, RuntimeUpdateSnapshot, StartDecision, StartRun, FAILED_RETRY_SECS,
    START_TIMEOUT_SECS, UPDATE_DELAY_SECS, UPDATE_INTERVAL_SECS,
};
use dsh_desktop::runtime_commands::{
    node_path_prefixes, prebuilds_directory, prune_other_platforms, runtime_path_prefixes,
};
use dsh_desktop::runtime_update::{
    offered_from, offered_version, CheckAction, CheckEvent, RuntimeCheck, UpdateOutcome,
};
use dsh_desktop::staging::{InstallAction, InstallEvent, InstallFault};
use dsh_desktop::update_loop::{
    next_update_wait, DelayedCheck, Tick, UpdateLoop, NANOS_PER_SEC,
};
use dsh_desktop::version::version_is_newer;

#[test]
fn runtime_extracts_only_loopback_readiness_lines() {
    assert_eq!(
        parse_ready_url("dsh web: http://127.0.0.1:43121"),
        Some("http://127.0.0.1:43121".to_string())
    );
    assert_eq!(parse_ready_url("dsh web: http://0.0.0.0:43121"), None);
    assert_eq!(parse_ready_url("noise http://127.0.0.1:43121"), None);
}

#[test]
fn recognizes_only_the_no_open_compatibility_error() {
    assert!(no_open_is_unsupported("error: unknown option '--no-open'"));
    assert!(!no_open_is_unsupported("error: unknown option '--port'"));
    assert!(!no_open_is_unsupported("listen EADDRINUSE"));
}

#[test]
fn orders_pending_before_rollback_candidates_without_duplicates() {
    let state = RuntimeState {
        active: Some("1.0.0".to_string()),
        previous: Some("0.9.0".to_string()),
        pending: Some("1.1.0".to_string()),
        ..RuntimeState::default()
    };
    assert_eq!(
        launch_candidates(&state, "1.0.0"),
        ["1.1.0", "1.0.0", "0.9.0"]
    );
}

#[test]
fn respects_half_day_checks_and_short_failure_retries() {
    let now = 200_000;
    assert!(update_is_due(&RuntimeState::default(), now));
    assert!(!update_is_due(
        &RuntimeState {
            last_update_attempt: Some(now - 30),
            ..RuntimeState::default()
        },
        now
    ));
    assert!(!update_is_due(
        &RuntimeState {
            last_update_attempt: Some(now - FAILED_RETRY_SECS),
            last_successful_check: Some(now - 60),
            ..RuntimeState::default()
        },
        now
    ));
    assert!(update_is_due(
        &RuntimeState {
            last_update_attempt: Some(now - FAILED_RETRY_SECS),
            last_successful_check: Some(now - UPDATE_INTERVAL_SECS),
            ..RuntimeState::default()
        },
        now
    ));
    assert!(update_check_is_due(
        &RuntimeState {
            last_update_attempt: Some(now),
            last_successful_check: Some(now),
            ..RuntimeState::default()
        },
        now,
        true
    ));
}

#[test]
fn switching_channels_cancels_pending_work_without_downgrading_active() {
    let mut state = RuntimeState {
        active: Some("0.1.0-rc.8".to_string()),
        pending: Some("0.1.0-rc.9".to_string()),
        last_update_attempt: Some(100),
        last_successful_check: Some(90),
        update_channel: RuntimeUpdateChannel::Next,
        ..RuntimeState::default()
    };

    assert!(select_update_channel(
        &mut state,
        RuntimeUpdateChannel::Latest
    ));
    assert_eq!(state.active.as_deref(), Some("0.1.0-rc.8"));
    assert_eq!(state.pending, None);
    assert_eq!(state.last_update_attempt, None);
    assert_eq!(state.last_successful_check, None);
    assert!(!select_update_channel(
        &mut state,
        RuntimeUpdateChannel::Latest
    ));
    assert_eq!(state.update_channel.dist_tag(), "latest");
}

#[test]
fn the_default_channel_is_latest() {
    assert_eq!(
        RuntimeState::default().update_channel,
        RuntimeUpdateChannel::Latest
    );
    assert_eq!(RuntimeUpdateChannel::default().dist_tag(), "latest");
    assert_eq!(RuntimeUpdateChannel::Next.dist_tag(), "next");
}

#[test]
fn runtime_compares_prereleases_with_semver() {
    assert!(version_is_newer("0.1.0", "0.1.0-rc.6"));
    assert!(version_is_newer("0.1.0-rc.7", "0.1.0-rc.6"));
    assert!(!version_is_newer("0.1.0-rc.5", "0.1.0-rc.6"));
    assert_eq!(
        compare_runtime_versions("0.1.0-rc.7", "0.1.0-rc.8"),
        Ok(std::cmp::Ordering::Less)
    );
}

#[test]
fn normalizes_rust_target_names_to_node_names() {
    assert_eq!(node_platform_name("macos"), "darwin");
    assert_eq!(node_arch_name("aarch64"), "arm64");
    assert_eq!(node_platform_name("windows"), "win32");
    assert_eq!(node_arch_name("x86_64"), "x64");
    assert_eq!(node_platform_name("linux"), "linux");
}

#[test]
fn runtime_keeps_recent_stderr_in_the_startup_error() {
    let mut tail = VecDeque::new();
    remember_stderr_line(&mut tail, "first failure");
    remember_stderr_line(&mut tail, "second failure");
    assert_eq!(
        with_stderr_tail("启动失败".to_string(), &tail),
        "启动失败\n\n关键日志：\nfirst failure\nsecond failure"
    );
}

#[test]
fn simplifies_tauri_verbatim_paths_before_launching_node() {
    // The prefix is known on Windows alone.
    if std::path::MAIN_SEPARATOR == '\\' {
        assert_eq!(
            node_compatible_path(
                r"\\?\C:\Users\test\AppData\Local\DSH Desktop\resources",
                Platform::Windows
            ),
            r"C:\Users\test\AppData\Local\DSH Desktop\resources"
        );
    }
    assert_eq!(
        node_compatible_path(r"C:\Users\test\AppData\Roaming", Platform::Windows),
        r"C:\Users\test\AppData\Roaming"
    );
    assert_eq!(
        node_compatible_path(r"\\?\C:\data", Platform::Other),
        r"\\?\C:\data"
    );
}

#[test]
fn writes_the_scoped_dsh_dependency_and_install_script_policy() {
    let bytes = update_package_manifest("1.2.3").to_json().unwrap();
    let manifest: serde_json::Value = serde_json::from_slice(&bytes).unwrap();
    assert_eq!(
        manifest.pointer("/dependencies/@deepseek-ai~1dsh"),
        Some(&serde_json::Value::String("1.2.3".to_string()))
    );
    assert_eq!(
        manifest.pointer("/allowScripts/node-pty"),
        Some(&serde_json::Value::Bool(true))
    );
    assert!(manifest.pointer("/dependencies/PACKAGE_NAME").is_none());
    assert_eq!(
        manifest.pointer("/private"),
        Some(&serde_json::Value::Bool(true))
    );
    assert_eq!(
        manifest.pointer("/allowScripts").unwrap().as_object().unwrap().len(),
        5
    );
}

#[test]
fn a_legacy_runtime_is_tried_again_without_no_open() {
    let mut attempt = LaunchAttempt::first();
    assert_eq!(
        web_command_args(attempt.suppress_browser),
        ["web", "--port", "0", "--no-open"]
    );
    assert!(attempt.failed("进程在就绪前退出\nerror: unknown option '--no-open'"));
    assert_eq!(
        web_command_args(attempt.suppress_browser),
        ["web", "--port", "0"]
    );
    assert!(!attempt.failed("error: unknown option '--no-open'"));
    assert!(!LaunchAttempt::first().failed("listen EADDRINUSE"));
}

#[test]
fn a_started_process_is_watched_until_it_is_decided() {
    let ready = Some("http://127.0.0.1:1".to_string());
    assert!(matches!(
        poll_launch(ready, ProcessState::Exited("1".to_string()), true, "30s"),
        LaunchStep::Ready(url) if url == "http://127.0.0.1:1"
    ));
    assert!(matches!(
        poll_launch(None, ProcessState::Exited("exit status: 1".to_string()), true, "30s"),
        LaunchStep::Failed { reason, terminate: false, drain: true }
            if reason == "进程在就绪前退出（exit status: 1）"
    ));
    assert!(matches!(
        poll_launch(None, ProcessState::Unreadable("gone".to_string()), false, "30s"),
        LaunchStep::Failed { reason, terminate: false, drain: false }
            if reason == "无法读取进程状态：gone"
    ));
    assert!(matches!(
        poll_launch(None, ProcessState::Running, true, "30s"),
        LaunchStep::Failed { reason, terminate: true, drain: true }
            if reason == "30s 内没有收到就绪信号"
    ));
    assert!(matches!(
        poll_launch(None, ProcessState::Running, false, "30s"),
        LaunchStep::Wait
    ));
}

#[test]
fn a_process_gets_five_seconds_to_end() {
    assert_eq!(termination_step(false, 0), TerminationStep::Wait);
    assert_eq!(termination_step(true, 4_999), TerminationStep::Done);
    assert_eq!(termination_step(false, 5_000), TerminationStep::Force);
    assert_eq!(taskkill_arguments(42, false), ["/PID", "42", "/T"]);
    assert_eq!(taskkill_arguments(42, true), ["/F", "/PID", "42", "/T"]);
}

#[test]
fn the_tail_holds_twenty_short_lines() {
    let mut tail = VecDeque::new();
    for line in 0..25 {
        remember_stderr_line(&mut tail, &format!("line {line}"));
    }
    assert_eq!(tail.len(), 20);
    assert_eq!(tail[0], "line 5");
    assert_eq!(tail[19], "line 24");
    remember_stderr_line(&mut tail, &"é".repeat(1_001));
    assert_eq!(tail[19], format!("{}…", "é".repeat(1_000)));
    remember_stderr_line(&mut tail, &"é".repeat(1_000));
    assert_eq!(tail[19], "é".repeat(1_000));
    assert_eq!(with_stderr_tail("leer".to_string(), &VecDeque::new()), "leer");
}

#[test]
fn ready_lines_end_at_white_space() {
    assert_eq!(
        parse_ready_url("dsh web:   http://127.0.0.1:5/x?y  (press q)").as_deref(),
        Some("http://127.0.0.1:5/x?y")
    );
    assert_eq!(parse_ready_url("dsh web: "), None);
    assert_eq!(parse_ready_url("dsh web: https://127.0.0.1:5"), None);
}

const BUNDLED: &str = "1.0.0";

fn manifest() -> BundledManifest {
    BundledManifest {
        node_version: "24.1.0".to_string(),
        npm_version: "11.16.0".to_string(),
        dsh_version: BUNDLED.to_string(),
        platform: "linux".to_string(),
        arch: "x64".to_string(),
    }
}

fn host() -> Host {
    Host {
        platform: Platform::Other,
        os: "linux".to_string(),
        arch: "x86_64".to_string(),
    }
}

fn resources() -> FoundPaths {
    FoundPaths {
        paths: [
            "/res/node/bin/node",
            "/res/node-launcher.mjs",
            "/res/npm/node_modules/npm/bin/npm-cli.js",
            "/res/resources/bootstrap-runtime",
        ]
        .map(str::to_string)
        .to_vec(),
    }
}

fn manager(state: RuntimeState) -> RuntimeManager {
    RuntimeManager::new("/res", "/data", manifest(), Some(state), &resources(), &host())
        .expect("set up")
}

fn with_clis(versions: &[&str]) -> FoundPaths {
    let mut paths = vec![
        "/res/resources/bootstrap-runtime/node_modules/@deepseek-ai/dsh/lib/bin.js".to_string(),
    ];
    for version in versions {
        paths.push(runtime_cli(
            &format!("/data/runtime/versions/{version}"),
            Platform::Other,
        ));
    }
    FoundPaths { paths }
}

fn state(active: Option<&str>, previous: Option<&str>, pending: Option<&str>) -> RuntimeState {
    RuntimeState {
        active: active.map(str::to_string),
        previous: previous.map(str::to_string),
        pending: pending.map(str::to_string),
        ..RuntimeState::default()
    }
}

#[test]
fn the_runtime_is_set_up_from_what_came_with_the_application() {
    let manager = manager(state(None, None, Some("1.1.0")));
    assert_eq!(manager.paths.node, "/res/node/bin/node");
    assert_eq!(manager.paths.bundled_runtime, "/res/resources/bootstrap-runtime");
    assert_eq!(manager.paths.runtimes, "/data/runtime/versions");
    assert_eq!(manager.paths.state, "/data/runtime/state.json");
    assert_eq!(manager.paths.npm_cache, "/data/runtime/npm-cache");
    assert_eq!(manager.paths.smoke, "/data/runtime/smoke");
    assert_eq!(manager.terminal_command.root, "/data/terminal");
    assert_eq!(manager.desktop_log(), "/data/logs/desktop.log");
    assert_eq!(manager.runtime_log(), "/data/logs/dsh.log");
    let snapshot = manager.snapshot();
    assert_eq!(snapshot.current_version, BUNDLED);
    assert_eq!(snapshot.pending_version.as_deref(), Some("1.1.0"));
    assert_eq!(snapshot.node_version, "24.1.0");
    assert_eq!(snapshot.npm_version, "11.16.0");
    assert_eq!(snapshot.update.phase, RuntimeUpdatePhase::Ready);
    assert_eq!(snapshot.update.detail.as_deref(), Some("更新已就绪，重启后生效"));
}

#[test]
fn a_broken_set_up_is_refused() {
    let found = resources();
    let set_up = |manifest: BundledManifest, found: &FoundPaths| {
        RuntimeManager::new("/res", "/data", manifest, None, found, &host())
            .err()
            .expect("refused")
    };
    let wrong_version = BundledManifest { dsh_version: "one".to_string(), ..manifest() };
    assert_eq!(
        set_up(wrong_version, &found),
        semver::Version::parse("one").unwrap_err().to_string()
    );
    let wrong_arch = BundledManifest { arch: "arm64".to_string(), ..manifest() };
    assert_eq!(
        set_up(wrong_arch, &found),
        "bundled runtime targets linux-arm64, but this computer is linux-x64"
    );
    let mut fewer = resources();
    fewer.paths.remove(2);
    assert_eq!(
        set_up(manifest(), &fewer),
        "bundled runtime resource is missing: /res/resources/npm/node_modules/npm/bin/npm-cli.js"
    );
    assert_eq!(
        set_up(manifest(), &FoundPaths { paths: Vec::new() }),
        "bundled runtime resource is missing: /res/resources/node/bin/node"
    );
}

#[test]
fn resources_and_programs_have_their_places() {
    let found = FoundPaths { paths: vec!["/r/a".to_string()] };
    assert_eq!(resolve_resource("/r", "a", &found, Platform::Other), "/r/a");
    assert_eq!(resolve_resource("/r", "b", &found, Platform::Other), "/r/resources/b");
    assert_eq!(bundled_node_resource(Platform::Windows), "node/node.exe");
    assert_eq!(bundled_node_resource(Platform::Macos), "node/bin/node");
    assert_eq!(log_directory_opener(Platform::Windows), "explorer.exe");
    assert_eq!(log_directory_opener(Platform::Macos), "open");
    assert_eq!(log_directory_opener(Platform::Other), "xdg-open");
}

#[test]
fn a_start_forgets_versions_that_are_gone() {
    let mut manager = manager(state(Some("1.2.0"), Some("1.1.0"), Some("1.3.0")));
    let found = with_clis(&["1.1.0"]);
    manager.reconcile_state(&found);
    assert_eq!(manager.state.active.as_deref(), Some(BUNDLED));
    assert_eq!(manager.state.previous, None);
    assert_eq!(manager.state.pending, None);
    let once = manager.state.clone();
    manager.reconcile_state(&found);
    assert_eq!(manager.state.active, once.active);
    assert_eq!(manager.state.previous, once.previous);
    assert_eq!(manager.state.pending, once.pending);
}

#[test]
fn a_newer_bundled_version_takes_over_unless_one_waits() {
    let mut older = manager(state(Some("0.9.0"), None, None));
    older.reconcile_state(&with_clis(&["0.9.0"]));
    assert_eq!(older.state.active.as_deref(), Some(BUNDLED));
    assert_eq!(older.state.previous.as_deref(), Some("0.9.0"));

    let mut waiting = manager(state(Some("0.9.0"), None, Some("1.1.0")));
    waiting.reconcile_state(&with_clis(&["0.9.0", "1.1.0"]));
    assert_eq!(waiting.state.active.as_deref(), Some("0.9.0"));
    assert_eq!(waiting.state.pending.as_deref(), Some("1.1.0"));

    let mut newer = manager(state(Some("1.2.0"), Some("1.1.0"), None));
    newer.reconcile_state(&with_clis(&["1.2.0", "1.1.0"]));
    assert_eq!(newer.state.active.as_deref(), Some("1.2.0"));
    assert_eq!(newer.state.previous.as_deref(), Some("1.1.0"));
}

#[test]
fn the_probes_cover_every_version_that_may_be_started() {
    let manager = manager(state(Some("1.2.0"), Some("1.1.0"), Some("1.3.0")));
    let probes = manager.probe_paths();
    let wanted = with_clis(&["1.3.0", "1.2.0", "1.1.0", BUNDLED]);
    for path in wanted.paths {
        assert!(probes.contains(&path), "{path}");
    }
}

fn begin(manager: &mut RuntimeManager, found: &FoundPaths) -> StartRun {
    match manager.start(false, found) {
        StartDecision::Try(run) => run,
        StartDecision::Running(_) => panic!("runs already"),
    }
}

#[test]
fn a_waiting_version_is_started_and_kept() {
    let mut manager = manager(state(Some("1.1.0"), Some("1.0.5"), Some("1.2.0")));
    let found = with_clis(&["1.0.5", "1.1.0", "1.2.0"]);
    let mut run = begin(&mut manager, &found);
    match manager.next_launch(&mut run, &found) {
        LaunchChoice::Launch { version, path } => {
            assert_eq!(version, "1.2.0");
            assert_eq!(path, "/data/runtime/versions/1.2.0");
        }
        LaunchChoice::Failed(error) => panic!("{error}"),
    }
    manager.commit_launch(&run, "1.2.0");
    assert_eq!(manager.state.active.as_deref(), Some("1.2.0"));
    assert_eq!(manager.state.previous.as_deref(), Some("1.1.0"));
    assert_eq!(manager.state.pending, None);
    let info = manager.finish_launch("1.2.0", "http://127.0.0.1:1".to_string());
    assert_eq!(info.dsh_version, "1.2.0");
    assert_eq!(manager.snapshot().update.detail.as_deref(), Some("当前版本已就绪"));
    match manager.start(true, &found) {
        StartDecision::Running(info) => assert_eq!(info.url, "http://127.0.0.1:1"),
        StartDecision::Try(_) => panic!("not known to run"),
    }
    manager.terminate();
    assert!(matches!(manager.start(true, &found), StartDecision::Try(_)));
    assert!(!manager.shutting_down);
}

#[test]
fn a_failed_update_falls_back_to_the_active_version() {
    let mut manager = manager(state(Some("1.1.0"), Some("1.0.5"), Some("1.2.0")));
    let found = with_clis(&["1.0.5", "1.1.0", "1.2.0"]);
    let mut run = begin(&mut manager, &found);
    manager.next_launch(&mut run, &found);
    manager.launch_failed(&mut run, "1.2.0", "boom");
    assert!(matches!(
        manager.next_launch(&mut run, &found),
        LaunchChoice::Launch { version, .. } if version == "1.1.0"
    ));
    manager.commit_launch(&run, "1.1.0");
    assert_eq!(manager.state.active.as_deref(), Some("1.1.0"));
    assert_eq!(manager.state.previous.as_deref(), Some("1.0.5"));
    assert_eq!(manager.state.pending, None);
}

#[test]
fn a_start_without_any_version_names_every_failure() {
    let mut manager = manager(state(Some("1.1.0"), None, None));
    let before = with_clis(&["1.1.0"]);
    let mut run = begin(&mut manager, &before);
    let after = FoundPaths { paths: vec![runtime_cli("/data/runtime/versions/1.0.0", Platform::Other)] };
    assert!(matches!(
        manager.next_launch(&mut run, &after),
        LaunchChoice::Launch { version, path }
            if version == BUNDLED && path == "/data/runtime/versions/1.0.0"
    ));
    manager.launch_failed(&mut run, BUNDLED, "exit 1");
    match manager.next_launch(&mut run, &after) {
        LaunchChoice::Failed(error) => assert_eq!(
            error,
            "没有可启动的 DSH 版本。\nDSH 1.1.0: 安装目录不存在\nDSH 1.0.0: exit 1"
        ),
        LaunchChoice::Launch { version, .. } => panic!("{version}"),
    }
}

#[test]
fn the_channel_changes_only_between_checks() {
    let mut manager = manager(state(Some("1.1.0"), None, Some("1.2.0")));
    assert!(matches!(
        manager.set_update_channel(RuntimeUpdateChannel::Latest),
        Ok(None)
    ));
    let updated = manager
        .set_update_channel(RuntimeUpdateChannel::Next)
        .unwrap()
        .unwrap();
    assert_eq!(manager.state.pending.as_deref(), Some("1.2.0"));
    manager.commit_update_channel(updated);
    assert_eq!(manager.state.pending, None);
    assert_eq!(manager.state.active.as_deref(), Some("1.1.0"));
    assert_eq!(
        manager.snapshot().update.detail.as_deref(),
        Some("已切换到 npm next 通道")
    );
    let check = manager.check_for_updates(10, true).unwrap();
    assert_eq!(check.channel, RuntimeUpdateChannel::Next);
    assert_eq!(
        manager.set_update_channel(RuntimeUpdateChannel::Latest).err().as_deref(),
        Some("DSH 更新正在进行，请完成后再切换通道。")
    );
    assert!(manager.check_for_updates(10, true).is_none());
}

fn viewing(manager: &mut RuntimeManager) -> RuntimeCheck {
    let mut check = manager.check_for_updates(100, true).expect("check");
    assert!(matches!(
        manager.advance(&mut check, CheckEvent::Begin { now: 100 }),
        CheckAction::Save
    ));
    assert!(matches!(
        manager.advance(&mut check, CheckEvent::Saved),
        CheckAction::View
    ));
    check
}

fn weighed(manager: &mut RuntimeManager, check: &mut RuntimeCheck, offer: &str) -> CheckAction {
    let event = CheckEvent::Viewed(Ok(offer.to_string()));
    assert!(matches!(manager.advance(check, event), CheckAction::Save));
    manager.advance(check, CheckEvent::Saved)
}

#[test]
fn a_newer_version_is_installed_and_put_in_waiting() {
    let mut manager = manager(state(Some("1.1.0"), None, None));
    let mut check = viewing(&mut manager);
    assert_eq!(
        manager.update_status.detail.as_deref(),
        Some("正在查询 npm latest 通道")
    );
    match weighed(&mut manager, &mut check, "1.2.0") {
        CheckAction::Probe(path) => assert_eq!(
            path,
            "/data/runtime/versions/1.2.0/node_modules/@deepseek-ai/dsh/lib/bin.js"
        ),
        other => panic!("{other:?}"),
    }
    assert_eq!(manager.state.last_successful_check, Some(100));
    assert_eq!(manager.update_status.detail.as_deref(), Some("正在安装 DSH 1.2.0"));
    match manager.advance(&mut check, CheckEvent::Probed { installed: false }) {
        CheckAction::Install { version, destination } => {
            assert_eq!(version, "1.2.0");
            assert_eq!(destination, "/data/runtime/versions/1.2.0");
        }
        other => panic!("{other:?}"),
    }
    assert!(matches!(
        manager.advance(&mut check, CheckEvent::Installed),
        CheckAction::Save
    ));
    assert_eq!(manager.state.pending.as_deref(), Some("1.2.0"));
    match manager.advance(&mut check, CheckEvent::Saved) {
        CheckAction::Finish(Ok(UpdateOutcome::Staged(version))) => {
            assert_eq!(version, "1.2.0");
            manager.finish_check(check.channel, Ok(UpdateOutcome::Staged(version)));
        }
        other => panic!("{other:?}"),
    }
    assert!(!manager.update_running);
    assert_eq!(manager.state.active.as_deref(), Some("1.1.0"));
    assert_eq!(manager.snapshot().update.phase, RuntimeUpdatePhase::Ready);
}

#[test]
fn an_older_or_equal_version_is_not_installed() {
    let mut ahead = manager(state(Some("1.1.0"), None, None));
    let mut check = viewing(&mut ahead);
    match weighed(&mut ahead, &mut check, "1.1.0-rc.1") {
        CheckAction::Finish(result) => {
            match &result {
                Ok(UpdateOutcome::Ahead { active, target }) => {
                    assert_eq!(active, "1.1.0");
                    assert_eq!(target, "1.1.0-rc.1");
                }
                other => panic!("{other:?}"),
            }
            ahead.finish_check(check.channel, result);
        }
        other => panic!("{other:?}"),
    }
    assert_eq!(ahead.update_status.phase, RuntimeUpdatePhase::Ahead);
    assert_eq!(
        ahead.update_status.detail.as_deref(),
        Some("当前 DSH 1.1.0 高于 npm latest 的 1.1.0-rc.1，不会自动降级")
    );
    assert_eq!(ahead.state.pending, None);

    let mut equal = manager(state(None, None, None));
    let mut check = viewing(&mut equal);
    assert!(matches!(
        weighed(&mut equal, &mut check, BUNDLED),
        CheckAction::Finish(Ok(UpdateOutcome::Current))
    ));
    equal.finish_check(RuntimeUpdateChannel::Latest, Ok(UpdateOutcome::Current));
    assert_eq!(equal.update_status.detail.as_deref(), Some("已是 npm latest 当前版本"));
    equal.finish_check(RuntimeUpdateChannel::Next, Ok(UpdateOutcome::Current));
    assert_eq!(equal.update_status.detail.as_deref(), Some("已是 DSH Beta 当前版本"));
}

#[test]
fn a_check_stops_where_the_channel_changed_or_nothing_is_due() {
    let mut manager = manager(state(Some("1.1.0"), None, None));
    let mut check = viewing(&mut manager);
    manager.state.update_channel = RuntimeUpdateChannel::Next;
    let event = CheckEvent::Viewed(Ok("1.2.0".to_string()));
    assert!(matches!(
        manager.advance(&mut check, event),
        CheckAction::Finish(Ok(UpdateOutcome::Skipped))
    ));
    assert_eq!(manager.state.last_successful_check, None);
    manager.finish_check(check.channel, Ok(UpdateOutcome::Skipped));
    assert_eq!(manager.update_status.phase, RuntimeUpdatePhase::Idle);
    assert!(manager.check_for_updates(200, false).is_none());
    assert!(manager.check_for_updates(100 + FAILED_RETRY_SECS, false).is_some());
}

#[test]
fn a_failed_check_shows_its_error_and_keeps_the_target() {
    let mut manager = manager(state(Some("1.1.0"), None, None));
    let mut check = viewing(&mut manager);
    weighed(&mut manager, &mut check, "1.2.0");
    match manager.advance(&mut check, CheckEvent::Failed("disk full".to_string())) {
        CheckAction::Finish(result) => manager.finish_check(check.channel, result),
        other => panic!("{other:?}"),
    }
    assert_eq!(manager.update_status.phase, RuntimeUpdatePhase::Error);
    assert_eq!(manager.update_status.target_version.as_deref(), Some("1.2.0"));
    assert_eq!(manager.update_status.detail.as_deref(), Some("disk full"));
    assert!(matches!(
        manager.advance(&mut check, CheckEvent::Saved),
        CheckAction::Ignore
    ));
}

#[test]
fn an_unreadable_active_version_stops_the_check() {
    let mut manager = manager(state(Some("one"), None, None));
    let mut check = viewing(&mut manager);
    match weighed(&mut manager, &mut check, "1.2.0") {
        CheckAction::Finish(Err(error)) => assert_eq!(
            error,
            format!(
                "当前 DSH 版本 \"one\" 无效：{}",
                semver::Version::parse("one").unwrap_err()
            )
        ),
        other => panic!("{other:?}"),
    }
    assert_eq!(
        compare_runtime_versions("two", "1.0.0").unwrap_err(),
        format!(
            "候选 DSH 版本 \"two\" 无效：{}",
            semver::Version::parse("two").unwrap_err()
        )
    );
}

#[test]
fn what_npm_prints_becomes_an_offer() {
    let next = RuntimeUpdateChannel::Next;
    let offer = |success: bool, stdout: &str, stderr: &str| {
        offered_version(
            next,
            success,
            &stdout.as_bytes().to_vec(),
            &stderr.as_bytes().to_vec(),
        )
    };
    assert_eq!(offer(true, "\"1.2.0-rc.1\"\n", "noise"), Ok("1.2.0-rc.1".to_string()));
    assert_eq!(offer(true, " 1.2.0 \n", ""), Ok("1.2.0".to_string()));
    assert_eq!(
        offer(false, "\"1.2.0\"", " npm error E404 \n"),
        Err("npm view 失败：npm error E404".to_string())
    );
    assert_eq!(offer(true, " \n", ""), Err("npm view 返回了空版本".to_string()));
    assert_eq!(
        offer(true, "\"soon\"", ""),
        Err(format!(
            "npm next 不是合法版本 \"soon\"：{}",
            semver::Version::parse("soon").unwrap_err()
        ))
    );
    assert_eq!(
        offered_from(next, true, "", Ok("x".to_string()), Some("y".to_string())),
        Err("npm next 不是合法版本 \"x\"：y".to_string())
    );
    assert_eq!(parse_npm_version(b"\"1.0.0\\n\""), Ok("1.0.0\n".to_string()));
    assert_eq!(parse_npm_version(b"\"1.0.0"), Ok("1.0.0".to_string()));
    assert_eq!(output_text(&vec![0x61, 0xff, 0x62]), "a\u{fffd}b");
}

#[test]
fn a_staged_version_is_verified_before_it_is_moved() {
    let mut manager = manager(state(Some("1.1.0"), None, None));
    let mut install = manager.stage_install("1.2.0", "/data/runtime/versions/1.2.0", 77);
    assert_eq!(install.directory, "/data/runtime/versions/.staging-1.2.0-77");
    assert!(matches!(
        manager.advance_install(&mut install, InstallEvent::Prepared),
        InstallAction::RunInstall
    ));
    let ran = InstallEvent::InstallRan { success: true, errors: String::new() };
    assert!(matches!(
        manager.advance_install(&mut install, ran),
        InstallAction::ReadVersion
    ));
    assert_eq!(manager.update_status.phase, RuntimeUpdatePhase::Verifying);
    assert_eq!(
        manager.update_status.detail.as_deref(),
        Some("正在验证版本与启动能力")
    );
    let named = InstallEvent::VersionRan {
        now: 78,
        success: true,
        output: "1.2.0\n".to_string(),
    };
    match manager.advance_install(&mut install, named) {
        InstallAction::Smoke(home) => assert_eq!(home, "/data/runtime/smoke/1.2.0-78"),
        other => panic!("{other:?}"),
    }
    match manager.advance_install(&mut install, InstallEvent::SmokeRan(Ok(()))) {
        InstallAction::Commit { smoke_home } => {
            assert_eq!(smoke_home, "/data/runtime/smoke/1.2.0-78")
        }
        other => panic!("{other:?}"),
    }
    assert!(matches!(
        manager.advance_install(&mut install, InstallEvent::Committed),
        InstallAction::Finish { discard, result: Ok(()) } if discard.is_empty()
    ));
}

#[test]
fn a_version_that_fails_its_trial_is_deleted() {
    let stage = "/data/runtime/versions/.staging-1.2.0-77".to_string();
    for step in 0..3 {
        let mut manager = manager(state(Some("1.1.0"), None, None));
        let mut install = manager.stage_install("1.2.0", "/data/runtime/versions/1.2.0", 77);
        manager.advance_install(&mut install, InstallEvent::Prepared);
        let ran = InstallEvent::InstallRan { success: step != 0, errors: " EACCES \n".to_string() };
        let mut action = manager.advance_install(&mut install, ran);
        if step > 0 {
            let named = InstallEvent::VersionRan {
                now: 78,
                success: true,
                output: if step == 1 { "1.1.9\n" } else { "1.2.0" }.to_string(),
            };
            action = manager.advance_install(&mut install, named);
        }
        if step > 1 {
            let smoke = InstallEvent::SmokeRan(Err("no signal".to_string()));
            action = manager.advance_install(&mut install, smoke);
        }
        match action {
            InstallAction::Finish { discard, result } => {
                assert_eq!(discard.last(), Some(&stage));
                let error = result.unwrap_err();
                assert_eq!(
                    error,
                    [
                        "npm install 失败：EACCES",
                        "新版本验证失败：预期 1.2.0，实际 \"1.1.9\"",
                        "新版本启动验证失败：no signal",
                    ][step]
                );
            }
            other => panic!("{other:?}"),
        }
        assert!(matches!(
            manager.advance_install(&mut install, InstallEvent::Committed),
            InstallAction::Ignore
        ));
    }
}

#[test]
fn each_fault_of_an_installation_has_its_text() {
    let reason = || "why".to_string();
    let texts = [
        (InstallFault::CleanStage(reason()), "无法清理更新暂存目录：why"),
        (InstallFault::CreateStage(reason()), "无法创建更新暂存目录：why"),
        (InstallFault::WriteManifest(reason()), "无法写入更新清单：why"),
        (InstallFault::RunInstall(reason()), "无法执行 npm install：why"),
        (InstallFault::RunVersion(reason()), "无法验证新版本：why"),
        (InstallFault::CreateSmokeHome(reason()), "无法创建冒烟测试目录：why"),
        (InstallFault::ReplaceDestination(reason()), "无法替换损坏的版本目录：why"),
        (InstallFault::Commit(reason()), "无法提交新版本：why"),
        (InstallFault::Other(reason()), "why"),
    ];
    for (fault, text) in texts {
        assert_eq!(fault.text(), text);
        let mut manager = manager(state(None, None, None));
        let mut install = manager.stage_install("1.2.0", "/d", 77);
        match manager.advance_install(&mut install, InstallEvent::Failed(fault)) {
            InstallAction::Finish { discard, result } => {
                assert!(discard.is_empty());
                assert_eq!(result, Err(text.to_string()));
            }
            other => panic!("{other:?}"),
        }
    }
}

#[test]
fn the_commands_of_the_bundled_runtime() {
    let manager = manager(state(None, None, None));
    let path = || Ok("/res/node/bin:/usr/bin".to_string());
    let plan = manager
        .launch_command(
            "/data/runtime/versions/1.2.0",
            &Some("/smoke".to_string()),
            "/home/me",
            true,
            path(),
            Ok("/child".to_string()),
        )
        .unwrap();
    assert_eq!(plan.program, "/res/node/bin/node");
    assert_eq!(plan.directory.as_deref(), Some("/res"));
    assert!(plan.inherit);
    assert_eq!(
        plan.arguments,
        ["node-launcher.mjs", "web", "--port", "0", "--no-open"]
    );
    let pairs: Vec<(&str, &str)> = plan
        .environment
        .iter()
        .map(|(name, value)| (name.as_str(), value.as_str()))
        .collect();
    assert_eq!(
        pairs,
        [
            (
                "DSH_DESKTOP_NODE_ENTRY",
                "/data/runtime/versions/1.2.0/node_modules/@deepseek-ai/dsh/lib/bin.js"
            ),
            ("DSH_DESKTOP_NODE_CWD", "/home/me"),
            ("PATH", "/res/node/bin:/usr/bin"),
            ("NODE_ENV", "production"),
            ("DSH_DESKTOP", "1"),
            ("PATH", "/child"),
            ("DSH_HOME", "/smoke"),
        ]
    );
    let view = manager.view_command(RuntimeUpdateChannel::Next, path()).unwrap();
    assert_eq!(
        view.arguments,
        ["node-launcher.mjs", "view", "@deepseek-ai/dsh", "dist-tags.next", "--json"]
    );
    let install = manager.install_command("/stage", path()).unwrap();
    assert_eq!(install.arguments.len(), 7);
    assert_eq!(install.arguments[6], "--package-lock=false");
    assert_eq!(
        install.environment[5],
        ("npm_config_strict_allow_scripts".to_string(), "true".to_string())
    );
    let version = manager.version_command("/stage", path()).unwrap();
    assert_eq!(version.arguments, ["node-launcher.mjs", "--version"]);
    assert_eq!(version.environment[1].1, "/stage");
    assert_eq!(
        manager.version_command("/stage", Err("no PATH".to_string())).unwrap_err(),
        "no PATH"
    );
    assert_eq!(
        manager
            .launch_command("/r", &None, "/home/me", false, path(), Err("no child".to_string()))
            .unwrap_err(),
        "no child"
    );
    let logs = manager.open_logs();
    assert_eq!(logs.program, "xdg-open");
    assert_eq!(logs.arguments, ["/data/logs"]);
}

#[test]
fn a_launcher_without_a_name_is_refused() {
    let mut manager = manager(state(None, None, None));
    manager.paths.node_launcher = "/".to_string();
    assert_eq!(
        manager.version_command("/stage", Ok("/bin".to_string())).unwrap_err(),
        "捆绑的 Node 启动器目录无效"
    );
    manager.paths.node_launcher = "/res/..".to_string();
    assert_eq!(
        manager.version_command("/stage", Ok("/bin".to_string())).unwrap_err(),
        "捆绑的 Node 启动器文件名无效"
    );
}

#[test]
fn the_bundled_node_comes_first_on_the_path() {
    assert_eq!(
        node_path_prefixes("/res/node/bin/node", Platform::Other),
        Ok(vec!["/res/node/bin".to_string()])
    );
    assert_eq!(
        runtime_path_prefixes("/res/node/bin/node", "/r", Platform::Other),
        Ok(vec!["/res/node/bin".to_string(), "/r/node_modules/.bin".to_string()])
    );
    assert_eq!(
        node_path_prefixes("/", Platform::Other),
        Err("捆绑的 Node 路径没有父目录：/".to_string())
    );
    assert_eq!(
        runtime_path_prefixes("", "/r", Platform::Other),
        Err("捆绑的 Node 路径没有父目录：".to_string())
    );
    let joined = || Ok("/res/node/bin".to_string());
    assert_eq!(
        prefixed_path_env_with(joined(), &Some("/usr/bin:/bin".to_string()), Platform::Other),
        Ok("/res/node/bin:/usr/bin:/bin".to_string())
    );
    assert_eq!(
        prefixed_path_env_with(joined(), &Some("C:\\x".to_string()), Platform::Windows),
        Ok("/res/node/bin;C:\\x".to_string())
    );
    assert_eq!(
        prefixed_path_env_with(joined(), &Some(String::new()), Platform::Other),
        joined()
    );
    assert_eq!(prefixed_path_env_with(joined(), &None, Platform::Other), joined());
    assert_eq!(
        prefixed_path_env_with(Err("separator".to_string()), &None, Platform::Other),
        Err("无法为捆绑的 Node 构造 PATH：separator".to_string())
    );
}

#[test]
fn what_is_made_for_other_systems_is_left_out() {
    let entries = ["darwin-arm64", "linux-x64", "win32-x64"].map(str::to_string).to_vec();
    assert_eq!(
        prune_other_platforms(&entries, "linux", "x86_64"),
        ["darwin-arm64", "win32-x64"]
    );
    assert_eq!(
        prune_other_platforms(&entries, "macos", "aarch64"),
        ["linux-x64", "win32-x64"]
    );
    assert_eq!(
        prebuilds_directory("/r", Platform::Other),
        "/r/node_modules/node-pty/prebuilds"
    );
}

#[test]
fn the_packaged_runtime_is_tried_once() {
    let manager = manager(state(None, None, None));
    let run = manager.smoke_bundled_runtime(12, 34);
    assert_eq!(run.home, "/data/runtime/smoke/packaged-12-34");
    assert_eq!(run.runtime, "/res/resources/bootstrap-runtime");
    let info = run.report(Ok("http://127.0.0.1:9".to_string())).unwrap();
    assert_eq!(info.dsh_version, BUNDLED);
    assert_eq!(info.url, "http://127.0.0.1:9");
    assert_eq!(run.report(Err("late".to_string())).unwrap_err(), "late");
}

#[test]
fn the_next_check_is_waited_for_in_short_steps() {
    let mut manager = manager(state(None, None, None));
    assert_eq!(UPDATE_DELAY_SECS, 60);
    assert_eq!(START_TIMEOUT_SECS, 30);
    assert_eq!(next_update_wait(false), 60);
    assert_eq!(next_update_wait(true), 3600);
    let second = NANOS_PER_SEC;
    let mut checks = manager.schedule_update_check(second).unwrap();
    assert!(manager.schedule_update_check(2 * second).is_none());
    let mut at = |now, checked| manager.wait_for_update_tick(&mut checks, now, checked);
    assert_eq!(at(second, false), Tick::Sleep(60 * second));
    assert_eq!(at(61 * second - 15, false), Tick::Sleep(15));
    assert_eq!(at(61 * second, false), Tick::Fire);
    assert_eq!(at(61 * second, false), Tick::Sleep(60 * second));
    assert_eq!(at(62 * second, true), Tick::Sleep(60 * second));
    assert_eq!(at(3662 * second - 1, false), Tick::Sleep(1));
    assert_eq!(at(3662 * second, false), Tick::Fire);
    assert_eq!(at(3663 * second, true), Tick::Sleep(60 * second));
    manager.terminate();
    assert_eq!(
        manager.wait_for_update_tick(&mut checks, 3664 * second, false),
        Tick::Stop
    );
    assert_eq!(
        manager.wait_for_update_tick(&mut checks, 9000 * second, false),
        Tick::Stop
    );
    let mut late = UpdateLoop::new(0);
    assert_eq!(late.wake(60 * second, true, false), Tick::Stop);
    assert_eq!(late.wake(61 * second, false, false), Tick::Stop);
    // The end of the clock's range is no end of the wait.
    let mut last = UpdateLoop::new(u64::MAX);
    assert_eq!(last.wake(u64::MAX, false, false), Tick::Sleep(60 * second));
    let mut far = DelayedCheck::new(u64::MAX, u64::MAX);
    assert_eq!(far.wake(u64::MAX, false), Tick::Sleep(u64::MAX));
    // A clock that was set back counts as no time passed.
    let mut back = UpdateLoop::new(0);
    assert_eq!(back.wake(90 * second, false, false), Tick::Fire);
    assert_eq!(back.wake(5 * second, false, true), Tick::Sleep(60 * second));
    assert_eq!(back.wake(3689 * second, false, false), Tick::Sleep(second));
    assert_eq!(back.wake(3690 * second, false, false), Tick::Fire);
}

#[test]
fn a_waiting_version_is_shown_unless_something_more_urgent_is() {
    let mut manager = manager(state(Some("1.1.0"), None, Some("1.2.0")));
    for (phase, shown) in [
        (RuntimeUpdatePhase::Idle, RuntimeUpdatePhase::Ready),
        (RuntimeUpdatePhase::Current, RuntimeUpdatePhase::Ready),
        (RuntimeUpdatePhase::Ready, RuntimeUpdatePhase::Ready),
        (RuntimeUpdatePhase::Checking, RuntimeUpdatePhase::Checking),
        (RuntimeUpdatePhase::Installing, RuntimeUpdatePhase::Installing),
        (RuntimeUpdatePhase::Verifying, RuntimeUpdatePhase::Verifying),
        (RuntimeUpdatePhase::Ahead, RuntimeUpdatePhase::Ahead),
        (RuntimeUpdatePhase::Error, RuntimeUpdatePhase::Error),
    ] {
        manager.set_update_status(phase, None, None);
        assert_eq!(manager.snapshot().update.phase, shown);
    }
    manager.restore_resting_update_status();
    assert_eq!(manager.update_status.target_version.as_deref(), Some("1.2.0"));
    assert_eq!(
        RuntimeUpdateSnapshot::unreadable().detail.as_deref(),
        Some("无法读取 DSH 更新状态")
    );
    assert_eq!(running_title("1.2.0"), "DSH Desktop · DSH 1.2.0");
    assert_eq!(staged_title("1.2.0"), "DSH Desktop · DSH 1.2.0 可在重启后使用");
}

#[test]
fn the_home_directory_comes_from_the_environment() {
    let none = || HomeVariables {
        home: None,
        user_profile: None,
        home_drive: None,
        home_path: None,
        current: None,
    };
    let text = |value: &str| Some(value.to_string());
    assert_eq!(user_home(&none(), Platform::Other), ".");
    let current = HomeVariables { current: text("/work"), ..none() };
    assert_eq!(user_home(&current, Platform::Other), "/work");
    let drive = HomeVariables { home_drive: text("C:"), home_path: text("\\Users\\me"), ..current };
    assert_eq!(user_home(&drive, Platform::Windows), "C:\\Users\\me");
    let profile = HomeVariables { user_profile: text("D:\\me"), ..drive };
    assert_eq!(user_home(&profile, Platform::Windows), "D:\\me");
    let home = HomeVariables { home: text("/home/me"), ..profile };
    assert_eq!(user_home(&home, Platform::Windows), "/home/me");
}
