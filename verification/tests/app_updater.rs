use dsh_desktop::app_updater::{
    download_percentage, downloading_title, installed_title, update_is_due, update_question,
    user_update_error, AppUpdatePhase, AppUpdateSnapshot, AppUpdater, CheckAction, CheckEvent,
    CheckStage, UpdateCheck, UpdateFault, UpdateState, FAILED_RETRY_SECS, REQUEST_TIMEOUT_SECS,
    UPDATE_DELAY_SECS, UPDATE_INTERVAL_SECS,
};
use dsh_desktop::host::Platform;
use dsh_desktop::update_loop::{Tick, NANOS_PER_SEC};

#[test]
fn checks_daily_and_retries_failures_after_one_hour() {
    let now = 200_000;
    assert!(update_is_due(&UpdateState::default(), now));
    assert!(!update_is_due(
        &UpdateState {
            last_update_attempt: Some(now - 30),
            ..UpdateState::default()
        },
        now
    ));
    assert!(!update_is_due(
        &UpdateState {
            last_update_attempt: Some(now - FAILED_RETRY_SECS),
            last_successful_check: Some(now - 60),
        },
        now
    ));
    assert!(update_is_due(
        &UpdateState {
            last_update_attempt: Some(now - FAILED_RETRY_SECS),
            last_successful_check: Some(now - UPDATE_INTERVAL_SECS),
        },
        now
    ));
}

#[test]
fn reports_bounded_download_progress() {
    assert_eq!(download_percentage(25, Some(100)), Some(25));
    assert_eq!(download_percentage(150, Some(100)), Some(100));
    assert_eq!(download_percentage(25, None), None);
    assert_eq!(download_percentage(25, Some(0)), None);
}

#[test]
fn hides_transport_details_from_update_status() {
    assert_eq!(
        user_update_error(
            "GitHub update check failed: error sending request for url (https://example.test/latest.json)"
        ),
        "无法连接 GitHub，请检查网络后重试。"
    );
    assert_eq!(
        user_update_error("invalid updater signature"),
        "更新信息未通过校验，已停止安装。"
    );
    assert_eq!(
        user_update_error("unexpected updater failure"),
        "暂时无法检查更新，请稍后重试。"
    );
}

fn updater() -> AppUpdater {
    AppUpdater::new("/data", None, Platform::Macos)
}

fn started(updater: &mut AppUpdater, force: bool, now: u64) -> UpdateCheck {
    assert!(updater.check_for_updates());
    let mut check = UpdateCheck::new(force);
    assert!(matches!(
        updater.advance(&mut check, CheckEvent::Begin { now }),
        CheckAction::Save
    ));
    assert!(matches!(
        updater.advance(&mut check, CheckEvent::Saved),
        CheckAction::Query
    ));
    check
}

fn found(updater: &mut AppUpdater, check: &mut UpdateCheck, version: Option<&str>) -> CheckAction {
    let event = CheckEvent::Queried {
        now: 7,
        found: version.map(str::to_string),
    };
    assert!(matches!(updater.advance(check, event), CheckAction::Save));
    updater.advance(check, CheckEvent::Saved)
}

#[test]
fn the_times_are_what_the_documentation_says() {
    assert_eq!(UPDATE_DELAY_SECS, 2 * 60);
    assert_eq!(REQUEST_TIMEOUT_SECS, 30);
    assert_eq!(UPDATE_INTERVAL_SECS, 24 * 60 * 60);
    assert_eq!(FAILED_RETRY_SECS, 60 * 60);
}

#[test]
fn progress_does_not_go_back_and_ends_at_a_hundred() {
    let total = 3_000_000_007_u64;
    let mut last = 0;
    for step in 0..=100_u64 {
        let percent = download_percentage(total / 100 * step, Some(total)).unwrap();
        assert!(last <= percent && percent <= 100);
        last = percent;
    }
    assert_eq!(download_percentage(total, Some(total)), Some(100));
    assert_eq!(download_percentage(u64::MAX, Some(1)), Some(100));
    // The multiplication saturates, so that a huge download stays below a hundred.
    assert_eq!(download_percentage(u64::MAX, Some(u64::MAX)), Some(1));
}

#[test]
fn the_updater_keeps_its_files_below_the_application_data() {
    let saved = UpdateState {
        last_update_attempt: Some(1),
        last_successful_check: Some(2),
    };
    let updater = AppUpdater::new("/data", Some(saved), Platform::Other);
    assert_eq!(updater.state_path, "/data/app-update-state.json");
    assert_eq!(updater.log_path, "/data/logs/desktop.log");
    assert_eq!(updater.state, saved);
    assert_eq!(updater.snapshot().phase, AppUpdatePhase::Idle);
    let windows = AppUpdater::new("C:\\data", None, Platform::Windows);
    assert_eq!(windows.log_path, "C:\\data\\logs\\desktop.log");
    assert_eq!(windows.state, UpdateState::default());
}

#[test]
fn only_one_app_check_runs_and_is_scheduled() {
    let mut updater = updater();
    let mut check = updater.schedule_update_check(5).unwrap();
    assert!(updater.schedule_update_check(5).is_none());
    let delay = UPDATE_DELAY_SECS * NANOS_PER_SEC;
    assert_eq!(updater.wait_for_check(&mut check, 5), Tick::Sleep(delay));
    assert_eq!(updater.wait_for_check(&mut check, delay + 4), Tick::Sleep(1));
    assert_eq!(updater.wait_for_check(&mut check, delay + 5), Tick::Fire);
    assert_eq!(updater.wait_for_check(&mut check, delay + 6), Tick::Stop);
    assert!(updater.check_for_updates());
    assert_eq!(
        updater.snapshot().detail.as_deref(),
        Some("正在检查 GitHub Release")
    );
    assert!(!updater.check_for_updates());
    updater.finish_check();
    assert!(updater.check_for_updates());
}

#[test]
fn a_current_application_is_reported() {
    let mut updater = updater();
    let mut check = started(&mut updater, true, 5);
    assert_eq!(updater.state.last_update_attempt, Some(5));
    match found(&mut updater, &mut check, None) {
        CheckAction::Finish { notice: Some(notice) } => {
            assert_eq!(notice.title, "已经是最新版");
            assert_eq!(notice.text, "当前 DSH Desktop 已是最新版。");
            assert!(!notice.failed);
        }
        other => panic!("{other:?}"),
    }
    assert_eq!(updater.state.last_successful_check, Some(7));
    let snapshot = updater.snapshot();
    assert_eq!(snapshot.phase, AppUpdatePhase::Current);
    assert_eq!(snapshot.detail.as_deref(), Some("已是最新版本"));
    // A check that is over stays over.
    assert!(matches!(
        updater.advance(&mut check, CheckEvent::Answered { accepted: true }),
        CheckAction::Continue { log: None }
    ));
    assert_eq!(updater.snapshot().phase, AppUpdatePhase::Current);
}

#[test]
fn an_app_update_goes_from_the_question_to_the_restart() {
    let mut updater = updater();
    let mut check = started(&mut updater, false, 5);
    match found(&mut updater, &mut check, Some("2.0.0")) {
        CheckAction::Ask(version) => assert_eq!(version, "2.0.0"),
        other => panic!("{other:?}"),
    }
    assert_eq!(
        updater.snapshot().detail.as_deref(),
        Some("发现新版本 2.0.0")
    );
    match updater.advance(&mut check, CheckEvent::Answered { accepted: true }) {
        CheckAction::Download(version) => assert_eq!(version, "2.0.0"),
        other => panic!("{other:?}"),
    }
    assert_eq!(updater.snapshot().progress, Some(0));
    let mut logged = Vec::new();
    for _ in 0..10 {
        let event = CheckEvent::Chunk { length: 100, total: Some(1000) };
        match updater.advance(&mut check, event) {
            CheckAction::Continue { log } => logged.extend(log),
            other => panic!("{other:?}"),
        }
    }
    assert_eq!(logged, [30, 50, 80, 100]);
    assert_eq!(updater.snapshot().progress, Some(100));
    assert!(matches!(
        updater.advance(&mut check, CheckEvent::Downloaded),
        CheckAction::Continue { log: None }
    ));
    assert_eq!(
        updater.snapshot().detail.as_deref(),
        Some("下载完成，正在安装")
    );
    match updater.advance(&mut check, CheckEvent::Installed) {
        CheckAction::EndRuntime(version) => assert_eq!(version, "2.0.0"),
        other => panic!("{other:?}"),
    }
    assert!(!updater.shutting_down);
    assert_eq!(
        updater.snapshot().detail.as_deref(),
        Some("安装完成，正在重启")
    );
    match updater.advance(&mut check, CheckEvent::RuntimeEnded) {
        CheckAction::Restart(version) => assert_eq!(version, "2.0.0"),
        other => panic!("{other:?}"),
    }
    assert!(updater.shutting_down);
    assert_eq!(updater.snapshot().phase, AppUpdatePhase::Installing);
    assert_eq!(updater.snapshot().target_version.as_deref(), Some("2.0.0"));
}

#[test]
fn nothing_is_fetched_without_consent_or_while_ending() {
    for ending in [false, true] {
        let mut updater = updater();
        let mut check = started(&mut updater, true, 5);
        found(&mut updater, &mut check, Some("2.0.0"));
        if ending {
            updater.terminate();
        }
        let event = CheckEvent::Answered { accepted: ending };
        assert!(matches!(
            updater.advance(&mut check, event),
            CheckAction::Finish { notice: None }
        ));
        let snapshot = updater.snapshot();
        assert_eq!(snapshot.phase, AppUpdatePhase::Available);
        assert_eq!(snapshot.detail.as_deref(), Some("新版本可用，已稍后处理"));
        assert_eq!(snapshot.target_version.as_deref(), Some("2.0.0"));
    }
}

#[test]
fn a_check_that_is_not_due_is_skipped_unless_it_is_asked_for() {
    let mut updater = updater();
    updater.state.last_successful_check = Some(100);
    for force in [false, true] {
        assert!(updater.check_for_updates());
        let mut check = UpdateCheck::new(force);
        let action = updater.advance(&mut check, CheckEvent::Begin { now: 200 });
        assert_eq!(matches!(action, CheckAction::Save), force);
        updater.finish_check();
    }
    updater.terminate();
    let mut check = UpdateCheck::new(true);
    assert!(matches!(
        updater.advance(&mut check, CheckEvent::Begin { now: 900_000 }),
        CheckAction::Finish { notice: None }
    ));
    assert!(matches!(check.stage, CheckStage::Done));
    assert_eq!(updater.snapshot().phase, AppUpdatePhase::Idle);
    let mut check = updater.schedule_update_check(0).unwrap();
    let delay = UPDATE_DELAY_SECS * NANOS_PER_SEC;
    assert_eq!(updater.wait_for_check(&mut check, delay - 1), Tick::Sleep(1));
    assert_eq!(updater.wait_for_check(&mut check, delay), Tick::Stop);
}

#[test]
fn each_fault_becomes_a_sentence_for_the_user() {
    let faults = [
        (
            UpdateFault::Setup("no endpoint".to_string()),
            "无法初始化更新器：no endpoint",
            "暂时无法检查更新，请稍后重试。",
        ),
        (
            UpdateFault::Query("error SENDING request".to_string()),
            "GitHub 更新检查失败：error SENDING request",
            "无法连接 GitHub，请检查网络后重试。",
        ),
        (
            UpdateFault::Install("invalid Signature".to_string()),
            "下载或安装更新失败：invalid Signature",
            "更新信息未通过校验，已停止安装。",
        ),
        (
            UpdateFault::State("disk full".to_string()),
            "disk full",
            "暂时无法检查更新，请稍后重试。",
        ),
    ];
    for (fault, text, told) in faults {
        assert_eq!(fault.text(), text);
        for force in [false, true] {
            let mut updater = updater();
            let mut check = started(&mut updater, force, 5);
            let again = match &fault {
                UpdateFault::Setup(reason) => UpdateFault::Setup(reason.clone()),
                UpdateFault::Query(reason) => UpdateFault::Query(reason.clone()),
                UpdateFault::Install(reason) => UpdateFault::Install(reason.clone()),
                UpdateFault::State(reason) => UpdateFault::State(reason.clone()),
            };
            let state = updater.state;
            match updater.advance(&mut check, CheckEvent::Failed(again)) {
                CheckAction::Finish { notice } => {
                    assert_eq!(notice.is_some(), force);
                    if let Some(notice) = notice {
                        assert!(notice.failed);
                        assert_eq!(notice.title, "检查更新失败");
                        assert_eq!(notice.text, format!("{told}\n\n当前版本不受影响。"));
                    }
                }
                other => panic!("{other:?}"),
            }
            assert!(!updater.shutting_down);
            assert_eq!(updater.snapshot().phase, AppUpdatePhase::Error);
            assert_eq!(updater.snapshot().detail.as_deref(), Some(told));
            assert_eq!(updater.state, state);
        }
    }
}

#[test]
fn the_texts_of_an_app_update() {
    assert_eq!(
        update_question("2.0.0"),
        "发现 DSH Desktop 2.0.0。\n\n更新包会先经过签名验证，安装完成后应用将自动重启。"
    );
    assert_eq!(downloading_title("2.0.0"), "DSH Desktop · 正在下载 2.0.0");
    assert_eq!(
        installed_title("2.0.0"),
        "DSH Desktop · 2.0.0 已安装，正在重启"
    );
    let unreadable = AppUpdateSnapshot::unreadable();
    assert_eq!(unreadable.phase, AppUpdatePhase::Error);
    assert_eq!(unreadable.detail.as_deref(), Some("无法读取桌面更新状态"));
}
