//! Updates of the application itself: when a check is due, what the user sees
//! of it, and what happens from the first question to the restart.

use vstd::arithmetic::div_mod::lemma_div_is_ordered;
use vstd::prelude::*;

use crate::host::Platform;
use crate::paths::{below, join_path};
use crate::schedule::{due, is_due};
use crate::text::{cat2, cat3, contains_any, has_any, has_text};
use crate::trim::{lower, lowered};
use crate::update_loop::{
    delayed_from, delayed_step, delayed_tick, law_delayed_check_is_made_once,
    law_delayed_check_waits, DelayedCheck, Tick, Wake, NANOS_PER_SEC,
};

pub use crate::schedule::FAILED_RETRY_SECS;

verus! {

/// The seconds between the start of the application and the first check.
pub const UPDATE_DELAY_SECS: u64 = 120;

/// The seconds after which a request is given up.
pub const REQUEST_TIMEOUT_SECS: u64 = 30;

/// The seconds between two checks that succeeded.
pub const UPDATE_INTERVAL_SECS: u64 = 86400;

/// What is kept on disk between two runs.
#[derive(Clone, Copy, Debug, PartialEq, Eq, Structural)]
pub struct UpdateState {
    pub last_update_attempt: Option<u64>,
    pub last_successful_check: Option<u64>,
}

impl Default for UpdateState {
    /// No check was ever made.
    fn default() -> (state: UpdateState)
        ensures
            state.last_update_attempt is None,
            state.last_successful_check is None,
    {
        UpdateState { last_update_attempt: None, last_successful_check: None }
    }
}

/// How far an update has come.
#[derive(Clone, Copy, Debug, PartialEq, Eq, Structural)]
pub enum AppUpdatePhase {
    Idle,
    Checking,
    Current,
    Available,
    Downloading,
    Installing,
    Error,
}

impl Default for AppUpdatePhase {
    fn default() -> (phase: AppUpdatePhase)
        ensures
            phase == AppUpdatePhase::Idle,
    {
        AppUpdatePhase::Idle
    }
}

/// What the user sees of an update.
#[derive(Debug)]
pub struct AppUpdateSnapshot {
    pub phase: AppUpdatePhase,
    pub target_version: Option<String>,
    pub progress: Option<u8>,
    pub detail: Option<String>,
}

/// The value of an [`AppUpdateSnapshot`].
#[verifier::ext_equal]
pub struct AppUpdateSnapshotView {
    pub phase: AppUpdatePhase,
    pub target_version: Option<Seq<char>>,
    pub progress: Option<u8>,
    pub detail: Option<Seq<char>>,
}

impl View for AppUpdateSnapshot {
    type V = AppUpdateSnapshotView;

    open spec fn view(&self) -> AppUpdateSnapshotView {
        AppUpdateSnapshotView {
            phase: self.phase,
            target_version: self.target_version.deep_view(),
            progress: self.progress,
            detail: self.detail.deep_view(),
        }
    }
}

/// Nothing is going on.
pub open spec fn idle_status() -> AppUpdateSnapshotView {
    AppUpdateSnapshotView {
        phase: AppUpdatePhase::Idle,
        target_version: None,
        progress: None,
        detail: None,
    }
}

impl Default for AppUpdateSnapshot {
    fn default() -> (snapshot: AppUpdateSnapshot)
        ensures
            snapshot@ == idle_status(),
    {
        AppUpdateSnapshot {
            phase: AppUpdatePhase::Idle,
            target_version: None,
            progress: None,
            detail: None,
        }
    }
}

impl Clone for AppUpdateSnapshot {
    fn clone(&self) -> (copy: AppUpdateSnapshot)
        ensures
            copy@ == self@,
    {
        AppUpdateSnapshot {
            phase: self.phase,
            target_version: self.target_version.clone(),
            progress: self.progress,
            detail: self.detail.clone(),
        }
    }
}

impl AppUpdateSnapshot {
    /// What is shown where the state of the updates cannot be read.
    pub fn unreadable() -> (snapshot: AppUpdateSnapshot)
        ensures
            snapshot@ == (AppUpdateSnapshotView {
                phase: AppUpdatePhase::Error,
                target_version: None,
                progress: None,
                detail: Some("无法读取桌面更新状态"@),
            }),
    {
        AppUpdateSnapshot {
            phase: AppUpdatePhase::Error,
            target_version: None,
            progress: None,
            detail: Some("无法读取桌面更新状态".to_string()),
        }
    }
}

/// A check is due: a day after the last one that succeeded, and an hour after
/// the last attempt.
pub fn update_is_due(state: &UpdateState, now: u64) -> (yes: bool)
    ensures
        yes == due(
            state.last_successful_check,
            state.last_update_attempt,
            now,
            UPDATE_INTERVAL_SECS,
        ),
{
    is_due(state.last_successful_check, state.last_update_attempt, now, UPDATE_INTERVAL_SECS)
}

/// The hundredths that have arrived; above what fits the multiplication stays at
/// its greatest value.
pub open spec fn hundredths(downloaded: u64, total: u64) -> int
    recommends
        total > 0,
{
    (if downloaded * 100 > u64::MAX {
        u64::MAX as int
    } else {
        downloaded * 100
    }) / (total as int)
}

fn percentage(downloaded: u64, total: u64) -> (percent: u64)
    requires
        total > 0,
    ensures
        percent == hundredths(downloaded, total),
{
    let scaled: u64 = if downloaded > u64::MAX / 100 {
        u64::MAX
    } else {
        downloaded * 100
    };
    scaled / total
}

/// The progress that is shown: none without a total.
pub open spec fn shown_percentage(downloaded: u64, total: Option<u64>) -> Option<u8> {
    match total {
        Some(total) if total > 0 => Some(
            (if hundredths(downloaded, total) > 100 {
                100
            } else {
                hundredths(downloaded, total)
            }) as u8,
        ),
        _ => None,
    }
}

/// The progress that is shown.
pub fn download_percentage(downloaded: u64, total: Option<u64>) -> (percent: Option<u8>)
    ensures
        percent == shown_percentage(downloaded, total),
{
    match total {
        Some(total) => if total > 0 {
            let percent: u64 = percentage(downloaded, total);
            proof {
                vstd::arithmetic::div_mod::lemma_div_pos_is_pos(
                    if downloaded * 100 > u64::MAX {
                        u64::MAX as int
                    } else {
                        downloaded * 100
                    },
                    total as int,
                );
            }
            if percent > 100 {
                Some(100)
            } else {
                Some(percent as u8)
            }
        } else {
            None
        },
        None => None,
    }
}

proof fn lemma_hundredths_grow(less: u64, more: u64, total: u64)
    requires
        less <= more,
        total > 0,
    ensures
        0 <= hundredths(less, total) <= hundredths(more, total),
{
    let low = if less * 100 > u64::MAX {
        u64::MAX as int
    } else {
        less * 100
    };
    let high = if more * 100 > u64::MAX {
        u64::MAX as int
    } else {
        more * 100
    };
    lemma_div_is_ordered(low, high, total as int);
    lemma_div_is_ordered(0, low, total as int);
    assert(0int / (total as int) == 0) by (nonlinear_arith)
        requires
            total > 0,
    ;
}

/// The progress stays at most a hundred and does not go back while more
/// arrives.
pub proof fn law_progress_is_bounded_and_grows(less: u64, more: u64, total: u64)
    requires
        less <= more,
        total > 0,
    ensures
        shown_percentage(less, Some(total)) is Some,
        shown_percentage(less, Some(total))->0 <= shown_percentage(more, Some(total))->0 <= 100,
{
    lemma_hundredths_grow(less, more, total);
}

/// Once everything has arrived the progress is a hundred, for every total whose
/// hundredfold fits into 64 bits.
pub proof fn law_whole_download_is_complete(total: u64)
    requires
        0 < total,
        total * 100 <= u64::MAX,
    ensures
        shown_percentage(total, Some(total)) == Some(100u8),
{
    assert((total * 100) / (total as int) == 100) by (nonlinear_arith)
        requires
            total > 0,
    ;
}

/// What the words of a failed connection are.
pub open spec fn connection_words() -> Seq<Seq<char>> {
    seq!["sending request"@, "connect"@, "timed out"@, "timeout"@, "dns"@, "econn"@]
}

/// What the words of a failed check of the update are.
pub open spec fn verification_words() -> Seq<Seq<char>> {
    seq!["signature"@, "签名"@, "json"@]
}

/// What the user is told of an error, whatever the case of its letters.
pub open spec fn update_error_text(error: Seq<char>) -> Seq<char> {
    if has_any(lowered(error), connection_words()) {
        "无法连接 GitHub，请检查网络后重试。"@
    } else if has_any(lowered(error), verification_words()) {
        "更新信息未通过校验，已停止安装。"@
    } else {
        "暂时无法检查更新，请稍后重试。"@
    }
}

/// What the user is told of an error.
pub fn user_update_error(error: &str) -> (message: &'static str)
    ensures
        message@ == update_error_text(error@),
{
    let low = lower(error);
    let connection: Vec<String> = vec![
        "sending request".to_string(),
        "connect".to_string(),
        "timed out".to_string(),
        "timeout".to_string(),
        "dns".to_string(),
        "econn".to_string(),
    ];
    let verification: Vec<String> = vec![
        "signature".to_string(),
        "签名".to_string(),
        "json".to_string(),
    ];
    assert(connection.deep_view() =~= connection_words());
    assert(verification.deep_view() =~= verification_words());
    if contains_any(low.as_str(), &connection) {
        "无法连接 GitHub，请检查网络后重试。"
    } else if contains_any(low.as_str(), &verification) {
        "更新信息未通过校验，已停止安装。"
    } else {
        "暂时无法检查更新，请稍后重试。"
    }
}

/// The updates of the application.
pub struct AppUpdater {
    pub state_path: String,
    pub log_path: String,
    pub state: UpdateState,
    pub status: AppUpdateSnapshot,
    pub check_scheduled: bool,
    pub check_running: bool,
    pub shutting_down: bool,
}

/// The value of an [`AppUpdater`].
#[verifier::ext_equal]
pub struct AppUpdaterView {
    pub state_path: Seq<char>,
    pub log_path: Seq<char>,
    pub state: UpdateState,
    pub status: AppUpdateSnapshotView,
    pub check_scheduled: bool,
    pub check_running: bool,
    pub shutting_down: bool,
}

impl View for AppUpdater {
    type V = AppUpdaterView;

    open spec fn view(&self) -> AppUpdaterView {
        AppUpdaterView {
            state_path: self.state_path@,
            log_path: self.log_path@,
            state: self.state,
            status: self.status@,
            check_scheduled: self.check_scheduled,
            check_running: self.check_running,
            shutting_down: self.shutting_down,
        }
    }
}

/// Why a check failed.
#[derive(Debug)]
pub enum UpdateFault {
    /// The updater could not be set up.
    Setup(String),
    /// The release could not be looked up.
    Query(String),
    /// The update could not be fetched or installed.
    Install(String),
    /// The state of the updates could not be kept.
    State(String),
}

/// The text of a fault.
pub open spec fn fault_text(fault: UpdateFault) -> Seq<char> {
    match fault {
        UpdateFault::Setup(reason) => "无法初始化更新器："@ + reason@,
        UpdateFault::Query(reason) => "GitHub 更新检查失败："@ + reason@,
        UpdateFault::Install(reason) => "下载或安装更新失败："@ + reason@,
        UpdateFault::State(reason) => reason@,
    }
}

impl UpdateFault {
    /// The text of the fault.
    pub fn text(&self) -> (text: String)
        ensures
            text@ == fault_text(*self),
    {
        match self {
            UpdateFault::Setup(reason) => cat2("无法初始化更新器：", reason.as_str()),
            UpdateFault::Query(reason) => cat2("GitHub 更新检查失败：", reason.as_str()),
            UpdateFault::Install(reason) => cat2("下载或安装更新失败：", reason.as_str()),
            UpdateFault::State(reason) => reason.clone(),
        }
    }
}

/// How far a check has come.
pub enum CheckStage {
    /// Nothing was done yet.
    Start,
    /// The attempt is being written down.
    SavingAttempt,
    /// The release is being looked up.
    Querying,
    /// The success is being written down; this version was found.
    SavingSuccess(Option<String>),
    /// The user is being asked.
    Asking(String),
    /// The update is on its way: so much has arrived, and the next entry of the
    /// log is due at this percentage.
    Downloading { version: String, downloaded: u64, next_percentage: u64 },
    /// The update is being installed.
    Installing(String),
    /// This version is in place, and the runtime is being ended.
    Ending(String),
    Done,
}

/// The value of a [`CheckStage`].
pub enum CheckStageView {
    Start,
    SavingAttempt,
    Querying,
    SavingSuccess(Option<Seq<char>>),
    Asking(Seq<char>),
    Downloading { version: Seq<char>, downloaded: u64, next_percentage: u64 },
    Installing(Seq<char>),
    Ending(Seq<char>),
    Done,
}

impl View for CheckStage {
    type V = CheckStageView;

    open spec fn view(&self) -> CheckStageView {
        match self {
            CheckStage::Start => CheckStageView::Start,
            CheckStage::SavingAttempt => CheckStageView::SavingAttempt,
            CheckStage::Querying => CheckStageView::Querying,
            CheckStage::SavingSuccess(found) => CheckStageView::SavingSuccess(found.deep_view()),
            CheckStage::Asking(version) => CheckStageView::Asking(version@),
            CheckStage::Downloading { version, downloaded, next_percentage } =>
                CheckStageView::Downloading {
                version: version@,
                downloaded: *downloaded,
                next_percentage: *next_percentage,
            },
            CheckStage::Installing(version) => CheckStageView::Installing(version@),
            CheckStage::Ending(version) => CheckStageView::Ending(version@),
            CheckStage::Done => CheckStageView::Done,
        }
    }
}

/// One check. One that the user asked for answers in any case.
pub struct UpdateCheck {
    pub force: bool,
    pub stage: CheckStage,
}

/// What happened outside.
pub enum CheckEvent {
    /// The check may begin, at this time.
    Begin { now: u64 },
    /// The state was written.
    Saved,
    /// The release was looked up, at this time: there is a newer version, or
    /// none.
    Queried { now: u64, found: Option<String> },
    /// The user answered.
    Answered { accepted: bool },
    /// A piece arrived, of so many bytes; so many are expected in all.
    Chunk { length: u64, total: Option<u64> },
    /// Everything arrived.
    Downloaded,
    /// The update is in place.
    Installed,
    /// The runtime was ended.
    RuntimeEnded,
    /// A step failed.
    Failed(UpdateFault),
}

/// What is to be done outside.
#[derive(Debug)]
pub enum CheckAction {
    /// The state is to be written.
    Save,
    /// The release is to be looked up.
    Query,
    /// The user is to be asked about this version.
    Ask(String),
    /// This version is to be fetched and installed.
    Download(String),
    /// The check goes on; this percentage is noted in the log.
    Continue { log: Option<u64> },
    /// This version is in place, and the runtime is to be ended.
    EndRuntime(String),
    /// The application is to be started again, with this version.
    Restart(String),
    /// The check is over, with a message for the user where there is one.
    Finish { notice: Option<UpdateNotice> },
}

/// A message for the user.
#[derive(Debug)]
pub struct UpdateNotice {
    pub title: String,
    pub text: String,
    pub failed: bool,
}

/// The value of a [`CheckAction`].
#[verifier::ext_equal]
pub enum CheckActionView {
    Save,
    Query,
    Ask(Seq<char>),
    Download(Seq<char>),
    Continue { log: Option<u64> },
    EndRuntime(Seq<char>),
    Restart(Seq<char>),
    Finish { notice: Option<(Seq<char>, Seq<char>, bool)> },
}

impl View for CheckAction {
    type V = CheckActionView;

    open spec fn view(&self) -> CheckActionView {
        match self {
            CheckAction::Save => CheckActionView::Save,
            CheckAction::Query => CheckActionView::Query,
            CheckAction::Ask(version) => CheckActionView::Ask(version@),
            CheckAction::Download(version) => CheckActionView::Download(version@),
            CheckAction::Continue { log } => CheckActionView::Continue { log: *log },
            CheckAction::EndRuntime(version) => CheckActionView::EndRuntime(version@),
            CheckAction::Restart(version) => CheckActionView::Restart(version@),
            CheckAction::Finish { notice } => CheckActionView::Finish {
                notice: match notice {
                    Some(notice) => Some((notice.title@, notice.text@, notice.failed)),
                    None => None,
                },
            },
        }
    }
}

/// A status with a detail.
pub open spec fn status_of(
    phase: AppUpdatePhase,
    version: Option<Seq<char>>,
    progress: Option<u8>,
    detail: Seq<char>,
) -> AppUpdateSnapshotView {
    AppUpdateSnapshotView { phase, target_version: version, progress, detail: Some(detail) }
}

/// What the user is asked about a version.
pub fn update_question(version: &str) -> (question: String)
    ensures
        question@ == "发现 DSH Desktop "@ + version@
            + "。\n\n更新包会先经过签名验证，安装完成后应用将自动重启。"@,
{
    cat3("发现 DSH Desktop ", version, "。\n\n更新包会先经过签名验证，安装完成后应用将自动重启。")
}

/// The title of the main window while a version is fetched.
pub fn downloading_title(version: &str) -> (title: String)
    ensures
        title@ == "DSH Desktop · 正在下载 "@ + version@,
{
    cat2("DSH Desktop · 正在下载 ", version)
}

/// The title of the main window once a version is installed.
pub fn installed_title(version: &str) -> (title: String)
    ensures
        title@ == "DSH Desktop · "@ + version@ + " 已安装，正在重启"@,
{
    cat3("DSH Desktop · ", version, " 已安装，正在重启")
}

/// The version that the user agreed to.
pub open spec fn fetched_version(stage: CheckStageView) -> Option<Seq<char>> {
    match stage {
        CheckStageView::Downloading { version, downloaded, next_percentage } => Some(version),
        CheckStageView::Installing(version) => Some(version),
        _ => None,
    }
}

/// What follows an event: the state, the stage of the check, and what is done
/// outside. An event that does not belong to the stage changes nothing.
pub open spec fn check_step(
    updater: AppUpdaterView,
    force: bool,
    stage: CheckStageView,
    event: CheckEvent,
) -> (AppUpdaterView, CheckStageView, CheckActionView) {
    let ignored = (updater, stage, CheckActionView::Continue { log: None });
    match event {
        CheckEvent::Begin { now } => if stage is Start {
            if updater.shutting_down || (!force && !due(
                updater.state.last_successful_check,
                updater.state.last_update_attempt,
                now,
                UPDATE_INTERVAL_SECS,
            )) {
                (
                    AppUpdaterView { status: idle_status(), ..updater },
                    CheckStageView::Done,
                    CheckActionView::Finish { notice: None },
                )
            } else {
                (
                    AppUpdaterView {
                        state: UpdateState { last_update_attempt: Some(now), ..updater.state },
                        ..updater
                    },
                    CheckStageView::SavingAttempt,
                    CheckActionView::Save,
                )
            }
        } else {
            ignored
        },
        CheckEvent::Saved => match stage {
            CheckStageView::SavingAttempt => (
                updater,
                CheckStageView::Querying,
                CheckActionView::Query,
            ),
            CheckStageView::SavingSuccess(None) => (
                AppUpdaterView {
                    status: status_of(AppUpdatePhase::Current, None, None, "已是最新版本"@),
                    ..updater
                },
                CheckStageView::Done,
                CheckActionView::Finish {
                    notice: if force {
                        Some(("已经是最新版"@, "当前 DSH Desktop 已是最新版。"@, false))
                    } else {
                        None
                    },
                },
            ),
            CheckStageView::SavingSuccess(Some(version)) => (
                AppUpdaterView {
                    status: status_of(
                        AppUpdatePhase::Available,
                        Some(version),
                        None,
                        "发现新版本 "@ + version,
                    ),
                    ..updater
                },
                CheckStageView::Asking(version),
                CheckActionView::Ask(version),
            ),
            _ => ignored,
        },
        CheckEvent::Queried { now, found } => if stage is Querying {
            (
                AppUpdaterView {
                    state: UpdateState { last_successful_check: Some(now), ..updater.state },
                    ..updater
                },
                CheckStageView::SavingSuccess(found.deep_view()),
                CheckActionView::Save,
            )
        } else {
            ignored
        },
        CheckEvent::Answered { accepted } => match stage {
            CheckStageView::Asking(version) => if accepted && !updater.shutting_down {
                (
                    AppUpdaterView {
                        status: status_of(
                            AppUpdatePhase::Downloading,
                            Some(version),
                            Some(0),
                            "正在下载签名更新包"@,
                        ),
                        ..updater
                    },
                    CheckStageView::Downloading { version, downloaded: 0, next_percentage: 25 },
                    CheckActionView::Download(version),
                )
            } else {
                (
                    AppUpdaterView {
                        status: status_of(
                            AppUpdatePhase::Available,
                            Some(version),
                            None,
                            "新版本可用，已稍后处理"@,
                        ),
                        ..updater
                    },
                    CheckStageView::Done,
                    CheckActionView::Finish { notice: None },
                )
            },
            _ => ignored,
        },
        CheckEvent::Chunk { length, total } => match stage {
            CheckStageView::Downloading { version, downloaded, next_percentage } => {
                let arrived = if downloaded + length > u64::MAX {
                    u64::MAX
                } else {
                    (downloaded + length) as u64
                };
                let logged = total matches Some(total) && total > 0 && hundredths(arrived, total)
                    >= next_percentage;
                (
                    AppUpdaterView {
                        status: status_of(
                            AppUpdatePhase::Downloading,
                            Some(version),
                            shown_percentage(arrived, total),
                            "正在下载签名更新包"@,
                        ),
                        ..updater
                    },
                    CheckStageView::Downloading {
                        version,
                        downloaded: arrived,
                        next_percentage: if logged {
                            if next_percentage + 25 > u64::MAX {
                                u64::MAX
                            } else {
                                (next_percentage + 25) as u64
                            }
                        } else {
                            next_percentage
                        },
                    },
                    CheckActionView::Continue {
                        log: if logged {
                            Some(hundredths(arrived, total->0) as u64)
                        } else {
                            None
                        },
                    },
                )
            },
            _ => ignored,
        },
        CheckEvent::Downloaded => match stage {
            CheckStageView::Downloading { version, downloaded, next_percentage } => (
                AppUpdaterView {
                    status: status_of(
                        AppUpdatePhase::Installing,
                        Some(version),
                        Some(100),
                        "下载完成，正在安装"@,
                    ),
                    ..updater
                },
                CheckStageView::Installing(version),
                CheckActionView::Continue { log: None },
            ),
            _ => ignored,
        },
        CheckEvent::Installed => match fetched_version(stage) {
            Some(version) => (
                AppUpdaterView {
                    status: status_of(
                        AppUpdatePhase::Installing,
                        Some(version),
                        Some(100),
                        "安装完成，正在重启"@,
                    ),
                    ..updater
                },
                CheckStageView::Ending(version),
                CheckActionView::EndRuntime(version),
            ),
            None => ignored,
        },
        CheckEvent::RuntimeEnded => match stage {
            CheckStageView::Ending(version) => (
                AppUpdaterView { shutting_down: true, ..updater },
                CheckStageView::Done,
                CheckActionView::Restart(version),
            ),
            _ => ignored,
        },
        CheckEvent::Failed(fault) => if stage is Ending || stage is Done {
            ignored
        } else {
            let told = update_error_text(fault_text(fault));
            (
                AppUpdaterView {
                    status: status_of(
                        AppUpdatePhase::Error,
                        updater.status.target_version,
                        None,
                        told,
                    ),
                    ..updater
                },
                CheckStageView::Done,
                CheckActionView::Finish {
                    notice: if force && !updater.shutting_down {
                        Some(("检查更新失败"@, told + "\n\n当前版本不受影响。"@, true))
                    } else {
                        None
                    },
                },
            )
        },
    }
}

/// What claiming the right to check does, and whether it was free.
pub open spec fn claimed(updater: AppUpdaterView) -> (AppUpdaterView, bool) {
    if updater.check_running {
        (updater, false)
    } else {
        (
            AppUpdaterView {
                check_running: true,
                status: status_of(AppUpdatePhase::Checking, None, None, "正在检查 GitHub Release"@),
                ..updater
            },
            true,
        )
    }
}

/// What asking for the check after the start does: only the first one to ask gets
/// it to wait for.
pub open spec fn scheduled(updater: AppUpdaterView, now: u64) -> (
    AppUpdaterView,
    Option<DelayedCheck>,
) {
    (
        AppUpdaterView { check_scheduled: true, ..updater },
        if updater.check_scheduled {
            None
        } else {
            Some(delayed_from(now, UPDATE_DELAY_SECS))
        },
    )
}

/// What those who ask at these times get to wait for, one after the other.
pub open spec fn granted(updater: AppUpdaterView, times: Seq<u64>) -> Seq<DelayedCheck>
    decreases times.len(),
{
    if times.len() == 0 {
        Seq::empty()
    } else {
        let (next, first) = scheduled(updater, times[0]);
        let rest = granted(next, times.drop_first());
        match first {
            Some(first) => seq![first] + rest,
            None => rest,
        }
    }
}

/// However often the check after the start is asked for, only the first one to ask
/// gets it to wait for.
pub proof fn law_checks_are_scheduled_once(updater: AppUpdaterView, times: Seq<u64>)
    ensures
        granted(updater, times) == if updater.check_scheduled || times.len() == 0 {
            Seq::<DelayedCheck>::empty()
        } else {
            seq![delayed_from(times[0], UPDATE_DELAY_SECS)]
        },
    decreases times.len(),
{
    if times.len() > 0 {
        law_checks_are_scheduled_once(scheduled(updater, times[0]).0, times.drop_first());
        if !updater.check_scheduled {
            assert(granted(updater, times) =~= seq![delayed_from(times[0], UPDATE_DELAY_SECS)]);
        }
    }
}

/// However often the check after the start is asked for, it is made at most once, no
/// earlier than the delay after the first one asked, and not if the application ends
/// by then.
pub proof fn law_scheduled_check_waits(updater: AppUpdaterView, times: Seq<u64>, wakes: Seq<Wake>)
    requires
        !updater.check_scheduled,
        times.len() > 0,
    ensures
        granted(updater, times).len() == 1,
        forall|at: int|
            0 <= at < wakes.len() && #[trigger] delayed_tick(granted(updater, times)[0], wakes, at)
                is Fire ==> wakes[at].now >= times[0] + UPDATE_DELAY_SECS * NANOS_PER_SEC
                && !wakes[at].ending,
        forall|one: int, other: int|
            0 <= one < wakes.len() && 0 <= other < wakes.len() && #[trigger] delayed_tick(
                granted(updater, times)[0],
                wakes,
                one,
            ) is Fire && #[trigger] delayed_tick(granted(updater, times)[0], wakes, other) is Fire
                ==> one == other,
{
    law_checks_are_scheduled_once(updater, times);
    let check = delayed_from(times[0], UPDATE_DELAY_SECS);
    assert(granted(updater, times)[0] == check);
    assert forall|at: int|
        0 <= at < wakes.len() && #[trigger] delayed_tick(check, wakes, at) is Fire implies wakes[at].now
        >= times[0] + UPDATE_DELAY_SECS * NANOS_PER_SEC && !wakes[at].ending by {
        law_delayed_check_waits(times[0], UPDATE_DELAY_SECS, wakes, at);
    }
    assert forall|one: int, other: int|
        0 <= one < wakes.len() && 0 <= other < wakes.len() && #[trigger] delayed_tick(
            check,
            wakes,
            one,
        ) is Fire && #[trigger] delayed_tick(check, wakes, other) is Fire implies one == other by {
        if one < other {
            law_delayed_check_is_made_once(check, wakes, one, other);
        } else if other < one {
            law_delayed_check_is_made_once(check, wakes, other, one);
        }
    }
}

impl AppUpdater {
    /// The updates for the application data below `app_data_dir`, with what an
    /// earlier run left.
    pub fn new(app_data_dir: &str, saved: Option<UpdateState>, platform: Platform) -> (updater:
        AppUpdater)
        ensures
            updater@ == (AppUpdaterView {
                state_path: below(app_data_dir@, "app-update-state.json"@, platform),
                log_path: below(
                    below(app_data_dir@, "logs"@, platform),
                    "desktop.log"@,
                    platform,
                ),
                state: match saved {
                    Some(state) => state,
                    None => UpdateState {
                        last_update_attempt: None,
                        last_successful_check: None,
                    },
                },
                status: idle_status(),
                check_scheduled: false,
                check_running: false,
                shutting_down: false,
            }),
    {
        let logs = join_path(app_data_dir, "logs", platform);
        let state = match saved {
            Some(state) => state,
            None => UpdateState::default(),
        };
        AppUpdater {
            state_path: join_path(app_data_dir, "app-update-state.json", platform),
            log_path: join_path(logs.as_str(), "desktop.log", platform),
            state,
            status: AppUpdateSnapshot::default(),
            check_scheduled: false,
            check_running: false,
            shutting_down: false,
        }
    }

    /// Asks for the check after the start. Only the first one to ask is to wait and
    /// then check.
    pub fn schedule_update_check(&mut self, now: u64) -> (check: Option<DelayedCheck>)
        ensures
            (final(self)@, check) == scheduled(old(self)@, now),
    {
        if self.check_scheduled {
            return None;
        }
        self.check_scheduled = true;
        Some(DelayedCheck::new(now, UPDATE_DELAY_SECS))
    }

    /// Wakes the wait for the check after the start and says what it does next.
    pub fn wait_for_check(&self, check: &mut DelayedCheck, now: u64) -> (next: Tick)
        ensures
            (*final(check), next) == delayed_step(*old(check), now, self@.shutting_down),
    {
        check.wake(now, self.shutting_down)
    }

    /// Claims the right to check. While another check runs nothing changes and
    /// the answer is no.
    pub fn check_for_updates(&mut self) -> (started: bool)
        ensures
            (final(self)@, started) == claimed(old(self)@),
    {
        if self.check_running {
            return false;
        }
        self.check_running = true;
        self.set_status(
            AppUpdatePhase::Checking,
            None,
            None,
            Some("正在检查 GitHub Release".to_string()),
        );
        true
    }

    /// Gives the right to check back.
    pub fn finish_check(&mut self)
        ensures
            final(self)@ == (AppUpdaterView { check_running: false, ..old(self)@ }),
    {
        self.check_running = false;
    }

    /// What the user sees.
    pub fn snapshot(&self) -> (snapshot: AppUpdateSnapshot)
        ensures
            snapshot@ == self@.status,
    {
        self.status.clone()
    }

    /// The application is about to end.
    pub fn terminate(&mut self)
        ensures
            final(self)@ == (AppUpdaterView { shutting_down: true, ..old(self)@ }),
    {
        self.shutting_down = true;
    }

    /// Takes note of a check that succeeded.
    pub fn mark_successful_check(&mut self, now: u64)
        ensures
            final(self)@ == (AppUpdaterView {
                state: UpdateState { last_successful_check: Some(now), ..old(self)@.state },
                ..old(self)@
            }),
    {
        self.state.last_successful_check = Some(now);
    }

    /// Changes what the user sees.
    pub fn set_status(
        &mut self,
        phase: AppUpdatePhase,
        target_version: Option<String>,
        progress: Option<u8>,
        detail: Option<String>,
    )
        ensures
            final(self)@ == (AppUpdaterView {
                status: AppUpdateSnapshotView {
                    phase,
                    target_version: target_version.deep_view(),
                    progress,
                    detail: detail.deep_view(),
                },
                ..old(self)@
            }),
    {
        self.status = AppUpdateSnapshot { phase, target_version, progress, detail };
    }

    fn begin(&mut self, check: &mut UpdateCheck, now: u64) -> (action: CheckAction)
        requires
            old(check).stage is Start,
        ensures
            final(check).force == old(check).force,
            (final(self)@, final(check).stage@, action@) == check_step(
                old(self)@,
                old(check).force,
                old(check).stage@,
                CheckEvent::Begin { now },
            ),
    {
        if self.shutting_down || (!check.force && !update_is_due(&self.state, now)) {
            self.set_status(AppUpdatePhase::Idle, None, None, None);
            check.stage = CheckStage::Done;
            return CheckAction::Finish { notice: None };
        }
        self.state.last_update_attempt = Some(now);
        check.stage = CheckStage::SavingAttempt;
        CheckAction::Save
    }

    fn report_found(&mut self, check: &mut UpdateCheck, found: Option<String>) -> (action:
        CheckAction)
        requires
            old(check).stage@ == CheckStageView::SavingSuccess(found.deep_view()),
        ensures
            final(check).force == old(check).force,
            (final(self)@, final(check).stage@, action@) == check_step(
                old(self)@,
                old(check).force,
                old(check).stage@,
                CheckEvent::Saved,
            ),
    {
        match found {
            None => {
                self.set_status(
                    AppUpdatePhase::Current,
                    None,
                    None,
                    Some("已是最新版本".to_string()),
                );
                check.stage = CheckStage::Done;
                let notice = if check.force {
                    Some(
                        UpdateNotice {
                            title: "已经是最新版".to_string(),
                            text: "当前 DSH Desktop 已是最新版。".to_string(),
                            failed: false,
                        },
                    )
                } else {
                    None
                };
                CheckAction::Finish { notice }
            },
            Some(version) => {
                let detail = cat2("发现新版本 ", version.as_str());
                self.set_status(
                    AppUpdatePhase::Available,
                    Some(version.clone()),
                    None,
                    Some(detail),
                );
                check.stage = CheckStage::Asking(version.clone());
                CheckAction::Ask(version)
            },
        }
    }

    fn take_answer(&mut self, check: &mut UpdateCheck, version: String, accepted: bool) -> (action:
        CheckAction)
        requires
            old(check).stage@ == CheckStageView::Asking(version@),
        ensures
            final(check).force == old(check).force,
            (final(self)@, final(check).stage@, action@) == check_step(
                old(self)@,
                old(check).force,
                old(check).stage@,
                CheckEvent::Answered { accepted },
            ),
    {
        if !accepted || self.shutting_down {
            self.set_status(
                AppUpdatePhase::Available,
                Some(version),
                None,
                Some("新版本可用，已稍后处理".to_string()),
            );
            check.stage = CheckStage::Done;
            return CheckAction::Finish { notice: None };
        }
        self.set_status(
            AppUpdatePhase::Downloading,
            Some(version.clone()),
            Some(0),
            Some("正在下载签名更新包".to_string()),
        );
        check.stage = CheckStage::Downloading {
            version: version.clone(),
            downloaded: 0,
            next_percentage: 25,
        };
        CheckAction::Download(version)
    }

    fn take_chunk(
        &mut self,
        check: &mut UpdateCheck,
        version: String,
        downloaded: u64,
        next_percentage: u64,
        length: u64,
        total: Option<u64>,
    ) -> (action: CheckAction)
        requires
            old(check).stage@ == (CheckStageView::Downloading {
                version: version@,
                downloaded,
                next_percentage,
            }),
        ensures
            final(check).force == old(check).force,
            (final(self)@, final(check).stage@, action@) == check_step(
                old(self)@,
                old(check).force,
                old(check).stage@,
                CheckEvent::Chunk { length, total },
            ),
    {
        let arrived: u64 = downloaded.saturating_add(length);
        let progress: Option<u8> = download_percentage(arrived, total);
        self.set_status(
            AppUpdatePhase::Downloading,
            Some(version.clone()),
            progress,
            Some("正在下载签名更新包".to_string()),
        );
        let mut log: Option<u64> = None;
        let mut next: u64 = next_percentage;
        if let Some(total) = total {
            if total > 0 {
                let percent: u64 = percentage(arrived, total);
                if percent >= next_percentage {
                    log = Some(percent);
                    next = next_percentage.saturating_add(25);
                }
            }
        }
        check.stage = CheckStage::Downloading {
            version,
            downloaded: arrived,
            next_percentage: next,
        };
        CheckAction::Continue { log }
    }

    fn fail(&mut self, check: &mut UpdateCheck, fault: UpdateFault) -> (action: CheckAction)
        requires
            !(old(check).stage is Ending),
            !(old(check).stage is Done),
        ensures
            final(check).force == old(check).force,
            (final(self)@, final(check).stage@, action@) == check_step(
                old(self)@,
                old(check).force,
                old(check).stage@,
                CheckEvent::Failed(fault),
            ),
    {
        let told = user_update_error(fault.text().as_str());
        let target_version = self.status.target_version.clone();
        self.set_status(AppUpdatePhase::Error, target_version, None, Some(told.to_string()));
        check.stage = CheckStage::Done;
        let notice = if check.force && !self.shutting_down {
            Some(
                UpdateNotice {
                    title: "检查更新失败".to_string(),
                    text: cat2(told, "\n\n当前版本不受影响。"),
                    failed: true,
                },
            )
        } else {
            None
        };
        CheckAction::Finish { notice }
    }

    /// Takes an event of a running check and says what is to be done next.
    pub fn advance(&mut self, check: &mut UpdateCheck, event: CheckEvent) -> (action: CheckAction)
        ensures
            final(check).force == old(check).force,
            (final(self)@, final(check).stage@, action@) == check_step(
                old(self)@,
                old(check).force,
                old(check).stage@,
                event,
            ),
    {
        match event {
            CheckEvent::Begin { now } => {
                if let CheckStage::Start = check.stage {
                    return self.begin(check, now);
                }
            },
            CheckEvent::Saved => {
                if let CheckStage::SavingAttempt = check.stage {
                    check.stage = CheckStage::Querying;
                    return CheckAction::Query;
                }
                if let CheckStage::SavingSuccess(found) = &check.stage {
                    let found: Option<String> = found.clone();
                    return self.report_found(check, found);
                }
            },
            CheckEvent::Queried { now, found } => {
                if let CheckStage::Querying = check.stage {
                    self.mark_successful_check(now);
                    check.stage = CheckStage::SavingSuccess(found);
                    return CheckAction::Save;
                }
            },
            CheckEvent::Answered { accepted } => {
                if let CheckStage::Asking(version) = &check.stage {
                    let version: String = version.clone();
                    return self.take_answer(check, version, accepted);
                }
            },
            CheckEvent::Chunk { length, total } => {
                if let CheckStage::Downloading { version, downloaded, next_percentage } =
                    &check.stage {
                    let version: String = version.clone();
                    let downloaded: u64 = *downloaded;
                    let next_percentage: u64 = *next_percentage;
                    return self.take_chunk(
                        check,
                        version,
                        downloaded,
                        next_percentage,
                        length,
                        total,
                    );
                }
            },
            CheckEvent::Downloaded => {
                if let CheckStage::Downloading { version, .. } = &check.stage {
                    let version: String = version.clone();
                    self.set_status(
                        AppUpdatePhase::Installing,
                        Some(version.clone()),
                        Some(100),
                        Some("下载完成，正在安装".to_string()),
                    );
                    check.stage = CheckStage::Installing(version);
                    return CheckAction::Continue { log: None };
                }
            },
            CheckEvent::Installed => {
                let fetched: Option<String> = match &check.stage {
                    CheckStage::Downloading { version, .. } => Some(version.clone()),
                    CheckStage::Installing(version) => Some(version.clone()),
                    _ => None,
                };
                if let Some(version) = fetched {
                    self.set_status(
                        AppUpdatePhase::Installing,
                        Some(version.clone()),
                        Some(100),
                        Some("安装完成，正在重启".to_string()),
                    );
                    check.stage = CheckStage::Ending(version.clone());
                    return CheckAction::EndRuntime(version);
                }
            },
            CheckEvent::RuntimeEnded => {
                if let CheckStage::Ending(version) = &check.stage {
                    let version: String = version.clone();
                    self.terminate();
                    check.stage = CheckStage::Done;
                    return CheckAction::Restart(version);
                }
            },
            CheckEvent::Failed(fault) => {
                match check.stage {
                    CheckStage::Ending(_) | CheckStage::Done => {},
                    _ => {
                        return self.fail(check, fault);
                    },
                }
            },
        }
        CheckAction::Continue { log: None }
    }
}

impl UpdateCheck {
    /// A check that has not begun.
    pub fn new(force: bool) -> (check: UpdateCheck)
        ensures
            check.force == force,
            check.stage@ == CheckStageView::Start,
    {
        UpdateCheck { force, stage: CheckStage::Start }
    }
}

/// Nothing is fetched unless the user agreed to that very version and the
/// application is not about to end.
pub proof fn law_download_needs_consent(
    updater: AppUpdaterView,
    force: bool,
    stage: CheckStageView,
    event: CheckEvent,
    version: Seq<char>,
)
    requires
        check_step(updater, force, stage, event).2 == CheckActionView::Download(version),
    ensures
        stage == CheckStageView::Asking(version),
        event == (CheckEvent::Answered { accepted: true }),
        !updater.shutting_down,
{
}

/// Once the version that the user agreed to is in place, the runtime is ended; only
/// then does the application count as ending, and is started again.
pub proof fn law_restart_follows_the_installation(
    updater: AppUpdaterView,
    force: bool,
    stage: CheckStageView,
    event: CheckEvent,
    version: Seq<char>,
)
    ensures
        ({
            let (next, end, action) = check_step(updater, force, stage, event);
            &&& action == CheckActionView::EndRuntime(version) <==> event is Installed
                && fetched_version(stage) == Some(version)
            &&& action == CheckActionView::EndRuntime(version) ==> end == CheckStageView::Ending(
                version,
            ) && next.shutting_down == updater.shutting_down
            &&& action == CheckActionView::Restart(version) <==> event is RuntimeEnded && stage
                == CheckStageView::Ending(version)
            &&& action == CheckActionView::Restart(version) ==> next.shutting_down
            &&& end == CheckStageView::Ending(version) && stage != end ==> action
                == CheckActionView::EndRuntime(version)
        }),
{
}

/// A failure neither ends the runtime nor the application, and starts nothing
/// again.
pub proof fn law_failure_ends_nothing(
    updater: AppUpdaterView,
    force: bool,
    stage: CheckStageView,
    fault: UpdateFault,
)
    ensures
        ({
            let (next, end, action) = check_step(updater, force, stage, CheckEvent::Failed(fault));
            &&& !(action is EndRuntime)
            &&& !(action is Restart)
            &&& next.shutting_down == updater.shutting_down
        }),
{
}

/// The state and the stage of a check after all these events.
pub open spec fn check_run(
    updater: AppUpdaterView,
    force: bool,
    stage: CheckStageView,
    events: Seq<CheckEvent>,
) -> (AppUpdaterView, CheckStageView)
    decreases events.len(),
{
    if events.len() == 0 {
        (updater, stage)
    } else {
        let (before, reached) = check_run(updater, force, stage, events.drop_last());
        let (next, end, action) = check_step(before, force, reached, events.last());
        (next, end)
    }
}

/// What is done outside upon the event at `at`.
pub open spec fn check_action(
    updater: AppUpdaterView,
    force: bool,
    stage: CheckStageView,
    events: Seq<CheckEvent>,
    at: int,
) -> CheckActionView {
    let (before, reached) = check_run(updater, force, stage, events.take(at));
    check_step(before, force, reached, events[at]).2
}

/// Whatever happens in a check, the application is started again only after the
/// runtime was ended, and that only after the version that the user agreed to was
/// in place. Until the restart the check does not make the application count as
/// ending.
pub proof fn law_runtime_ends_before_the_restart(
    updater: AppUpdaterView,
    force: bool,
    events: Seq<CheckEvent>,
    at: int,
    version: Seq<char>,
)
    requires
        0 <= at < events.len(),
        check_action(updater, force, CheckStageView::Start, events, at)
            == CheckActionView::Restart(version),
    ensures
        events[at] is RuntimeEnded,
        check_run(updater, force, CheckStageView::Start, events.take(at)).0.shutting_down
            == updater.shutting_down,
        check_run(updater, force, CheckStageView::Start, events.take(at + 1)).0.shutting_down,
        exists|ended: int|
            0 <= ended < at && #[trigger] events[ended] is Installed && check_action(
                updater,
                force,
                CheckStageView::Start,
                events,
                ended,
            ) == CheckActionView::EndRuntime(version),
{
    let front = events.take(at);
    lemma_ending_stage(updater, force, front, version);
    assert(events.take(at + 1).drop_last() =~= front);
    let ended = choose|ended: int|
        0 <= ended < front.len() && #[trigger] front[ended] is Installed && check_action(
            updater,
            force,
            CheckStageView::Start,
            front,
            ended,
        ) == CheckActionView::EndRuntime(version);
    assert(front.take(ended) =~= events.take(ended));
    assert(events[ended] is Installed);
}

proof fn lemma_ending_stage(
    updater: AppUpdaterView,
    force: bool,
    events: Seq<CheckEvent>,
    version: Seq<char>,
)
    ensures
        !(check_run(updater, force, CheckStageView::Start, events).1 is Done) ==> check_run(
            updater,
            force,
            CheckStageView::Start,
            events,
        ).0.shutting_down == updater.shutting_down,
        check_run(updater, force, CheckStageView::Start, events).1 == CheckStageView::Ending(
            version,
        ) ==> exists|ended: int|
            0 <= ended < events.len() && #[trigger] events[ended] is Installed && check_action(
                updater,
                force,
                CheckStageView::Start,
                events,
                ended,
            ) == CheckActionView::EndRuntime(version),
    decreases events.len(),
{
    if events.len() > 0 {
        let front = events.drop_last();
        let at = events.len() - 1;
        lemma_ending_stage(updater, force, front, version);
        assert(events.take(at) =~= front);
        let (before, reached) = check_run(updater, force, CheckStageView::Start, front);
        let (next, end, action) = check_step(before, force, reached, events.last());
        assert(check_run(updater, force, CheckStageView::Start, events) == (next, end));
        if end == CheckStageView::Ending(version) {
            if reached == end {
                let ended = choose|ended: int|
                    0 <= ended < front.len() && #[trigger] front[ended] is Installed
                        && check_action(updater, force, CheckStageView::Start, front, ended)
                        == CheckActionView::EndRuntime(version);
                assert(front.take(ended) =~= events.take(ended));
                assert(events[ended] is Installed);
            } else {
                assert(events[at] is Installed);
                assert(check_action(updater, force, CheckStageView::Start, events, at) == action);
            }
        }
    }
}

/// No event of a check changes where the state is kept, whether a check was
/// scheduled, or who holds the right to check; and an application that is about
/// to end stays so.
pub proof fn law_check_keeps_the_rest(
    updater: AppUpdaterView,
    force: bool,
    stage: CheckStageView,
    event: CheckEvent,
)
    ensures
        ({
            let next = check_step(updater, force, stage, event).0;
            &&& next.state_path == updater.state_path
            &&& next.log_path == updater.log_path
            &&& next.check_scheduled == updater.check_scheduled
            &&& next.check_running == updater.check_running
            &&& updater.shutting_down ==> next.shutting_down
        }),
{
}

/// A check that is over stays over and changes nothing more.
pub proof fn law_finished_check_is_final(updater: AppUpdaterView, force: bool, event: CheckEvent)
    ensures
        check_step(updater, force, CheckStageView::Done, event) == (
            updater,
            CheckStageView::Done,
            CheckActionView::Continue { log: None },
        ),
{
}

/// A check that nobody asked for does not interrupt with a message.
pub proof fn law_quiet_check_shows_no_notice(
    updater: AppUpdaterView,
    stage: CheckStageView,
    event: CheckEvent,
)
    ensures
        check_step(updater, false, stage, event).2 matches CheckActionView::Finish { notice }
            ==> notice is None,
{
}

/// A failed step ends the check, leaves what is kept on disk as it was, and shows
/// one of three sentences in place of the error.
pub proof fn law_failure_hides_the_error(
    updater: AppUpdaterView,
    force: bool,
    stage: CheckStageView,
    fault: UpdateFault,
)
    requires
        !(stage is Ending),
        !(stage is Done),
    ensures
        ({
            let (next, end, action) = check_step(
                updater,
                force,
                stage,
                CheckEvent::Failed(fault),
            );
            &&& end is Done
            &&& next.state == updater.state
            &&& next.status.phase == AppUpdatePhase::Error
            &&& next.status.target_version == updater.status.target_version
            &&& (next.status.detail == Some("无法连接 GitHub，请检查网络后重试。"@)
                || next.status.detail == Some("更新信息未通过校验，已停止安装。"@)
                || next.status.detail == Some("暂时无法检查更新，请稍后重试。"@))
        }),
{
}

/// An attempt is written down before anything is looked up, so that a failed
/// check is not repeated within the hour.
pub proof fn law_begun_check_is_not_due_again(updater: AppUpdaterView, force: bool, now: u64)
    requires
        check_step(
            updater,
            force,
            CheckStageView::Start,
            (CheckEvent::Begin { now }),
        ).1 is SavingAttempt,
    ensures
        ({
            let next = check_step(
                updater,
                force,
                CheckStageView::Start,
                (CheckEvent::Begin { now }),
            ).0;
            forall|later: u64|
                later < now + FAILED_RETRY_SECS ==> !#[trigger] due(
                    next.state.last_successful_check,
                    next.state.last_update_attempt,
                    later,
                    UPDATE_INTERVAL_SECS,
                )
        }),
{
}

/// While pieces arrive the count does not go back, and the version stays the
/// one that the user agreed to.
pub proof fn law_pieces_add_up(
    updater: AppUpdaterView,
    force: bool,
    version: Seq<char>,
    downloaded: u64,
    next_percentage: u64,
    length: u64,
    total: Option<u64>,
)
    ensures
        ({
            let stage = CheckStageView::Downloading { version, downloaded, next_percentage };
            let next = check_step(
                updater,
                force,
                stage,
                (CheckEvent::Chunk { length, total }),
            ).1;
            &&& fetched_version(next) == Some(version)
            &&& next matches CheckStageView::Downloading {
                version: kept,
                downloaded: arrived,
                next_percentage: mark,
            }
            &&& downloaded <= arrived
            &&& next_percentage <= mark
            &&& downloaded + length <= u64::MAX ==> arrived == downloaded + length
        }),
{
}

/// At most one check runs: from the moment that the right to check is claimed, and
/// through every step of the check, nobody else gets it.
pub proof fn law_one_check_at_a_time(
    updater: AppUpdaterView,
    force: bool,
    stage: CheckStageView,
    event: CheckEvent,
)
    ensures
        claimed(updater).0.check_running,
        updater.check_running ==> claimed(updater) == (updater, false),
        claimed(claimed(updater).0) == (claimed(updater).0, false),
        updater.check_running ==> check_step(updater, force, stage, event).0.check_running,
{
}

/// A check that is due or asked for, while the application does not end, writes its
/// attempt down and then looks up the release. Any other ends at once, without a
/// message, and leaves what is kept on disk as it was.
pub proof fn law_due_check_looks_up_the_release(updater: AppUpdaterView, force: bool, now: u64)
    ensures
        ({
            let (next, after, action) = check_step(
                updater,
                force,
                CheckStageView::Start,
                (CheckEvent::Begin { now }),
            );
            let state = updater.state;
            let rested = (state.last_successful_check matches Some(success) ==> now >= success + 24
                * 60 * 60) && (state.last_update_attempt matches Some(attempt) ==> now >= attempt
                + 60 * 60);
            let wanted = !updater.shutting_down && (force || rested);
            &&& wanted ==> action is Save && after is SavingAttempt && next == (AppUpdaterView {
                state: UpdateState { last_update_attempt: Some(now), ..updater.state },
                ..updater
            })
            &&& !wanted ==> action == (CheckActionView::Finish { notice: None }) && after is Done
                && next.state == updater.state && next.status.phase == AppUpdatePhase::Idle
                && next.status.target_version is None && next.status.progress is None
                && next.status.detail is None
            &&& check_step(updater, force, CheckStageView::SavingAttempt, CheckEvent::Saved) == (
                updater,
                CheckStageView::Querying,
                CheckActionView::Query,
            )
        }),
{
}

/// What the release holds is written down as a success and then told: a newer version
/// is asked about, whether the check was asked for or not; that there is none is told
/// to whoever asked.
pub proof fn law_found_version_is_asked_about(
    updater: AppUpdaterView,
    force: bool,
    now: u64,
    found: Option<String>,
    version: Seq<char>,
)
    ensures
        check_step(
            updater,
            force,
            CheckStageView::Querying,
            (CheckEvent::Queried { now, found }),
        ) == (
            AppUpdaterView {
                state: UpdateState { last_successful_check: Some(now), ..updater.state },
                ..updater
            },
            CheckStageView::SavingSuccess(found.deep_view()),
            CheckActionView::Save,
        ),
        ({
            let (next, after, action) = check_step(
                updater,
                force,
                CheckStageView::SavingSuccess(Some(version)),
                CheckEvent::Saved,
            );
            &&& action == CheckActionView::Ask(version)
            &&& after == CheckStageView::Asking(version)
            &&& next.state == updater.state
            &&& next.status.phase == AppUpdatePhase::Available
            &&& next.status.target_version == Some(version)
            &&& next.status.progress is None
            &&& next.status.detail == Some("发现新版本 "@ + version)
        }),
        ({
            let (next, after, action) = check_step(
                updater,
                force,
                CheckStageView::SavingSuccess(None),
                CheckEvent::Saved,
            );
            &&& after is Done
            &&& next.state == updater.state
            &&& next.status.phase == AppUpdatePhase::Current
            &&& next.status.target_version is None
            &&& next.status.detail == Some("已是最新版本"@)
            &&& force ==> action == (CheckActionView::Finish {
                notice: Some(("已经是最新版"@, "当前 DSH Desktop 已是最新版。"@, false)),
            })
            &&& !force ==> action == (CheckActionView::Finish { notice: None })
        }),
{
}

/// A version that the user agrees to is fetched, whether the check was asked for or
/// not, unless the application ends. One that is put off stays available and is not
/// fetched.
pub proof fn law_accepted_version_is_fetched(
    updater: AppUpdaterView,
    force: bool,
    version: Seq<char>,
    accepted: bool,
)
    ensures
        ({
            let (next, after, action) = check_step(
                updater,
                force,
                CheckStageView::Asking(version),
                (CheckEvent::Answered { accepted }),
            );
            &&& accepted && !updater.shutting_down ==> {
                &&& action == CheckActionView::Download(version)
                &&& after == (CheckStageView::Downloading {
                    version,
                    downloaded: 0,
                    next_percentage: 25,
                })
                &&& next.status.phase == AppUpdatePhase::Downloading
                &&& next.status.progress == Some(0u8)
                &&& next.status.detail == Some("正在下载签名更新包"@)
            }
            &&& !accepted || updater.shutting_down ==> {
                &&& action == (CheckActionView::Finish { notice: None })
                &&& after is Done
                &&& next.status.phase == AppUpdatePhase::Available
                &&& next.status.progress is None
                &&& next.status.detail == Some("新版本可用，已稍后处理"@)
            }
            &&& next.status.target_version == Some(version)
            &&& next.state == updater.state
        }),
{
}

/// A piece that arrives adds its length to what has arrived, and the progress is shown.
/// A line of the log is due each time a further quarter is passed.
pub proof fn law_piece_is_counted_and_shown(
    updater: AppUpdaterView,
    force: bool,
    version: Seq<char>,
    downloaded: u64,
    mark: u64,
    length: u64,
    total: Option<u64>,
)
    requires
        downloaded + length <= u64::MAX,
        mark + 25 <= u64::MAX,
    ensures
        ({
            let (next, after, action) = check_step(
                updater,
                force,
                (CheckStageView::Downloading { version, downloaded, next_percentage: mark }),
                (CheckEvent::Chunk { length, total }),
            );
            let arrived = (downloaded + length) as u64;
            let passed = total is Some && total->0 > 0 && hundredths(arrived, total->0) >= mark;
            &&& next.status.phase == AppUpdatePhase::Downloading
            &&& next.status.target_version == Some(version)
            &&& next.status.progress == shown_percentage(arrived, total)
            &&& next.status.detail == Some("正在下载签名更新包"@)
            &&& next.state == updater.state
            &&& passed ==> after == (CheckStageView::Downloading {
                version,
                downloaded: arrived,
                next_percentage: (mark + 25) as u64,
            }) && action == (CheckActionView::Continue {
                log: Some(hundredths(arrived, total->0) as u64),
            })
            &&& !passed ==> after == (CheckStageView::Downloading {
                version,
                downloaded: arrived,
                next_percentage: mark,
            }) && action == (CheckActionView::Continue { log: None })
        }),
{
}

/// Once everything has arrived the version is being installed, and once it is in place
/// the runtime is ended for the restart; both are shown.
pub proof fn law_fetched_version_is_installed(
    updater: AppUpdaterView,
    force: bool,
    version: Seq<char>,
    downloaded: u64,
    mark: u64,
)
    ensures
        ({
            let fetching = CheckStageView::Downloading {
                version,
                downloaded,
                next_percentage: mark,
            };
            let (next, after, action) = check_step(
                updater,
                force,
                fetching,
                CheckEvent::Downloaded,
            );
            let installed = check_step(
                updater,
                force,
                CheckStageView::Installing(version),
                CheckEvent::Installed,
            );
            &&& after == CheckStageView::Installing(version)
            &&& action == (CheckActionView::Continue { log: None })
            &&& next.state == updater.state
            &&& next.status.phase == AppUpdatePhase::Installing
            &&& next.status.target_version == Some(version)
            &&& next.status.progress == Some(100u8)
            &&& next.status.detail == Some("下载完成，正在安装"@)
            &&& installed == check_step(updater, force, fetching, CheckEvent::Installed)
            &&& installed.0.state == updater.state
            &&& installed.0.status.phase == AppUpdatePhase::Installing
            &&& installed.0.status.target_version == Some(version)
            &&& installed.0.status.progress == Some(100u8)
            &&& installed.0.status.detail == Some("安装完成，正在重启"@)
            &&& installed.1 == CheckStageView::Ending(version)
            &&& installed.2 == CheckActionView::EndRuntime(version)
            &&& check_step(
                updater,
                force,
                CheckStageView::Ending(version),
                CheckEvent::RuntimeEnded,
            ) == (
                AppUpdaterView { shutting_down: true, ..updater },
                CheckStageView::Done,
                CheckActionView::Restart(version),
            )
        }),
{
}

/// A failure before the restart ends the check. Whoever asked for it is told, unless
/// the application ends, in a sentence that says nothing changed.
pub proof fn law_failure_is_told_to_whoever_asked(
    updater: AppUpdaterView,
    force: bool,
    stage: CheckStageView,
    fault: UpdateFault,
)
    requires
        !(stage is Ending),
        !(stage is Done),
    ensures
        ({
            let (next, after, action) = check_step(
                updater,
                force,
                stage,
                CheckEvent::Failed(fault),
            );
            let told = update_error_text(fault_text(fault));
            &&& after is Done
            &&& next.status.phase == AppUpdatePhase::Error
            &&& next.status.detail == Some(told)
            &&& next.status.progress is None
            &&& next.status.target_version == updater.status.target_version
            &&& next.state == updater.state
            &&& force && !updater.shutting_down ==> action == (CheckActionView::Finish {
                notice: Some(("检查更新失败"@, told + "\n\n当前版本不受影响。"@, true)),
            })
            &&& !force || updater.shutting_down ==> action == (CheckActionView::Finish {
                notice: None,
            })
        }),
{
}

/// What does not belong to the stage changes nothing.
pub proof fn law_stray_event_changes_nothing(
    updater: AppUpdaterView,
    force: bool,
    stage: CheckStageView,
    event: CheckEvent,
)
    requires
        match event {
            CheckEvent::Begin { now } => !(stage is Start),
            CheckEvent::Saved => !(stage is SavingAttempt) && !(stage is SavingSuccess),
            CheckEvent::Queried { now, found } => !(stage is Querying),
            CheckEvent::Answered { accepted } => !(stage is Asking),
            CheckEvent::Chunk { length, total } => !(stage is Downloading),
            CheckEvent::Downloaded => !(stage is Downloading),
            CheckEvent::Installed => !(stage is Downloading) && !(stage is Installing),
            CheckEvent::RuntimeEnded => !(stage is Ending),
            CheckEvent::Failed(fault) => stage is Ending || stage is Done,
        },
    ensures
        check_step(updater, force, stage, event) == (
            updater,
            stage,
            CheckActionView::Continue { log: None },
        ),
{
}

/// A whole update that the user agrees to: looked up, asked about, fetched, installed,
/// and the application started again, with the times of the check written down.
pub proof fn law_accepted_update_ends_in_the_restart(
    updater: AppUpdaterView,
    force: bool,
    now: u64,
    later: u64,
    version: String,
)
    requires
        !updater.shutting_down,
        force || (updater.state.last_successful_check is None && updater.state.last_update_attempt
            is None),
    ensures
        ({
            let (n1, s1, a1) = check_step(
                updater,
                force,
                CheckStageView::Start,
                (CheckEvent::Begin { now }),
            );
            let (n2, s2, a2) = check_step(n1, force, s1, CheckEvent::Saved);
            let (n3, s3, a3) = check_step(
                n2,
                force,
                s2,
                (CheckEvent::Queried { now: later, found: Some(version) }),
            );
            let (n4, s4, a4) = check_step(n3, force, s3, CheckEvent::Saved);
            let (n5, s5, a5) = check_step(
                n4,
                force,
                s4,
                (CheckEvent::Answered { accepted: true }),
            );
            let (n6, s6, a6) = check_step(n5, force, s5, CheckEvent::Downloaded);
            let (n7, s7, a7) = check_step(n6, force, s6, CheckEvent::Installed);
            let (n8, s8, a8) = check_step(n7, force, s7, CheckEvent::RuntimeEnded);
            &&& a1 is Save && a2 is Query && a3 is Save
            &&& a4 == CheckActionView::Ask(version@)
            &&& a5 == CheckActionView::Download(version@)
            &&& a7 == CheckActionView::EndRuntime(version@)
            &&& a8 == CheckActionView::Restart(version@)
            &&& !n7.shutting_down && n8.shutting_down
            &&& n8.state == (UpdateState {
                last_update_attempt: Some(now),
                last_successful_check: Some(later),
            })
        }),
{
}

/// Claiming the right to check succeeds exactly where none runs; it is shown and
/// leaves what is kept on disk as it was.
pub proof fn law_claim_succeeds_where_none_runs(updater: AppUpdaterView)
    ensures
        ({
            let (next, free) = claimed(updater);
            &&& free <==> !updater.check_running
            &&& !free ==> next == updater
            &&& free ==> next.check_running && next.status.phase == AppUpdatePhase::Checking
                && next.status.target_version is None && next.status.progress is None
                && next.status.detail == Some("正在检查 GitHub Release"@)
            &&& next.state == updater.state && next.state_path == updater.state_path
                && next.log_path == updater.log_path && next.check_scheduled
                == updater.check_scheduled && next.shutting_down == updater.shutting_down
        }),
{
}

/// Asking for the check after the start changes nothing but that it was asked for.
pub proof fn law_scheduling_changes_nothing_else(updater: AppUpdaterView, now: u64)
    ensures
        scheduled(updater, now).0 == (AppUpdaterView { check_scheduled: true, ..updater }),
        scheduled(updater, now).1 is Some <==> !updater.check_scheduled,
{
}

/// The progress is the whole hundredths that have arrived, as long as no more arrives
/// than was announced and the hundredfold fits into 64 bits. Without a total there is
/// none.
pub proof fn law_progress_is_the_share_that_arrived(downloaded: u64, total: u64)
    ensures
        shown_percentage(downloaded, None) is None,
        shown_percentage(downloaded, Some(0)) is None,
        total > 0 && downloaded <= total && downloaded * 100 <= u64::MAX ==> ({
            let shown = shown_percentage(downloaded, Some(total))->0 as int;
            &&& shown_percentage(downloaded, Some(total)) is Some
            &&& shown * total <= downloaded * 100
            &&& downloaded * 100 < (shown + 1) * total
        }),
        total > 0 && downloaded > total && downloaded * 100 <= u64::MAX ==> shown_percentage(
            downloaded,
            Some(total),
        ) == Some(100u8),
{
    if total > 0 && downloaded * 100 <= u64::MAX {
        let t = total as int;
        let scaled = downloaded * 100;
        let share = scaled / t;
        vstd::arithmetic::div_mod::lemma_fundamental_div_mod(scaled, t);
        vstd::arithmetic::div_mod::lemma_mod_bound(scaled, t);
        assert(share * t == t * share) by (nonlinear_arith);
        assert((share + 1) * t == share * t + t) by (nonlinear_arith);
        if downloaded <= total {
            assert(share <= 100) by (nonlinear_arith)
                requires
                    share * t <= scaled,
                    scaled <= 100 * t,
                    t > 0,
            ;
            assert(share >= 0) by (nonlinear_arith)
                requires
                    scaled < (share + 1) * t,
                    scaled >= 0,
                    t > 0,
            ;
        } else {
            assert(share >= 100) by (nonlinear_arith)
                requires
                    scaled < (share + 1) * t,
                    scaled >= 100 * t,
                    t > 0,
            ;
        }
    }
}

/// The user is told of a connection that failed before anything else, then of an
/// update that did not pass its verification, and else that the check failed; the case
/// of letters makes no difference.
pub proof fn law_error_is_told_by_its_words(error: Seq<char>)
    ensures
        ({
            let low = lowered(error);
            let connection = has_text(low, "sending request"@) || has_text(low, "connect"@)
                || has_text(low, "timed out"@) || has_text(low, "timeout"@) || has_text(
                low,
                "dns"@,
            ) || has_text(low, "econn"@);
            let verification = has_text(low, "signature"@) || has_text(low, "签名"@) || has_text(
                low,
                "json"@,
            );
            update_error_text(error) == if connection {
                "无法连接 GitHub，请检查网络后重试。"@
            } else if verification {
                "更新信息未通过校验，已停止安装。"@
            } else {
                "暂时无法检查更新，请稍后重试。"@
            }
        }),
{
    let low = lowered(error);
    let first = connection_words();
    let second = verification_words();
    assert(has_any(low, first) <==> has_text(low, first[0]) || has_text(low, first[1]) || has_text(
        low,
        first[2],
    ) || has_text(low, first[3]) || has_text(low, first[4]) || has_text(low, first[5]));
    assert(has_any(low, second) <==> has_text(low, second[0]) || has_text(low, second[1])
        || has_text(low, second[2]));
}

/// The text of a fault says which step failed and why.
pub proof fn law_fault_names_its_step(reason: String)
    ensures
        fault_text(UpdateFault::Setup(reason)) == "无法初始化更新器："@ + reason@,
        fault_text(UpdateFault::Query(reason)) == "GitHub 更新检查失败："@ + reason@,
        fault_text(UpdateFault::Install(reason)) == "下载或安装更新失败："@ + reason@,
        fault_text(UpdateFault::State(reason)) == reason@,
{
}

/// The version that is fetched or installed is the one that the stage is about.
pub proof fn law_fetched_version(version: Seq<char>, downloaded: u64, mark: u64)
    ensures
        fetched_version(
            (CheckStageView::Downloading { version, downloaded, next_percentage: mark }),
        ) == Some(version),
        fetched_version(CheckStageView::Installing(version)) == Some(version),
        fetched_version(CheckStageView::Asking(version)) is None,
        fetched_version(CheckStageView::Querying) is None,
{
}

/// What contracts say of a [`AppUpdateSnapshot`] they say of every part of it.
pub proof fn law_value_of_app_update_snapshot(value: AppUpdateSnapshot)
    ensures
        value@.phase == value.phase,
        value@.target_version == value.target_version.deep_view(),
        value@.progress == value.progress,
        value@.detail == value.detail.deep_view(),
{
}

/// What contracts say of a [`AppUpdater`] they say of every part of it.
pub proof fn law_value_of_app_updater(value: AppUpdater)
    ensures
        value@.state_path == value.state_path@,
        value@.log_path == value.log_path@,
        value@.state == value.state,
        value@.status == value.status@,
        value@.check_scheduled == value.check_scheduled,
        value@.check_running == value.check_running,
        value@.shutting_down == value.shutting_down,
{
}

/// The check after the start is waited for two minutes.
pub proof fn law_application_waits_two_minutes(updater: AppUpdaterView, now: u64)
    requires
        !updater.check_scheduled,
    ensures
        scheduled(updater, now).1 == Some(
            DelayedCheck { deadline: (now + 120 * 1000000000) as u128, over: false },
        ),
{
}

/// A count that no longer fits stays at its greatest value.
pub proof fn law_piece_count_stays_at_its_greatest(
    updater: AppUpdaterView,
    force: bool,
    version: Seq<char>,
    downloaded: u64,
    mark: u64,
    length: u64,
    total: Option<u64>,
)
    requires
        downloaded + length > u64::MAX,
    ensures
        ({
            let (next, after, action) = check_step(
                updater,
                force,
                (CheckStageView::Downloading { version, downloaded, next_percentage: mark }),
                (CheckEvent::Chunk { length, total }),
            );
            &&& next.status.progress == shown_percentage(u64::MAX, total)
            &&& next.status.phase == AppUpdatePhase::Downloading
            &&& next.state == updater.state
            &&& after matches CheckStageView::Downloading {
                version: kept,
                downloaded: arrived,
                next_percentage: later,
            }
            &&& kept == version && arrived == u64::MAX && later >= mark
        }),
{
}

} // verus!
