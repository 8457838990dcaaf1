//! Updates of the user's runtime: the question, the trial in a directory of its
//! own, the update in place, and the way back where that fails.

use vstd::prelude::*;

use crate::command::{CommandPlan, CommandPlanView};
use crate::host::Platform;
use crate::launch::{web_arguments, web_command_args};
use crate::paths::{below, join_path};
use crate::schedule::FAILED_RETRY_SECS;
use crate::staging::{install_fault_text, InstallFault};
use crate::system_runtime::{
    check_due, installation_view, update_is_due, update_status, RuntimeInstallation,
    RuntimeInstallationView, RuntimeManager, RuntimeManagerView, RuntimeState, RuntimeUpdatePhase,
    RuntimeUpdateSnapshotView, UPDATE_DELAY_SECS,
};
use crate::system_tools::{
    command_for_tool, executable_plan, runtime_error_text, tool_plan, user_runtime_error,
    UserToolchain, UserToolchainView,
};
use crate::text::{cat2, cat3, cat4, cat5, no_texts, same};
use crate::trim::{decimal, decimal_text};
use crate::update_loop::{
    delayed_from, delayed_step, delayed_tick, law_delayed_check_is_made_once,
    law_delayed_check_waits, DelayedCheck, Tick, Wake, NANOS_PER_SEC,
};
use crate::version::{newer, precedence, semver_parse, version_is_newer, VersionOrder};

verus! {

/// How a check ended.
#[derive(Debug)]
pub enum UpdateOutcome {
    Current,
    /// This version is there and was not installed.
    Available(String),
    /// This version was installed.
    Updated(String),
    /// Nothing was checked.
    Skipped,
}

/// The value of an [`UpdateOutcome`].
#[verifier::ext_equal]
pub enum UpdateOutcomeView {
    Current,
    Available(Seq<char>),
    Updated(Seq<char>),
    Skipped,
}

impl View for UpdateOutcome {
    type V = UpdateOutcomeView;

    open spec fn view(&self) -> UpdateOutcomeView {
        match self {
            UpdateOutcome::Current => UpdateOutcomeView::Current,
            UpdateOutcome::Available(version) => UpdateOutcomeView::Available(version@),
            UpdateOutcome::Updated(version) => UpdateOutcomeView::Updated(version@),
            UpdateOutcome::Skipped => UpdateOutcomeView::Skipped,
        }
    }
}

/// The value of what a check returned.
pub open spec fn outcome_view(result: Result<UpdateOutcome, String>) -> Result<
    UpdateOutcomeView,
    Seq<char>,
> {
    match result {
        Ok(outcome) => Ok(outcome@),
        Err(error) => Err(error@),
    }
}

/// How far a check has come.
pub enum CheckStage {
    Start,
    /// The attempt at this time is being written down.
    SavingAttempt(u64),
    /// The runtime is being found; the check began at this time.
    Ensuring(u64),
    /// npm is being asked for the newest version.
    Querying { now: u64, installation: RuntimeInstallation },
    /// The success is being written down.
    SavingSuccess { latest: String, installation: RuntimeInstallation },
    /// The user is being asked.
    Asking { latest: String, installation: RuntimeInstallation },
    /// The version is being tried and installed.
    Updating(String),
    Done,
}

/// The value of a [`CheckStage`].
pub enum CheckStageView {
    Start,
    SavingAttempt(u64),
    Ensuring(u64),
    Querying { now: u64, installation: RuntimeInstallationView },
    SavingSuccess { latest: Seq<char>, installation: RuntimeInstallationView },
    Asking { latest: Seq<char>, installation: RuntimeInstallationView },
    Updating(Seq<char>),
    Done,
}

impl View for CheckStage {
    type V = CheckStageView;

    open spec fn view(&self) -> CheckStageView {
        match self {
            CheckStage::Start => CheckStageView::Start,
            CheckStage::SavingAttempt(now) => CheckStageView::SavingAttempt(*now),
            CheckStage::Ensuring(now) => CheckStageView::Ensuring(*now),
            CheckStage::Querying { now, installation } => CheckStageView::Querying {
                now: *now,
                installation: installation@,
            },
            CheckStage::SavingSuccess { latest, installation } => CheckStageView::SavingSuccess {
                latest: latest@,
                installation: installation@,
            },
            CheckStage::Asking { latest, installation } => CheckStageView::Asking {
                latest: latest@,
                installation: installation@,
            },
            CheckStage::Updating(latest) => CheckStageView::Updating(latest@),
            CheckStage::Done => CheckStageView::Done,
        }
    }
}

/// One check. One that the user asked for may go on to install.
pub struct RuntimeCheck {
    pub force: bool,
    pub stage: CheckStage,
}

/// What happened outside.
pub enum CheckEvent {
    Begin { now: u64 },
    /// The state was written.
    Saved,
    /// A runtime was found or installed.
    Ensured(Result<RuntimeInstallation, String>),
    /// npm was asked for the newest version.
    Latest(Result<String, String>),
    /// The user answered.
    Answered { accepted: bool },
    /// The version was tried and installed.
    Updated(Result<RuntimeInstallation, String>),
    /// A step failed.
    Failed(String),
}

/// What is to be done outside.
pub enum CheckAction {
    Save,
    /// A runtime is to be found or installed.
    Ensure,
    /// npm is to be asked for the newest version.
    Query(UserToolchain),
    /// The user is to be asked this question.
    Ask(String),
    /// The installation is to be updated to this version.
    Update { installation: RuntimeInstallation, version: String },
    /// The check is over, with a message for the user where there is one.
    Finish { result: Result<UpdateOutcome, String>, notice: Option<String> },
    /// The event did not belong to the stage.
    Ignore,
}

/// The value of a [`CheckAction`].
#[verifier::ext_equal]
pub enum CheckActionView {
    Save,
    Ensure,
    Query(UserToolchainView),
    Ask(Seq<char>),
    Update { installation: RuntimeInstallationView, version: Seq<char> },
    Finish { result: Result<UpdateOutcomeView, Seq<char>>, notice: Option<Seq<char>> },
    Ignore,
}

impl View for CheckAction {
    type V = CheckActionView;

    open spec fn view(&self) -> CheckActionView {
        match self {
            CheckAction::Save => CheckActionView::Save,
            CheckAction::Ensure => CheckActionView::Ensure,
            CheckAction::Query(toolchain) => CheckActionView::Query(toolchain@),
            CheckAction::Ask(question) => CheckActionView::Ask(question@),
            CheckAction::Update { installation, version } => CheckActionView::Update {
                installation: installation@,
                version: version@,
            },
            CheckAction::Finish { result, notice } => CheckActionView::Finish {
                result: outcome_view(*result),
                notice: notice.deep_view(),
            },
            CheckAction::Ignore => CheckActionView::Ignore,
        }
    }
}

/// What the user is asked before an update.
pub open spec fn update_question(latest: Seq<char>, prefix: Seq<char>) -> Seq<char> {
    "发现 DSH "@ + latest + "。\n\n更新会在原安装位置 "@ + prefix
        + " 替换 DSH，不会改变命令位置。\n\n安装前会先在临时目录完成启动验证。"@
}

/// What the user is told of an update that the application cannot make.
pub open spec fn manual_notice(latest: Seq<char>, dsh_command: Seq<char>) -> Seq<char> {
    "发现 DSH "@ + latest + "，但无法确认当前 DSH "@ + dsh_command
        + " 的安装方式。\n\n为避免改变安装位置，DSH Desktop 不会自动更新它。请使用原来的包管理器完成更新。"@
}

/// What is shown of a version that is there.
pub open spec fn available_detail(installation: Option<RuntimeInstallationView>) -> Seq<char> {
    match installation {
        Some(installation) => if installation.update_prefix is Some {
            "将在当前 DSH 的原安装位置更新"@
        } else {
            "请使用原来的安装方式更新 DSH"@
        },
        None => "发现 DSH 新版本"@,
    }
}

/// The end of a check without a message.
pub open spec fn ended(
    manager: RuntimeManagerView,
    result: Result<UpdateOutcomeView, Seq<char>>,
) -> (RuntimeManagerView, CheckStageView, CheckActionView) {
    (manager, CheckStageView::Done, CheckActionView::Finish { result, notice: None })
}

/// What follows once the newest version is known and written down.
pub open spec fn weighed(
    manager: RuntimeManagerView,
    force: bool,
    latest: Seq<char>,
    installation: RuntimeInstallationView,
) -> (RuntimeManagerView, CheckStageView, CheckActionView) {
    let shown = RuntimeManagerView {
        update_status: update_status(
            RuntimeUpdatePhase::Available,
            Some(latest),
            Some(available_detail(manager.installation)),
        ),
        ..manager
    };
    if !newer(latest, installation.dsh_version) {
        ended(manager, Ok(UpdateOutcomeView::Current))
    } else if !force {
        ended(manager, Ok(UpdateOutcomeView::Available(latest)))
    } else {
        match installation.update_prefix {
            None => (
                shown,
                CheckStageView::Done,
                CheckActionView::Finish {
                    result: Ok(UpdateOutcomeView::Available(latest)),
                    notice: Some(manual_notice(latest, installation.dsh_command)),
                },
            ),
            Some(prefix) => (
                shown,
                CheckStageView::Asking { latest, installation },
                CheckActionView::Ask(update_question(latest, prefix)),
            ),
        }
    }
}

/// What follows an event. An event that does not belong to the stage changes
/// nothing.
pub open spec fn check_step(
    manager: RuntimeManagerView,
    force: bool,
    stage: CheckStageView,
    event: CheckEvent,
) -> (RuntimeManagerView, CheckStageView, CheckActionView) {
    let ignored = (manager, stage, CheckActionView::Ignore);
    match event {
        CheckEvent::Begin { now } => if stage is Start {
            if !force && !check_due(manager.state, now) {
                ended(manager, Ok(UpdateOutcomeView::Skipped))
            } else {
                (
                    RuntimeManagerView {
                        state: RuntimeState { last_update_attempt: Some(now), ..manager.state },
                        ..manager
                    },
                    CheckStageView::SavingAttempt(now),
                    CheckActionView::Save,
                )
            }
        } else {
            ignored
        },
        CheckEvent::Saved => match stage {
            CheckStageView::SavingAttempt(now) => (
                manager,
                CheckStageView::Ensuring(now),
                CheckActionView::Ensure,
            ),
            CheckStageView::SavingSuccess { latest, installation } => weighed(
                manager,
                force,
                latest,
                installation,
            ),
            _ => ignored,
        },
        CheckEvent::Ensured(result) => match stage {
            CheckStageView::Ensuring(now) => match result {
                Err(reason) => ended(manager, Err(reason@)),
                Ok(installation) => (
                    manager,
                    CheckStageView::Querying { now, installation: installation@ },
                    CheckActionView::Query(installation@.toolchain),
                ),
            },
            _ => ignored,
        },
        CheckEvent::Latest(result) => match stage {
            CheckStageView::Querying { now, installation } => match result {
                Err(reason) => ended(manager, Err(reason@)),
                Ok(latest) => (
                    RuntimeManagerView {
                        state: RuntimeState { last_successful_check: Some(now), ..manager.state },
                        ..manager
                    },
                    CheckStageView::SavingSuccess { latest: latest@, installation },
                    CheckActionView::Save,
                ),
            },
            _ => ignored,
        },
        CheckEvent::Answered { accepted } => match stage {
            CheckStageView::Asking { latest, installation } => if accepted {
                (
                    RuntimeManagerView {
                        update_status: update_status(
                            RuntimeUpdatePhase::Installing,
                            Some(latest),
                            Some("正在准备 DSH "@ + latest),
                        ),
                        ..manager
                    },
                    CheckStageView::Updating(latest),
                    CheckActionView::Update { installation, version: latest },
                )
            } else {
                ended(manager, Ok(UpdateOutcomeView::Available(latest)))
            },
            _ => ignored,
        },
        CheckEvent::Updated(result) => match stage {
            CheckStageView::Updating(latest) => match result {
                Err(reason) => ended(manager, Err(reason@)),
                Ok(installation) => ended(
                    RuntimeManagerView { installation: Some(installation@), ..manager },
                    Ok(UpdateOutcomeView::Updated(latest)),
                ),
            },
            _ => ignored,
        },
        CheckEvent::Failed(reason) => if stage is Done {
            ignored
        } else {
            ended(manager, Err(reason@))
        },
    }
}

/// What follows a check: what the user sees, whether the application is started
/// again, and a message.
pub struct CheckReport {
    /// The application is to be started again, and the main window shows this
    /// title until then.
    pub restart: Option<String>,
    /// The title and the text of a message.
    pub notice: Option<(String, String)>,
}

/// The manager after a check.
pub open spec fn after_check(
    manager: RuntimeManagerView,
    result: Result<UpdateOutcomeView, Seq<char>>,
    platform: Platform,
) -> RuntimeManagerView {
    let finished = RuntimeManagerView { update_running: false, ..manager };
    match result {
        Ok(UpdateOutcomeView::Current) => RuntimeManagerView {
            update_status: update_status(
                RuntimeUpdatePhase::Current,
                None,
                Some("已是最新版本"@),
            ),
            ..finished
        },
        Ok(UpdateOutcomeView::Available(version)) => RuntimeManagerView {
            update_status: update_status(
                RuntimeUpdatePhase::Available,
                Some(version),
                Some(available_detail(manager.installation)),
            ),
            ..finished
        },
        Ok(UpdateOutcomeView::Updated(version)) => RuntimeManagerView {
            update_status: update_status(
                RuntimeUpdatePhase::Ready,
                Some(version),
                Some("已更新，正在重启"@),
            ),
            shutting_down: true,
            startup: None,
            ..finished
        },
        Ok(UpdateOutcomeView::Skipped) => RuntimeManagerView {
            update_status: resting_status(manager.installation),
            ..finished
        },
        Err(error) => RuntimeManagerView {
            update_status: update_status(
                RuntimeUpdatePhase::Error,
                manager.update_status.target_version,
                Some(runtime_error_text(error, platform)),
            ),
            ..finished
        },
    }
}

/// What there is to see while no check runs.
pub open spec fn resting_status(
    installation: Option<RuntimeInstallationView>,
) -> RuntimeUpdateSnapshotView {
    update_status(
        RuntimeUpdatePhase::Idle,
        None,
        match installation {
            Some(installation) => Some("当前版本 "@ + installation.dsh_version),
            None => None,
        },
    )
}

/// What beginning a check does, and whether it begins: only where none runs.
pub open spec fn begun(manager: RuntimeManagerView) -> (RuntimeManagerView, bool) {
    if manager.update_running {
        (manager, false)
    } else {
        (
            RuntimeManagerView {
                update_running: true,
                update_status: update_status(
                    RuntimeUpdatePhase::Checking,
                    None,
                    Some("正在查询 npm 最新版本"@),
                ),
                ..manager
            },
            true,
        )
    }
}

/// What asking for the check after the start does: only the first one to ask gets
/// it to wait for.
pub open spec fn scheduled(manager: RuntimeManagerView, now: u64) -> (
    RuntimeManagerView,
    Option<DelayedCheck>,
) {
    (
        RuntimeManagerView { update_scheduled: true, ..manager },
        if manager.update_scheduled {
            None
        } else {
            Some(delayed_from(now, UPDATE_DELAY_SECS))
        },
    )
}

/// What those who ask at these times get to wait for, one after the other.
pub open spec fn granted(manager: RuntimeManagerView, times: Seq<u64>) -> Seq<DelayedCheck>
    decreases times.len(),
{
    if times.len() == 0 {
        Seq::empty()
    } else {
        let (next, first) = scheduled(manager, times[0]);
        let rest = granted(next, times.drop_first());
        match first {
            Some(first) => seq![first] + rest,
            None => rest,
        }
    }
}

/// However often the check after the start is asked for, only the first one to ask
/// gets it to wait for.
pub proof fn law_checks_are_scheduled_once(manager: RuntimeManagerView, times: Seq<u64>)
    ensures
        granted(manager, times) == if manager.update_scheduled || times.len() == 0 {
            Seq::<DelayedCheck>::empty()
        } else {
            seq![delayed_from(times[0], UPDATE_DELAY_SECS)]
        },
    decreases times.len(),
{
    if times.len() > 0 {
        law_checks_are_scheduled_once(scheduled(manager, times[0]).0, times.drop_first());
        if !manager.update_scheduled {
            assert(granted(manager, times) =~= seq![delayed_from(times[0], UPDATE_DELAY_SECS)]);
        }
    }
}

/// However often the check after the start is asked for, it is made at most once, no
/// earlier than the delay after the first one asked, and not if the application ends
/// by then.
pub proof fn law_scheduled_check_waits(manager: RuntimeManagerView, times: Seq<u64>, wakes: Seq<Wake>)
    requires
        !manager.update_scheduled,
        times.len() > 0,
    ensures
        granted(manager, times).len() == 1,
        forall|at: int|
            0 <= at < wakes.len() && #[trigger] delayed_tick(granted(manager, times)[0], wakes, at)
                is Fire ==> wakes[at].now >= times[0] + UPDATE_DELAY_SECS * NANOS_PER_SEC
                && !wakes[at].ending,
        forall|one: int, other: int|
            0 <= one < wakes.len() && 0 <= other < wakes.len() && #[trigger] delayed_tick(
                granted(manager, times)[0],
                wakes,
                one,
            ) is Fire && #[trigger] delayed_tick(granted(manager, times)[0], wakes, other) is Fire
                ==> one == other,
{
    law_checks_are_scheduled_once(manager, times);
    let check = delayed_from(times[0], UPDATE_DELAY_SECS);
    assert(granted(manager, times)[0] == check);
    assert forall|at: int|
        0 <= at < wakes.len() && #[trigger] delayed_tick(check, wakes, at) is Fire implies wakes[at].now
        >= times[0] + UPDATE_DELAY_SECS * NANOS_PER_SEC && !wakes[at].ending by {
        law_delayed_check_waits(times[0], UPDATE_DELAY_SECS, wakes, at);
    }
    assert forall|one: int, other: int|
        0 <= one < wakes.len() && 0 <= other < wakes.len() && #[trigger] delayed_tick(
            check,
            wakes,
            one,
        ) is Fire && #[trigger] delayed_tick(check, wakes, other) is Fire implies one == other by {
        if one < other {
            law_delayed_check_is_made_once(check, wakes, one, other);
        } else if other < one {
            law_delayed_check_is_made_once(check, wakes, other, one);
        }
    }
}

impl RuntimeManager {
    /// Asks for the check after the start. Only the first one to ask is to wait and
    /// then check.
    pub fn schedule_update_check(&mut self, now: u64) -> (check: Option<DelayedCheck>)
        ensures
            final(self).same_setup(*old(self)),
            (final(self)@, check) == scheduled(old(self)@, now),
    {
        if self.update_scheduled {
            return None;
        }
        self.update_scheduled = true;
        Some(DelayedCheck::new(now, UPDATE_DELAY_SECS))
    }

    /// Wakes the wait for the check after the start and says what it does next.
    pub fn wait_for_check(&self, check: &mut DelayedCheck, now: u64) -> (next: Tick)
        ensures
            (*final(check), next) == delayed_step(*old(check), now, self@.shutting_down),
    {
        check.wake(now, self.shutting_down)
    }

    /// Begins a check where none runs. Otherwise nothing changes.
    pub fn check_for_updates(&mut self, force: bool) -> (check: Option<RuntimeCheck>)
        ensures
            final(self).same_setup(*old(self)),
            final(self)@ == begun(old(self)@).0,
            if begun(old(self)@).1 {
                check matches Some(check) && check.force == force && check.stage@
                    == CheckStageView::Start
            } else {
                check is None
            },
    {
        if self.update_running {
            return None;
        }
        self.update_running = true;
        self.set_update_status(
            RuntimeUpdatePhase::Checking,
            None,
            Some("正在查询 npm 最新版本".to_string()),
        );
        Some(RuntimeCheck { force, stage: CheckStage::Start })
    }

    /// What is shown of a version that is there.
    pub fn update_available_detail(&self) -> (detail: String)
        ensures
            detail@ == available_detail(self@.installation),
    {
        match &self.installation {
            Some(installation) => if installation.update_prefix.is_some() {
                "将在当前 DSH 的原安装位置更新".to_string()
            } else {
                "请使用原来的安装方式更新 DSH".to_string()
            },
            None => "发现 DSH 新版本".to_string(),
        }
    }

    /// Shows what there is to see while no check runs.
    pub fn restore_resting_update_status(&mut self)
        ensures
            final(self).same_setup(*old(self)),
            final(self)@ == (RuntimeManagerView {
                update_status: resting_status(old(self)@.installation),
                ..old(self)@
            }),
    {
        let detail: Option<String> = match &self.installation {
            Some(installation) => Some(cat2("当前版本 ", installation.dsh_version.as_str())),
            None => None,
        };
        self.set_update_status(RuntimeUpdatePhase::Idle, None, detail);
    }

    fn weigh(
        &mut self,
        check: &mut RuntimeCheck,
        latest: String,
        installation: RuntimeInstallation,
    ) -> (action: CheckAction)
        ensures
            final(self).same_setup(*old(self)),
            final(check).force == old(check).force,
            (final(self)@, final(check).stage@, action@) == weighed(
                old(self)@,
                old(check).force,
                latest@,
                installation@,
            ),
    {
        if !version_is_newer(latest.as_str(), installation.dsh_version.as_str()) {
            check.stage = CheckStage::Done;
            return CheckAction::Finish { result: Ok(UpdateOutcome::Current), notice: None };
        }
        if !check.force {
            check.stage = CheckStage::Done;
            return CheckAction::Finish {
                result: Ok(UpdateOutcome::Available(latest)),
                notice: None,
            };
        }
        let detail = self.update_available_detail();
        self.set_update_status(RuntimeUpdatePhase::Available, Some(latest.clone()), Some(detail));
        match &installation.update_prefix {
            None => {
                let notice = cat5(
                    "发现 DSH ",
                    latest.as_str(),
                    "，但无法确认当前 DSH ",
                    installation.dsh_command.as_str(),
                    " 的安装方式。\n\n为避免改变安装位置，DSH Desktop 不会自动更新它。请使用原来的包管理器完成更新。",
                );
                check.stage = CheckStage::Done;
                CheckAction::Finish {
                    result: Ok(UpdateOutcome::Available(latest)),
                    notice: Some(notice),
                }
            },
            Some(prefix) => {
                let question = cat5(
                    "发现 DSH ",
                    latest.as_str(),
                    "。\n\n更新会在原安装位置 ",
                    prefix.as_str(),
                    " 替换 DSH，不会改变命令位置。\n\n安装前会先在临时目录完成启动验证。",
                );
                check.stage = CheckStage::Asking { latest, installation };
                CheckAction::Ask(question)
            },
        }
    }

    fn take_answer(
        &mut self,
        check: &mut RuntimeCheck,
        latest: String,
        installation: RuntimeInstallation,
        accepted: bool,
    ) -> (action: CheckAction)
        requires
            old(check).stage@ == (CheckStageView::Asking {
                latest: latest@,
                installation: installation@,
            }),
        ensures
            final(self).same_setup(*old(self)),
            final(check).force == old(check).force,
            (final(self)@, final(check).stage@, action@) == check_step(
                old(self)@,
                old(check).force,
                old(check).stage@,
                CheckEvent::Answered { accepted },
            ),
    {
        if !accepted {
            check.stage = CheckStage::Done;
            return CheckAction::Finish {
                result: Ok(UpdateOutcome::Available(latest)),
                notice: None,
            };
        }
        self.set_update_status(
            RuntimeUpdatePhase::Installing,
            Some(latest.clone()),
            Some(cat2("正在准备 DSH ", latest.as_str())),
        );
        check.stage = CheckStage::Updating(latest.clone());
        CheckAction::Update { installation, version: latest }
    }

    /// Takes an event of a running check and says what is to be done next.
    pub fn advance(&mut self, check: &mut RuntimeCheck, event: CheckEvent) -> (action: CheckAction)
        ensures
            final(self).same_setup(*old(self)),
            final(check).force == old(check).force,
            (final(self)@, final(check).stage@, action@) == check_step(
                old(self)@,
                old(check).force,
                old(check).stage@,
                event,
            ),
    {
        match event {
            CheckEvent::Begin { now } => {
                if let CheckStage::Start = check.stage {
                    if !check.force && !update_is_due(&self.state, now) {
                        check.stage = CheckStage::Done;
                        return CheckAction::Finish {
                            result: Ok(UpdateOutcome::Skipped),
                            notice: None,
                        };
                    }
                    self.state.last_update_attempt = Some(now);
                    check.stage = CheckStage::SavingAttempt(now);
                    return CheckAction::Save;
                }
            },
            CheckEvent::Saved => {
                if let CheckStage::SavingAttempt(now) = check.stage {
                    check.stage = CheckStage::Ensuring(now);
                    return CheckAction::Ensure;
                }
                if let CheckStage::SavingSuccess { latest, installation } = &check.stage {
                    let latest: String = latest.clone();
                    let installation: RuntimeInstallation = installation.clone();
                    return self.weigh(check, latest, installation);
                }
            },
            CheckEvent::Ensured(result) => {
                if let CheckStage::Ensuring(now) = check.stage {
                    match result {
                        Err(reason) => {
                            check.stage = CheckStage::Done;
                            return CheckAction::Finish { result: Err(reason), notice: None };
                        },
                        Ok(installation) => {
                            let toolchain = installation.toolchain.clone();
                            check.stage = CheckStage::Querying { now, installation };
                            return CheckAction::Query(toolchain);
                        },
                    }
                }
            },
            CheckEvent::Latest(result) => {
                if let CheckStage::Querying { now, installation } = &check.stage {
                    let now: u64 = *now;
                    let installation: RuntimeInstallation = installation.clone();
                    match result {
                        Err(reason) => {
                            check.stage = CheckStage::Done;
                            return CheckAction::Finish { result: Err(reason), notice: None };
                        },
                        Ok(latest) => {
                            self.state.last_successful_check = Some(now);
                            check.stage = CheckStage::SavingSuccess { latest, installation };
                            return CheckAction::Save;
                        },
                    }
                }
            },
            CheckEvent::Answered { accepted } => {
                if let CheckStage::Asking { latest, installation } = &check.stage {
                    let latest: String = latest.clone();
                    let installation: RuntimeInstallation = installation.clone();
                    return self.take_answer(check, latest, installation, accepted);
                }
            },
            CheckEvent::Updated(result) => {
                if let CheckStage::Updating(latest) = &check.stage {
                    let latest: String = latest.clone();
                    check.stage = CheckStage::Done;
                    match result {
                        Err(reason) => {
                            return CheckAction::Finish { result: Err(reason), notice: None };
                        },
                        Ok(installation) => {
                            self.installation = Some(installation);
                            return CheckAction::Finish {
                                result: Ok(UpdateOutcome::Updated(latest)),
                                notice: None,
                            };
                        },
                    }
                }
            },
            CheckEvent::Failed(reason) => {
                match check.stage {
                    CheckStage::Done => {},
                    _ => {
                        check.stage = CheckStage::Done;
                        return CheckAction::Finish { result: Err(reason), notice: None };
                    },
                }
            },
        }
        CheckAction::Ignore
    }

    /// Shows how a check ended and lets the next one begin.
    pub fn finish_check(&mut self, result: Result<UpdateOutcome, String>, force: bool) -> (report:
        CheckReport)
        ensures
            final(self).same_setup(*old(self)),
            final(self)@ == after_check(old(self)@, outcome_view(result), old(self).platform),
            report.restart.deep_view() == (match outcome_view(result) {
                Ok(UpdateOutcomeView::Updated(version)) => Some(
                    "DSH Desktop · DSH "@ + version + " 已安装"@,
                ),
                _ => None,
            }),
            match outcome_view(result) {
                Err(error) if force && !old(self)@.shutting_down => report.notice matches Some(
                    notice,
                ) && notice.0@ == "DSH 更新失败"@ && notice.1@ == runtime_error_text(
                    error,
                    old(self).platform,
                ) + "\n\n更新已经停止，详细信息已写入日志。"@,
                _ => report.notice is None,
            },
    {
        self.update_running = false;
        match result {
            Ok(UpdateOutcome::Current) => {
                self.set_update_status(
                    RuntimeUpdatePhase::Current,
                    None,
                    Some("已是最新版本".to_string()),
                );
            },
            Ok(UpdateOutcome::Available(version)) => {
                let detail = self.update_available_detail();
                self.set_update_status(RuntimeUpdatePhase::Available, Some(version), Some(detail));
            },
            Ok(UpdateOutcome::Updated(version)) => {
                let title = cat3("DSH Desktop · DSH ", version.as_str(), " 已安装");
                self.set_update_status(
                    RuntimeUpdatePhase::Ready,
                    Some(version),
                    Some("已更新，正在重启".to_string()),
                );
                self.terminate();
                return CheckReport { restart: Some(title), notice: None };
            },
            Ok(UpdateOutcome::Skipped) => {
                self.restore_resting_update_status();
            },
            Err(error) => {
                let told = user_runtime_error(error.as_str(), self.platform);
                let target_version = self.update_status.target_version.clone();
                self.set_update_status(
                    RuntimeUpdatePhase::Error,
                    target_version,
                    Some(told.to_string()),
                );
                if force && !self.shutting_down {
                    return CheckReport {
                        restart: None,
                        notice: Some(
                            (
                                "DSH 更新失败".to_string(),
                                cat2(told, "\n\n更新已经停止，详细信息已写入日志。"),
                            ),
                        ),
                    };
                }
            },
        }
        CheckReport { restart: None, notice: None }
    }
}

/// An update is made only where the user agreed, to a version that is newer than
/// the installed one, and only where it is known how the runtime was installed.
pub open spec fn may_update(stage: CheckStageView) -> bool {
    match stage {
        CheckStageView::Asking { latest, installation } => newer(latest, installation.dsh_version)
            && installation.update_prefix is Some,
        _ => true,
    }
}

/// No update is made without consent, to an older version, or to a place that is
/// not the one of the runtime in use.
pub proof fn law_update_needs_consent(
    manager: RuntimeManagerView,
    force: bool,
    stage: CheckStageView,
    event: CheckEvent,
)
    ensures
        ({
            let (next, after, action) = check_step(manager, force, stage, event);
            &&& may_update(CheckStageView::Start)
            &&& may_update(stage) ==> may_update(after)
            &&& action is Update ==> (event matches CheckEvent::Answered { accepted } && accepted)
                && stage is Asking
            &&& may_update(stage) ==> (action matches CheckActionView::Update {
                installation,
                version,
            } ==> newer(version, installation.dsh_version) && installation.update_prefix is Some)
        }),
{
}

/// A check that nobody asked for installs nothing and asks nothing.
pub proof fn law_quiet_check_only_looks(
    manager: RuntimeManagerView,
    stage: CheckStageView,
    event: CheckEvent,
)
    requires
        !(stage is Asking),
    ensures
        ({
            let (next, after, action) = check_step(manager, false, stage, event);
            &&& !(after is Asking)
            &&& !(action is Ask)
            &&& !(action is Update)
        }),
{
}

/// How far an update in place has come.
pub enum UpdateStage {
    /// The staging directory is being made.
    Preparing,
    /// The version is being installed for a trial.
    Staging,
    /// The trial is being asked for its version.
    InspectingTrial,
    /// The trial is being started with this home directory.
    Smoking(String),
    /// The version is being installed in place.
    Replacing,
    /// The installation in place is being asked for its version.
    InspectingResult,
    /// The old version is being installed again, after this error.
    RollingBack(String),
    Done,
}

/// The value of an [`UpdateStage`].
pub enum UpdateStageView {
    Preparing,
    Staging,
    InspectingTrial,
    Smoking(Seq<char>),
    Replacing,
    InspectingResult,
    RollingBack(Seq<char>),
    Done,
}

impl View for UpdateStage {
    type V = UpdateStageView;

    open spec fn view(&self) -> UpdateStageView {
        match self {
            UpdateStage::Preparing => UpdateStageView::Preparing,
            UpdateStage::Staging => UpdateStageView::Staging,
            UpdateStage::InspectingTrial => UpdateStageView::InspectingTrial,
            UpdateStage::Smoking(home) => UpdateStageView::Smoking(home@),
            UpdateStage::Replacing => UpdateStageView::Replacing,
            UpdateStage::InspectingResult => UpdateStageView::InspectingResult,
            UpdateStage::RollingBack(error) => UpdateStageView::RollingBack(error@),
            UpdateStage::Done => UpdateStageView::Done,
        }
    }
}

/// One update in place: the version that is in use, its place, the version that
/// is installed, and the directory for the trial.
pub struct UpdateRun {
    pub old_version: String,
    pub prefix: String,
    pub version: String,
    pub directory: String,
    pub stage: UpdateStage,
}

/// The value of an [`UpdateRun`] but for its stage.
#[verifier::ext_equal]
pub struct UpdateTarget {
    pub old_version: Seq<char>,
    pub prefix: Seq<char>,
    pub version: Seq<char>,
    pub directory: Seq<char>,
}

/// What happened outside.
pub enum UpdateEvent {
    /// The staging directory is there.
    Prepared,
    /// The version was installed where the last action said.
    Installed(Result<(), String>),
    /// The installation was asked for its version, at this time.
    Inspected { now: u64, result: Result<RuntimeInstallation, String> },
    /// The trial was started, or it could not be.
    SmokeRan(Result<(), String>),
    /// The staging directory or the home directory of the trial could not be made.
    NotPrepared(InstallFault),
}

/// What is to be done outside. Directories under `discard` are deleted first.
pub enum UpdateAction {
    /// The version is to be installed to the prefix.
    Install { discard: Vec<String>, prefix: String, version: String },
    /// The installation in the prefix is to be asked for its version.
    Inspect { prefix: String },
    /// The trial is to be started with this home directory, which is to be made
    /// first.
    Smoke { home: String },
    Finish { discard: Vec<String>, result: Result<RuntimeInstallation, String> },
    /// The event did not belong to the stage.
    Ignore,
}

/// The value of an [`UpdateAction`].
#[verifier::ext_equal]
pub enum UpdateActionView {
    Install { discard: Seq<Seq<char>>, prefix: Seq<char>, version: Seq<char> },
    Inspect { prefix: Seq<char> },
    Smoke { home: Seq<char> },
    Finish { discard: Seq<Seq<char>>, result: Result<RuntimeInstallationView, Seq<char>> },
    Ignore,
}

impl View for UpdateAction {
    type V = UpdateActionView;

    open spec fn view(&self) -> UpdateActionView {
        match self {
            UpdateAction::Install { discard, prefix, version } => UpdateActionView::Install {
                discard: discard.deep_view(),
                prefix: prefix@,
                version: version@,
            },
            UpdateAction::Inspect { prefix } => UpdateActionView::Inspect { prefix: prefix@ },
            UpdateAction::Smoke { home } => UpdateActionView::Smoke { home: home@ },
            UpdateAction::Finish { discard, result } => UpdateActionView::Finish {
                discard: discard.deep_view(),
                result: installation_view(*result),
            },
            UpdateAction::Ignore => UpdateActionView::Ignore,
        }
    }
}

/// An update that failed before anything in place changed.
pub open spec fn given_up(
    manager: RuntimeManagerView,
    discard: Seq<Seq<char>>,
    reason: Seq<char>,
) -> (RuntimeManagerView, UpdateStageView, UpdateActionView) {
    (
        manager,
        UpdateStageView::Done,
        UpdateActionView::Finish { discard, result: Err(reason) },
    )
}

/// What is reported of an update that failed, with what came of putting the old
/// version back. A runtime whose way of installation is not known is not touched.
pub open spec fn rollback_text(
    update_error: Seq<char>,
    old_version: Seq<char>,
    restored: Option<Result<(), String>>,
) -> Seq<char> {
    match restored {
        None => update_error + "；现有 DSH "@ + old_version + " 未被修改"@,
        Some(Ok(_)) => update_error + "；已恢复 DSH "@ + old_version,
        Some(Err(error)) => update_error + "；恢复 DSH "@ + old_version + " 也失败："@ + error@,
    }
}

/// What is reported of an update that failed.
pub fn rollback_message(
    update_error: &str,
    old_version: &str,
    restored: &Option<Result<(), String>>,
) -> (message: String)
    ensures
        message@ == rollback_text(update_error@, old_version@, *restored),
{
    match restored {
        None => cat4(update_error, "；现有 DSH ", old_version, " 未被修改"),
        Some(Ok(())) => cat3(update_error, "；已恢复 DSH ", old_version),
        Some(Err(error)) => cat5(
            update_error,
            "；恢复 DSH ",
            old_version,
            " 也失败：",
            error.as_str(),
        ),
    }
}

/// The old version is installed again, in its old place.
pub open spec fn rolled_back(
    manager: RuntimeManagerView,
    target: UpdateTarget,
    error: Seq<char>,
) -> (RuntimeManagerView, UpdateStageView, UpdateActionView) {
    (
        manager,
        UpdateStageView::RollingBack(error),
        UpdateActionView::Install {
            discard: Seq::empty(),
            prefix: target.prefix,
            version: target.old_version,
        },
    )
}

/// What follows an event. An event that does not belong to the stage changes
/// nothing.
pub open spec fn update_step(
    manager: RuntimeManagerView,
    smoke_root: Seq<char>,
    platform: Platform,
    target: UpdateTarget,
    stage: UpdateStageView,
    event: UpdateEvent,
) -> (RuntimeManagerView, UpdateStageView, UpdateActionView) {
    let ignored = (manager, stage, UpdateActionView::Ignore);
    let version = target.version;
    match event {
        UpdateEvent::Prepared => if stage is Preparing {
            (
                manager,
                UpdateStageView::Staging,
                UpdateActionView::Install {
                    discard: Seq::empty(),
                    prefix: target.directory,
                    version,
                },
            )
        } else {
            ignored
        },
        UpdateEvent::Installed(result) => match (stage, result) {
            (UpdateStageView::Staging, Err(error)) => given_up(
                manager,
                seq![target.directory],
                error@,
            ),
            (UpdateStageView::Staging, Ok(_)) => (
                manager,
                UpdateStageView::InspectingTrial,
                UpdateActionView::Inspect { prefix: target.directory },
            ),
            (UpdateStageView::Replacing, Err(error)) => rolled_back(manager, target, error@),
            (UpdateStageView::Replacing, Ok(_)) => (
                manager,
                UpdateStageView::InspectingResult,
                UpdateActionView::Inspect { prefix: target.prefix },
            ),
            (UpdateStageView::RollingBack(error), _) => given_up(
                manager,
                Seq::empty(),
                rollback_text(error, target.old_version, Some(result)),
            ),
            _ => ignored,
        },
        UpdateEvent::Inspected { now, result } => match (stage, result) {
            (UpdateStageView::InspectingTrial, Err(error)) => given_up(
                manager,
                seq![target.directory],
                "新版本验证失败："@ + error@,
            ),
            (UpdateStageView::InspectingTrial, Ok(trial)) => if trial@.dsh_version != version {
                given_up(
                    manager,
                    seq![target.directory],
                    "新版本验证失败：预期 "@ + version + "，实际 "@ + trial@.dsh_version,
                )
            } else {
                let home = below(smoke_root, version + "-"@ + decimal(now as nat), platform);
                (
                    RuntimeManagerView {
                        update_status: update_status(
                            RuntimeUpdatePhase::Verifying,
                            Some(version),
                            Some("正在验证版本与启动能力"@),
                        ),
                        ..manager
                    },
                    UpdateStageView::Smoking(home),
                    UpdateActionView::Smoke { home },
                )
            },
            (UpdateStageView::InspectingResult, Err(error)) => rolled_back(
                manager,
                target,
                error@,
            ),
            (UpdateStageView::InspectingResult, Ok(installed)) => if installed@.dsh_version
                != version {
                rolled_back(
                    manager,
                    target,
                    "安装后版本不匹配：预期 "@ + version + "，实际 "@ + installed@.dsh_version,
                )
            } else {
                (
                    manager,
                    UpdateStageView::Done,
                    UpdateActionView::Finish { discard: Seq::empty(), result: Ok(installed@) },
                )
            },
            _ => ignored,
        },
        UpdateEvent::SmokeRan(result) => match (stage, result) {
            (UpdateStageView::Smoking(home), Err(error)) => given_up(
                manager,
                seq![home, target.directory],
                "新版本启动验证失败："@ + error@,
            ),
            (UpdateStageView::Smoking(home), Ok(_)) => (
                RuntimeManagerView {
                    update_status: update_status(
                        RuntimeUpdatePhase::Installing,
                        Some(version),
                        Some("正在原安装位置更新 DSH "@ + version),
                    ),
                    ..manager
                },
                UpdateStageView::Replacing,
                UpdateActionView::Install {
                    discard: seq![home, target.directory],
                    prefix: target.prefix,
                    version,
                },
            ),
            _ => ignored,
        },
        UpdateEvent::NotPrepared(fault) => if stage is Preparing || stage is Smoking {
            given_up(manager, Seq::empty(), install_fault_text(fault))
        } else {
            ignored
        },
    }
}

impl UpdateRun {
    /// What stays fixed during the update.
    pub open spec fn target(self) -> UpdateTarget {
        UpdateTarget {
            old_version: self.old_version@,
            prefix: self.prefix@,
            version: self.version@,
            directory: self.directory@,
        }
    }

    fn give_up(&mut self, discard: Vec<String>, reason: String) -> (action: UpdateAction)
        ensures
            final(self).target() == old(self).target(),
            final(self).stage@ == UpdateStageView::Done,
            action@ == (UpdateActionView::Finish {
                discard: discard.deep_view(),
                result: Err(reason@),
            }),
    {
        self.stage = UpdateStage::Done;
        UpdateAction::Finish { discard, result: Err(reason) }
    }

    fn discard_trial(&mut self, reason: String) -> (action: UpdateAction)
        ensures
            final(self).target() == old(self).target(),
            final(self).stage@ == UpdateStageView::Done,
            action@ == (UpdateActionView::Finish {
                discard: seq![old(self).directory@],
                result: Err(reason@),
            }),
    {
        let mut discard = no_texts();
        discard.push(self.directory.clone());
        assert(discard.deep_view() =~= seq![self.directory@]);
        self.give_up(discard, reason)
    }

    /// Puts the old version back after an update in place that failed.
    pub fn rollback_after_failed_update(&mut self, error: String) -> (action: UpdateAction)
        ensures
            final(self).target() == old(self).target(),
            final(self).stage@ == UpdateStageView::RollingBack(error@),
            action@ == (UpdateActionView::Install {
                discard: Seq::empty(),
                prefix: old(self).prefix@,
                version: old(self).old_version@,
            }),
    {
        self.stage = UpdateStage::RollingBack(error);
        UpdateAction::Install {
            discard: no_texts(),
            prefix: self.prefix.clone(),
            version: self.old_version.clone(),
        }
    }

    fn installed(&mut self, result: Result<(), String>) -> (action: UpdateAction)
        ensures
            final(self).target() == old(self).target(),
            forall|manager: RuntimeManagerView, smoke_root: Seq<char>, platform: Platform|
                #![trigger update_step(manager, smoke_root, platform, old(self).target(), old(self).stage@, UpdateEvent::Installed(result))]
                (manager, final(self).stage@, action@) == update_step(
                    manager,
                    smoke_root,
                    platform,
                    old(self).target(),
                    old(self).stage@,
                    UpdateEvent::Installed(result),
                ),
    {
        match &self.stage {
            UpdateStage::Staging => {
                match result {
                    Err(error) => self.discard_trial(error),
                    Ok(()) => {
                        self.stage = UpdateStage::InspectingTrial;
                        UpdateAction::Inspect { prefix: self.directory.clone() }
                    },
                }
            },
            UpdateStage::Replacing => {
                match result {
                    Err(error) => self.rollback_after_failed_update(error),
                    Ok(()) => {
                        self.stage = UpdateStage::InspectingResult;
                        UpdateAction::Inspect { prefix: self.prefix.clone() }
                    },
                }
            },
            UpdateStage::RollingBack(error) => {
                let reason = rollback_message(
                    error.as_str(),
                    self.old_version.as_str(),
                    &Some(result),
                );
                let discard = no_texts();
                self.give_up(discard, reason)
            },
            _ => UpdateAction::Ignore,
        }
    }
}

impl RuntimeManager {
    /// Begins an update in place. A runtime whose way of installation is not known
    /// is not updated.
    pub fn install_and_verify_update(
        &self,
        current: &RuntimeInstallation,
        version: &str,
        now: u64,
    ) -> (run: Result<UpdateRun, String>)
        ensures
            match current@.update_prefix {
                None => run matches Err(message) && message@
                    == "当前 DSH 的安装方式无法识别，不能自动更新"@,
                Some(prefix) => {
                    &&& run matches Ok(run)
                    &&& run.target() == (UpdateTarget {
                        old_version: current@.dsh_version,
                        prefix,
                        version: version@,
                        directory: below(
                            self.paths@.staging,
                            version@ + "-"@ + decimal(now as nat),
                            self.platform,
                        ),
                    })
                    &&& run.stage@ == UpdateStageView::Preparing
                },
            },
    {
        match &current.update_prefix {
            None => Err("当前 DSH 的安装方式无法识别，不能自动更新".to_string()),
            Some(prefix) => {
                let name = cat3(version, "-", decimal_text(now).as_str());
                Ok(
                    UpdateRun {
                        old_version: current.dsh_version.clone(),
                        prefix: prefix.clone(),
                        version: version.to_string(),
                        directory: join_path(
                            self.paths.staging.as_str(),
                            name.as_str(),
                            self.platform,
                        ),
                        stage: UpdateStage::Preparing,
                    },
                )
            },
        }
    }

    fn take_trial_inspection(
        &mut self,
        run: &mut UpdateRun,
        now: u64,
        result: Result<RuntimeInstallation, String>,
    ) -> (action: UpdateAction)
        ensures
            final(self).same_setup(*old(self)),
            final(run).target() == old(run).target(),
            (final(self)@, final(run).stage@, action@) == update_step(
                old(self)@,
                old(self).paths@.smoke,
                old(self).platform,
                old(run).target(),
                old(run).stage@,
                UpdateEvent::Inspected { now, result },
            ),
    {
        if let UpdateStage::InspectingTrial = run.stage {
            match result {
                Err(error) => {
                    return run.discard_trial(cat2("新版本验证失败：", error.as_str()));
                },
                Ok(trial) => {
                    if !same(trial.dsh_version.as_str(), run.version.as_str()) {
                        let reason = cat4(
                            "新版本验证失败：预期 ",
                            run.version.as_str(),
                            "，实际 ",
                            trial.dsh_version.as_str(),
                        );
                        return run.discard_trial(reason);
                    }
                    self.set_update_status(
                        RuntimeUpdatePhase::Verifying,
                        Some(run.version.clone()),
                        Some("正在验证版本与启动能力".to_string()),
                    );
                    let name = cat3(run.version.as_str(), "-", decimal_text(now).as_str());
                    let home = join_path(self.paths.smoke.as_str(), name.as_str(), self.platform);
                    run.stage = UpdateStage::Smoking(home.clone());
                    return UpdateAction::Smoke { home };
                },
            }
        }
        if let UpdateStage::InspectingResult = run.stage {
            match result {
                Err(error) => {
                    return run.rollback_after_failed_update(error);
                },
                Ok(installed) => {
                    if !same(installed.dsh_version.as_str(), run.version.as_str()) {
                        let reason = cat4(
                            "安装后版本不匹配：预期 ",
                            run.version.as_str(),
                            "，实际 ",
                            installed.dsh_version.as_str(),
                        );
                        return run.rollback_after_failed_update(reason);
                    }
                    run.stage = UpdateStage::Done;
                    return UpdateAction::Finish {
                        discard: no_texts(),
                        result: Ok(installed),
                    };
                },
            }
        }
        UpdateAction::Ignore
    }

    fn take_smoke(&mut self, run: &mut UpdateRun, result: Result<(), String>) -> (action:
        UpdateAction)
        ensures
            final(self).same_setup(*old(self)),
            final(run).target() == old(run).target(),
            (final(self)@, final(run).stage@, action@) == update_step(
                old(self)@,
                old(self).paths@.smoke,
                old(self).platform,
                old(run).target(),
                old(run).stage@,
                UpdateEvent::SmokeRan(result),
            ),
    {
        if let UpdateStage::Smoking(home) = &run.stage {
            let home: String = home.clone();
            let ghost text = home@;
            let mut discard = no_texts();
            discard.push(home);
            discard.push(run.directory.clone());
            assert(discard.deep_view() =~= seq![text, run.directory@]);
            match result {
                Err(error) => {
                    return run.give_up(discard, cat2("新版本启动验证失败：", error.as_str()));
                },
                Ok(()) => {
                    self.set_update_status(
                        RuntimeUpdatePhase::Installing,
                        Some(run.version.clone()),
                        Some(cat2("正在原安装位置更新 DSH ", run.version.as_str())),
                    );
                    run.stage = UpdateStage::Replacing;
                    return UpdateAction::Install {
                        discard,
                        prefix: run.prefix.clone(),
                        version: run.version.clone(),
                    };
                },
            }
        }
        UpdateAction::Ignore
    }

    /// Takes an event of an update in place and says what is to be done next.
    pub fn advance_update(&mut self, run: &mut UpdateRun, event: UpdateEvent) -> (action:
        UpdateAction)
        ensures
            final(self).same_setup(*old(self)),
            final(run).target() == old(run).target(),
            (final(self)@, final(run).stage@, action@) == update_step(
                old(self)@,
                old(self).paths@.smoke,
                old(self).platform,
                old(run).target(),
                old(run).stage@,
                event,
            ),
    {
        match event {
            UpdateEvent::Prepared => {
                if let UpdateStage::Preparing = run.stage {
                    run.stage = UpdateStage::Staging;
                    return UpdateAction::Install {
                        discard: no_texts(),
                        prefix: run.directory.clone(),
                        version: run.version.clone(),
                    };
                }
            },
            UpdateEvent::Installed(result) => {
                return run.installed(result);
            },
            UpdateEvent::Inspected { now, result } => {
                return self.take_trial_inspection(run, now, result);
            },
            UpdateEvent::SmokeRan(result) => {
                return self.take_smoke(run, result);
            },
            UpdateEvent::NotPrepared(fault) => {
                let preparing = match run.stage {
                    UpdateStage::Preparing => true,
                    UpdateStage::Smoking(_) => true,
                    _ => false,
                };
                if preparing {
                    let discard = no_texts();
                    return run.give_up(discard, fault.text());
                }
            },
        }
        UpdateAction::Ignore
    }

    /// Starts an installation. `path` is the `PATH` with the commands of the
    /// installation in front.
    pub fn launch_command(
        &self,
        installation: &RuntimeInstallation,
        dsh_home: &Option<String>,
        home: &str,
        path: &Option<String>,
        comspec: &Option<String>,
    ) -> (plan: CommandPlan)
        ensures
            ({
                let base = tool_plan(
                    executable_plan(
                        installation@.dsh_command,
                        web_arguments(false),
                        comspec.deep_view(),
                        self.platform,
                    ),
                    installation@.toolchain.environment,
                    path.deep_view(),
                );
                let common = base.environment + seq![
                    ("NODE_ENV"@, "production"@),
                    ("DSH_DESKTOP"@, "1"@),
                ];
                plan@ == (CommandPlanView {
                    directory: Some(home@),
                    environment: match dsh_home.deep_view() {
                        Some(dsh_home) => common.push(("DSH_HOME"@, dsh_home)),
                        None => common,
                    },
                    ..base
                })
            }),
    {
        let arguments = web_command_args(false);
        let mut plan = command_for_tool(
            &installation.toolchain,
            installation.dsh_command.as_str(),
            &arguments,
            path,
            comspec,
            self.platform,
        );
        let ghost base = plan@;
        plan.add_variable("NODE_ENV", "production");
        plan.add_variable("DSH_DESKTOP", "1");
        plan.run_in(home);
        proof {
            assert(plan@.environment =~= base.environment + seq![
                ("NODE_ENV"@, "production"@),
                ("DSH_DESKTOP"@, "1"@),
            ]);
        }
        if let Some(dsh_home) = dsh_home {
            plan.add_variable("DSH_HOME", dsh_home.as_str());
        }
        plan
    }
}

/// The trial could be started.
pub open spec fn trial_started(event: UpdateEvent) -> bool {
    event matches UpdateEvent::SmokeRan(result) && result is Ok
}

/// The installation named itself as this version.
pub open spec fn names_version(event: UpdateEvent, version: Seq<char>) -> bool {
    event matches UpdateEvent::Inspected { now, result } && result matches Ok(installation)
        && installation@.dsh_version == version
}

/// Nothing in place changes before the trial was installed, named itself as the
/// version that was asked for and could be started: the first installation to the
/// prefix follows a start that succeeded.
pub proof fn law_trial_comes_before_the_update(
    manager: RuntimeManagerView,
    smoke_root: Seq<char>,
    platform: Platform,
    target: UpdateTarget,
    stage: UpdateStageView,
    event: UpdateEvent,
)
    ensures
        ({
            let (next, after, action) = update_step(
                manager,
                smoke_root,
                platform,
                target,
                stage,
                event,
            );
            &&& after is Replacing && !(stage is Replacing) ==> stage is Smoking && trial_started(
                event,
            )
            &&& after is Smoking && !(stage is Smoking) ==> stage is InspectingTrial
                && names_version(event, target.version)
            &&& action matches UpdateActionView::Install { discard, prefix, version } ==> {
                ||| after is Staging && prefix == target.directory && version == target.version
                ||| after is Replacing && prefix == target.prefix && version == target.version
                ||| after is RollingBack && prefix == target.prefix && version == target.old_version
            }
        }),
{
}

/// Once the installation in place has begun, an update ends in one of two ways:
/// with the new version confirmed, or after the old version was installed again.
pub proof fn law_failed_update_is_rolled_back(
    manager: RuntimeManagerView,
    smoke_root: Seq<char>,
    platform: Platform,
    target: UpdateTarget,
    stage: UpdateStageView,
    event: UpdateEvent,
)
    requires
        stage is Replacing || stage is InspectingResult,
    ensures
        ({
            let (next, after, action) = update_step(
                manager,
                smoke_root,
                platform,
                target,
                stage,
                event,
            );
            after is Done ==> (action matches UpdateActionView::Finish { discard, result } && result
                matches Ok(installed) && installed.dsh_version == target.version)
        }),
{
}

/// A successful update always reports the version that was asked for.
pub proof fn law_update_reports_the_version_asked_for(
    manager: RuntimeManagerView,
    smoke_root: Seq<char>,
    platform: Platform,
    target: UpdateTarget,
    stage: UpdateStageView,
    event: UpdateEvent,
)
    ensures
        update_step(manager, smoke_root, platform, target, stage, event).2 matches
            UpdateActionView::Finish { discard, result } ==> (result matches Ok(installed)
            ==> installed.dsh_version == target.version),
{
}

/// An attempt is written down before anything is looked up, so that a check that
/// fails is not repeated by itself within the hour.
pub proof fn law_begun_check_is_not_due_again(manager: RuntimeManagerView, force: bool, now: u64)
    requires
        check_step(
            manager,
            force,
            CheckStageView::Start,
            (CheckEvent::Begin { now }),
        ).1 is SavingAttempt,
    ensures
        ({
            let next = check_step(
                manager,
                force,
                CheckStageView::Start,
                (CheckEvent::Begin { now }),
            ).0;
            forall|later: u64|
                later < now + FAILED_RETRY_SECS ==> !#[trigger] check_due(next.state, later)
        }),
{
}

/// A check that fails, is declined or finds nothing leaves the runtime in use as
/// it is: only an update that succeeded changes the installation.
pub proof fn law_check_keeps_the_installation(
    manager: RuntimeManagerView,
    force: bool,
    stage: CheckStageView,
    event: CheckEvent,
)
    ensures
        ({
            let (next, after, action) = check_step(manager, force, stage, event);
            &&& next.installation != manager.installation ==> (action matches
                CheckActionView::Finish { result, notice } && result matches Ok(outcome)
                && outcome is Updated)
            &&& next.startup == manager.startup
            &&& next.update_running == manager.update_running
            &&& next.shutting_down == manager.shutting_down
        }),
{
}

/// At most one check runs: while one does, through every step of it, no other
/// begins.
pub proof fn law_one_check_at_a_time(
    manager: RuntimeManagerView,
    force: bool,
    stage: CheckStageView,
    event: CheckEvent,
)
    ensures
        begun(manager).0.update_running,
        begun(begun(manager).0) == (begun(manager).0, false),
        manager.update_running ==> check_step(manager, force, stage, event).0.update_running,
{
}

/// A check that is due or asked for writes its attempt down and then looks for the
/// runtime; any other ends at once and changes nothing.
pub proof fn law_due_check_looks_for_the_runtime(
    manager: RuntimeManagerView,
    force: bool,
    now: u64,
)
    ensures
        ({
            let step = check_step(
                manager,
                force,
                CheckStageView::Start,
                (CheckEvent::Begin { now }),
            );
            let wanted = force || check_due(manager.state, now);
            &&& wanted ==> step == (
                RuntimeManagerView {
                    state: RuntimeState { last_update_attempt: Some(now), ..manager.state },
                    ..manager
                },
                CheckStageView::SavingAttempt(now),
                CheckActionView::Save,
            )
            &&& !wanted ==> step == (
                manager,
                CheckStageView::Done,
                CheckActionView::Finish { result: Ok(UpdateOutcomeView::Skipped), notice: None },
            )
            &&& check_step(manager, force, CheckStageView::SavingAttempt(now), CheckEvent::Saved)
                == (manager, CheckStageView::Ensuring(now), CheckActionView::Ensure)
        }),
{
}

/// Once a runtime is there, npm is asked with its tools for the newest version, and the
/// answer is written down as a success. Either failing ends the check with its error.
pub proof fn law_npm_is_asked_for_the_newest_version(
    manager: RuntimeManagerView,
    force: bool,
    now: u64,
    installation: RuntimeInstallation,
    held: RuntimeInstallationView,
    latest: String,
    reason: String,
)
    ensures
        ({
            let step = |stage: CheckStageView, event: CheckEvent|
                check_step(manager, force, stage, event);
            let failed = (
                manager,
                CheckStageView::Done,
                CheckActionView::Finish { result: Err(reason@), notice: None },
            );
            let querying = CheckStageView::Querying { now, installation: held };
            &&& step(CheckStageView::Ensuring(now), CheckEvent::Ensured(Ok(installation))) == (
                manager,
                CheckStageView::Querying { now, installation: installation@ },
                CheckActionView::Query(installation@.toolchain),
            )
            &&& step(CheckStageView::Ensuring(now), CheckEvent::Ensured(Err(reason))) == failed
            &&& step(querying, CheckEvent::Latest(Ok(latest))) == (
                RuntimeManagerView {
                    state: RuntimeState { last_successful_check: Some(now), ..manager.state },
                    ..manager
                },
                CheckStageView::SavingSuccess { latest: latest@, installation: held },
                CheckActionView::Save,
            )
            &&& step(querying, CheckEvent::Latest(Err(reason))) == failed
        }),
{
}

/// A version that is not newer than the installed one leaves the runtime current. A
/// newer one is reported; where the user asked for the check, the user is asked about
/// it, or told that the application cannot install it where it is not known how the
/// runtime was installed.
pub proof fn law_newer_version_is_offered(
    manager: RuntimeManagerView,
    force: bool,
    latest: Seq<char>,
    installation: RuntimeInstallationView,
)
    ensures
        ({
            let (next, after, action) = check_step(
                manager,
                force,
                (CheckStageView::SavingSuccess { latest, installation }),
                CheckEvent::Saved,
            );
            let offered = semver_parse(latest);
            let held = semver_parse(installation.dsh_version);
            let is_newer = offered is Ok && held is Ok && precedence(
                offered->Ok_0,
                held->Ok_0,
            ) == VersionOrder::Newer;
            &&& !is_newer ==> next == manager && after is Done && action == (
            CheckActionView::Finish { result: Ok(UpdateOutcomeView::Current), notice: None })
            &&& is_newer && !force ==> next == manager && after is Done && action == (
            CheckActionView::Finish {
                result: Ok(UpdateOutcomeView::Available(latest)),
                notice: None,
            })
            &&& is_newer && force && installation.update_prefix is None ==> after is Done && action
                == (CheckActionView::Finish {
                result: Ok(UpdateOutcomeView::Available(latest)),
                notice: Some(
                    "发现 DSH "@ + latest + "，但无法确认当前 DSH "@ + installation.dsh_command
                        + " 的安装方式。\n\n为避免改变安装位置，DSH Desktop 不会自动更新它。请使用原来的包管理器完成更新。"@,
                ),
            })
            &&& is_newer && force && installation.update_prefix is Some ==> after == (
            CheckStageView::Asking { latest, installation }) && action == CheckActionView::Ask(
                "发现 DSH "@ + latest + "。\n\n更新会在原安装位置 "@ + installation.update_prefix->0
                    + " 替换 DSH，不会改变命令位置。\n\n安装前会先在临时目录完成启动验证。"@,
            )
            &&& is_newer && force ==> next.update_status.phase == RuntimeUpdatePhase::Available
                && next.update_status.target_version == Some(latest) && next.update_status.detail
                == Some(available_detail(manager.installation)) && next.state == manager.state
                && next.installation == manager.installation
        }),
{
}

/// A version that the user agrees to is installed, in place of the runtime that was
/// found; one that is declined stays available. An installed version is the runtime from
/// then on, and one that failed is an error.
pub proof fn law_accepted_version_is_installed(
    manager: RuntimeManagerView,
    force: bool,
    latest: Seq<char>,
    installation: RuntimeInstallationView,
    updated: RuntimeInstallation,
    reason: String,
)
    ensures
        ({
            let asking = CheckStageView::Asking { latest, installation };
            let yes = check_step(
                manager,
                force,
                asking,
                (CheckEvent::Answered { accepted: true }),
            );
            &&& yes.1 == CheckStageView::Updating(latest)
            &&& yes.2 == (CheckActionView::Update { installation, version: latest })
            &&& yes.0.state == manager.state && yes.0.installation == manager.installation
            &&& yes.0.update_status.phase == RuntimeUpdatePhase::Installing
                && yes.0.update_status.target_version == Some(latest) && yes.0.update_status.detail
                == Some("正在准备 DSH "@ + latest)
            &&& check_step(manager, force, asking, (CheckEvent::Answered { accepted: false })) == (
                manager,
                CheckStageView::Done,
                CheckActionView::Finish {
                    result: Ok(UpdateOutcomeView::Available(latest)),
                    notice: None,
                },
            )
            &&& check_step(
                manager,
                force,
                CheckStageView::Updating(latest),
                CheckEvent::Updated(Ok(updated)),
            ) == (
                RuntimeManagerView { installation: Some(updated@), ..manager },
                CheckStageView::Done,
                CheckActionView::Finish {
                    result: Ok(UpdateOutcomeView::Updated(latest)),
                    notice: None,
                },
            )
            &&& check_step(
                manager,
                force,
                CheckStageView::Updating(latest),
                CheckEvent::Updated(Err(reason)),
            ) == (
                manager,
                CheckStageView::Done,
                CheckActionView::Finish { result: Err(reason@), notice: None },
            )
        }),
{
}

/// A failed step ends a check with its error and changes nothing, and what does not
/// belong to the stage is ignored.
pub proof fn law_failure_ends_the_check(
    manager: RuntimeManagerView,
    force: bool,
    stage: CheckStageView,
    reason: String,
    event: CheckEvent,
)
    ensures
        !(stage is Done) ==> check_step(manager, force, stage, CheckEvent::Failed(reason)) == (
            manager,
            CheckStageView::Done,
            CheckActionView::Finish { result: Err(reason@), notice: None },
        ),
        ({
            let belongs = match event {
                CheckEvent::Begin { now } => stage is Start,
                CheckEvent::Saved => stage is SavingAttempt || stage is SavingSuccess,
                CheckEvent::Ensured(_) => stage is Ensuring,
                CheckEvent::Latest(_) => stage is Querying,
                CheckEvent::Answered { accepted } => stage is Asking,
                CheckEvent::Updated(_) => stage is Updating,
                CheckEvent::Failed(_) => !(stage is Done),
            };
            !belongs ==> check_step(manager, force, stage, event) == (
                manager,
                stage,
                CheckActionView::Ignore,
            )
        }),
{
}

/// What is shown after a check says how it ended; the next one may begin. Only an
/// update that was made ends the runtime, for the restart.
pub proof fn law_end_of_a_check_is_shown(
    manager: RuntimeManagerView,
    version: Seq<char>,
    error: Seq<char>,
    platform: Platform,
)
    ensures
        ({
            let after = |result: Result<UpdateOutcomeView, Seq<char>>|
                after_check(manager, result, platform);
            let current = after(Ok(UpdateOutcomeView::Current));
            let available = after(Ok(UpdateOutcomeView::Available(version)));
            let updated = after(Ok(UpdateOutcomeView::Updated(version)));
            let skipped = after(Ok(UpdateOutcomeView::Skipped));
            let failed = after(Err(error));
            &&& !current.update_running && !available.update_running && !updated.update_running
                && !skipped.update_running && !failed.update_running
            &&& current.update_status.phase == RuntimeUpdatePhase::Current
                && current.update_status.target_version is None && current.update_status.detail
                == Some("已是最新版本"@)
            &&& available.update_status.phase == RuntimeUpdatePhase::Available
                && available.update_status.target_version == Some(version)
                && available.update_status.detail == Some(available_detail(manager.installation))
            &&& updated.update_status.phase == RuntimeUpdatePhase::Ready
                && updated.update_status.target_version == Some(version)
                && updated.update_status.detail == Some("已更新，正在重启"@)
            &&& updated.shutting_down && updated.startup is None
            &&& skipped.update_status.phase == RuntimeUpdatePhase::Idle
                && skipped.update_status.target_version is None
            &&& manager.installation is Some ==> skipped.update_status.detail == Some(
                "当前版本 "@ + manager.installation->0.dsh_version,
            )
            &&& manager.installation is None ==> skipped.update_status.detail is None
            &&& failed.update_status.phase == RuntimeUpdatePhase::Error
                && failed.update_status.target_version == manager.update_status.target_version
                && failed.update_status.detail == Some(runtime_error_text(error, platform))
            &&& current.shutting_down == manager.shutting_down && current.startup
                == manager.startup
            &&& available.shutting_down == manager.shutting_down && available.startup
                == manager.startup
            &&& skipped.shutting_down == manager.shutting_down && skipped.startup
                == manager.startup
            &&& failed.shutting_down == manager.shutting_down && failed.startup == manager.startup
            &&& updated.state == manager.state && updated.installation == manager.installation
            &&& failed.state == manager.state && failed.installation == manager.installation
            &&& current.state == manager.state && current.installation == manager.installation
        }),
{
}

/// What is shown of a newer version says whether the application can install it.
pub proof fn law_available_version_says_who_installs_it(
    installation: RuntimeInstallationView,
)
    ensures
        available_detail(None) == "发现 DSH 新版本"@,
        installation.update_prefix is Some ==> available_detail(Some(installation))
            == "将在当前 DSH 的原安装位置更新"@,
        installation.update_prefix is None ==> available_detail(Some(installation))
            == "请使用原来的安装方式更新 DSH"@,
{
}

/// A check begins exactly where none runs. It is shown and changes nothing of what is
/// kept.
pub proof fn law_check_begins_where_none_runs(manager: RuntimeManagerView)
    ensures
        ({
            let (next, begins) = begun(manager);
            &&& begins <==> !manager.update_running
            &&& !begins ==> next == manager
            &&& begins ==> next.update_running && next.update_status.phase
                == RuntimeUpdatePhase::Checking && next.update_status.target_version is None
                && next.update_status.detail == Some("正在查询 npm 最新版本"@)
            &&& next.state == manager.state && next.installation == manager.installation
                && next.startup == manager.startup && next.update_scheduled
                == manager.update_scheduled && next.shutting_down == manager.shutting_down
        }),
{
}

/// Asking for the check after the start changes nothing but that it was asked for.
pub proof fn law_scheduling_changes_nothing_else(manager: RuntimeManagerView, now: u64)
    ensures
        scheduled(manager, now).0 == (RuntimeManagerView { update_scheduled: true, ..manager }),
        scheduled(manager, now).1 is Some <==> !manager.update_scheduled,
{
}

/// A version that passes its trial is installed twice: first to the staging directory,
/// where it must name itself as the version that was asked for and start, and then in
/// the place of the runtime, where it must name itself so again; what the trial left is
/// deleted before that.
pub proof fn law_good_version_replaces_the_runtime(
    manager: RuntimeManagerView,
    smoke_root: Seq<char>,
    platform: Platform,
    target: UpdateTarget,
    now: u64,
    named: RuntimeInstallation,
    home: Seq<char>,
)
    requires
        named@.dsh_version == target.version,
    ensures
        ({
            let step = |stage: UpdateStageView, event: UpdateEvent|
                update_step(manager, smoke_root, platform, target, stage, event);
            let place = below(smoke_root, target.version + "-"@ + decimal(now as nat), platform);
            let tried = step(
                UpdateStageView::InspectingTrial,
                (UpdateEvent::Inspected { now, result: Ok(named) }),
            );
            let started = step(UpdateStageView::Smoking(home), UpdateEvent::SmokeRan(Ok(())));
            &&& step(UpdateStageView::Preparing, UpdateEvent::Prepared) == (
                manager,
                UpdateStageView::Staging,
                UpdateActionView::Install {
                    discard: Seq::empty(),
                    prefix: target.directory,
                    version: target.version,
                },
            )
            &&& step(UpdateStageView::Staging, UpdateEvent::Installed(Ok(()))) == (
                manager,
                UpdateStageView::InspectingTrial,
                UpdateActionView::Inspect { prefix: target.directory },
            )
            &&& tried.1 == UpdateStageView::Smoking(place)
            &&& tried.2 == (UpdateActionView::Smoke { home: place })
            &&& tried.0.update_status.phase == RuntimeUpdatePhase::Verifying
                && tried.0.update_status.target_version == Some(target.version)
                && tried.0.update_status.detail == Some("正在验证版本与启动能力"@)
            &&& tried.0.installation == manager.installation && tried.0.state == manager.state
            &&& started.1 is Replacing
            &&& started.2 == (UpdateActionView::Install {
                discard: seq![home, target.directory],
                prefix: target.prefix,
                version: target.version,
            })
            &&& started.0.update_status.phase == RuntimeUpdatePhase::Installing
                && started.0.update_status.target_version == Some(target.version)
                && started.0.update_status.detail == Some(
                "正在原安装位置更新 DSH "@ + target.version,
            )
            &&& started.0.installation == manager.installation && started.0.state == manager.state
            &&& step(UpdateStageView::Replacing, UpdateEvent::Installed(Ok(()))) == (
                manager,
                UpdateStageView::InspectingResult,
                UpdateActionView::Inspect { prefix: target.prefix },
            )
            &&& step(
                UpdateStageView::InspectingResult,
                (UpdateEvent::Inspected { now, result: Ok(named) }),
            ) == (
                manager,
                UpdateStageView::Done,
                UpdateActionView::Finish { discard: Seq::empty(), result: Ok(named@) },
            )
        }),
{
}

/// A version that fails its trial leaves the runtime as it is: what the trial left is
/// deleted, and the error says what was wrong.
pub proof fn law_failed_trial_changes_nothing_in_place(
    manager: RuntimeManagerView,
    smoke_root: Seq<char>,
    platform: Platform,
    target: UpdateTarget,
    now: u64,
    other: RuntimeInstallation,
    home: Seq<char>,
    error: String,
    fault: InstallFault,
)
    requires
        other@.dsh_version != target.version,
    ensures
        ({
            let step = |stage: UpdateStageView, event: UpdateEvent|
                update_step(manager, smoke_root, platform, target, stage, event);
            let failed = |discard: Seq<Seq<char>>, reason: Seq<char>|
                (
                    manager,
                    UpdateStageView::Done,
                    UpdateActionView::Finish { discard, result: Err(reason) },
                );
            &&& step(UpdateStageView::Staging, UpdateEvent::Installed(Err(error))) == failed(
                seq![target.directory],
                error@,
            )
            &&& step(
                UpdateStageView::InspectingTrial,
                (UpdateEvent::Inspected { now, result: Err(error) }),
            ) == failed(seq![target.directory], "新版本验证失败："@ + error@)
            &&& step(
                UpdateStageView::InspectingTrial,
                (UpdateEvent::Inspected { now, result: Ok(other) }),
            ) == failed(
                seq![target.directory],
                "新版本验证失败：预期 "@ + target.version + "，实际 "@ + other@.dsh_version,
            )
            &&& step(UpdateStageView::Smoking(home), UpdateEvent::SmokeRan(Err(error))) == failed(
                seq![home, target.directory],
                "新版本启动验证失败："@ + error@,
            )
            &&& step(UpdateStageView::Preparing, UpdateEvent::NotPrepared(fault)) == failed(
                Seq::empty(),
                install_fault_text(fault),
            )
            &&& step(UpdateStageView::Smoking(home), UpdateEvent::NotPrepared(fault)) == failed(
                Seq::empty(),
                install_fault_text(fault),
            )
        }),
{
}

/// Where the installation in place fails, or is not the version that was asked for, the
/// old version is installed in its place again, and the error says whether that
/// succeeded.
pub proof fn law_old_version_is_put_back(
    manager: RuntimeManagerView,
    smoke_root: Seq<char>,
    platform: Platform,
    target: UpdateTarget,
    now: u64,
    other: RuntimeInstallation,
    error: String,
    first: Seq<char>,
)
    requires
        other@.dsh_version != target.version,
    ensures
        ({
            let step = |stage: UpdateStageView, event: UpdateEvent|
                update_step(manager, smoke_root, platform, target, stage, event);
            let back = |reason: Seq<char>|
                (
                    manager,
                    UpdateStageView::RollingBack(reason),
                    UpdateActionView::Install {
                        discard: Seq::empty(),
                        prefix: target.prefix,
                        version: target.old_version,
                    },
                );
            let ended = |reason: Seq<char>|
                (
                    manager,
                    UpdateStageView::Done,
                    UpdateActionView::Finish {
                        discard: Seq::<Seq<char>>::empty(),
                        result: Err(reason),
                    },
                );
            &&& step(UpdateStageView::Replacing, UpdateEvent::Installed(Err(error))) == back(error@)
            &&& step(
                UpdateStageView::InspectingResult,
                (UpdateEvent::Inspected { now, result: Err(error) }),
            ) == back(error@)
            &&& step(
                UpdateStageView::InspectingResult,
                (UpdateEvent::Inspected { now, result: Ok(other) }),
            ) == back(
                "安装后版本不匹配：预期 "@ + target.version + "，实际 "@ + other@.dsh_version,
            )
            &&& step(UpdateStageView::RollingBack(first), UpdateEvent::Installed(Ok(()))) == ended(
                first + "；已恢复 DSH "@ + target.old_version,
            )
            &&& step(UpdateStageView::RollingBack(first), UpdateEvent::Installed(Err(error)))
                == ended(first + "；恢复 DSH "@ + target.old_version + " 也失败："@ + error@)
            &&& rollback_text(first, target.old_version, None) == first + "；现有 DSH "@
                + target.old_version + " 未被修改"@
        }),
{
}

/// What does not belong to the stage of an update changes nothing.
pub proof fn law_stray_update_event_changes_nothing(
    manager: RuntimeManagerView,
    smoke_root: Seq<char>,
    platform: Platform,
    target: UpdateTarget,
    stage: UpdateStageView,
    event: UpdateEvent,
)
    requires
        match event {
            UpdateEvent::Prepared => !(stage is Preparing),
            UpdateEvent::Installed(_) => !(stage is Staging) && !(stage is Replacing) && !(stage
                is RollingBack),
            UpdateEvent::Inspected { now, result } => !(stage is InspectingTrial) && !(stage
                is InspectingResult),
            UpdateEvent::SmokeRan(_) => !(stage is Smoking),
            UpdateEvent::NotPrepared(_) => !(stage is Preparing) && !(stage is Smoking),
        },
    ensures
        update_step(manager, smoke_root, platform, target, stage, event) == (
            manager,
            stage,
            UpdateActionView::Ignore,
        ),
{
}

/// What stays fixed during an update is both versions and both places.
pub proof fn law_target_of_an_update(run: UpdateRun)
    ensures
        run.target().old_version == run.old_version@,
        run.target().version == run.version@,
        run.target().prefix == run.prefix@,
        run.target().directory == run.directory@,
{
}

/// The check after the start is waited for one minute.
pub proof fn law_runtime_waits_a_minute(manager: RuntimeManagerView, now: u64)
    requires
        !manager.update_scheduled,
    ensures
        scheduled(manager, now).1 == Some(
            DelayedCheck { deadline: (now + 60 * 1000000000) as u128, over: false },
        ),
{
}

/// What a check returned is its outcome or its error, unchanged.
pub proof fn law_value_of_an_outcome(outcome: UpdateOutcome, error: String)
    ensures
        outcome_view(Ok(outcome)) == Ok::<UpdateOutcomeView, Seq<char>>(outcome@),
        outcome_view(Err(error)) == Err::<UpdateOutcomeView, Seq<char>>(error@),
{
}

} // verus!
