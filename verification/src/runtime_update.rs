//! Updates of the runtime: from the question to npm to the version that waits for
//! the next start.

use vstd::prelude::*;

use crate::npm::{json_string_form, lossy_form, lossy_text, npm_version, parse_npm_version};
use crate::paths::{below, join_path};
use crate::runtime::{
    channel_selected, check_due, cli_of, idle_update, ready_update, runtime_cli,
    select_update_channel, update_check_is_due, PathsView, RuntimeManager, RuntimeManagerView,
    RuntimeSnapshot, RuntimeSnapshotView, RuntimeState, RuntimeStateView, RuntimeUpdateChannel,
    RuntimeUpdatePhase, RuntimeUpdateSnapshot, RuntimeUpdateSnapshotView, UPDATE_DELAY_SECS,
};
use crate::host::Platform;
use crate::terminal_command::{
    install_decision, recorded_configs, uninstall_refusal, FileContents, InstallDecision,
    InstallMetadata, InstallSeen, UninstallPlan,
};
use crate::schedule::FAILED_RETRY_SECS;
use crate::text::{cat2, cat3, cat6, texts};
use crate::trim::{trim, trimmed};
use crate::update_loop::{
    law_checks_are_apart, law_first_check_waits, law_no_check_follows_the_end,
    loop_start, loop_tick, UpdateLoop, Wake, NANOS_PER_SEC,
};
use crate::version::{
    compare_version_texts, debug_form, debug_text, fault_of_named, named_fault, newer, precedence,
    semver_parse, text_order, VersionOrder,
};

verus! {

/// How a check ended.
#[derive(Debug)]
pub enum UpdateOutcome {
    /// The active version is the one of the channel.
    Current,
    /// The active version is newer than the one of the channel.
    Ahead { active: String, target: String },
    /// A newer version waits for the next start.
    Staged(String),
    /// Nothing was checked.
    Skipped,
}

/// The value of an [`UpdateOutcome`].
#[verifier::ext_equal]
pub enum UpdateOutcomeView {
    Current,
    Ahead { active: Seq<char>, target: Seq<char> },
    Staged(Seq<char>),
    Skipped,
}

impl View for UpdateOutcome {
    type V = UpdateOutcomeView;

    open spec fn view(&self) -> UpdateOutcomeView {
        match self {
            UpdateOutcome::Current => UpdateOutcomeView::Current,
            UpdateOutcome::Ahead { active, target } => UpdateOutcomeView::Ahead {
                active: active@,
                target: target@,
            },
            UpdateOutcome::Staged(version) => UpdateOutcomeView::Staged(version@),
            UpdateOutcome::Skipped => UpdateOutcomeView::Skipped,
        }
    }
}

/// The value of what a check returned.
pub open spec fn outcome_view(result: Result<UpdateOutcome, String>) -> Result<
    UpdateOutcomeView,
    Seq<char>,
> {
    match result {
        Ok(outcome) => Ok(outcome@),
        Err(error) => Err(error@),
    }
}

/// The version that a channel offers, from what npm answered. `named` is the
/// version that was printed, and `fault` says why it is no version.
pub open spec fn offered(
    channel: RuntimeUpdateChannel,
    success: bool,
    errors: Seq<char>,
    named: Result<Seq<char>, Seq<char>>,
    fault: Option<Seq<char>>,
) -> Result<Seq<char>, Seq<char>> {
    if !success {
        Err("npm view 失败："@ + trimmed(errors))
    } else {
        match (named, fault) {
            (Err(reason), _) => Err(reason),
            (Ok(version), Some(error)) => Err(
                "npm "@ + channel.tag() + " 不是合法版本 "@ + debug_form(version) + "："@ + error,
            ),
            (Ok(version), None) => Ok(version),
        }
    }
}

/// The version that a channel offers.
pub fn offered_from(
    channel: RuntimeUpdateChannel,
    success: bool,
    errors: &str,
    named: Result<String, String>,
    fault: Option<String>,
) -> (version: Result<String, String>)
    ensures
        texts(version) == offered(channel, success, errors@, texts(named), fault.deep_view()),
{
    if !success {
        return Err(cat2("npm view 失败：", trim(errors).as_str()));
    }
    let version = named?;
    match fault {
        None => Ok(version),
        Some(error) => Err(
            cat6(
                "npm ",
                channel.dist_tag(),
                " 不是合法版本 ",
                debug_text(version.as_str()).as_str(),
                "：",
                error.as_str(),
            ),
        ),
    }
}

/// The version that a channel offers, from what npm printed.
pub fn offered_version(
    channel: RuntimeUpdateChannel,
    success: bool,
    stdout: &Vec<u8>,
    stderr: &Vec<u8>,
) -> (version: Result<String, String>)
    ensures
        ({
            let named = npm_version(json_string_form(stdout@), lossy_form(stdout@));
            texts(version) == offered(
                channel,
                success,
                lossy_form(stderr@),
                named,
                named_fault(named),
            )
        }),
{
    let named = parse_npm_version(stdout.as_slice());
    let fault = fault_of_named(&named);
    offered_from(channel, success, lossy_text(stderr.as_slice()).as_str(), named, fault)
}

/// How far a check has come.
pub enum CheckStage {
    Start,
    /// The attempt at this time is being written down.
    SavingAttempt(u64),
    /// npm is being asked; the check began at this time.
    Viewing(u64),
    /// The success is being written down.
    SavingSuccess { candidate: String, active: String },
    /// It is being looked whether the newer version is there already.
    Probing { candidate: String, active: String },
    /// The newer version is being installed.
    Installing { candidate: String, active: String },
    /// The version that waits is being written down.
    SavingPending { candidate: String, active: String },
    Done,
}

/// The value of a [`CheckStage`].
pub enum CheckStageView {
    Start,
    SavingAttempt(u64),
    Viewing(u64),
    SavingSuccess { candidate: Seq<char>, active: Seq<char> },
    Probing { candidate: Seq<char>, active: Seq<char> },
    Installing { candidate: Seq<char>, active: Seq<char> },
    SavingPending { candidate: Seq<char>, active: Seq<char> },
    Done,
}

impl View for CheckStage {
    type V = CheckStageView;

    open spec fn view(&self) -> CheckStageView {
        match self {
            CheckStage::Start => CheckStageView::Start,
            CheckStage::SavingAttempt(now) => CheckStageView::SavingAttempt(*now),
            CheckStage::Viewing(now) => CheckStageView::Viewing(*now),
            CheckStage::SavingSuccess { candidate, active } => CheckStageView::SavingSuccess {
                candidate: candidate@,
                active: active@,
            },
            CheckStage::Probing { candidate, active } => CheckStageView::Probing {
                candidate: candidate@,
                active: active@,
            },
            CheckStage::Installing { candidate, active } => CheckStageView::Installing {
                candidate: candidate@,
                active: active@,
            },
            CheckStage::SavingPending { candidate, active } => CheckStageView::SavingPending {
                candidate: candidate@,
                active: active@,
            },
            CheckStage::Done => CheckStageView::Done,
        }
    }
}

/// One check, for the channel that was chosen when it began.
pub struct RuntimeCheck {
    pub force: bool,
    pub channel: RuntimeUpdateChannel,
    pub stage: CheckStage,
}

/// What happened outside.
pub enum CheckEvent {
    Begin { now: u64 },
    /// The state was written.
    Saved,
    /// The channel offers a version, or the question failed.
    Viewed(Result<String, String>),
    /// Whether the version is there already.
    Probed { installed: bool },
    /// The version is in place.
    Installed,
    /// A step failed.
    Failed(String),
}

/// What is to be done outside.
#[derive(Debug)]
pub enum CheckAction {
    Save,
    /// npm is to be asked for the version of the channel.
    View,
    /// It is to be looked whether this file is there.
    Probe(String),
    /// The version is to be installed and verified, and moved to this place.
    Install { version: String, destination: String },
    Finish(Result<UpdateOutcome, String>),
    /// The event did not belong to the stage.
    Ignore,
}

/// The value of a [`CheckAction`].
#[verifier::ext_equal]
pub enum CheckActionView {
    Save,
    View,
    Probe(Seq<char>),
    Install { version: Seq<char>, destination: Seq<char> },
    Finish(Result<UpdateOutcomeView, Seq<char>>),
    Ignore,
}

impl View for CheckAction {
    type V = CheckActionView;

    open spec fn view(&self) -> CheckActionView {
        match self {
            CheckAction::Save => CheckActionView::Save,
            CheckAction::View => CheckActionView::View,
            CheckAction::Probe(path) => CheckActionView::Probe(path@),
            CheckAction::Install { version, destination } => CheckActionView::Install {
                version: version@,
                destination: destination@,
            },
            CheckAction::Finish(result) => CheckActionView::Finish(outcome_view(*result)),
            CheckAction::Ignore => CheckActionView::Ignore,
        }
    }
}

/// The end of a check.
pub open spec fn ended(
    manager: RuntimeManagerView,
    result: Result<UpdateOutcomeView, Seq<char>>,
) -> (RuntimeManagerView, CheckStageView, CheckActionView) {
    (manager, CheckStageView::Done, CheckActionView::Finish(result))
}

/// The step that follows once the newer version is in place.
pub open spec fn put_in_waiting(
    manager: RuntimeManagerView,
    channel: RuntimeUpdateChannel,
    candidate: Seq<char>,
    active: Seq<char>,
) -> (RuntimeManagerView, CheckStageView, CheckActionView) {
    if manager.state.update_channel != channel {
        ended(manager, Ok(UpdateOutcomeView::Skipped))
    } else {
        (
            RuntimeManagerView {
                state: RuntimeStateView { pending: Some(candidate), ..manager.state },
                ..manager
            },
            CheckStageView::SavingPending { candidate, active },
            CheckActionView::Save,
        )
    }
}

/// What follows an event: the state, the stage of the check, and what is done
/// outside. An event that does not belong to the stage changes nothing.
pub open spec fn check_step(
    manager: RuntimeManagerView,
    paths: PathsView,
    bundled: Seq<char>,
    platform: Platform,
    force: bool,
    channel: RuntimeUpdateChannel,
    stage: CheckStageView,
    event: CheckEvent,
) -> (RuntimeManagerView, CheckStageView, CheckActionView) {
    let ignored = (manager, stage, CheckActionView::Ignore);
    match event {
        CheckEvent::Begin { now } => if stage is Start {
            if manager.state.update_channel != channel || !(force || check_due(
                manager.state,
                now,
            )) {
                ended(manager, Ok(UpdateOutcomeView::Skipped))
            } else {
                (
                    RuntimeManagerView {
                        state: RuntimeStateView {
                            last_update_attempt: Some(now),
                            ..manager.state
                        },
                        ..manager
                    },
                    CheckStageView::SavingAttempt(now),
                    CheckActionView::Save,
                )
            }
        } else {
            ignored
        },
        CheckEvent::Saved => match stage {
            CheckStageView::SavingAttempt(now) => (
                manager,
                CheckStageView::Viewing(now),
                CheckActionView::View,
            ),
            CheckStageView::SavingSuccess { candidate, active } => match text_order(
                candidate,
                active,
            ) {
                Err(error) => ended(manager, Err(error)),
                Ok(VersionOrder::Older) => ended(
                    manager,
                    Ok(UpdateOutcomeView::Ahead { active, target: candidate }),
                ),
                Ok(VersionOrder::Same) => ended(manager, Ok(UpdateOutcomeView::Current)),
                Ok(VersionOrder::Newer) => (
                    RuntimeManagerView {
                        update_status: RuntimeUpdateSnapshotView {
                            phase: RuntimeUpdatePhase::Installing,
                            target_version: Some(candidate),
                            detail: Some("正在安装 DSH "@ + candidate),
                        },
                        ..manager
                    },
                    CheckStageView::Probing { candidate, active },
                    CheckActionView::Probe(
                        cli_of(below(paths.runtimes, candidate, platform), platform),
                    ),
                ),
            },
            CheckStageView::SavingPending { candidate, active } => ended(
                manager,
                Ok(UpdateOutcomeView::Staged(candidate)),
            ),
            _ => ignored,
        },
        CheckEvent::Viewed(result) => match stage {
            CheckStageView::Viewing(now) => match result {
                Err(error) => ended(manager, Err(error@)),
                Ok(candidate) => if manager.state.update_channel != channel {
                    ended(manager, Ok(UpdateOutcomeView::Skipped))
                } else {
                    (
                        RuntimeManagerView {
                            state: RuntimeStateView {
                                last_successful_check: Some(now),
                                ..manager.state
                            },
                            ..manager
                        },
                        CheckStageView::SavingSuccess {
                            candidate: candidate@,
                            active: match manager.state.active {
                                Some(active) => active,
                                None => bundled,
                            },
                        },
                        CheckActionView::Save,
                    )
                },
            },
            _ => ignored,
        },
        CheckEvent::Probed { installed } => match stage {
            CheckStageView::Probing { candidate, active } => if installed {
                put_in_waiting(manager, channel, candidate, active)
            } else {
                (
                    manager,
                    CheckStageView::Installing { candidate, active },
                    CheckActionView::Install {
                        version: candidate,
                        destination: below(paths.runtimes, candidate, platform),
                    },
                )
            },
            _ => ignored,
        },
        CheckEvent::Installed => match stage {
            CheckStageView::Installing { candidate, active } => put_in_waiting(
                manager,
                channel,
                candidate,
                active,
            ),
            _ => ignored,
        },
        CheckEvent::Failed(error) => if stage is Done {
            ignored
        } else {
            ended(manager, Err(error@))
        },
    }
}

/// What the user sees after a check for a channel.
pub open spec fn status_after(
    manager: RuntimeManagerView,
    channel: RuntimeUpdateChannel,
    result: Result<UpdateOutcomeView, Seq<char>>,
) -> RuntimeUpdateSnapshotView {
    match result {
        Ok(UpdateOutcomeView::Staged(version)) => ready_update(version),
        Ok(UpdateOutcomeView::Current) => RuntimeUpdateSnapshotView {
            phase: RuntimeUpdatePhase::Current,
            target_version: None,
            detail: Some(
                match channel {
                    RuntimeUpdateChannel::Latest => "已是 npm latest 当前版本"@,
                    RuntimeUpdateChannel::Next => "已是 DSH Beta 当前版本"@,
                },
            ),
        },
        Ok(UpdateOutcomeView::Ahead { active, target }) => RuntimeUpdateSnapshotView {
            phase: RuntimeUpdatePhase::Ahead,
            target_version: Some(target),
            detail: Some(
                "当前 DSH "@ + active + " 高于 npm "@ + channel.tag() + " 的 "@ + target
                    + "，不会自动降级"@,
            ),
        },
        Ok(UpdateOutcomeView::Skipped) => match manager.state.pending {
            Some(version) => ready_update(version),
            None => idle_update(),
        },
        Err(error) => RuntimeUpdateSnapshotView {
            phase: RuntimeUpdatePhase::Error,
            target_version: manager.update_status.target_version,
            detail: Some(error),
        },
    }
}

/// What beginning a check does, and for which channel it begins: only where one is
/// due or asked for and none runs.
pub open spec fn begun(manager: RuntimeManagerView, now: u64, force: bool) -> (
    RuntimeManagerView,
    Option<RuntimeUpdateChannel>,
) {
    if (force || check_due(manager.state, now)) && !manager.update_running {
        (
            RuntimeManagerView {
                update_running: true,
                update_status: RuntimeUpdateSnapshotView {
                    phase: RuntimeUpdatePhase::Checking,
                    target_version: None,
                    detail: Some("正在查询 npm "@ + manager.state.update_channel.tag() + " 通道"@),
                },
                ..manager
            },
            Some(manager.state.update_channel),
        )
    } else {
        (manager, None)
    }
}

/// While such a phase lasts, a version that waits is not shown in its place.
pub open spec fn covers_ready(phase: RuntimeUpdatePhase) -> bool {
    phase == RuntimeUpdatePhase::Checking || phase == RuntimeUpdatePhase::Installing || phase
        == RuntimeUpdatePhase::Verifying || phase == RuntimeUpdatePhase::Ahead || phase
        == RuntimeUpdatePhase::Error
}

/// What asking for the checks after the start does: only the first one to ask gets
/// them to wait for.
pub open spec fn scheduled(manager: RuntimeManagerView, now: u64) -> (
    RuntimeManagerView,
    Option<UpdateLoop>,
) {
    (
        RuntimeManagerView { update_scheduled: true, ..manager },
        if manager.update_scheduled {
            None
        } else {
            Some(loop_start(now))
        },
    )
}

/// What those who ask at these times get to wait for, one after the other.
pub open spec fn granted(manager: RuntimeManagerView, times: Seq<u64>) -> Seq<UpdateLoop>
    decreases times.len(),
{
    if times.len() == 0 {
        Seq::empty()
    } else {
        let (next, first) = scheduled(manager, times[0]);
        let rest = granted(next, times.drop_first());
        match first {
            Some(first) => seq![first] + rest,
            None => rest,
        }
    }
}

/// However often the checks after the start are asked for, only the first one to ask
/// gets them to wait for.
pub proof fn law_checks_are_scheduled_once(manager: RuntimeManagerView, times: Seq<u64>)
    ensures
        granted(manager, times) == if manager.update_scheduled || times.len() == 0 {
            Seq::<UpdateLoop>::empty()
        } else {
            seq![loop_start(times[0])]
        },
    decreases times.len(),
{
    if times.len() > 0 {
        law_checks_are_scheduled_once(scheduled(manager, times[0]).0, times.drop_first());
        if !manager.update_scheduled {
            assert(granted(manager, times) =~= seq![loop_start(times[0])]);
        }
    }
}

/// However often the checks after the start are asked for, they are waited for in one
/// loop. Its first check is made no earlier than the delay after the first one asked,
/// each next one no earlier than the retry time after the one before, and none once
/// the loop saw the application end.
pub proof fn law_scheduled_checks_wait(
    manager: RuntimeManagerView,
    times: Seq<u64>,
    wakes: Seq<Wake>,
)
    requires
        !manager.update_scheduled,
        times.len() > 0,
    ensures
        granted(manager, times).len() == 1,
        forall|at: int|
            0 <= at < wakes.len() && #[trigger] loop_tick(granted(manager, times)[0], wakes, at)
                is Fire ==> wakes[at].now >= times[0] + UPDATE_DELAY_SECS * NANOS_PER_SEC,
        forall|earlier: int, later: int|
            0 <= earlier < later < wakes.len() && #[trigger] loop_tick(
                granted(manager, times)[0],
                wakes,
                earlier,
            ) is Fire && #[trigger] loop_tick(granted(manager, times)[0], wakes, later) is Fire
                ==> wakes[later].now >= wakes[earlier].now + FAILED_RETRY_SECS * NANOS_PER_SEC,
        forall|end: int, at: int|
            0 <= end <= at < wakes.len() && (#[trigger] wakes[end]).ending ==> #[trigger] loop_tick(
                granted(manager, times)[0],
                wakes,
                at,
            ) is Stop,
{
    law_checks_are_scheduled_once(manager, times);
    let checks = loop_start(times[0]);
    assert(granted(manager, times)[0] == checks);
    assert forall|at: int|
        0 <= at < wakes.len() && #[trigger] loop_tick(checks, wakes, at) is Fire implies wakes[at].now
        >= times[0] + UPDATE_DELAY_SECS * NANOS_PER_SEC by {
        law_first_check_waits(times[0], wakes, at);
    }
    assert forall|earlier: int, later: int|
        0 <= earlier < later < wakes.len() && #[trigger] loop_tick(checks, wakes, earlier) is Fire
            && #[trigger] loop_tick(checks, wakes, later) is Fire implies wakes[later].now
        >= wakes[earlier].now + FAILED_RETRY_SECS * NANOS_PER_SEC by {
        law_checks_are_apart(checks, wakes, earlier, later);
    }
    assert forall|end: int, at: int|
        0 <= end <= at < wakes.len() && (#[trigger] wakes[end]).ending implies #[trigger] loop_tick(
        checks,
        wakes,
        at,
    ) is Stop by {
        law_no_check_follows_the_end(checks, wakes, end, at);
    }
}

impl RuntimeManager {
    /// What follows an event for this manager.
    pub open spec fn step(self, check: RuntimeCheck, event: CheckEvent) -> (
        RuntimeManagerView,
        CheckStageView,
        CheckActionView,
    ) {
        check_step(
            self@,
            self.paths@,
            self.manifest.dsh_version@,
            self.platform,
            check.force,
            check.channel,
            check.stage@,
            event,
        )
    }

    /// Asks for the checks after the start. Only the first one to ask is to make
    /// them.
    pub fn schedule_update_check(&mut self, now: u64) -> (checks: Option<UpdateLoop>)
        ensures
            final(self).same_setup(*old(self)),
            (final(self)@, checks) == scheduled(old(self)@, now),
    {
        if self.update_scheduled {
            return None;
        }
        self.update_scheduled = true;
        Some(UpdateLoop::new(now))
    }

    /// Begins a check where one is due and none runs. Otherwise nothing changes.
    pub fn check_for_updates(&mut self, now: u64, force: bool) -> (check: Option<RuntimeCheck>)
        ensures
            final(self).same_setup(*old(self)),
            final(self)@ == begun(old(self)@, now, force).0,
            match begun(old(self)@, now, force).1 {
                Some(channel) => check matches Some(check) && check.force == force && check.channel
                    == channel && check.stage@ == CheckStageView::Start,
                None => check is None,
            },
    {
        if !update_check_is_due(&self.state, now, force) {
            return None;
        }
        if self.update_running {
            return None;
        }
        self.update_running = true;
        let channel = self.state.update_channel;
        self.set_update_status(
            RuntimeUpdatePhase::Checking,
            None,
            Some(cat3("正在查询 npm ", channel.dist_tag(), " 通道")),
        );
        Some(RuntimeCheck { force, channel, stage: CheckStage::Start })
    }

    fn wait_for_restart(&mut self, check: &mut RuntimeCheck, candidate: String, active: String) -> (
        action: CheckAction)
        ensures
            final(self).same_setup(*old(self)),
            final(check).force == old(check).force,
            final(check).channel == old(check).channel,
            (final(self)@, final(check).stage@, action@) == put_in_waiting(
                old(self)@,
                old(check).channel,
                candidate@,
                active@,
            ),
    {
        if self.state.update_channel != check.channel {
            check.stage = CheckStage::Done;
            return CheckAction::Finish(Ok(UpdateOutcome::Skipped));
        }
        self.state.pending = Some(candidate.clone());
        check.stage = CheckStage::SavingPending { candidate, active };
        CheckAction::Save
    }

    fn weigh(&mut self, check: &mut RuntimeCheck, candidate: String, active: String) -> (action:
        CheckAction)
        requires
            old(check).stage@ == (CheckStageView::SavingSuccess {
                candidate: candidate@,
                active: active@,
            }),
        ensures
            final(self).same_setup(*old(self)),
            final(check).force == old(check).force,
            final(check).channel == old(check).channel,
            (final(self)@, final(check).stage@, action@) == old(self).step(
                *old(check),
                CheckEvent::Saved,
            ),
    {
        match compare_version_texts(candidate.as_str(), active.as_str()) {
            Err(error) => {
                check.stage = CheckStage::Done;
                CheckAction::Finish(Err(error))
            },
            Ok(VersionOrder::Older) => {
                check.stage = CheckStage::Done;
                CheckAction::Finish(Ok(UpdateOutcome::Ahead { active, target: candidate }))
            },
            Ok(VersionOrder::Same) => {
                check.stage = CheckStage::Done;
                CheckAction::Finish(Ok(UpdateOutcome::Current))
            },
            Ok(VersionOrder::Newer) => {
                self.set_update_status(
                    RuntimeUpdatePhase::Installing,
                    Some(candidate.clone()),
                    Some(cat2("正在安装 DSH ", candidate.as_str())),
                );
                let destination = join_path(
                    self.paths.runtimes.as_str(),
                    candidate.as_str(),
                    self.platform,
                );
                let cli = runtime_cli(destination.as_str(), self.platform);
                check.stage = CheckStage::Probing { candidate, active };
                CheckAction::Probe(cli)
            },
        }
    }

    fn take_offer(&mut self, check: &mut RuntimeCheck, now: u64, offer: Result<String, String>) -> (
        action: CheckAction)
        requires
            old(check).stage@ == CheckStageView::Viewing(now),
        ensures
            final(self).same_setup(*old(self)),
            final(check).force == old(check).force,
            final(check).channel == old(check).channel,
            (final(self)@, final(check).stage@, action@) == old(self).step(
                *old(check),
                CheckEvent::Viewed(offer),
            ),
    {
        match offer {
            Err(error) => {
                check.stage = CheckStage::Done;
                CheckAction::Finish(Err(error))
            },
            Ok(candidate) => {
                if self.state.update_channel != check.channel {
                    check.stage = CheckStage::Done;
                    return CheckAction::Finish(Ok(UpdateOutcome::Skipped));
                }
                self.state.last_successful_check = Some(now);
                let active = match &self.state.active {
                    Some(active) => active.clone(),
                    None => self.manifest.dsh_version.clone(),
                };
                check.stage = CheckStage::SavingSuccess { candidate, active };
                CheckAction::Save
            },
        }
    }

    /// Takes an event of a running check and says what is to be done next.
    pub fn advance(&mut self, check: &mut RuntimeCheck, event: CheckEvent) -> (action: CheckAction)
        ensures
            final(self).same_setup(*old(self)),
            final(check).force == old(check).force,
            final(check).channel == old(check).channel,
            (final(self)@, final(check).stage@, action@) == old(self).step(*old(check), event),
    {
        match event {
            CheckEvent::Begin { now } => {
                if let CheckStage::Start = check.stage {
                    if self.state.update_channel != check.channel || !update_check_is_due(
                        &self.state,
                        now,
                        check.force,
                    ) {
                        check.stage = CheckStage::Done;
                        return CheckAction::Finish(Ok(UpdateOutcome::Skipped));
                    }
                    self.state.last_update_attempt = Some(now);
                    check.stage = CheckStage::SavingAttempt(now);
                    return CheckAction::Save;
                }
            },
            CheckEvent::Saved => {
                if let CheckStage::SavingAttempt(now) = check.stage {
                    check.stage = CheckStage::Viewing(now);
                    return CheckAction::View;
                }
                if let CheckStage::SavingSuccess { candidate, active } = &check.stage {
                    let candidate: String = candidate.clone();
                    let active: String = active.clone();
                    return self.weigh(check, candidate, active);
                }
                if let CheckStage::SavingPending { candidate, .. } = &check.stage {
                    let candidate: String = candidate.clone();
                    check.stage = CheckStage::Done;
                    return CheckAction::Finish(Ok(UpdateOutcome::Staged(candidate)));
                }
            },
            CheckEvent::Viewed(offer) => {
                if let CheckStage::Viewing(now) = check.stage {
                    return self.take_offer(check, now, offer);
                }
            },
            CheckEvent::Probed { installed } => {
                if let CheckStage::Probing { candidate, active } = &check.stage {
                    let candidate: String = candidate.clone();
                    let active: String = active.clone();
                    if installed {
                        return self.wait_for_restart(check, candidate, active);
                    }
                    let destination = join_path(
                        self.paths.runtimes.as_str(),
                        candidate.as_str(),
                        self.platform,
                    );
                    check.stage = CheckStage::Installing {
                        candidate: candidate.clone(),
                        active,
                    };
                    return CheckAction::Install { version: candidate, destination };
                }
            },
            CheckEvent::Installed => {
                if let CheckStage::Installing { candidate, active } = &check.stage {
                    let candidate: String = candidate.clone();
                    let active: String = active.clone();
                    return self.wait_for_restart(check, candidate, active);
                }
            },
            CheckEvent::Failed(error) => {
                match check.stage {
                    CheckStage::Done => {},
                    _ => {
                        check.stage = CheckStage::Done;
                        return CheckAction::Finish(Err(error));
                    },
                }
            },
        }
        CheckAction::Ignore
    }

    /// Shows how a check ended and lets the next one begin.
    pub fn finish_check(
        &mut self,
        channel: RuntimeUpdateChannel,
        result: Result<UpdateOutcome, String>,
    )
        ensures
            final(self).same_setup(*old(self)),
            final(self)@ == (RuntimeManagerView {
                update_running: false,
                update_status: status_after(old(self)@, channel, outcome_view(result)),
                ..old(self)@
            }),
    {
        match result {
            Ok(UpdateOutcome::Staged(version)) => {
                self.update_status = RuntimeUpdateSnapshot::ready(version.as_str());
            },
            Ok(UpdateOutcome::Current) => {
                let detail = match channel {
                    RuntimeUpdateChannel::Latest => "已是 npm latest 当前版本",
                    RuntimeUpdateChannel::Next => "已是 DSH Beta 当前版本",
                };
                self.set_update_status(
                    RuntimeUpdatePhase::Current,
                    None,
                    Some(detail.to_string()),
                );
            },
            Ok(UpdateOutcome::Ahead { active, target }) => {
                let mut detail = cat6(
                    "当前 DSH ",
                    active.as_str(),
                    " 高于 npm ",
                    channel.dist_tag(),
                    " 的 ",
                    target.as_str(),
                );
                detail.append("，不会自动降级");
                self.set_update_status(RuntimeUpdatePhase::Ahead, Some(target), Some(detail));
            },
            Ok(UpdateOutcome::Skipped) => {
                self.restore_resting_update_status();
            },
            Err(error) => {
                let target_version = self.update_status.target_version.clone();
                self.set_update_status(RuntimeUpdatePhase::Error, target_version, Some(error));
            },
        }
        self.update_running = false;
    }

    /// Shows what there is to see while no check runs.
    pub fn restore_resting_update_status(&mut self)
        ensures
            final(self).same_setup(*old(self)),
            final(self)@ == (RuntimeManagerView {
                update_status: match old(self)@.state.pending {
                    Some(version) => ready_update(version),
                    None => idle_update(),
                },
                ..old(self)@
            }),
    {
        self.update_status = match &self.state.pending {
            Some(version) => RuntimeUpdateSnapshot::ready(version.as_str()),
            None => RuntimeUpdateSnapshot::default(),
        };
    }

    /// The state with another channel, which is to be saved before it is taken:
    /// `None` where the channel is the one that is chosen already. While a check
    /// runs the channel stays.
    pub fn set_update_channel(&self, channel: RuntimeUpdateChannel) -> (updated: Result<
        Option<RuntimeState>,
        String,
    >)
        ensures
            if self@.update_running {
                updated matches Err(message) && message@
                    == "DSH 更新正在进行，请完成后再切换通道。"@
            } else if self@.state.update_channel == channel {
                updated matches Ok(None)
            } else {
                updated matches Ok(Some(state)) && state@ == channel_selected(self@.state, channel)
            },
    {
        if self.update_running {
            return Err("DSH 更新正在进行，请完成后再切换通道。".to_string());
        }
        let mut updated = self.state.clone();
        if !select_update_channel(&mut updated, channel) {
            return Ok(None);
        }
        Ok(Some(updated))
    }

    /// Takes the state with another channel once it is saved.
    pub fn commit_update_channel(&mut self, updated: RuntimeState)
        ensures
            final(self).same_setup(*old(self)),
            final(self)@ == (RuntimeManagerView {
                state: updated@,
                update_status: RuntimeUpdateSnapshotView {
                    phase: RuntimeUpdatePhase::Idle,
                    target_version: None,
                    detail: Some("已切换到 npm "@ + updated@.update_channel.tag() + " 通道"@),
                },
                ..old(self)@
            }),
    {
        let channel = updated.update_channel;
        self.state = updated;
        self.set_update_status(
            RuntimeUpdatePhase::Idle,
            None,
            Some(cat3("已切换到 npm ", channel.dist_tag(), " 通道")),
        );
    }

    /// What the user sees of the runtime.
    pub fn snapshot(&self) -> (snapshot: RuntimeSnapshot)
        ensures
            snapshot@ == (RuntimeSnapshotView {
                current_version: match self@.state.active {
                    Some(version) => version,
                    None => self.manifest.dsh_version@,
                },
                pending_version: self@.state.pending,
                node_version: self.manifest.node_version@,
                npm_version: self.manifest.npm_version@,
                update_channel: self@.state.update_channel,
                update: match self@.state.pending {
                    Some(version) if !covers_ready(self@.update_status.phase) => ready_update(
                        version,
                    ),
                    _ => self@.update_status,
                },
            }),
    {
        let current_version = match &self.state.active {
            Some(version) => version.clone(),
            None => self.manifest.dsh_version.clone(),
        };
        let mut update = self.update_status.clone();
        if let Some(version) = &self.state.pending {
            let covered = match update.phase {
                RuntimeUpdatePhase::Checking => true,
                RuntimeUpdatePhase::Installing => true,
                RuntimeUpdatePhase::Verifying => true,
                RuntimeUpdatePhase::Ahead => true,
                RuntimeUpdatePhase::Error => true,
                _ => false,
            };
            if !covered {
                update = RuntimeUpdateSnapshot::ready(version.as_str());
            }
        }
        RuntimeSnapshot {
            current_version,
            pending_version: self.state.pending.clone(),
            node_version: self.manifest.node_version.clone(),
            npm_version: self.manifest.npm_version.clone(),
            update_channel: self.state.update_channel,
            update,
        }
    }

    /// The application is about to end, and so is the runtime.
    pub fn terminate(&mut self)
        ensures
            final(self).same_setup(*old(self)),
            final(self)@ == (RuntimeManagerView {
                shutting_down: true,
                startup: None,
                ..old(self)@
            }),
    {
        self.shutting_down = true;
        self.startup = None;
    }

    /// Decides how the terminal command is installed.
    pub fn install_terminal_command(&self, seen: &InstallSeen) -> (decision: InstallDecision)
        ensures
            decision@ == install_decision(
                *seen,
                self.terminal_command.bin(),
                self.terminal_command.platform,
            ),
    {
        self.terminal_command.install(seen)
    }

    /// Decides how the terminal command is taken away.
    pub fn uninstall_terminal_command(
        &self,
        metadata: Option<InstallMetadata>,
        shim: &FileContents,
    ) -> (plan: Result<UninstallPlan, String>)
        ensures
            match uninstall_refusal(metadata, *shim) {
                Some(reason) => plan matches Err(message) && message@ == reason,
                None => {
                    &&& plan matches Ok(plan)
                    &&& metadata matches Some(installed)
                    &&& plan.command == installed.command
                    &&& match plan.clean {
                        Some(paths) => installed.path_added && paths.deep_view()
                            == recorded_configs(installed),
                        None => !installed.path_added,
                    }
                    &&& plan.shim.deep_view() == if shim.present() {
                        Some(installed.shim_path@)
                    } else {
                        None
                    }
                    &&& plan.files.deep_view() == self.terminal_command.recorded()
                },
            },
    {
        self.terminal_command.uninstall(metadata, shim)
    }
}

/// What a check in this stage has found is newer than the version that was active
/// when it looked.
pub open spec fn found_newer(stage: CheckStageView) -> bool {
    match stage {
        CheckStageView::Probing { candidate, active } => newer(candidate, active),
        CheckStageView::Installing { candidate, active } => newer(candidate, active),
        CheckStageView::SavingPending { candidate, active } => newer(candidate, active),
        _ => true,
    }
}

/// No check downgrades: what is installed, put in waiting or reported as staged
/// is newer than the version that was active when the check looked.
pub proof fn law_update_is_strictly_newer(
    manager: RuntimeManagerView,
    paths: PathsView,
    bundled: Seq<char>,
    platform: Platform,
    force: bool,
    channel: RuntimeUpdateChannel,
    stage: CheckStageView,
    event: CheckEvent,
)
    ensures
        ({
            let (next, after, action) = check_step(
                manager,
                paths,
                bundled,
                platform,
                force,
                channel,
                stage,
                event,
            );
            &&& found_newer(CheckStageView::Start)
            &&& found_newer(stage) ==> found_newer(after)
            &&& found_newer(stage) && next.state.pending != manager.state.pending ==> (after matches
                CheckStageView::SavingPending { candidate, active } && newer(candidate, active)
                && next.state.pending == Some(candidate) && manager.state.update_channel == channel)
            &&& action matches CheckActionView::Finish(Ok(UpdateOutcomeView::Staged(version)))
                ==> (stage matches CheckStageView::SavingPending { candidate, active } && candidate
                == version)
        }),
{
}

/// A check changes neither the version that runs nor the one before it nor the
/// channel; and of the rest it changes nothing but the times of the checks, the
/// version that waits, and what the user sees.
pub proof fn law_check_keeps_the_active_version(
    manager: RuntimeManagerView,
    paths: PathsView,
    bundled: Seq<char>,
    platform: Platform,
    force: bool,
    channel: RuntimeUpdateChannel,
    stage: CheckStageView,
    event: CheckEvent,
)
    ensures
        ({
            let next = check_step(
                manager,
                paths,
                bundled,
                platform,
                force,
                channel,
                stage,
                event,
            ).0;
            &&& next.state.active == manager.state.active
            &&& next.state.previous == manager.state.previous
            &&& next.state.update_channel == manager.state.update_channel
            &&& next.startup == manager.startup
            &&& next.update_scheduled == manager.update_scheduled
            &&& next.update_running == manager.update_running
            &&& next.shutting_down == manager.shutting_down
        }),
{
}

/// Where the channel was changed in the meantime, a check ends without putting a
/// version in waiting.
pub proof fn law_other_channel_is_not_staged(
    manager: RuntimeManagerView,
    paths: PathsView,
    bundled: Seq<char>,
    platform: Platform,
    force: bool,
    channel: RuntimeUpdateChannel,
    stage: CheckStageView,
    event: CheckEvent,
)
    requires
        manager.state.update_channel != channel,
    ensures
        check_step(
            manager,
            paths,
            bundled,
            platform,
            force,
            channel,
            stage,
            event,
        ).0.state == manager.state,
{
}

/// A check that is over stays over and changes nothing more.
pub proof fn law_finished_check_is_final(
    manager: RuntimeManagerView,
    paths: PathsView,
    bundled: Seq<char>,
    platform: Platform,
    force: bool,
    channel: RuntimeUpdateChannel,
    event: CheckEvent,
)
    ensures
        check_step(
            manager,
            paths,
            bundled,
            platform,
            force,
            channel,
            CheckStageView::Done,
            event,
        ) == (manager, CheckStageView::Done, CheckActionView::Ignore),
{
}

/// An attempt is written down before npm is asked, so that a check that fails is
/// not repeated by itself within the hour.
pub proof fn law_begun_check_is_not_due_again(
    manager: RuntimeManagerView,
    paths: PathsView,
    bundled: Seq<char>,
    platform: Platform,
    force: bool,
    channel: RuntimeUpdateChannel,
    now: u64,
)
    requires
        check_step(
            manager,
            paths,
            bundled,
            platform,
            force,
            channel,
            CheckStageView::Start,
            (CheckEvent::Begin { now }),
        ).1 is SavingAttempt,
    ensures
        ({
            let next = check_step(
                manager,
                paths,
                bundled,
                platform,
                force,
                channel,
                CheckStageView::Start,
                (CheckEvent::Begin { now }),
            ).0;
            forall|later: u64|
                later < now + FAILED_RETRY_SECS ==> !#[trigger] check_due(next.state, later)
        }),
{
}

/// At most one check runs: while one does, through every step of it, no other
/// begins and the channel stays.
pub proof fn law_one_check_at_a_time(
    manager: RuntimeManagerView,
    paths: PathsView,
    bundled: Seq<char>,
    platform: Platform,
    force: bool,
    channel: RuntimeUpdateChannel,
    stage: CheckStageView,
    event: CheckEvent,
    now: u64,
    other_force: bool,
)
    ensures
        begun(manager, now, force).1 is Some ==> begun(manager, now, force).0.update_running,
        manager.update_running ==> begun(manager, now, other_force) == (
            manager,
            None::<RuntimeUpdateChannel>,
        ),
        ({
            let next = check_step(
                manager,
                paths,
                bundled,
                platform,
                force,
                channel,
                stage,
                event,
            ).0;
            manager.update_running ==> next.update_running && next.state.update_channel
                == manager.state.update_channel
        }),
{
}

/// A check that is due or asked for writes its attempt down and then asks npm; any
/// other, and one for a channel that was left in the meantime, ends at once and
/// changes nothing.
pub proof fn law_due_check_asks_npm(
    manager: RuntimeManagerView,
    paths: PathsView,
    bundled: Seq<char>,
    platform: Platform,
    force: bool,
    channel: RuntimeUpdateChannel,
    now: u64,
)
    ensures
        ({
            let (next, after, action) = check_step(
                manager,
                paths,
                bundled,
                platform,
                force,
                channel,
                CheckStageView::Start,
                (CheckEvent::Begin { now }),
            );
            let wanted = manager.state.update_channel == channel && (force || check_due(
                manager.state,
                now,
            ));
            &&& wanted ==> action == CheckActionView::Save && after
                == CheckStageView::SavingAttempt(now) && next == (RuntimeManagerView {
                state: RuntimeStateView { last_update_attempt: Some(now), ..manager.state },
                ..manager
            })
            &&& !wanted ==> next == manager && after is Done && action == CheckActionView::Finish(
                Ok(UpdateOutcomeView::Skipped),
            )
            &&& check_step(
                manager,
                paths,
                bundled,
                platform,
                force,
                channel,
                CheckStageView::SavingAttempt(now),
                CheckEvent::Saved,
            ) == (manager, CheckStageView::Viewing(now), CheckActionView::View)
        }),
{
}

/// The version that npm offers is held against the active one, or against the one
/// that came with the application where none is active, and the time of the check is
/// written down as that of a success. Where npm fails, its error ends the check.
pub proof fn law_offer_is_weighed_against_the_active_version(
    manager: RuntimeManagerView,
    paths: PathsView,
    bundled: Seq<char>,
    platform: Platform,
    force: bool,
    channel: RuntimeUpdateChannel,
    now: u64,
    offer: Result<String, String>,
)
    ensures
        ({
            let (next, after, action) = check_step(
                manager,
                paths,
                bundled,
                platform,
                force,
                channel,
                CheckStageView::Viewing(now),
                CheckEvent::Viewed(offer),
            );
            let same_channel = manager.state.update_channel == channel;
            &&& offer matches Err(error) ==> next == manager && after is Done && action
                == CheckActionView::Finish(Err(error@))
            &&& offer is Ok && !same_channel ==> next == manager && after is Done && action
                == CheckActionView::Finish(Ok(UpdateOutcomeView::Skipped))
            &&& offer is Ok && same_channel ==> action == CheckActionView::Save && next == (RuntimeManagerView {
                state: RuntimeStateView { last_successful_check: Some(now), ..manager.state },
                ..manager
            }) && after == (CheckStageView::SavingSuccess {
                candidate: offer->Ok_0@,
                active: if manager.state.active is Some {
                    manager.state.active->0
                } else {
                    bundled
                },
            })
        }),
{
}

/// For every check, asked for or not: once the success is written down, a version that
/// is newer than the active one goes on to be installed, in a directory of its own;
/// the runtime counts as current only where the two have equal precedence, and as
/// ahead only where it is the newer one.
pub proof fn law_newer_offer_is_installed(
    manager: RuntimeManagerView,
    paths: PathsView,
    bundled: Seq<char>,
    platform: Platform,
    force: bool,
    channel: RuntimeUpdateChannel,
    candidate: Seq<char>,
    active: Seq<char>,
)
    ensures
        ({
            let (next, after, action) = check_step(
                manager,
                paths,
                bundled,
                platform,
                force,
                channel,
                (CheckStageView::SavingSuccess { candidate, active }),
                CheckEvent::Saved,
            );
            let offered = semver_parse(candidate);
            let running = semver_parse(active);
            let place = below(paths.runtimes, candidate, platform);
            &&& offered is Ok && running is Ok && precedence(offered->Ok_0, running->Ok_0)
                == VersionOrder::Newer ==> {
                &&& after == (CheckStageView::Probing { candidate, active })
                &&& action == CheckActionView::Probe(
                    below(place, "node_modules/@deepseek-ai/dsh/lib/bin.js"@, platform),
                )
                &&& next.state == manager.state
                &&& next.update_status.phase == RuntimeUpdatePhase::Installing
                &&& next.update_status.target_version == Some(candidate)
                &&& next.update_status.detail == Some("正在安装 DSH "@ + candidate)
            }
            &&& offered is Ok && running is Ok && precedence(offered->Ok_0, running->Ok_0)
                == VersionOrder::Same ==> next == manager && after is Done && action
                == CheckActionView::Finish(Ok(UpdateOutcomeView::Current))
            &&& offered is Ok && running is Ok && precedence(offered->Ok_0, running->Ok_0)
                == VersionOrder::Older ==> next == manager && after is Done && action
                == CheckActionView::Finish(
                Ok(UpdateOutcomeView::Ahead { active, target: candidate }),
            )
            &&& offered is Err || running is Err ==> next == manager && after is Done && (action
                matches CheckActionView::Finish(Err(_)))
        }),
{
}

/// A newer version that is there already is put in waiting; one that is not is
/// installed first, to its own directory, and then put in waiting. It is reported as
/// staged once that is written down.
pub proof fn law_newer_version_is_put_in_waiting(
    manager: RuntimeManagerView,
    paths: PathsView,
    bundled: Seq<char>,
    platform: Platform,
    force: bool,
    channel: RuntimeUpdateChannel,
    candidate: Seq<char>,
    active: Seq<char>,
)
    ensures
        ({
            let step = |stage: CheckStageView, event: CheckEvent|
                check_step(manager, paths, bundled, platform, force, channel, stage, event);
            let probing = CheckStageView::Probing { candidate, active };
            let installing = CheckStageView::Installing { candidate, active };
            let saving = CheckStageView::SavingPending { candidate, active };
            let waiting = (
                RuntimeManagerView {
                    state: RuntimeStateView { pending: Some(candidate), ..manager.state },
                    ..manager
                },
                saving,
                CheckActionView::Save,
            );
            let skipped = (
                manager,
                CheckStageView::Done,
                CheckActionView::Finish(Ok(UpdateOutcomeView::Skipped)),
            );
            &&& step(probing, (CheckEvent::Probed { installed: false })) == (
                manager,
                installing,
                CheckActionView::Install {
                    version: candidate,
                    destination: below(paths.runtimes, candidate, platform),
                },
            )
            &&& manager.state.update_channel == channel ==> step(
                probing,
                (CheckEvent::Probed { installed: true }),
            ) == waiting && step(installing, CheckEvent::Installed) == waiting
            &&& manager.state.update_channel != channel ==> step(
                probing,
                (CheckEvent::Probed { installed: true }),
            ) == skipped && step(installing, CheckEvent::Installed) == skipped
            &&& step(saving, CheckEvent::Saved) == (
                manager,
                CheckStageView::Done,
                CheckActionView::Finish(Ok(UpdateOutcomeView::Staged(candidate))),
            )
        }),
{
}

/// A failed step ends a check with its error and changes nothing, and what does not
/// belong to the stage is ignored.
pub proof fn law_failure_ends_the_check(
    manager: RuntimeManagerView,
    paths: PathsView,
    bundled: Seq<char>,
    platform: Platform,
    force: bool,
    channel: RuntimeUpdateChannel,
    stage: CheckStageView,
    error: String,
    event: CheckEvent,
)
    ensures
        !(stage is Done) ==> check_step(
            manager,
            paths,
            bundled,
            platform,
            force,
            channel,
            stage,
            CheckEvent::Failed(error),
        ) == (manager, CheckStageView::Done, CheckActionView::Finish(Err(error@))),
        ({
            let belongs = match event {
                CheckEvent::Begin { now } => stage is Start,
                CheckEvent::Saved => stage is SavingAttempt || stage is SavingSuccess || stage
                    is SavingPending,
                CheckEvent::Viewed(_) => stage is Viewing,
                CheckEvent::Probed { installed } => stage is Probing,
                CheckEvent::Installed => stage is Installing,
                CheckEvent::Failed(_) => !(stage is Done),
            };
            !belongs ==> check_step(
                manager,
                paths,
                bundled,
                platform,
                force,
                channel,
                stage,
                event,
            ) == (manager, stage, CheckActionView::Ignore)
        }),
{
}

/// A check of this manager goes by its own places, its own bundled version, and what
/// the check was begun for.
pub proof fn law_check_goes_by_its_manager(
    manager: RuntimeManager,
    check: RuntimeCheck,
    event: CheckEvent,
)
    ensures
        manager.step(check, event) == check_step(
            manager@,
            manager.paths@,
            manager.manifest.dsh_version@,
            manager.platform,
            check.force,
            check.channel,
            check.stage@,
            event,
        ),
{
}

/// A whole check of a channel that offers a newer version, asked for or due: npm is
/// asked, the version is installed to its own directory, and it waits for the next
/// start; the active version stays.
pub proof fn law_newer_version_waits_for_the_next_start(
    manager: RuntimeManagerView,
    paths: PathsView,
    bundled: Seq<char>,
    platform: Platform,
    force: bool,
    now: u64,
    candidate: String,
)
    requires
        force || check_due(manager.state, now),
        newer(
            candidate@,
            if manager.state.active is Some {
                manager.state.active->0
            } else {
                bundled
            },
        ),
    ensures
        ({
            let channel = manager.state.update_channel;
            let step = |m: RuntimeManagerView, stage: CheckStageView, event: CheckEvent|
                check_step(m, paths, bundled, platform, force, channel, stage, event);
            let (m1, s1, a1) = step(
                manager,
                CheckStageView::Start,
                (CheckEvent::Begin { now }),
            );
            let (m2, s2, a2) = step(m1, s1, CheckEvent::Saved);
            let (m3, s3, a3) = step(m2, s2, CheckEvent::Viewed(Ok(candidate)));
            let (m4, s4, a4) = step(m3, s3, CheckEvent::Saved);
            let (m5, s5, a5) = step(m4, s4, (CheckEvent::Probed { installed: false }));
            let (m6, s6, a6) = step(m5, s5, CheckEvent::Installed);
            let (m7, s7, a7) = step(m6, s6, CheckEvent::Saved);
            &&& a1 is Save && a2 is View && a3 is Save && a4 is Probe
            &&& a5 == (CheckActionView::Install {
                version: candidate@,
                destination: below(paths.runtimes, candidate@, platform),
            })
            &&& a6 is Save
            &&& a7 == CheckActionView::Finish(Ok(UpdateOutcomeView::Staged(candidate@)))
            &&& m7.state == (RuntimeStateView {
                pending: Some(candidate@),
                last_update_attempt: Some(now),
                last_successful_check: Some(now),
                ..manager.state
            })
        }),
{
}

/// A check begins exactly where one is due or asked for and none runs. It is shown,
/// follows the channel that is chosen, and changes nothing of what is kept.
pub proof fn law_check_begins_when_it_is_due(manager: RuntimeManagerView, now: u64, force: bool)
    ensures
        ({
            let (next, channel) = begun(manager, now, force);
            let begins = (force || check_due(manager.state, now)) && !manager.update_running;
            &&& begins ==> channel == Some(manager.state.update_channel)
            &&& begins ==> next.update_running && next.update_status.phase
                == RuntimeUpdatePhase::Checking && next.update_status.target_version is None
            &&& begins ==> next.state == manager.state && next.startup == manager.startup
                && next.update_scheduled == manager.update_scheduled && next.shutting_down
                == manager.shutting_down
            &&& begins ==> next.update_status.detail == Some(
                "正在查询 npm "@ + manager.state.update_channel.tag() + " 通道"@,
            )
            &&& !begins ==> channel is None && next == manager
        }),
{
}

/// What is shown after a check says how it ended: a staged version as ready, the
/// active one as current or ahead, an error with its text and with the version that
/// was being looked at; and after a check that was skipped what waits.
pub proof fn law_end_of_a_check_is_shown(
    manager: RuntimeManagerView,
    channel: RuntimeUpdateChannel,
    version: Seq<char>,
    target: Seq<char>,
    error: Seq<char>,
)
    ensures
        ({
            let shown = |result: Result<UpdateOutcomeView, Seq<char>>|
                status_after(manager, channel, result);
            let staged = shown(Ok(UpdateOutcomeView::Staged(version)));
            let current = shown(Ok(UpdateOutcomeView::Current));
            let ahead = shown(Ok(UpdateOutcomeView::Ahead { active: version, target }));
            let skipped = shown(Ok(UpdateOutcomeView::Skipped));
            let failed = shown(Err(error));
            &&& staged.phase == RuntimeUpdatePhase::Ready && staged.target_version == Some(version)
            &&& current.phase == RuntimeUpdatePhase::Current && current.target_version is None
            &&& current.detail == Some(
                if channel == RuntimeUpdateChannel::Latest {
                    "已是 npm latest 当前版本"@
                } else {
                    "已是 DSH Beta 当前版本"@
                },
            )
            &&& ahead.phase == RuntimeUpdatePhase::Ahead && ahead.target_version == Some(target)
            &&& ahead.detail == Some(
                "当前 DSH "@ + version + " 高于 npm "@ + channel.tag() + " 的 "@ + target
                    + "，不会自动降级"@,
            )
            &&& manager.state.pending matches Some(waiting) ==> skipped.phase
                == RuntimeUpdatePhase::Ready && skipped.target_version == Some(waiting)
            &&& manager.state.pending is None ==> skipped.phase == RuntimeUpdatePhase::Idle
                && skipped.target_version is None
            &&& failed.phase == RuntimeUpdatePhase::Error && failed.detail == Some(error)
                && failed.target_version == manager.update_status.target_version
        }),
{
}

/// A version that waits is hidden by a check under way, by an error and by a runtime
/// that is ahead, and by nothing else.
pub proof fn law_waiting_version_is_hidden_by_what_matters_more(phase: RuntimeUpdatePhase)
    ensures
        covers_ready(phase) <==> !(phase == RuntimeUpdatePhase::Idle || phase
            == RuntimeUpdatePhase::Current || phase == RuntimeUpdatePhase::Ready),
{
}

/// A channel offers what npm names where npm succeeds and names a version, and that
/// unchanged; otherwise the error says what is wrong.
pub proof fn law_channel_offers_what_npm_names(
    channel: RuntimeUpdateChannel,
    success: bool,
    errors: Seq<char>,
    named: Result<Seq<char>, Seq<char>>,
    fault: Option<Seq<char>>,
)
    ensures
        ({
            let offer = offered(channel, success, errors, named, fault);
            &&& offer is Ok <==> success && named is Ok && fault is None
            &&& offer is Ok ==> offer == named
            &&& !success ==> offer == Err::<Seq<char>, Seq<char>>(
                "npm view 失败："@ + trimmed(errors),
            )
            &&& success && named is Err ==> offer == named
            &&& success && named is Ok && fault is Some ==> offer == Err::<Seq<char>, Seq<char>>(
                "npm "@ + channel.tag() + " 不是合法版本 "@ + debug_form(named->Ok_0) + "："@
                    + fault->0,
            )
        }),
{
}

/// Asking for the checks after the start changes nothing but that they were asked for.
pub proof fn law_scheduling_changes_nothing_else(manager: RuntimeManagerView, now: u64)
    ensures
        scheduled(manager, now).0 == (RuntimeManagerView { update_scheduled: true, ..manager }),
        scheduled(manager, now).1 is Some <==> !manager.update_scheduled,
{
}

/// What a check returned is its outcome or its error, unchanged.
pub proof fn law_value_of_an_outcome(outcome: UpdateOutcome, error: String)
    ensures
        outcome_view(Ok(outcome)) == Ok::<UpdateOutcomeView, Seq<char>>(outcome@),
        outcome_view(Err(error)) == Err::<UpdateOutcomeView, Seq<char>>(error@),
{
}

} // verus!
