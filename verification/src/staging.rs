//! The installation of a newer runtime beside the one that runs: it is staged,
//! asked for its version and started once before it is put in its place.

use vstd::prelude::*;

use crate::paths::{below, join_path};
use crate::runtime::{
    RuntimeManager, RuntimeManagerView, RuntimeUpdatePhase, RuntimeUpdateSnapshotView,
};
use crate::text::{cat2, cat3, cat4, no_texts, same};
use crate::trim::{decimal, decimal_text, trim, trimmed};
use crate::version::{debug_form, debug_text};

verus! {

/// How far an installation has come.
#[derive(Debug)]
pub enum InstallStage {
    /// The staging directory is being made and the manifest written.
    Preparing,
    /// npm is at work.
    Installing,
    /// The staged runtime is being asked for its version.
    ReadingVersion,
    /// The staged runtime is being started with this home directory.
    Smoking(String),
    /// The staged runtime is being moved to its place.
    Committing,
    Done,
}

/// The value of an [`InstallStage`].
pub enum InstallStageView {
    Preparing,
    Installing,
    ReadingVersion,
    Smoking(Seq<char>),
    Committing,
    Done,
}

impl View for InstallStage {
    type V = InstallStageView;

    open spec fn view(&self) -> InstallStageView {
        match self {
            InstallStage::Preparing => InstallStageView::Preparing,
            InstallStage::Installing => InstallStageView::Installing,
            InstallStage::ReadingVersion => InstallStageView::ReadingVersion,
            InstallStage::Smoking(home) => InstallStageView::Smoking(home@),
            InstallStage::Committing => InstallStageView::Committing,
            InstallStage::Done => InstallStageView::Done,
        }
    }
}

/// One installation.
pub struct StagedInstall {
    pub version: String,
    pub directory: String,
    pub destination: String,
    pub stage: InstallStage,
}

/// Why a step could not be made.
#[derive(Debug)]
pub enum InstallFault {
    CleanStage(String),
    CreateStage(String),
    WriteManifest(String),
    RunInstall(String),
    RunVersion(String),
    CreateSmokeHome(String),
    ReplaceDestination(String),
    Commit(String),
    Other(String),
}

/// The text of a fault.
pub open spec fn install_fault_text(fault: InstallFault) -> Seq<char> {
    match fault {
        InstallFault::CleanStage(reason) => "无法清理更新暂存目录："@ + reason@,
        InstallFault::CreateStage(reason) => "无法创建更新暂存目录："@ + reason@,
        InstallFault::WriteManifest(reason) => "无法写入更新清单："@ + reason@,
        InstallFault::RunInstall(reason) => "无法执行 npm install："@ + reason@,
        InstallFault::RunVersion(reason) => "无法验证新版本："@ + reason@,
        InstallFault::CreateSmokeHome(reason) => "无法创建冒烟测试目录："@ + reason@,
        InstallFault::ReplaceDestination(reason) => "无法替换损坏的版本目录："@ + reason@,
        InstallFault::Commit(reason) => "无法提交新版本："@ + reason@,
        InstallFault::Other(reason) => reason@,
    }
}

impl InstallFault {
    /// The text of the fault.
    pub fn text(&self) -> (text: String)
        ensures
            text@ == install_fault_text(*self),
    {
        match self {
            InstallFault::CleanStage(reason) => cat2("无法清理更新暂存目录：", reason.as_str()),
            InstallFault::CreateStage(reason) => cat2("无法创建更新暂存目录：", reason.as_str()),
            InstallFault::WriteManifest(reason) => cat2("无法写入更新清单：", reason.as_str()),
            InstallFault::RunInstall(reason) => cat2("无法执行 npm install：", reason.as_str()),
            InstallFault::RunVersion(reason) => cat2("无法验证新版本：", reason.as_str()),
            InstallFault::CreateSmokeHome(reason) => cat2(
                "无法创建冒烟测试目录：",
                reason.as_str(),
            ),
            InstallFault::ReplaceDestination(reason) => cat2(
                "无法替换损坏的版本目录：",
                reason.as_str(),
            ),
            InstallFault::Commit(reason) => cat2("无法提交新版本：", reason.as_str()),
            InstallFault::Other(reason) => reason.clone(),
        }
    }
}

/// What happened outside.
pub enum InstallEvent {
    /// The staging directory is there, with the manifest in it.
    Prepared,
    /// npm ended, with this error output.
    InstallRan { success: bool, errors: String },
    /// The staged runtime was asked for its version and printed this, at this
    /// time.
    VersionRan { now: u64, success: bool, output: String },
    /// The staged runtime was started, or it could not be.
    SmokeRan(Result<(), String>),
    /// The staged runtime is in its place.
    Committed,
    /// A step could not be made.
    Failed(InstallFault),
}

/// What is to be done outside.
#[derive(Debug)]
pub enum InstallAction {
    RunInstall,
    ReadVersion,
    /// The staged runtime is to be started with this home directory, which is to
    /// be made first.
    Smoke(String),
    /// The home directory of the test run is to be deleted, what is made for other
    /// systems is to be left out, and the staging directory is to be moved to the
    /// destination in place of what is there.
    Commit { smoke_home: String },
    /// The installation is over. These directories are to be deleted first.
    Finish { discard: Vec<String>, result: Result<(), String> },
    /// The event did not belong to the stage.
    Ignore,
}

/// The value of an [`InstallAction`].
#[verifier::ext_equal]
pub enum InstallActionView {
    RunInstall,
    ReadVersion,
    Smoke(Seq<char>),
    Commit { smoke_home: Seq<char> },
    Finish { discard: Seq<Seq<char>>, result: Result<(), Seq<char>> },
    Ignore,
}

impl View for InstallAction {
    type V = InstallActionView;

    open spec fn view(&self) -> InstallActionView {
        match self {
            InstallAction::RunInstall => InstallActionView::RunInstall,
            InstallAction::ReadVersion => InstallActionView::ReadVersion,
            InstallAction::Smoke(home) => InstallActionView::Smoke(home@),
            InstallAction::Commit { smoke_home } => InstallActionView::Commit { smoke_home: smoke_home@ },
            InstallAction::Finish { discard, result } => InstallActionView::Finish {
                discard: discard.deep_view(),
                result: match result {
                    Ok(()) => Ok(()),
                    Err(reason) => Err(reason@),
                },
            },
            InstallAction::Ignore => InstallActionView::Ignore,
        }
    }
}

/// The staging directory of a version, for an installation that begins now.
pub open spec fn staging_name(version: Seq<char>, now: u64) -> Seq<char> {
    ".staging-"@ + version + "-"@ + decimal(now as nat)
}

/// An installation that failed, with the directories that are left to delete.
pub open spec fn abandoned(
    manager: RuntimeManagerView,
    discard: Seq<Seq<char>>,
    reason: Seq<char>,
) -> (RuntimeManagerView, InstallStageView, InstallActionView) {
    (
        manager,
        InstallStageView::Done,
        InstallActionView::Finish { discard, result: Err(reason) },
    )
}

/// What follows an event: what the user sees, the stage, and what is done
/// outside. An event that does not belong to the stage changes nothing.
pub open spec fn install_step(
    manager: RuntimeManagerView,
    smoke_root: Seq<char>,
    platform: crate::host::Platform,
    version: Seq<char>,
    directory: Seq<char>,
    stage: InstallStageView,
    event: InstallEvent,
) -> (RuntimeManagerView, InstallStageView, InstallActionView) {
    let ignored = (manager, stage, InstallActionView::Ignore);
    match event {
        InstallEvent::Prepared => if stage is Preparing {
            (manager, InstallStageView::Installing, InstallActionView::RunInstall)
        } else {
            ignored
        },
        InstallEvent::InstallRan { success, errors } => if stage is Installing {
            if success {
                (
                    RuntimeManagerView {
                        update_status: RuntimeUpdateSnapshotView {
                            phase: RuntimeUpdatePhase::Verifying,
                            target_version: Some(version),
                            detail: Some("正在验证版本与启动能力"@),
                        },
                        ..manager
                    },
                    InstallStageView::ReadingVersion,
                    InstallActionView::ReadVersion,
                )
            } else {
                abandoned(manager, seq![directory], "npm install 失败："@ + trimmed(errors@))
            }
        } else {
            ignored
        },
        InstallEvent::VersionRan { now, success, output } => if stage is ReadingVersion {
            if success && trimmed(output@) == version {
                let home = below(smoke_root, version + "-"@ + decimal(now as nat), platform);
                (manager, InstallStageView::Smoking(home), InstallActionView::Smoke(home))
            } else {
                abandoned(
                    manager,
                    seq![directory],
                    "新版本验证失败：预期 "@ + version + "，实际 "@ + debug_form(trimmed(output@)),
                )
            }
        } else {
            ignored
        },
        InstallEvent::SmokeRan(result) => match stage {
            InstallStageView::Smoking(home) => match result {
                Ok(()) => (
                    manager,
                    InstallStageView::Committing,
                    InstallActionView::Commit { smoke_home: home },
                ),
                Err(error) => abandoned(
                    manager,
                    seq![home, directory],
                    "新版本启动验证失败："@ + error@,
                ),
            },
            _ => ignored,
        },
        InstallEvent::Committed => if stage is Committing {
            (
                manager,
                InstallStageView::Done,
                InstallActionView::Finish { discard: Seq::empty(), result: Ok(()) },
            )
        } else {
            ignored
        },
        InstallEvent::Failed(fault) => if stage is Done {
            ignored
        } else {
            abandoned(manager, Seq::empty(), install_fault_text(fault))
        },
    }
}

impl StagedInstall {
    /// What follows an event for this installation.
    pub open spec fn step(self, manager: RuntimeManager, event: InstallEvent) -> (
        RuntimeManagerView,
        InstallStageView,
        InstallActionView,
    ) {
        install_step(
            manager@,
            manager.paths@.smoke,
            manager.platform,
            self.version@,
            self.directory@,
            self.stage@,
            event,
        )
    }

    /// The version and the places stay what they are.
    pub open spec fn same_target(self, other: StagedInstall) -> bool {
        self.version == other.version && self.directory == other.directory && self.destination
            == other.destination
    }

    fn abandon(&mut self, discard: Vec<String>, reason: String) -> (action: InstallAction)
        ensures
            final(self).same_target(*old(self)),
            final(self).stage@ == InstallStageView::Done,
            action@ == (InstallActionView::Finish {
                discard: discard.deep_view(),
                result: Err(reason@),
            }),
    {
        self.stage = InstallStage::Done;
        InstallAction::Finish { discard, result: Err(reason) }
    }
}

impl RuntimeManager {
    /// Begins the installation of a version.
    pub fn stage_install(&self, version: &str, destination: &str, now: u64) -> (install:
        StagedInstall)
        ensures
            install.version@ == version@,
            install.directory@ == below(
                self.paths@.runtimes,
                staging_name(version@, now),
                self.platform,
            ),
            install.destination@ == destination@,
            install.stage@ == InstallStageView::Preparing,
    {
        let name = cat4(".staging-", version, "-", decimal_text(now).as_str());
        StagedInstall {
            version: version.to_string(),
            directory: join_path(self.paths.runtimes.as_str(), name.as_str(), self.platform),
            destination: destination.to_string(),
            stage: InstallStage::Preparing,
        }
    }

    /// Takes an event of a running installation and says what is to be done next.
    pub fn advance_install(&mut self, install: &mut StagedInstall, event: InstallEvent) -> (action:
        InstallAction)
        ensures
            final(self).same_setup(*old(self)),
            final(install).same_target(*old(install)),
            (final(self)@, final(install).stage@, action@) == old(install).step(*old(self), event),
    {
        match event {
            InstallEvent::Prepared => {
                if let InstallStage::Preparing = install.stage {
                    install.stage = InstallStage::Installing;
                    return InstallAction::RunInstall;
                }
            },
            InstallEvent::InstallRan { success, errors } => {
                if let InstallStage::Installing = install.stage {
                    if !success {
                        let mut discard = no_texts();
                        discard.push(install.directory.clone());
                        assert(discard.deep_view() =~= seq![install.directory@]);
                        return install.abandon(
                            discard,
                            cat2("npm install 失败：", trim(errors.as_str()).as_str()),
                        );
                    }
                    self.set_update_status(
                        RuntimeUpdatePhase::Verifying,
                        Some(install.version.clone()),
                        Some("正在验证版本与启动能力".to_string()),
                    );
                    install.stage = InstallStage::ReadingVersion;
                    return InstallAction::ReadVersion;
                }
            },
            InstallEvent::VersionRan { now, success, output } => {
                if let InstallStage::ReadingVersion = install.stage {
                    let reported = trim(output.as_str());
                    if !success || !same(reported.as_str(), install.version.as_str()) {
                        let mut discard = no_texts();
                        discard.push(install.directory.clone());
                        assert(discard.deep_view() =~= seq![install.directory@]);
                        return install.abandon(
                            discard,
                            cat4(
                                "新版本验证失败：预期 ",
                                install.version.as_str(),
                                "，实际 ",
                                debug_text(reported.as_str()).as_str(),
                            ),
                        );
                    }
                    let name = cat3(install.version.as_str(), "-", decimal_text(now).as_str());
                    let home = join_path(self.paths.smoke.as_str(), name.as_str(), self.platform);
                    install.stage = InstallStage::Smoking(home.clone());
                    return InstallAction::Smoke(home);
                }
            },
            InstallEvent::SmokeRan(result) => {
                if let InstallStage::Smoking(home) = &install.stage {
                    let home: String = home.clone();
                    match result {
                        Ok(()) => {
                            install.stage = InstallStage::Committing;
                            return InstallAction::Commit { smoke_home: home };
                        },
                        Err(error) => {
                            let ghost text = home@;
                            let mut discard = no_texts();
                            discard.push(home);
                            discard.push(install.directory.clone());
                            assert(discard.deep_view() =~= seq![text, install.directory@]);
                            return install.abandon(
                                discard,
                                cat2("新版本启动验证失败：", error.as_str()),
                            );
                        },
                    }
                }
            },
            InstallEvent::Committed => {
                if let InstallStage::Committing = install.stage {
                    install.stage = InstallStage::Done;
                    return InstallAction::Finish { discard: no_texts(), result: Ok(()) };
                }
            },
            InstallEvent::Failed(fault) => {
                match install.stage {
                    InstallStage::Done => {},
                    _ => {
                        let discard = no_texts();
                        return install.abandon(discard, fault.text());
                    },
                }
            },
        }
        InstallAction::Ignore
    }
}

/// The installations that a run of events can lead to: `stages` holds the stage
/// before each event and the last one, `events` the events in order.
pub open spec fn is_run(
    smoke_root: Seq<char>,
    platform: crate::host::Platform,
    version: Seq<char>,
    directory: Seq<char>,
    managers: Seq<RuntimeManagerView>,
    stages: Seq<InstallStageView>,
    events: Seq<InstallEvent>,
) -> bool {
    &&& managers.len() == events.len() + 1
    &&& stages.len() == events.len() + 1
    &&& stages[0] is Preparing
    &&& forall|i: int|
        0 <= i < events.len() ==> {
            let (manager, stage, action) = install_step(
                managers[i],
                smoke_root,
                platform,
                version,
                directory,
                stages[i],
                #[trigger] events[i],
            );
            managers[i + 1] == manager && stages[i + 1] == stage
        }
}

/// npm ended well.
pub open spec fn installed_well(event: InstallEvent) -> bool {
    event matches InstallEvent::InstallRan { success, errors } && success
}

/// The staged runtime named the version that was asked for.
pub open spec fn named_version(event: InstallEvent, version: Seq<char>) -> bool {
    event matches InstallEvent::VersionRan { now, success, output } && success && trimmed(output@)
        == version
}

/// The staged runtime could be started.
pub open spec fn started_well(event: InstallEvent) -> bool {
    event matches InstallEvent::SmokeRan(Ok(_))
}

/// A version is put in its place only where npm installed it, it named itself as
/// the version that was asked for, and it could be started, in this order.
pub proof fn law_only_verified_versions_are_committed(
    smoke_root: Seq<char>,
    platform: crate::host::Platform,
    version: Seq<char>,
    directory: Seq<char>,
    managers: Seq<RuntimeManagerView>,
    stages: Seq<InstallStageView>,
    events: Seq<InstallEvent>,
    at: int,
)
    requires
        is_run(smoke_root, platform, version, directory, managers, stages, events),
        0 <= at <= events.len(),
    ensures
        !(stages[at] is Preparing || stages[at] is Installing || stages[at] is Done) ==> exists|
            i: int,
        |
            0 <= i < at && installed_well(#[trigger] events[i]),
        stages[at] is Smoking ==> exists|i: int, j: int|
            0 <= i < j < at && installed_well(#[trigger] events[i]) && named_version(
                #[trigger] events[j],
                version,
            ),
        stages[at] is Committing ==> exists|i: int, j: int, k: int|
            0 <= i < j < k < at && installed_well(#[trigger] events[i]) && named_version(
                #[trigger] events[j],
                version,
            ) && started_well(#[trigger] events[k]),
    decreases at,
{
    if at > 0 {
        law_only_verified_versions_are_committed(
            smoke_root,
            platform,
            version,
            directory,
            managers,
            stages,
            events,
            at - 1,
        );
        let event = events[at - 1];
        assert(stages[at] == install_step(
            managers[at - 1],
            smoke_root,
            platform,
            version,
            directory,
            stages[at - 1],
            event,
        ).1);
        if stages[at - 1] is Installing && stages[at] is ReadingVersion {
            assert(installed_well(events[at - 1]));
        }
        if stages[at - 1] is ReadingVersion && stages[at] is Smoking {
            let i = choose|i: int| 0 <= i < at - 1 && installed_well(#[trigger] events[i]);
            assert(installed_well(events[i]) && named_version(events[at - 1], version));
        }
        if stages[at - 1] is Smoking && stages[at] is Committing {
            let (i, j) = choose|i: int, j: int|
                0 <= i < j < at - 1 && installed_well(#[trigger] events[i]) && named_version(
                    #[trigger] events[j],
                    version,
                );
            assert(installed_well(events[i]) && named_version(events[j], version) && started_well(
                events[at - 1],
            ));
        }
    }
}

/// A version that npm could not install, that is not the one asked for, or that
/// does not start leaves nothing behind: its staging directory is deleted.
pub proof fn law_rejected_version_is_deleted(
    manager: RuntimeManagerView,
    smoke_root: Seq<char>,
    platform: crate::host::Platform,
    version: Seq<char>,
    directory: Seq<char>,
    stage: InstallStageView,
    event: InstallEvent,
)
    requires
        ({
            ||| stage is Installing && event is InstallRan && !installed_well(event)
            ||| stage is ReadingVersion && event is VersionRan && !named_version(event, version)
            ||| stage is Smoking && event is SmokeRan && !started_well(event)
        }),
    ensures
        ({
            let (next, after, action) = install_step(
                manager,
                smoke_root,
                platform,
                version,
                directory,
                stage,
                event,
            );
            &&& after is Done
            &&& next == manager
            &&& action matches InstallActionView::Finish { discard, result }
            &&& result is Err
            &&& discard.contains(directory)
        }),
{
    let action = install_step(
        manager,
        smoke_root,
        platform,
        version,
        directory,
        stage,
        event,
    ).2;
    let discard = action->discard;
    assert(discard[discard.len() - 1] == directory);
}

/// A runtime that came up well goes through npm, its version and its start, one after
/// the other, and is then put in its place; the home directory of the trial lies below
/// the one for trials, and nothing of what is kept changes.
pub proof fn law_good_version_is_committed(
    manager: RuntimeManagerView,
    smoke_root: Seq<char>,
    platform: crate::host::Platform,
    version: Seq<char>,
    directory: Seq<char>,
    errors: String,
    output: String,
    now: u64,
    home: Seq<char>,
)
    ensures
        ({
            let step = |stage: InstallStageView, event: InstallEvent|
                install_step(manager, smoke_root, platform, version, directory, stage, event);
            let ran = step(
                InstallStageView::Installing,
                (InstallEvent::InstallRan { success: true, errors }),
            );
            let named = step(
                InstallStageView::ReadingVersion,
                (InstallEvent::VersionRan { now, success: true, output }),
            );
            let place = below(smoke_root, version + "-"@ + decimal(now as nat), platform);
            &&& step(InstallStageView::Preparing, InstallEvent::Prepared) == (
                manager,
                InstallStageView::Installing,
                InstallActionView::RunInstall,
            )
            &&& ran.1 is ReadingVersion && ran.2 is ReadVersion
            &&& ran.0.state == manager.state && ran.0.startup == manager.startup
                && ran.0.update_running == manager.update_running
            &&& ran.0.update_status.phase == RuntimeUpdatePhase::Verifying
                && ran.0.update_status.target_version == Some(version)
                && ran.0.update_status.detail == Some("正在验证版本与启动能力"@)
            &&& trimmed(output@) == version ==> named == (
                manager,
                InstallStageView::Smoking(place),
                InstallActionView::Smoke(place),
            )
            &&& step(InstallStageView::Smoking(home), InstallEvent::SmokeRan(Ok(()))) == (
                manager,
                InstallStageView::Committing,
                InstallActionView::Commit { smoke_home: home },
            )
            &&& step(InstallStageView::Committing, InstallEvent::Committed) == (
                manager,
                InstallStageView::Done,
                InstallActionView::Finish { discard: Seq::empty(), result: Ok(()) },
            )
        }),
{
}

/// A version that is rejected is reported with what was wrong: what npm printed, the
/// version that was named in place of the one asked for, or why it did not start; and
/// the directories of the trial are deleted.
pub proof fn law_rejected_version_is_reported(
    manager: RuntimeManagerView,
    smoke_root: Seq<char>,
    platform: crate::host::Platform,
    version: Seq<char>,
    directory: Seq<char>,
    errors: String,
    output: String,
    success: bool,
    now: u64,
    home: Seq<char>,
    error: String,
)
    ensures
        ({
            let step = |stage: InstallStageView, event: InstallEvent|
                install_step(manager, smoke_root, platform, version, directory, stage, event);
            let failed = |discard: Seq<Seq<char>>, reason: Seq<char>|
                (
                    manager,
                    InstallStageView::Done,
                    InstallActionView::Finish { discard, result: Err(reason) },
                );
            &&& step(
                InstallStageView::Installing,
                (InstallEvent::InstallRan { success: false, errors }),
            ) == failed(seq![directory], "npm install 失败："@ + trimmed(errors@))
            &&& !success || trimmed(output@) != version ==> step(
                InstallStageView::ReadingVersion,
                (InstallEvent::VersionRan { now, success, output }),
            ) == failed(
                seq![directory],
                "新版本验证失败：预期 "@ + version + "，实际 "@ + debug_form(trimmed(output@)),
            )
            &&& step(InstallStageView::Smoking(home), InstallEvent::SmokeRan(Err(error)))
                == failed(seq![home, directory], "新版本启动验证失败："@ + error@)
        }),
{
}

/// A step that could not be made ends the installation with its fault, and what does
/// not belong to the stage is ignored. Neither changes what is kept or shown.
pub proof fn law_fault_ends_the_installation(
    manager: RuntimeManagerView,
    smoke_root: Seq<char>,
    platform: crate::host::Platform,
    version: Seq<char>,
    directory: Seq<char>,
    stage: InstallStageView,
    fault: InstallFault,
    event: InstallEvent,
)
    ensures
        !(stage is Done) ==> install_step(
            manager,
            smoke_root,
            platform,
            version,
            directory,
            stage,
            InstallEvent::Failed(fault),
        ) == (
            manager,
            InstallStageView::Done,
            InstallActionView::Finish {
                discard: Seq::empty(),
                result: Err(install_fault_text(fault)),
            },
        ),
        ({
            let belongs = match event {
                InstallEvent::Prepared => stage is Preparing,
                InstallEvent::InstallRan { success, errors } => stage is Installing,
                InstallEvent::VersionRan { now, success, output } => stage is ReadingVersion,
                InstallEvent::SmokeRan(result) => stage is Smoking,
                InstallEvent::Committed => stage is Committing,
                InstallEvent::Failed(fault) => !(stage is Done),
            };
            !belongs ==> install_step(
                manager,
                smoke_root,
                platform,
                version,
                directory,
                stage,
                event,
            ) == (manager, stage, InstallActionView::Ignore)
        }),
{
}

/// An installation goes by its own version and directory and by the places of its
/// manager, and keeps its version and its places.
pub proof fn law_installation_goes_by_its_manager(
    manager: RuntimeManager,
    install: StagedInstall,
    other: StagedInstall,
    event: InstallEvent,
)
    ensures
        install.step(manager, event) == install_step(
            manager@,
            manager.paths@.smoke,
            manager.platform,
            install.version@,
            install.directory@,
            install.stage@,
            event,
        ),
        install.same_target(other) <==> install.version == other.version && install.directory
            == other.directory && install.destination == other.destination,
{
}

/// A staging directory carries the version and the time in its name.
pub proof fn law_staging_name(version: Seq<char>, now: u64)
    ensures
        staging_name(version, now) == ".staging-"@ + version + "-"@ + decimal(now as nat),
{
}

/// The text of a fault says which step failed and why.
pub proof fn law_install_fault_names_its_step(reason: String)
    ensures
        install_fault_text(InstallFault::CleanStage(reason)) == "无法清理更新暂存目录："@ + reason@,
        install_fault_text(InstallFault::CreateStage(reason)) == "无法创建更新暂存目录："@ + reason@,
        install_fault_text(InstallFault::WriteManifest(reason)) == "无法写入更新清单："@ + reason@,
        install_fault_text(InstallFault::RunInstall(reason)) == "无法执行 npm install："@ + reason@,
        install_fault_text(InstallFault::RunVersion(reason)) == "无法验证新版本："@ + reason@,
        install_fault_text(InstallFault::CreateSmokeHome(reason)) == "无法创建冒烟测试目录："@
            + reason@,
        install_fault_text(InstallFault::ReplaceDestination(reason)) == "无法替换损坏的版本目录："@
            + reason@,
        install_fault_text(InstallFault::Commit(reason)) == "无法提交新版本："@ + reason@,
        install_fault_text(InstallFault::Other(reason)) == reason@,
{
}

} // verus!
