//! The installation of the runtime with the user's own npm: what is asked for,
//! which directories are made, and which commands are run, in order.

use vstd::prelude::*;

use crate::command::{last_value, lemma_last_value, CommandPlan, CommandPlanView};
use crate::host::Platform;
use crate::npm::{install_script_packages, script_packages, PACKAGE_NAME};
use crate::system_tools::{
    command_for_tool, commands_of, executable_plan, global_bin_dir, global_modules_dir, modules_of,
    tool_plan, UserToolchain,
};
use crate::text::{cat2, cat3, cat4, join, joined};
use crate::version::{
    allows_scripts, debug_form, debug_text, fault_of_version, npm_supports_allow_scripts,
    semver_parse, version_fault,
};

verus! {

/// The arguments that ask npm for the newest version.
pub fn latest_arguments() -> (arguments: Vec<String>)
    ensures
        arguments.deep_view() == seq!["view"@, PACKAGE_NAME@, "dist-tags.latest"@, "--json"@],
{
    let arguments: Vec<String> = vec![
        "view".to_string(),
        PACKAGE_NAME.to_string(),
        "dist-tags.latest".to_string(),
        "--json".to_string(),
    ];
    assert(arguments.deep_view() =~= seq![
        "view"@,
        PACKAGE_NAME@,
        "dist-tags.latest"@,
        "--json"@,
    ]);
    arguments
}

/// The package at a version.
pub open spec fn package_spec(version: Seq<char>) -> Seq<char> {
    PACKAGE_NAME@ + "@"@ + version
}

/// The arguments that ask npm when a version was published.
pub open spec fn publish_time_query(version: Seq<char>) -> Seq<Seq<char>> {
    seq!["view"@, package_spec(version), "time"@, "--json"@]
}

/// The arguments that ask npm when a version was published.
pub fn publish_time_arguments(version: &str) -> (arguments: Vec<String>)
    ensures
        arguments.deep_view() == publish_time_query(version@),
{
    let arguments: Vec<String> = vec![
        "view".to_string(),
        cat3(PACKAGE_NAME, "@", version),
        "time".to_string(),
        "--json".to_string(),
    ];
    assert(arguments.deep_view() =~= publish_time_query(version@));
    arguments
}

/// The arguments that install a version without running any script, from nothing
/// that was published after it.
pub open spec fn install_query(prefix: Seq<char>, version: Seq<char>, time: Seq<char>) -> Seq<
    Seq<char>,
> {
    seq![
        "install"@,
        "--global"@,
        "--prefix"@,
        prefix,
        "--omit=dev"@,
        "--no-audit"@,
        "--no-fund"@,
        "--package-lock=false"@,
        "--ignore-scripts"@,
        "--before="@ + time,
        package_spec(version),
    ]
}

/// The arguments that install a version.
pub fn install_arguments(prefix: &str, version: &str, time: &str) -> (arguments: Vec<String>)
    ensures
        arguments.deep_view() == install_query(prefix@, version@, time@),
{
    let arguments: Vec<String> = vec![
        "install".to_string(),
        "--global".to_string(),
        "--prefix".to_string(),
        prefix.to_string(),
        "--omit=dev".to_string(),
        "--no-audit".to_string(),
        "--no-fund".to_string(),
        "--package-lock=false".to_string(),
        "--ignore-scripts".to_string(),
        cat2("--before=", time),
        cat3(PACKAGE_NAME, "@", version),
    ];
    assert(arguments.deep_view() =~= install_query(prefix@, version@, time@));
    arguments
}

/// The arguments that run the install scripts of the packages that may run them,
/// and only of those where npm knows such a list.
pub open spec fn rebuild_query(prefix: Seq<char>, restricted: bool) -> Seq<Seq<char>> {
    let common = seq![
        "rebuild"@,
        "--global"@,
        "--prefix"@,
        prefix,
        "--ignore-scripts=false"@,
        "--no-audit"@,
        "--no-fund"@,
    ];
    let restriction = if restricted {
        seq!["--allow-scripts="@ + joined(script_packages(), ","@), "--strict-allow-scripts"@]
    } else {
        Seq::empty()
    };
    common + restriction + script_packages()
}

/// The arguments that run the install scripts.
pub fn rebuild_arguments(prefix: &str, restricted: bool) -> (arguments: Vec<String>)
    ensures
        arguments.deep_view() == rebuild_query(prefix@, restricted),
{
    let packages = install_script_packages();
    let mut arguments: Vec<String> = vec![
        "rebuild".to_string(),
        "--global".to_string(),
        "--prefix".to_string(),
        prefix.to_string(),
        "--ignore-scripts=false".to_string(),
        "--no-audit".to_string(),
        "--no-fund".to_string(),
    ];
    if restricted {
        arguments.push(cat2("--allow-scripts=", join(&packages, ",").as_str()));
        arguments.push("--strict-allow-scripts".to_string());
    }
    let ghost before = arguments.deep_view();
    let ghost listed = packages.deep_view();
    let mut i: usize = 0;
    assert(before + listed.take(0) =~= before);
    while i < packages.len()
        invariant
            i <= packages.len(),
            listed == packages.deep_view(),
            arguments.deep_view() == before + listed.take(i as int),
        decreases packages.len() - i,
    {
        let ghost held = arguments.deep_view();
        arguments.push(packages[i].clone());
        proof {
            assert(arguments.deep_view() =~= held.push(packages[i as int]@));
            assert(before + listed.take(i + 1) =~= (before + listed.take(i as int)).push(
                listed[i as int],
            ));
        }
        i += 1;
    }
    assert(listed.take(packages.len() as int) =~= listed);
    assert(arguments.deep_view() =~= rebuild_query(prefix@, restricted));
    arguments
}

/// Where the arguments restrict which scripts run, the list that is allowed is the
/// list that is run.
pub proof fn law_allowed_scripts_are_those_that_run(prefix: Seq<char>)
    ensures
        ({
            let query = rebuild_query(prefix, true);
            &&& query.contains("--allow-scripts="@ + joined(script_packages(), ","@))
            &&& query.contains("--strict-allow-scripts"@)
            &&& script_packages().is_suffix_of(query)
        }),
{
    let query = rebuild_query(prefix, true);
    assert(query[7] == "--allow-scripts="@ + joined(script_packages(), ","@));
    assert(query[8] == "--strict-allow-scripts"@);
    assert(query.subrange(query.len() - script_packages().len(), query.len() as int)
        =~= script_packages());
}

/// How far an installation has come.
pub enum GlobalStage {
    Start,
    /// npm is being asked when the version was published.
    Dating,
    /// The directories are being made; the version was published then.
    Preparing(String),
    Installing,
    Rebuilding,
    Done,
}

/// The value of a [`GlobalStage`].
pub enum GlobalStageView {
    Start,
    Dating,
    Preparing(Seq<char>),
    Installing,
    Rebuilding,
    Done,
}

impl View for GlobalStage {
    type V = GlobalStageView;

    open spec fn view(&self) -> GlobalStageView {
        match self {
            GlobalStage::Start => GlobalStageView::Start,
            GlobalStage::Dating => GlobalStageView::Dating,
            GlobalStage::Preparing(time) => GlobalStageView::Preparing(time@),
            GlobalStage::Installing => GlobalStageView::Installing,
            GlobalStage::Rebuilding => GlobalStageView::Rebuilding,
            GlobalStage::Done => GlobalStageView::Done,
        }
    }
}

/// One installation of a version to a prefix. `restricted` says whether npm knows
/// a list of packages whose install scripts may run.
pub struct GlobalInstall {
    pub prefix: String,
    pub version: String,
    pub restricted: bool,
    pub platform: Platform,
    pub stage: GlobalStage,
}

/// What happened outside.
pub enum GlobalEvent {
    /// npm answered when the version was published.
    Dated(Result<String, String>),
    /// The directories are there.
    Prepared,
    /// A directory could not be made, for this reason.
    NotPrepared { directory: String, reason: String },
    /// A command ended; the error says why it failed.
    Ran(Result<(), String>),
}

/// What is to be done outside.
#[derive(Debug)]
pub enum GlobalAction {
    /// npm is to be run with these arguments and its answer read as a time.
    AskTime(Vec<String>),
    /// These directories are to be made.
    MakeDirectories(Vec<String>),
    /// npm is to be run with these arguments.
    Run { arguments: Vec<String>, rebuild: bool },
    Finish(Result<(), String>),
    /// The event did not belong to the stage.
    Ignore,
}

/// The value of a [`GlobalAction`].
#[verifier::ext_equal]
pub enum GlobalActionView {
    AskTime(Seq<Seq<char>>),
    MakeDirectories(Seq<Seq<char>>),
    Run { arguments: Seq<Seq<char>>, rebuild: bool },
    Finish(Result<(), Seq<char>>),
    Ignore,
}

impl View for GlobalAction {
    type V = GlobalActionView;

    open spec fn view(&self) -> GlobalActionView {
        match self {
            GlobalAction::AskTime(arguments) => GlobalActionView::AskTime(arguments.deep_view()),
            GlobalAction::MakeDirectories(list) => GlobalActionView::MakeDirectories(
                list.deep_view(),
            ),
            GlobalAction::Run { arguments, rebuild } => GlobalActionView::Run {
                arguments: arguments.deep_view(),
                rebuild: *rebuild,
            },
            GlobalAction::Finish(result) => GlobalActionView::Finish(
                match result {
                    Ok(()) => Ok(()),
                    Err(reason) => Err(reason@),
                },
            ),
            GlobalAction::Ignore => GlobalActionView::Ignore,
        }
    }
}

/// What npm is run as, for its messages.
pub fn run_description(rebuild: bool) -> (description: &'static str)
    ensures
        description@ == if rebuild {
            "npm rebuild DSH native dependencies"@
        } else {
            "npm install --global"@
        },
{
    if rebuild {
        "npm rebuild DSH native dependencies"
    } else {
        "npm install --global"
    }
}

/// The variables that keep npm quiet.
pub open spec fn quiet_variables() -> Seq<(Seq<char>, Seq<char>)> {
    seq![
        ("npm_config_update_notifier"@, "false"@),
        ("npm_config_audit"@, "false"@),
        ("npm_config_fund"@, "false"@),
    ]
}

/// Runs npm quietly with these arguments.
pub fn quiet_npm_command(
    toolchain: &UserToolchain,
    arguments: &Vec<String>,
    comspec: &Option<String>,
    platform: Platform,
) -> (plan: CommandPlan)
    ensures
        ({
            let base = tool_plan(
                executable_plan(
                    toolchain@.npm,
                    arguments.deep_view(),
                    comspec.deep_view(),
                    platform,
                ),
                toolchain@.environment,
                None,
            );
            plan@ == (CommandPlanView {
                environment: base.environment + quiet_variables(),
                ..base
            })
        }),
{
    let mut plan = command_for_tool(
        toolchain,
        toolchain.npm.as_str(),
        arguments,
        &None,
        comspec,
        platform,
    );
    let ghost base = plan@;
    plan.add_variable("npm_config_update_notifier", "false");
    plan.add_variable("npm_config_audit", "false");
    plan.add_variable("npm_config_fund", "false");
    assert(plan@.environment =~= base.environment + quiet_variables());
    plan
}

/// What an installation begins with: npm is asked when the version was published,
/// unless there is a fault that says why it is none.
pub open spec fn first_step(version: Seq<char>, fault: Option<Seq<char>>) -> GlobalActionView {
    match fault {
        Some(error) => GlobalActionView::Finish(
            Err("拒绝安装无效的 DSH 版本 "@ + debug_form(version) + "："@ + error),
        ),
        None => GlobalActionView::AskTime(publish_time_query(version)),
    }
}

/// What an installation begins with, from why the version is none.
pub fn first_action(version: &str, fault: Option<String>) -> (action: GlobalAction)
    ensures
        action@ == first_step(version@, fault.deep_view()),
{
    match fault {
        Some(error) => GlobalAction::Finish(
            Err(
                cat4(
                    "拒绝安装无效的 DSH 版本 ",
                    debug_text(version).as_str(),
                    "：",
                    error.as_str(),
                ),
            ),
        ),
        None => GlobalAction::AskTime(publish_time_arguments(version)),
    }
}

/// What follows when an installation is begun: one of a text that is no version is
/// over at once. One that was begun before goes on unchanged.
pub open spec fn begin_step(version: Seq<char>, stage: GlobalStageView) -> (
    GlobalStageView,
    GlobalActionView,
) {
    if !(stage is Start) {
        (stage, GlobalActionView::Ignore)
    } else if version_fault(version) is Some {
        (GlobalStageView::Done, first_step(version, version_fault(version)))
    } else {
        (GlobalStageView::Dating, first_step(version, None))
    }
}

/// What follows an event. An event that does not belong to the stage changes
/// nothing.
pub open spec fn global_step(
    prefix: Seq<char>,
    version: Seq<char>,
    restricted: bool,
    platform: Platform,
    stage: GlobalStageView,
    event: GlobalEvent,
) -> (GlobalStageView, GlobalActionView) {
    let ignored = (stage, GlobalActionView::Ignore);
    match event {
        GlobalEvent::Dated(time) => if stage is Dating {
            match time {
                Ok(time) => (
                    GlobalStageView::Preparing(time@),
                    GlobalActionView::MakeDirectories(
                        seq![prefix, modules_of(prefix, platform), commands_of(prefix, platform)],
                    ),
                ),
                Err(reason) => (
                    GlobalStageView::Done,
                    GlobalActionView::Finish(Err(reason@)),
                ),
            }
        } else {
            ignored
        },
        GlobalEvent::Prepared => match stage {
            GlobalStageView::Preparing(time) => (
                GlobalStageView::Installing,
                GlobalActionView::Run {
                    arguments: install_query(prefix, version, time),
                    rebuild: false,
                },
            ),
            _ => ignored,
        },
        GlobalEvent::NotPrepared { directory, reason } => if stage is Preparing {
            (
                GlobalStageView::Done,
                GlobalActionView::Finish(
                    Err("无法创建 "@ + directory@ + "："@ + reason@),
                ),
            )
        } else {
            ignored
        },
        GlobalEvent::Ran(result) => match (stage, result) {
            (GlobalStageView::Installing, Ok(_)) => (
                GlobalStageView::Rebuilding,
                GlobalActionView::Run {
                    arguments: rebuild_query(prefix, restricted),
                    rebuild: true,
                },
            ),
            (GlobalStageView::Rebuilding, Ok(_)) => (
                GlobalStageView::Done,
                GlobalActionView::Finish(Ok(())),
            ),
            (GlobalStageView::Installing, Err(reason)) => (
                GlobalStageView::Done,
                GlobalActionView::Finish(Err(reason@)),
            ),
            (GlobalStageView::Rebuilding, Err(reason)) => (
                GlobalStageView::Done,
                GlobalActionView::Finish(Err(reason@)),
            ),
            _ => ignored,
        },
    }
}

impl GlobalInstall {
    /// The prefix, the version and the restriction stay what they are.
    pub open spec fn same_target(self, other: GlobalInstall) -> bool {
        self.prefix == other.prefix && self.version == other.version && self.restricted
            == other.restricted && self.platform == other.platform
    }

    /// What follows an event for this installation.
    pub open spec fn step(self, event: GlobalEvent) -> (GlobalStageView, GlobalActionView) {
        global_step(
            self.prefix@,
            self.version@,
            self.restricted,
            self.platform,
            self.stage@,
            event,
        )
    }

    /// An installation that has not begun, with a version of npm.
    pub fn new(prefix: &str, version: &str, npm_version: &str, platform: Platform) -> (install:
        GlobalInstall)
        ensures
            install.prefix@ == prefix@,
            install.version@ == version@,
            install.restricted == (semver_parse(npm_version@) is Ok && allows_scripts(
                semver_parse(npm_version@)->Ok_0,
            )),
            install.platform == platform,
            install.stage@ == GlobalStageView::Start,
    {
        GlobalInstall {
            prefix: prefix.to_string(),
            version: version.to_string(),
            restricted: npm_supports_allow_scripts(npm_version),
            platform,
            stage: GlobalStage::Start,
        }
    }

    /// Begins the installation, unless the version is none.
    pub fn begin(&mut self) -> (action: GlobalAction)
        ensures
            final(self).same_target(*old(self)),
            (final(self).stage@, action@) == begin_step(old(self).version@, old(self).stage@),
    {
        if let GlobalStage::Start = self.stage {
            let fault = fault_of_version(self.version.as_str());
            self.stage = match fault {
                Some(_) => GlobalStage::Done,
                None => GlobalStage::Dating,
            };
            return first_action(self.version.as_str(), fault);
        }
        GlobalAction::Ignore
    }

    /// Takes an event and says what is to be done next.
    pub fn advance(&mut self, event: GlobalEvent) -> (action: GlobalAction)
        ensures
            final(self).same_target(*old(self)),
            (final(self).stage@, action@) == old(self).step(event),
    {
        match event {
            GlobalEvent::Dated(time) => {
                if let GlobalStage::Dating = self.stage {
                    match time {
                        Ok(time) => {
                            let prefix = self.prefix.as_str();
                            let directories: Vec<String> = vec![
                                self.prefix.clone(),
                                global_modules_dir(prefix, self.platform),
                                global_bin_dir(prefix, self.platform),
                            ];
                            assert(directories.deep_view() =~= seq![
                                self.prefix@,
                                modules_of(self.prefix@, self.platform),
                                commands_of(self.prefix@, self.platform),
                            ]);
                            self.stage = GlobalStage::Preparing(time);
                            return GlobalAction::MakeDirectories(directories);
                        },
                        Err(reason) => {
                            self.stage = GlobalStage::Done;
                            return GlobalAction::Finish(Err(reason));
                        },
                    }
                }
            },
            GlobalEvent::Prepared => {
                if let GlobalStage::Preparing(time) = &self.stage {
                    let arguments = install_arguments(
                        self.prefix.as_str(),
                        self.version.as_str(),
                        time.as_str(),
                    );
                    self.stage = GlobalStage::Installing;
                    return GlobalAction::Run { arguments, rebuild: false };
                }
            },
            GlobalEvent::NotPrepared { directory, reason } => {
                if let GlobalStage::Preparing(_) = self.stage {
                    self.stage = GlobalStage::Done;
                    return GlobalAction::Finish(
                        Err(cat4("无法创建 ", directory.as_str(), "：", reason.as_str())),
                    );
                }
            },
            GlobalEvent::Ran(result) => {
                match self.stage {
                    GlobalStage::Installing => {
                        match result {
                            Ok(()) => {
                                self.stage = GlobalStage::Rebuilding;
                                return GlobalAction::Run {
                                    arguments: rebuild_arguments(
                                        self.prefix.as_str(),
                                        self.restricted,
                                    ),
                                    rebuild: true,
                                };
                            },
                            Err(reason) => {
                                self.stage = GlobalStage::Done;
                                return GlobalAction::Finish(Err(reason));
                            },
                        }
                    },
                    GlobalStage::Rebuilding => {
                        self.stage = GlobalStage::Done;
                        match result {
                            Ok(()) => {
                                return GlobalAction::Finish(Ok(()));
                            },
                            Err(reason) => {
                                return GlobalAction::Finish(Err(reason));
                            },
                        }
                    },
                    _ => {},
                }
            },
        }
        GlobalAction::Ignore
    }
}

/// A command ended well.
pub open spec fn ran_well(event: GlobalEvent) -> bool {
    event matches GlobalEvent::Ran(result) && result is Ok
}

/// An installation succeeds only at the end of a rebuild that succeeded, and a
/// rebuild begins only after an installation that succeeded.
pub proof fn law_installation_ends_with_the_rebuild(
    prefix: Seq<char>,
    version: Seq<char>,
    restricted: bool,
    platform: Platform,
    stage: GlobalStageView,
    event: GlobalEvent,
)
    ensures
        ({
            let (after, action) = global_step(
                prefix,
                version,
                restricted,
                platform,
                stage,
                event,
            );
            &&& action == GlobalActionView::Finish(Ok(())) ==> stage is Rebuilding && ran_well(
                event,
            )
            &&& after is Rebuilding && !(stage is Rebuilding) ==> stage is Installing && ran_well(
                event,
            )
            &&& after is Installing && !(stage is Installing) ==> stage is Preparing && event
                is Prepared
        }),
{
}

/// The stage of an installation that was begun, after all these events.
pub open spec fn global_run(
    prefix: Seq<char>,
    version: Seq<char>,
    restricted: bool,
    platform: Platform,
    events: Seq<GlobalEvent>,
) -> GlobalStageView
    decreases events.len(),
{
    if events.len() == 0 {
        begin_step(version, GlobalStageView::Start).0
    } else {
        global_step(
            prefix,
            version,
            restricted,
            platform,
            global_run(prefix, version, restricted, platform, events.drop_last()),
            events.last(),
        ).0
    }
}

/// A text that is no version is not installed: the installation is refused as it
/// begins, and nothing is done whatever happens then. Any other text is asked for.
pub proof fn law_invalid_version_is_refused(
    prefix: Seq<char>,
    version: Seq<char>,
    restricted: bool,
    platform: Platform,
    events: Seq<GlobalEvent>,
    event: GlobalEvent,
)
    ensures
        ({
            let (after, action) = begin_step(version, GlobalStageView::Start);
            let later = global_step(
                prefix,
                version,
                restricted,
                platform,
                global_run(prefix, version, restricted, platform, events),
                event,
            );
            match version_fault(version) {
                Some(error) => {
                    &&& after is Done
                    &&& action == GlobalActionView::Finish(
                        Err(
                            "拒绝安装无效的 DSH 版本 "@ + debug_form(version) + "："@ + error,
                        ),
                    )
                    &&& later == (GlobalStageView::Done, GlobalActionView::Ignore)
                },
                None => {
                    &&& after is Dating
                    &&& action == GlobalActionView::AskTime(publish_time_query(version))
                },
            }
        }),
    decreases events.len(),
{
    if events.len() > 0 {
        law_invalid_version_is_refused(
            prefix,
            version,
            restricted,
            platform,
            events.drop_last(),
            events.last(),
        );
    }
}

/// An installation that was not begun does nothing, whatever happens.
pub proof fn law_nothing_happens_before_the_beginning(
    prefix: Seq<char>,
    version: Seq<char>,
    restricted: bool,
    platform: Platform,
    event: GlobalEvent,
)
    ensures
        global_step(prefix, version, restricted, platform, GlobalStageView::Start, event) == (
            GlobalStageView::Start,
            GlobalActionView::Ignore,
        ),
{
}

/// npm is asked for the times of the very version, and installs that version for all,
/// to the prefix, without running any script and from nothing that was published later.
pub proof fn law_npm_is_asked_for_the_version(
    prefix: Seq<char>,
    version: Seq<char>,
    time: Seq<char>,
)
    ensures
        publish_time_query(version) == seq![
            "view"@,
            "@deepseek-ai/dsh"@ + "@"@ + version,
            "time"@,
            "--json"@,
        ],
        install_query(prefix, version, time) == seq![
            "install"@,
            "--global"@,
            "--prefix"@,
            prefix,
            "--omit=dev"@,
            "--no-audit"@,
            "--no-fund"@,
            "--package-lock=false"@,
            "--ignore-scripts"@,
            "--before="@ + time,
            "@deepseek-ai/dsh"@ + "@"@ + version,
        ],
{
}

/// The install scripts of the listed packages are run in the same prefix; where npm
/// knows such a list, it is told that no others may.
pub proof fn law_scripts_run_for_the_listed_packages(prefix: Seq<char>, restricted: bool)
    ensures
        ({
            let query = rebuild_query(prefix, restricted);
            let common = seq![
                "rebuild"@,
                "--global"@,
                "--prefix"@,
                prefix,
                "--ignore-scripts=false"@,
                "--no-audit"@,
                "--no-fund"@,
            ];
            &&& common.is_prefix_of(query)
            &&& script_packages().is_suffix_of(query)
            &&& !restricted ==> query == common + script_packages()
            &&& restricted ==> query == common + seq![
                "--allow-scripts="@ + joined(script_packages(), ","@),
                "--strict-allow-scripts"@,
            ] + script_packages()
        }),
{
    let query = rebuild_query(prefix, restricted);
    let common = seq![
        "rebuild"@,
        "--global"@,
        "--prefix"@,
        prefix,
        "--ignore-scripts=false"@,
        "--no-audit"@,
        "--no-fund"@,
    ];
    assert(query.take(7) =~= common);
    assert(query.subrange(query.len() - script_packages().len(), query.len() as int)
        =~= script_packages());
    if !restricted {
        assert(query =~= common + script_packages());
    }
}

/// npm is kept from looking for its own updates, from auditing and from asking for
/// funds.
pub proof fn law_npm_is_kept_quiet()
    ensures
        last_value(quiet_variables(), "npm_config_update_notifier"@) == Some("false"@),
        last_value(quiet_variables(), "npm_config_audit"@) == Some("false"@),
        last_value(quiet_variables(), "npm_config_fund"@) == Some("false"@),
{
    reveal_strlit("npm_config_update_notifier");
    reveal_strlit("npm_config_audit");
    reveal_strlit("npm_config_fund");
    assert("npm_config_update_notifier"@.len() == 26 && "npm_config_audit"@.len() == 16
        && "npm_config_fund"@.len() == 15);
    let none: Seq<(Seq<char>, Seq<char>)> = Seq::empty();
    let one = none.push(("npm_config_update_notifier"@, "false"@));
    let two = one.push(("npm_config_audit"@, "false"@));
    let three = two.push(("npm_config_fund"@, "false"@));
    assert(quiet_variables() =~= three);
    lemma_last_value(none, ("npm_config_update_notifier"@, "false"@), "npm_config_update_notifier"@);
    lemma_last_value(one, ("npm_config_audit"@, "false"@), "npm_config_update_notifier"@);
    lemma_last_value(two, ("npm_config_fund"@, "false"@), "npm_config_update_notifier"@);
    lemma_last_value(one, ("npm_config_audit"@, "false"@), "npm_config_audit"@);
    lemma_last_value(two, ("npm_config_fund"@, "false"@), "npm_config_audit"@);
    lemma_last_value(two, ("npm_config_fund"@, "false"@), "npm_config_fund"@);
}

/// Once the time of the version is known, the directories are made, npm installs, the
/// scripts are run, and the installation has succeeded, one after the other.
pub proof fn law_installation_goes_step_by_step(
    prefix: Seq<char>,
    version: Seq<char>,
    restricted: bool,
    platform: Platform,
    time: String,
    held: Seq<char>,
)
    ensures
        ({
            let step = |stage: GlobalStageView, event: GlobalEvent|
                global_step(prefix, version, restricted, platform, stage, event);
            &&& step(GlobalStageView::Dating, GlobalEvent::Dated(Ok(time))) == (
                GlobalStageView::Preparing(time@),
                GlobalActionView::MakeDirectories(
                    seq![prefix, modules_of(prefix, platform), commands_of(prefix, platform)],
                ),
            )
            &&& step(GlobalStageView::Preparing(held), GlobalEvent::Prepared) == (
                GlobalStageView::Installing,
                GlobalActionView::Run {
                    arguments: install_query(prefix, version, held),
                    rebuild: false,
                },
            )
            &&& step(GlobalStageView::Installing, GlobalEvent::Ran(Ok(()))) == (
                GlobalStageView::Rebuilding,
                GlobalActionView::Run {
                    arguments: rebuild_query(prefix, restricted),
                    rebuild: true,
                },
            )
            &&& step(GlobalStageView::Rebuilding, GlobalEvent::Ran(Ok(()))) == (
                GlobalStageView::Done,
                GlobalActionView::Finish(Ok(())),
            )
        }),
{
}

/// A step that fails ends the installation with its error, and what does not belong to
/// the stage is ignored.
pub proof fn law_failed_step_ends_the_installation(
    prefix: Seq<char>,
    version: Seq<char>,
    restricted: bool,
    platform: Platform,
    reason: String,
    directory: String,
    held: Seq<char>,
    stage: GlobalStageView,
    event: GlobalEvent,
)
    ensures
        ({
            let step = |stage: GlobalStageView, event: GlobalEvent|
                global_step(prefix, version, restricted, platform, stage, event);
            let failed = (GlobalStageView::Done, GlobalActionView::Finish(Err(reason@)));
            let belongs = match event {
                GlobalEvent::Dated(_) => stage is Dating,
                GlobalEvent::Prepared => stage is Preparing,
                GlobalEvent::NotPrepared { directory, reason } => stage is Preparing,
                GlobalEvent::Ran(_) => stage is Installing || stage is Rebuilding,
            };
            &&& step(GlobalStageView::Dating, GlobalEvent::Dated(Err(reason))) == failed
            &&& step(GlobalStageView::Installing, GlobalEvent::Ran(Err(reason))) == failed
            &&& step(GlobalStageView::Rebuilding, GlobalEvent::Ran(Err(reason))) == failed
            &&& step(
                GlobalStageView::Preparing(held),
                (GlobalEvent::NotPrepared { directory, reason }),
            ) == (
                GlobalStageView::Done,
                GlobalActionView::Finish(Err("无法创建 "@ + directory@ + "："@ + reason@)),
            )
            &&& !belongs ==> step(stage, event) == (stage, GlobalActionView::Ignore)
        }),
{
}

/// An installation goes by its own version and places, keeps them, and can be begun
/// once.
pub proof fn law_installation_goes_by_itself(
    install: GlobalInstall,
    other: GlobalInstall,
    event: GlobalEvent,
    version: Seq<char>,
    stage: GlobalStageView,
)
    ensures
        install.step(event) == global_step(
            install.prefix@,
            install.version@,
            install.restricted,
            install.platform,
            install.stage@,
            event,
        ),
        install.same_target(other) <==> install.prefix == other.prefix && install.version
            == other.version && install.restricted == other.restricted && install.platform
            == other.platform,
        !(stage is Start) ==> begin_step(version, stage) == (stage, GlobalActionView::Ignore),
{
}

} // verus!
