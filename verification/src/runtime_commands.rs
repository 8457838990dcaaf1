//! The commands that the runtimes are run with.

use vstd::prelude::*;

use crate::command::{last_value, lemma_last_value, CommandPlan, CommandPlanView};
use crate::host::{
    directory_opener, log_directory_opener, node_arch, node_arch_name, node_platform,
    node_platform_name, Platform,
};
use crate::launch::{web_arguments, web_command_args};
use crate::node_path::{node_compatible_path, node_form};
use crate::npm::PACKAGE_NAME;
use crate::paths::{below, file_name, join_path, name_of, parent, parent_of};
use crate::runtime::{
    cli_of, runtime_cli, PathsView, RuntimeManager, RuntimeUpdateChannel, StartupInfo,
    StartupInfoView,
};
use crate::text::{cat2, cat3, cat4, same, texts};
use crate::trim::{decimal, decimal_text};
use crate::update_loop::{loop_step, Tick, UpdateLoop};

verus! {

/// The variable that names the program that the launcher runs.
pub const NODE_ENTRY_ENV: &'static str = "DSH_DESKTOP_NODE_ENTRY";

/// The variable that names the directory that the launcher runs it in.
pub const NODE_CWD_ENV: &'static str = "DSH_DESKTOP_NODE_CWD";

/// A command with arguments and variables behind those that it has.
pub open spec fn extended(
    base: CommandPlanView,
    arguments: Seq<Seq<char>>,
    environment: Seq<(Seq<char>, Seq<char>)>,
) -> CommandPlanView {
    CommandPlanView {
        arguments: base.arguments + arguments,
        environment: base.environment + environment,
        ..base
    }
}

/// The directories that come first on `PATH` for Node.js itself.
pub open spec fn node_prefixes(node: Seq<char>, platform: Platform) -> Result<
    Seq<Seq<char>>,
    Seq<char>,
> {
    match parent_of(node, platform) {
        Some(directory) => Ok(seq![directory]),
        None => Err("捆绑的 Node 路径没有父目录："@ + node),
    }
}

/// The directories that come first on `PATH` for Node.js itself.
pub fn node_path_prefixes(node: &str, platform: Platform) -> (prefixes: Result<Vec<String>, String>)
    ensures
        match prefixes {
            Ok(list) => node_prefixes(node@, platform) == Ok::<Seq<Seq<char>>, Seq<char>>(
                list.deep_view(),
            ),
            Err(reason) => node_prefixes(node@, platform) == Err::<Seq<Seq<char>>, Seq<char>>(
                reason@,
            ),
        },
{
    match parent(node, platform) {
        Some(directory) => {
            let ghost text = directory@;
            let mut list: Vec<String> = Vec::new();
            list.push(directory);
            assert(list.deep_view() =~= seq![text]);
            Ok(list)
        },
        None => Err(cat2("捆绑的 Node 路径没有父目录：", node)),
    }
}

/// The directories that come first on `PATH` for a runtime: the one of Node.js,
/// then the programs of the runtime.
pub open spec fn runtime_prefixes(node: Seq<char>, runtime: Seq<char>, platform: Platform) -> Result<
    Seq<Seq<char>>,
    Seq<char>,
> {
    match parent_of(node, platform) {
        Some(directory) => Ok(seq![directory, below(runtime, "node_modules/.bin"@, platform)]),
        None => Err("捆绑的 Node 路径没有父目录："@ + node),
    }
}

/// The directories that come first on `PATH` for a runtime.
pub fn runtime_path_prefixes(node: &str, runtime: &str, platform: Platform) -> (prefixes: Result<
    Vec<String>,
    String,
>)
    ensures
        match prefixes {
            Ok(list) => runtime_prefixes(node@, runtime@, platform) == Ok::<
                Seq<Seq<char>>,
                Seq<char>,
            >(list.deep_view()),
            Err(reason) => runtime_prefixes(node@, runtime@, platform) == Err::<
                Seq<Seq<char>>,
                Seq<char>,
            >(reason@),
        },
{
    match parent(node, platform) {
        Some(directory) => {
            let ghost text = directory@;
            let mut list: Vec<String> = Vec::new();
            list.push(directory);
            list.push(join_path(runtime, "node_modules/.bin", platform));
            assert(list.deep_view() =~= seq![
                text,
                below(runtime@, "node_modules/.bin"@, platform),
            ]);
            Ok(list)
        },
        None => Err(cat2("捆绑的 Node 路径没有父目录：", node)),
    }
}

/// Why no program can be run with the launcher.
pub open spec fn entry_error(
    launcher: Seq<char>,
    path: Result<Seq<char>, Seq<char>>,
    platform: Platform,
) -> Option<Seq<char>> {
    if parent_of(launcher, platform) is None {
        Some("捆绑的 Node 启动器目录无效"@)
    } else if name_of(launcher, platform) is None {
        Some("捆绑的 Node 启动器文件名无效"@)
    } else {
        match path {
            Err(reason) => Some(reason),
            Ok(_) => None,
        }
    }
}

/// `plan` runs a program with the launcher: Node.js is run in the directory of
/// the launcher with its name, and is told the program and its directory.
pub open spec fn runs_entry(
    plan: CommandPlanView,
    paths: PathsView,
    entry: Seq<char>,
    cwd: Seq<char>,
    path: Seq<char>,
    platform: Platform,
) -> bool {
    &&& plan.program == paths.node
    &&& plan.arguments == seq![name_of(paths.node_launcher, platform)->0]
    &&& plan.directory == parent_of(paths.node_launcher, platform)
    &&& plan.inherit
    &&& plan.environment.len() == 3
    &&& plan.environment[0].0 == NODE_ENTRY_ENV@
    &&& node_form(entry, plan.environment[0].1, platform)
    &&& plan.environment[1].0 == NODE_CWD_ENV@
    &&& node_form(cwd, plan.environment[1].1, platform)
    &&& plan.environment[2] == ("PATH"@, path)
}

/// `result` runs a program with the launcher, with more arguments and variables,
/// or says why it cannot.
pub open spec fn entry_outcome(
    result: Result<CommandPlan, String>,
    paths: PathsView,
    entry: Seq<char>,
    cwd: Seq<char>,
    path: Result<Seq<char>, Seq<char>>,
    arguments: Seq<Seq<char>>,
    environment: Seq<(Seq<char>, Seq<char>)>,
    platform: Platform,
) -> bool {
    match entry_error(paths.node_launcher, path, platform) {
        Some(reason) => result matches Err(message) && message@ == reason,
        None => result matches Ok(plan) && exists|base: CommandPlanView| #[trigger]
            runs_entry(base, paths, entry, cwd, path->Ok_0, platform) && plan@ == extended(
                base,
                arguments,
                environment,
            ),
    }
}

/// The arguments with which npm installs what a manifest asks for.
pub open spec fn install_arguments() -> Seq<Seq<char>> {
    seq![
        "install"@,
        "--omit=dev"@,
        "--save-exact"@,
        "--no-audit"@,
        "--no-fund"@,
        "--package-lock=false"@,
    ]
}

/// The variables of a runtime that is started.
pub open spec fn launch_variables(child_path: Seq<char>, dsh_home: Option<Seq<char>>) -> Seq<
    (Seq<char>, Seq<char>),
> {
    let common = seq![("NODE_ENV"@, "production"@), ("DSH_DESKTOP"@, "1"@), ("PATH"@, child_path)];
    match dsh_home {
        Some(home) => common.push(("DSH_HOME"@, home)),
        None => common,
    }
}

/// A test run of the runtime that came with the application.
pub struct SmokeRun {
    pub home: String,
    pub version: String,
    pub runtime: String,
}

impl RuntimeManager {
    /// Runs a program with the launcher. `path` is the `PATH` for Node.js.
    pub fn node_entry_command(&self, entry: &str, cwd: &str, path: Result<String, String>) -> (plan:
        Result<CommandPlan, String>)
        ensures
            match entry_error(self.paths@.node_launcher, texts(path), self.platform) {
                Some(reason) => plan matches Err(message) && message@ == reason,
                None => plan matches Ok(plan) && runs_entry(
                    plan@,
                    self.paths@,
                    entry@,
                    cwd@,
                    texts(path)->Ok_0,
                    self.platform,
                ),
            },
    {
        let directory = match parent(self.paths.node_launcher.as_str(), self.platform) {
            Some(directory) => directory,
            None => {
                return Err("捆绑的 Node 启动器目录无效".to_string());
            },
        };
        let name = match file_name(self.paths.node_launcher.as_str(), self.platform) {
            Some(name) => name,
            None => {
                return Err("捆绑的 Node 启动器文件名无效".to_string());
            },
        };
        let path = match path {
            Ok(path) => path,
            Err(reason) => {
                return Err(reason);
            },
        };
        let mut plan = CommandPlan::new(self.paths.node.as_str());
        plan.add_argument(name.as_str());
        plan.run_in(directory.as_str());
        plan.add_variable(
            NODE_ENTRY_ENV,
            node_compatible_path(entry, self.platform).as_str(),
        );
        plan.add_variable(NODE_CWD_ENV, node_compatible_path(cwd, self.platform).as_str());
        plan.add_variable("PATH", path.as_str());
        assert(plan@.arguments =~= seq![name@]);
        Ok(plan)
    }

    /// Starts a runtime. `path` is the `PATH` for Node.js, `child_path` the one for
    /// the runtime.
    pub fn launch_command(
        &self,
        runtime: &str,
        dsh_home: &Option<String>,
        home: &str,
        suppress_browser: bool,
        path: Result<String, String>,
        child_path: Result<String, String>,
    ) -> (plan: Result<CommandPlan, String>)
        ensures
            if entry_error(self.paths@.node_launcher, texts(path), self.platform) is None
                && child_path is Err {
                plan matches Err(message) && message@ == texts(child_path)->Err_0
            } else {
                entry_outcome(
                    plan,
                    self.paths@,
                    cli_of(runtime@, self.platform),
                    home@,
                    texts(path),
                    web_arguments(suppress_browser),
                    launch_variables(texts(child_path)->Ok_0, dsh_home.deep_view()),
                    self.platform,
                )
            },
            plan matches Ok(plan) ==> last_value(plan@.environment, "NODE_ENV"@) == Some(
                "production"@,
            ) && last_value(plan@.environment, "DSH_DESKTOP"@) == Some("1"@) && last_value(
                plan@.environment,
                "PATH"@,
            ) == Some(texts(child_path)->Ok_0) && last_value(plan@.environment, "DSH_HOME"@)
                == dsh_home.deep_view(),
    {
        let ghost given_home = home@;
        let ghost given_path = texts(path);
        let cli = runtime_cli(runtime, self.platform);
        let mut plan = self.node_entry_command(cli.as_str(), home, path)?;
        let child_path = child_path?;
        let ghost base = plan@;
        let arguments = web_command_args(suppress_browser);
        plan.add_arguments(&arguments);
        plan.add_variable("NODE_ENV", "production");
        plan.add_variable("DSH_DESKTOP", "1");
        plan.add_variable("PATH", child_path.as_str());
        if let Some(home) = dsh_home {
            plan.add_variable("DSH_HOME", home.as_str());
        }
        proof {
            let wanted = extended(
                base,
                web_arguments(suppress_browser),
                launch_variables(child_path@, dsh_home.deep_view()),
            );
            assert(plan@.environment =~= wanted.environment);
            assert(plan@ == wanted);
            law_started_runtime_has_its_variables(
                base.environment,
                child_path@,
                dsh_home.deep_view(),
            );
            lemma_no_home(
                base,
                self.paths@,
                cli@,
                given_home,
                given_path->Ok_0,
                self.platform,
            );
        }
        Ok(plan)
    }

    /// Asks npm for the version of a channel.
    pub fn view_command(&self, channel: RuntimeUpdateChannel, path: Result<String, String>) -> (plan:
        Result<CommandPlan, String>)
        ensures
            entry_outcome(
                plan,
                self.paths@,
                self.paths@.npm_cli,
                self.paths@.npm_cache,
                texts(path),
                seq!["view"@, PACKAGE_NAME@, "dist-tags."@ + channel.tag(), "--json"@],
                seq![
                    ("npm_config_cache"@, self.paths@.npm_cache),
                    ("npm_config_update_notifier"@, "false"@),
                ],
                self.platform,
            ),
    {
        let mut plan = self.node_entry_command(
            self.paths.npm_cli.as_str(),
            self.paths.npm_cache.as_str(),
            path,
        )?;
        let ghost base = plan@;
        plan.add_argument("view");
        plan.add_argument(PACKAGE_NAME);
        plan.add_argument(cat2("dist-tags.", channel.dist_tag()).as_str());
        plan.add_argument("--json");
        plan.add_variable("npm_config_cache", self.paths.npm_cache.as_str());
        plan.add_variable("npm_config_update_notifier", "false");
        proof {
            let wanted = extended(
                base,
                seq!["view"@, PACKAGE_NAME@, "dist-tags."@ + channel.tag(), "--json"@],
                seq![
                    ("npm_config_cache"@, self.paths@.npm_cache),
                    ("npm_config_update_notifier"@, "false"@),
                ],
            );
            assert(plan@.arguments =~= wanted.arguments);
            assert(plan@.environment =~= wanted.environment);
            assert(plan@ == wanted);
        }
        Ok(plan)
    }

    /// Installs what the manifest in the staging directory asks for.
    pub fn install_command(&self, stage: &str, path: Result<String, String>) -> (plan: Result<
        CommandPlan,
        String,
    >)
        ensures
            entry_outcome(
                plan,
                self.paths@,
                self.paths@.npm_cli,
                stage@,
                texts(path),
                install_arguments(),
                seq![
                    ("npm_config_cache"@, self.paths@.npm_cache),
                    ("npm_config_update_notifier"@, "false"@),
                    ("npm_config_strict_allow_scripts"@, "true"@),
                ],
                self.platform,
            ),
    {
        let mut plan = self.node_entry_command(self.paths.npm_cli.as_str(), stage, path)?;
        let ghost base = plan@;
        plan.add_argument("install");
        plan.add_argument("--omit=dev");
        plan.add_argument("--save-exact");
        plan.add_argument("--no-audit");
        plan.add_argument("--no-fund");
        plan.add_argument("--package-lock=false");
        plan.add_variable("npm_config_cache", self.paths.npm_cache.as_str());
        plan.add_variable("npm_config_update_notifier", "false");
        plan.add_variable("npm_config_strict_allow_scripts", "true");
        proof {
            let wanted = extended(
                base,
                install_arguments(),
                seq![
                    ("npm_config_cache"@, self.paths@.npm_cache),
                    ("npm_config_update_notifier"@, "false"@),
                    ("npm_config_strict_allow_scripts"@, "true"@),
                ],
            );
            assert(plan@.arguments =~= wanted.arguments);
            assert(plan@.environment =~= wanted.environment);
            assert(plan@ == wanted);
        }
        Ok(plan)
    }

    /// Asks a staged runtime for its version.
    pub fn version_command(&self, stage: &str, path: Result<String, String>) -> (plan: Result<
        CommandPlan,
        String,
    >)
        ensures
            entry_outcome(
                plan,
                self.paths@,
                cli_of(stage@, self.platform),
                stage@,
                texts(path),
                seq!["--version"@],
                Seq::empty(),
                self.platform,
            ),
    {
        let cli = runtime_cli(stage, self.platform);
        let mut plan = self.node_entry_command(cli.as_str(), stage, path)?;
        let ghost base = plan@;
        plan.add_argument("--version");
        proof {
            let wanted = extended(base, seq!["--version"@], Seq::empty());
            assert(plan@.arguments =~= wanted.arguments);
            assert(plan@.environment =~= wanted.environment);
            assert(plan@ == wanted);
        }
        Ok(plan)
    }

    /// Shows the directory of the logs.
    pub fn open_logs(&self) -> (plan: CommandPlan)
        ensures
            plan@ == (CommandPlanView {
                program: directory_opener(self.platform),
                arguments: seq![self.paths@.logs],
                directory: None,
                inherit: true,
                environment: Seq::empty(),
            }),
    {
        let mut plan = CommandPlan::new(log_directory_opener(self.platform));
        plan.add_argument(self.paths.logs.as_str());
        assert(plan@.arguments =~= seq![self.paths@.logs]);
        plan
    }

    /// The log of the application.
    pub fn desktop_log(&self) -> (path: String)
        ensures
            path@ == below(self.paths@.logs, "desktop.log"@, self.platform),
    {
        join_path(self.paths.logs.as_str(), "desktop.log", self.platform)
    }

    /// The log of the runtime.
    pub fn runtime_log(&self) -> (path: String)
        ensures
            path@ == below(self.paths@.logs, "dsh.log"@, self.platform),
    {
        join_path(self.paths.logs.as_str(), "dsh.log", self.platform)
    }

    /// A test run of the runtime that came with the application.
    pub fn smoke_bundled_runtime(&self, process_id: u32, now: u64) -> (run: SmokeRun)
        ensures
            run.home@ == below(
                self.paths@.smoke,
                "packaged-"@ + decimal(process_id as nat) + "-"@ + decimal(now as nat),
                self.platform,
            ),
            run.version@ == self.manifest.dsh_version@,
            run.runtime@ == self.paths@.bundled_runtime,
    {
        let name = cat4(
            "packaged-",
            decimal_text(process_id as u64).as_str(),
            "-",
            decimal_text(now).as_str(),
        );
        SmokeRun {
            home: join_path(self.paths.smoke.as_str(), name.as_str(), self.platform),
            version: self.manifest.dsh_version.clone(),
            runtime: self.paths.bundled_runtime.clone(),
        }
    }

    /// Wakes the loop of checks and says what it does next. `checked` says that the
    /// check it asked for was made.
    pub fn wait_for_update_tick(&self, checks: &mut UpdateLoop, now: u64, checked: bool) -> (next:
        Tick)
        ensures
            (*final(checks), next) == loop_step(
                *old(checks),
                now,
                self@.shutting_down,
                checked,
            ),
    {
        checks.wake(now, self.shutting_down, checked)
    }
}

impl SmokeRun {
    /// The result of the test run, from the address that the runtime announced.
    pub fn report(&self, launch: Result<String, String>) -> (result: Result<StartupInfo, String>)
        ensures
            match launch {
                Ok(url) => result matches Ok(info) && info@ == (StartupInfoView {
                    url: url@,
                    dsh_version: self.version@,
                }),
                Err(error) => result matches Err(message) && message@ == error@,
            },
    {
        match launch {
            Ok(url) => Ok(StartupInfo { url, dsh_version: self.version.clone() }),
            Err(error) => Err(error),
        }
    }
}

/// The directory with the parts of a runtime that are made for one system each.
pub fn prebuilds_directory(runtime: &str, platform: Platform) -> (path: String)
    ensures
        path@ == below(runtime@, "node_modules/node-pty/prebuilds"@, platform),
{
    join_path(runtime, "node_modules/node-pty/prebuilds", platform)
}

/// The name of the part that is made for this system.
pub open spec fn own_prebuild(os: Seq<char>, arch: Seq<char>) -> Seq<char> {
    node_platform(os) + "-"@ + node_arch(arch)
}

/// The parts that are made for other systems, in the order of the entries.
pub fn prune_other_platforms(entries: &Vec<String>, os: &str, arch: &str) -> (foreign: Vec<String>)
    ensures
        foreign.deep_view() == entries.deep_view().filter(
            |entry: Seq<char>| entry != own_prebuild(os@, arch@),
        ),
{
    let retained = cat3(node_platform_name(os), "-", node_arch_name(arch));
    let ghost keep = |entry: Seq<char>| entry != own_prebuild(os@, arch@);
    let mut foreign: Vec<String> = Vec::new();
    let mut i: usize = 0;
    proof {
        assert(entries.deep_view().take(0) =~= Seq::empty());
        reveal(Seq::filter);
        assert(foreign.deep_view() =~= entries.deep_view().take(0).filter(keep));
    }
    while i < entries.len()
        invariant
            i <= entries.len(),
            retained@ == own_prebuild(os@, arch@),
            keep == (|entry: Seq<char>| entry != own_prebuild(os@, arch@)),
            foreign.deep_view() == entries.deep_view().take(i as int).filter(keep),
        decreases entries.len() - i,
    {
        let ghost before = foreign.deep_view();
        let ghost part = entries.deep_view().take(i + 1);
        proof {
            reveal(Seq::filter);
            assert(part.drop_last() =~= entries.deep_view().take(i as int));
            assert(part.last() == entries[i as int]@);
        }
        if !same(entries[i].as_str(), retained.as_str()) {
            foreign.push(entries[i].clone());
            assert(foreign.deep_view() =~= before.push(entries[i as int]@));
        }
        i += 1;
    }
    assert(entries.deep_view().take(entries.len() as int) =~= entries.deep_view());
    foreign
}

/// The part that is made for this system is kept.
pub proof fn law_own_prebuild_is_kept(entries: Seq<Seq<char>>, os: Seq<char>, arch: Seq<char>)
    ensures
        !entries.filter(|entry: Seq<char>| entry != own_prebuild(os, arch)).contains(
            own_prebuild(os, arch),
        ),
{
    let keep = |entry: Seq<char>| entry != own_prebuild(os, arch);
    let foreign = entries.filter(keep);
    assert forall|i: int| 0 <= i < foreign.len() implies #[trigger] foreign[i] != own_prebuild(
        os,
        arch,
    ) by {
        entries.lemma_filter_pred(keep, i);
    }
}

/// A program that is run with the launcher is run by the Node.js that came with the
/// application, in the directory of the launcher; the launcher is told the program, its
/// directory and the `PATH`.
pub proof fn law_launcher_is_told_what_to_run(
    plan: CommandPlanView,
    paths: PathsView,
    entry: Seq<char>,
    cwd: Seq<char>,
    path: Seq<char>,
    platform: Platform,
)
    requires
        runs_entry(plan, paths, entry, cwd, path, platform),
    ensures
        plan.program == paths.node,
        plan.arguments == seq![name_of(paths.node_launcher, platform)->0],
        plan.directory == parent_of(paths.node_launcher, platform),
        plan.inherit,
        last_value(plan.environment, "DSH_DESKTOP_NODE_ENTRY"@) is Some,
        node_form(
            entry,
            last_value(plan.environment, "DSH_DESKTOP_NODE_ENTRY"@)->0,
            platform,
        ),
        last_value(plan.environment, "DSH_DESKTOP_NODE_CWD"@) is Some,
        node_form(cwd, last_value(plan.environment, "DSH_DESKTOP_NODE_CWD"@)->0, platform),
        last_value(plan.environment, "PATH"@) == Some(path),
        plan.environment.len() == 3,
{
    reveal_strlit("DSH_DESKTOP_NODE_ENTRY");
    reveal_strlit("DSH_DESKTOP_NODE_CWD");
    reveal_strlit("PATH");
    let none: Seq<(Seq<char>, Seq<char>)> = Seq::empty();
    let one = none.push(plan.environment[0]);
    let two = one.push(plan.environment[1]);
    let three = two.push(plan.environment[2]);
    assert(plan.environment =~= three);
    assert("DSH_DESKTOP_NODE_ENTRY"@.len() != "DSH_DESKTOP_NODE_CWD"@.len());
    assert("PATH"@.len() != "DSH_DESKTOP_NODE_CWD"@.len());
    assert("PATH"@.len() != "DSH_DESKTOP_NODE_ENTRY"@.len());
    lemma_last_value(none, plan.environment[0], "DSH_DESKTOP_NODE_ENTRY"@);
    lemma_last_value(one, plan.environment[1], "DSH_DESKTOP_NODE_ENTRY"@);
    lemma_last_value(two, plan.environment[2], "DSH_DESKTOP_NODE_ENTRY"@);
    lemma_last_value(one, plan.environment[1], "DSH_DESKTOP_NODE_CWD"@);
    lemma_last_value(two, plan.environment[2], "DSH_DESKTOP_NODE_CWD"@);
    lemma_last_value(two, plan.environment[2], "PATH"@);
}

/// A command that is extended keeps its program, its directory and its own arguments
/// and variables, in front of those that are added.
pub proof fn law_extended_command_keeps_its_own(
    base: CommandPlanView,
    arguments: Seq<Seq<char>>,
    environment: Seq<(Seq<char>, Seq<char>)>,
)
    ensures
        ({
            let plan = extended(base, arguments, environment);
            &&& plan.program == base.program
            &&& plan.directory == base.directory
            &&& plan.inherit == base.inherit
            &&& plan.arguments == base.arguments + arguments
            &&& plan.environment == base.environment + environment
        }),
{
}

/// Whatever is started, with a home directory of its own or without one, and whatever
/// its command held before: it runs in production, knows that the application started
/// it, finds programs on the path for it, and has a home directory of its own exactly
/// where one is given.
pub proof fn law_started_runtime_has_its_variables(
    before: Seq<(Seq<char>, Seq<char>)>,
    child_path: Seq<char>,
    dsh_home: Option<Seq<char>>,
)
    ensures
        ({
            let environment = before + launch_variables(child_path, dsh_home);
            &&& last_value(environment, "NODE_ENV"@) == Some("production"@)
            &&& last_value(environment, "DSH_DESKTOP"@) == Some("1"@)
            &&& last_value(environment, "PATH"@) == Some(child_path)
            &&& dsh_home is Some ==> last_value(environment, "DSH_HOME"@) == dsh_home
            &&& dsh_home is None ==> last_value(environment, "DSH_HOME"@) == last_value(
                before,
                "DSH_HOME"@,
            )
        }),
{
    reveal_strlit("NODE_ENV");
    reveal_strlit("DSH_DESKTOP");
    reveal_strlit("PATH");
    reveal_strlit("DSH_HOME");
    assert("NODE_ENV"@[0] == 'N' && "DSH_HOME"@[0] == 'D');
    assert("DSH_DESKTOP"@.len() == 11 && "PATH"@.len() == 4 && "NODE_ENV"@.len() == 8
        && "DSH_HOME"@.len() == 8);
    let one = before.push(("NODE_ENV"@, "production"@));
    let two = one.push(("DSH_DESKTOP"@, "1"@));
    let three = two.push(("PATH"@, child_path));
    assert forall|name: Seq<char>|
        #![trigger last_value(three, name)]
        last_value(three, name) == (if name == "PATH"@ {
            Some(child_path)
        } else if name == "DSH_DESKTOP"@ {
            Some("1"@)
        } else if name == "NODE_ENV"@ {
            Some("production"@)
        } else {
            last_value(before, name)
        }) by {
        lemma_last_value(before, ("NODE_ENV"@, "production"@), name);
        lemma_last_value(one, ("DSH_DESKTOP"@, "1"@), name);
        lemma_last_value(two, ("PATH"@, child_path), name);
    }
    let environment = before + launch_variables(child_path, dsh_home);
    match dsh_home {
        None => {
            assert(environment =~= three);
        },
        Some(home) => {
            assert(environment =~= three.push(("DSH_HOME"@, home)));
            lemma_last_value(three, ("DSH_HOME"@, home), "NODE_ENV"@);
            lemma_last_value(three, ("DSH_HOME"@, home), "DSH_DESKTOP"@);
            lemma_last_value(three, ("DSH_HOME"@, home), "PATH"@);
            lemma_last_value(three, ("DSH_HOME"@, home), "DSH_HOME"@);
        },
    }
}

/// Every launch that can be planned starts the local server of the runtime with the
/// Node.js that came with the application; its variables are those of a runtime that
/// is started, and it has no home directory of its own unless one is given.
pub proof fn law_planned_launch_starts_the_runtime(
    plan: CommandPlan,
    paths: PathsView,
    runtime: Seq<char>,
    home: Seq<char>,
    suppress_browser: bool,
    path: Result<Seq<char>, Seq<char>>,
    child_path: Seq<char>,
    dsh_home: Option<Seq<char>>,
    platform: Platform,
)
    requires
        entry_outcome(
            Ok(plan),
            paths,
            cli_of(runtime, platform),
            home,
            path,
            web_arguments(suppress_browser),
            launch_variables(child_path, dsh_home),
            platform,
        ),
    ensures
        plan@.program == paths.node,
        plan@.arguments == seq![name_of(paths.node_launcher, platform)->0] + web_arguments(
            suppress_browser,
        ),
        plan@.directory == parent_of(paths.node_launcher, platform),
        last_value(plan@.environment, "NODE_ENV"@) == Some("production"@),
        last_value(plan@.environment, "DSH_DESKTOP"@) == Some("1"@),
        last_value(plan@.environment, "PATH"@) == Some(child_path),
        last_value(plan@.environment, "DSH_HOME"@) == dsh_home,
        path is Ok,
{
    let base = choose|base: CommandPlanView| #[trigger]
        runs_entry(
            base,
            paths,
            cli_of(runtime, platform),
            home,
            path->Ok_0,
            platform,
        ) && plan@ == extended(
            base,
            web_arguments(suppress_browser),
            launch_variables(child_path, dsh_home),
        );
    law_started_runtime_has_its_variables(base.environment, child_path, dsh_home);
    lemma_no_home(
        base,
        paths,
        cli_of(runtime, platform),
        home,
        path->Ok_0,
        platform,
    );
}

proof fn lemma_no_home(
    plan: CommandPlanView,
    paths: PathsView,
    entry: Seq<char>,
    cwd: Seq<char>,
    path: Seq<char>,
    platform: Platform,
)
    requires
        runs_entry(plan, paths, entry, cwd, path, platform),
    ensures
        last_value(plan.environment, "DSH_HOME"@) is None,
{
    reveal_strlit("DSH_DESKTOP_NODE_ENTRY");
    reveal_strlit("DSH_DESKTOP_NODE_CWD");
    reveal_strlit("PATH");
    reveal_strlit("DSH_HOME");
    let none: Seq<(Seq<char>, Seq<char>)> = Seq::empty();
    let one = none.push(plan.environment[0]);
    let two = one.push(plan.environment[1]);
    let three = two.push(plan.environment[2]);
    assert(plan.environment =~= three);
    assert("DSH_HOME"@.len() == 8 && "PATH"@.len() == 4);
    lemma_last_value(none, plan.environment[0], "DSH_HOME"@);
    lemma_last_value(one, plan.environment[1], "DSH_HOME"@);
    lemma_last_value(two, plan.environment[2], "DSH_HOME"@);
}

/// A program can be run with the launcher exactly where the launcher has a directory
/// and a name and the `PATH` could be made; otherwise the error says which is wrong.
pub proof fn law_launcher_needs_a_place_and_a_path(
    launcher: Seq<char>,
    path: Result<Seq<char>, Seq<char>>,
    platform: Platform,
)
    ensures
        ({
            let error = entry_error(launcher, path, platform);
            &&& error is None <==> parent_of(launcher, platform) is Some && name_of(
                launcher,
                platform,
            ) is Some && path is Ok
            &&& parent_of(launcher, platform) is None ==> error == Some(
                "捆绑的 Node 启动器目录无效"@,
            )
            &&& parent_of(launcher, platform) is Some && name_of(launcher, platform) is None
                ==> error == Some("捆绑的 Node 启动器文件名无效"@)
            &&& parent_of(launcher, platform) is Some && name_of(launcher, platform) is Some
                && path is Err ==> error == Some(path->Err_0)
        }),
{
}

/// What is planned is what can be run: a plan comes exactly where there is no error,
/// with its own arguments and variables behind those of the launcher.
pub proof fn law_entry_outcome_is_a_plan_or_its_error(
    result: Result<CommandPlan, String>,
    paths: PathsView,
    entry: Seq<char>,
    cwd: Seq<char>,
    path: Result<Seq<char>, Seq<char>>,
    arguments: Seq<Seq<char>>,
    environment: Seq<(Seq<char>, Seq<char>)>,
    platform: Platform,
)
    requires
        entry_outcome(result, paths, entry, cwd, path, arguments, environment, platform),
    ensures
        result is Ok <==> entry_error(paths.node_launcher, path, platform) is None,
        result matches Err(message) ==> Some(message@) == entry_error(
            paths.node_launcher,
            path,
            platform,
        ),
        result matches Ok(plan) ==> plan@.program == paths.node && plan@.arguments == seq![
            name_of(paths.node_launcher, platform)->0,
        ] + arguments && plan@.directory == parent_of(paths.node_launcher, platform)
            && environment.is_suffix_of(plan@.environment) && plan@.environment.len() == 3
            + environment.len() && plan@.environment[2] == ("PATH"@, path->Ok_0),
{
    if let Ok(plan) = result {
        let base = choose|base: CommandPlanView| #[trigger]
            runs_entry(base, paths, entry, cwd, path->Ok_0, platform) && plan@ == extended(
                base,
                arguments,
                environment,
            );
        assert(plan@.environment.skip(3) =~= environment);
        assert(plan@.environment.subrange(
            plan@.environment.len() - environment.len(),
            plan@.environment.len() as int,
        ) =~= environment);
    }
}

/// For Node.js itself the directory of its program comes first on the path; for a
/// runtime the programs of its packages follow.
pub proof fn law_first_directories_of_the_path(
    node: Seq<char>,
    runtime: Seq<char>,
    platform: Platform,
)
    ensures
        ({
            let directory = parent_of(node, platform);
            let own = node_prefixes(node, platform);
            let all = runtime_prefixes(node, runtime, platform);
            &&& directory is Some ==> own is Ok && own->Ok_0 == seq![directory->0]
            &&& directory is Some ==> all is Ok && all->Ok_0 == seq![
                directory->0,
                below(runtime, "node_modules/.bin"@, platform),
            ]
            &&& directory is None ==> own is Err && all is Err && own->Err_0
                == "捆绑的 Node 路径没有父目录："@ + node && all->Err_0 == own->Err_0
        }),
{
}

/// npm installs exactly what the manifest asks for, without what only development
/// needs, and writes no lock file.
pub proof fn law_staged_installation_is_exact()
    ensures
        install_arguments() == seq![
            "install"@,
            "--omit=dev"@,
            "--save-exact"@,
            "--no-audit"@,
            "--no-fund"@,
            "--package-lock=false"@,
        ],
{
}

/// The part that is kept is named after the operating system and the processor, as
/// Node.js calls them.
pub proof fn law_own_prebuild_is_named_after_the_system(os: Seq<char>, arch: Seq<char>)
    ensures
        own_prebuild(os, arch) == node_platform(os) + "-"@ + node_arch(arch),
{
}

} // verus!
