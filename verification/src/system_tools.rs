//! The user's own Node.js and npm: how they are found, how they are run, and
//! where npm puts what it installs.

use vstd::prelude::*;
use vstd::utf8::{decode_utf8, valid_utf8};

use crate::command::{
    copy_environment, last_value, lemma_last_value, CommandPlan, CommandPlanView,
};
use crate::host::Platform;
use crate::node_path::{node_compatible_path, node_form};
use crate::npm::{
    json_members_form, json_string_form, lossy_form, lossy_text, npm_version,
    parse_npm_publish_time, parse_npm_version, publish_time, strict_text, utf8_error,
};
use crate::paths::{
    absolute, below, equal_ignoring_case, extension, extension_of, file_name, first_found,
    first_held, is_absolute, join_path, name_of, same_ignoring_case, same_path, same_place,
    FoundPaths,
};
use crate::text::{
    after_last, behind_last, cat2, cat3, cat4, cat6, contains, contains_any, ends_with, has_any,
    has_text, occurs_at, same, texts,
};
use crate::trim::{
    lines, lines_of, lower, lowered, split_at_first, split_once, strip_front, strip_leading, trim,
    trimmed, CharClass,
};
use crate::version::{
    debug_form, debug_text, fault_of_named, named_fault, semver_parse, supported_node,
    supported_node_version,
};

verus! {

/// The line behind which the login shell prints its environment.
pub const SHELL_ENV_MARKER: &'static str = "__DSH_DESKTOP_ENV__";

/// The first line of what is added to a profile.
pub const PROFILE_BLOCK_START: &'static str = "# >>> DSH Desktop >>>";

/// The last line of what is added to a profile.
pub const PROFILE_BLOCK_END: &'static str = "# <<< DSH Desktop <<<";

/// A variable with its value.
pub type EnvironmentEntry = (String, String);

/// The user's own tools.
#[derive(Debug)]
pub struct UserToolchain {
    pub environment: Vec<EnvironmentEntry>,
    pub shell: Option<String>,
    pub node: String,
    pub npm: String,
    pub node_version: String,
    pub npm_version: String,
}

/// The value of a [`UserToolchain`].
#[verifier::ext_equal]
pub struct UserToolchainView {
    pub environment: Seq<(Seq<char>, Seq<char>)>,
    pub shell: Option<Seq<char>>,
    pub node: Seq<char>,
    pub npm: Seq<char>,
    pub node_version: Seq<char>,
    pub npm_version: Seq<char>,
}

impl View for UserToolchain {
    type V = UserToolchainView;

    open spec fn view(&self) -> UserToolchainView {
        UserToolchainView {
            environment: self.environment.deep_view(),
            shell: self.shell.deep_view(),
            node: self.node@,
            npm: self.npm@,
            node_version: self.node_version@,
            npm_version: self.npm_version@,
        }
    }
}

impl Clone for UserToolchain {
    fn clone(&self) -> (copy: UserToolchain)
        ensures
            copy@ == self@,
    {
        UserToolchain {
            environment: copy_environment(&self.environment),
            shell: self.shell.clone(),
            node: self.node.clone(),
            npm: self.npm.clone(),
            node_version: self.node_version.clone(),
            npm_version: self.npm_version.clone(),
        }
    }
}

/// Two names of variables are one: on Windows whatever the case of their
/// letters.
pub open spec fn same_variable(left: Seq<char>, right: Seq<char>, platform: Platform) -> bool {
    if platform.windows() {
        same_ignoring_case(left, right)
    } else {
        left == right
    }
}

/// The value of a variable: of the first entry with that name.
pub open spec fn value_of(
    environment: Seq<(Seq<char>, Seq<char>)>,
    name: Seq<char>,
    platform: Platform,
) -> Option<Seq<char>>
    decreases environment.len(),
{
    if environment.len() == 0 {
        None
    } else if same_variable(environment[0].0, name, platform) {
        Some(environment[0].1)
    } else {
        value_of(environment.drop_first(), name, platform)
    }
}

/// The value of a variable.
pub fn environment_value(environment: &Vec<EnvironmentEntry>, name: &str, platform: Platform) -> (
    value: Option<String>)
    ensures
        value.deep_view() == value_of(environment.deep_view(), name@, platform),
{
    let ghost all = environment.deep_view();
    assert(all.skip(0) =~= all);
    let mut i: usize = 0;
    while i < environment.len()
        invariant
            i <= environment.len(),
            all == environment.deep_view(),
            value_of(all, name@, platform) == value_of(all.skip(i as int), name@, platform),
        decreases environment.len() - i,
    {
        proof {
            assert(all.skip(i as int)[0] == environment@[i as int].deep_view());
            assert(all.skip(i as int).drop_first() =~= all.skip(i + 1));
        }
        let key = environment[i].0.as_str();
        let found = if platform.is_windows() {
            equal_ignoring_case(key, name)
        } else {
            same(key, name)
        };
        if found {
            return Some(environment[i].1.clone());
        }
        i += 1;
    }
    None
}

/// The entries on lines of the form `NAME=value`; lines without `=` or without a
/// name are left out.
pub open spec fn entries_of(list: Seq<Seq<char>>) -> Seq<(Seq<char>, Seq<char>)>
    decreases list.len(),
{
    if list.len() == 0 {
        Seq::empty()
    } else {
        let rest = entries_of(list.drop_last());
        match split_once(list.last(), '=') {
            Some((name, value)) if name.len() > 0 => rest.push((name, value)),
            _ => rest,
        }
    }
}

fn read_entries(list: &Vec<String>) -> (entries: Vec<EnvironmentEntry>)
    ensures
        entries.deep_view() == entries_of(list.deep_view()),
{
    let mut entries: Vec<EnvironmentEntry> = Vec::new();
    let mut i: usize = 0;
    assert(entries.deep_view() =~= entries_of(list.deep_view().take(0)));
    while i < list.len()
        invariant
            i <= list.len(),
            entries.deep_view() == entries_of(list.deep_view().take(i as int)),
        decreases list.len() - i,
    {
        let ghost held = entries.deep_view();
        let ghost part = list.deep_view().take(i + 1);
        proof {
            assert(part.drop_last() =~= list.deep_view().take(i as int));
            assert(part.last() == list[i as int]@);
        }
        if let Some((name, value)) = split_at_first(list[i].as_str(), '=') {
            if !name.as_str().is_empty() {
                let ghost entry = (name@, value@);
                entries.push((name, value));
                assert(entries.deep_view() =~= held.push(entry));
            }
        }
        i += 1;
    }
    assert(list.deep_view().take(list.len() as int) =~= list.deep_view());
    entries
}

/// The environment that a login shell printed behind the marker.
pub open spec fn login_environment(output: Seq<char>, errors: Seq<char>, platform: Platform) -> Result<
    Seq<(Seq<char>, Seq<char>)>,
    Seq<char>,
> {
    match after_last(output, SHELL_ENV_MARKER@ + "\n"@) {
        None => Err("登录终端没有返回环境变量："@ + trimmed(errors)),
        Some(text) => {
            let entries = entries_of(lines_of(text));
            if value_of(entries, "PATH"@, platform) is None {
                Err("登录终端没有提供 PATH。请确认 Node.js 可以在新终端中运行。"@)
            } else {
                Ok(entries)
            }
        },
    }
}

/// The value of a list of entries, or of the error in its place.
pub open spec fn entries_view(result: Result<Vec<EnvironmentEntry>, String>) -> Result<
    Seq<(Seq<char>, Seq<char>)>,
    Seq<char>,
> {
    match result {
        Ok(entries) => Ok(entries.deep_view()),
        Err(reason) => Err(reason@),
    }
}

/// The environment that a login shell printed.
pub fn user_environment(stdout: &Vec<u8>, stderr: &Vec<u8>, platform: Platform) -> (entries: Result<
    Vec<EnvironmentEntry>,
    String,
>)
    ensures
        entries_view(entries) == login_environment(
            lossy_form(stdout@),
            lossy_form(stderr@),
            platform,
        ),
{
    user_environment_from(
        lossy_text(stdout.as_slice()).as_str(),
        lossy_text(stderr.as_slice()).as_str(),
        platform,
    )
}

/// The environment that a login shell printed, from its output as text.
pub fn user_environment_from(output: &str, errors: &str, platform: Platform) -> (entries: Result<
    Vec<EnvironmentEntry>,
    String,
>)
    ensures
        entries_view(entries) == login_environment(output@, errors@, platform),
{
    let marker = cat2(SHELL_ENV_MARKER, "\n");
    match behind_last(output, marker.as_str()) {
        None => Err(cat2("登录终端没有返回环境变量：", trim(errors).as_str())),
        Some(text) => {
            let entries = read_entries(&lines(text.as_str()));
            if environment_value(&entries, "PATH", platform).is_none() {
                Err(
                    "登录终端没有提供 PATH。请确认 Node.js 可以在新终端中运行。".to_string(),
                )
            } else {
                Ok(entries)
            }
        },
    }
}

/// The login shell: the configured one where it is there, else zsh.
pub fn login_shell(configured: Option<String>, found: &FoundPaths) -> (shell: String)
    ensures
        shell@ == (match configured {
            Some(path) if found.holds(path@) => path@,
            _ => "/bin/zsh"@,
        }),
{
    match configured {
        Some(path) => if found.has(path.as_str()) {
            path
        } else {
            "/bin/zsh".to_string()
        },
        None => "/bin/zsh".to_string(),
    }
}

/// The files that a program of that name can be in a directory.
pub open spec fn program_files(directory: Seq<char>, name: Seq<char>, platform: Platform) -> Seq<
    Seq<char>,
> {
    if platform.windows() {
        seq![
            below(directory, name + ".exe"@, platform),
            below(directory, name + ".cmd"@, platform),
            below(directory, name + ".bat"@, platform),
            below(directory, name, platform),
        ]
    } else {
        seq![below(directory, name, platform)]
    }
}

/// The files that a program of that name can be, directory after directory.
pub open spec fn program_candidates(
    directories: Seq<Seq<char>>,
    name: Seq<char>,
    platform: Platform,
) -> Seq<Seq<char>>
    decreases directories.len(),
{
    if directories.len() == 0 {
        Seq::empty()
    } else {
        program_candidates(directories.drop_last(), name, platform) + program_files(
            directories.last(),
            name,
            platform,
        )
    }
}

/// The files whose presence decides where a program is.
pub fn list_program_candidates(directories: &Vec<String>, name: &str, platform: Platform) -> (paths:
    Vec<String>)
    ensures
        paths.deep_view() == program_candidates(directories.deep_view(), name@, platform),
{
    let mut paths: Vec<String> = Vec::new();
    let mut i: usize = 0;
    assert(paths.deep_view() =~= program_candidates(
        directories.deep_view().take(0),
        name@,
        platform,
    ));
    while i < directories.len()
        invariant
            i <= directories.len(),
            paths.deep_view() == program_candidates(
                directories.deep_view().take(i as int),
                name@,
                platform,
            ),
        decreases directories.len() - i,
    {
        let ghost held = paths.deep_view();
        let ghost part = directories.deep_view().take(i + 1);
        let directory = directories[i].as_str();
        proof {
            assert(part.drop_last() =~= directories.deep_view().take(i as int));
            assert(part.last() == directories[i as int]@);
        }
        if platform.is_windows() {
            paths.push(join_path(directory, cat2(name, ".exe").as_str(), platform));
            paths.push(join_path(directory, cat2(name, ".cmd").as_str(), platform));
            paths.push(join_path(directory, cat2(name, ".bat").as_str(), platform));
        }
        paths.push(join_path(directory, name, platform));
        assert(paths.deep_view() =~= held + program_files(directory@, name@, platform));
        i += 1;
    }
    assert(directories.deep_view().take(directories.len() as int) =~= directories.deep_view());
    paths
}

/// Where a program is: the first of the files that it can be and that is
/// executable. `directories` are those of `PATH`.
pub fn find_program(
    directories: &Vec<String>,
    name: &str,
    executables: &FoundPaths,
    platform: Platform,
) -> (path: Option<String>)
    ensures
        path.deep_view() == first_held(
            program_candidates(directories.deep_view(), name@, platform),
            *executables,
        ),
{
    first_found(&list_program_candidates(directories, name, platform), executables)
}

/// Two paths are one to npm: on Windows whatever the case of their letters.
pub open spec fn paths_same(left: Seq<char>, right: Seq<char>, platform: Platform) -> bool {
    if platform.windows() {
        same_ignoring_case(left, right)
    } else {
        same_place(left, right, platform)
    }
}

/// Whether two paths are one.
pub fn paths_equal(left: &str, right: &str, platform: Platform) -> (equal: bool)
    ensures
        equal == paths_same(left@, right@, platform),
{
    if platform.is_windows() {
        equal_ignoring_case(left, right)
    } else {
        same_path(left, right, platform)
    }
}

/// Where npm puts packages that it installs for all.
pub open spec fn modules_of(prefix: Seq<char>, platform: Platform) -> Seq<char> {
    if platform.windows() {
        below(prefix, "node_modules"@, platform)
    } else {
        below(prefix, "lib/node_modules"@, platform)
    }
}

/// Where npm puts packages that it installs for all.
pub fn global_modules_dir(prefix: &str, platform: Platform) -> (path: String)
    ensures
        path@ == modules_of(prefix@, platform),
{
    if platform.is_windows() {
        join_path(prefix, "node_modules", platform)
    } else {
        join_path(prefix, "lib/node_modules", platform)
    }
}

/// Where npm puts the commands of such packages.
pub open spec fn commands_of(prefix: Seq<char>, platform: Platform) -> Seq<char> {
    if platform.windows() {
        prefix
    } else {
        below(prefix, "bin"@, platform)
    }
}

/// Where npm puts the commands of such packages.
pub fn global_bin_dir(prefix: &str, platform: Platform) -> (path: String)
    ensures
        path@ == commands_of(prefix@, platform),
{
    if platform.is_windows() {
        prefix.to_string()
    } else {
        join_path(prefix, "bin", platform)
    }
}

/// The command of the runtime among them.
pub open spec fn dsh_of(prefix: Seq<char>, platform: Platform) -> Seq<char> {
    if platform.windows() {
        below(commands_of(prefix, platform), "dsh.cmd"@, platform)
    } else {
        below(commands_of(prefix, platform), "dsh"@, platform)
    }
}

/// The command of the runtime among them.
pub fn global_dsh_command(prefix: &str, platform: Platform) -> (path: String)
    ensures
        path@ == dsh_of(prefix@, platform),
{
    let bin = global_bin_dir(prefix, platform);
    if platform.is_windows() {
        join_path(bin.as_str(), "dsh.cmd", platform)
    } else {
        join_path(bin.as_str(), "dsh", platform)
    }
}

/// Where the application installs for the user.
pub open spec fn own_prefix(
    environment: Seq<(Seq<char>, Seq<char>)>,
    home: Seq<char>,
    platform: Platform,
) -> Seq<char> {
    if platform.windows() {
        let base = match value_of(environment, "APPDATA"@, platform) {
            Some(directory) => directory,
            None => below(home, "AppData/Roaming"@, platform),
        };
        below(base, "npm"@, platform)
    } else {
        below(home, ".local"@, platform)
    }
}

/// Where the application installs for the user.
pub fn user_prefix(toolchain: &UserToolchain, home: &str, platform: Platform) -> (prefix: String)
    ensures
        prefix@ == own_prefix(toolchain@.environment, home@, platform),
{
    if platform.is_windows() {
        let base = match environment_value(&toolchain.environment, "APPDATA", platform) {
            Some(directory) => directory,
            None => join_path(home, "AppData/Roaming", platform),
        };
        join_path(base.as_str(), "npm", platform)
    } else {
        join_path(home, ".local", platform)
    }
}

/// Where an update of the command goes: to the place that the command was
/// installed to, where that is known.
pub open spec fn update_prefix(
    dsh_command: Seq<char>,
    desktop_prefix: Seq<char>,
    npm_prefix: Option<Seq<char>>,
    platform: Platform,
) -> Option<Seq<char>> {
    if paths_same(dsh_command, dsh_of(desktop_prefix, platform), platform) {
        Some(desktop_prefix)
    } else {
        match npm_prefix {
            Some(prefix) if paths_same(dsh_command, dsh_of(prefix, platform), platform) => Some(
                prefix,
            ),
            _ => None,
        }
    }
}

/// Where an update of the command goes.
pub fn update_prefix_for_command(
    dsh_command: &str,
    desktop_prefix: &str,
    npm_prefix: &Option<String>,
    platform: Platform,
) -> (prefix: Option<String>)
    ensures
        prefix.deep_view() == update_prefix(
            dsh_command@,
            desktop_prefix@,
            npm_prefix.deep_view(),
            platform,
        ),
{
    if paths_equal(
        dsh_command,
        global_dsh_command(desktop_prefix, platform).as_str(),
        platform,
    ) {
        return Some(desktop_prefix.to_string());
    }
    if let Some(prefix) = npm_prefix {
        if paths_equal(
            dsh_command,
            global_dsh_command(prefix.as_str(), platform).as_str(),
            platform,
        ) {
            return Some(prefix.clone());
        }
    }
    None
}

/// An update stays where the command is: what is installed to the prefix is the
/// very command that is used.
pub proof fn law_update_keeps_the_place(
    dsh_command: Seq<char>,
    desktop_prefix: Seq<char>,
    npm_prefix: Option<Seq<char>>,
    platform: Platform,
)
    ensures
        update_prefix(dsh_command, desktop_prefix, npm_prefix, platform) matches Some(prefix) ==> {
            &&& paths_same(dsh_command, dsh_of(prefix, platform), platform)
            &&& prefix == desktop_prefix || npm_prefix == Some(prefix)
        },
{
}

/// A command that neither prefix accounts for is not updated.
pub proof fn law_unknown_command_is_not_updated(
    dsh_command: Seq<char>,
    desktop_prefix: Seq<char>,
    npm_prefix: Option<Seq<char>>,
    platform: Platform,
)
    requires
        !paths_same(dsh_command, dsh_of(desktop_prefix, platform), platform),
        npm_prefix matches Some(prefix) ==> !paths_same(
            dsh_command,
            dsh_of(prefix, platform),
            platform,
        ),
    ensures
        update_prefix(dsh_command, desktop_prefix, npm_prefix, platform) is None,
{
}

/// What running a command gave.
pub enum CommandOutput {
    /// It could not be run, for this reason.
    NotRun(String),
    Ran { success: bool, stdout: Vec<u8>, stderr: Vec<u8> },
}

/// Why a command failed: what it wrote to its error output, or to its output
/// where that is blank.
pub open spec fn failure_text(
    description: Seq<char>,
    output: Seq<char>,
    errors: Seq<char>,
) -> Seq<char> {
    let detail = if trimmed(errors).len() == 0 {
        trimmed(output)
    } else {
        trimmed(errors)
    };
    description + " 失败："@ + detail
}

/// Why a command failed.
pub fn command_failure(description: &str, output: &str, errors: &str) -> (reason: String)
    ensures
        reason@ == failure_text(description@, output@, errors@),
{
    let detail = trim(errors);
    if detail.as_str().is_empty() {
        cat3(description, " 失败：", trim(output).as_str())
    } else {
        cat3(description, " 失败：", detail.as_str())
    }
}

/// The error of a command that did not succeed.
pub open spec fn command_error(description: Seq<char>, output: CommandOutput) -> Option<Seq<char>> {
    match output {
        CommandOutput::NotRun(reason) => Some("无法执行 "@ + description + "："@ + reason@),
        CommandOutput::Ran { success, stdout, stderr } => if success {
            None
        } else {
            Some(failure_text(description, lossy_form(stdout@), lossy_form(stderr@)))
        },
    }
}

/// What a command that succeeded printed.
pub fn command_output(output: CommandOutput, description: &str) -> (printed: Result<Vec<u8>, String>)
    ensures
        match command_error(description@, output) {
            Some(reason) => printed matches Err(message) && message@ == reason,
            None => printed matches Ok(bytes) && output->stdout == bytes,
        },
{
    match output {
        CommandOutput::NotRun(reason) => Err(
            cat4("无法执行 ", description, "：", reason.as_str()),
        ),
        CommandOutput::Ran { success, stdout, stderr } => if success {
            Ok(stdout)
        } else {
            Err(
                command_failure(
                    description,
                    lossy_text(stdout.as_slice()).as_str(),
                    lossy_text(stderr.as_slice()).as_str(),
                ),
            )
        },
    }
}

/// The text that a command printed, without the white space around it.
pub open spec fn printed_text(description: Seq<char>, output: CommandOutput) -> Result<
    Seq<char>,
    Seq<char>,
> {
    match command_error(description, output) {
        Some(reason) => Err(reason),
        None => {
            let bytes = output->stdout@;
            if !valid_utf8(bytes) {
                Err(description + " 返回了无效文本："@ + utf8_error(bytes))
            } else if trimmed(decode_utf8(bytes)).len() == 0 {
                Err(description + " 没有返回版本"@)
            } else {
                Ok(trimmed(decode_utf8(bytes)))
            }
        },
    }
}

/// The text that a command printed.
pub fn command_text(output: CommandOutput, description: &str) -> (text: Result<String, String>)
    ensures
        texts(text) == printed_text(description@, output),
{
    let bytes = command_output(output, description)?;
    match strict_text(bytes) {
        Err(error) => Err(cat3(description, " 返回了无效文本：", error.as_str())),
        Ok(text) => {
            let text = trim(text.as_str());
            if text.as_str().is_empty() {
                Err(cat2(description, " 没有返回版本"))
            } else {
                Ok(text)
            }
        },
    }
}

/// The tools in their places, before they were asked for their versions.
pub open spec fn located(
    environment: Seq<(Seq<char>, Seq<char>)>,
    shell: Option<Seq<char>>,
    node: Option<Seq<char>>,
    npm: Option<Seq<char>>,
) -> Result<UserToolchainView, Seq<char>> {
    match (node, npm) {
        (None, _) => Err(
            "未检测到 Node.js。请先安装 Node.js 24 LTS，然后重新打开 DSH Desktop。"@,
        ),
        (Some(_), None) => Err(
            "检测到 Node.js，但没有找到 npm。请安装包含 npm 的 Node.js 24 LTS。"@,
        ),
        (Some(node), Some(npm)) => Ok(
            UserToolchainView {
                environment,
                shell,
                node,
                npm,
                node_version: Seq::empty(),
                npm_version: Seq::empty(),
            },
        ),
    }
}

/// The value of a toolchain, or of the error in its place.
pub open spec fn toolchain_view(result: Result<UserToolchain, String>) -> Result<
    UserToolchainView,
    Seq<char>,
> {
    match result {
        Ok(toolchain) => Ok(toolchain@),
        Err(reason) => Err(reason@),
    }
}

/// Finds the tools on `PATH`, whose directories are given.
pub fn locate_tools(
    environment: Vec<EnvironmentEntry>,
    shell: Option<String>,
    directories: &Vec<String>,
    executables: &FoundPaths,
    platform: Platform,
) -> (toolchain: Result<UserToolchain, String>)
    ensures
        toolchain_view(toolchain) == located(
            environment.deep_view(),
            shell.deep_view(),
            first_held(
                program_candidates(directories.deep_view(), "node"@, platform),
                *executables,
            ),
            first_held(
                program_candidates(directories.deep_view(), "npm"@, platform),
                *executables,
            ),
        ),
{
    let node = match find_program(directories, "node", executables, platform) {
        Some(path) => path,
        None => {
            return Err(
                "未检测到 Node.js。请先安装 Node.js 24 LTS，然后重新打开 DSH Desktop。".to_string(),
            );
        },
    };
    let npm = match find_program(directories, "npm", executables, platform) {
        Some(path) => path,
        None => {
            return Err(
                "检测到 Node.js，但没有找到 npm。请安装包含 npm 的 Node.js 24 LTS。".to_string(),
            );
        },
    };
    let toolchain = UserToolchain {
        environment,
        shell,
        node,
        npm,
        node_version: String::new(),
        npm_version: String::new(),
    };
    assert(toolchain@.node_version =~= Seq::empty());
    assert(toolchain@.npm_version =~= Seq::empty());
    Ok(toolchain)
}

/// The version of Node.js without a `v` in front, where the runtime can run on
/// it.
pub open spec fn node_release(printed: Result<Seq<char>, Seq<char>>) -> Result<
    Seq<char>,
    Seq<char>,
> {
    match printed {
        Err(reason) => Err(reason),
        Ok(text) => {
            let version = strip_leading(text, CharClass::LetterV);
            if semver_parse(version) is Ok && supported_node(semver_parse(version)->Ok_0) {
                Ok(version)
            } else {
                Err(
                    "Node.js "@ + version
                        + " 不受支持。需要 Node.js 22.19+（22 系列）或 24 及以上版本。"@,
                )
            }
        },
    }
}

/// The version of Node.js, from what `node --version` printed.
pub fn read_node_version(printed: Result<String, String>) -> (version: Result<String, String>)
    ensures
        texts(version) == node_release(texts(printed)),
{
    let text = printed?;
    let version = strip_front(text.as_str(), CharClass::LetterV);
    if supported_node_version(version.as_str()) {
        Ok(version)
    } else {
        Err(
            cat3(
                "Node.js ",
                version.as_str(),
                " 不受支持。需要 Node.js 22.19+（22 系列）或 24 及以上版本。",
            ),
        )
    }
}

impl UserToolchain {
    /// Takes note of the versions of the tools.
    pub fn with_versions(self, node_version: String, npm_version: String) -> (toolchain:
        UserToolchain)
        ensures
            toolchain@ == (UserToolchainView {
                node_version: node_version@,
                npm_version: npm_version@,
                ..self@
            }),
    {
        UserToolchain {
            environment: self.environment,
            shell: self.shell,
            node: self.node,
            npm: self.npm,
            node_version,
            npm_version,
        }
    }
}

/// The program is a script of the Windows command processor.
pub open spec fn command_script(executable: Seq<char>, platform: Platform) -> bool {
    platform.windows() && match extension_of(executable, platform) {
        Some(ending) => lowered(ending) == "cmd"@ || lowered(ending) == "bat"@,
        None => false,
    }
}

/// A program with its arguments. A script of the Windows command processor is
/// run by that.
pub open spec fn executable_plan(
    executable: Seq<char>,
    arguments: Seq<Seq<char>>,
    comspec: Option<Seq<char>>,
    platform: Platform,
) -> CommandPlanView {
    if command_script(executable, platform) {
        CommandPlanView {
            program: match comspec {
                Some(program) => program,
                None => "cmd.exe"@,
            },
            arguments: seq!["/d"@, "/s"@, "/c"@, executable] + arguments,
            directory: None,
            inherit: true,
            environment: Seq::empty(),
        }
    } else {
        CommandPlanView {
            program: executable,
            arguments,
            directory: None,
            inherit: true,
            environment: Seq::empty(),
        }
    }
}

/// A program with its arguments. `comspec` is the Windows command processor.
pub fn command_for_executable(
    executable: &str,
    arguments: &Vec<String>,
    comspec: &Option<String>,
    platform: Platform,
) -> (plan: CommandPlan)
    ensures
        plan@ == executable_plan(
            executable@,
            arguments.deep_view(),
            comspec.deep_view(),
            platform,
        ),
{
    let script = platform.is_windows() && match extension(executable, platform) {
        Some(ending) => {
            let low = lower(ending.as_str());
            same(low.as_str(), "cmd") || same(low.as_str(), "bat")
        },
        None => false,
    };
    let mut plan = if script {
        let mut plan = match comspec {
            Some(program) => CommandPlan::new(program.as_str()),
            None => CommandPlan::new("cmd.exe"),
        };
        plan.add_argument("/d");
        plan.add_argument("/s");
        plan.add_argument("/c");
        plan.add_argument(executable);
        assert(plan@.arguments =~= seq!["/d"@, "/s"@, "/c"@, executable@]);
        plan
    } else {
        CommandPlan::new(executable)
    };
    plan.add_arguments(arguments);
    assert(plan@.arguments =~= executable_plan(
        executable@,
        arguments.deep_view(),
        comspec.deep_view(),
        platform,
    ).arguments);
    plan
}

/// A command in the user's environment. `path` is the `PATH` with a directory in
/// front, where there is one and the two can be joined.
pub open spec fn tool_plan(
    plan: CommandPlanView,
    environment: Seq<(Seq<char>, Seq<char>)>,
    path: Option<Seq<char>>,
) -> CommandPlanView {
    CommandPlanView {
        inherit: false,
        environment: match path {
            Some(path) => environment.push(("PATH"@, path)),
            None => environment,
        },
        ..plan
    }
}

/// Runs a program in the user's environment.
pub fn command_for_tool(
    toolchain: &UserToolchain,
    executable: &str,
    arguments: &Vec<String>,
    path: &Option<String>,
    comspec: &Option<String>,
    platform: Platform,
) -> (plan: CommandPlan)
    ensures
        plan@ == tool_plan(
            executable_plan(executable@, arguments.deep_view(), comspec.deep_view(), platform),
            toolchain@.environment,
            path.deep_view(),
        ),
{
    let mut plan = command_for_executable(executable, arguments, comspec, platform);
    plan.run_with_only(&toolchain.environment);
    if let Some(path) = path {
        plan.add_variable("PATH", path.as_str());
    }
    plan
}

/// Where npm installs for all, from what it printed: an absolute path, in the
/// form that Node.js takes.
pub fn npm_global_prefix(printed: Result<String, String>, platform: Platform) -> (prefix: Result<
    String,
    String,
>)
    ensures
        match printed {
            Err(reason) => prefix matches Err(message) && message@ == reason@,
            Ok(text) => match prefix {
                Ok(directory) => node_form(text@, directory@, platform) && absolute(
                    directory@,
                    platform,
                ),
                Err(message) => message@ == "npm 返回了非绝对全局目录："@ + text@ && exists|
                    form: Seq<char>,
                | #[trigger]
                    node_form(text@, form, platform) && !absolute(form, platform),
            },
        },
{
    let text = printed?;
    let directory = node_compatible_path(text.as_str(), platform);
    if is_absolute(directory.as_str(), platform) {
        Ok(directory)
    } else {
        assert(node_form(text@, directory@, platform));
        Err(cat2("npm 返回了非绝对全局目录：", text.as_str()))
    }
}

/// The newest version, from what `npm view` printed. `fault` says why it is no
/// version.
pub open spec fn latest_version(
    printed: Result<Seq<char>, Seq<char>>,
    fault: Option<Seq<char>>,
) -> Result<Seq<char>, Seq<char>> {
    match (printed, fault) {
        (Err(reason), _) => Err(reason),
        (Ok(version), Some(error)) => Err(
            "npm latest 不是合法版本 "@ + debug_form(version) + "："@ + error,
        ),
        (Ok(version), None) => Ok(version),
    }
}

/// Checks the newest version.
pub fn latest_from(printed: Result<String, String>, fault: Option<String>) -> (version: Result<
    String,
    String,
>)
    ensures
        texts(version) == latest_version(texts(printed), fault.deep_view()),
{
    let version = printed?;
    match fault {
        None => Ok(version),
        Some(error) => Err(
            cat4(
                "npm latest 不是合法版本 ",
                debug_text(version.as_str()).as_str(),
                "：",
                error.as_str(),
            ),
        ),
    }
}

/// The version that npm printed as the newest.
pub open spec fn printed_version(output: CommandOutput) -> Result<Seq<char>, Seq<char>> {
    match command_error("npm view"@, output) {
        Some(reason) => Err(reason),
        None => npm_version(json_string_form(output->stdout@), lossy_form(output->stdout@)),
    }
}

/// Reads the newest version from what `npm view` printed.
pub fn latest_dsh_version(output: CommandOutput) -> (version: Result<String, String>)
    ensures
        texts(version) == latest_version(
            printed_version(output),
            named_fault(printed_version(output)),
        ),
{
    let printed: Result<String, String> = match command_output(output, "npm view") {
        Ok(bytes) => parse_npm_version(bytes.as_slice()),
        Err(reason) => Err(reason),
    };
    let fault = fault_of_named(&printed);
    latest_from(printed, fault)
}

/// When a version was published, from what `npm view` printed.
pub fn dsh_publish_time(output: CommandOutput, version: &str) -> (time: Result<String, String>)
    ensures
        texts(time) == match command_error("npm view DSH publish time"@, output) {
            Some(reason) => Err(reason),
            None => publish_time(json_members_form(output->stdout@), version@),
        },
{
    let bytes = command_output(output, "npm view DSH publish time")?;
    parse_npm_publish_time(bytes.as_slice(), version)
}

/// The profile that is changed for a shell, and the line that is added to it.
pub struct TerminalProfile {
    pub path: String,
    pub line: String,
}

/// The profile for a shell and its line: for zsh where no shell is known.
pub open spec fn profile_for(
    shell: Option<Seq<char>>,
    home: Seq<char>,
    bin_dir: Seq<char>,
    platform: Platform,
) -> Result<(Seq<char>, Seq<char>), Seq<char>> {
    let name = match shell {
        Some(path) => match name_of(path, platform) {
            Some(name) => name,
            None => "zsh"@,
        },
        None => "zsh"@,
    };
    if name == "zsh"@ {
        Ok((below(home, ".zprofile"@, platform), "export PATH=\"$HOME/.local/bin:$PATH\""@))
    } else if name == "bash"@ {
        Ok((below(home, ".bash_profile"@, platform), "export PATH=\"$HOME/.local/bin:$PATH\""@))
    } else if name == "fish"@ {
        Ok(
            (
                below(home, ".config/fish/config.fish"@, platform),
                "fish_add_path \"$HOME/.local/bin\""@,
            ),
        )
    } else {
        Err(
            "DSH 已安装，但暂不支持自动配置 "@ + name + "。请手动把 "@ + bin_dir + " 加入 PATH。"@,
        )
    }
}

/// The profile that is changed for a shell.
pub fn terminal_profile(shell: &Option<String>, home: &str, bin_dir: &str, platform: Platform) -> (
    profile: Result<TerminalProfile, String>)
    ensures
        match profile {
            Ok(profile) => profile_for(shell.deep_view(), home@, bin_dir@, platform) == Ok::<
                (Seq<char>, Seq<char>),
                Seq<char>,
            >((profile.path@, profile.line@)),
            Err(reason) => profile_for(shell.deep_view(), home@, bin_dir@, platform) == Err::<
                (Seq<char>, Seq<char>),
                Seq<char>,
            >(reason@),
        },
{
    let named: Option<String> = match shell {
        Some(path) => file_name(path.as_str(), platform),
        None => None,
    };
    let name: String = match named {
        Some(name) => name,
        None => "zsh".to_string(),
    };
    let name = name.as_str();
    if same(name, "zsh") {
        Ok(
            TerminalProfile {
                path: join_path(home, ".zprofile", platform),
                line: "export PATH=\"$HOME/.local/bin:$PATH\"".to_string(),
            },
        )
    } else if same(name, "bash") {
        Ok(
            TerminalProfile {
                path: join_path(home, ".bash_profile", platform),
                line: "export PATH=\"$HOME/.local/bin:$PATH\"".to_string(),
            },
        )
    } else if same(name, "fish") {
        Ok(
            TerminalProfile {
                path: join_path(home, ".config/fish/config.fish", platform),
                line: "fish_add_path \"$HOME/.local/bin\"".to_string(),
            },
        )
    } else {
        let mut reason = cat4("DSH 已安装，但暂不支持自动配置 ", name, "。请手动把 ", bin_dir);
        reason.append(" 加入 PATH。");
        Err(reason)
    }
}

/// What is added to the end of a profile: nothing where it was added before or
/// the directory is named already.
pub open spec fn profile_addition(existing: Seq<char>, line: Seq<char>) -> Option<Seq<char>> {
    if has_text(existing, PROFILE_BLOCK_START@) || has_text(existing, "$HOME/.local/bin"@) {
        None
    } else {
        let block = PROFILE_BLOCK_START@ + "\n"@ + line + "\n"@ + PROFILE_BLOCK_END@ + "\n"@;
        if existing.len() > 0 && !"\n"@.is_suffix_of(existing) {
            Some("\n"@ + block)
        } else {
            Some(block)
        }
    }
}

/// What is added to the end of a profile.
pub fn add_to_profile(existing: &str, line: &str) -> (addition: Option<String>)
    ensures
        addition.deep_view() == profile_addition(existing@, line@),
{
    if contains(existing, PROFILE_BLOCK_START) || contains(existing, "$HOME/.local/bin") {
        return None;
    }
    let block = cat6(PROFILE_BLOCK_START, "\n", line, "\n", PROFILE_BLOCK_END, "\n");
    if !existing.is_empty() && !ends_with(existing, "\n") {
        Some(cat2("\n", block.as_str()))
    } else {
        Some(block)
    }
}

/// What was added to a profile is not added again.
pub proof fn law_profile_is_changed_once(existing: Seq<char>, line: Seq<char>, other: Seq<char>)
    ensures
        profile_addition(existing, line) matches Some(addition) ==> profile_addition(
            existing + addition,
            other,
        ) is None,
{
    if let Some(addition) = profile_addition(existing, line) {
        let whole = existing + addition;
        let at: int = if existing.len() > 0 && !"\n"@.is_suffix_of(existing) {
            (existing.len() + "\n"@.len()) as int
        } else {
            existing.len() as int
        };
        assert(whole.subrange(at, at + PROFILE_BLOCK_START@.len()) =~= PROFILE_BLOCK_START@);
        assert(occurs_at(whole, PROFILE_BLOCK_START@, at));
    }
}

/// What the user is told of an error, whatever the case of its letters.
pub open spec fn runtime_error_text(error: Seq<char>, platform: Platform) -> Seq<char> {
    let low = lowered(error);
    if has_text(low, "node.js"@) || has_text(low, "node --version"@) {
        "没有找到兼容的 Node.js，请先安装 Node.js 24 LTS。"@
    } else if has_text(low, "e404"@) || has_text(low, "404 not found"@) {
        "npm 镜像中的包文件暂未同步，请稍后重试。"@
    } else if has_any(low, network_words()) {
        "无法连接 npm，请检查网络或 npm 代理配置后重试。"@
    } else if has_text(low, "permission"@) || has_text(low, "eacces"@) {
        if platform.windows() {
            "无法写入当前用户的 npm 目录，请检查目录权限。"@
        } else {
            "无法写入用户级安装目录，请检查 ~/.local 的权限。"@
        }
    } else {
        "暂时无法完成 DSH 更新，请稍后重试。"@
    }
}

/// What the words of a failed connection are.
pub open spec fn network_words() -> Seq<Seq<char>> {
    seq![
        "network"@,
        "connect"@,
        "fetch"@,
        "timed out"@,
        "timeout"@,
        "dns"@,
        "econn"@,
        "enet"@,
        "eai_again"@,
        "socket"@,
    ]
}

/// What the user is told of an error.
pub fn user_runtime_error(error: &str, platform: Platform) -> (message: &'static str)
    ensures
        message@ == runtime_error_text(error@, platform),
{
    let low = lower(error);
    let low = low.as_str();
    let network: Vec<String> = vec![
        "network".to_string(),
        "connect".to_string(),
        "fetch".to_string(),
        "timed out".to_string(),
        "timeout".to_string(),
        "dns".to_string(),
        "econn".to_string(),
        "enet".to_string(),
        "eai_again".to_string(),
        "socket".to_string(),
    ];
    assert(network.deep_view() =~= network_words());
    if contains(low, "node.js") || contains(low, "node --version") {
        "没有找到兼容的 Node.js，请先安装 Node.js 24 LTS。"
    } else if contains(low, "e404") || contains(low, "404 not found") {
        "npm 镜像中的包文件暂未同步，请稍后重试。"
    } else if contains_any(low, &network) {
        "无法连接 npm，请检查网络或 npm 代理配置后重试。"
    } else if contains(low, "permission") || contains(low, "eacces") {
        if platform.is_windows() {
            "无法写入当前用户的 npm 目录，请检查目录权限。"
        } else {
            "无法写入用户级安装目录，请检查 ~/.local 的权限。"
        }
    } else {
        "暂时无法完成 DSH 更新，请稍后重试。"
    }
}

/// The value of a variable is that of the first entry with its name, whatever follows;
/// on Windows the case of the name makes no difference.
pub proof fn law_first_entry_gives_the_value(
    front: Seq<(Seq<char>, Seq<char>)>,
    key: Seq<char>,
    value: Seq<char>,
    back: Seq<(Seq<char>, Seq<char>)>,
    name: Seq<char>,
    platform: Platform,
)
    requires
        forall|i: int|
            0 <= i < front.len() ==> !same_variable((#[trigger] front[i]).0, name, platform),
    ensures
        value_of(front, name, platform) is None,
        same_variable(key, name, platform) ==> value_of(
            front + seq![(key, value)] + back,
            name,
            platform,
        ) == Some(value),
        platform != Platform::Windows ==> (same_variable(key, name, platform) <==> key == name),
        platform == Platform::Windows ==> (same_variable(key, name, platform) <==> lowered(key)
            == lowered(name)),
    decreases front.len(),
{
    let all = front + seq![(key, value)] + back;
    if front.len() == 0 {
        assert(all[0] == (key, value));
    } else {
        let next = front.drop_first();
        assert forall|i: int| 0 <= i < next.len() implies !same_variable(
            (#[trigger] next[i]).0,
            name,
            platform,
        ) by {
            assert(next[i] == front[i + 1]);
        }
        law_first_entry_gives_the_value(next, key, value, back, name, platform);
        assert(all[0] == front[0]);
        assert(all.drop_first() =~= next + seq![(key, value)] + back);
    }
}

/// Every line with a name and an equals sign is an entry: what stands before the first
/// equals sign is the name, and all behind it the value. Other lines are none.
pub proof fn law_line_is_an_entry(
    list: Seq<Seq<char>>,
    name: Seq<char>,
    value: Seq<char>,
    other: Seq<char>,
)
    requires
        !name.contains('='),
        !other.contains('='),
    ensures
        name.len() > 0 ==> entries_of(list.push(name + seq!['='] + value)) == entries_of(list).push(
            (name, value),
        ),
        name.len() == 0 ==> entries_of(list.push(name + seq!['='] + value)) == entries_of(list),
        entries_of(list.push(other)) == entries_of(list),
        entries_of(Seq::empty()) == Seq::<(Seq<char>, Seq<char>)>::empty(),
{
    let line = name + seq!['='] + value;
    assert(list.push(line).drop_last() =~= list);
    assert(list.push(other).drop_last() =~= list);
    crate::trim::law_text_is_cut_at_the_first_mark(line, '=');
    crate::trim::law_text_is_cut_at_the_first_mark(other, '=');
    assert(line[name.len() as int] == '=');
    assert(line.contains('='));
    let (before, after) = split_once(line, '=')->0;
    let whole = before + seq!['='] + after;
    assert(line == whole);
    assert(whole[before.len() as int] == '=');
    if before.len() < name.len() {
        assert(name[before.len() as int] == line[before.len() as int]);
        assert(name.contains('='));
    }
    if before.len() > name.len() {
        assert(before[name.len() as int] == whole[name.len() as int]);
        assert(before.contains('='));
    }
    assert(before =~= whole.take(name.len() as int));
    assert(name =~= line.take(name.len() as int));
    assert(after =~= whole.skip(name.len() as int + 1));
    assert(value =~= line.skip(name.len() as int + 1));
    if split_once(other, '=') is Some {
        let (front, back) = split_once(other, '=')->0;
        assert(other[front.len() as int] == '=');
    }
}

/// The environment of the login shell is what it printed behind the last marker line;
/// without the marker, or without a `PATH`, there is none, and the error says why.
pub proof fn law_login_environment_needs_a_path(
    output: Seq<char>,
    errors: Seq<char>,
    platform: Platform,
)
    ensures
        ({
            let behind = after_last(output, "__DSH_DESKTOP_ENV__"@ + "\n"@);
            let found = login_environment(output, errors, platform);
            &&& found is Ok <==> behind is Some && value_of(
                entries_of(lines_of(behind->0)),
                "PATH"@,
                platform,
            ) is Some
            &&& found is Ok ==> found->Ok_0 == entries_of(lines_of(behind->0))
            &&& behind is None ==> found->Err_0 == "登录终端没有返回环境变量："@ + trimmed(errors)
            &&& behind is Some && found is Err ==> found->Err_0
                == "登录终端没有提供 PATH。请确认 Node.js 可以在新终端中运行。"@
        }),
{
}

/// A program is looked for under its name in every directory of `PATH`, in order; on
/// Windows with each ending of a program first.
pub proof fn law_program_is_looked_for_in_order(
    directories: Seq<Seq<char>>,
    directory: Seq<char>,
    name: Seq<char>,
    platform: Platform,
)
    ensures
        program_candidates(Seq::empty(), name, platform) == Seq::<Seq<char>>::empty(),
        program_candidates(directories.push(directory), name, platform) == program_candidates(
            directories,
            name,
            platform,
        ) + program_files(directory, name, platform),
        platform != Platform::Windows ==> program_files(directory, name, platform) == seq![
            below(directory, name, platform),
        ],
        platform == Platform::Windows ==> program_files(directory, name, platform) == seq![
            below(directory, name + ".exe"@, platform),
            below(directory, name + ".cmd"@, platform),
            below(directory, name + ".bat"@, platform),
            below(directory, name, platform),
        ],
{
    assert(directories.push(directory).drop_last() =~= directories);
}

/// A path is the same as itself, whichever comes first. On Windows the case of ASCII
/// letters makes no difference.
pub proof fn law_same_path(left: Seq<char>, right: Seq<char>, platform: Platform)
    ensures
        paths_same(left, left, platform),
        paths_same(left, right, platform) <==> paths_same(right, left, platform),
        platform == Platform::Windows ==> (paths_same(left, right, platform) <==> lowered(left)
            == lowered(right)),
        platform != Platform::Windows ==> (paths_same(left, right, platform) <==> same_place(
            left,
            right,
            platform,
        )),
{
}

/// npm puts packages and their commands where each platform has them.
pub proof fn law_npm_has_its_places(prefix: Seq<char>, platform: Platform)
    ensures
        platform != Platform::Windows ==> modules_of(prefix, platform) == below(
            prefix,
            "lib/node_modules"@,
            platform,
        ) && commands_of(prefix, platform) == below(prefix, "bin"@, platform) && dsh_of(
            prefix,
            platform,
        ) == below(below(prefix, "bin"@, platform), "dsh"@, platform),
        platform == Platform::Windows ==> modules_of(prefix, platform) == below(
            prefix,
            "node_modules"@,
            platform,
        ) && commands_of(prefix, platform) == prefix && dsh_of(prefix, platform) == below(
            prefix,
            "dsh.cmd"@,
            platform,
        ),
{
}

/// The application installs for the user: below the home directory, or on Windows where
/// npm does for a user.
pub proof fn law_own_prefix_is_of_the_user(
    environment: Seq<(Seq<char>, Seq<char>)>,
    home: Seq<char>,
    platform: Platform,
)
    ensures
        platform != Platform::Windows ==> own_prefix(environment, home, platform) == below(
            home,
            ".local"@,
            platform,
        ),
        platform == Platform::Windows ==> own_prefix(environment, home, platform) == below(
            if value_of(environment, "APPDATA"@, platform) is Some {
                value_of(environment, "APPDATA"@, platform)->0
            } else {
                below(home, "AppData/Roaming"@, platform)
            },
            "npm"@,
            platform,
        ),
{
}

/// A command is updated in the place it was installed to: that of the application where
/// it is the command there, else that of npm where it is the command there.
pub proof fn law_command_is_updated_where_it_is(
    dsh_command: Seq<char>,
    desktop_prefix: Seq<char>,
    npm_prefix: Option<Seq<char>>,
    platform: Platform,
)
    ensures
        ({
            let prefix = update_prefix(dsh_command, desktop_prefix, npm_prefix, platform);
            let own = paths_same(dsh_command, dsh_of(desktop_prefix, platform), platform);
            let of_npm = npm_prefix is Some && paths_same(
                dsh_command,
                dsh_of(npm_prefix->0, platform),
                platform,
            );
            &&& own ==> prefix == Some(desktop_prefix)
            &&& !own && of_npm ==> prefix == npm_prefix
            &&& !own && !of_npm ==> prefix is None
        }),
{
}

/// A command has failed exactly where it could not be run or says so itself; the error
/// names it, and says why, with what it wrote to its error output, or to its output
/// where that is blank.
pub proof fn law_failed_command_says_why(
    description: Seq<char>,
    reason: String,
    success: bool,
    stdout: Vec<u8>,
    stderr: Vec<u8>,
)
    ensures
        command_error(description, CommandOutput::NotRun(reason)) == Some(
            "无法执行 "@ + description + "："@ + reason@,
        ),
        ({
            let error = command_error(
                description,
                (CommandOutput::Ran { success, stdout, stderr }),
            );
            let written = trimmed(lossy_form(stderr@));
            &&& error is None <==> success
            &&& !success && written.len() > 0 ==> error == Some(
                description + " 失败："@ + written,
            )
            &&& !success && written.len() == 0 ==> error == Some(
                description + " 失败："@ + trimmed(lossy_form(stdout@)),
            )
        }),
{
}

/// What a command printed is its text without the white space around it. A command that
/// failed, printed no text, or nothing, is an error.
pub proof fn law_printed_text_is_trimmed(description: Seq<char>, output: CommandOutput)
    ensures
        ({
            let text = printed_text(description, output);
            let error = command_error(description, output);
            let bytes = output->stdout@;
            &&& error is Some ==> text == Err::<Seq<char>, Seq<char>>(error->0)
            &&& error is None && valid_utf8(bytes) && trimmed(decode_utf8(bytes)).len() > 0
                ==> text == Ok::<Seq<char>, Seq<char>>(trimmed(decode_utf8(bytes)))
            &&& error is None && valid_utf8(bytes) && trimmed(decode_utf8(bytes)).len() == 0
                ==> text == Err::<Seq<char>, Seq<char>>(description + " 没有返回版本"@)
            &&& error is None && !valid_utf8(bytes) ==> text == Err::<Seq<char>, Seq<char>>(
                description + " 返回了无效文本："@ + utf8_error(bytes),
            )
        }),
{
}

/// The tools are there where both Node.js and npm were found, and are then used as they
/// were found; otherwise the user is told which to install.
pub proof fn law_both_tools_are_needed(
    environment: Seq<(Seq<char>, Seq<char>)>,
    shell: Option<Seq<char>>,
    node: Option<Seq<char>>,
    npm: Option<Seq<char>>,
)
    ensures
        ({
            let tools = located(environment, shell, node, npm);
            &&& tools is Ok <==> node is Some && npm is Some
            &&& tools is Ok ==> tools->Ok_0.node == node->0 && tools->Ok_0.npm == npm->0
                && tools->Ok_0.environment == environment && tools->Ok_0.shell == shell
            &&& node is None ==> tools->Err_0
                == "未检测到 Node.js。请先安装 Node.js 24 LTS，然后重新打开 DSH Desktop。"@
            &&& node is Some && npm is None ==> tools->Err_0
                == "检测到 Node.js，但没有找到 npm。请安装包含 npm 的 Node.js 24 LTS。"@
        }),
{
}

/// Node.js is accepted exactly where its version, without the `v` in front, is one that
/// the runtime can run on; otherwise the error names it.
pub proof fn law_node_is_accepted_by_its_version(printed: Result<Seq<char>, Seq<char>>)
    ensures
        ({
            let release = node_release(printed);
            let version = strip_leading(printed->Ok_0, CharClass::LetterV);
            let fits = printed is Ok && semver_parse(version) is Ok && supported_node(
                semver_parse(version)->Ok_0,
            );
            &&& release is Ok <==> fits
            &&& fits ==> release->Ok_0 == version
            &&& printed is Err ==> release == printed
            &&& printed is Ok && !fits ==> release->Err_0 == "Node.js "@ + version
                + " 不受支持。需要 Node.js 22.19+（22 系列）或 24 及以上版本。"@
        }),
{
}

/// A program is run with its own arguments. Only a script of the Windows command
/// processor is handed to that, with the script and its arguments behind the switches.
pub proof fn law_program_is_run_with_its_arguments(
    executable: Seq<char>,
    arguments: Seq<Seq<char>>,
    comspec: Option<Seq<char>>,
    platform: Platform,
)
    ensures
        ({
            let plan = executable_plan(executable, arguments, comspec, platform);
            let ending = extension_of(executable, platform);
            let script = platform == Platform::Windows && ending is Some && (lowered(ending->0)
                == "cmd"@ || lowered(ending->0) == "bat"@);
            &&& !script ==> plan.program == executable && plan.arguments == arguments
            &&& script ==> plan.arguments == seq!["/d"@, "/s"@, "/c"@, executable] + arguments
            &&& script && comspec is Some ==> plan.program == comspec->0
            &&& script && comspec is None ==> plan.program == "cmd.exe"@
            &&& plan.directory is None && plan.inherit && plan.environment.len() == 0
        }),
{
}

/// A tool is run in the user's environment alone, with the program and the arguments it
/// was planned with, and finds programs on the path that is given for it.
pub proof fn law_tool_runs_in_the_environment_of_the_user(
    plan: CommandPlanView,
    environment: Seq<(Seq<char>, Seq<char>)>,
    path: Option<Seq<char>>,
)
    ensures
        ({
            let tool = tool_plan(plan, environment, path);
            &&& tool.program == plan.program && tool.arguments == plan.arguments && tool.directory
                == plan.directory
            &&& !tool.inherit
            &&& environment.is_prefix_of(tool.environment)
            &&& path is Some ==> last_value(tool.environment, "PATH"@) == path
            &&& path is None ==> tool.environment == environment
        }),
{
    if let Some(path) = path {
        lemma_last_value(environment, ("PATH"@, path), "PATH"@);
        let all = environment.push(("PATH"@, path));
        assert(all.take(environment.len() as int) =~= environment);
    } else {
        assert(environment.take(environment.len() as int) =~= environment);
    }
}

/// The newest version is the one that npm names, where it is a version, and that
/// unchanged; what npm could not say is its error.
pub proof fn law_newest_version_is_what_npm_names(
    printed: Result<Seq<char>, Seq<char>>,
    fault: Option<Seq<char>>,
    output: CommandOutput,
)
    ensures
        ({
            let version = latest_version(printed, fault);
            &&& version is Ok <==> printed is Ok && fault is None
            &&& version is Ok ==> version == printed
            &&& printed is Err ==> version == printed
            &&& printed is Ok && fault is Some ==> version->Err_0 == "npm latest 不是合法版本 "@
                + debug_form(printed->Ok_0) + "："@ + fault->0
        }),
        ({
            let error = command_error("npm view"@, output);
            &&& error is Some ==> printed_version(output) == Err::<Seq<char>, Seq<char>>(error->0)
            &&& error is None ==> printed_version(output) == npm_version(
                json_string_form(output->stdout@),
                lossy_form(output->stdout@),
            )
        }),
{
}

/// Each shell has its own profile and its own line; zsh is taken where none is known,
/// and any other shell is an error that names it and the directory.
pub proof fn law_each_shell_has_its_profile(
    shell: Option<Seq<char>>,
    home: Seq<char>,
    bin_dir: Seq<char>,
    platform: Platform,
)
    ensures
        ({
            let known = shell is Some && name_of(shell->0, platform) is Some;
            let name = if known {
                name_of(shell->0, platform)->0
            } else {
                "zsh"@
            };
            let profile = profile_for(shell, home, bin_dir, platform);
            let export = "export PATH=\"$HOME/.local/bin:$PATH\""@;
            &&& name == "zsh"@ ==> profile is Ok && profile->Ok_0 == (
                below(home, ".zprofile"@, platform),
                export,
            )
            &&& name == "bash"@ ==> profile is Ok && profile->Ok_0 == (
                below(home, ".bash_profile"@, platform),
                export,
            )
            &&& name == "fish"@ ==> profile is Ok && profile->Ok_0 == (
                below(home, ".config/fish/config.fish"@, platform),
                "fish_add_path \"$HOME/.local/bin\""@,
            )
            &&& name != "zsh"@ && name != "bash"@ && name != "fish"@ ==> profile is Err
                && profile->Err_0 == "DSH 已安装，但暂不支持自动配置 "@ + name + "。请手动把 "@
                + bin_dir + " 加入 PATH。"@
        }),
{
    reveal_strlit("zsh");
    reveal_strlit("bash");
    reveal_strlit("fish");
    assert("zsh"@.len() == 3 && "bash"@.len() == 4 && "fish"@.len() == 4);
    assert("bash"@[0] == 'b' && "fish"@[0] == 'f');
}

/// A profile that names the directory already, or was changed before, stays. To any
/// other a block with the line is added at its end, on lines of its own.
pub proof fn law_profile_gets_its_line(existing: Seq<char>, line: Seq<char>)
    ensures
        ({
            let addition = profile_addition(existing, line);
            let block = "# >>> DSH Desktop >>>"@ + "\n"@ + line + "\n"@ + "# <<< DSH Desktop <<<"@
                + "\n"@;
            let settled = has_text(existing, "# >>> DSH Desktop >>>"@) || has_text(
                existing,
                "$HOME/.local/bin"@,
            );
            &&& addition is None <==> settled
            &&& !settled && (existing.len() == 0 || existing.last() == '\n') ==> addition == Some(
                block,
            )
            &&& !settled && existing.len() > 0 && existing.last() != '\n' ==> addition == Some(
                "\n"@ + block,
            )
        }),
{
    reveal_strlit("\n");
    if existing.len() > 0 {
        assert(existing.subrange(existing.len() - 1, existing.len() as int) =~= seq![
            existing.last(),
        ]);
        assert("\n"@ =~= seq!['\n']);
        assert("\n"@.is_suffix_of(existing) <==> existing.last() == '\n') by {
            if "\n"@.is_suffix_of(existing) {
                assert(existing.subrange(existing.len() - 1, existing.len() as int)[0] == '\n');
            }
        }
    }
}

/// The user is told of a missing Node.js first, then of a mirror that is behind, of a
/// connection that failed, and of a directory that cannot be written; the case of
/// letters makes no difference.
pub proof fn law_error_is_told_by_its_words(error: Seq<char>, platform: Platform)
    ensures
        ({
            let low = lowered(error);
            let node = has_text(low, "node.js"@) || has_text(low, "node --version"@);
            let mirror = has_text(low, "e404"@) || has_text(low, "404 not found"@);
            let network = has_text(low, "network"@) || has_text(low, "connect"@) || has_text(
                low,
                "fetch"@,
            ) || has_text(low, "timed out"@) || has_text(low, "timeout"@) || has_text(low, "dns"@)
                || has_text(low, "econn"@) || has_text(low, "enet"@) || has_text(low, "eai_again"@)
                || has_text(low, "socket"@);
            let permission = has_text(low, "permission"@) || has_text(low, "eacces"@);
            runtime_error_text(error, platform) == if node {
                "没有找到兼容的 Node.js，请先安装 Node.js 24 LTS。"@
            } else if mirror {
                "npm 镜像中的包文件暂未同步，请稍后重试。"@
            } else if network {
                "无法连接 npm，请检查网络或 npm 代理配置后重试。"@
            } else if permission {
                if platform == Platform::Windows {
                    "无法写入当前用户的 npm 目录，请检查目录权限。"@
                } else {
                    "无法写入用户级安装目录，请检查 ~/.local 的权限。"@
                }
            } else {
                "暂时无法完成 DSH 更新，请稍后重试。"@
            }
        }),
{
    let low = lowered(error);
    let words = network_words();
    assert(has_any(low, words) <==> has_text(low, words[0]) || has_text(low, words[1]) || has_text(
        low,
        words[2],
    ) || has_text(low, words[3]) || has_text(low, words[4]) || has_text(low, words[5]) || has_text(
        low,
        words[6],
    ) || has_text(low, words[7]) || has_text(low, words[8]) || has_text(low, words[9]));
}

/// What contracts say of a [`UserToolchain`] they say of every part of it.
pub proof fn law_value_of_user_toolchain(value: UserToolchain)
    ensures
        value@.environment == value.environment.deep_view(),
        value@.shell == value.shell.deep_view(),
        value@.node == value.node@,
        value@.npm == value.npm@,
        value@.node_version == value.node_version@,
        value@.npm_version == value.npm_version@,
{
}

/// What a search returned is what was found or its error, unchanged.
pub proof fn law_value_of_a_search(
    entries: Vec<EnvironmentEntry>,
    toolchain: UserToolchain,
    error: String,
)
    ensures
        entries_view(Ok(entries)) == Ok::<Seq<(Seq<char>, Seq<char>)>, Seq<char>>(
            entries.deep_view(),
        ),
        entries_view(Err(error)) == Err::<Seq<(Seq<char>, Seq<char>)>, Seq<char>>(error@),
        toolchain_view(Ok(toolchain)) == Ok::<UserToolchainView, Seq<char>>(toolchain@),
        toolchain_view(Err(error)) == Err::<UserToolchainView, Seq<char>>(error@),
{
}

} // verus!
