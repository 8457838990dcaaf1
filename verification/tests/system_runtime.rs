use std::collections::VecDeque;

use dsh_desktop::global_install::{
    first_action, latest_arguments, quiet_npm_command, run_description, GlobalAction, GlobalEvent,
    GlobalInstall,
};
use dsh_desktop::host::Platform;
use dsh_desktop::paths::FoundPaths;
use dsh_desktop::staging::InstallFault;
use dsh_desktop::system_runtime::{
    installation_from_command, launch_error, npm_supports_allow_scripts, parse_npm_publish_time,
    parse_ready_url, read_dsh_version, remember_stderr_line, supported_node_version, update_is_due,
    version_is_newer, with_stderr_tail, DshSearch, EnsureAction, EnsureEvent, EnsureStage,
    RuntimeInstallation, RuntimeManager, RuntimeState, RuntimeUpdatePhase, RuntimeUpdateSnapshot,
    StartDecision, FAILED_RETRY_SECS, UPDATE_DELAY_SECS, UPDATE_INTERVAL_SECS,
};
use dsh_desktop::system_tools::{
    add_to_profile, command_for_executable, command_for_tool, command_output, command_text,
    dsh_publish_time, environment_value, find_program, global_bin_dir, global_dsh_command,
    global_modules_dir, latest_dsh_version, latest_from, locate_tools, login_shell,
    npm_global_prefix, paths_equal, read_node_version, terminal_profile, update_prefix_for_command,
    user_environment, user_prefix, user_runtime_error, CommandOutput, UserToolchain,
};
use dsh_desktop::system_update::{
    rollback_message, CheckAction, CheckEvent, RuntimeCheck, UpdateAction, UpdateEvent,
    UpdateOutcome, UpdateRun,
};
use dsh_desktop::update_loop::{Tick, NANOS_PER_SEC};

const HERE: Platform = Platform::Other;

#[test]
fn system_runtime_extracts_only_loopback_readiness_lines() {
    assert_eq!(
        parse_ready_url("dsh web: http://127.0.0.1:43121"),
        Some("http://127.0.0.1:43121".to_string())
    );
    assert_eq!(parse_ready_url("dsh web: http://0.0.0.0:43121"), None);
    assert_eq!(parse_ready_url("noise http://127.0.0.1:43121"), None);
}

#[test]
fn accepts_only_supported_node_release_lines() {
    assert!(!supported_node_version("22.18.0"));
    assert!(supported_node_version("22.19.0"));
    assert!(!supported_node_version("23.11.1"));
    assert!(supported_node_version("24.0.0"));
    assert!(supported_node_version("26.1.0"));
}

#[test]
fn enables_install_script_allowlists_only_when_npm_supports_them() {
    assert!(!npm_supports_allow_scripts("10.9.4"));
    assert!(!npm_supports_allow_scripts("11.15.1"));
    assert!(npm_supports_allow_scripts("11.16.0"));
    assert!(npm_supports_allow_scripts("12.0.0"));
}

#[test]
fn respects_daily_checks_and_short_failure_retries() {
    let now = 200_000;
    assert!(update_is_due(&RuntimeState::default(), now));
    assert!(!update_is_due(
        &RuntimeState {
            last_update_attempt: Some(now - 30),
            ..RuntimeState::default()
        },
        now
    ));
    assert!(update_is_due(
        &RuntimeState {
            last_update_attempt: Some(now - FAILED_RETRY_SECS),
            last_successful_check: Some(now - UPDATE_INTERVAL_SECS),
        },
        now
    ));
}

#[test]
fn system_runtime_compares_prereleases_with_semver() {
    assert!(version_is_newer("0.1.0", "0.1.0-rc.6"));
    assert!(version_is_newer("0.1.0-rc.7", "0.1.0-rc.6"));
    assert!(!version_is_newer("0.1.0-rc.5", "0.1.0-rc.6"));
}

#[test]
fn system_runtime_keeps_recent_stderr_in_the_startup_error() {
    let mut tail = VecDeque::new();
    remember_stderr_line(&mut tail, "first failure");
    remember_stderr_line(&mut tail, "second failure");
    assert_eq!(
        with_stderr_tail("启动失败".to_string(), &tail),
        "启动失败\n\n关键日志：\nfirst failure\nsecond failure"
    );
}

#[test]
fn resolves_user_global_layout() {
    let prefix = "/tmp/dsh-user-prefix";
    for platform in [Platform::Windows, Platform::Macos, Platform::Other] {
        if platform.is_windows() {
            assert_eq!(
                global_modules_dir(prefix, platform),
                format!("{prefix}\\node_modules")
            );
            assert_eq!(global_bin_dir(prefix, platform), prefix);
            assert_eq!(
                global_dsh_command(prefix, platform),
                format!("{prefix}\\dsh.cmd")
            );
        } else {
            assert_eq!(
                global_modules_dir(prefix, platform),
                format!("{prefix}/lib/node_modules")
            );
            assert_eq!(global_bin_dir(prefix, platform), format!("{prefix}/bin"));
            assert_eq!(
                global_dsh_command(prefix, platform),
                format!("{prefix}/bin/dsh")
            );
        }
    }
}

#[test]
fn preserves_the_existing_dsh_install_prefix() {
    let desktop_prefix = "/tmp/dsh-desktop-prefix";
    let npm_prefix = Some("/tmp/user-node-prefix".to_string());
    assert_eq!(
        update_prefix_for_command(
            &global_dsh_command(desktop_prefix, HERE),
            desktop_prefix,
            &npm_prefix,
            HERE,
        ),
        Some(desktop_prefix.to_string())
    );
    assert_eq!(
        update_prefix_for_command(
            &global_dsh_command("/tmp/user-node-prefix", HERE),
            desktop_prefix,
            &npm_prefix,
            HERE,
        ),
        npm_prefix
    );
    assert_eq!(
        update_prefix_for_command("/opt/unknown/bin/dsh", desktop_prefix, &npm_prefix, HERE),
        None
    );
}

#[test]
fn selects_the_exact_dsh_publish_time() {
    let time = parse_npm_publish_time(
        br#"{"created":"2026-08-01T00:00:00.000Z","0.1.0-rc.7":"2026-08-17T11:50:59.194Z"}"#,
        "0.1.0-rc.7",
    );
    assert_eq!(time.as_deref(), Ok("2026-08-17T11:50:59.194Z"));
    assert!(parse_npm_publish_time(br#"{"0.1.0":"yesterday"}"#, "0.1.0").is_err());
    assert!(
        parse_npm_publish_time(br#"{"0.1.0":"2026-08-17T11:50:59.194Z"}"#, "0.2.0").is_err()
    );
}

#[test]
fn gives_a_specific_message_for_registry_propagation_failures() {
    assert_eq!(
        user_runtime_error("npm error code E404\n404 Not Found", HERE),
        "npm 镜像中的包文件暂未同步，请稍后重试。"
    );
}

#[test]
fn each_kind_of_error_has_its_sentence() {
    for (error, platform, told) in [
        ("Node.js 18 不受支持", HERE, "没有找到兼容的 Node.js，请先安装 Node.js 24 LTS。"),
        ("无法执行 node --version：x", HERE, "没有找到兼容的 Node.js，请先安装 Node.js 24 LTS。"),
        ("request to registry failed: EAI_AGAIN", HERE, "无法连接 npm，请检查网络或 npm 代理配置后重试。"),
        ("Fetch failed", HERE, "无法连接 npm，请检查网络或 npm 代理配置后重试。"),
        ("EACCES: mkdir", HERE, "无法写入用户级安装目录，请检查 ~/.local 的权限。"),
        ("Permission denied", Platform::Windows, "无法写入当前用户的 npm 目录，请检查目录权限。"),
        ("odd", HERE, "暂时无法完成 DSH 更新，请稍后重试。"),
    ] {
        assert_eq!(user_runtime_error(error, platform), told);
    }
}

fn entry(name: &str, value: &str) -> (String, String) {
    (name.to_string(), value.to_string())
}

#[test]
fn the_login_shell_tells_its_environment() {
    let output = "motd\n__DSH_DESKTOP_ENV__\nold=1\n__DSH_DESKTOP_ENV__\nPATH=/a:/b\r\nEMPTY=\nnone\n=odd\nKEY=a=b\n";
    let environment = user_environment(&output.as_bytes().to_vec(), &Vec::new(), HERE).unwrap();
    assert_eq!(
        environment,
        [entry("PATH", "/a:/b"), entry("EMPTY", ""), entry("KEY", "a=b")]
    );
    assert_eq!(environment_value(&environment, "KEY", HERE).as_deref(), Some("a=b"));
    assert_eq!(environment_value(&environment, "key", HERE), None);
    assert_eq!(
        environment_value(&environment, "key", Platform::Windows).as_deref(),
        Some("a=b")
    );
    assert_eq!(
        user_environment(&b"PATH=/a\n".to_vec(), &b" zsh: oops \n".to_vec(), HERE),
        Err("登录终端没有返回环境变量：zsh: oops".to_string())
    );
    assert_eq!(
        user_environment(&b"__DSH_DESKTOP_ENV__\nHOME=/h\n".to_vec(), &Vec::new(), HERE),
        Err("登录终端没有提供 PATH。请确认 Node.js 可以在新终端中运行。".to_string())
    );
    let found = FoundPaths { paths: vec!["/bin/fish".to_string()] };
    assert_eq!(login_shell(Some("/bin/fish".to_string()), &found), "/bin/fish");
    assert_eq!(login_shell(Some("/bin/ksh".to_string()), &found), "/bin/zsh");
    assert_eq!(login_shell(None, &found), "/bin/zsh");
}

#[test]
fn programs_are_found_in_the_order_of_the_path() {
    let directories = vec!["/a".to_string(), "/b".to_string()];
    let found = FoundPaths { paths: vec!["/b/node".to_string(), "/b/node.exe".to_string()] };
    assert_eq!(find_program(&directories, "node", &found, HERE).as_deref(), Some("/b/node"));
    assert_eq!(find_program(&directories, "npm", &found, HERE), None);
    let windows = FoundPaths {
        paths: vec!["C:\\a\\npm".to_string(), "C:\\a\\npm.cmd".to_string()],
    };
    assert_eq!(
        find_program(&vec!["C:\\a".to_string()], "npm", &windows, Platform::Windows).as_deref(),
        Some("C:\\a\\npm.cmd")
    );
    let tools = |paths: &[&str]| {
        locate_tools(
            Vec::new(),
            None,
            &directories,
            &FoundPaths { paths: paths.iter().map(|path| path.to_string()).collect() },
            HERE,
        )
    };
    let toolchain = tools(&["/a/npm", "/b/node"]).unwrap();
    assert_eq!(toolchain.node, "/b/node");
    assert_eq!(toolchain.npm, "/a/npm");
    assert_eq!(
        tools(&["/a/npm"]).unwrap_err(),
        "未检测到 Node.js。请先安装 Node.js 24 LTS，然后重新打开 DSH Desktop。"
    );
    assert_eq!(
        tools(&["/a/node"]).unwrap_err(),
        "检测到 Node.js，但没有找到 npm。请安装包含 npm 的 Node.js 24 LTS。"
    );
}

#[test]
fn the_version_of_node_is_checked() {
    assert_eq!(read_node_version(Ok("v24.3.0".to_string())), Ok("24.3.0".to_string()));
    assert_eq!(
        read_node_version(Ok("v23.0.0".to_string())),
        Err("Node.js 23.0.0 不受支持。需要 Node.js 22.19+（22 系列）或 24 及以上版本。".to_string())
    );
    assert_eq!(read_node_version(Err("gone".to_string())), Err("gone".to_string()));
    assert!(!supported_node_version("22.19.0-rc.1"));
    assert!(!npm_supports_allow_scripts("11.16.0-rc.1"));
    assert!(!supported_node_version("twenty"));
}

fn ran(success: bool, stdout: &[u8], stderr: &[u8]) -> CommandOutput {
    CommandOutput::Ran { success, stdout: stdout.to_vec(), stderr: stderr.to_vec() }
}

#[test]
fn what_a_command_printed_is_read() {
    assert_eq!(
        command_text(ran(true, b" 11.16.0\n", b"noise"), "npm --version"),
        Ok("11.16.0".to_string())
    );
    assert_eq!(
        command_text(ran(true, b" \n", b""), "npm --version"),
        Err("npm --version 没有返回版本".to_string())
    );
    let invalid = command_text(ran(true, &[0xff], b""), "npm --version").unwrap_err();
    assert_eq!(
        invalid,
        format!(
            "npm --version 返回了无效文本：{}",
            String::from_utf8(vec![0xff]).unwrap_err()
        )
    );
    assert_eq!(
        command_output(ran(false, b" out \n", b" \n"), "npm view"),
        Err("npm view 失败：out".to_string())
    );
    assert_eq!(
        command_output(ran(false, b"out", b" err \n"), "npm view"),
        Err("npm view 失败：err".to_string())
    );
    assert_eq!(
        command_output(CommandOutput::NotRun("no such file".to_string()), "npm view"),
        Err("无法执行 npm view：no such file".to_string())
    );
    assert_eq!(command_output(ran(true, b"out", b"err"), "npm view"), Ok(b"out".to_vec()));
}

#[test]
fn the_newest_version_and_its_time_are_read() {
    assert_eq!(latest_dsh_version(ran(true, b"\"1.2.0\"", b"")), Ok("1.2.0".to_string()));
    assert_eq!(
        latest_dsh_version(ran(false, b"", b"E404")),
        Err("npm view 失败：E404".to_string())
    );
    assert_eq!(
        latest_dsh_version(ran(true, b"soon", b"")),
        Err(format!(
            "npm latest 不是合法版本 \"soon\"：{}",
            semver::Version::parse("soon").unwrap_err()
        ))
    );
    assert_eq!(
        latest_from(Ok("x".to_string()), Some("y".to_string())),
        Err("npm latest 不是合法版本 \"x\"：y".to_string())
    );
    assert_eq!(
        dsh_publish_time(ran(true, br#"{"1.0.0":"2026-01-01T00:00:00Z"}"#, b""), "1.0.0"),
        Ok("2026-01-01T00:00:00Z".to_string())
    );
    assert_eq!(
        dsh_publish_time(ran(true, b"[]", b""), "1.0.0"),
        Err("npm view 没有返回 DSH 1.0.0 的发布时间".to_string())
    );
    assert_eq!(
        dsh_publish_time(ran(false, b"", b"E404"), "1.0.0"),
        Err("npm view DSH publish time 失败：E404".to_string())
    );
    assert!(dsh_publish_time(ran(true, b"{", b""), "1.0.0")
        .unwrap_err()
        .starts_with("npm view 返回了无效的发布时间："));
}

#[test]
fn the_prefix_of_npm_is_absolute() {
    assert_eq!(
        npm_global_prefix(Ok("/usr/local".to_string()), HERE),
        Ok("/usr/local".to_string())
    );
    assert_eq!(
        npm_global_prefix(Ok("lib".to_string()), HERE),
        Err("npm 返回了非绝对全局目录：lib".to_string())
    );
    assert_eq!(
        npm_global_prefix(Ok("C:\\npm".to_string()), Platform::Windows),
        Ok("C:\\npm".to_string())
    );
    assert_eq!(npm_global_prefix(Err("x".to_string()), HERE), Err("x".to_string()));
    assert!(paths_equal("C:\\NPM\\dsh.cmd", "c:\\npm\\DSH.cmd", Platform::Windows));
    assert!(!paths_equal("/NPM/dsh", "/npm/dsh", HERE));
    assert!(paths_equal("/npm//./dsh/", "/npm/dsh", HERE));
}

fn toolchain() -> UserToolchain {
    UserToolchain {
        environment: vec![entry("PATH", "/usr/bin"), entry("APPDATA", "C:\\App")],
        shell: Some("/bin/zsh".to_string()),
        node: "/usr/bin/node".to_string(),
        npm: "/usr/bin/npm".to_string(),
        node_version: "24.1.0".to_string(),
        npm_version: "11.16.0".to_string(),
    }
}

#[test]
fn the_application_installs_for_the_user() {
    assert_eq!(user_prefix(&toolchain(), "/home/me", HERE), "/home/me/.local");
    assert_eq!(user_prefix(&toolchain(), "C:\\me", Platform::Windows), "C:\\App\\npm");
    let mut bare = toolchain();
    bare.environment.clear();
    assert_eq!(
        user_prefix(&bare, "C:\\me", Platform::Windows),
        "C:\\me\\AppData/Roaming\\npm"
    );
}

#[test]
fn tools_run_in_the_environment_of_the_user() {
    let arguments = vec!["--version".to_string()];
    let plan = command_for_tool(
        &toolchain(),
        "/usr/bin/npm",
        &arguments,
        &Some("/bin:/usr/bin".to_string()),
        &None,
        HERE,
    );
    assert_eq!(plan.program, "/usr/bin/npm");
    assert_eq!(plan.arguments, ["--version"]);
    assert!(!plan.inherit);
    assert_eq!(plan.environment.len(), 3);
    assert_eq!(plan.environment[2], entry("PATH", "/bin:/usr/bin"));
    let script = command_for_executable(
        "C:\\npm\\dsh.CMD",
        &arguments,
        &Some("C:\\cmd.exe".to_string()),
        Platform::Windows,
    );
    assert_eq!(script.program, "C:\\cmd.exe");
    assert_eq!(script.arguments, ["/d", "/s", "/c", "C:\\npm\\dsh.CMD", "--version"]);
    let program = command_for_executable("C:\\node.exe", &arguments, &None, Platform::Windows);
    assert_eq!(program.program, "C:\\node.exe");
    let batch = command_for_executable("C:\\x.bat", &arguments, &None, Platform::Windows);
    assert_eq!(batch.program, "cmd.exe");
    let plain = command_for_executable("/x.bat", &arguments, &None, HERE);
    assert_eq!(plain.program, "/x.bat");
    let quiet = quiet_npm_command(&toolchain(), &latest_arguments(), &None, HERE);
    assert_eq!(quiet.arguments, ["view", "@deepseek-ai/dsh", "dist-tags.latest", "--json"]);
    assert_eq!(quiet.environment[4], entry("npm_config_fund", "false"));
}

#[test]
fn a_global_installation_goes_from_the_time_to_the_rebuild() {
    let mut install = GlobalInstall::new("/p", "1.2.0", "11.16.0", HERE);
    assert!(matches!(install.advance(GlobalEvent::Prepared), GlobalAction::Ignore));
    match install.begin() {
        GlobalAction::AskTime(arguments) => {
            assert_eq!(arguments, ["view", "@deepseek-ai/dsh@1.2.0", "time", "--json"])
        }
        other => panic!("{other:?}"),
    }
    match install.advance(GlobalEvent::Dated(Ok("2026-01-01T00:00:00Z".to_string()))) {
        GlobalAction::MakeDirectories(list) => {
            assert_eq!(list, ["/p", "/p/lib/node_modules", "/p/bin"])
        }
        other => panic!("{other:?}"),
    }
    match install.advance(GlobalEvent::Prepared) {
        GlobalAction::Run { arguments, rebuild: false } => assert_eq!(
            arguments,
            [
                "install",
                "--global",
                "--prefix",
                "/p",
                "--omit=dev",
                "--no-audit",
                "--no-fund",
                "--package-lock=false",
                "--ignore-scripts",
                "--before=2026-01-01T00:00:00Z",
                "@deepseek-ai/dsh@1.2.0",
            ]
        ),
        other => panic!("{other:?}"),
    }
    match install.advance(GlobalEvent::Ran(Ok(()))) {
        GlobalAction::Run { arguments, rebuild: true } => assert_eq!(
            arguments,
            [
                "rebuild",
                "--global",
                "--prefix",
                "/p",
                "--ignore-scripts=false",
                "--no-audit",
                "--no-fund",
                "--allow-scripts=@deepseek-ai/dsh-subprocess-local,@google/genai,koffi,node-pty,protobufjs",
                "--strict-allow-scripts",
                "@deepseek-ai/dsh-subprocess-local",
                "@google/genai",
                "koffi",
                "node-pty",
                "protobufjs",
            ]
        ),
        other => panic!("{other:?}"),
    }
    assert!(matches!(
        install.advance(GlobalEvent::Ran(Ok(()))),
        GlobalAction::Finish(Ok(()))
    ));
    assert!(matches!(
        install.advance(GlobalEvent::Ran(Ok(()))),
        GlobalAction::Ignore
    ));
    assert_eq!(run_description(false), "npm install --global");
    assert_eq!(run_description(true), "npm rebuild DSH native dependencies");
}

#[test]
fn a_global_installation_stops_at_the_first_failure() {
    let begin = || {
        let mut install = GlobalInstall::new("/p", "1.2.0", "10.0.0", HERE);
        assert!(!install.restricted);
        install.begin();
        assert!(matches!(install.begin(), GlobalAction::Ignore));
        install
    };
    let error = |action: GlobalAction| match action {
        GlobalAction::Finish(Err(error)) => error,
        other => panic!("{other:?}"),
    };
    let mut invalid = GlobalInstall::new("/p", "soon", "10.0.0", HERE);
    assert_eq!(
        error(invalid.begin()),
        format!(
            "拒绝安装无效的 DSH 版本 \"soon\"：{}",
            semver::Version::parse("soon").unwrap_err()
        )
    );
    for event in [GlobalEvent::Dated(Ok("t".to_string())), GlobalEvent::Ran(Ok(()))] {
        assert!(matches!(invalid.advance(event), GlobalAction::Ignore));
    }
    assert_eq!(
        error(first_action("1.2.0", Some("odd".to_string()))),
        "拒绝安装无效的 DSH 版本 \"1.2.0\"：odd"
    );
    assert!(matches!(first_action("1.2.0", None), GlobalAction::AskTime(_)));
    let mut undated = begin();
    assert_eq!(error(undated.advance(GlobalEvent::Dated(Err("E404".to_string())))), "E404");
    let mut unprepared = begin();
    unprepared.advance(GlobalEvent::Dated(Ok("t".to_string())));
    let event = GlobalEvent::NotPrepared {
        directory: "/p/bin".to_string(),
        reason: "denied".to_string(),
    };
    assert_eq!(error(unprepared.advance(event)), "无法创建 /p/bin：denied");
    for rebuild in [false, true] {
        let mut failed = begin();
        failed.advance(GlobalEvent::Dated(Ok("t".to_string())));
        failed.advance(GlobalEvent::Prepared);
        if rebuild {
            match failed.advance(GlobalEvent::Ran(Ok(()))) {
                GlobalAction::Run { arguments, .. } => assert_eq!(arguments.len(), 12),
                other => panic!("{other:?}"),
            }
        }
        assert_eq!(error(failed.advance(GlobalEvent::Ran(Err("x".to_string())))), "x");
    }
}

#[test]
fn a_profile_is_chosen_by_the_shell_and_changed_once() {
    let profile = |shell: Option<&str>| {
        terminal_profile(&shell.map(str::to_string), "/h", "/h/.local/bin", HERE)
            .map(|profile| (profile.path, profile.line))
    };
    let export = "export PATH=\"$HOME/.local/bin:$PATH\"".to_string();
    assert_eq!(profile(None), Ok(("/h/.zprofile".to_string(), export.clone())));
    assert_eq!(profile(Some("/bin/zsh")), Ok(("/h/.zprofile".to_string(), export.clone())));
    assert_eq!(
        profile(Some("/bin/bash")),
        Ok(("/h/.bash_profile".to_string(), export.clone()))
    );
    assert_eq!(
        profile(Some("/usr/bin/fish")),
        Ok((
            "/h/.config/fish/config.fish".to_string(),
            "fish_add_path \"$HOME/.local/bin\"".to_string()
        ))
    );
    assert_eq!(
        profile(Some("/bin/ksh")),
        Err("DSH 已安装，但暂不支持自动配置 ksh。请手动把 /h/.local/bin 加入 PATH。".to_string())
    );
    let block = format!("# >>> DSH Desktop >>>\n{export}\n# <<< DSH Desktop <<<\n");
    assert_eq!(add_to_profile("", &export), Some(block.clone()));
    assert_eq!(add_to_profile("a\n", &export), Some(block.clone()));
    assert_eq!(add_to_profile("a", &export), Some(format!("\n{block}")));
    assert_eq!(add_to_profile(&format!("a\n{block}"), &export), None);
    assert_eq!(add_to_profile("PATH=$HOME/.local/bin", "x"), None);
}

#[test]
fn a_command_names_its_version() {
    assert_eq!(
        read_dsh_version("/p/bin/dsh", true, Ok("1.2.0".to_string())),
        Ok("1.2.0".to_string())
    );
    assert_eq!(
        read_dsh_version("/p/bin/dsh", false, Ok("1.2.0".to_string())),
        Err("DSH 命令不可执行：/p/bin/dsh".to_string())
    );
    assert_eq!(
        read_dsh_version("/p/bin/dsh", true, Ok("soon".to_string())),
        Err(format!(
            "DSH 返回了无效版本 \"soon\"：{}",
            semver::Version::parse("soon").unwrap_err()
        ))
    );
    let installation = installation("1.2.0", Some("/p"));
    assert_eq!(installation.bin_dir, "/p/bin");
    assert_eq!(
        installation_from_command(toolchain(), "/".to_string(), None, Ok("1".to_string()), HERE)
            .unwrap_err(),
        "DSH 命令没有父目录：/"
    );
}

fn installation(version: &str, prefix: Option<&str>) -> RuntimeInstallation {
    installation_from_command(
        toolchain(),
        "/p/bin/dsh".to_string(),
        prefix.map(str::to_string),
        Ok(version.to_string()),
        HERE,
    )
    .unwrap()
}

fn manager() -> RuntimeManager {
    RuntimeManager::new("/data", None, HERE)
}

fn search(command: Option<&str>, managed_executable: bool) -> EnsureEvent {
    EnsureEvent::Searched(Ok(DshSearch {
        toolchain: toolchain(),
        dsh_command: command.map(str::to_string),
        desktop_prefix: "/h/.local".to_string(),
        managed_executable,
    }))
}

fn searching(manager: &mut RuntimeManager) -> EnsureStage {
    let mut stage = EnsureStage::Start;
    let begin = EnsureEvent::Begin { known_executable: false };
    assert!(matches!(
        manager.ensure_installation(&mut stage, begin),
        EnsureAction::Search
    ));
    stage
}

#[test]
fn a_runtime_on_the_path_is_used_where_it_is() {
    let mut manager = manager();
    assert_eq!(manager.paths.state, "/data/runtime-state.json");
    assert_eq!(manager.snapshot().current_version, "未初始化");
    let mut stage = searching(&mut manager);
    assert!(matches!(
        manager.ensure_installation(&mut stage, search(Some("/p/bin/dsh"), true)),
        EnsureAction::ReadPrefix(_)
    ));
    match manager.ensure_installation(&mut stage, EnsureEvent::Prefix(Some("/p".to_string()))) {
        EnsureAction::Inspect { dsh_command, update_prefix, .. } => {
            assert_eq!(dsh_command, "/p/bin/dsh");
            assert_eq!(update_prefix.as_deref(), Some("/p"));
        }
        _ => panic!("not inspected"),
    }
    let inspected = EnsureEvent::Inspected(Ok(installation("1.2.0", Some("/p"))));
    assert!(matches!(
        manager.ensure_installation(&mut stage, inspected),
        EnsureAction::Finish(Ok(found)) if found.dsh_version == "1.2.0"
    ));
    let snapshot = manager.snapshot();
    assert_eq!(snapshot.current_version, "1.2.0");
    assert_eq!(snapshot.node_version, "24.1.0");
    let mut again = EnsureStage::Start;
    let begin = EnsureEvent::Begin { known_executable: true };
    assert!(matches!(
        manager.ensure_installation(&mut again, begin),
        EnsureAction::Finish(Ok(_))
    ));
}

#[test]
fn a_runtime_that_cannot_be_used_is_not_replaced() {
    let mut manager = manager();
    let mut stage = searching(&mut manager);
    match manager.ensure_installation(&mut stage, search(Some("/h/.local/bin/dsh"), true)) {
        EnsureAction::Inspect { update_prefix, .. } => {
            assert_eq!(update_prefix.as_deref(), Some("/h/.local"))
        }
        _ => panic!("not inspected"),
    }
    let inspected = EnsureEvent::Inspected(Err("broken".to_string()));
    match manager.ensure_installation(&mut stage, inspected) {
        EnsureAction::Finish(Err(error)) => assert_eq!(
            error,
            "检测到 DSH /h/.local/bin/dsh，但无法使用：broken"
        ),
        _ => panic!("not refused"),
    }
    assert!(manager.installation.is_none());
}

#[test]
fn a_missing_runtime_is_installed_and_the_terminal_set_up() {
    let mut manager = manager();
    let mut stage = searching(&mut manager);
    assert!(matches!(
        manager.ensure_installation(&mut stage, search(None, false)),
        EnsureAction::QueryLatest(_)
    ));
    let latest = EnsureEvent::Latest(Ok("1.2.0".to_string()));
    match manager.ensure_installation(&mut stage, latest) {
        EnsureAction::Install { prefix, version, .. } => {
            assert_eq!(prefix, "/h/.local");
            assert_eq!(version, "1.2.0");
        }
        _ => panic!("not installed"),
    }
    assert_eq!(manager.update_status.detail.as_deref(), Some("正在准备 DSH 1.2.0"));
    match manager.ensure_installation(&mut stage, EnsureEvent::Installed(Ok(()))) {
        EnsureAction::Inspect { dsh_command, update_prefix, .. } => {
            assert_eq!(dsh_command, "/h/.local/bin/dsh");
            assert_eq!(update_prefix.as_deref(), Some("/h/.local"));
        }
        _ => panic!("not inspected"),
    }
    let inspected = EnsureEvent::Inspected(Ok(installation("1.2.0", Some("/h/.local"))));
    assert!(matches!(
        manager.ensure_installation(&mut stage, inspected),
        EnsureAction::ConfigureTerminal(_)
    ));
    assert!(manager.installation.is_none());
    assert!(matches!(
        manager.ensure_installation(&mut stage, EnsureEvent::Configured(Ok(()))),
        EnsureAction::Finish(Ok(_))
    ));
    assert!(manager.installation.is_some());
}

#[test]
fn a_failed_first_installation_is_explained() {
    let mut manager = manager();
    let mut stage = searching(&mut manager);
    manager.ensure_installation(&mut stage, search(None, false));
    manager.ensure_installation(&mut stage, EnsureEvent::Latest(Ok("1.2.0".to_string())));
    let event = EnsureEvent::Installed(Err("EACCES".to_string()));
    match manager.ensure_installation(&mut stage, event) {
        EnsureAction::Finish(Err(error)) => assert_eq!(
            error,
            "无法写入用户级安装目录，请检查 ~/.local 的权限。 详细信息已写入日志。"
        ),
        _ => panic!("not refused"),
    }
    let mut managed = searching(&mut manager);
    match manager.ensure_installation(&mut managed, search(None, true)) {
        EnsureAction::Inspect { dsh_command, .. } => assert_eq!(dsh_command, "/h/.local/bin/dsh"),
        _ => panic!("not inspected"),
    }
    let inspected = EnsureEvent::Inspected(Ok(installation("1.2.0", Some("/h/.local"))));
    manager.ensure_installation(&mut managed, inspected);
    let event = EnsureEvent::Configured(Err("ksh".to_string()));
    assert!(matches!(
        manager.ensure_installation(&mut managed, event),
        EnsureAction::Finish(Err(error)) if error == "ksh"
    ));
    assert!(manager.installation.is_none());
}

#[test]
fn a_start_finds_the_runtime_that_runs() {
    let mut manager = manager();
    assert!(matches!(manager.start(true), StartDecision::Ensure));
    let info = manager.finish_launch("1.2.0", "http://127.0.0.1:1".to_string());
    assert_eq!(info.dsh_version, "1.2.0");
    assert!(matches!(manager.start(true), StartDecision::Running(_)));
    assert!(matches!(manager.start(false), StartDecision::Ensure));
    manager.terminate();
    assert!(manager.shutting_down && manager.startup.is_none());
    assert_eq!(launch_error("1.2.0", "late"), "DSH 1.2.0 启动失败：late");
    assert_eq!(manager.open_logs().arguments, ["/data/logs"]);
    let plan = manager.launch_command(
        &installation("1.2.0", Some("/p")),
        &Some("/smoke".to_string()),
        "/h",
        &Some("/p/bin:/usr/bin".to_string()),
        &None,
    );
    assert_eq!(plan.program, "/p/bin/dsh");
    assert_eq!(plan.arguments, ["web", "--port", "0"]);
    assert_eq!(plan.directory.as_deref(), Some("/h"));
    assert_eq!(plan.environment[2], entry("PATH", "/p/bin:/usr/bin"));
    assert_eq!(plan.environment[5], entry("DSH_HOME", "/smoke"));
}

fn weighed(
    manager: &mut RuntimeManager,
    force: bool,
    current: RuntimeInstallation,
    latest: &str,
) -> (RuntimeCheck, CheckAction) {
    manager.installation = Some(current.clone());
    let mut check = manager.check_for_updates(force).expect("check");
    assert!(manager.check_for_updates(force).is_none());
    assert!(matches!(
        manager.advance(&mut check, CheckEvent::Begin { now: 50 }),
        CheckAction::Save
    ));
    assert!(matches!(
        manager.advance(&mut check, CheckEvent::Saved),
        CheckAction::Ensure
    ));
    assert!(matches!(
        manager.advance(&mut check, CheckEvent::Ensured(Ok(current))),
        CheckAction::Query(_)
    ));
    assert!(matches!(
        manager.advance(&mut check, CheckEvent::Latest(Ok(latest.to_string()))),
        CheckAction::Save
    ));
    let action = manager.advance(&mut check, CheckEvent::Saved);
    (check, action)
}

#[test]
fn an_update_in_place_needs_consent() {
    let mut manager = manager();
    let (mut check, action) =
        weighed(&mut manager, true, installation("1.0.0", Some("/p")), "1.2.0");
    match action {
        CheckAction::Ask(question) => assert_eq!(
            question,
            "发现 DSH 1.2.0。\n\n更新会在原安装位置 /p 替换 DSH，不会改变命令位置。\n\n安装前会先在临时目录完成启动验证。"
        ),
        _ => panic!("not asked"),
    }
    assert_eq!(
        manager.update_status.detail.as_deref(),
        Some("将在当前 DSH 的原安装位置更新")
    );
    match manager.advance(&mut check, CheckEvent::Answered { accepted: true }) {
        CheckAction::Update { version, .. } => assert_eq!(version, "1.2.0"),
        _ => panic!("not updated"),
    }
    let updated = CheckEvent::Updated(Ok(installation("1.2.0", Some("/p"))));
    match manager.advance(&mut check, updated) {
        CheckAction::Finish { result, notice: None } => {
            let report = manager.finish_check(result, true);
            assert_eq!(report.restart.as_deref(), Some("DSH Desktop · DSH 1.2.0 已安装"));
            assert!(report.notice.is_none());
        }
        _ => panic!("not finished"),
    }
    assert!(manager.shutting_down);
    assert_eq!(manager.update_status.phase, RuntimeUpdatePhase::Ready);
    assert_eq!(manager.snapshot().current_version, "1.2.0");
}

#[test]
fn an_update_that_is_declined_or_not_possible_stays_available() {
    let mut declined = manager();
    let (mut check, _) = weighed(&mut declined, true, installation("1.0.0", Some("/p")), "1.2.0");
    assert!(matches!(
        declined.advance(&mut check, CheckEvent::Answered { accepted: false }),
        CheckAction::Finish { result: Ok(UpdateOutcome::Available(version)), notice: None }
            if version == "1.2.0"
    ));
    let mut unknown = manager();
    let (_, action) = weighed(&mut unknown, true, installation("1.0.0", None), "1.2.0");
    match action {
        CheckAction::Finish { result, notice: Some(notice) } => {
            assert_eq!(
                notice,
                "发现 DSH 1.2.0，但无法确认当前 DSH /p/bin/dsh 的安装方式。\n\n为避免改变安装位置，DSH Desktop 不会自动更新它。请使用原来的包管理器完成更新。"
            );
            unknown.finish_check(result, true);
        }
        _ => panic!("not told"),
    }
    assert_eq!(unknown.update_status.phase, RuntimeUpdatePhase::Available);
    assert_eq!(
        unknown.update_status.detail.as_deref(),
        Some("请使用原来的安装方式更新 DSH")
    );
    let mut quiet = manager();
    let (_, action) = weighed(&mut quiet, false, installation("1.0.0", Some("/p")), "1.2.0");
    assert!(matches!(
        action,
        CheckAction::Finish { result: Ok(UpdateOutcome::Available(_)), notice: None }
    ));
    let mut current = manager();
    let (_, action) = weighed(&mut current, true, installation("1.2.0", Some("/p")), "1.2.0");
    assert!(matches!(
        action,
        CheckAction::Finish { result: Ok(UpdateOutcome::Current), notice: None }
    ));
    current.finish_check(Ok(UpdateOutcome::Current), true);
    assert_eq!(current.update_status.detail.as_deref(), Some("已是最新版本"));
    assert_eq!(manager().update_available_detail(), "发现 DSH 新版本");
}

#[test]
fn a_check_that_is_skipped_or_fails_is_shown() {
    let mut manager = manager();
    manager.installation = Some(installation("1.0.0", Some("/p")));
    manager.state.last_update_attempt = Some(40);
    let mut check = manager.check_for_updates(false).unwrap();
    match manager.advance(&mut check, CheckEvent::Begin { now: 50 }) {
        CheckAction::Finish { result, .. } => {
            manager.finish_check(result, false);
        }
        _ => panic!("not skipped"),
    }
    assert_eq!(manager.update_status.detail.as_deref(), Some("当前版本 1.0.0"));
    for force in [false, true] {
        let report = manager.finish_check(Err("ECONNRESET".to_string()), force);
        assert_eq!(
            manager.update_status.detail.as_deref(),
            Some("无法连接 npm，请检查网络或 npm 代理配置后重试。")
        );
        assert_eq!(
            report.notice.is_some(),
            force
        );
        if let Some((title, text)) = report.notice {
            assert_eq!(title, "DSH 更新失败");
            assert_eq!(
                text,
                "无法连接 npm，请检查网络或 npm 代理配置后重试。\n\n更新已经停止，详细信息已写入日志。"
            );
        }
    }
    let mut check = manager.schedule_update_check(0).unwrap();
    assert!(manager.schedule_update_check(0).is_none());
    let delay = UPDATE_DELAY_SECS * NANOS_PER_SEC;
    assert_eq!(delay, 60_000_000_000);
    assert_eq!(manager.wait_for_check(&mut check, delay - 7), Tick::Sleep(7));
    assert_eq!(manager.wait_for_check(&mut check, delay), Tick::Fire);
    assert_eq!(manager.wait_for_check(&mut check, delay + 1), Tick::Stop);
    assert_eq!(
        RuntimeUpdateSnapshot::unreadable().detail.as_deref(),
        Some("无法读取 DSH 更新状态")
    );
}

fn update(manager: &RuntimeManager) -> UpdateRun {
    manager
        .install_and_verify_update(&installation("1.0.0", Some("/p")), "1.2.0", 77)
        .unwrap()
}

fn replaced(manager: &mut RuntimeManager) -> UpdateRun {
    let mut run = update(manager);
    match manager.advance_update(&mut run, UpdateEvent::Prepared) {
        UpdateAction::Install { prefix, version, .. } => {
            assert_eq!(prefix, "/data/runtime-staging/1.2.0-77");
            assert_eq!(version, "1.2.0");
        }
        _ => panic!("not staged"),
    }
    assert!(matches!(
        manager.advance_update(&mut run, UpdateEvent::Installed(Ok(()))),
        UpdateAction::Inspect { prefix } if prefix == "/data/runtime-staging/1.2.0-77"
    ));
    let inspected = UpdateEvent::Inspected { now: 78, result: Ok(installation("1.2.0", None)) };
    assert!(matches!(
        manager.advance_update(&mut run, inspected),
        UpdateAction::Smoke { home } if home == "/data/runtime-smoke/1.2.0-78"
    ));
    assert_eq!(manager.update_status.phase, RuntimeUpdatePhase::Verifying);
    match manager.advance_update(&mut run, UpdateEvent::SmokeRan(Ok(()))) {
        UpdateAction::Install { discard, prefix, version } => {
            assert_eq!(
                discard,
                ["/data/runtime-smoke/1.2.0-78", "/data/runtime-staging/1.2.0-77"]
            );
            assert_eq!(prefix, "/p");
            assert_eq!(version, "1.2.0");
        }
        _ => panic!("not replaced"),
    }
    assert_eq!(
        manager.update_status.detail.as_deref(),
        Some("正在原安装位置更新 DSH 1.2.0")
    );
    run
}

#[test]
fn an_update_is_tried_before_it_replaces_anything() {
    let mut manager = manager();
    let mut run = replaced(&mut manager);
    assert!(matches!(
        manager.advance_update(&mut run, UpdateEvent::Installed(Ok(()))),
        UpdateAction::Inspect { prefix } if prefix == "/p"
    ));
    let inspected = UpdateEvent::Inspected { now: 80, result: Ok(installation("1.2.0", Some("/p"))) };
    assert!(matches!(
        manager.advance_update(&mut run, inspected),
        UpdateAction::Finish { result: Ok(installed), .. } if installed.dsh_version == "1.2.0"
    ));
    assert_eq!(
        manager
            .install_and_verify_update(&installation("1.0.0", None), "1.2.0", 77)
            .err()
            .as_deref(),
        Some("当前 DSH 的安装方式无法识别，不能自动更新")
    );
    assert_eq!(
        rollback_message("x", "1.0.0", &None),
        "x；现有 DSH 1.0.0 未被修改"
    );
}

#[test]
fn a_failed_replacement_is_rolled_back() {
    for case in 0..3 {
        let mut manager = manager();
        let mut run = replaced(&mut manager);
        let action = match case {
            0 => manager.advance_update(&mut run, UpdateEvent::Installed(Err("E1".to_string()))),
            _ => {
                manager.advance_update(&mut run, UpdateEvent::Installed(Ok(())));
                let result = if case == 1 {
                    Ok(installation("1.1.0", Some("/p")))
                } else {
                    Err("E2".to_string())
                };
                manager.advance_update(&mut run, UpdateEvent::Inspected { now: 80, result })
            }
        };
        match action {
            UpdateAction::Install { prefix, version, .. } => {
                assert_eq!(prefix, "/p");
                assert_eq!(version, "1.0.0");
            }
            _ => panic!("not rolled back"),
        }
        let (second, expected) = match case {
            0 => (Ok(()), "E1；已恢复 DSH 1.0.0"),
            1 => (
                Ok(()),
                "安装后版本不匹配：预期 1.2.0，实际 1.1.0；已恢复 DSH 1.0.0",
            ),
            _ => (Err("E3".to_string()), "E2；恢复 DSH 1.0.0 也失败：E3"),
        };
        match manager.advance_update(&mut run, UpdateEvent::Installed(second)) {
            UpdateAction::Finish { result, .. } => assert_eq!(result.unwrap_err(), expected),
            _ => panic!("not finished"),
        }
    }
}

#[test]
fn a_failed_trial_changes_nothing_in_place() {
    let stage = "/data/runtime-staging/1.2.0-77";
    for case in 0..5 {
        let mut manager = manager();
        let mut run = update(&manager);
        let mut action;
        if case == 0 {
            let fault = InstallFault::CreateStage("full".to_string());
            action = manager.advance_update(&mut run, UpdateEvent::NotPrepared(fault));
        } else {
            manager.advance_update(&mut run, UpdateEvent::Prepared);
            let installed = if case == 1 { Err("E1".to_string()) } else { Ok(()) };
            action = manager.advance_update(&mut run, UpdateEvent::Installed(installed));
            if case > 1 {
                let result = match case {
                    2 => Err("E2".to_string()),
                    3 => Ok(installation("1.1.0", None)),
                    _ => Ok(installation("1.2.0", None)),
                };
                let event = UpdateEvent::Inspected { now: 78, result };
                action = manager.advance_update(&mut run, event);
            }
            if case > 3 {
                let event = UpdateEvent::SmokeRan(Err("late".to_string()));
                action = manager.advance_update(&mut run, event);
            }
        }
        match action {
            UpdateAction::Finish { discard, result } => {
                assert_eq!(
                    result.unwrap_err(),
                    [
                        "无法创建更新暂存目录：full",
                        "E1",
                        "新版本验证失败：E2",
                        "新版本验证失败：预期 1.2.0，实际 1.1.0",
                        "新版本启动验证失败：late",
                    ][case]
                );
                assert_eq!(discard.last().map(String::as_str), (case > 0).then_some(stage));
            }
            _ => panic!("not given up"),
        }
    }
}
