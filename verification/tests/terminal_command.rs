use dsh_desktop::host::Platform;
use dsh_desktop::menu::{
    install_report, menu_action, uninstall_report, window_action, MenuAction, WindowAction,
    WindowChange,
};
use dsh_desktop::paths::FoundPaths;
use dsh_desktop::shell::{fish_shell_config, posix_shell_config};
use dsh_desktop::terminal_command::{
    choose_command_name, configure_shell_targets, fish_config_path, fish_quote, installed,
    is_managed_shim, legacy_profile, legacy_profile_to_clean, managed_path_marker_counts,
    path_owned_before, paths_equal, removal_step, remove_managed_path_block, remove_path_block,
    resolution_from_where, resolve_command, resolve_config_dir, shell_path_change, shell_quote,
    shell_targets, shim_path, superseded_shim, user_path_change, user_path_removal,
    validate_shell_config, validate_terminal_path_removal, zsh_config_path, CommandResolution,
    FileContents, FileStep, InstallMetadata, InstallPlan, InstallSeen, ObservedConfig, PathChange,
    RecordedConfig, RefreshAction, RefreshStep, ShellConfigKind, ShellConfigTarget, TerminalCommandInstall,
    TerminalCommandManager, CONFIG_NAME, LAUNCHER_NAME, METADATA_NAME, PATH_BLOCK_END,
    PATH_BLOCK_START, SHIM_MARKER, TERMINAL_LAUNCHER,
};

const HERE: Platform = Platform::Other;

#[test]
fn preserves_an_existing_dsh_command_name() {
    assert_eq!(choose_command_name(None, true, false), "dsh-desktop");
    assert_eq!(choose_command_name(None, false, true), "dsh-desktop");
    assert_eq!(choose_command_name(None, false, false), "dsh");
    assert_eq!(choose_command_name(Some("dsh"), true, true), "dsh");
}

#[test]
fn removes_only_the_managed_profile_block() {
    let input = format!(
        "export EDITOR=vim\n{PATH_BLOCK_START}\nexport PATH=\"$HOME/.local/bin:$PATH\"\n{PATH_BLOCK_END}\nalias ll='ls -l'\n"
    );
    assert_eq!(
        remove_path_block(&input),
        "export EDITOR=vim\nalias ll='ls -l'\n"
    );
}

fn written(step: &FileStep) -> String {
    match step {
        FileStep::Write(text) => text.clone(),
        other => panic!("{other:?}"),
    }
}

#[test]
fn configures_zsh_and_fish_and_migrates_the_legacy_profile() {
    let home = "/tmp/dsh desktop shell config test/home";
    let bin_dir = "/tmp/dsh desktop shell config test/application support/terminal/bin";
    let legacy = format!("{home}/.zprofile");
    let legacy_text = format!(
        "export EDITOR=vim\n{PATH_BLOCK_START}\nexport PATH=/old/path:\"$PATH\"\n{PATH_BLOCK_END}\n"
    );
    let zsh_config = zsh_config_path(home, &None, &None, HERE);
    let fish_config = fish_config_path(home, &None, HERE);
    assert_eq!(zsh_config, format!("{home}/.zshrc"));
    assert_eq!(fish_config, format!("{home}/.config/fish/conf.d/dsh-desktop.fish"));
    let configs: Vec<ObservedConfig> = shell_targets(zsh_config.clone(), fish_config.clone())
        .into_iter()
        .map(|target| ObservedConfig { target, contents: FileContents::Missing })
        .collect();
    let steps = configure_shell_targets(bin_dir, &configs).expect("configure shell paths");
    let result = shell_path_change(&configs, true);
    assert_eq!(result.configured_shells, ["zsh", "fish"]);
    assert!(result.added);

    let profile = legacy_profile_to_clean(Some(legacy.clone()), &result.config_paths, HERE);
    assert_eq!(profile.as_deref(), Some(legacy.as_str()));
    let cleaned = remove_managed_path_block(&legacy, &FileContents::Text(legacy_text));
    assert_eq!(written(&cleaned), "export EDITOR=vim\n");

    let zsh_text = written(&steps[0]);
    let fish_text = written(&steps[1]);
    assert!(zsh_text.contains(PATH_BLOCK_START));
    assert!(zsh_text.contains(&format!("export PATH='{bin_dir}':\"$PATH\"")));
    assert!(fish_text.contains(SHIM_MARKER));
    assert!(fish_text.contains(&format!("set -gx PATH '{bin_dir}' $PATH")));

    let recorded = vec![
        RecordedConfig { path: zsh_config, contents: FileContents::Text(zsh_text) },
        RecordedConfig { path: fish_config, contents: FileContents::Text(fish_text) },
    ];
    assert!(validate_terminal_path_removal(&recorded, HERE).is_ok());
    assert!(!written(&removal_step(&recorded[0], HERE)).contains(PATH_BLOCK_START));
    assert!(matches!(removal_step(&recorded[1], HERE), FileStep::Delete));
}

#[test]
fn quoting_survives_odd_directories() {
    assert_eq!(shell_quote("/a b/it's"), "'/a b/it'\"'\"'s'");
    assert_eq!(fish_quote("/a b/it's\\x"), "'/a b/it\\'s\\\\x'");
}

#[test]
fn a_profile_is_written_once_and_taken_back() {
    let existing = "export A=1\nexport B=2";
    let once = posix_shell_config(existing, "/bin dir");
    assert_eq!(
        once,
        format!(
            "export A=1\nexport B=2\n{PATH_BLOCK_START}\ncase \":$PATH:\" in\n  *:'/bin dir':*) ;;\n  *) export PATH='/bin dir':\"$PATH\" ;;\nesac\n{PATH_BLOCK_END}\n"
        )
    );
    assert_eq!(posix_shell_config(&once, "/bin dir"), once);
    assert_eq!(managed_path_marker_counts(&once), (1, 1));
    assert_eq!(remove_path_block(&once), "export A=1\nexport B=2\n");
    assert_eq!(remove_path_block(&remove_path_block(&once)), remove_path_block(&once));
    let foreign = format!("echo {PATH_BLOCK_END} {PATH_BLOCK_START}");
    assert_eq!(remove_path_block(&foreign), foreign);
    assert_eq!(
        fish_shell_config("/b"),
        format!("# {SHIM_MARKER}\nif not contains -- '/b' $PATH\n    set -gx PATH '/b' $PATH\nend\n")
    );
}

fn observed(kind: ShellConfigKind, contents: FileContents) -> ObservedConfig {
    ObservedConfig {
        target: ShellConfigTarget { name: "x".to_string(), path: "/c".to_string(), kind },
        contents,
    }
}

fn text(value: &str) -> FileContents {
    FileContents::Text(value.to_string())
}

#[test]
fn files_of_others_are_left_alone() {
    let foreign = observed(ShellConfigKind::Fish, text("set -x A 1\n"));
    assert_eq!(
        validate_shell_config(&foreign),
        Err("/c 已存在且不是由 DSH Desktop 创建，应用不会覆盖它。".to_string())
    );
    let broken = observed(ShellConfigKind::Posix, text(PATH_BLOCK_START));
    assert_eq!(
        validate_shell_config(&broken),
        Err("/c 中的 DSH Desktop PATH 配置不完整，请先检查该文件。".to_string())
    );
    let configs = vec![observed(ShellConfigKind::Posix, FileContents::Missing), foreign];
    assert!(configure_shell_targets("/b", &configs).is_err());
    let kept = vec![observed(ShellConfigKind::Fish, text(&fish_shell_config("/b")))];
    assert!(matches!(
        configure_shell_targets("/b", &kept).unwrap()[0],
        FileStep::Keep
    ));
    let unreadable = vec![observed(
        ShellConfigKind::Posix,
        FileContents::Unreadable("denied".to_string()),
    )];
    assert!(matches!(
        &configure_shell_targets("/b", &unreadable).unwrap()[0],
        FileStep::Refuse(reason) if reason == "无法读取 /c：denied"
    ));
}

#[test]
fn a_removal_is_checked_as_a_whole() {
    let config = |path: &str, contents: FileContents| RecordedConfig {
        path: path.to_string(),
        contents,
    };
    let fish = "/f/dsh-desktop.fish";
    let cases = [
        (config(fish, text("mine")), Some("/f/dsh-desktop.fish 已被修改，DSH Desktop 不会删除它。")),
        (
            config("/z", text(PATH_BLOCK_END)),
            Some("/z 中的 DSH Desktop PATH 配置不完整，请先检查该文件。"),
        ),
        (
            config("/z", FileContents::Unreadable("denied".to_string())),
            Some("无法读取 /z：denied"),
        ),
        (config("/z", FileContents::Missing), None),
        (config("/z", text("A=1")), None),
    ];
    for (config, refusal) in cases {
        let list = vec![config];
        assert_eq!(
            validate_terminal_path_removal(&list, HERE).err().as_deref(),
            refusal
        );
        assert!(validate_terminal_path_removal(&list, Platform::Windows).is_ok());
    }
    assert!(matches!(
        removal_step(&config(fish, text("mine")), HERE),
        FileStep::Refuse(reason) if reason == "/f/dsh-desktop.fish 已被修改，DSH Desktop 不会删除它。"
    ));
    assert!(matches!(
        removal_step(&config(fish, FileContents::Missing), HERE),
        FileStep::Keep
    ));
    assert!(matches!(
        removal_step(&config(fish, FileContents::Unreadable("x".to_string())), HERE),
        FileStep::Refuse(reason) if reason == "无法读取 /f/dsh-desktop.fish：x"
    ));
    assert!(matches!(removal_step(&config("/z", text("A=1")), HERE), FileStep::Keep));
}

#[test]
fn shells_say_where_their_files_are() {
    let some = |value: &str| Some(value.to_string());
    assert_eq!(zsh_config_path("/h", &some("/z"), &None, HERE), "/z/.zshrc");
    assert_eq!(zsh_config_path("/h", &some("dot"), &None, HERE), "/h/dot/.zshrc");
    let report = Some(b"noise\n__DSH_DESKTOP__/r\n__DSH_DESKTOP__/s\n".to_vec());
    assert_eq!(zsh_config_path("/h", &some(""), &report, HERE), "/r/.zshrc");
    let empty = Some(b"__DSH_DESKTOP__\n__DSH_DESKTOP__/s\n".to_vec());
    assert_eq!(zsh_config_path("/h", &None, &empty, HERE), "/h/.zshrc");
    assert_eq!(
        fish_config_path("/h", &some("cfg"), HERE),
        "/h/cfg/fish/conf.d/dsh-desktop.fish"
    );
    assert_eq!(
        fish_config_path("/h", &some(""), HERE),
        "/h/.config/fish/conf.d/dsh-desktop.fish"
    );
    assert_eq!(resolve_config_dir("/h", "/abs", HERE), "/abs");
}

#[test]
fn the_path_of_a_windows_user_is_changed_by_a_script() {
    let change = |success: bool, out: &[u8], owned: bool| {
        user_path_change(success, &out.to_vec(), &b" denied \r\n".to_vec(), owned)
    };
    let added = change(true, b"added\r\n", false).unwrap();
    assert!(added.added && added.config_paths.is_empty());
    assert_eq!(added.configured_shells, ["Windows"]);
    assert!(!change(true, b"present\r\n", false).unwrap().added);
    assert!(change(true, b"present\r\n", true).unwrap().added);
    assert_eq!(
        change(false, b"added", true).err().as_deref(),
        Some("无法更新当前用户 PATH：denied")
    );
    assert_eq!(user_path_removal(true, &Vec::new()), Ok(()));
    assert_eq!(
        user_path_removal(false, &b" denied \n".to_vec()),
        Err("无法恢复当前用户 PATH：denied".to_string())
    );
}

fn manager() -> TerminalCommandManager {
    TerminalCommandManager::new(
        "/data",
        "/res/it's/node".to_string(),
        "/res/bootstrap-runtime".to_string(),
        "/data/runtime/versions".to_string(),
        "/data/runtime/state.json".to_string(),
        HERE,
    )
}

fn metadata(command: &str, path_added: bool) -> InstallMetadata {
    InstallMetadata {
        command: command.to_string(),
        shim_path: format!("/data/terminal/bin/{command}"),
        profile_path: Some("/h/.zprofile".to_string()),
        shell_config_paths: vec!["/h/.zshrc".to_string()],
        path_added,
    }
}

fn absent() -> CommandResolution {
    CommandResolution { exists: false, path: None }
}

fn at(path: &str) -> CommandResolution {
    CommandResolution { exists: true, path: Some(path.to_string()) }
}

fn fresh() -> InstallSeen {
    InstallSeen {
        metadata: None,
        recorded_shim: FileContents::Missing,
        dsh_target: FileContents::Missing,
        desktop_target: FileContents::Missing,
        dsh: absent(),
        desktop: absent(),
    }
}

#[test]
fn the_command_file_starts_the_launcher() {
    let manager = manager();
    assert_eq!(manager.bin_dir(), "/data/terminal/bin");
    assert_eq!(manager.file(METADATA_NAME), "/data/terminal/terminal-command.json");
    assert_eq!(manager.file(CONFIG_NAME), "/data/terminal/terminal-runtime.json");
    assert_eq!(
        manager.shim_contents(),
        format!(
            "#!/bin/sh\n# {SHIM_MARKER}\nexec '/res/it'\"'\"'s/node' '/data/terminal/{LAUNCHER_NAME}' \"$@\"\n"
        )
    );
    let windows = TerminalCommandManager::new(
        "C:\\data",
        "C:\\node.exe".to_string(),
        String::new(),
        String::new(),
        String::new(),
        Platform::Windows,
    );
    assert_eq!(
        windows.shim_contents(),
        "@echo off\r\nrem Managed by DSH Desktop\r\nsetlocal\r\nset \"DSH_DESKTOP_TERMINAL_CWD=%CD%\"\r\npushd \"C:\\data\\terminal\" >nul || exit /b 1\r\n\"C:\\node.exe\" \"terminal-launcher.mjs\" %*\r\nset \"DSH_DESKTOP_EXIT=%ERRORLEVEL%\"\r\npopd >nul\r\nexit /b %DSH_DESKTOP_EXIT%\r\n"
    );
    assert!(is_managed_shim(&text(&windows.shim_contents())));
    assert!(is_managed_shim(&text(&manager.shim_contents())));
    assert!(!is_managed_shim(&text("#!/bin/sh\n")));
    assert!(!is_managed_shim(&FileContents::Missing));
    let config = manager.launcher_config();
    assert_eq!(config.state_path, "/data/runtime/state.json");
    assert_eq!(config.runtimes_path, "/data/runtime/versions");
    assert_eq!(config.bundled_runtime, "/res/bootstrap-runtime");
    assert!(TERMINAL_LAUNCHER.contains("\"terminal-runtime.json\""));
    assert_eq!(shim_path("C:\\b", "dsh", Platform::Windows), "C:\\b\\dsh.cmd");
}

#[test]
fn an_installed_command_is_refreshed_while_it_is_ours() {
    let manager = manager();
    let ours = text(&manager.shim_contents());
    let recorded = Some(metadata("dsh", true));
    for failed in [Some(0), Some(1), Some(2), None] {
        let mut refresh = manager.refresh_if_installed(&recorded, &ours).unwrap();
        let mut written = Vec::new();
        for step in 0..6 {
            match manager.refresh_action(&refresh) {
                RefreshAction::MakeDirectory { path } => written.push(path),
                RefreshAction::WriteLauncher { path, text } => {
                    assert_eq!(text, TERMINAL_LAUNCHER);
                    written.push(path);
                }
                RefreshAction::WriteConfig { path, config } => {
                    assert_eq!(config.state_path, "/data/runtime/state.json");
                    written.push(path);
                }
                RefreshAction::WriteCommand { path, text } => {
                    assert_eq!(text, manager.shim_contents());
                    written.push(path);
                }
                RefreshAction::Finish => {}
            }
            refresh.advance(failed != Some(step));
        }
        let all = [
            "/data/terminal",
            "/data/terminal/terminal-launcher.mjs",
            "/data/terminal/terminal-runtime.json",
            "/data/terminal/bin/dsh",
        ];
        assert_eq!(written, all[..failed.map_or(4, |step| step + 1)]);
        assert_eq!(refresh.step, RefreshStep::Done);
    }
    assert!(manager.refresh_if_installed(&recorded, &text("other")).is_none());
    assert!(manager.refresh_if_installed(&None, &ours).is_none());
}

#[test]
fn a_profile_gets_one_block_and_loses_it_again() {
    for existing in ["", "export EDITOR=vim", "a\n\nb\n"] {
        for directory in ["/data/terminal/bin", "/it's/# >>> DSH 'Desktop"] {
            let written = posix_shell_config(existing, directory);
            assert_eq!(managed_path_marker_counts(&written), (1, 1));
            let ended = if existing.is_empty() || existing.ends_with('\n') {
                existing.to_string()
            } else {
                format!("{existing}\n")
            };
            assert_eq!(remove_path_block(&written), ended);
        }
    }
}

fn planned(seen: &InstallSeen) -> (Option<String>, Result<(String, String), String>) {
    let decision = manager().install(seen);
    (
        decision.remove_first,
        decision.outcome.map(|plan| (plan.command, plan.target)),
    )
}

fn plan(command: &str) -> Result<(String, String), String> {
    Ok((command.to_string(), format!("/data/terminal/bin/{command}")))
}

#[test]
fn a_free_name_is_taken_and_a_foreign_one_is_not() {
    assert_eq!(planned(&fresh()), (None, plan("dsh")));
    let foreign = InstallSeen { dsh: at("/usr/bin/dsh"), ..fresh() };
    assert_eq!(planned(&foreign), (None, plan("dsh-desktop")));
    let both = InstallSeen { desktop: at("/usr/bin/dsh-desktop"), ..foreign };
    assert_eq!(
        planned(&both),
        (
            None,
            Err("终端中已经有另一个 dsh-desktop，DSH Desktop 不会改变它的优先级。".to_string())
        )
    );
    let occupied = InstallSeen { dsh_target: text("#!/bin/sh\n"), ..fresh() };
    assert_eq!(
        planned(&occupied),
        (
            None,
            Err("/data/terminal/bin/dsh 已存在；加入命令目录会改变它的优先级，因此 DSH Desktop 没有修改 PATH。".to_string())
        )
    );
    let desktop = InstallSeen {
        dsh: at("/usr/bin/dsh"),
        desktop_target: text("#!/bin/sh\n"),
        ..fresh()
    };
    assert_eq!(
        planned(&desktop),
        (
            None,
            Err("/data/terminal/bin/dsh-desktop 已存在，DSH Desktop 不会覆盖它。请先确认该文件的用途。".to_string())
        )
    );
}

#[test]
fn an_installed_name_is_kept_while_it_is_ours() {
    let ours = || text(&manager().shim_contents());
    let again = InstallSeen {
        metadata: Some(metadata("dsh", true)),
        recorded_shim: ours(),
        dsh_target: ours(),
        dsh: at("/data/terminal/bin/dsh"),
        ..fresh()
    };
    assert_eq!(planned(&again), (None, plan("dsh")));
    let overtaken = InstallSeen { dsh: at("/usr/bin/dsh"), ..again };
    assert_eq!(
        planned(&overtaken),
        (Some("/data/terminal/bin/dsh".to_string()), plan("dsh-desktop"))
    );
    let refused = InstallSeen { desktop_target: text("mine"), ..overtaken };
    let (removed, outcome) = planned(&refused);
    assert_eq!(removed.as_deref(), Some("/data/terminal/bin/dsh"));
    assert!(outcome.is_err());
    let adopted = InstallSeen { dsh_target: ours(), ..fresh() };
    assert_eq!(planned(&adopted), (None, plan("dsh")));
    let desktop = InstallSeen {
        metadata: Some(metadata("dsh-desktop", true)),
        recorded_shim: ours(),
        desktop_target: ours(),
        desktop: at("/data/terminal/bin/dsh-desktop"),
        ..fresh()
    };
    assert_eq!(planned(&desktop), (None, plan("dsh-desktop")));
}

#[test]
fn an_earlier_command_file_is_removed_when_another_takes_its_place() {
    let recorded = Some(metadata("dsh-desktop", true));
    let ours = text(&manager().shim_contents());
    assert_eq!(
        superseded_shim(&recorded, &ours, "/data/terminal/bin/dsh", HERE).as_deref(),
        Some("/data/terminal/bin/dsh-desktop")
    );
    assert_eq!(
        superseded_shim(&recorded, &ours, "/data/terminal//bin/dsh-desktop", HERE),
        None
    );
    assert_eq!(superseded_shim(&recorded, &text("x"), "/other", HERE), None);
    let windows = Some(InstallMetadata {
        shim_path: "c:\\data/bin\\dsh.cmd".to_string(),
        ..metadata("dsh", true)
    });
    assert_eq!(
        superseded_shim(&windows, &ours, "C:\\data\\bin\\dsh.cmd", Platform::Windows),
        None
    );
    assert!(superseded_shim(&windows, &ours, "D:\\data\\bin\\dsh.cmd", Platform::Windows).is_some());
    assert_eq!(superseded_shim(&None, &ours, "/other", HERE), None);
    assert_eq!(legacy_profile(&recorded).as_deref(), Some("/h/.zprofile"));
    assert_eq!(legacy_profile(&Some(metadata("dsh", false))), None);
    assert!(path_owned_before(&recorded));
    assert!(!path_owned_before(&None));
    assert_eq!(
        legacy_profile_to_clean(Some("/h/./.zshrc".to_string()), &vec!["/h/.zshrc".to_string()], HERE),
        None
    );
}

#[test]
fn an_installation_is_recorded_and_reported() {
    let change = PathChange {
        config_paths: vec!["/h/.zshrc".to_string()],
        configured_shells: vec!["zsh".to_string(), "fish".to_string()],
        added: true,
    };
    let plan = InstallPlan { command: "dsh".to_string(), target: "/b/dsh".to_string() };
    let (metadata, report) = installed(plan, change);
    assert_eq!(metadata.command, "dsh");
    assert_eq!(metadata.shim_path, "/b/dsh");
    assert_eq!(metadata.profile_path, None);
    assert_eq!(metadata.shell_config_paths, ["/h/.zshrc"]);
    assert!(metadata.path_added);
    assert_eq!(
        install_report(&report),
        "已安装命令：dsh\n位置：/b/dsh\n\n已配置：zsh、fish。请打开新的终端会话后使用。"
    );
    let bare = TerminalCommandInstall { configured_shells: Vec::new(), ..report };
    assert_eq!(
        install_report(&bare),
        "已安装命令：dsh\n位置：/b/dsh\n\n请关闭并重新打开终端后使用。"
    );
    assert_eq!(uninstall_report("dsh"), "已移除 dsh。重新打开终端后生效。");
}

#[test]
fn only_our_command_is_taken_away() {
    let manager = manager();
    let ours = text(&manager.shim_contents());
    let plan = manager.uninstall(Some(metadata("dsh", true)), &ours).ok().unwrap();
    assert_eq!(plan.command, "dsh");
    assert_eq!(plan.clean.unwrap(), ["/h/.zshrc", "/h/.zprofile"]);
    assert_eq!(plan.shim.as_deref(), Some("/data/terminal/bin/dsh"));
    assert_eq!(
        plan.files,
        [
            "/data/terminal/terminal-command.json",
            "/data/terminal/terminal-launcher.mjs",
            "/data/terminal/terminal-runtime.json",
        ]
    );
    assert_eq!(plan.files, manager.recorded_files());
    let gone = manager
        .uninstall(Some(metadata("dsh", false)), &FileContents::Missing)
        .ok()
        .unwrap();
    assert!(gone.clean.is_none() && gone.shim.is_none());
    assert_eq!(gone.files, plan.files);
    assert_eq!(
        manager.uninstall(None, &ours).err().as_deref(),
        Some("没有由 DSH Desktop 安装的终端命令。")
    );
    assert_eq!(
        manager
            .uninstall(Some(metadata("dsh", true)), &text("#!/bin/sh\n"))
            .err()
            .as_deref(),
        Some("/data/terminal/bin/dsh 已被修改，DSH Desktop 不会删除它。")
    );
}

#[test]
fn commands_are_looked_up_on_the_path() {
    let directories = vec!["/a".to_string(), "/b".to_string(), "/c".to_string()];
    let found = FoundPaths { paths: vec!["/c/dsh".to_string(), "/b/dsh".to_string()] };
    let resolution = resolve_command("dsh", &directories, &found, HERE);
    assert!(resolution.exists);
    assert_eq!(resolution.path.as_deref(), Some("/b/dsh"));
    assert!(!resolve_command("node", &directories, &found, HERE).exists);
    let listed = resolution_from_where(true, &b"\r\n  C:\\a\\dsh.cmd \r\nC:\\b\r\n".to_vec());
    assert_eq!(listed.path.as_deref(), Some("C:\\a\\dsh.cmd"));
    let silent = resolution_from_where(true, &Vec::new());
    assert!(silent.exists && silent.path.is_none());
    assert!(!resolution_from_where(false, &b"C:\\a".to_vec()).exists);
    assert!(paths_equal("C:\\A\\dsh.cmd\\", "c:\\a\\DSH.CMD", Platform::Windows));
    assert!(paths_equal("/a//dsh/", "/a/dsh", HERE));
    assert!(!paths_equal("/A/dsh", "/a/dsh", HERE));
}

#[test]
fn menu_entries_and_windows_have_their_actions() {
    for (entry, action) in [
        ("about", MenuAction::ShowAbout),
        ("updates", MenuAction::ShowUpdates),
        ("restart", MenuAction::Restart),
        ("install-terminal-command", MenuAction::InstallTerminalCommand),
        ("uninstall-terminal-command", MenuAction::UninstallTerminalCommand),
        ("open-logs", MenuAction::OpenLogs),
        ("copy", MenuAction::Nothing),
    ] {
        assert_eq!(menu_action(entry), action);
    }
    assert_eq!(window_action("about", WindowChange::CloseRequested), WindowAction::Hide);
    assert_eq!(window_action("updates", WindowChange::Destroyed), WindowAction::Nothing);
    assert_eq!(window_action("main", WindowChange::CloseRequested), WindowAction::Nothing);
    assert_eq!(window_action("main", WindowChange::Destroyed), WindowAction::Quit);
    assert_eq!(window_action("other", WindowChange::Destroyed), WindowAction::Nothing);
}
