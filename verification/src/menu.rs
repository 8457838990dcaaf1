//! The menu of the application and the messages that answer it.

use vstd::prelude::*;

use crate::terminal_command::TerminalCommandInstall;
use crate::text::{cat3, cat6, join, joined, same};

verus! {

/// What a menu entry does.
#[derive(Clone, Copy, Debug, PartialEq, Eq, Structural)]
pub enum MenuAction {
    ShowAbout,
    ShowUpdates,
    Restart,
    InstallTerminalCommand,
    UninstallTerminalCommand,
    OpenLogs,
    Nothing,
}

/// What the menu entry of that name does.
pub open spec fn action_of(entry: Seq<char>) -> MenuAction {
    if entry == "about"@ {
        MenuAction::ShowAbout
    } else if entry == "updates"@ {
        MenuAction::ShowUpdates
    } else if entry == "restart"@ {
        MenuAction::Restart
    } else if entry == "install-terminal-command"@ {
        MenuAction::InstallTerminalCommand
    } else if entry == "uninstall-terminal-command"@ {
        MenuAction::UninstallTerminalCommand
    } else if entry == "open-logs"@ {
        MenuAction::OpenLogs
    } else {
        MenuAction::Nothing
    }
}

/// What the menu entry of that name does.
pub fn menu_action(entry: &str) -> (action: MenuAction)
    ensures
        action == action_of(entry@),
{
    if same(entry, "about") {
        MenuAction::ShowAbout
    } else if same(entry, "updates") {
        MenuAction::ShowUpdates
    } else if same(entry, "restart") {
        MenuAction::Restart
    } else if same(entry, "install-terminal-command") {
        MenuAction::InstallTerminalCommand
    } else if same(entry, "uninstall-terminal-command") {
        MenuAction::UninstallTerminalCommand
    } else if same(entry, "open-logs") {
        MenuAction::OpenLogs
    } else {
        MenuAction::Nothing
    }
}

/// What happens to a window.
#[derive(Clone, Copy, Debug, PartialEq, Eq, Structural)]
pub enum WindowChange {
    CloseRequested,
    Destroyed,
    Other,
}

/// What the application does about it.
#[derive(Clone, Copy, Debug, PartialEq, Eq, Structural)]
pub enum WindowAction {
    /// The window stays and is hidden.
    Hide,
    /// Everything is stopped and the application ends.
    Quit,
    Nothing,
}

/// What the application does about a change of a window: the two small windows
/// are hidden in place of closed, and the application ends with the main one.
pub open spec fn window_answer(label: Seq<char>, change: WindowChange) -> WindowAction {
    if label == "about"@ || label == "updates"@ {
        if change == WindowChange::CloseRequested {
            WindowAction::Hide
        } else {
            WindowAction::Nothing
        }
    } else if label == "main"@ && change == WindowChange::Destroyed {
        WindowAction::Quit
    } else {
        WindowAction::Nothing
    }
}

/// What the application does about a change of a window.
pub fn window_action(label: &str, change: WindowChange) -> (action: WindowAction)
    ensures
        action == window_answer(label@, change),
{
    if same(label, "about") || same(label, "updates") {
        if change == WindowChange::CloseRequested {
            WindowAction::Hide
        } else {
            WindowAction::Nothing
        }
    } else if same(label, "main") && change == WindowChange::Destroyed {
        WindowAction::Quit
    } else {
        WindowAction::Nothing
    }
}

/// The message after the command was installed.
pub open spec fn install_message(report: TerminalCommandInstall) -> Seq<char> {
    let note = if report.configured_shells@.len() == 0 {
        "请关闭并重新打开终端后使用。"@
    } else {
        "已配置："@ + joined(report.configured_shells.deep_view(), "、"@)
            + "。请打开新的终端会话后使用。"@
    };
    "已安装命令："@ + report.command@ + "\n位置："@ + report.shim_path@ + "\n\n"@ + note
}

/// The message after the command was installed.
pub fn install_report(report: &TerminalCommandInstall) -> (message: String)
    ensures
        message@ == install_message(*report),
{
    let note = if report.configured_shells.len() == 0 {
        "请关闭并重新打开终端后使用。".to_string()
    } else {
        cat3(
            "已配置：",
            join(&report.configured_shells, "、").as_str(),
            "。请打开新的终端会话后使用。",
        )
    };
    cat6(
        "已安装命令：",
        report.command.as_str(),
        "\n位置：",
        report.shim_path.as_str(),
        "\n\n",
        note.as_str(),
    )
}

/// The message after the command was taken away.
pub fn uninstall_report(command: &str) -> (message: String)
    ensures
        message@ == "已移除 "@ + command@ + "。重新打开终端后生效。"@,
{
    cat3("已移除 ", command, "。重新打开终端后生效。")
}

/// Every entry of the menu has its own action, and any other name none.
pub proof fn law_menu_entries(entry: Seq<char>)
    ensures
        action_of("about"@) == MenuAction::ShowAbout,
        action_of("updates"@) == MenuAction::ShowUpdates,
        action_of("restart"@) == MenuAction::Restart,
        action_of("install-terminal-command"@) == MenuAction::InstallTerminalCommand,
        action_of("uninstall-terminal-command"@) == MenuAction::UninstallTerminalCommand,
        action_of("open-logs"@) == MenuAction::OpenLogs,
        action_of(entry) != MenuAction::Nothing ==> entry == "about"@ || entry == "updates"@
            || entry == "restart"@ || entry == "install-terminal-command"@ || entry
            == "uninstall-terminal-command"@ || entry == "open-logs"@,
{
    reveal_strlit("about");
    reveal_strlit("updates");
    reveal_strlit("restart");
    reveal_strlit("install-terminal-command");
    reveal_strlit("uninstall-terminal-command");
    reveal_strlit("open-logs");
    assert("about"@.len() == 5 && "updates"@.len() == 7 && "restart"@.len() == 7);
    assert("install-terminal-command"@.len() == 24 && "uninstall-terminal-command"@.len() == 26);
    assert("open-logs"@.len() == 9);
    assert("updates"@[0] == 'u' && "restart"@[0] == 'r');
}

/// The small windows are hidden in place of closed, the application ends with the main
/// window, and nothing else that happens to a window matters.
pub proof fn law_windows_are_hidden_or_end_the_application(
    label: Seq<char>,
    change: WindowChange,
)
    ensures
        window_answer("about"@, WindowChange::CloseRequested) == WindowAction::Hide,
        window_answer("updates"@, WindowChange::CloseRequested) == WindowAction::Hide,
        window_answer("main"@, WindowChange::Destroyed) == WindowAction::Quit,
        window_answer(label, change) == WindowAction::Hide ==> change
            == WindowChange::CloseRequested && (label == "about"@ || label == "updates"@),
        window_answer(label, change) == WindowAction::Quit ==> change == WindowChange::Destroyed
            && label == "main"@,
{
    reveal_strlit("about");
    reveal_strlit("updates");
    reveal_strlit("main");
    assert("about"@.len() == 5 && "updates"@.len() == 7 && "main"@.len() == 4);
}

/// The message names the command, its place, and every shell that was set up for it.
pub proof fn law_message_names_what_was_installed(report: TerminalCommandInstall)
    ensures
        ({
            let shells = report.configured_shells.deep_view();
            let head = "已安装命令："@ + report.command@ + "\n位置："@ + report.shim_path@ + "\n\n"@;
            &&& shells.len() == 0 ==> install_message(report) == head
                + "请关闭并重新打开终端后使用。"@
            &&& shells.len() > 0 ==> install_message(report) == head + ("已配置："@ + joined(
                shells,
                "、"@,
            ) + "。请打开新的终端会话后使用。"@)
        }),
{
}

} // verus!
