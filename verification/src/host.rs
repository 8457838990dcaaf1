//! The computer that the application runs on, and the names that Node.js and
//! the desktop environment have for it.

use vstd::prelude::*;

use crate::text::same;

verus! {

/// The family of operating system.
#[derive(Clone, Copy, Debug, PartialEq, Eq, Structural)]
pub enum Platform {
    Windows,
    Macos,
    Other,
}

impl Platform {
    /// Whether this is Windows.
    pub open spec fn windows(self) -> bool {
        self == Platform::Windows
    }

    /// Whether this is Windows.
    pub fn is_windows(self) -> (yes: bool)
        ensures
            yes == self.windows(),
    {
        matches!(self, Platform::Windows)
    }

    /// The character that separates the entries of `PATH`.
    pub open spec fn list_separator(self) -> Seq<char> {
        if self.windows() {
            ";"@
        } else {
            ":"@
        }
    }

    /// The character that separates the entries of `PATH`.
    pub fn path_list_separator(self) -> (separator: &'static str)
        ensures
            separator@ == self.list_separator(),
    {
        if self.is_windows() {
            ";"
        } else {
            ":"
        }
    }
}

/// What Node.js calls an operating system that Rust calls `rust_name`.
pub open spec fn node_platform(rust_name: Seq<char>) -> Seq<char> {
    if rust_name == "macos"@ {
        "darwin"@
    } else if rust_name == "windows"@ {
        "win32"@
    } else {
        rust_name
    }
}

/// What Node.js calls a processor that Rust calls `rust_name`.
pub open spec fn node_arch(rust_name: Seq<char>) -> Seq<char> {
    if rust_name == "aarch64"@ {
        "arm64"@
    } else if rust_name == "x86_64"@ {
        "x64"@
    } else {
        rust_name
    }
}

/// Turns Rust's name of an operating system into the one that Node.js uses.
pub fn node_platform_name(rust_name: &str) -> (name: &str)
    ensures
        name@ == node_platform(rust_name@),
{
    if same(rust_name, "macos") {
        "darwin"
    } else if same(rust_name, "windows") {
        "win32"
    } else {
        rust_name
    }
}

/// Turns Rust's name of a processor into the one that Node.js uses.
pub fn node_arch_name(rust_name: &str) -> (name: &str)
    ensures
        name@ == node_arch(rust_name@),
{
    if same(rust_name, "aarch64") {
        "arm64"
    } else if same(rust_name, "x86_64") {
        "x64"
    } else {
        rust_name
    }
}

/// The program that shows a directory in the file manager.
pub open spec fn directory_opener(platform: Platform) -> Seq<char> {
    match platform {
        Platform::Windows => "explorer.exe"@,
        Platform::Macos => "open"@,
        Platform::Other => "xdg-open"@,
    }
}

/// The program that shows the log directory in the file manager.
pub fn log_directory_opener(platform: Platform) -> (program: &'static str)
    ensures
        program@ == directory_opener(platform),
{
    match platform {
        Platform::Windows => "explorer.exe",
        Platform::Macos => "open",
        Platform::Other => "xdg-open",
    }
}

/// Node.js has its own names for two systems and two processors; every other name is
/// the same.
pub proof fn law_node_names(name: Seq<char>)
    ensures
        node_platform("macos"@) == "darwin"@,
        node_platform("windows"@) == "win32"@,
        name != "macos"@ && name != "windows"@ ==> node_platform(name) == name,
        node_arch("aarch64"@) == "arm64"@,
        node_arch("x86_64"@) == "x64"@,
        name != "aarch64"@ && name != "x86_64"@ ==> node_arch(name) == name,
{
    reveal_strlit("macos");
    reveal_strlit("windows");
    reveal_strlit("aarch64");
    reveal_strlit("x86_64");
    assert("macos"@.len() != "windows"@.len());
    assert("aarch64"@.len() != "x86_64"@.len());
}

/// Windows separates the entries of `PATH` with a semicolon, every other system with a
/// colon; and each system has its own file manager.
pub proof fn law_platform_habits(platform: Platform)
    ensures
        platform.windows() <==> platform == Platform::Windows,
        Platform::Windows.list_separator() == ";"@,
        platform != Platform::Windows ==> platform.list_separator() == ":"@,
        directory_opener(Platform::Windows) == "explorer.exe"@,
        directory_opener(Platform::Macos) == "open"@,
        directory_opener(Platform::Other) == "xdg-open"@,
{
}

} // verus!
