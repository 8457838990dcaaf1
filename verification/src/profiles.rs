//! The shell start-up files that put the command directory on `PATH`: where
//! they are, what is written to them, and how it is taken out again.

use vstd::prelude::*;

use crate::host::Platform;
use crate::npm::{lossy_form, lossy_text};
use crate::paths::{absolute, below, file_name, is_absolute, join_path, name_of};
use crate::shell::{
    balanced, ended_line, fish_config, fish_shell_config, is_managed_fish_config,
    law_block_stands_behind_the_profile, law_foreign_profile_is_untouched,
    law_removal_undoes_the_write, law_write_adds_one_block, law_write_keeps_the_profile, managed_fish,
    managed_path_marker_counts, posix_block, posix_config, posix_shell_config,
    remove_path_block, without_blocks, PATH_BLOCK_END, PATH_BLOCK_START,
};
use crate::terminal_command::{paths_equal, paths_same, FileContents};
use crate::text::{after_prefix, cat2, cat4, contains, has_text, lemma_first_from, same};
use crate::trim::{lines, lines_of, trim, trimmed};

verus! {

/// How a shell reads its start-up file.
#[derive(Clone, Copy, Debug, PartialEq, Eq, Structural)]
pub enum ShellConfigKind {
    Posix,
    Fish,
}

/// A start-up file that is written.
pub struct ShellConfigTarget {
    pub name: String,
    pub path: String,
    pub kind: ShellConfigKind,
}

/// A start-up file with what it holds now.
pub struct ObservedConfig {
    pub target: ShellConfigTarget,
    pub contents: FileContents,
}

/// What became of `PATH`.
pub struct PathChange {
    pub config_paths: Vec<String>,
    pub configured_shells: Vec<String>,
    pub added: bool,
}

/// What is to be done with a file.
#[derive(Debug)]
pub enum FileStep {
    /// The file stays as it is.
    Keep,
    Write(String),
    Delete,
    Refuse(String),
}

/// The value of a [`FileStep`].
#[verifier::ext_equal]
pub enum FileStepView {
    Keep,
    Write(Seq<char>),
    Delete,
    Refuse(Seq<char>),
}

impl View for FileStep {
    type V = FileStepView;

    open spec fn view(&self) -> FileStepView {
        match self {
            FileStep::Keep => FileStepView::Keep,
            FileStep::Write(text) => FileStepView::Write(text@),
            FileStep::Delete => FileStepView::Delete,
            FileStep::Refuse(reason) => FileStepView::Refuse(reason@),
        }
    }
}

/// The configured directory, below the home directory where it is relative.
pub open spec fn config_dir(home: Seq<char>, path: Seq<char>, platform: Platform) -> Seq<char> {
    if absolute(path, platform) {
        path
    } else {
        below(home, path, platform)
    }
}

/// The configured directory, below the home directory where it is relative.
pub fn resolve_config_dir(home: &str, path: &str, platform: Platform) -> (directory: String)
    ensures
        directory@ == config_dir(home@, path@, platform),
{
    if is_absolute(path, platform) {
        path.to_string()
    } else {
        join_path(home, path, platform)
    }
}

/// What stands behind `prefix` on the first line that begins with it.
pub open spec fn first_marked(list: Seq<Seq<char>>, prefix: Seq<char>) -> Option<Seq<char>>
    decreases list.len(),
{
    if list.len() == 0 {
        None
    } else if prefix.is_prefix_of(list[0]) {
        Some(list[0].skip(prefix.len() as int))
    } else {
        first_marked(list.drop_first(), prefix)
    }
}

fn marked_line(list: &Vec<String>, prefix: &str) -> (value: Option<String>)
    ensures
        value.deep_view() == first_marked(list.deep_view(), prefix@),
{
    let ghost all = list.deep_view();
    assert(all.skip(0) =~= all);
    let mut i: usize = 0;
    while i < list.len()
        invariant
            i <= list.len(),
            all == list.deep_view(),
            first_marked(all, prefix@) == first_marked(all.skip(i as int), prefix@),
        decreases list.len() - i,
    {
        proof {
            assert(all.skip(i as int)[0] == list[i as int]@);
            assert(all.skip(i as int).drop_first() =~= all.skip(i + 1));
        }
        let rest = after_prefix(list[i].as_str(), prefix);
        if rest.is_some() {
            return rest;
        }
        i += 1;
    }
    None
}

/// The start-up file of zsh: in `ZDOTDIR` where the application's environment
/// has it, else in the directory that zsh reported, else in the home directory.
pub open spec fn zsh_config(
    home: Seq<char>,
    zdotdir: Option<Seq<char>>,
    report: Option<Seq<char>>,
    platform: Platform,
) -> Seq<char> {
    if zdotdir is Some && zdotdir->0.len() > 0 {
        below(config_dir(home, zdotdir->0, platform), ".zshrc"@, platform)
    } else {
        let reported = match report {
            Some(text) => first_marked(lines_of(text), "__DSH_DESKTOP__"@),
            None => None,
        };
        if reported is Some && reported->0.len() > 0 {
            below(config_dir(home, reported->0, platform), ".zshrc"@, platform)
        } else {
            below(home, ".zshrc"@, platform)
        }
    }
}

/// The start-up file of zsh. `report` is what zsh printed, where it ran.
pub fn zsh_config_path(
    home: &str,
    zdotdir: &Option<String>,
    report: &Option<Vec<u8>>,
    platform: Platform,
) -> (path: String)
    ensures
        path@ == zsh_config(
            home@,
            zdotdir.deep_view(),
            match report {
                Some(bytes) => Some(lossy_form(bytes@)),
                None => None,
            },
            platform,
        ),
{
    let printed: Option<String> = match report {
        Some(bytes) => Some(lossy_text(bytes.as_slice())),
        None => None,
    };
    zsh_config_from(home, zdotdir, &printed, platform)
}

/// The start-up file of zsh, from the text that zsh printed.
pub fn zsh_config_from(
    home: &str,
    zdotdir: &Option<String>,
    report: &Option<String>,
    platform: Platform,
) -> (path: String)
    ensures
        path@ == zsh_config(home@, zdotdir.deep_view(), report.deep_view(), platform),
{
    if let Some(directory) = zdotdir {
        if !directory.as_str().is_empty() {
            let resolved = resolve_config_dir(home, directory.as_str(), platform);
            return join_path(resolved.as_str(), ".zshrc", platform);
        }
    }
    if let Some(text) = report {
        if let Some(value) = marked_line(&lines(text.as_str()), "__DSH_DESKTOP__") {
            if !value.as_str().is_empty() {
                let resolved = resolve_config_dir(home, value.as_str(), platform);
                return join_path(resolved.as_str(), ".zshrc", platform);
            }
        }
    }
    join_path(home, ".zshrc", platform)
}

/// The start-up file of fish: below `XDG_CONFIG_HOME`, else below `.config` in
/// the home directory.
pub open spec fn fish_config_file(
    home: Seq<char>,
    config_home: Option<Seq<char>>,
    platform: Platform,
) -> Seq<char> {
    let base = if config_home is Some && config_home->0.len() > 0 {
        config_dir(home, config_home->0, platform)
    } else {
        below(home, ".config"@, platform)
    };
    below(below(base, "fish"@, platform), "conf.d/dsh-desktop.fish"@, platform)
}

/// The start-up file of fish.
pub fn fish_config_path(home: &str, config_home: &Option<String>, platform: Platform) -> (path:
    String)
    ensures
        path@ == fish_config_file(home@, config_home.deep_view(), platform),
{
    let mut base = join_path(home, ".config", platform);
    if let Some(directory) = config_home {
        if !directory.as_str().is_empty() {
            base = resolve_config_dir(home, directory.as_str(), platform);
        }
    }
    let fish = join_path(base.as_str(), "fish", platform);
    join_path(fish.as_str(), "conf.d/dsh-desktop.fish", platform)
}

/// The start-up files that are written, in the order in which they are: the one
/// of zsh and the one of fish.
pub fn shell_targets(zsh_path: String, fish_path: String) -> (targets: Vec<ShellConfigTarget>)
    ensures
        targets@.len() == 2,
        targets@[0].name@ == "zsh"@,
        targets@[0].path == zsh_path,
        targets@[0].kind == ShellConfigKind::Posix,
        targets@[1].name@ == "fish"@,
        targets@[1].path == fish_path,
        targets@[1].kind == ShellConfigKind::Fish,
{
    vec![
        ShellConfigTarget { name: "zsh".to_string(), path: zsh_path, kind: ShellConfigKind::Posix },
        ShellConfigTarget { name: "fish".to_string(), path: fish_path, kind: ShellConfigKind::Fish },
    ]
}

/// Why a file with a half-open block is left alone.
pub open spec fn broken_block(path: Seq<char>) -> Seq<char> {
    path + " 中的 DSH Desktop PATH 配置不完整，请先检查该文件。"@
}

/// Why a fish file of someone else is left alone.
pub open spec fn foreign_fish(path: Seq<char>) -> Seq<char> {
    path + " 已存在且不是由 DSH Desktop 创建，应用不会覆盖它。"@
}

/// Why a file that was changed since is not deleted.
pub open spec fn changed_file(path: Seq<char>) -> Seq<char> {
    path + " 已被修改，DSH Desktop 不会删除它。"@
}

/// A file could not be read.
pub open spec fn unreadable(path: Seq<char>, reason: Seq<char>) -> Seq<char> {
    "无法读取 "@ + path + "："@ + reason
}

fn has_whole_blocks(contents: &str) -> (yes: bool)
    ensures
        yes == balanced(contents@),
{
    let counts = managed_path_marker_counts(contents);
    counts.0 == counts.1
}

/// Why a start-up file must not be written: its block is half open, or it is a
/// fish file that the application did not write.
pub open spec fn config_refusal(observed: ObservedConfig) -> Option<Seq<char>> {
    match observed.contents {
        FileContents::Text(text) => match observed.target.kind {
            ShellConfigKind::Posix => if balanced(text@) {
                None
            } else {
                Some(broken_block(observed.target.path@))
            },
            ShellConfigKind::Fish => if managed_fish(text@) {
                None
            } else {
                Some(foreign_fish(observed.target.path@))
            },
        },
        _ => None,
    }
}

/// Checks that a start-up file may be written.
pub fn validate_shell_config(observed: &ObservedConfig) -> (verdict: Result<(), String>)
    ensures
        match config_refusal(*observed) {
            Some(reason) => verdict matches Err(message) && message@ == reason,
            None => verdict is Ok,
        },
{
    if let FileContents::Text(text) = &observed.contents {
        match observed.target.kind {
            ShellConfigKind::Posix => {
                if !has_whole_blocks(text.as_str()) {
                    return Err(
                        cat2(
                            observed.target.path.as_str(),
                            " 中的 DSH Desktop PATH 配置不完整，请先检查该文件。",
                        ),
                    );
                }
            },
            ShellConfigKind::Fish => {
                if !is_managed_fish_config(text.as_str()) {
                    return Err(
                        cat2(
                            observed.target.path.as_str(),
                            " 已存在且不是由 DSH Desktop 创建，应用不会覆盖它。",
                        ),
                    );
                }
            },
        }
    }
    Ok(())
}

/// What writing the command directory to a profile does.
pub open spec fn posix_step(
    path: Seq<char>,
    contents: FileContents,
    bin_dir: Seq<char>,
) -> FileStepView {
    match contents {
        FileContents::Unreadable(reason) => FileStepView::Refuse(unreadable(path, reason@)),
        FileContents::Missing => FileStepView::Write(posix_config(Seq::empty(), bin_dir)),
        FileContents::Text(text) => if posix_config(text@, bin_dir) == text@ {
            FileStepView::Keep
        } else {
            FileStepView::Write(posix_config(text@, bin_dir))
        },
    }
}

/// What writing the command directory to a profile does.
pub fn write_posix_shell_config(path: &str, contents: &FileContents, bin_dir: &str) -> (step:
    FileStep)
    ensures
        step@ == posix_step(path@, *contents, bin_dir@),
        contents matches FileContents::Text(text) ==> (step matches FileStep::Write(updated)
            ==> without_blocks(text@).is_prefix_of(updated@) && posix_block(bin_dir@).is_suffix_of(
            updated@,
        )),
        contents is Text ==> step is Keep || step is Write,
{
    match contents {
        FileContents::Unreadable(reason) => FileStep::Refuse(
            cat4("无法读取 ", path, "：", reason.as_str()),
        ),
        FileContents::Missing => {
            let updated = posix_shell_config("", bin_dir);
            proof {
                reveal_strlit("");
                assert(""@ =~= Seq::<char>::empty());
            }
            FileStep::Write(updated)
        },
        FileContents::Text(text) => {
            let updated = posix_shell_config(text.as_str(), bin_dir);
            proof {
                law_block_stands_behind_the_profile(text@, bin_dir@);
            }
            if same(updated.as_str(), text.as_str()) {
                FileStep::Keep
            } else {
                FileStep::Write(updated)
            }
        },
    }
}

/// What writing the command directory for fish does.
pub open spec fn fish_step(contents: FileContents, bin_dir: Seq<char>) -> FileStepView {
    if contents matches FileContents::Text(text) && text@ == fish_config(bin_dir) {
        FileStepView::Keep
    } else {
        FileStepView::Write(fish_config(bin_dir))
    }
}

/// What writing the command directory for fish does.
pub fn write_fish_shell_config(contents: &FileContents, bin_dir: &str) -> (step: FileStep)
    ensures
        step@ == fish_step(*contents, bin_dir@),
{
    let wanted = fish_shell_config(bin_dir);
    if let FileContents::Text(text) = contents {
        if same(text.as_str(), wanted.as_str()) {
            return FileStep::Keep;
        }
    }
    FileStep::Write(wanted)
}

/// What is done with one start-up file.
pub open spec fn target_step(observed: ObservedConfig, bin_dir: Seq<char>) -> FileStepView {
    match observed.target.kind {
        ShellConfigKind::Posix => posix_step(observed.target.path@, observed.contents, bin_dir),
        ShellConfigKind::Fish => fish_step(observed.contents, bin_dir),
    }
}

/// The first refusal in a list of start-up files.
pub open spec fn first_refusal(configs: Seq<ObservedConfig>) -> Option<Seq<char>>
    decreases configs.len(),
{
    if configs.len() == 0 {
        None
    } else if config_refusal(configs[0]) is Some {
        config_refusal(configs[0])
    } else {
        first_refusal(configs.drop_first())
    }
}

fn validate_all(configs: &Vec<ObservedConfig>) -> (verdict: Result<(), String>)
    ensures
        match first_refusal(configs@) {
            Some(reason) => verdict matches Err(message) && message@ == reason,
            None => verdict is Ok,
        },
{
    assert(configs@.skip(0) =~= configs@);
    let mut i: usize = 0;
    while i < configs.len()
        invariant
            i <= configs.len(),
            first_refusal(configs@) == first_refusal(configs@.skip(i as int)),
        decreases configs.len() - i,
    {
        proof {
            assert(configs@.skip(i as int)[0] == configs@[i as int]);
            assert(configs@.skip(i as int).drop_first() =~= configs@.skip(i + 1));
        }
        validate_shell_config(&configs[i])?;
        i += 1;
    }
    Ok(())
}

/// What is done with the start-up files, in order. Where one of them must not be
/// written none is.
pub fn configure_shell_targets(bin_dir: &str, configs: &Vec<ObservedConfig>) -> (steps: Result<
    Vec<FileStep>,
    String,
>)
    ensures
        match first_refusal(configs@) {
            Some(reason) => steps matches Err(message) && message@ == reason,
            None => {
                &&& steps matches Ok(list)
                &&& list@.len() == configs@.len()
                &&& forall|i: int|
                    0 <= i < list@.len() ==> (#[trigger] list@[i])@ == target_step(
                        configs@[i],
                        bin_dir@,
                    )
            },
        },
{
    validate_all(configs)?;
    let mut list: Vec<FileStep> = Vec::new();
    let mut i: usize = 0;
    while i < configs.len()
        invariant
            i <= configs.len(),
            list@.len() == i,
            forall|j: int|
                0 <= j < i ==> (#[trigger] list@[j])@ == target_step(configs@[j], bin_dir@),
        decreases configs.len() - i,
    {
        let observed = &configs[i];
        let step = match observed.target.kind {
            ShellConfigKind::Posix => write_posix_shell_config(
                observed.target.path.as_str(),
                &observed.contents,
                bin_dir,
            ),
            ShellConfigKind::Fish => write_fish_shell_config(&observed.contents, bin_dir),
        };
        list.push(step);
        i += 1;
    }
    Ok(list)
}

/// The profile that an earlier version wrote to is cleaned, unless it is one of
/// the start-up files that are written now.
pub open spec fn cleans_legacy(
    legacy_profile: Option<Seq<char>>,
    config_paths: Seq<Seq<char>>,
    platform: Platform,
) -> bool {
    legacy_profile matches Some(profile) && forall|i: int|
        0 <= i < config_paths.len() ==> !paths_same(#[trigger] config_paths[i], profile, platform)
}

/// The profile of an earlier version that is to be cleaned.
pub fn legacy_profile_to_clean(
    legacy_profile: Option<String>,
    config_paths: &Vec<String>,
    platform: Platform,
) -> (profile: Option<String>)
    ensures
        profile == if cleans_legacy(
            legacy_profile.deep_view(),
            config_paths.deep_view(),
            platform,
        ) {
            legacy_profile
        } else {
            None
        },
{
    let ghost recorded = legacy_profile.deep_view();
    match legacy_profile {
        None => None,
        Some(profile) => {
            let mut i: usize = 0;
            while i < config_paths.len()
                invariant
                    i <= config_paths.len(),
                    recorded == Some(profile@),
                    recorded == legacy_profile.deep_view(),
                    forall|j: int|
                        0 <= j < i ==> !paths_same(
                            #[trigger] config_paths.deep_view()[j],
                            profile@,
                            platform,
                        ),
                decreases config_paths.len() - i,
            {
                if paths_equal(config_paths[i].as_str(), profile.as_str(), platform) {
                    assert(paths_same(config_paths.deep_view()[i as int], profile@, platform));
                    return None;
                }
                i += 1;
            }
            Some(profile)
        },
    }
}

/// What became of `PATH` once the start-up files are written.
pub fn shell_path_change(configs: &Vec<ObservedConfig>, path_owned_before: bool) -> (change:
    PathChange)
    ensures
        change.config_paths.deep_view() == configs@.map_values(
            |observed: ObservedConfig| observed.target.path@,
        ),
        change.configured_shells.deep_view() == configs@.map_values(
            |observed: ObservedConfig| observed.target.name@,
        ),
        change.added == (path_owned_before || configs@.len() > 0),
{
    let mut config_paths: Vec<String> = Vec::new();
    let mut configured_shells: Vec<String> = Vec::new();
    let mut i: usize = 0;
    while i < configs.len()
        invariant
            i <= configs.len(),
            config_paths@.len() == i,
            configured_shells@.len() == i,
            forall|j: int| 0 <= j < i ==> (#[trigger] config_paths@[j])@ == configs@[j].target.path@,
            forall|j: int|
                0 <= j < i ==> (#[trigger] configured_shells@[j])@ == configs@[j].target.name@,
        decreases configs.len() - i,
    {
        config_paths.push(configs[i].target.path.clone());
        configured_shells.push(configs[i].target.name.clone());
        i += 1;
    }
    assert(config_paths.deep_view() =~= configs@.map_values(
        |observed: ObservedConfig| observed.target.path@,
    ));
    assert(configured_shells.deep_view() =~= configs@.map_values(
        |observed: ObservedConfig| observed.target.name@,
    ));
    PathChange { config_paths, configured_shells, added: path_owned_before || configs.len() > 0 }
}

/// What became of the user's `PATH` on Windows, from what the script that
/// changes it answered.
pub open spec fn user_path_outcome(
    success: bool,
    output: Seq<char>,
    errors: Seq<char>,
    path_owned_before: bool,
) -> Result<bool, Seq<char>> {
    if success {
        Ok(path_owned_before || has_text(output, "added"@))
    } else {
        Err("无法更新当前用户 PATH："@ + trimmed(errors))
    }
}

/// What became of the user's `PATH` on Windows.
pub fn user_path_change(
    success: bool,
    stdout: &Vec<u8>,
    stderr: &Vec<u8>,
    path_owned_before: bool,
) -> (change: Result<PathChange, String>)
    ensures
        match user_path_outcome(
            success,
            lossy_form(stdout@),
            lossy_form(stderr@),
            path_owned_before,
        ) {
            Ok(added) => change matches Ok(change) && change.added == added
                && change.config_paths@.len() == 0 && change.configured_shells.deep_view() == seq![
                "Windows"@,
            ],
            Err(reason) => change matches Err(message) && message@ == reason,
        },
{
    user_path_change_from(
        success,
        lossy_text(stdout.as_slice()).as_str(),
        lossy_text(stderr.as_slice()).as_str(),
        path_owned_before,
    )
}

/// What became of the user's `PATH` on Windows, from the text that the script
/// printed.
pub fn user_path_change_from(
    success: bool,
    output: &str,
    errors: &str,
    path_owned_before: bool,
) -> (change: Result<PathChange, String>)
    ensures
        match user_path_outcome(success, output@, errors@, path_owned_before) {
            Ok(added) => change matches Ok(change) && change.added == added
                && change.config_paths@.len() == 0 && change.configured_shells.deep_view() == seq![
                "Windows"@,
            ],
            Err(reason) => change matches Err(message) && message@ == reason,
        },
{
    if !success {
        return Err(cat2("无法更新当前用户 PATH：", trim(errors).as_str()));
    }
    let mut configured_shells: Vec<String> = Vec::new();
    configured_shells.push("Windows".to_string());
    assert(configured_shells.deep_view() =~= seq!["Windows"@]);
    Ok(
        PathChange {
            config_paths: Vec::new(),
            configured_shells,
            added: path_owned_before || contains(output, "added"),
        },
    )
}

/// The result of taking the command directory out of the user's `PATH` on
/// Windows.
pub fn user_path_removal(success: bool, stderr: &Vec<u8>) -> (outcome: Result<(), String>)
    ensures
        if success {
            outcome is Ok
        } else {
            outcome matches Err(message) && message@ == "无法恢复当前用户 PATH："@ + trimmed(
                lossy_form(stderr@),
            )
        },
{
    if success {
        Ok(())
    } else {
        let errors = lossy_text(stderr.as_slice());
        Err(cat2("无法恢复当前用户 PATH：", trim(errors.as_str()).as_str()))
    }
}

/// A start-up file with its path, as it is recorded.
pub struct RecordedConfig {
    pub path: String,
    pub contents: FileContents,
}

/// The start-up file is the one of fish, which belongs to the application as a
/// whole.
pub open spec fn fish_file(path: Seq<char>, platform: Platform) -> bool {
    name_of(path, platform) == Some("dsh-desktop.fish"@)
}

fn is_fish_file(path: &str, platform: Platform) -> (yes: bool)
    ensures
        yes == fish_file(path@, platform),
{
    match file_name(path, platform) {
        Some(name) => same(name.as_str(), "dsh-desktop.fish"),
        None => false,
    }
}

/// Why the command directory cannot be taken out of a start-up file.
pub open spec fn removal_refusal(config: RecordedConfig, platform: Platform) -> Option<Seq<char>> {
    match config.contents {
        FileContents::Missing => None,
        FileContents::Unreadable(reason) => Some(unreadable(config.path@, reason@)),
        FileContents::Text(text) => if fish_file(config.path@, platform) {
            if managed_fish(text@) {
                None
            } else {
                Some(changed_file(config.path@))
            }
        } else if balanced(text@) {
            None
        } else {
            Some(broken_block(config.path@))
        },
    }
}

fn refuse_removal(config: &RecordedConfig, platform: Platform) -> (reason: Option<String>)
    ensures
        reason.deep_view() == removal_refusal(*config, platform),
{
    let path = config.path.as_str();
    match &config.contents {
        FileContents::Missing => None,
        FileContents::Unreadable(reason) => Some(cat4("无法读取 ", path, "：", reason.as_str())),
        FileContents::Text(text) => {
            if is_fish_file(path, platform) {
                if is_managed_fish_config(text.as_str()) {
                    None
                } else {
                    Some(cat2(path, " 已被修改，DSH Desktop 不会删除它。"))
                }
            } else if has_whole_blocks(text.as_str()) {
                None
            } else {
                Some(cat2(path, " 中的 DSH Desktop PATH 配置不完整，请先检查该文件。"))
            }
        },
    }
}

/// The first refusal in a list of recorded files. On Windows there is none.
pub open spec fn first_removal_refusal(configs: Seq<RecordedConfig>, platform: Platform) -> Option<
    Seq<char>,
>
    decreases configs.len(),
{
    if platform.windows() || configs.len() == 0 {
        None
    } else if removal_refusal(configs[0], platform) is Some {
        removal_refusal(configs[0], platform)
    } else {
        first_removal_refusal(configs.drop_first(), platform)
    }
}

/// Checks that the command directory can be taken out of every recorded file.
pub fn validate_terminal_path_removal(configs: &Vec<RecordedConfig>, platform: Platform) -> (verdict:
    Result<(), String>)
    ensures
        match first_removal_refusal(configs@, platform) {
            Some(reason) => verdict matches Err(message) && message@ == reason,
            None => verdict is Ok,
        },
{
    if platform.is_windows() {
        return Ok(());
    }
    assert(configs@.skip(0) =~= configs@);
    let mut i: usize = 0;
    while i < configs.len()
        invariant
            i <= configs.len(),
            !platform.windows(),
            first_removal_refusal(configs@, platform) == first_removal_refusal(
                configs@.skip(i as int),
                platform,
            ),
        decreases configs.len() - i,
    {
        proof {
            assert(configs@.skip(i as int)[0] == configs@[i as int]);
            assert(configs@.skip(i as int).drop_first() =~= configs@.skip(i + 1));
        }
        if let Some(reason) = refuse_removal(&configs[i], platform) {
            return Err(reason);
        }
        i += 1;
    }
    Ok(())
}

/// What taking the managed blocks out of a profile does.
pub open spec fn block_removal(path: Seq<char>, contents: FileContents) -> FileStepView {
    match contents {
        FileContents::Missing => FileStepView::Keep,
        FileContents::Unreadable(reason) => FileStepView::Refuse(unreadable(path, reason@)),
        FileContents::Text(text) => if without_blocks(text@) == text@ {
            FileStepView::Keep
        } else {
            FileStepView::Write(without_blocks(text@))
        },
    }
}

/// What taking the managed blocks out of a profile does.
pub fn remove_managed_path_block(path: &str, contents: &FileContents) -> (step: FileStep)
    ensures
        step@ == block_removal(path@, *contents),
{
    match contents {
        FileContents::Missing => FileStep::Keep,
        FileContents::Unreadable(reason) => FileStep::Refuse(
            cat4("无法读取 ", path, "：", reason.as_str()),
        ),
        FileContents::Text(text) => {
            let updated = remove_path_block(text.as_str());
            if same(updated.as_str(), text.as_str()) {
                FileStep::Keep
            } else {
                FileStep::Write(updated)
            }
        },
    }
}

/// What taking the command directory out of a recorded file does: the file of
/// fish is deleted, any other loses its managed blocks.
pub open spec fn removal(config: RecordedConfig, platform: Platform) -> FileStepView {
    if !fish_file(config.path@, platform) {
        block_removal(config.path@, config.contents)
    } else {
        match config.contents {
            FileContents::Missing => FileStepView::Keep,
            FileContents::Unreadable(reason) => FileStepView::Refuse(
                unreadable(config.path@, reason@),
            ),
            FileContents::Text(text) => if managed_fish(text@) {
                FileStepView::Delete
            } else {
                FileStepView::Refuse(changed_file(config.path@))
            },
        }
    }
}

/// What taking the command directory out of a recorded file does.
pub fn removal_step(config: &RecordedConfig, platform: Platform) -> (step: FileStep)
    ensures
        step@ == removal(*config, platform),
{
    let path = config.path.as_str();
    if !is_fish_file(path, platform) {
        return remove_managed_path_block(path, &config.contents);
    }
    match &config.contents {
        FileContents::Missing => FileStep::Keep,
        FileContents::Unreadable(reason) => FileStep::Refuse(
            cat4("无法读取 ", path, "：", reason.as_str()),
        ),
        FileContents::Text(text) => {
            if is_managed_fish_config(text.as_str()) {
                FileStep::Delete
            } else {
                FileStep::Refuse(cat2(path, " 已被修改，DSH Desktop 不会删除它。"))
            }
        },
    }
}

/// Where every recorded file passed the check, no removal is refused.
pub proof fn law_checked_removal_is_not_refused(
    configs: Seq<RecordedConfig>,
    at: int,
    platform: Platform,
)
    requires
        !platform.windows(),
        0 <= at < configs.len(),
        first_removal_refusal(configs, platform) is None,
    ensures
        removal(configs[at], platform) !is Refuse,
    decreases at,
{
    if at > 0 {
        law_checked_removal_is_not_refused(configs.drop_first(), at - 1, platform);
        assert(configs.drop_first()[at - 1] == configs[at]);
    }
}

/// A fish file that the application did not write is neither overwritten nor
/// deleted.
pub proof fn law_foreign_fish_file_is_left_alone(
    target: ShellConfigTarget,
    text: String,
    platform: Platform,
)
    requires
        target.kind == ShellConfigKind::Fish,
        fish_file(target.path@, platform),
        !managed_fish(text@),
    ensures
        config_refusal(
            (ObservedConfig { target, contents: FileContents::Text(text) }),
        ) is Some,
        removal(
            (RecordedConfig { path: target.path, contents: FileContents::Text(text) }),
            platform,
        ) is Refuse,
{
}

/// Where any start-up file must not be written, the whole list is refused, so
/// that no file changes.
pub proof fn law_one_refusal_refuses_all(configs: Seq<ObservedConfig>, at: int)
    requires
        0 <= at < configs.len(),
        config_refusal(configs[at]) is Some,
    ensures
        first_refusal(configs) is Some,
    decreases at,
{
    if at > 0 {
        assert(configs.drop_first()[at - 1] == configs[at]);
        law_one_refusal_refuses_all(configs.drop_first(), at - 1);
    }
}

/// The fish file that the application writes can be written again and deleted.
pub proof fn law_written_fish_file_is_removed(
    target: ShellConfigTarget,
    text: String,
    bin_dir: Seq<char>,
    platform: Platform,
)
    requires
        target.kind == ShellConfigKind::Fish,
        fish_file(target.path@, platform),
        text@ == fish_config(bin_dir),
    ensures
        target_step(
            (ObservedConfig { target, contents: FileContents::Text(text) }),
            bin_dir,
        ) == FileStepView::Keep,
        removal(
            (RecordedConfig { path: target.path, contents: FileContents::Text(text) }),
            platform,
        ) == FileStepView::Delete,
{
    crate::shell::law_fish_config_is_recognised(bin_dir);
}

/// What the application wrote to a profile is taken out again: the profile then
/// holds what it held before besides managed blocks, ended by a line feed. This
/// fails where a marker line without its partner stood in the profile, and where
/// the directory holds a marker line.
pub proof fn law_profile_write_is_undone(
    path: String,
    existing: Seq<char>,
    text: String,
    bin_dir: Seq<char>,
    platform: Platform,
)
    requires
        !fish_file(path@, platform),
        text@ == posix_config(existing, bin_dir),
        !has_text(without_blocks(existing), PATH_BLOCK_START@),
        !has_text(without_blocks(existing), PATH_BLOCK_END@),
        !has_text(bin_dir, PATH_BLOCK_START@),
        !has_text(bin_dir, PATH_BLOCK_END@),
    ensures
        ({
            let config = RecordedConfig { path, contents: FileContents::Text(text) };
            &&& removal_refusal(config, platform) is None
            &&& removal(config, platform) == FileStepView::Write(
                ended_line(without_blocks(existing)),
            )
        }),
{
    law_write_adds_one_block(existing, bin_dir);
    lemma_first_from(without_blocks(existing), PATH_BLOCK_START@, 0);
    lemma_first_from(without_blocks(existing), PATH_BLOCK_END@, 0);
    law_removal_undoes_the_write(existing, bin_dir);
    reveal_strlit("# >>> DSH Desktop terminal command >>>");
    assert(posix_block(bin_dir).len() > 0);
    assert(text@.len() == ended_line(without_blocks(existing)).len() + posix_block(bin_dir).len());
}

/// What a file holds after a step that is not refused.
pub open spec fn held_after(contents: FileContents, step: FileStepView) -> Option<Seq<char>> {
    match step {
        FileStepView::Write(text) => Some(text),
        FileStepView::Delete => None,
        _ => match contents {
            FileContents::Text(text) => Some(text@),
            _ => None,
        },
    }
}

/// Whatever is done with a profile that can be read: afterwards it begins with what it
/// held outside managed blocks, and ends with the block for the directory. It is left
/// alone exactly where it holds that already.
pub proof fn law_profile_keeps_the_lines_of_its_user(
    path: Seq<char>,
    text: String,
    bin_dir: Seq<char>,
)
    ensures
        ({
            let contents = FileContents::Text(text);
            let step = posix_step(path, contents, bin_dir);
            let after = held_after(contents, step)->0;
            &&& step is Keep || step is Write
            &&& held_after(contents, step) is Some
            &&& without_blocks(text@).is_prefix_of(after)
            &&& after == ended_line(without_blocks(text@)) + posix_block(bin_dir)
            &&& !has_text(text@, "# >>> DSH Desktop terminal command >>>"@)
                ==> text@.is_prefix_of(after)
            &&& step is Keep <==> after == text@
        }),
{
    law_write_keeps_the_profile(text@, bin_dir);
    law_block_stands_behind_the_profile(text@, bin_dir);
    if !has_text(text@, PATH_BLOCK_START@) {
        law_foreign_profile_is_untouched(text@);
    }
}

/// Taking the managed blocks out of what is written to a profile gives back what the
/// profile held outside managed blocks, ended by a line feed. This fails where a marker
/// line without its partner stood in the profile, and where the directory holds one.
pub proof fn law_written_profile_can_be_cleaned(
    path: Seq<char>,
    text: String,
    bin_dir: Seq<char>,
)
    requires
        !has_text(without_blocks(text@), "# >>> DSH Desktop terminal command >>>"@),
        !has_text(bin_dir, "# <<< DSH Desktop terminal command <<<"@),
    ensures
        ({
            let contents = FileContents::Text(text);
            let after = held_after(contents, posix_step(path, contents, bin_dir))->0;
            without_blocks(after) == ended_line(without_blocks(text@))
        }),
{
    law_removal_undoes_the_write(text@, bin_dir);
}

/// A profile that is not there is made of the block alone; one that cannot be read is
/// left alone, with the reason.
pub proof fn law_new_profile_holds_the_block(
    path: Seq<char>,
    reason: String,
    bin_dir: Seq<char>,
)
    ensures
        posix_step(path, FileContents::Missing, bin_dir) == FileStepView::Write(
            posix_block(bin_dir),
        ),
        posix_step(path, FileContents::Unreadable(reason), bin_dir) == FileStepView::Refuse(
            "无法读取 "@ + path + "："@ + reason@,
        ),
{
    lemma_empty_profile();
    assert(posix_config(Seq::empty(), bin_dir) =~= posix_block(bin_dir));
}

proof fn lemma_empty_profile()
    ensures
        without_blocks(Seq::empty()) == Seq::<char>::empty(),
{
    reveal_strlit("# >>> DSH Desktop terminal command >>>");
    let none: Seq<char> = Seq::empty();
    assert(!has_text(none, PATH_BLOCK_START@));
    law_foreign_profile_is_untouched(none);
}

/// Whatever the file of fish held, it holds the application's configuration afterwards,
/// and it is left alone exactly where it holds that already.
pub proof fn law_fish_file_holds_the_configuration(contents: FileContents, bin_dir: Seq<char>)
    ensures
        held_after(contents, fish_step(contents, bin_dir)) == Some(fish_config(bin_dir)),
        fish_step(contents, bin_dir) is Keep <==> (contents matches FileContents::Text(text)
            && text@ == fish_config(bin_dir)),
        fish_step(contents, bin_dir) is Keep || fish_step(contents, bin_dir) is Write,
{
}

/// Each start-up file is written in the way of its shell.
pub proof fn law_file_is_written_in_the_way_of_its_shell(
    observed: ObservedConfig,
    bin_dir: Seq<char>,
)
    ensures
        observed.target.kind == ShellConfigKind::Posix ==> target_step(observed, bin_dir)
            == posix_step(observed.target.path@, observed.contents, bin_dir),
        observed.target.kind == ShellConfigKind::Fish ==> target_step(observed, bin_dir)
            == fish_step(observed.contents, bin_dir),
{
}

/// A start-up file must not be written exactly where it can be read and is a profile
/// with marker lines that are not balanced, or a file of fish that the application did
/// not write; the reason names the file.
pub proof fn law_only_broken_or_foreign_files_are_refused(observed: ObservedConfig)
    ensures
        ({
            let path = observed.target.path@;
            let refusal = config_refusal(observed);
            match observed.contents {
                FileContents::Text(text) => {
                    &&& observed.target.kind == ShellConfigKind::Posix ==> refusal == (
                    if balanced(text@) {
                        None
                    } else {
                        Some(path + " 中的 DSH Desktop PATH 配置不完整，请先检查该文件。"@)
                    })
                    &&& observed.target.kind == ShellConfigKind::Fish ==> refusal == (
                    if managed_fish(text@) {
                        None
                    } else {
                        Some(path + " 已存在且不是由 DSH Desktop 创建，应用不会覆盖它。"@)
                    })
                },
                _ => refusal is None,
            }
        }),
{
}

/// A list of start-up files is refused exactly where one of them is, with the reason of
/// the first.
pub proof fn law_first_refusal_is_told(configs: Seq<ObservedConfig>)
    ensures
        first_refusal(configs) is None <==> forall|i: int|
            0 <= i < configs.len() ==> config_refusal(#[trigger] configs[i]) is None,
        first_refusal(configs) is Some ==> exists|at: int|
            0 <= at < configs.len() && config_refusal(#[trigger] configs[at]) == first_refusal(
                configs,
            ) && forall|i: int| 0 <= i < at ==> config_refusal(#[trigger] configs[i]) is None,
    decreases configs.len(),
{
    if configs.len() > 0 {
        let rest = configs.drop_first();
        law_first_refusal_is_told(rest);
        if config_refusal(configs[0]) is None {
            if first_refusal(rest) is Some {
                let at = choose|at: int|
                    0 <= at < rest.len() && config_refusal(#[trigger] rest[at]) == first_refusal(
                        rest,
                    ) && forall|i: int| 0 <= i < at ==> config_refusal(#[trigger] rest[i]) is None;
                assert(configs[at + 1] == rest[at]);
                assert forall|i: int| 0 <= i < at + 1 implies config_refusal(
                    #[trigger] configs[i],
                ) is None by {
                    if i > 0 {
                        assert(rest[i - 1] == configs[i]);
                    }
                }
            } else {
                assert forall|i: int| 0 <= i < configs.len() implies config_refusal(
                    #[trigger] configs[i],
                ) is None by {
                    if i > 0 {
                        assert(rest[i - 1] == configs[i]);
                    }
                }
            }
        } else {
            assert(config_refusal(configs[0]) == first_refusal(configs));
        }
    }
}

/// A configured directory is taken as it is where it is absolute, and below the home
/// directory where it is not.
pub proof fn law_relative_directory_is_below_home(
    home: Seq<char>,
    path: Seq<char>,
    platform: Platform,
)
    ensures
        absolute(path, platform) ==> config_dir(home, path, platform) == path,
        !absolute(path, platform) ==> config_dir(home, path, platform) == below(
            home,
            path,
            platform,
        ),
{
}

/// zsh reads `.zshrc` where `ZDOTDIR` says, else where zsh itself says, else in the home
/// directory; an empty answer says nothing.
pub proof fn law_zsh_reads_where_it_is_told(
    home: Seq<char>,
    zdotdir: Option<Seq<char>>,
    report: Option<Seq<char>>,
    directory: Seq<char>,
    platform: Platform,
)
    ensures
        ({
            let told = report is Some && first_marked(lines_of(report->0), "__DSH_DESKTOP__"@)
                == Some(directory) && directory.len() > 0;
            let silent = report is None || first_marked(
                lines_of(report->0),
                "__DSH_DESKTOP__"@,
            ) is None || first_marked(lines_of(report->0), "__DSH_DESKTOP__"@)->0.len() == 0;
            let set = zdotdir is Some && zdotdir->0.len() > 0;
            let file = zsh_config(home, zdotdir, report, platform);
            &&& set ==> file == below(config_dir(home, zdotdir->0, platform), ".zshrc"@, platform)
            &&& !set && told ==> file == below(
                config_dir(home, directory, platform),
                ".zshrc"@,
                platform,
            )
            &&& !set && silent ==> file == below(home, ".zshrc"@, platform)
        }),
{
}

/// What zsh reports is what stands behind the mark on the first line that begins with
/// it, whatever other lines say.
pub proof fn law_first_marked_line_counts(
    before: Seq<Seq<char>>,
    value: Seq<char>,
    after: Seq<Seq<char>>,
    prefix: Seq<char>,
)
    requires
        forall|i: int| 0 <= i < before.len() ==> !prefix.is_prefix_of(#[trigger] before[i]),
    ensures
        first_marked(before + seq![prefix + value] + after, prefix) == Some(value),
        first_marked(before, prefix) is None,
    decreases before.len(),
{
    let list = before + seq![prefix + value] + after;
    if before.len() == 0 {
        assert(list[0] == prefix + value);
        assert((prefix + value).take(prefix.len() as int) =~= prefix);
        assert((prefix + value).skip(prefix.len() as int) =~= value);
    } else {
        let next = before.drop_first();
        assert forall|i: int| 0 <= i < next.len() implies !prefix.is_prefix_of(
            #[trigger] next[i],
        ) by {
            assert(next[i] == before[i + 1]);
        }
        law_first_marked_line_counts(next, value, after, prefix);
        assert(list[0] == before[0]);
        assert(list.drop_first() =~= next + seq![prefix + value] + after);
    }
}

/// fish reads the application's own file below `XDG_CONFIG_HOME`, or below `.config` in
/// the home directory where that is not set.
pub proof fn law_fish_reads_its_own_file(
    home: Seq<char>,
    config_home: Option<Seq<char>>,
    platform: Platform,
)
    ensures
        ({
            let file = |base: Seq<char>|
                below(below(base, "fish"@, platform), "conf.d/dsh-desktop.fish"@, platform);
            let set = config_home is Some && config_home->0.len() > 0;
            &&& set ==> fish_config_file(home, config_home, platform) == file(
                config_dir(home, config_home->0, platform),
            )
            &&& !set ==> fish_config_file(home, config_home, platform) == file(
                below(home, ".config"@, platform),
            )
        }),
{
}

/// The profile of an earlier version is cleaned exactly where there is one and it is
/// none of the files that are written now.
pub proof fn law_old_profile_is_cleaned_unless_it_is_in_use(
    profile: Seq<char>,
    config_paths: Seq<Seq<char>>,
    platform: Platform,
)
    ensures
        !cleans_legacy(None, config_paths, platform),
        cleans_legacy(Some(profile), config_paths, platform) <==> !(exists|i: int|
            0 <= i < config_paths.len() && paths_same(
                #[trigger] config_paths[i],
                profile,
                platform,
            )),
{
}

/// On Windows the application owns the entry of `PATH` where it owned it before or has
/// just added it; a script that failed is an error with what it printed.
pub proof fn law_added_entry_is_owned(
    success: bool,
    output: Seq<char>,
    errors: Seq<char>,
    owned_before: bool,
)
    ensures
        success ==> user_path_outcome(success, output, errors, owned_before) == Ok::<
            bool,
            Seq<char>,
        >(owned_before || has_text(output, "added"@)),
        !success ==> user_path_outcome(success, output, errors, owned_before) == Err::<
            bool,
            Seq<char>,
        >("无法更新当前用户 PATH："@ + trimmed(errors)),
{
}

/// The file of fish is known by its name alone.
pub proof fn law_fish_file_is_known_by_its_name(path: Seq<char>, platform: Platform)
    ensures
        fish_file(path, platform) <==> name_of(path, platform) == Some("dsh-desktop.fish"@),
{
}

/// Taking the command directory out again leaves a profile with what it holds outside
/// managed blocks, and deletes the file of fish. A file that is not there stays so, and
/// one that cannot be read, or a file of fish that is not the application's, is left
/// alone, with the reason.
pub proof fn law_removal_takes_out_what_is_ours(config: RecordedConfig, platform: Platform)
    ensures
        ({
            let step = removal(config, platform);
            let fish = name_of(config.path@, platform) == Some("dsh-desktop.fish"@);
            match config.contents {
                FileContents::Missing => step is Keep,
                FileContents::Unreadable(reason) => step == FileStepView::Refuse(
                    "无法读取 "@ + config.path@ + "："@ + reason@,
                ),
                FileContents::Text(text) => {
                    &&& !fish ==> (step is Keep || step is Write) && held_after(
                        config.contents,
                        step,
                    ) == Some(without_blocks(text@))
                    &&& !fish ==> (step is Keep <==> without_blocks(text@) == text@)
                    &&& fish && managed_fish(text@) ==> step is Delete
                    &&& fish && !managed_fish(text@) ==> step == FileStepView::Refuse(
                        config.path@ + " 已被修改，DSH Desktop 不会删除它。"@,
                    )
                },
            }
        }),
{
}

/// Taking managed blocks out of a profile leaves what it holds outside of them.
pub proof fn law_block_removal_leaves_the_rest(path: Seq<char>, text: String, reason: String)
    ensures
        ({
            let contents = FileContents::Text(text);
            let step = block_removal(path, contents);
            &&& step is Keep || step is Write
            &&& held_after(contents, step) == Some(without_blocks(text@))
            &&& block_removal(path, FileContents::Missing) is Keep
            &&& block_removal(path, FileContents::Unreadable(reason)) == FileStepView::Refuse(
                "无法读取 "@ + path + "："@ + reason@,
            )
        }),
{
}

/// The command directory cannot be taken out of a file exactly where it cannot be read,
/// is a file of fish that is not the application's, or a profile with marker lines that
/// are not balanced.
pub proof fn law_removal_is_refused_for_a_reason(config: RecordedConfig, platform: Platform)
    ensures
        ({
            let path = config.path@;
            let fish = name_of(path, platform) == Some("dsh-desktop.fish"@);
            let refusal = removal_refusal(config, platform);
            match config.contents {
                FileContents::Missing => refusal is None,
                FileContents::Unreadable(reason) => refusal == Some(
                    "无法读取 "@ + path + "："@ + reason@,
                ),
                FileContents::Text(text) => {
                    &&& refusal is None <==> if fish {
                        managed_fish(text@)
                    } else {
                        balanced(text@)
                    }
                    &&& fish && refusal is Some ==> refusal == Some(
                        path + " 已被修改，DSH Desktop 不会删除它。"@,
                    )
                    &&& !fish && refusal is Some ==> refusal == Some(
                        path + " 中的 DSH Desktop PATH 配置不完整，请先检查该文件。"@,
                    )
                },
            }
        }),
{
}

/// A removal is refused as a whole exactly where one of the files is, with the reason of
/// the first; on Windows there are no such files.
pub proof fn law_first_removal_refusal_is_told(configs: Seq<RecordedConfig>, platform: Platform)
    ensures
        platform == Platform::Windows ==> first_removal_refusal(configs, platform) is None,
        platform != Platform::Windows ==> (first_removal_refusal(configs, platform) is None
            <==> forall|i: int|
            0 <= i < configs.len() ==> removal_refusal(#[trigger] configs[i], platform) is None),
        first_removal_refusal(configs, platform) is Some ==> exists|at: int|
            0 <= at < configs.len() && removal_refusal(#[trigger] configs[at], platform)
                == first_removal_refusal(configs, platform) && forall|i: int|
                0 <= i < at ==> removal_refusal(#[trigger] configs[i], platform) is None,
    decreases configs.len(),
{
    if configs.len() > 0 && platform != Platform::Windows {
        let rest = configs.drop_first();
        law_first_removal_refusal_is_told(rest, platform);
        if removal_refusal(configs[0], platform) is None {
            if first_removal_refusal(rest, platform) is Some {
                let at = choose|at: int|
                    0 <= at < rest.len() && removal_refusal(#[trigger] rest[at], platform)
                        == first_removal_refusal(rest, platform) && forall|i: int|
                        0 <= i < at ==> removal_refusal(#[trigger] rest[i], platform) is None;
                assert(configs[at + 1] == rest[at]);
                assert forall|i: int| 0 <= i < at + 1 implies removal_refusal(
                    #[trigger] configs[i],
                    platform,
                ) is None by {
                    if i > 0 {
                        assert(rest[i - 1] == configs[i]);
                    }
                }
            } else {
                assert forall|i: int| 0 <= i < configs.len() implies removal_refusal(
                    #[trigger] configs[i],
                    platform,
                ) is None by {
                    if i > 0 {
                        assert(rest[i - 1] == configs[i]);
                    }
                }
            }
        } else {
            assert(removal_refusal(configs[0], platform) == first_removal_refusal(
                configs,
                platform,
            ));
        }
    }
}

} // verus!
