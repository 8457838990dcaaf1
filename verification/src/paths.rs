//! File paths as text.
//!
//! On Windows both slashes separate names and the backslash is written; on
//! every other platform only `/` separates names.

use vstd::prelude::*;

use crate::host::Platform;
use crate::path_prefix::{
    begins_with_dot, begins_with_drive, body_start, ends_name, is_name_end, is_plain_drive, is_separator, is_verbatim,
    is_verbatim_drive, is_verbatim_share, on_drive, path_start, plain_drive, prefix_length,
    root_written, rooted, separates, verbatim_share,
};
use crate::text::{
    cat2, cat3, chars_of, has_text, join, joined, last_occurrence, lemma_last_occurrence, no_texts, occurs_at,
    same, text_of,
};
use crate::trim::{
    lower, lowered, replace, replaced, split_at_first, split_once, strip_back, strip_trailing,
    CharClass,
};

verus! {

/// The separator that joining writes.
pub open spec fn written_separator(platform: Platform) -> Seq<char> {
    if platform.windows() {
        "\\"@
    } else {
        "/"@
    }
}

/// The path does not depend on a current directory: it begins at the root, on
/// Windows at that of a drive, a share or a device.
pub open spec fn absolute(path: Seq<char>, platform: Platform) -> bool {
    rooted(path, platform) && (platform.windows() ==> prefix_length(path, platform) > 0)
}

/// Whether the path is absolute.
pub fn is_absolute(path: &str, platform: Platform) -> (yes: bool)
    ensures
        yes == absolute(path@, platform),
{
    let start = path_start(&chars_of(path), platform);
    start.rooted && (!platform.is_windows() || start.prefix > 0)
}

/// The names between the marks of a text, empty ones left out, and single dots
/// too unless `dots` says that they stay.
pub open spec fn names_of(text: Seq<char>, mark: char, dots: bool) -> Seq<Seq<char>>
    decreases text.len(),
{
    match split_once(text, mark) {
        Some((name, rest)) if rest.len() < text.len() => kept_name(name, dots) + names_of(
            rest,
            mark,
            dots,
        ),
        _ => kept_name(text, dots),
    }
}

/// A name as a sequence of at most one: an empty one vanishes, and a single dot
/// unless it stays.
pub open spec fn kept_name(name: Seq<char>, dots: bool) -> Seq<Seq<char>> {
    if name.len() == 0 || (!dots && name == "."@) {
        Seq::empty()
    } else {
        seq![name]
    }
}

fn names(text: &str, mark: char, dots: bool) -> (list: Vec<String>)
    ensures
        list.deep_view() == names_of(text@, mark, dots),
{
    let mut list: Vec<String> = Vec::new();
    let mut rest: String = text.to_string();
    let ghost empty: Seq<Seq<char>> = Seq::empty();
    assert(list.deep_view() =~= empty);
    assert(empty + names_of(text@, mark, dots) =~= names_of(text@, mark, dots));
    loop
        invariant_except_break
            names_of(text@, mark, dots) == list.deep_view() + names_of(rest@, mark, dots),
        ensures
            list.deep_view() == names_of(text@, mark, dots),
        decreases rest@.len(),
    {
        let ghost before = list.deep_view();
        let ghost whole = rest@;
        proof {
            crate::text::lemma_first_from(whole, seq![mark], 0);
        }
        match split_at_first(rest.as_str(), mark) {
            Some((name, next)) => {
                let ghost found = name@;
                if !name.as_str().is_empty() && (dots || !same(name.as_str(), ".")) {
                    list.push(name);
                }
                assert(list.deep_view() =~= before + kept_name(found, dots));
                assert(before + names_of(whole, mark, dots) =~= list.deep_view() + names_of(
                    next@,
                    mark,
                    dots,
                ));
                rest = next;
            },
            None => {
                if !rest.as_str().is_empty() && (dots || !same(rest.as_str(), ".")) {
                    list.push(rest);
                }
                assert(list.deep_view() =~= before + kept_name(whole, dots));
                break;
            },
        }
    }
    list
}

/// The names of a path, behind its prefix and its root. Single dots are no names
/// but in a verbatim path.
pub open spec fn path_names(path: Seq<char>, platform: Platform) -> Seq<Seq<char>> {
    let body = path.skip(body_start(path, platform) as int);
    if is_verbatim(path, platform) {
        names_of(body, '\\', true)
    } else if platform.windows() {
        names_of(replaced(body, '\\', "/"@), '/', false)
    } else {
        names_of(body, '/', false)
    }
}

fn names_in(path: &str, platform: Platform) -> (list: Vec<String>)
    ensures
        list.deep_view() == path_names(path@, platform),
{
    let chars = chars_of(path);
    let start = path_start(&chars, platform);
    let from: usize = start.body;
    let body = text_of(&chars, from, chars.len());
    assert(body@ =~= path@.skip(from as int));
    if start.verbatim {
        names(body.as_str(), '\\', true)
    } else if platform.is_windows() {
        names(replace(body.as_str(), '\\', "/").as_str(), '/', false)
    } else {
        names(body.as_str(), '/', false)
    }
}

/// The names that are reached from `names` by the names in `added`: two dots take
/// back a name before them, unless that is itself a dot or two dots.
pub open spec fn names_reached(names: Seq<Seq<char>>, added: Seq<Seq<char>>) -> Seq<Seq<char>>
    decreases added.len(),
{
    if added.len() == 0 {
        names
    } else {
        let before = names_reached(names, added.drop_last());
        if added.last() != ".."@ {
            before.push(added.last())
        } else if before.len() > 0 && before.last() != "."@ && before.last() != ".."@ {
            before.drop_last()
        } else {
            before
        }
    }
}

fn reach(names: Vec<String>, added: &Vec<String>) -> (reached: Vec<String>)
    ensures
        reached.deep_view() == names_reached(names.deep_view(), added.deep_view()),
{
    let ghost first = names.deep_view();
    let ghost all = added.deep_view();
    let mut reached = names;
    let mut i: usize = 0;
    assert(all.take(0) =~= Seq::empty());
    while i < added.len()
        invariant
            i <= added@.len(),
            all == added.deep_view(),
            reached.deep_view() == names_reached(first, all.take(i as int)),
        decreases added@.len() - i,
    {
        let ghost before = reached.deep_view();
        proof {
            assert(all.take(i + 1).drop_last() =~= all.take(i as int));
            assert(all.take(i + 1).last() == added[i as int]@);
        }
        if !same(added[i].as_str(), "..") {
            reached.push(added[i].clone());
            assert(reached.deep_view() =~= before.push(added[i as int]@));
        } else if reached.len() > 0 {
            let last: usize = reached.len() - 1;
            assert(before.last() == reached[last as int]@);
            if !same(reached[last].as_str(), ".") && !same(reached[last].as_str(), "..") {
                reached.pop();
                assert(reached.deep_view() =~= before.drop_last());
            }
        }
        i = i + 1;
    }
    assert(all.take(all.len() as int) =~= all);
    reached
}

/// `relative` below a verbatim path of Windows. Such a path is handed on as it
/// stands, so dots are worked out when it is joined.
pub open spec fn below_verbatim(root: Seq<char>, relative: Seq<char>) -> Seq<char> {
    let platform = Platform::Windows;
    let anew = root_written(relative, platform);
    let names = names_reached(
        if anew {
            Seq::empty()
        } else {
            path_names(root, platform)
        },
        path_names(relative, platform),
    );
    root.take(prefix_length(root, platform) as int) + (if anew || root_written(root, platform)
        || names.len() > 0 {
        "\\"@
    } else {
        ""@
    }) + joined(names, "\\"@)
}

fn join_verbatim(root: &str, relative: &str) -> (path: String)
    ensures
        path@ == below_verbatim(root@, relative@),
{
    let platform = Platform::Windows;
    let chars = chars_of(root);
    let start = path_start(&chars, platform);
    let anew = path_start(&chars_of(relative), platform).root_written;
    let names = reach(
        if anew {
            no_texts()
        } else {
            names_in(root, platform)
        },
        &names_in(relative, platform),
    );
    let prefix = text_of(&chars, 0, start.prefix);
    assert(prefix@ =~= root@.take(prefix_length(root@, platform) as int));
    assert(names@.len() == names.deep_view().len());
    let rest = join(&names, "\\");
    if anew || start.root_written || names.len() > 0 {
        cat3(prefix.as_str(), "\\", rest.as_str())
    } else {
        cat3(prefix.as_str(), "", rest.as_str())
    }
}

/// `relative` below `root`; an absolute path stays what it is. On Windows a path
/// with a drive stays what it is too, one that begins with a separator keeps the
/// drive, the share or the device of `root`, and nothing is written between a bare
/// drive and a name.
pub open spec fn below(root: Seq<char>, relative: Seq<char>, platform: Platform) -> Seq<char> {
    if absolute(relative, platform) || prefix_length(relative, platform) > 0 || root.len() == 0 {
        relative
    } else if is_verbatim(root, platform) && relative.len() > 0 {
        below_verbatim(root, relative)
    } else if root_written(relative, platform) {
        root.take(prefix_length(root, platform) as int) + relative
    } else if separates(root.last(), platform) || (plain_drive(root, platform) && root.len()
        == 2) {
        root + relative
    } else {
        root + written_separator(platform) + relative
    }
}

/// Puts `relative` below `root`.
pub fn join_path(root: &str, relative: &str, platform: Platform) -> (path: String)
    ensures
        path@ == below(root@, relative@, platform),
{
    let chars = chars_of(root);
    let names = chars_of(relative);
    let lower_start = path_start(&names, platform);
    if is_absolute(relative, platform) || lower_start.prefix > 0 || chars.len() == 0 {
        return relative.to_string();
    }
    let start = path_start(&chars, platform);
    if start.verbatim && names.len() > 0 {
        join_verbatim(root, relative)
    } else if lower_start.root_written {
        let prefix = text_of(&chars, 0, start.prefix);
        assert(prefix@ =~= root@.take(prefix_length(root@, platform) as int));
        cat2(prefix.as_str(), relative)
    } else if is_separator(chars[chars.len() - 1], platform) || (is_plain_drive(&chars, platform)
        && chars.len() == 2) {
        cat2(root, relative)
    } else if platform.is_windows() {
        cat3(root, "\\", relative)
    } else {
        cat3(root, "/", relative)
    }
}

/// `path` without separators at its end, and without names that are a single dot
/// but in a verbatim path; its first `start` characters are kept.
pub open spec fn trim_tail(
    path: Seq<char>,
    start: nat,
    verbatim: bool,
    platform: Platform,
) -> Seq<char>
    decreases path.len(),
{
    if path.len() > start && (ends_name(path.last(), verbatim, platform) || (!verbatim
        && path.last() == '.' && (path.len() == start + 1 || ends_name(
        path[path.len() - 2],
        verbatim,
        platform,
    )))) {
        trim_tail(path.drop_last(), start, verbatim, platform)
    } else {
        path
    }
}

fn tail_end(
    chars: &Vec<char>,
    to: usize,
    start: usize,
    verbatim: bool,
    platform: Platform,
) -> (end: usize)
    requires
        to <= chars@.len(),
    ensures
        end <= to,
        to >= start ==> end >= start,
        chars@.take(end as int) == trim_tail(
            chars@.take(to as int),
            start as nat,
            verbatim,
            platform,
        ),
{
    let mut end: usize = to;
    while end > start && (is_name_end(chars[end - 1], verbatim, platform) || (!verbatim
        && chars[end - 1] == '.' && (end - 1 == start || is_name_end(
        chars[end - 2],
        verbatim,
        platform,
    ))))
        invariant
            end <= to <= chars@.len(),
            to >= start ==> end >= start,
            trim_tail(chars@.take(end as int), start as nat, verbatim, platform) == trim_tail(
                chars@.take(to as int),
                start as nat,
                verbatim,
                platform,
            ),
        decreases end,
    {
        assert(chars@.take(end as int).drop_last() =~= chars@.take(end - 1));
        end = end - 1;
    }
    assert(end >= 2 ==> chars@.take(end as int)[end - 2] == chars@[end - 2]);
    end
}

/// The number of characters of `path` up to and with its last separator, no fewer
/// than `start`.
pub open spec fn last_name_start(
    path: Seq<char>,
    start: nat,
    verbatim: bool,
    platform: Platform,
) -> nat
    decreases path.len(),
{
    if path.len() <= start || ends_name(path.last(), verbatim, platform) {
        path.len()
    } else {
        last_name_start(path.drop_last(), start, verbatim, platform)
    }
}

fn name_start(
    chars: &Vec<char>,
    to: usize,
    start: usize,
    verbatim: bool,
    platform: Platform,
) -> (at: usize)
    requires
        to <= chars@.len(),
    ensures
        at <= to,
        at == last_name_start(chars@.take(to as int), start as nat, verbatim, platform),
{
    let mut at: usize = to;
    while at > start && !is_name_end(chars[at - 1], verbatim, platform)
        invariant
            at <= to <= chars@.len(),
            last_name_start(chars@.take(at as int), start as nat, verbatim, platform)
                == last_name_start(chars@.take(to as int), start as nat, verbatim, platform),
        decreases at,
    {
        assert(chars@.take(at as int).drop_last() =~= chars@.take(at - 1));
        at = at - 1;
    }
    at
}

/// The directory that holds what `path` names: `None` for a root, for a bare drive
/// and for the empty path.
pub open spec fn parent_of(path: Seq<char>, platform: Platform) -> Option<Seq<char>> {
    let start = body_start(path, platform);
    let verbatim = is_verbatim(path, platform);
    let whole = trim_tail(path, start, verbatim, platform);
    if whole.len() > start {
        let names = last_name_start(whole, start, verbatim, platform);
        Some(trim_tail(whole.take(names as int), start, verbatim, platform))
    } else if begins_with_dot(path, platform) {
        Some(path.take(prefix_length(path, platform) as int))
    } else {
        None
    }
}

/// The last name of `path`: `None` where the path ends in a root, a drive, a single
/// dot or two dots.
pub open spec fn name_of(path: Seq<char>, platform: Platform) -> Option<Seq<char>> {
    let start = body_start(path, platform);
    let verbatim = is_verbatim(path, platform);
    let whole = trim_tail(path, start, verbatim, platform);
    let name = whole.skip(last_name_start(whole, start, verbatim, platform) as int);
    if whole.len() <= start || name == "."@ || name == ".."@ {
        None
    } else {
        Some(name)
    }
}

/// The directory that holds what `path` names.
pub fn parent(path: &str, platform: Platform) -> (directory: Option<String>)
    ensures
        directory.deep_view() == parent_of(path@, platform),
{
    let chars = chars_of(path);
    assert(chars@.take(chars@.len() as int) =~= chars@);
    let start = path_start(&chars, platform);
    let from: usize = start.body;
    let end = tail_end(&chars, chars.len(), from, start.verbatim, platform);
    let ghost whole = chars@.take(end as int);
    if end > from {
        let names = name_start(&chars, end, from, start.verbatim, platform);
        let cut = tail_end(&chars, names, from, start.verbatim, platform);
        assert(whole.take(names as int) =~= chars@.take(names as int));
        assert(chars@.subrange(0, cut as int) =~= chars@.take(cut as int));
        Some(text_of(&chars, 0, cut))
    } else if start.dot {
        let prefix = text_of(&chars, 0, start.prefix);
        assert(prefix@ =~= path@.take(start.prefix as int));
        Some(prefix)
    } else {
        None
    }
}

/// The last name of `path`.
pub fn file_name(path: &str, platform: Platform) -> (name: Option<String>)
    ensures
        name.deep_view() == name_of(path@, platform),
{
    let chars = chars_of(path);
    assert(chars@.take(chars@.len() as int) =~= chars@);
    let start = path_start(&chars, platform);
    let from: usize = start.body;
    let end = tail_end(&chars, chars.len(), from, start.verbatim, platform);
    let at = name_start(&chars, end, from, start.verbatim, platform);
    let ghost whole = chars@.take(end as int);
    let name = text_of(&chars, at, end);
    assert(name@ =~= whole.skip(at as int));
    if end <= from || same(name.as_str(), ".") || same(name.as_str(), "..") {
        None
    } else {
        Some(name)
    }
}

/// What stands behind the last dot of the last name, where that dot is not its
/// first character.
pub open spec fn extension_of(path: Seq<char>, platform: Platform) -> Option<Seq<char>> {
    match name_of(path, platform) {
        Some(name) => match last_occurrence(name, seq!['.']) {
            Some(at) if at > 0 => Some(name.skip(at + 1)),
            _ => None,
        },
        None => None,
    }
}

/// The extension of the last name of `path`.
pub fn extension(path: &str, platform: Platform) -> (ending: Option<String>)
    ensures
        ending.deep_view() == extension_of(path@, platform),
{
    let name = match file_name(path, platform) {
        Some(name) => name,
        None => {
            return None;
        },
    };
    let chars = chars_of(name.as_str());
    let length: usize = chars.len();
    let mut i: usize = length;
    while i > 0
        invariant
            i <= length == chars@.len(),
            chars@ == name@,
            name_of(path@, platform) == Some(name@),
            forall|j: int| i <= j < length ==> chars@[j] != '.',
        decreases i,
    {
        i = i - 1;
        if chars[i] == '.' {
            proof {
                assert(chars@.subrange(i as int, i + 1) =~= seq!['.']);
                assert forall|later: int| i < later implies !occurs_at(
                    chars@,
                    seq!['.'],
                    later,
                ) by {
                    if occurs_at(chars@, seq!['.'], later) {
                        assert(chars@.subrange(later, later + 1)[0] == chars@[later]);
                    }
                }
                lemma_last_occurrence(chars@, seq!['.'], i as int);
            }
            if i == 0 {
                return None;
            }
            let ending = text_of(&chars, i + 1, length);
            assert(ending@ =~= name@.skip(i + 1));
            return Some(ending);
        }
    }
    proof {
        assert forall|at: int| !occurs_at(chars@, seq!['.'], at) by {
            if occurs_at(chars@, seq!['.'], at) {
                assert(chars@.subrange(at, at + 1)[0] == chars@[at]);
            }
        }
    }
    None
}

/// What tells the prefix of a path from another: whether it is verbatim, and its
/// text, in which the slash and the backslash are one where either may be written,
/// and the case of a drive's letter makes no difference.
pub open spec fn prefix_form(path: Seq<char>, platform: Platform) -> (bool, Seq<char>) {
    let prefix = path.take(prefix_length(path, platform) as int);
    if is_verbatim(path, platform) {
        (
            true,
            if verbatim_share(path) {
                path.take(7) + "\\"@ + prefix.skip(8)
            } else if on_drive(path.skip(4)) {
                lowered(prefix)
            } else {
                prefix
            },
        )
    } else if plain_drive(path, platform) {
        (false, lowered(prefix))
    } else {
        (false, replaced(prefix, '/', "\\"@))
    }
}

fn form_of_prefix(path: &str, platform: Platform) -> (form: (bool, String))
    ensures
        form.0 == prefix_form(path@, platform).0,
        form.1@ == prefix_form(path@, platform).1,
{
    let chars = chars_of(path);
    let start = path_start(&chars, platform);
    let prefix = text_of(&chars, 0, start.prefix);
    assert(prefix@ =~= path@.take(start.prefix as int));
    if start.verbatim {
        if is_verbatim_share(&chars) {
            let first = text_of(&chars, 0, 7);
            let rest = text_of(&chars, 8, start.prefix);
            assert(first@ =~= path@.take(7));
            assert(rest@ =~= prefix@.skip(8));
            (true, cat3(first.as_str(), "\\", rest.as_str()))
        } else if is_verbatim_drive(&chars) {
            (true, lower(prefix.as_str()))
        } else {
            (true, prefix)
        }
    } else if is_plain_drive(&chars, platform) {
        (false, lower(prefix.as_str()))
    } else {
        (false, replace(prefix.as_str(), '/', "\\"))
    }
}

/// A root stands before the names: it is written, or a share or a device has one
/// of itself. Of a verbatim path only a written one counts.
pub open spec fn root_shown(path: Seq<char>, platform: Platform) -> bool {
    root_written(path, platform) || (rooted(path, platform) && !is_verbatim(path, platform))
}

/// What tells one path from another: its prefix, whether it begins at a root,
/// whether it begins with a single dot, and its names.
pub open spec fn identity(path: Seq<char>, platform: Platform) -> (
    (bool, Seq<char>),
    bool,
    bool,
    Seq<Seq<char>>,
) {
    (
        prefix_form(path, platform),
        root_shown(path, platform),
        begins_with_dot(path, platform),
        path_names(path, platform),
    )
}

fn same_list(left: &Vec<String>, right: &Vec<String>) -> (equal: bool)
    ensures
        equal == (left.deep_view() == right.deep_view()),
{
    if left.len() != right.len() {
        assert(left.deep_view().len() != right.deep_view().len());
        return false;
    }
    let mut i: usize = 0;
    while i < left.len()
        invariant
            i <= left@.len(),
            left@.len() == right@.len(),
            forall|j: int| 0 <= j < i ==> left.deep_view()[j] == right.deep_view()[j],
        decreases left@.len() - i,
    {
        if !same(left[i].as_str(), right[i].as_str()) {
            assert(left.deep_view()[i as int] != right.deep_view()[i as int]);
            return false;
        }
        i = i + 1;
    }
    assert(left.deep_view() =~= right.deep_view());
    true
}

/// Two paths name the same place, as far as their text shows.
pub open spec fn same_place(left: Seq<char>, right: Seq<char>, platform: Platform) -> bool {
    identity(left, platform) == identity(right, platform)
}

/// Whether two paths name the same place.
pub fn same_path(left: &str, right: &str, platform: Platform) -> (equal: bool)
    ensures
        equal == same_place(left@, right@, platform),
{
    let l = path_start(&chars_of(left), platform);
    let r = path_start(&chars_of(right), platform);
    let left_root = l.root_written || (l.rooted && !l.verbatim);
    let right_root = r.root_written || (r.rooted && !r.verbatim);
    let left_form = form_of_prefix(left, platform);
    let right_form = form_of_prefix(right, platform);
    left_form.0 == right_form.0 && same(left_form.1.as_str(), right_form.1.as_str()) && left_root
        == right_root && l.dot == r.dot && same_list(
        &names_in(left, platform),
        &names_in(right, platform),
    )
}

/// Two paths are one to Windows: they differ in the case of ASCII letters
/// alone.
pub open spec fn same_ignoring_case(left: Seq<char>, right: Seq<char>) -> bool {
    lowered(left) == lowered(right)
}

/// Whether two texts differ in the case of ASCII letters alone.
pub fn equal_ignoring_case(left: &str, right: &str) -> (equal: bool)
    ensures
        equal == same_ignoring_case(left@, right@),
{
    same(lower(left).as_str(), lower(right).as_str())
}

/// `path` without slashes and backslashes at its end.
pub fn without_trailing_separators(path: &str) -> (rest: String)
    ensures
        rest@ == strip_trailing(path@, CharClass::Separator),
{
    strip_back(path, CharClass::Separator)
}

/// The paths that were found on disk.
pub struct FoundPaths {
    pub paths: Vec<String>,
}

impl FoundPaths {
    /// `path` was found.
    pub open spec fn holds(self, path: Seq<char>) -> bool {
        self.paths.deep_view().contains(path)
    }

    /// Whether `path` was found.
    pub fn has(&self, path: &str) -> (found: bool)
        ensures
            found == self.holds(path@),
    {
        crate::text::list_has(&self.paths, path)
    }
}

/// The first of the candidates that was found.
pub open spec fn first_held(candidates: Seq<Seq<char>>, found: FoundPaths) -> Option<Seq<char>>
    decreases candidates.len(),
{
    if candidates.len() == 0 {
        None
    } else if found.holds(candidates[0]) {
        Some(candidates[0])
    } else {
        first_held(candidates.drop_first(), found)
    }
}

/// The first of the candidates that was found.
pub fn first_found(candidates: &Vec<String>, found: &FoundPaths) -> (first: Option<String>)
    ensures
        first.deep_view() == first_held(candidates.deep_view(), *found),
{
    let ghost all = candidates.deep_view();
    assert(all.skip(0) =~= all);
    let mut i: usize = 0;
    while i < candidates.len()
        invariant
            i <= candidates.len(),
            all == candidates.deep_view(),
            first_held(all, *found) == first_held(all.skip(i as int), *found),
        decreases candidates.len() - i,
    {
        proof {
            assert(all.skip(i as int)[0] == candidates[i as int]@);
            assert(all.skip(i as int).drop_first() =~= all.skip(i + 1));
        }
        if found.has(candidates[i].as_str()) {
            return Some(candidates[i].clone());
        }
        i += 1;
    }
    None
}

/// A file of that name below each directory.
pub open spec fn below_each(
    directories: Seq<Seq<char>>,
    name: Seq<char>,
    platform: Platform,
) -> Seq<Seq<char>> {
    directories.map_values(|directory: Seq<char>| below(directory, name, platform))
}

/// A file of that name below each directory.
pub fn join_each(directories: &Vec<String>, name: &str, platform: Platform) -> (paths: Vec<String>)
    ensures
        paths.deep_view() == below_each(directories.deep_view(), name@, platform),
{
    let mut paths: Vec<String> = Vec::new();
    let mut i: usize = 0;
    while i < directories.len()
        invariant
            i <= directories.len(),
            paths.deep_view() == below_each(
                directories.deep_view().take(i as int),
                name@,
                platform,
            ),
        decreases directories.len() - i,
    {
        let ghost before = paths.deep_view();
        let path = join_path(directories[i].as_str(), name, platform);
        let ghost text = path@;
        paths.push(path);
        proof {
            assert(paths.deep_view() =~= before.push(text));
            assert(directories.deep_view().take(i + 1) =~= directories.deep_view().take(
                i as int,
            ).push(directories[i as int]@));
            assert(paths.deep_view() =~= below_each(
                directories.deep_view().take(i + 1),
                name@,
                platform,
            ));
        }
        i += 1;
    }
    assert(directories.deep_view().take(directories.len() as int) =~= directories.deep_view());
    paths
}

/// The environment that says where the home directory is.
pub struct HomeVariables {
    pub home: Option<String>,
    pub user_profile: Option<String>,
    pub home_drive: Option<String>,
    pub home_path: Option<String>,
    /// The directory that the process runs in.
    pub current: Option<String>,
}

/// The home directory: `HOME`, else `USERPROFILE`, else `HOMEPATH` on
/// `HOMEDRIVE`, else the directory that the process runs in.
pub open spec fn home_directory(variables: HomeVariables, platform: Platform) -> Seq<char> {
    if variables.home is Some {
        variables.home->0@
    } else if variables.user_profile is Some {
        variables.user_profile->0@
    } else if variables.home_drive is Some && variables.home_path is Some {
        below(variables.home_drive->0@, variables.home_path->0@, platform)
    } else if variables.current is Some {
        variables.current->0@
    } else {
        "."@
    }
}

/// The home directory.
pub fn user_home(variables: &HomeVariables, platform: Platform) -> (home: String)
    ensures
        home@ == home_directory(*variables, platform),
{
    if let Some(home) = &variables.home {
        return home.clone();
    }
    if let Some(profile) = &variables.user_profile {
        return profile.clone();
    }
    if let (Some(drive), Some(path)) = (&variables.home_drive, &variables.home_path) {
        return join_path(drive.as_str(), path.as_str(), platform);
    }
    match &variables.current {
        Some(current) => current.clone(),
        None => ".".to_string(),
    }
}

/// Where a file is written before it takes the place of the old one.
pub fn temporary_path(path: &str) -> (temporary: String)
    ensures
        temporary@ == path@ + ".tmp"@,
{
    cat2(path, ".tmp")
}

/// Without Windows a path below a directory is the two with one slash between them; a
/// path from the root stays what it is.
pub proof fn law_path_below_a_directory(
    root: Seq<char>,
    relative: Seq<char>,
    platform: Platform,
)
    requires
        platform != Platform::Windows,
    ensures
        ({
            let path = below(root, relative, platform);
            let from_root = relative.len() > 0 && relative[0] == '/';
            &&& from_root ==> path == relative
            &&& root.len() == 0 ==> path == relative
            &&& !from_root && root.len() > 0 && root.last() == '/' ==> path == root + relative
            &&& !from_root && root.len() > 0 && root.last() != '/' ==> path == root + "/"@
                + relative
            &&& absolute(relative, platform) <==> from_root
        }),
{
}

/// On Windows a path with a drive or a share stays what it is, one from the root keeps
/// the drive or the share it is put below, and any other follows behind one backslash.
pub proof fn law_path_below_a_directory_of_windows(root: Seq<char>, relative: Seq<char>)
    requires
        !is_verbatim(root, Platform::Windows),
        root.len() > 0,
    ensures
        ({
            let platform = Platform::Windows;
            let path = below(root, relative, platform);
            let prefixed = prefix_length(relative, platform) > 0;
            let from_root = relative.len() > 0 && (relative[0] == '/' || relative[0] == '\\');
            let ended = root.last() == '/' || root.last() == '\\' || (root.len() == 2
                && begins_with_drive(root));
            &&& prefixed ==> path == relative
            &&& !prefixed && from_root ==> path == root.take(
                prefix_length(root, platform) as int,
            ) + relative
            &&& !prefixed && !from_root && ended ==> path == root + relative
            &&& !prefixed && !from_root && !ended ==> path == root + "\\"@ + relative
        }),
{
}

proof fn lemma_name_behind(
    front: Seq<char>,
    name: Seq<char>,
    start: nat,
    platform: Platform,
)
    requires
        platform != Platform::Windows,
        !name.contains('/'),
        front.len() > 0,
        front.last() == '/',
        start <= front.len(),
    ensures
        last_name_start(front + name, start, false, platform) == front.len(),
    decreases name.len(),
{
    if name.len() == 0 {
        assert(front + name =~= front);
    } else {
        let next = name.drop_last();
        assert(!next.contains('/')) by {
            if next.contains('/') {
                let i = choose|i: int| 0 <= i < next.len() && next[i] == '/';
                assert(name[i] == '/');
            }
        }
        assert(name.contains(name.last()));
        assert((front + name).last() == name.last());
        assert((front + name).drop_last() =~= front + next);
        lemma_name_behind(front, next, start, platform);
    }
}

/// Without Windows, what is put below a directory has its own name as its last one, and
/// the directory as its parent.
pub proof fn law_parent_and_name_take_a_path_apart(
    directory: Seq<char>,
    name: Seq<char>,
    platform: Platform,
)
    requires
        platform != Platform::Windows,
        directory.len() > 0,
        directory.last() != '/',
        directory.last() != '.',
        name.len() > 0,
        !name.contains('/'),
        name != "."@,
        name != ".."@,
    ensures
        name_of(below(directory, name, platform), platform) == Some(name),
        parent_of(below(directory, name, platform), platform) == Some(directory),
{
    reveal_strlit("/");
    reveal_strlit(".");
    assert(name.contains(name[0]));
    assert(name.contains(name.last()));
    let path = below(directory, name, platform);
    let front = directory + "/"@;
    assert(path =~= front + name);
    let start = body_start(path, platform);
    assert(path[0] == directory[0]);
    assert(start <= 1);
    if name.len() == 1 && name.last() == '.' {
        assert(name =~= "."@);
    }
    assert(path.last() == name.last());
    if name.len() > 1 {
        assert(path[path.len() - 2] == name[name.len() - 2]);
        assert(name.contains(name[name.len() - 2]));
    }
    assert(trim_tail(path, start, false, platform) == path);
    assert(front.last() == '/');
    lemma_name_behind(front, name, start, platform);
    assert(path.skip(front.len() as int) =~= name);
    assert(path.take(front.len() as int) =~= front);
    assert(front.drop_last() =~= directory);
    assert(trim_tail(front, start, false, platform) == trim_tail(
        directory,
        start,
        false,
        platform,
    ));
    assert(trim_tail(directory, start, false, platform) == directory);
}

/// The root of a file system, and on Windows the root of a drive and a bare drive, have
/// neither a parent nor a name.
pub proof fn law_root_has_no_parent(letter: char, platform: Platform)
    requires
        'a' <= letter <= 'z' || 'A' <= letter <= 'Z',
    ensures
        platform != Platform::Windows ==> parent_of(seq!['/'], platform) is None && name_of(
            seq!['/'],
            platform,
        ) is None,
        parent_of(seq![letter, ':', '\\'], Platform::Windows) is None,
        name_of(seq![letter, ':', '\\'], Platform::Windows) is None,
        parent_of(seq![letter, ':'], Platform::Windows) is None,
        name_of(seq![letter, ':'], Platform::Windows) is None,
{
    let slash = seq!['/'];
    assert(trim_tail(slash, 1, false, platform) == slash);
    let root = seq![letter, ':', '\\'];
    assert(prefix_length(root, Platform::Windows) == 2);
    assert(trim_tail(root, 3, false, Platform::Windows) == root);
    let drive = seq![letter, ':'];
    assert(prefix_length(drive, Platform::Windows) == 2);
    assert(trim_tail(drive, 2, false, Platform::Windows) == drive);
}

/// The extension is what stands behind the last dot of the last name, unless that dot is
/// its first character.
pub proof fn law_extension_stands_behind_the_last_dot(
    path: Seq<char>,
    stem: Seq<char>,
    ending: Seq<char>,
    platform: Platform,
)
    requires
        !ending.contains('.'),
    ensures
        name_of(path, platform) == Some(stem + seq!['.'] + ending) && stem.len() > 0
            ==> extension_of(path, platform) == Some(ending),
        name_of(path, platform) == Some(seq!['.'] + ending) ==> extension_of(path, platform)
            is None,
        name_of(path, platform) == Some(ending) ==> extension_of(path, platform) is None,
        name_of(path, platform) is None ==> extension_of(path, platform) is None,
{
    let name = stem + seq!['.'] + ending;
    lemma_dot_is_last(stem, ending);
    assert(name.skip(stem.len() as int + 1) =~= ending);
    let hidden = Seq::<char>::empty() + seq!['.'] + ending;
    lemma_dot_is_last(Seq::empty(), ending);
    assert(hidden =~= seq!['.'] + ending);
    if has_text(ending, seq!['.']) {
        let at = choose|at: int| occurs_at(ending, seq!['.'], at);
        assert(ending.subrange(at, at + 1)[0] == ending[at]);
        assert(ending.contains('.'));
    }
}

proof fn lemma_dot_is_last(stem: Seq<char>, ending: Seq<char>)
    requires
        !ending.contains('.'),
    ensures
        last_occurrence(stem + seq!['.'] + ending, seq!['.']) == Some(stem.len() as int),
{
    let name = stem + seq!['.'] + ending;
    let at = stem.len() as int;
    assert(name.subrange(at, at + 1) =~= seq!['.']);
    assert forall|later: int| at < later implies !occurs_at(name, seq!['.'], later) by {
        if occurs_at(name, seq!['.'], later) {
            assert(name.subrange(later, later + 1)[0] == name[later]);
            assert(ending[later - at - 1] == '.');
            assert(ending.contains('.'));
        }
    }
    lemma_last_occurrence(name, seq!['.'], at);
}

/// Two paths name the same place exactly where they begin in the same way and have the
/// same names in the same order; so any path names the place that it names.
pub proof fn law_same_place(left: Seq<char>, right: Seq<char>, third: Seq<char>, platform: Platform)
    ensures
        same_place(left, left, platform),
        same_place(left, right, platform) <==> same_place(right, left, platform),
        same_place(left, right, platform) && same_place(right, third, platform) ==> same_place(
            left,
            third,
            platform,
        ),
        same_place(left, right, platform) ==> path_names(left, platform) == path_names(
            right,
            platform,
        ) && root_shown(left, platform) == root_shown(right, platform),
        platform != Platform::Windows ==> (same_place(left, right, platform) <==> path_names(
            left,
            platform,
        ) == path_names(right, platform) && root_written(left, platform) == root_written(
            right,
            platform,
        ) && begins_with_dot(left, platform) == begins_with_dot(right, platform)),
        platform != Platform::Windows ==> (root_written(left, platform) <==> left.len() > 0
            && left[0] == '/'),
{
    assert(left.take(0) =~= Seq::empty());
    assert(right.take(0) =~= Seq::empty());
}

/// The names of a text are what stands between its marks, without empty ones, and
/// without single dots unless they stay.
pub proof fn law_names_stand_between_the_marks(
    name: Seq<char>,
    rest: Seq<char>,
    mark: char,
    dots: bool,
)
    requires
        !name.contains(mark),
    ensures
        names_of(name + seq![mark] + rest, mark, dots) == kept_name(name, dots) + names_of(
            rest,
            mark,
            dots,
        ),
        names_of(name, mark, dots) == kept_name(name, dots),
        name.len() == 0 || (!dots && name == "."@) ==> kept_name(name, dots).len() == 0,
        name.len() > 0 && (dots || name != "."@) ==> kept_name(name, dots) == seq![name],
{
    let text = name + seq![mark] + rest;
    crate::trim::law_text_is_cut_at_the_first_mark(text, mark);
    crate::trim::law_text_is_cut_at_the_first_mark(name, mark);
    assert(text[name.len() as int] == mark);
    assert(text.contains(mark));
    let (before, after) = split_once(text, mark)->0;
    let whole = before + seq![mark] + after;
    assert(text == whole);
    assert(whole[before.len() as int] == mark);
    if before.len() < name.len() {
        assert(name[before.len() as int] == text[before.len() as int]);
        assert(name.contains(mark));
    }
    if before.len() > name.len() {
        assert(before[name.len() as int] == whole[name.len() as int]);
        assert(before.contains(mark));
    }
    assert(before =~= whole.take(name.len() as int));
    assert(name =~= text.take(name.len() as int));
    assert(after =~= whole.skip(name.len() as int + 1));
    assert(rest =~= text.skip(name.len() as int + 1));
    if split_once(name, mark) is Some {
        let (front, back) = split_once(name, mark)->0;
        assert(name[front.len() as int] == mark);
    }
}

/// The first of the candidates that was found is found, and none before it was.
pub proof fn law_first_held_is_the_first(candidates: Seq<Seq<char>>, found: FoundPaths)
    ensures
        match first_held(candidates, found) {
            Some(path) => found.paths.deep_view().contains(path) && exists|at: int|
                0 <= at < candidates.len() && #[trigger] candidates[at] == path && forall|i: int|
                    0 <= i < at ==> !found.paths.deep_view().contains(#[trigger] candidates[i]),
            None => forall|i: int|
                0 <= i < candidates.len() ==> !found.paths.deep_view().contains(
                    #[trigger] candidates[i],
                ),
        },
    decreases candidates.len(),
{
    if candidates.len() > 0 {
        let rest = candidates.drop_first();
        law_first_held_is_the_first(rest, found);
        if !found.holds(candidates[0]) {
            match first_held(rest, found) {
                Some(path) => {
                    let at = choose|at: int|
                        0 <= at < rest.len() && #[trigger] rest[at] == path && forall|i: int|
                            0 <= i < at ==> !found.paths.deep_view().contains(#[trigger] rest[i]);
                    assert(candidates[at + 1] == path);
                    assert forall|i: int| 0 <= i < at + 1 implies !found.paths.deep_view().contains(
                        #[trigger] candidates[i],
                    ) by {
                        if i > 0 {
                            assert(rest[i - 1] == candidates[i]);
                        }
                    }
                },
                None => {
                    assert forall|i: int|
                        0 <= i < candidates.len() implies !found.paths.deep_view().contains(
                        #[trigger] candidates[i],
                    ) by {
                        if i > 0 {
                            assert(rest[i - 1] == candidates[i]);
                        }
                    }
                },
            }
        } else {
            assert(candidates[0] == first_held(candidates, found)->0);
        }
    }
}

/// A file of a name is looked for below each directory, in their order.
pub proof fn law_each_directory_in_order(
    directories: Seq<Seq<char>>,
    name: Seq<char>,
    platform: Platform,
    at: int,
)
    requires
        0 <= at < directories.len(),
    ensures
        below_each(directories, name, platform).len() == directories.len(),
        below_each(directories, name, platform)[at] == below(directories[at], name, platform),
{
}

/// The home directory is what the first variable that is set says, in a fixed order; two
/// of them count only together, and the current directory comes last.
pub proof fn law_home_directory(variables: HomeVariables, platform: Platform)
    ensures
        ({
            let home = home_directory(variables, platform);
            let pair = variables.home_drive is Some && variables.home_path is Some;
            &&& variables.home matches Some(path) ==> home == path@
            &&& variables.home is None && variables.user_profile is Some ==> home
                == variables.user_profile->0@
            &&& variables.home is None && variables.user_profile is None && pair ==> home == below(
                variables.home_drive->0@,
                variables.home_path->0@,
                platform,
            )
            &&& variables.home is None && variables.user_profile is None && !pair
                && variables.current is Some ==> home == variables.current->0@
            &&& variables.home is None && variables.user_profile is None && !pair
                && variables.current is None ==> home == "."@
        }),
{
}

/// Letters of ASCII that differ in their case alone are the same to Windows, and every
/// text is the same as itself.
pub proof fn law_case_makes_no_difference(left: Seq<char>, right: Seq<char>)
    ensures
        same_ignoring_case(left, left),
        same_ignoring_case(left, right) <==> lowered(left) == lowered(right),
{
}

/// Without Windows, a slash at the end of a path, and a single dot behind it, change
/// neither its name nor its parent; two dots are no name.
pub proof fn law_end_of_a_path(path: Seq<char>, platform: Platform)
    requires
        platform != Platform::Windows,
        path.len() > 0,
    ensures
        name_of(path + "/"@, platform) == name_of(path, platform),
        parent_of(path + "/"@, platform) == parent_of(path, platform),
        name_of(path + "/."@, platform) == name_of(path, platform),
        parent_of(path + "/."@, platform) == parent_of(path, platform),
        name_of(path + "/.."@, platform) is None,
{
    reveal_strlit("/");
    reveal_strlit("/.");
    reveal_strlit("/..");
    reveal_strlit("..");
    let slashed = path + "/"@;
    let dotted = path + "/."@;
    let start = body_start(path, platform);
    assert(slashed[0] == path[0] && dotted[0] == path[0]);
    assert(body_start(slashed, platform) == start) by {
        if path.len() > 1 {
            assert(slashed[1] == path[1]);
        } else {
            assert(slashed[1] == '/');
        }
    }
    assert(body_start(dotted, platform) == start) by {
        if path.len() > 1 {
            assert(dotted[1] == path[1]);
        } else {
            assert(dotted[1] == '/');
        }
    }
    assert(begins_with_dot(slashed, platform) == begins_with_dot(path, platform)) by {
        if path.len() > 1 {
            assert(slashed[1] == path[1]);
        }
    }
    assert(begins_with_dot(dotted, platform) == begins_with_dot(path, platform)) by {
        if path.len() > 1 {
            assert(dotted[1] == path[1]);
        }
    }
    assert(slashed.drop_last() =~= path);
    assert(dotted.drop_last() =~= slashed);
    assert(slashed.last() == '/');
    assert(dotted[dotted.len() - 2] == '/');
    assert(trim_tail(slashed, start, false, platform) == trim_tail(path, start, false, platform));
    assert(trim_tail(dotted, start, false, platform) == trim_tail(path, start, false, platform));
    assert(slashed.take(0) =~= path.take(0));
    assert(dotted.take(0) =~= path.take(0));
    let up = path + "/.."@;
    let first = body_start(up, platform);
    let front = path + "/"@;
    assert(up =~= front + ".."@);
    assert(up[up.len() - 2] == '.');
    assert(trim_tail(up, first, false, platform) == up);
    assert(!".."@.contains('/'));
    assert(front.last() == '/');
    lemma_name_behind(front, ".."@, first, platform);
    assert(up.skip(front.len() as int) =~= ".."@);
}

/// A name that is added follows the others; two dots take back the name before them,
/// where there is one that is no dots itself.
pub proof fn law_dots_take_back_a_name(
    names: Seq<Seq<char>>,
    added: Seq<Seq<char>>,
    name: Seq<char>,
)
    ensures
        names_reached(names, Seq::empty()) == names,
        name != ".."@ ==> names_reached(names, added.push(name)) == names_reached(
            names,
            added,
        ).push(name),
        name != ".."@ && name != "."@ ==> names_reached(names, added.push(name).push(".."@))
            == names_reached(names, added),
        names_reached(Seq::empty(), seq![".."@]) == Seq::<Seq<char>>::empty(),
{
    reveal_strlit(".");
    reveal_strlit("..");
    let one = added.push(name);
    assert(one.drop_last() =~= added);
    let two = one.push(".."@);
    assert(two.drop_last() =~= one);
    if name != ".."@ {
        let before = names_reached(names, added);
        assert(names_reached(names, one) == before.push(name));
        assert(before.push(name).drop_last() =~= before);
        assert(names_reached(names, two) == if name != "."@ {
            before
        } else {
            before.push(name)
        });
    }
    let up = seq![".."@];
    assert(up.drop_last() =~= Seq::<Seq<char>>::empty());
    assert(up.last() == ".."@);
    assert(names_reached(Seq::empty(), up.drop_last()) == Seq::<Seq<char>>::empty());
}

/// Below a verbatim path of Windows the names of both are written behind its prefix with
/// backslashes, dots worked out; a path from the root begins anew behind the prefix.
pub proof fn law_path_below_a_verbatim_path(root: Seq<char>, relative: Seq<char>)
    requires
        is_verbatim(root, Platform::Windows),
        relative.len() > 0,
        prefix_length(relative, Platform::Windows) == 0,
    ensures
        ({
            let platform = Platform::Windows;
            let path = below(root, relative, platform);
            let prefix = root.take(prefix_length(root, platform) as int);
            let added = path_names(relative, platform);
            let from_root = relative[0] == '/' || relative[0] == '\\';
            let names = names_reached(
                if from_root {
                    Seq::empty()
                } else {
                    path_names(root, platform)
                },
                added,
            );
            &&& names.len() > 0 ==> path == prefix + "\\"@ + joined(names, "\\"@)
            &&& prefix.is_prefix_of(path)
        }),
{
    let path = below(root, relative, Platform::Windows);
    let prefix = root.take(prefix_length(root, Platform::Windows) as int);
    assert(path.take(prefix.len() as int) =~= prefix);
}

/// On Windows the case of a drive's letter makes no difference, and either slash is
/// written in a share; a verbatim path is told from any other.
pub proof fn law_prefixes_are_compared(left: Seq<char>, right: Seq<char>)
    ensures
        same_place(left, right, Platform::Windows) ==> is_verbatim(left, Platform::Windows)
            == is_verbatim(right, Platform::Windows),
        begins_with_drive(left) ==> prefix_form(left, Platform::Windows) == (
            false,
            lowered(left.take(2)),
        ),
        !begins_with_drive(left) && !is_verbatim(left, Platform::Windows) ==> prefix_form(
            left,
            Platform::Windows,
        ) == (
            false,
            replaced(
                left.take(prefix_length(left, Platform::Windows) as int),
                '/',
                "\\"@,
            ),
        ),
{
}

/// Below a verbatim path without names only its root is left, where either path has one;
/// and the share of a verbatim path is the same with either slash behind its mark.
pub proof fn law_verbatim_path_without_names(root: Seq<char>, relative: Seq<char>)
    requires
        is_verbatim(root, Platform::Windows),
    ensures
        ({
            let platform = Platform::Windows;
            let prefix = root.take(prefix_length(root, platform) as int);
            let anew = root_written(relative, platform);
            let names = names_reached(
                if anew {
                    Seq::empty()
                } else {
                    path_names(root, platform)
                },
                path_names(relative, platform),
            );
            &&& names.len() == 0 && (anew || root_written(root, platform)) ==> below_verbatim(
                root,
                relative,
            ) == prefix + "\\"@
            &&& names.len() == 0 && !anew && !root_written(root, platform) ==> below_verbatim(
                root,
                relative,
            ) == prefix
            &&& verbatim_share(root) ==> prefix_form(root, platform) == (
                true,
                root.take(7) + "\\"@ + prefix.skip(8),
            )
            &&& !verbatim_share(root) && on_drive(root.skip(4)) ==> prefix_form(root, platform) == (
                true,
                lowered(prefix),
            )
            &&& !verbatim_share(root) && !on_drive(root.skip(4)) ==> prefix_form(root, platform)
                == (true, prefix)
        }),
{
    reveal_strlit("");
    let platform = Platform::Windows;
    let prefix = root.take(prefix_length(root, platform) as int);
    let none: Seq<char> = Seq::empty();
    assert(prefix + "\\"@ + none =~= prefix + "\\"@);
    assert(prefix + ""@ + none =~= prefix);
}

} // verus!
