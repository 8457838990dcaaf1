//! What a path begins with before its names: on Windows a drive, a share or a
//! device, and on every platform the root.

use vstd::prelude::*;

use crate::host::Platform;

verus! {

/// `c` separates two names of a path.
pub open spec fn separates(c: char, platform: Platform) -> bool {
    c == '/' || (platform.windows() && c == '\\')
}

/// Whether `c` separates two names of a path.
pub fn is_separator(c: char, platform: Platform) -> (yes: bool)
    ensures
        yes == separates(c, platform),
{
    c == '/' || (platform.is_windows() && c == '\\')
}

/// `c` ends a name: in a verbatim path of Windows only the backslash does.
pub open spec fn ends_name(c: char, verbatim: bool, platform: Platform) -> bool {
    if verbatim {
        c == '\\'
    } else {
        separates(c, platform)
    }
}

/// Whether `c` ends a name.
pub fn is_name_end(c: char, verbatim: bool, platform: Platform) -> (yes: bool)
    ensures
        yes == ends_name(c, verbatim, platform),
{
    if verbatim {
        c == '\\'
    } else {
        is_separator(c, platform)
    }
}

/// The text begins with the letter of a drive and a colon.
pub open spec fn begins_with_drive(text: Seq<char>) -> bool {
    text.len() >= 2 && ('a' <= text[0] <= 'z' || 'A' <= text[0] <= 'Z') && text[1] == ':'
}

/// The text begins with a drive, and with nothing but a separator behind it.
pub open spec fn on_drive(text: Seq<char>) -> bool {
    begins_with_drive(text) && (text.len() == 2 || text[2] == '\\' || text[2] == '/')
}

fn drive_at(chars: &Vec<char>, from: usize) -> (yes: bool)
    requires
        from <= chars@.len(),
    ensures
        yes == begins_with_drive(chars@.skip(from as int)),
{
    chars.len() - from >= 2 && (('a' <= chars[from] && chars[from] <= 'z') || ('A' <= chars[from]
        && chars[from] <= 'Z')) && chars[from + 1] == ':'
}

/// The path is handed to Windows as it stands: it begins with two backslashes, a
/// question mark and a backslash.
pub open spec fn is_verbatim(path: Seq<char>, platform: Platform) -> bool {
    &&& platform.windows()
    &&& path.len() >= 4
    &&& path[0] == '\\'
    &&& path[1] == '\\'
    &&& path[2] == '?'
    &&& path[3] == '\\'
}

/// Whether the path is a verbatim one.
pub fn verbatim_path(chars: &Vec<char>, platform: Platform) -> (yes: bool)
    ensures
        yes == is_verbatim(chars@, platform),
{
    platform.is_windows() && chars.len() >= 4 && chars[0] == '\\' && chars[1] == '\\' && chars[2]
        == '?' && chars[3] == '\\'
}

/// The verbatim path leads to a share.
pub open spec fn verbatim_share(path: Seq<char>) -> bool {
    path.len() >= 8 && path[4] == 'U' && path[5] == 'N' && path[6] == 'C' && separates(
        path[7],
        Platform::Windows,
    )
}

/// Whether the verbatim path leads to a share.
pub fn is_verbatim_share(chars: &Vec<char>) -> (yes: bool)
    ensures
        yes == verbatim_share(chars@),
{
    chars.len() >= 8 && chars[4] == 'U' && chars[5] == 'N' && chars[6] == 'C' && is_separator(
        chars[7],
        Platform::Windows,
    )
}

/// Whether the verbatim path leads to a drive.
pub fn is_verbatim_drive(chars: &Vec<char>) -> (yes: bool)
    requires
        chars@.len() >= 4,
    ensures
        yes == on_drive(chars@.skip(4)),
{
    drive_at(chars, 4) && (chars.len() == 6 || chars[6] == '\\' || chars[6] == '/')
}

/// The number of characters of the first name.
pub open spec fn name_length(text: Seq<char>, verbatim: bool) -> nat
    decreases text.len(),
{
    if text.len() == 0 || ends_name(text[0], verbatim, Platform::Windows) {
        0
    } else {
        1 + name_length(text.drop_first(), verbatim)
    }
}

fn name_end(chars: &Vec<char>, from: usize, verbatim: bool) -> (end: usize)
    requires
        from <= chars@.len(),
    ensures
        end == from + name_length(chars@.skip(from as int), verbatim),
        end <= chars@.len(),
{
    let mut end: usize = from;
    while end < chars.len() && !is_name_end(chars[end], verbatim, Platform::Windows)
        invariant
            from <= end <= chars@.len(),
            from + name_length(chars@.skip(from as int), verbatim) == end + name_length(
                chars@.skip(end as int),
                verbatim,
            ),
        decreases chars@.len() - end,
    {
        assert(chars@.skip(end as int).drop_first() =~= chars@.skip(end + 1));
        assert(chars@.skip(end as int)[0] == chars@[end as int]);
        end = end + 1;
    }
    assert(end < chars@.len() ==> chars@.skip(end as int)[0] == chars@[end as int]);
    end
}

/// How long the name of a server is at the start of `text`, and how long the name
/// of its share, behind one separator.
pub open spec fn share_lengths(text: Seq<char>, verbatim: bool) -> (nat, nat) {
    let server = name_length(text, verbatim);
    (
        server,
        if server < text.len() {
            name_length(text.skip(server as int + 1), verbatim)
        } else {
            0
        },
    )
}

fn share_ends(chars: &Vec<char>, from: usize, verbatim: bool) -> (lengths: (usize, usize))
    requires
        from <= chars@.len(),
    ensures
        lengths.0 == share_lengths(chars@.skip(from as int), verbatim).0,
        lengths.1 == share_lengths(chars@.skip(from as int), verbatim).1,
        from + lengths.0 + lengths.1 + (if lengths.1 > 0 {
            1int
        } else {
            0int
        }) <= chars@.len() <= usize::MAX,
{
    let server = name_end(chars, from, verbatim);
    if server < chars.len() {
        assert(chars@.skip(from as int).skip(server - from + 1) =~= chars@.skip(server + 1));
        let share = name_end(chars, server + 1, verbatim);
        (server - from, share - (server + 1))
    } else {
        (server - from, 0)
    }
}

/// The number of characters that name a drive, a share or a device at the start of
/// a path. Of a share both the server and the share are named; a verbatim path may
/// leave the share out. Without Windows no path has such a prefix.
pub open spec fn prefix_length(path: Seq<char>, platform: Platform) -> nat {
    if !platform.windows() {
        0
    } else if is_verbatim(path, platform) {
        if verbatim_share(path) {
            let (server, share) = share_lengths(path.skip(8), true);
            8 + server + if share > 0 {
                1 + share
            } else {
                0
            }
        } else if on_drive(path.skip(4)) {
            6
        } else {
            4 + name_length(path.skip(4), true)
        }
    } else if path.len() >= 2 && separates(path[0], platform) && separates(path[1], platform) {
        if path.len() >= 4 && path[2] == '.' && separates(path[3], platform) {
            4 + name_length(path.skip(4), false)
        } else {
            let (server, share) = share_lengths(path.skip(2), false);
            if server > 0 && share > 0 {
                2 + server + 1 + share
            } else {
                0
            }
        }
    } else if begins_with_drive(path) {
        2
    } else {
        0
    }
}

/// How many characters the prefix of a path has.
pub fn prefix_end(chars: &Vec<char>, platform: Platform) -> (end: usize)
    ensures
        end == prefix_length(chars@, platform),
        end <= chars@.len(),
{
    if !platform.is_windows() {
        0
    } else if verbatim_path(chars, platform) {
        if is_verbatim_share(chars) {
            let (server, share) = share_ends(chars, 8, true);
            if share > 0 {
                8 + server + 1 + share
            } else {
                8 + server
            }
        } else if is_verbatim_drive(chars) {
            6
        } else {
            name_end(chars, 4, true)
        }
    } else if chars.len() >= 2 && is_separator(chars[0], platform) && is_separator(
        chars[1],
        platform,
    ) {
        if chars.len() >= 4 && chars[2] == '.' && is_separator(chars[3], platform) {
            name_end(chars, 4, false)
        } else {
            let (server, share) = share_ends(chars, 2, false);
            if server > 0 && share > 0 {
                2 + server + 1 + share
            } else {
                0
            }
        }
    } else {
        assert(chars@.skip(0) =~= chars@);
        if drive_at(chars, 0) {
            2
        } else {
            0
        }
    }
}

/// The prefix is a drive without more, which alone names no root.
pub open spec fn plain_drive(path: Seq<char>, platform: Platform) -> bool {
    platform.windows() && begins_with_drive(path)
}

/// Whether the prefix is a drive without more.
pub fn is_plain_drive(chars: &Vec<char>, platform: Platform) -> (yes: bool)
    ensures
        yes == plain_drive(chars@, platform),
{
    assert(chars@.skip(0) =~= chars@);
    platform.is_windows() && drive_at(chars, 0)
}

/// A separator stands where the names begin.
pub open spec fn root_written(path: Seq<char>, platform: Platform) -> bool {
    let prefix = prefix_length(path, platform) as int;
    prefix < path.len() && separates(path[prefix], platform)
}

/// The path begins at a root: one that is written, or that of a share or device.
pub open spec fn rooted(path: Seq<char>, platform: Platform) -> bool {
    root_written(path, platform) || (prefix_length(path, platform) > 0 && !plain_drive(
        path,
        platform,
    ))
}

/// The names begin with a single dot, which a path that is not rooted keeps.
pub open spec fn begins_with_dot(path: Seq<char>, platform: Platform) -> bool {
    let prefix = prefix_length(path, platform) as int;
    &&& !rooted(path, platform)
    &&& prefix < path.len()
    &&& path[prefix] == '.'
    &&& prefix + 1 == path.len() || separates(path[prefix + 1], platform)
}

/// What stands at the start of a path: its prefix, and what follows that before
/// the names.
pub struct PathStart {
    /// The number of characters of the prefix.
    pub prefix: usize,
    pub verbatim: bool,
    /// A root is written behind the prefix.
    pub root_written: bool,
    /// The path begins at a root.
    pub rooted: bool,
    /// A single dot stands behind the prefix.
    pub dot: bool,
    /// Where the names begin.
    pub body: usize,
}

impl PathStart {
    /// This is the start of `path`.
    pub open spec fn of(self, path: Seq<char>, platform: Platform) -> bool {
        &&& self.prefix == prefix_length(path, platform)
        &&& self.verbatim == is_verbatim(path, platform)
        &&& self.root_written == root_written(path, platform)
        &&& self.rooted == rooted(path, platform)
        &&& self.dot == begins_with_dot(path, platform)
        &&& self.body == body_start(path, platform)
    }
}

/// The start of a path.
pub fn path_start(chars: &Vec<char>, platform: Platform) -> (start: PathStart)
    ensures
        start.of(chars@, platform),
        start.prefix <= start.body <= chars@.len(),
{
    let prefix = prefix_end(chars, platform);
    let root = prefix < chars.len() && is_separator(chars[prefix], platform);
    let rooted = root || (prefix > 0 && !is_plain_drive(chars, platform));
    let dot = !rooted && prefix < chars.len() && chars[prefix] == '.' && (prefix + 1 == chars.len()
        || is_separator(chars[prefix + 1], platform));
    let body: usize = if root || dot {
        prefix + 1
    } else {
        prefix
    };
    PathStart {
        prefix,
        verbatim: verbatim_path(chars, platform),
        root_written: root,
        rooted,
        dot,
        body,
    }
}

/// Where the names of a path begin: behind the prefix, the root and a single dot.
pub open spec fn body_start(path: Seq<char>, platform: Platform) -> nat {
    prefix_length(path, platform) + if root_written(path, platform) || begins_with_dot(
        path,
        platform,
    ) {
        1nat
    } else {
        0
    }
}

/// Without Windows no path has a prefix; on Windows a letter and a colon are one, and a
/// path without them and without two separators has none.
pub proof fn law_drive_is_a_prefix(path: Seq<char>, platform: Platform)
    ensures
        platform != Platform::Windows ==> prefix_length(path, platform) == 0,
        begins_with_drive(path) ==> prefix_length(path, Platform::Windows) == 2,
        begins_with_drive(path) <==> path.len() >= 2 && path[1] == ':' && ('a' <= path[0] <= 'z'
            || 'A' <= path[0] <= 'Z'),
        !begins_with_drive(path) && !(path.len() >= 2 && separates(path[0], Platform::Windows)
            && separates(path[1], Platform::Windows)) ==> prefix_length(path, Platform::Windows)
            == 0,
        on_drive(path) <==> begins_with_drive(path) && (path.len() == 2 || path[2] == '\\'
            || path[2] == '/'),
{
}

proof fn lemma_first_name(name: Seq<char>, rest: Seq<char>, verbatim: bool)
    requires
        forall|i: int| 0 <= i < name.len() ==> name[i] != '\\' && name[i] != '/',
        rest.len() == 0 || rest[0] == '\\',
    ensures
        name_length(name + rest, verbatim) == name.len(),
    decreases name.len(),
{
    if name.len() == 0 {
        assert(name + rest =~= rest);
    } else {
        assert((name + rest)[0] == name[0]);
        assert((name + rest).drop_first() =~= name.drop_first() + rest);
        lemma_first_name(name.drop_first(), rest, verbatim);
    }
}

/// Two backslashes, a server, a backslash and a share are a prefix, and so is the root
/// of the share; a server alone is none.
pub proof fn law_share_is_a_prefix(server: Seq<char>, share: Seq<char>, rest: Seq<char>)
    requires
        server.len() > 0,
        share.len() > 0,
        server != seq!['?'],
        server != seq!['.'],
        forall|i: int| 0 <= i < server.len() ==> server[i] != '\\' && server[i] != '/',
        forall|i: int| 0 <= i < share.len() ==> share[i] != '\\' && share[i] != '/',
        rest.len() == 0 || rest[0] == '\\',
    ensures
        prefix_length(
            seq!['\\', '\\'] + server + seq!['\\'] + share + rest,
            Platform::Windows,
        ) == 3 + server.len() + share.len(),
        rooted(seq!['\\', '\\'] + server + seq!['\\'] + share + rest, Platform::Windows),
        prefix_length(seq!['\\', '\\'] + server, Platform::Windows) == 0,
{
    let path = seq!['\\', '\\'] + server + seq!['\\'] + share + rest;
    let behind = seq!['\\'] + share + rest;
    assert(path.skip(2) =~= server + behind);
    lemma_first_name(server, behind, false);
    assert((server + behind).skip(server.len() as int + 1) =~= share + rest);
    lemma_first_name(share, rest, false);
    assert(path[2] == server[0]);
    if server.len() == 1 {
        assert(path[3] == '\\');
        assert(server[0] != '?') by {
            if server[0] == '?' {
                assert(server =~= seq!['?']);
            }
        }
        assert(server[0] != '.') by {
            if server[0] == '.' {
                assert(server =~= seq!['.']);
            }
        }
    } else {
        assert(path[3] == server[1]);
    }
    let alone = seq!['\\', '\\'] + server;
    assert(alone.skip(2) =~= server + Seq::<char>::empty());
    lemma_first_name(server, Seq::empty(), false);
    assert(alone[2] == server[0]);
    if server.len() > 1 {
        assert(alone[3] == server[1]);
    }
}

/// A path is verbatim on Windows alone, where it begins with two backslashes, a question
/// mark and a backslash; in it only the backslash ends a name.
pub proof fn law_verbatim_path(path: Seq<char>, c: char, platform: Platform)
    ensures
        is_verbatim(path, platform) <==> platform == Platform::Windows && seq![
            '\\',
            '\\',
            '?',
            '\\',
        ].is_prefix_of(path),
        ends_name(c, true, platform) <==> c == '\\',
        ends_name(c, false, platform) <==> separates(c, platform),
        separates(c, platform) <==> c == '/' || (platform == Platform::Windows && c == '\\'),
{
    let mark = seq!['\\', '\\', '?', '\\'];
    if path.len() >= 4 {
        let front = path.take(4);
        if mark.is_prefix_of(path) {
            assert(front =~= mark);
            assert(front[0] == path[0] && front[1] == path[1] && front[2] == path[2] && front[3]
                == path[3]);
        }
        if path[0] == '\\' && path[1] == '\\' && path[2] == '?' && path[3] == '\\' {
            assert(front =~= mark);
        }
    }
}

/// A path begins with a single dot where it is one, or where a separator follows the
/// dot, behind the prefix if there is one; a path from a root does not.
pub proof fn law_beginning_with_a_dot(path: Seq<char>, platform: Platform)
    ensures
        rooted(path, platform) ==> !begins_with_dot(path, platform),
        platform != Platform::Windows ==> (begins_with_dot(path, platform) <==> path.len() > 0
            && path[0] == '.' && (path.len() == 1 || path[1] == '/')),
        platform != Platform::Windows ==> (rooted(path, platform) <==> path.len() > 0 && path[0]
            == '/'),
        begins_with_drive(path) ==> (begins_with_dot(path, Platform::Windows) <==> path.len() > 2
            && path[2] == '.' && (path.len() == 3 || separates(path[3], Platform::Windows))),
        body_start(path, platform) == prefix_length(path, platform) + (if root_written(
            path,
            platform,
        ) || begins_with_dot(path, platform) {
            1nat
        } else {
            0
        }),
{
}

/// A verbatim path has its drive, its server and share, or its first name as its prefix,
/// and a device path its device.
pub proof fn law_verbatim_prefixes(
    letter: char,
    server: Seq<char>,
    share: Seq<char>,
    rest: Seq<char>,
)
    requires
        'a' <= letter <= 'z' || 'A' <= letter <= 'Z',
        share.len() > 0,
        forall|i: int| 0 <= i < server.len() ==> server[i] != '\\' && server[i] != '/',
        forall|i: int| 0 <= i < share.len() ==> share[i] != '\\' && share[i] != '/',
        rest.len() == 0 || rest[0] == '\\',
    ensures
        prefix_length(
            seq!['\\', '\\', '?', '\\', letter, ':'] + rest,
            Platform::Windows,
        ) == 6,
        prefix_length(
            seq!['\\', '\\', '?', '\\', 'U', 'N', 'C', '\\'] + server + seq!['\\'] + share + rest,
            Platform::Windows,
        ) == 9 + server.len() + share.len(),
        prefix_length(
            seq!['\\', '\\', '?', '\\', 'U', 'N', 'C', '\\'] + server,
            Platform::Windows,
        ) == 8 + server.len(),
        prefix_length(seq!['\\', '\\', '.', '\\'] + share + rest, Platform::Windows) == 4
            + share.len(),
        prefix_length(seq!['\\', '\\', '?', '\\', '%'] + share + rest, Platform::Windows) == 5
            + share.len(),
{
    let platform = Platform::Windows;
    let drive = seq!['\\', '\\', '?', '\\', letter, ':'] + rest;
    assert(drive.skip(4) =~= seq![letter, ':'] + rest);
    assert(drive[5] == ':');
    let head = seq!['\\', '\\', '?', '\\', 'U', 'N', 'C', '\\'];
    let both = head + server + seq!['\\'] + share + rest;
    let behind = seq!['\\'] + share + rest;
    assert(both.skip(8) =~= server + behind);
    lemma_first_name(server, behind, true);
    assert((server + behind).skip(server.len() as int + 1) =~= share + rest);
    lemma_first_name(share, rest, true);
    let one = head + server;
    assert(one.skip(8) =~= server + Seq::<char>::empty());
    lemma_first_name(server, Seq::empty(), true);
    let device = seq!['\\', '\\', '.', '\\'] + share + rest;
    assert(device.skip(4) =~= share + rest);
    lemma_first_name(share, rest, false);
    let named = seq!['\\', '\\', '?', '\\', '%'] + share + rest;
    let name = seq!['%'] + share;
    assert(named.skip(4) =~= name + rest);
    assert forall|i: int| 0 <= i < name.len() implies name[i] != '\\' && name[i] != '/' by {
        if i > 0 {
            assert(name[i] == share[i - 1]);
        }
    }
    lemma_first_name(name, rest, true);
    assert(named[4] == '%');
    assert(named.skip(4)[0] == '%');
}

} // verus!
