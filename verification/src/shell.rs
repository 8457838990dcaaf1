//! The texts that the application writes for a shell: quoted paths, the block
//! in a profile that extends `PATH`, and the configuration of fish.

use vstd::prelude::*;

use crate::text::{
    begins_with, cat3, cat5, chars_of, count, count_from, find_from, first_from, has_text,
    lemma_first_from, lemma_first_from_is, occurs_at, text_of,
};
use crate::trim::{replace, replaced};

verus! {

/// The words that mark a file as written by the application.
pub const SHIM_MARKER: &'static str = "Managed by DSH Desktop";

/// The line that begins the managed block of a profile.
pub const PATH_BLOCK_START: &'static str = "# >>> DSH Desktop terminal command >>>";

/// The line that ends the managed block of a profile.
pub const PATH_BLOCK_END: &'static str = "# <<< DSH Desktop terminal command <<<";

// ---------------------------------------------------------------------------
// Quoting
// ---------------------------------------------------------------------------

/// A path as one word of a POSIX shell.
pub open spec fn posix_quoted(path: Seq<char>) -> Seq<char> {
    "'"@ + replaced(path, '\'', "'\"'\"'"@) + "'"@
}

/// Writes a path as one word of a POSIX shell.
pub fn shell_quote(path: &str) -> (word: String)
    ensures
        word@ == posix_quoted(path@),
{
    cat3("'", replace(path, '\'', "'\"'\"'").as_str(), "'")
}

/// A path as one word of fish.
pub open spec fn fish_quoted(path: Seq<char>) -> Seq<char> {
    "'"@ + replaced(replaced(path, '\\', "\\\\"@), '\'', "\\'"@) + "'"@
}

/// Writes a path as one word of fish.
pub fn fish_quote(path: &str) -> (word: String)
    ensures
        word@ == fish_quoted(path@),
{
    cat3("'", replace(replace(path, '\\', "\\\\").as_str(), '\'', "\\'").as_str(), "'")
}

/// Where a POSIX shell stands in a word.
pub enum QuoteMode {
    Outside,
    Single,
    Double,
}

/// What a POSIX shell reads from a word that is made of quoted pieces alone:
/// between single quotes every character stands for itself, and so does
/// between double quotes every character that is not special there.
pub open spec fn posix_read(word: Seq<char>, mode: QuoteMode) -> Option<Seq<char>>
    decreases word.len(),
{
    if word.len() == 0 {
        match mode {
            QuoteMode::Outside => Some(Seq::empty()),
            _ => None,
        }
    } else {
        let c = word[0];
        let rest = word.drop_first();
        match mode {
            QuoteMode::Outside => if c == '\'' {
                posix_read(rest, QuoteMode::Single)
            } else if c == '"' {
                posix_read(rest, QuoteMode::Double)
            } else {
                None
            },
            QuoteMode::Single => if c == '\'' {
                posix_read(rest, QuoteMode::Outside)
            } else {
                before(c, posix_read(rest, QuoteMode::Single))
            },
            QuoteMode::Double => if c == '"' {
                posix_read(rest, QuoteMode::Outside)
            } else if c == '$' || c == '`' || c == '\\' {
                None
            } else {
                before(c, posix_read(rest, QuoteMode::Double))
            },
        }
    }
}

/// `c` in front of what was read, where anything was.
pub open spec fn before(c: char, rest: Option<Seq<char>>) -> Option<Seq<char>> {
    match rest {
        Some(text) => Some(seq![c] + text),
        None => None,
    }
}

/// What fish reads from a word in single quotes, behind the first quote: a
/// backslash stands for the backslash or the quote that follows it.
pub open spec fn fish_read(word: Seq<char>) -> Option<Seq<char>>
    decreases word.len(),
{
    if word.len() == 0 {
        None
    } else if word[0] == '\'' {
        if word.len() == 1 {
            Some(Seq::empty())
        } else {
            None
        }
    } else if word[0] == '\\' && word.len() > 1 && (word[1] == '\\' || word[1] == '\'') {
        before(word[1], fish_read(word.skip(2)))
    } else {
        before(word[0], fish_read(word.drop_first()))
    }
}

proof fn lemma_replaced_concat(left: Seq<char>, right: Seq<char>, from: char, to: Seq<char>)
    ensures
        replaced(left + right, from, to) == replaced(left, from, to) + replaced(right, from, to),
    decreases right.len(),
{
    if right.len() == 0 {
        assert(left + right =~= left);
        assert(replaced(left, from, to) + replaced(right, from, to) =~= replaced(left, from, to));
    } else {
        assert((left + right).drop_last() =~= left + right.drop_last());
        lemma_replaced_concat(left, right.drop_last(), from, to);
        assert(replaced(left + right, from, to) =~= replaced(left, from, to) + replaced(
            right,
            from,
            to,
        ));
    }
}

proof fn lemma_replaced_one(c: char, from: char, to: Seq<char>)
    ensures
        replaced(seq![c], from, to) == (if c == from {
            to
        } else {
            seq![c]
        }),
{
    assert(seq![c].drop_last() =~= Seq::<char>::empty());
    assert(replaced(seq![c].drop_last(), from, to) =~= Seq::<char>::empty());
    assert(replaced(seq![c], from, to) =~= (if c == from {
        to
    } else {
        seq![c]
    }));
}

proof fn lemma_posix_body(path: Seq<char>)
    ensures
        posix_read(replaced(path, '\'', "'\"'\"'"@) + "'"@, QuoteMode::Single) == Some(path),
    decreases path.len(),
{
    reveal_strlit("'");
    reveal_strlit("'\"'\"'");
    let to = "'\"'\"'"@;
    let close = "'"@;
    if path.len() == 0 {
        let word = replaced(path, '\'', to) + close;
        assert(word =~= seq!['\'']);
        assert(word.drop_first() =~= Seq::<char>::empty());
        assert(posix_read(word.drop_first(), QuoteMode::Outside) == Some(Seq::<char>::empty()));
        assert(path =~= Seq::<char>::empty());
    } else {
        let c = path[0];
        let rest = path.drop_first();
        lemma_posix_body(rest);
        assert(path =~= seq![c] + rest);
        lemma_replaced_concat(seq![c], rest, '\'', to);
        lemma_replaced_one(c, '\'', to);
        let tail = replaced(rest, '\'', to) + close;
        let word = replaced(path, '\'', to) + close;
        if c == '\'' {
            assert(word =~= to + tail);
            let w1 = word.drop_first();
            let w2 = w1.drop_first();
            let w3 = w2.drop_first();
            let w4 = w3.drop_first();
            let w5 = w4.drop_first();
            assert(w5 =~= tail);
            assert(posix_read(w4, QuoteMode::Outside) == Some(rest));
            assert(posix_read(w3, QuoteMode::Double) == Some(rest));
            assert(posix_read(w2, QuoteMode::Double) == Some(seq!['\''] + rest));
            assert(posix_read(w1, QuoteMode::Outside) == Some(seq!['\''] + rest));
            assert(posix_read(word, QuoteMode::Single) == Some(seq!['\''] + rest));
        } else {
            assert(word =~= seq![c] + tail);
            assert(word.drop_first() =~= tail);
        }
    }
}

/// A POSIX shell reads a quoted path back as the path itself.
pub proof fn law_posix_quote_is_read_back(path: Seq<char>)
    ensures
        posix_read(posix_quoted(path), QuoteMode::Outside) == Some(path),
{
    reveal_strlit("'");
    lemma_posix_body(path);
    let word = posix_quoted(path);
    assert(word.drop_first() =~= replaced(path, '\'', "'\"'\"'"@) + "'"@);
}

proof fn lemma_fish_body(path: Seq<char>)
    ensures
        fish_read(replaced(replaced(path, '\\', "\\\\"@), '\'', "\\'"@) + "'"@) == Some(path),
    decreases path.len(),
{
    reveal_strlit("'");
    reveal_strlit("\\\\");
    reveal_strlit("\\'");
    let slash = "\\\\"@;
    let quote = "\\'"@;
    let close = "'"@;
    if path.len() == 0 {
        let word = replaced(replaced(path, '\\', slash), '\'', quote) + close;
        assert(word =~= seq!['\'']);
        assert(path =~= Seq::<char>::empty());
    } else {
        let c = path[0];
        let rest = path.drop_first();
        lemma_fish_body(rest);
        assert(path =~= seq![c] + rest);
        lemma_replaced_concat(seq![c], rest, '\\', slash);
        lemma_replaced_one(c, '\\', slash);
        let inner = replaced(rest, '\\', slash);
        let tail = replaced(inner, '\'', quote) + close;
        let word = replaced(replaced(path, '\\', slash), '\'', quote) + close;
        if c == '\\' {
            lemma_replaced_concat(slash, inner, '\'', quote);
            assert(slash =~= seq!['\\'] + seq!['\\']);
            lemma_replaced_concat(seq!['\\'], seq!['\\'], '\'', quote);
            lemma_replaced_one('\\', '\'', quote);
            assert(word =~= slash + tail);
            assert(word.skip(2) =~= tail);
        } else {
            lemma_replaced_concat(seq![c], inner, '\'', quote);
            lemma_replaced_one(c, '\'', quote);
            if c == '\'' {
                assert(word =~= quote + tail);
                assert(word.skip(2) =~= tail);
            } else {
                assert(word =~= seq![c] + tail);
                assert(word.drop_first() =~= tail);
            }
        }
    }
}

/// fish reads a quoted path back as the path itself.
pub proof fn law_fish_quote_is_read_back(path: Seq<char>)
    ensures
        fish_quoted(path)[0] == '\'',
        fish_read(fish_quoted(path).drop_first()) == Some(path),
{
    reveal_strlit("'");
    lemma_fish_body(path);
    let word = fish_quoted(path);
    assert(word.drop_first() =~= replaced(replaced(path, '\\', "\\\\"@), '\'', "\\'"@) + "'"@);
}

// ---------------------------------------------------------------------------
// The managed block of a profile
// ---------------------------------------------------------------------------

/// Where the first managed block of `text` begins and ends. A line feed behind
/// the last line of the block belongs to it.
pub open spec fn first_block(text: Seq<char>) -> Option<(int, int)> {
    match first_from(text, PATH_BLOCK_START@, 0) {
        Some(start) => match first_from(text, PATH_BLOCK_END@, start) {
            Some(last) => {
                let end = last + PATH_BLOCK_END@.len();
                Some((
                    start,
                    if end < text.len() && text[end] == '\n' {
                        end + 1
                    } else {
                        end
                    },
                ))
            },
            None => None,
        },
        None => None,
    }
}

/// `text` without its managed blocks. A first line of a block without a last
/// line behind it stays, and so does all that stands outside the blocks.
pub open spec fn without_blocks(text: Seq<char>) -> Seq<char>
    decreases text.len(),
{
    match first_block(text) {
        Some((start, end)) if 0 <= start < end <= text.len() => without_blocks(
            text.take(start) + text.skip(end),
        ),
        _ => text,
    }
}

proof fn lemma_first_block(text: Seq<char>)
    ensures
        first_block(text) matches Some((start, end)) ==> {
            &&& 0 <= start < end <= text.len()
            &&& occurs_at(text, PATH_BLOCK_START@, start)
            &&& end - start >= PATH_BLOCK_END@.len()
        },
{
    reveal_strlit("# <<< DSH Desktop terminal command <<<");
    lemma_first_from(text, PATH_BLOCK_START@, 0);
    if let Some(start) = first_from(text, PATH_BLOCK_START@, 0) {
        lemma_first_from(text, PATH_BLOCK_END@, start);
    }
}

/// Removes the managed blocks from the text of a profile.
pub fn remove_path_block(contents: &str) -> (rest: String)
    ensures
        rest@ == without_blocks(contents@),
{
    let first_line = chars_of(PATH_BLOCK_START);
    let last_line = chars_of(PATH_BLOCK_END);
    let mut updated = chars_of(contents);
    loop
        invariant_except_break
            without_blocks(updated@) == without_blocks(contents@),
        invariant
            first_line@ == PATH_BLOCK_START@,
            last_line@ == PATH_BLOCK_END@,
        ensures
            updated@ == without_blocks(contents@),
        decreases updated@.len(),
    {
        let length: usize = updated.len();
        proof {
            lemma_first_block(updated@);
        }
        let start: usize = match find_from(&updated, &first_line, 0) {
            Some(start) => start,
            None => {
                break;
            },
        };
        let last: usize = match find_from(&updated, &last_line, start) {
            Some(last) => last,
            None => {
                break;
            },
        };
        proof {
            lemma_first_from(updated@, PATH_BLOCK_END@, start as int);
        }
        let mut end: usize = last + last_line.len();
        if end < length && updated[end] == '\n' {
            end = end + 1;
        }
        let mut next: Vec<char> = Vec::new();
        let mut i: usize = 0;
        while i < length
            invariant
                i <= length,
                length == updated@.len(),
                start < end <= length,
                next@ == if i <= start {
                    updated@.take(i as int)
                } else if i <= end {
                    updated@.take(start as int)
                } else {
                    updated@.take(start as int) + updated@.subrange(end as int, i as int)
                },
            decreases length - i,
        {
            if i < start || end <= i {
                next.push(updated[i]);
            }
            i = i + 1;
            assert(next@ =~= if i <= start {
                updated@.take(i as int)
            } else if i <= end {
                updated@.take(start as int)
            } else {
                updated@.take(start as int) + updated@.subrange(end as int, i as int)
            });
        }
        assert(next@ =~= updated@.take(start as int) + updated@.skip(end as int));
        updated = next;
    }
    let rest = text_of(&updated, 0, updated.len());
    assert(rest@ =~= updated@);
    rest
}

/// After removal no complete block is left.
pub proof fn law_no_block_is_left(text: Seq<char>)
    ensures
        first_block(without_blocks(text)) is None,
    decreases text.len(),
{
    lemma_first_block(text);
    if let Some((start, end)) = first_block(text) {
        law_no_block_is_left(text.take(start) + text.skip(end));
    }
}

/// Removing the blocks a second time changes nothing.
pub proof fn law_removal_is_idempotent(text: Seq<char>)
    ensures
        without_blocks(without_blocks(text)) == without_blocks(text),
{
    law_no_block_is_left(text);
}

/// A profile without the first line of a block is left as it is.
pub proof fn law_foreign_profile_is_untouched(text: Seq<char>)
    requires
        !has_text(text, PATH_BLOCK_START@),
    ensures
        without_blocks(text) == text,
{
    lemma_first_from(text, PATH_BLOCK_START@, 0);
}

/// The block that puts a directory at the front of `PATH`, unless it is there.
pub open spec fn posix_block(directory: Seq<char>) -> Seq<char> {
    PATH_BLOCK_START@ + "\ncase \":$PATH:\" in\n  *:"@ + posix_quoted(directory)
        + ":*) ;;\n  *) export PATH="@ + posix_quoted(directory) + ":\"$PATH\" ;;\nesac\n"@
        + PATH_BLOCK_END@ + "\n"@
}

/// `text`, ended by a line feed unless it is empty.
pub open spec fn ended_line(text: Seq<char>) -> Seq<char> {
    if text.len() > 0 && text.last() != '\n' {
        text.push('\n')
    } else {
        text
    }
}

/// A profile that puts a directory at the front of `PATH`: what it held besides
/// managed blocks, then one block.
pub open spec fn posix_config(existing: Seq<char>, directory: Seq<char>) -> Seq<char> {
    ended_line(without_blocks(existing)) + posix_block(directory)
}

/// The profile that puts `bin_dir` at the front of `PATH`.
pub fn posix_shell_config(existing: &str, bin_dir: &str) -> (updated: String)
    ensures
        updated@ == posix_config(existing@, bin_dir@),
{
    let mut updated = remove_path_block(existing);
    let chars = chars_of(updated.as_str());
    if chars.len() > 0 && chars[chars.len() - 1] != '\n' {
        updated.push('\n');
    }
    let ghost front = updated@;
    let quoted_bin = shell_quote(bin_dir);
    let mut block = cat5(
        PATH_BLOCK_START,
        "\ncase \":$PATH:\" in\n  *:",
        quoted_bin.as_str(),
        ":*) ;;\n  *) export PATH=",
        quoted_bin.as_str(),
    );
    block.append(":\"$PATH\" ;;\nesac\n");
    block.append(PATH_BLOCK_END);
    block.append("\n");
    updated.append(block.as_str());
    updated
}

/// The configuration of fish that puts a directory at the front of `PATH`.
pub open spec fn fish_config(directory: Seq<char>) -> Seq<char> {
    "# "@ + SHIM_MARKER@ + "\nif not contains -- "@ + fish_quoted(directory)
        + " $PATH\n    set -gx PATH "@ + fish_quoted(directory) + " $PATH\nend\n"@
}

/// The configuration of fish that puts `bin_dir` at the front of `PATH`.
pub fn fish_shell_config(bin_dir: &str) -> (contents: String)
    ensures
        contents@ == fish_config(bin_dir@),
{
    let quoted = fish_quote(bin_dir);
    let mut contents = cat5(
        "# ",
        SHIM_MARKER,
        "\nif not contains -- ",
        quoted.as_str(),
        " $PATH\n    set -gx PATH ",
    );
    contents.append(quoted.as_str());
    contents.append(" $PATH\nend\n");
    contents
}

/// The first line of a file of fish that the application wrote.
pub open spec fn marker_line() -> Seq<char> {
    "# "@ + SHIM_MARKER@ + "\n"@
}

/// A configuration of fish was written by the application.
pub open spec fn managed_fish(contents: Seq<char>) -> bool {
    marker_line().is_prefix_of(contents)
}

/// Whether a configuration of fish was written by the application.
pub fn is_managed_fish_config(contents: &str) -> (yes: bool)
    ensures
        yes == managed_fish(contents@),
{
    begins_with(contents, cat3("# ", SHIM_MARKER, "\n").as_str())
}

/// How often the first and the last line of a block stand in a profile.
pub fn managed_path_marker_counts(contents: &str) -> (counts: (usize, usize))
    ensures
        counts.0 == count_from(contents@, PATH_BLOCK_START@, 0),
        counts.1 == count_from(contents@, PATH_BLOCK_END@, 0),
{
    proof {
        reveal_strlit("# >>> DSH Desktop terminal command >>>");
        reveal_strlit("# <<< DSH Desktop terminal command <<<");
    }
    (count(contents, PATH_BLOCK_START), count(contents, PATH_BLOCK_END))
}

/// The first and the last lines of blocks are equally many.
pub open spec fn balanced(contents: Seq<char>) -> bool {
    count_from(contents, PATH_BLOCK_START@, 0) == count_from(contents, PATH_BLOCK_END@, 0)
}

/// What the application writes for fish is recognised as its own.
pub proof fn law_fish_config_is_recognised(directory: Seq<char>)
    ensures
        managed_fish(fish_config(directory)),
{
    reveal_strlit("\n");
    reveal_strlit("\nif not contains -- ");
    let written = fish_config(directory);
    assert(written.take(marker_line().len() as int) =~= marker_line());
    assert(marker_line().is_prefix_of(written));
}

/// None of the first `n` characters of `text` is `c`.
spec fn free_below(text: Seq<char>, c: char, n: nat) -> bool
    decreases n,
{
    n == 0 || (text[n - 1] != c && free_below(text, c, (n - 1) as nat))
}

proof fn lemma_free(text: Seq<char>, c: char, n: nat)
    requires
        n <= text.len(),
        free_below(text, c, n),
    ensures
        !text.take(n as int).contains(c),
    decreases n,
{
    if n > 0 {
        lemma_free(text, c, (n - 1) as nat);
        let shorter = text.take(n - 1);
        let longer = text.take(n as int);
        assert forall|i: int| 0 <= i < longer.len() implies longer[i] != c by {
            if i < n - 1 {
                assert(longer[i] == shorter[i]);
                assert(shorter.contains(shorter[i]));
            }
        }
    }
}

/// The marker lines hold neither a line feed nor a single quote.
proof fn lemma_markers()
    ensures
        PATH_BLOCK_START@.len() == 38,
        PATH_BLOCK_END@.len() == 38,
        PATH_BLOCK_END@[0] == '#',
        PATH_BLOCK_END@[2] == '<',
        PATH_BLOCK_START@[2] == '>',
        PATH_BLOCK_START@[0] == '#',
        !PATH_BLOCK_START@.contains('\n'),
        !PATH_BLOCK_END@.contains('\n'),
        !PATH_BLOCK_START@.contains('\''),
        !PATH_BLOCK_END@.contains('\''),
{
    reveal_strlit("# >>> DSH Desktop terminal command >>>");
    reveal_strlit("# <<< DSH Desktop terminal command <<<");
    reveal_with_fuel(free_below, 39);
    let first = PATH_BLOCK_START@;
    let last = PATH_BLOCK_END@;
    lemma_free(first, '\n', 38);
    lemma_free(last, '\n', 38);
    lemma_free(first, '\'', 38);
    lemma_free(last, '\'', 38);
    assert(first.take(38) =~= first);
    assert(last.take(38) =~= last);
}

/// A text that stands across the border of two others holds the character on
/// either side of it.
proof fn lemma_no_straddle(left: Seq<char>, right: Seq<char>, needle: Seq<char>, at: int)
    requires
        needle.len() > 0,
        left.len() == 0 || right.len() == 0 || !needle.contains(left.last()) || !needle.contains(
            right[0],
        ),
        occurs_at(left + right, needle, at),
    ensures
        occurs_at(left, needle, at) || occurs_at(right, needle, at - left.len()),
{
    let whole = left + right;
    let found = whole.subrange(at, at + needle.len());
    if at + needle.len() <= left.len() {
        assert(left.subrange(at, at + needle.len()) =~= found);
    } else if at >= left.len() {
        assert(right.subrange(at - left.len(), at - left.len() + needle.len()) =~= found);
    } else {
        let k = left.len() - at;
        assert(needle[k - 1] == found[k - 1]);
        assert(needle[k] == found[k]);
        assert(needle[k - 1] == left.last());
        assert(needle[k] == right[0]);
        assert(false);
    }
}

proof fn lemma_concat_lacks(left: Seq<char>, right: Seq<char>, needle: Seq<char>)
    requires
        needle.len() > 0,
        left.len() == 0 || right.len() == 0 || !needle.contains(left.last()) || !needle.contains(
            right[0],
        ),
        !has_text(left, needle),
        !has_text(right, needle),
    ensures
        !has_text(left + right, needle),
{
    if has_text(left + right, needle) {
        let at = choose|at: int| occurs_at(left + right, needle, at);
        lemma_no_straddle(left, right, needle, at);
    }
}

proof fn lemma_lacks_without_first_char(text: Seq<char>, needle: Seq<char>)
    requires
        needle.len() > 0,
        !text.contains(needle[0]),
    ensures
        !has_text(text, needle),
{
    if has_text(text, needle) {
        let at = choose|at: int| occurs_at(text, needle, at);
        assert(text.subrange(at, at + needle.len())[0] == text[at]);
        assert(text.contains(text[at]));
    }
}

/// The parts of the block around the quoted directory hold no marker line.
proof fn lemma_block_parts()
    ensures
        !has_text("\ncase \":$PATH:\" in\n  *:"@, PATH_BLOCK_END@),
        !has_text(":*) ;;\n  *) export PATH="@, PATH_BLOCK_END@),
        !has_text(":\"$PATH\" ;;\nesac\n"@, PATH_BLOCK_END@),
        !has_text("\ncase \":$PATH:\" in\n  *:"@, PATH_BLOCK_START@),
        !has_text(":*) ;;\n  *) export PATH="@, PATH_BLOCK_START@),
        !has_text(":\"$PATH\" ;;\nesac\n"@, PATH_BLOCK_START@),
        "\ncase \":$PATH:\" in\n  *:"@[0] == '\n',
        "\ncase \":$PATH:\" in\n  *:"@.len() > 0,
        ":*) ;;\n  *) export PATH="@.len() > 0,
        ":\"$PATH\" ;;\nesac\n"@.len() > 0,
        ":\"$PATH\" ;;\nesac\n"@.last() == '\n',
{
    lemma_markers();
    reveal_strlit("\ncase \":$PATH:\" in\n  *:");
    reveal_strlit(":*) ;;\n  *) export PATH=");
    reveal_strlit(":\"$PATH\" ;;\nesac\n");
    reveal_with_fuel(free_below, 31);
    let a = "\ncase \":$PATH:\" in\n  *:"@;
    let b = ":*) ;;\n  *) export PATH="@;
    let c = ":\"$PATH\" ;;\nesac\n"@;
    lemma_free(a, '#', a.len());
    lemma_free(b, '#', b.len());
    lemma_free(c, '#', c.len());
    assert(a.take(a.len() as int) =~= a);
    assert(b.take(b.len() as int) =~= b);
    assert(c.take(c.len() as int) =~= c);
    lemma_lacks_without_first_char(a, PATH_BLOCK_END@);
    lemma_lacks_without_first_char(b, PATH_BLOCK_END@);
    lemma_lacks_without_first_char(c, PATH_BLOCK_END@);
    lemma_lacks_without_first_char(a, PATH_BLOCK_START@);
    lemma_lacks_without_first_char(b, PATH_BLOCK_START@);
    lemma_lacks_without_first_char(c, PATH_BLOCK_START@);
}

/// A text without a quote stands in a quoted text as often as in the text itself.
proof fn lemma_replaced_count(text: Seq<char>, tail: Seq<char>, needle: Seq<char>)
    requires
        needle.len() > 5,
        !needle.contains('\''),
    ensures
        count_from(replaced(text, '\'', "'\"'\"'"@) + tail, needle, 0) == count_from(
            text + tail,
            needle,
            0,
        ),
    decreases text.len(),
{
    reveal_strlit("'\"'\"'");
    let written = replaced(text, '\'', "'\"'\"'"@);
    if text.len() == 0 {
        assert(written =~= text);
    } else {
        let init = text.drop_last();
        let shorter = replaced(init, '\'', "'\"'\"'"@);
        let last = seq![text.last()];
        assert(text =~= init + last);
        if text.last() == '\'' {
            let five = "'\"'\"'"@;
            assert(written =~= shorter + five);
            lemma_replaced_count(init, Seq::empty(), needle);
            assert(shorter + Seq::<char>::empty() =~= shorter);
            assert(init + Seq::<char>::empty() =~= init);
            assert(!has_text(five, needle));
            assert(!has_text(last, needle));
            lemma_count_none(five, needle);
            lemma_count_none(last, needle);
            assert(five[0] == '\'');
            assert(written.last() == '\'');
            lemma_count_concat(shorter, five, needle);
            lemma_count_concat(written, tail, needle);
            lemma_count_concat(init, last, needle);
            lemma_count_concat(text, tail, needle);
        } else {
            assert(written + tail =~= shorter + (last + tail));
            assert(text + tail =~= init + (last + tail));
            lemma_replaced_count(init, last + tail, needle);
        }
    }
}

/// A marker line stands in a quoted directory as often as in the directory itself.
proof fn lemma_quoted_count(directory: Seq<char>, needle: Seq<char>)
    requires
        needle == PATH_BLOCK_START@ || needle == PATH_BLOCK_END@,
    ensures
        count_from(posix_quoted(directory), needle, 0) == count_from(directory, needle, 0),
{
    lemma_markers();
    reveal_strlit("'");
    let quote = "'"@;
    let body = replaced(directory, '\'', "'\"'\"'"@);
    lemma_replaced_count(directory, Seq::empty(), needle);
    assert(body + Seq::<char>::empty() =~= body);
    assert(directory + Seq::<char>::empty() =~= directory);
    assert(quote =~= seq!['\'']);
    assert(!has_text(quote, needle));
    lemma_count_none(quote, needle);
    lemma_count_concat(quote, body, needle);
    lemma_count_concat(quote + body, quote, needle);
}

/// A directory without a marker line is quoted without one.
proof fn lemma_quoted_lacks(directory: Seq<char>, needle: Seq<char>)
    requires
        needle == PATH_BLOCK_START@ || needle == PATH_BLOCK_END@,
        !has_text(directory, needle),
    ensures
        !has_text(posix_quoted(directory), needle),
{
    lemma_markers();
    lemma_quoted_count(directory, needle);
    lemma_count_none(directory, needle);
    lemma_first_from(posix_quoted(directory), needle, 0);
}

/// The block up to its last line.
spec fn block_body(directory: Seq<char>) -> Seq<char> {
    PATH_BLOCK_START@ + "\ncase \":$PATH:\" in\n  *:"@ + posix_quoted(directory)
        + ":*) ;;\n  *) export PATH="@ + posix_quoted(directory) + ":\"$PATH\" ;;\nesac\n"@
}

proof fn lemma_block_body(directory: Seq<char>)
    requires
        !has_text(posix_quoted(directory), PATH_BLOCK_END@),
    ensures
        posix_block(directory) == block_body(directory) + (PATH_BLOCK_END@ + "\n"@),
        !has_text(block_body(directory), PATH_BLOCK_END@),
        block_body(directory).len() > 38,
        block_body(directory).last() == '\n',
        block_body(directory).take(38) == PATH_BLOCK_START@,
{
    lemma_markers();
    lemma_block_parts();
    reveal_strlit("'");
    let first = PATH_BLOCK_START@;
    let end = PATH_BLOCK_END@;
    let a = "\ncase \":$PATH:\" in\n  *:"@;
    let b = ":*) ;;\n  *) export PATH="@;
    let c = ":\"$PATH\" ;;\nesac\n"@;
    let q = posix_quoted(directory);
    assert(q[0] == '\'');
    assert(q.last() == '\'');
    assert(!has_text(first, end)) by {
        if has_text(first, end) {
            let at = choose|at: int| occurs_at(first, end, at);
            assert(first.subrange(at, at + end.len())[2] == first[2]);
        }
    }
    lemma_concat_lacks(first, a, end);
    lemma_concat_lacks(first + a, q, end);
    assert((first + a + q).last() == '\'');
    lemma_concat_lacks(first + a + q, b, end);
    lemma_concat_lacks(first + a + q + b, q, end);
    assert((first + a + q + b + q).last() == '\'');
    lemma_concat_lacks(first + a + q + b + q, c, end);
    assert(posix_block(directory) =~= block_body(directory) + (end + "\n"@));
    assert(block_body(directory).take(38) =~= first);
}

/// What is removed from a profile after the application has written to it is
/// what the application wrote: the profile holds again what it held before,
/// without managed blocks and ended by a line feed. This fails where a first
/// line of a block without a last line stood in the profile, which the written
/// block then completes, and where the directory holds the last line of a
/// block.
pub proof fn law_removal_undoes_the_write(existing: Seq<char>, directory: Seq<char>)
    requires
        !has_text(without_blocks(existing), PATH_BLOCK_START@),
        !has_text(directory, PATH_BLOCK_END@),
    ensures
        without_blocks(posix_config(existing, directory)) == ended_line(without_blocks(existing)),
{
    lemma_markers();
    lemma_quoted_lacks(directory, PATH_BLOCK_END@);
    lemma_block_body(directory);
    reveal_strlit("\n");
    let first = PATH_BLOCK_START@;
    let end = PATH_BLOCK_END@;
    let base = without_blocks(existing);
    let front = ended_line(base);
    let body = block_body(directory);
    let tail = end + "\n"@;
    let text = posix_config(existing, directory);
    assert(text =~= front + (body + tail));
    // No first line of a block stands in front of the block.
    assert(!has_text(front, first)) by {
        if front != base {
            assert(front =~= base + seq!['\n']);
            assert(!seq!['\n'].contains(first[0])) by {
                if seq!['\n'].contains(first[0]) {
                    assert(first.contains('\n'));
                }
            }
            lemma_lacks_without_first_char(seq!['\n'], first);
            lemma_concat_lacks(base, seq!['\n'], first);
        }
    }
    let start = front.len() as int;
    assert(occurs_at(text, first, start)) by {
        assert(text.subrange(start, start + first.len()) =~= body.take(38));
    }
    assert forall|j: int| 0 <= j < start implies !occurs_at(text, first, j) by {
        if occurs_at(text, first, j) {
            lemma_no_straddle(front, body + tail, first, j);
        }
    }
    lemma_first_from_is(text, first, 0, start);
    // The last line of the block is the first one behind its first line.
    let last = start + body.len();
    assert(occurs_at(text, end, last)) by {
        assert(text.subrange(last, last + end.len()) =~= end);
    }
    assert forall|j: int| start <= j < last implies !occurs_at(text, end, j) by {
        if occurs_at(text, end, j) {
            assert((body + tail).subrange(j - start, j - start + end.len()) =~= text.subrange(
                j,
                j + end.len(),
            ));
            assert(occurs_at(body + tail, end, j - start));
            lemma_no_straddle(body, tail, end, j - start);
        }
    }
    lemma_first_from_is(text, end, start, last);
    assert(text[last + end.len()] == '\n');
    assert(first_block(text) == Some((start, text.len() as int)));
    assert(text.take(start) + text.skip(text.len() as int) =~= front);
    lemma_first_from(front, first, 0);
    assert(without_blocks(front) == front);
    assert(without_blocks(text) == without_blocks(text.take(start) + text.skip(text.len() as int)));
}

/// Writing the block a second time changes nothing, where the first write can
/// be undone.
pub proof fn law_second_write_changes_nothing(existing: Seq<char>, directory: Seq<char>)
    requires
        !has_text(without_blocks(existing), PATH_BLOCK_START@),
        !has_text(directory, PATH_BLOCK_END@),
    ensures
        posix_config(posix_config(existing, directory), directory) == posix_config(
            existing,
            directory,
        ),
{
    law_removal_undoes_the_write(existing, directory);
}

/// Whatever a profile held besides managed blocks stands unchanged at the front
/// of what is written.
pub proof fn law_write_keeps_the_profile(existing: Seq<char>, directory: Seq<char>)
    ensures
        without_blocks(existing).is_prefix_of(posix_config(existing, directory)),
        existing.len() > 0 && !has_text(existing, PATH_BLOCK_START@) ==> existing.is_prefix_of(
            posix_config(existing, directory),
        ),
{
    let base = without_blocks(existing);
    let written = posix_config(existing, directory);
    assert(written.take(base.len() as int) =~= base);
    lemma_first_from(existing, PATH_BLOCK_START@, 0);
}

proof fn lemma_count_none(text: Seq<char>, needle: Seq<char>)
    requires
        !has_text(text, needle),
    ensures
        count_from(text, needle, 0) == 0,
{
    lemma_first_from(text, needle, 0);
}

proof fn lemma_count_self(needle: Seq<char>)
    requires
        needle.len() > 0,
    ensures
        count_from(needle, needle, 0) == 1,
{
    assert(needle.subrange(0, needle.len() as int) =~= needle);
    lemma_first_from_is(needle, needle, 0, 0);
    lemma_first_from(needle, needle, needle.len() as int);
    assert(count_from(needle, needle, needle.len() as int) == 0);
}

/// Counting behind a text in front is counting in the text itself.
proof fn lemma_count_shift(left: Seq<char>, right: Seq<char>, needle: Seq<char>, from: int)
    requires
        needle.len() > 0,
        0 <= from <= right.len(),
    ensures
        count_from(left + right, needle, left.len() + from) == count_from(right, needle, from),
    decreases right.len() - from,
{
    let whole = left + right;
    let shift = left.len() as int;
    assert forall|at: int| 0 <= at implies occurs_at(whole, needle, shift + at) == #[trigger] occurs_at(
        right,
        needle,
        at,
    ) by {
        if at + needle.len() <= right.len() {
            assert(whole.subrange(shift + at, shift + at + needle.len()) =~= right.subrange(
                at,
                at + needle.len(),
            ));
        }
    }
    lemma_first_from(right, needle, from);
    lemma_first_from(whole, needle, shift + from);
    match first_from(right, needle, from) {
        Some(at) => {
            assert(occurs_at(whole, needle, shift + at));
            assert forall|j: int| shift + from <= j < shift + at implies !occurs_at(
                whole,
                needle,
                j,
            ) by {
                assert(!occurs_at(right, needle, j - shift));
            }
            lemma_first_from_is(whole, needle, shift + from, shift + at);
            lemma_count_shift(left, right, needle, at + needle.len());
        },
        None => {
            if let Some(at) = first_from(whole, needle, shift + from) {
                assert(occurs_at(right, needle, at - shift));
            }
        },
    }
}

proof fn lemma_count_split(left: Seq<char>, right: Seq<char>, needle: Seq<char>, from: int)
    requires
        needle.len() > 0,
        left.len() == 0 || right.len() == 0 || !needle.contains(left.last()) || !needle.contains(
            right[0],
        ),
        0 <= from <= left.len(),
    ensures
        count_from(left + right, needle, from) == count_from(left, needle, from) + count_from(
            right,
            needle,
            0,
        ),
    decreases left.len() - from,
{
    let whole = left + right;
    assert forall|at: int| occurs_at(left, needle, at) implies occurs_at(whole, needle, at) by {
        assert(whole.subrange(at, at + needle.len()) =~= left.subrange(at, at + needle.len()));
    }
    lemma_first_from(left, needle, from);
    match first_from(left, needle, from) {
        Some(at) => {
            assert forall|j: int| from <= j < at implies !occurs_at(whole, needle, j) by {
                if occurs_at(whole, needle, j) {
                    lemma_no_straddle(left, right, needle, j);
                }
            }
            lemma_first_from_is(whole, needle, from, at);
            lemma_count_split(left, right, needle, at + needle.len());
        },
        None => {
            let border = left.len() as int;
            assert forall|j: int| from <= j < border implies !occurs_at(whole, needle, j) by {
                if occurs_at(whole, needle, j) {
                    lemma_no_straddle(left, right, needle, j);
                }
            }
            lemma_first_from(whole, needle, from);
            lemma_first_from(whole, needle, border);
            match first_from(whole, needle, border) {
                Some(at) => {
                    lemma_first_from_is(whole, needle, from, at);
                },
                None => {
                    if let Some(at) = first_from(whole, needle, from) {
                        assert(border <= at);
                    }
                },
            }
            assert(count_from(whole, needle, from) == count_from(whole, needle, border));
            lemma_count_shift(left, right, needle, 0);
        },
    }
}

/// Where a text cannot stand across the border of two others, it stands in both
/// together as often as in each.
proof fn lemma_count_concat(left: Seq<char>, right: Seq<char>, needle: Seq<char>)
    requires
        needle.len() > 0,
        left.len() == 0 || right.len() == 0 || !needle.contains(left.last()) || !needle.contains(
            right[0],
        ),
    ensures
        count_from(left + right, needle, 0) == count_from(left, needle, 0) + count_from(
            right,
            needle,
            0,
        ),
{
    lemma_count_split(left, right, needle, 0);
}

/// How often a marker line stands in a written profile.
proof fn lemma_written_count(existing: Seq<char>, directory: Seq<char>, needle: Seq<char>)
    requires
        needle == PATH_BLOCK_START@ || needle == PATH_BLOCK_END@,
    ensures
        count_from(posix_config(existing, directory), needle, 0) == count_from(
            without_blocks(existing),
            needle,
            0,
        ) + 2 * count_from(posix_quoted(directory), needle, 0) + 1,
{
    lemma_markers();
    lemma_block_parts();
    reveal_strlit("\n");
    reveal_strlit("'");
    let first = PATH_BLOCK_START@;
    let end = PATH_BLOCK_END@;
    let a = "\ncase \":$PATH:\" in\n  *:"@;
    let b = ":*) ;;\n  *) export PATH="@;
    let c = ":\"$PATH\" ;;\nesac\n"@;
    let q = posix_quoted(directory);
    let base = without_blocks(existing);
    let front = ended_line(base);
    let feed = "\n"@;
    assert(feed =~= seq!['\n']);
    assert(q[0] == '\'');
    assert(q.last() == '\'');
    assert(!feed.contains(needle[0]));
    lemma_lacks_without_first_char(feed, needle);
    assert(!has_text(end, first)) by {
        if has_text(end, first) {
            let at = choose|at: int| occurs_at(end, first, at);
            assert(end.subrange(at, at + first.len())[2] == end[2]);
        }
    }
    assert(!has_text(first, end)) by {
        if has_text(first, end) {
            let at = choose|at: int| occurs_at(first, end, at);
            assert(first.subrange(at, at + end.len())[2] == first[2]);
        }
    }
    lemma_count_none(feed, needle);
    lemma_count_none(a, needle);
    lemma_count_none(b, needle);
    lemma_count_none(c, needle);
    lemma_count_self(needle);
    if needle == first {
        lemma_count_none(end, needle);
    } else {
        lemma_count_none(first, needle);
    }
    if front != base {
        assert(front =~= base + feed);
        lemma_count_concat(base, feed, needle);
    }
    lemma_count_concat(front, first, needle);
    lemma_count_concat(front + first, a, needle);
    lemma_count_concat(front + first + a, q, needle);
    assert((front + first + a + q).last() == '\'');
    lemma_count_concat(front + first + a + q, b, needle);
    lemma_count_concat(front + first + a + q + b, q, needle);
    assert((front + first + a + q + b + q).last() == '\'');
    lemma_count_concat(front + first + a + q + b + q, c, needle);
    assert((front + first + a + q + b + q + c).last() == '\n');
    lemma_count_concat(front + first + a + q + b + q + c, end, needle);
    lemma_count_concat(front + first + a + q + b + q + c + end, feed, needle);
    assert(posix_config(existing, directory) =~= front + first + a + q + b + q + c + end + feed);
}

/// The profile that the application writes passes the check before a removal and
/// before the next write exactly where the marker lines that are not part of a
/// block are balanced: those that are left in the profile, and those in the
/// directory, which is written twice.
pub proof fn law_written_profile_is_balanced(existing: Seq<char>, directory: Seq<char>)
    ensures
        balanced(posix_config(existing, directory)) <==> count_from(
            without_blocks(existing),
            PATH_BLOCK_START@,
            0,
        ) + 2 * count_from(directory, PATH_BLOCK_START@, 0) == count_from(
            without_blocks(existing),
            PATH_BLOCK_END@,
            0,
        ) + 2 * count_from(directory, PATH_BLOCK_END@, 0),
        balanced(without_blocks(existing)) && balanced(directory) ==> balanced(
            posix_config(existing, directory),
        ),
{
    lemma_written_count(existing, directory, PATH_BLOCK_START@);
    lemma_written_count(existing, directory, PATH_BLOCK_END@);
    lemma_quoted_count(directory, PATH_BLOCK_START@);
    lemma_quoted_count(directory, PATH_BLOCK_END@);
}

/// A directory without a marker line is written in exactly one block: beside the
/// marker lines that the profile held outside of blocks, the written profile holds
/// one first and one last line more.
pub proof fn law_write_adds_one_block(existing: Seq<char>, directory: Seq<char>)
    requires
        !has_text(directory, PATH_BLOCK_START@),
        !has_text(directory, PATH_BLOCK_END@),
    ensures
        count_from(posix_config(existing, directory), PATH_BLOCK_START@, 0) == count_from(
            without_blocks(existing),
            PATH_BLOCK_START@,
            0,
        ) + 1,
        count_from(posix_config(existing, directory), PATH_BLOCK_END@, 0) == count_from(
            without_blocks(existing),
            PATH_BLOCK_END@,
            0,
        ) + 1,
{
    lemma_quoted_count(directory, PATH_BLOCK_START@);
    lemma_quoted_count(directory, PATH_BLOCK_END@);
    lemma_count_none(directory, PATH_BLOCK_START@);
    lemma_count_none(directory, PATH_BLOCK_END@);
    lemma_written_count(existing, directory, PATH_BLOCK_START@);
    lemma_written_count(existing, directory, PATH_BLOCK_END@);
}

/// Where neither the profile nor the directory holds a marker line, the written
/// profile holds exactly one first and one last line of a block, and taking the
/// block out gives back the profile, ended by a line feed.
pub proof fn law_written_block_is_the_only_one(existing: Seq<char>, directory: Seq<char>)
    requires
        !has_text(existing, PATH_BLOCK_START@),
        !has_text(existing, PATH_BLOCK_END@),
        !has_text(directory, PATH_BLOCK_START@),
        !has_text(directory, PATH_BLOCK_END@),
    ensures
        count_from(posix_config(existing, directory), PATH_BLOCK_START@, 0) == 1,
        count_from(posix_config(existing, directory), PATH_BLOCK_END@, 0) == 1,
        balanced(posix_config(existing, directory)),
        without_blocks(posix_config(existing, directory)) == ended_line(existing),
{
    law_foreign_profile_is_untouched(existing);
    lemma_count_none(existing, PATH_BLOCK_START@);
    lemma_count_none(existing, PATH_BLOCK_END@);
    law_write_adds_one_block(existing, directory);
    law_removal_undoes_the_write(existing, directory);
}

/// A block on lines of its own is taken out with its line feed, and all that stands
/// before and behind it stays, less its own blocks.
pub proof fn law_block_is_taken_out_alone(
    front: Seq<char>,
    inner: Seq<char>,
    back: Seq<char>,
)
    requires
        !has_text(front, "# >>> DSH Desktop terminal command >>>"@),
        front.len() == 0 || front.last() == '\n',
        !has_text(inner, "# <<< DSH Desktop terminal command <<<"@),
        inner.len() > 0 && inner[0] == '\n' && inner.last() == '\n',
    ensures
        without_blocks(
            front + "# >>> DSH Desktop terminal command >>>"@ + inner
                + "# <<< DSH Desktop terminal command <<<"@ + "\n"@ + back,
        ) == without_blocks(front + back),
{
    lemma_markers();
    reveal_strlit("\n");
    let first = PATH_BLOCK_START@;
    let end = PATH_BLOCK_END@;
    let body = first + inner;
    let tail = end + "\n"@ + back;
    let text = front + first + inner + end + "\n"@ + back;
    assert(text =~= front + (body + tail));
    let start = front.len() as int;
    assert(occurs_at(text, first, start)) by {
        assert(text.subrange(start, start + first.len()) =~= first);
    }
    assert forall|j: int| 0 <= j < start implies !occurs_at(text, first, j) by {
        if occurs_at(text, first, j) {
            lemma_no_straddle(front, body + tail, first, j);
        }
    }
    lemma_first_from_is(text, first, 0, start);
    assert(!has_text(first, end)) by {
        if has_text(first, end) {
            let at = choose|at: int| occurs_at(first, end, at);
            assert(first.subrange(at, at + end.len())[2] == first[2]);
        }
    }
    lemma_concat_lacks(first, inner, end);
    assert(body.last() == '\n');
    let last = start + body.len();
    assert(occurs_at(text, end, last)) by {
        assert(text.subrange(last, last + end.len()) =~= end);
    }
    assert forall|j: int| start <= j < last implies !occurs_at(text, end, j) by {
        if occurs_at(text, end, j) {
            assert((body + tail).subrange(j - start, j - start + end.len()) =~= text.subrange(
                j,
                j + end.len(),
            ));
            assert(occurs_at(body + tail, end, j - start));
            lemma_no_straddle(body, tail, end, j - start);
        }
    }
    lemma_first_from_is(text, end, start, last);
    assert(text[last + end.len()] == '\n');
    let stop = last + end.len() + 1;
    assert(first_block(text) == Some((start, stop)));
    assert(text.take(start) + text.skip(stop) =~= front + back);
}

/// The block begins and ends with its two lines, looks whether the directory is on the
/// path already, and puts it before all others where it is not.
pub proof fn law_block_puts_the_directory_first(directory: Seq<char>)
    ensures
        ("# >>> DSH Desktop terminal command >>>"@ + "\n"@).is_prefix_of(posix_block(directory)),
        ("# <<< DSH Desktop terminal command <<<"@ + "\n"@).is_suffix_of(posix_block(directory)),
        has_text(posix_block(directory), "case \":$PATH:\" in\n  *:"@ + posix_quoted(directory)
            + ":*) ;;\n"@),
        has_text(posix_block(directory), "  *) export PATH="@ + posix_quoted(directory)
            + ":\"$PATH\" ;;\nesac\n"@),
{
    reveal_strlit("\n");
    reveal_strlit("\ncase \":$PATH:\" in\n  *:");
    reveal_strlit("case \":$PATH:\" in\n  *:");
    reveal_strlit(":*) ;;\n  *) export PATH=");
    reveal_strlit(":*) ;;\n");
    reveal_strlit("  *) export PATH=");
    reveal_strlit(":\"$PATH\" ;;\nesac\n");
    let block = posix_block(directory);
    let q = posix_quoted(directory);
    let first = PATH_BLOCK_START@;
    let opening = first + "\n"@;
    assert(block.take(opening.len() as int) =~= opening);
    let closing = PATH_BLOCK_END@ + "\n"@;
    assert(block.subrange(block.len() - closing.len(), block.len() as int) =~= closing);
    let guard = "case \":$PATH:\" in\n  *:"@ + q + ":*) ;;\n"@;
    assert(opening =~= first + seq!['\n']);
    assert("\ncase \":$PATH:\" in\n  *:"@ =~= seq!['\n'] + "case \":$PATH:\" in\n  *:"@);
    assert(":*) ;;\n  *) export PATH="@ =~= ":*) ;;\n"@ + "  *) export PATH="@);
    let rest = "  *) export PATH="@ + q + ":\"$PATH\" ;;\nesac\n"@;
    assert(block =~= opening + guard + rest + closing);
    assert(block.subrange(opening.len() as int, opening.len() as int + guard.len()) =~= guard);
    assert(occurs_at(block, guard, opening.len() as int));
    let at = (opening + guard).len() as int;
    assert(block.subrange(at, at + rest.len()) =~= rest);
    assert(occurs_at(block, rest, at));
}

/// The configuration of fish names the application first, and puts the directory before
/// all others where it is not on the path.
pub proof fn law_fish_puts_the_directory_first(directory: Seq<char>)
    ensures
        ("# Managed by DSH Desktop"@ + "\n"@).is_prefix_of(fish_config(directory)),
        has_text(
            fish_config(directory),
            "if not contains -- "@ + fish_quoted(directory) + " $PATH\n"@,
        ),
        has_text(
            fish_config(directory),
            "    set -gx PATH "@ + fish_quoted(directory) + " $PATH\nend\n"@,
        ),
{
    reveal_strlit("# ");
    reveal_strlit("Managed by DSH Desktop");
    reveal_strlit("# Managed by DSH Desktop");
    reveal_strlit("\n");
    reveal_strlit("\nif not contains -- ");
    reveal_strlit("if not contains -- ");
    reveal_strlit(" $PATH\n    set -gx PATH ");
    reveal_strlit(" $PATH\n");
    reveal_strlit("    set -gx PATH ");
    reveal_strlit(" $PATH\nend\n");
    let written = fish_config(directory);
    let q = fish_quoted(directory);
    assert("# "@ + SHIM_MARKER@ =~= "# Managed by DSH Desktop"@);
    let opening = "# Managed by DSH Desktop"@ + "\n"@;
    assert("\nif not contains -- "@ =~= "\n"@ + "if not contains -- "@);
    assert(" $PATH\n    set -gx PATH "@ =~= " $PATH\n"@ + "    set -gx PATH "@);
    let guard = "if not contains -- "@ + q + " $PATH\n"@;
    let rest = "    set -gx PATH "@ + q + " $PATH\nend\n"@;
    assert(written =~= opening + guard + rest);
    assert(written.take(opening.len() as int) =~= opening);
    assert(written.subrange(opening.len() as int, opening.len() as int + guard.len()) =~= guard);
    assert(occurs_at(written, guard, opening.len() as int));
    let at = (opening + guard).len() as int;
    assert(written.subrange(at, at + rest.len()) =~= rest);
    assert(occurs_at(written, rest, at));
}

/// A configuration of fish is the application's own exactly where its first line says
/// so, and the marker lines of a profile are balanced exactly where there are as many
/// first lines as last ones.
pub proof fn law_own_files_are_recognised(contents: Seq<char>)
    ensures
        managed_fish(contents) <==> ("# Managed by DSH Desktop"@ + "\n"@).is_prefix_of(contents),
        balanced(contents) <==> count_from(
            contents,
            "# >>> DSH Desktop terminal command >>>"@,
            0,
        ) == count_from(contents, "# <<< DSH Desktop terminal command <<<"@, 0),
{
    reveal_strlit("# ");
    reveal_strlit("Managed by DSH Desktop");
    reveal_strlit("# Managed by DSH Desktop");
    reveal_strlit("\n");
    assert("# "@ + SHIM_MARKER@ =~= "# Managed by DSH Desktop"@);
    assert(marker_line() =~= "# Managed by DSH Desktop"@ + "\n"@);
}

/// A profile that is not empty is ended by a line feed and else kept; an empty one stays
/// empty.
pub proof fn law_profile_is_ended_by_a_feed(text: Seq<char>)
    ensures
        text.is_prefix_of(ended_line(text)),
        text.len() == 0 || text.last() == '\n' ==> ended_line(text) == text,
        text.len() > 0 && text.last() != '\n' ==> ended_line(text) == text.push('\n'),
{
    assert(ended_line(text).take(text.len() as int) =~= text);
}

/// What is written to a profile is what it held outside of blocks, ended by a line feed,
/// and then the block for the directory.
pub proof fn law_block_stands_behind_the_profile(existing: Seq<char>, directory: Seq<char>)
    ensures
        without_blocks(existing).is_prefix_of(posix_config(existing, directory)),
        posix_block(directory).is_suffix_of(posix_config(existing, directory)),
        posix_config(existing, directory) == ended_line(without_blocks(existing)) + posix_block(
            directory,
        ),
{
    law_write_keeps_the_profile(existing, directory);
    let written = posix_config(existing, directory);
    let block = posix_block(directory);
    assert(written.subrange(written.len() - block.len(), written.len() as int) =~= block);
}

/// A text is counted nowhere exactly where it stands nowhere, and once in itself.
pub proof fn law_counting(hay: Seq<char>, needle: Seq<char>)
    requires
        needle.len() > 0,
    ensures
        !has_text(hay, needle) <==> count_from(hay, needle, 0) == 0,
        count_from(needle, needle, 0) == 1,
{
    lemma_first_from(hay, needle, 0);
    lemma_count_self(needle);
}

/// A block that ends the profile is taken out too.
pub proof fn law_last_block_is_taken_out(front: Seq<char>, inner: Seq<char>)
    requires
        !has_text(front, "# >>> DSH Desktop terminal command >>>"@),
        front.len() == 0 || front.last() == '\n',
        !has_text(inner, "# <<< DSH Desktop terminal command <<<"@),
        inner.len() > 0 && inner[0] == '\n' && inner.last() == '\n',
    ensures
        without_blocks(
            front + "# >>> DSH Desktop terminal command >>>"@ + inner
                + "# <<< DSH Desktop terminal command <<<"@,
        ) == front,
{
    lemma_markers();
    let first = PATH_BLOCK_START@;
    let end = PATH_BLOCK_END@;
    let body = first + inner;
    let text = front + first + inner + end;
    assert(text =~= front + (body + end));
    let start = front.len() as int;
    assert(occurs_at(text, first, start)) by {
        assert(text.subrange(start, start + first.len()) =~= first);
    }
    assert forall|j: int| 0 <= j < start implies !occurs_at(text, first, j) by {
        if occurs_at(text, first, j) {
            lemma_no_straddle(front, body + end, first, j);
        }
    }
    lemma_first_from_is(text, first, 0, start);
    assert(!has_text(first, end)) by {
        if has_text(first, end) {
            let at = choose|at: int| occurs_at(first, end, at);
            assert(first.subrange(at, at + end.len())[2] == first[2]);
        }
    }
    lemma_concat_lacks(first, inner, end);
    assert(body.last() == '\n');
    let last = start + body.len();
    assert(occurs_at(text, end, last)) by {
        assert(text.subrange(last, last + end.len()) =~= end);
    }
    assert forall|j: int| start <= j < last implies !occurs_at(text, end, j) by {
        if occurs_at(text, end, j) {
            assert((body + end).subrange(j - start, j - start + end.len()) =~= text.subrange(
                j,
                j + end.len(),
            ));
            assert(occurs_at(body + end, end, j - start));
            lemma_no_straddle(body, end, end, j - start);
        }
    }
    lemma_first_from_is(text, end, start, last);
    assert(first_block(text) == Some((start, text.len() as int)));
    assert(text.take(start) + text.skip(text.len() as int) =~= front);
    lemma_first_from(front, first, 0);
    assert(without_blocks(front) == front);
}

/// A profile without the last line of a block is left as it is.
pub proof fn law_profile_without_a_last_line_stays(text: Seq<char>)
    requires
        !has_text(text, "# <<< DSH Desktop terminal command <<<"@),
    ensures
        without_blocks(text) == text,
{
    lemma_first_from(text, PATH_BLOCK_START@, 0);
    if let Some(start) = first_from(text, PATH_BLOCK_START@, 0) {
        lemma_first_from(text, PATH_BLOCK_END@, start);
    }
}

/// A text stands in two others together as often as in each, where the border between
/// them cannot be part of it.
pub proof fn law_counts_add_up(left: Seq<char>, right: Seq<char>, needle: Seq<char>)
    requires
        needle.len() > 0,
        left.len() == 0 || right.len() == 0 || !needle.contains(left.last()) || !needle.contains(
            right[0],
        ),
    ensures
        count_from(left + right, needle, 0) == count_from(left, needle, 0) + count_from(
            right,
            needle,
            0,
        ),
{
    lemma_count_concat(left, right, needle);
}

} // verus!
