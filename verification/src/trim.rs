//! Trimming, words, lines, case and decimal numbers.

use vstd::prelude::*;

use crate::text::{chars_of, find_from, first_from, lemma_first_from, text_of};

verus! {

/// A set of characters that text is trimmed of.
#[derive(Clone, Copy)]
pub enum CharClass {
    /// Characters with the Unicode `White_Space` property.
    WhiteSpace,
    /// The double quotation mark.
    DoubleQuote,
    /// The letter that precedes a version number.
    LetterV,
    /// Slash and backslash.
    Separator,
}

/// The characters with the Unicode `White_Space` property.
pub open spec fn white_space(c: char) -> bool {
    ||| '\u{9}' <= c <= '\u{d}'
    ||| c == '\u{20}'
    ||| c == '\u{85}'
    ||| c == '\u{a0}'
    ||| c == '\u{1680}'
    ||| '\u{2000}' <= c <= '\u{200a}'
    ||| c == '\u{2028}'
    ||| c == '\u{2029}'
    ||| c == '\u{202f}'
    ||| c == '\u{205f}'
    ||| c == '\u{3000}'
}

/// `c` belongs to `class`.
pub open spec fn in_class(class: CharClass, c: char) -> bool {
    match class {
        CharClass::WhiteSpace => white_space(c),
        CharClass::DoubleQuote => c == '"',
        CharClass::LetterV => c == 'v',
        CharClass::Separator => c == '/' || c == '\\',
    }
}

fn is_white_space(c: char) -> (yes: bool)
    ensures
        yes == white_space(c),
{
    ('\u{9}' <= c && c <= '\u{d}') || c == '\u{20}' || c == '\u{85}' || c == '\u{a0}' || c
        == '\u{1680}' || ('\u{2000}' <= c && c <= '\u{200a}') || c == '\u{2028}' || c == '\u{2029}'
        || c == '\u{202f}' || c == '\u{205f}' || c == '\u{3000}'
}

fn belongs(class: CharClass, c: char) -> (yes: bool)
    ensures
        yes == in_class(class, c),
{
    match class {
        CharClass::WhiteSpace => is_white_space(c),
        CharClass::DoubleQuote => c == '"',
        CharClass::LetterV => c == 'v',
        CharClass::Separator => c == '/' || c == '\\',
    }
}

/// `text` without the characters of `class` at its front.
pub open spec fn strip_leading(text: Seq<char>, class: CharClass) -> Seq<char>
    decreases text.len(),
{
    if text.len() > 0 && in_class(class, text[0]) {
        strip_leading(text.drop_first(), class)
    } else {
        text
    }
}

/// `text` without the characters of `class` at its end.
pub open spec fn strip_trailing(text: Seq<char>, class: CharClass) -> Seq<char>
    decreases text.len(),
{
    if text.len() > 0 && in_class(class, text.last()) {
        strip_trailing(text.drop_last(), class)
    } else {
        text
    }
}

/// `text` without the characters of `class` at either end.
pub open spec fn stripped(text: Seq<char>, class: CharClass) -> Seq<char> {
    strip_trailing(strip_leading(text, class), class)
}

/// `text` without white space at either end.
pub open spec fn trimmed(text: Seq<char>) -> Seq<char> {
    stripped(text, CharClass::WhiteSpace)
}

fn leading_end(chars: &Vec<char>, class: CharClass) -> (start: usize)
    ensures
        start <= chars@.len(),
        chars@.skip(start as int) == strip_leading(chars@, class),
{
    let mut start: usize = 0;
    assert(chars@.skip(0) =~= chars@);
    while start < chars.len() && belongs(class, chars[start])
        invariant
            start <= chars@.len(),
            strip_leading(chars@.skip(start as int), class) == strip_leading(chars@, class),
        decreases chars@.len() - start,
    {
        assert(chars@.skip(start as int).drop_first() =~= chars@.skip(start + 1));
        start = start + 1;
    }
    start
}

fn trailing_start(chars: &Vec<char>, from: usize, class: CharClass) -> (end: usize)
    requires
        from <= chars@.len(),
    ensures
        from <= end <= chars@.len(),
        chars@.subrange(from as int, end as int) == strip_trailing(chars@.skip(from as int), class),
{
    let mut end: usize = chars.len();
    assert(chars@.subrange(from as int, end as int) =~= chars@.skip(from as int));
    while from < end && belongs(class, chars[end - 1])
        invariant
            from <= end <= chars@.len(),
            strip_trailing(chars@.subrange(from as int, end as int), class) == strip_trailing(
                chars@.skip(from as int),
                class,
            ),
        decreases end,
    {
        assert(chars@.subrange(from as int, end as int).drop_last() =~= chars@.subrange(
            from as int,
            end - 1,
        ));
        end = end - 1;
    }
    end
}

/// Takes the characters of `class` off both ends.
pub fn strip(text: &str, class: CharClass) -> (rest: String)
    ensures
        rest@ == stripped(text@, class),
{
    let chars = chars_of(text);
    let start = leading_end(&chars, class);
    let end = trailing_start(&chars, start, class);
    text_of(&chars, start, end)
}

/// Takes the characters of `class` off the front.
pub fn strip_front(text: &str, class: CharClass) -> (rest: String)
    ensures
        rest@ == strip_leading(text@, class),
{
    let chars = chars_of(text);
    let start = leading_end(&chars, class);
    assert(chars@.subrange(start as int, chars@.len() as int) =~= chars@.skip(start as int));
    text_of(&chars, start, chars.len())
}

/// Takes the characters of `class` off the end.
pub fn strip_back(text: &str, class: CharClass) -> (rest: String)
    ensures
        rest@ == strip_trailing(text@, class),
{
    let chars = chars_of(text);
    let end = trailing_start(&chars, 0, class);
    assert(chars@.skip(0) =~= chars@);
    text_of(&chars, 0, end)
}

/// Takes white space off both ends.
pub fn trim(text: &str) -> (rest: String)
    ensures
        rest@ == trimmed(text@),
{
    strip(text, CharClass::WhiteSpace)
}

/// What trimming leaves begins and ends with a character that is kept.
pub proof fn law_trimmed_text_has_no_blank_ends(text: Seq<char>)
    ensures
        trimmed(text).len() > 0 ==> !white_space(trimmed(text)[0]) && !white_space(
            trimmed(text).last(),
        ),
{
    lemma_strip_leading(text, CharClass::WhiteSpace);
    lemma_strip_trailing(strip_leading(text, CharClass::WhiteSpace), CharClass::WhiteSpace);
}

proof fn lemma_strip_leading(text: Seq<char>, class: CharClass)
    ensures
        strip_leading(text, class).len() > 0 ==> !in_class(class, strip_leading(text, class)[0]),
    decreases text.len(),
{
    if text.len() > 0 && in_class(class, text[0]) {
        lemma_strip_leading(text.drop_first(), class);
    }
}

proof fn lemma_strip_trailing(text: Seq<char>, class: CharClass)
    ensures
        strip_trailing(text, class).is_prefix_of(text),
        strip_trailing(text, class).len() > 0 ==> !in_class(
            class,
            strip_trailing(text, class).last(),
        ),
    decreases text.len(),
{
    if text.len() > 0 && in_class(class, text.last()) {
        lemma_strip_trailing(text.drop_last(), class);
    }
}

/// The number of characters before the first white space.
pub open spec fn word_length(text: Seq<char>) -> nat
    decreases text.len(),
{
    if text.len() == 0 || white_space(text[0]) {
        0
    } else {
        1 + word_length(text.drop_first())
    }
}

/// The first run of characters that are not white space.
pub open spec fn first_word(text: Seq<char>) -> Option<Seq<char>> {
    let rest = strip_leading(text, CharClass::WhiteSpace);
    if rest.len() == 0 {
        None
    } else {
        Some(rest.take(word_length(rest) as int))
    }
}

/// No character of the first `word_length` is white space.
pub proof fn lemma_word_length(text: Seq<char>)
    ensures
        word_length(text) <= text.len(),
        forall|i: int| 0 <= i < word_length(text) ==> !white_space(#[trigger] text[i]),
    decreases text.len(),
{
    if text.len() > 0 && !white_space(text[0]) {
        let rest = text.drop_first();
        lemma_word_length(rest);
        assert forall|i: int| 0 <= i < word_length(text) implies !white_space(
            #[trigger] text[i],
        ) by {
            if i > 0 {
                assert(text[i] == rest[i - 1]);
            }
        }
    }
}

/// The first word of `text`, if it has one.
pub fn word(text: &str) -> (found: Option<String>)
    ensures
        found.deep_view() == first_word(text@),
{
    let chars = chars_of(text);
    let start = leading_end(&chars, CharClass::WhiteSpace);
    if start == chars.len() {
        return None;
    }
    let ghost rest = chars@.skip(start as int);
    assert(rest.skip(0) =~= rest);
    let mut end: usize = start;
    while end < chars.len() && !is_white_space(chars[end])
        invariant
            start <= end <= chars@.len(),
            rest == chars@.skip(start as int),
            word_length(rest) == (end - start) + word_length(rest.skip(end - start)),
        decreases chars@.len() - end,
    {
        assert(rest.skip(end - start).drop_first() =~= rest.skip(end - start + 1));
        end = end + 1;
    }
    assert(chars@.subrange(start as int, end as int) =~= rest.take(word_length(rest) as int));
    Some(text_of(&chars, start, end))
}

/// An ASCII capital letter as its small letter, any other character as it is.
pub open spec fn ascii_lower(c: char) -> char {
    if 'A' <= c <= 'Z' {
        (c as u32 + 32) as char
    } else {
        c
    }
}

/// `text` with its ASCII capital letters as small letters.
pub open spec fn lowered(text: Seq<char>) -> Seq<char> {
    text.map_values(|c: char| ascii_lower(c))
}

fn lower_char(c: char) -> (low: char)
    ensures
        low == ascii_lower(c),
{
    if 'A' <= c && c <= 'Z' {
        ((c as u8) + 32) as char
    } else {
        c
    }
}

/// Turns the ASCII capital letters into small letters.
pub fn lower(text: &str) -> (low: String)
    ensures
        low@ == lowered(text@),
{
    let chars = chars_of(text);
    let mut low = String::new();
    let mut i: usize = 0;
    while i < chars.len()
        invariant
            i <= chars@.len(),
            low@ == lowered(chars@.take(i as int)),
        decreases chars@.len() - i,
    {
        low.push(lower_char(chars[i]));
        i = i + 1;
        assert(low@ =~= lowered(chars@.take(i as int)));
    }
    assert(chars@.take(i as int) =~= chars@);
    low
}

/// `text` with every `from` replaced by `to`.
pub open spec fn replaced(text: Seq<char>, from: char, to: Seq<char>) -> Seq<char>
    decreases text.len(),
{
    if text.len() == 0 {
        Seq::empty()
    } else {
        replaced(text.drop_last(), from, to) + (if text.last() == from {
            to
        } else {
            seq![text.last()]
        })
    }
}

/// Replaces every `from` by `to`.
pub fn replace(text: &str, from: char, to: &str) -> (result: String)
    ensures
        result@ == replaced(text@, from, to@),
{
    let chars = chars_of(text);
    let mut result = String::new();
    let mut i: usize = 0;
    while i < chars.len()
        invariant
            i <= chars@.len(),
            result@ == replaced(chars@.take(i as int), from, to@),
        decreases chars@.len() - i,
    {
        let ghost next = chars@.take(i + 1);
        assert(next.drop_last() =~= chars@.take(i as int));
        let ghost before = result@;
        if chars[i] == from {
            result.append(to);
        } else {
            result.push(chars[i]);
            assert(result@ =~= before + seq![next.last()]);
        }
        i = i + 1;
    }
    assert(chars@.take(i as int) =~= chars@);
    result
}

/// `text` up to the first `mark` and behind it.
pub open spec fn split_once(text: Seq<char>, mark: char) -> Option<(Seq<char>, Seq<char>)> {
    match first_from(text, seq![mark], 0) {
        Some(at) => Some((text.take(at), text.skip(at + 1))),
        None => None,
    }
}

/// Splits at the first `mark`.
pub fn split_at_first(text: &str, mark: char) -> (parts: Option<(String, String)>)
    ensures
        match parts {
            Some((left, right)) => split_once(text@, mark) == Some((left@, right@)),
            None => split_once(text@, mark) is None,
        },
{
    let chars = chars_of(text);
    let mut needle: Vec<char> = Vec::new();
    needle.push(mark);
    assert(needle@ =~= seq![mark]);
    let length: usize = chars.len();
    match find_from(&chars, &needle, 0) {
        Some(at) => {
            proof {
                lemma_first_from(text@, seq![mark], 0);
            }
            assert(chars@.subrange(0, at as int) =~= text@.take(at as int));
            assert(chars@.subrange(at + 1, chars@.len() as int) =~= text@.skip(at + 1));
            Some((text_of(&chars, 0, at), text_of(&chars, at + 1, length)))
        },
        None => None,
    }
}

/// One line without the carriage return that may end it.
pub open spec fn line_body(line: Seq<char>) -> Seq<char> {
    if line.len() > 0 && line.last() == '\r' {
        line.drop_last()
    } else {
        line
    }
}

/// The lines of `text`: what stands before each line feed, without the
/// carriage return in front of the line feed, and what stands behind the last
/// line feed where that is not empty.
pub open spec fn lines_of(text: Seq<char>) -> Seq<Seq<char>>
    decreases text.len(),
{
    if text.len() == 0 {
        Seq::empty()
    } else {
        match split_once(text, '\n') {
            Some((line, rest)) if rest.len() < text.len() => seq![line_body(line)] + lines_of(rest),
            _ => seq![text],
        }
    }
}

/// The lines of `text`.
pub fn lines(text: &str) -> (list: Vec<String>)
    ensures
        list.deep_view() == lines_of(text@),
{
    let mut list: Vec<String> = Vec::new();
    let mut rest: String = text.to_string();
    let ghost empty: Seq<Seq<char>> = Seq::empty();
    assert(list.deep_view() =~= empty);
    assert(empty + lines_of(text@) =~= lines_of(text@));
    while !rest.as_str().is_empty()
        invariant
            lines_of(text@) == list.deep_view() + lines_of(rest@),
        decreases rest@.len(),
    {
        match split_at_first(rest.as_str(), '\n') {
            Some((line, next)) => {
                let ghost before = list.deep_view();
                let ghost whole = rest@;
                proof {
                    lemma_first_from(whole, seq!['\n'], 0);
                }
                let chars = chars_of(line.as_str());
                let body = if chars.len() > 0 && chars[chars.len() - 1] == '\r' {
                    assert(chars@.subrange(0, chars@.len() - 1) =~= line@.drop_last());
                    text_of(&chars, 0, chars.len() - 1)
                } else {
                    line
                };
                list.push(body);
                let ghost parts = split_once(whole, '\n')->0;
                assert(list.deep_view() =~= before + seq![line_body(parts.0)]);
                rest = next;
                assert(before + lines_of(whole) =~= list.deep_view() + lines_of(rest@));
            },
            None => {
                let ghost before = list.deep_view();
                let ghost whole = rest@;
                list.push(rest);
                assert(list.deep_view() =~= before + seq![whole]);
                assert(list.deep_view() =~= lines_of(text@));
                return list;
            },
        }
    }
    assert(list.deep_view() + lines_of(rest@) =~= list.deep_view());
    list
}

/// The decimal digit of `n`.
pub open spec fn digit(n: nat) -> char {
    if n == 0 { '0' } else if n == 1 { '1' } else if n == 2 { '2' } else if n == 3 { '3' }
    else if n == 4 { '4' } else if n == 5 { '5' } else if n == 6 { '6' } else if n == 7 { '7' }
    else if n == 8 { '8' } else { '9' }
}

/// `n` written in base ten without leading zeros.
pub open spec fn decimal(n: nat) -> Seq<char>
    decreases n,
{
    if n < 10 {
        seq![digit(n)]
    } else {
        decimal(n / 10).push(digit(n % 10))
    }
}

fn digit_char(n: u64) -> (c: char)
    ensures
        c == digit(n as nat),
{
    if n == 0 { '0' } else if n == 1 { '1' } else if n == 2 { '2' } else if n == 3 { '3' }
    else if n == 4 { '4' } else if n == 5 { '5' } else if n == 6 { '6' } else if n == 7 { '7' }
    else if n == 8 { '8' } else { '9' }
}

/// Writes `n` in base ten.
pub fn decimal_text(n: u64) -> (text: String)
    ensures
        text@ == decimal(n as nat),
    decreases n,
{
    if n < 10 {
        let mut text = String::new();
        text.push(digit_char(n));
        assert(text@ =~= seq![digit(n as nat)]);
        text
    } else {
        let mut text = decimal_text(n / 10);
        text.push(digit_char(n % 10));
        text
    }
}

/// Trimming takes white space from both ends and nothing else: the rest stands in the
/// text, with nothing but white space before and behind it.
pub proof fn law_trimming_takes_only_white_space(text: Seq<char>)
    ensures
        exists|from: int, to: int|
            0 <= from <= to <= text.len() && trimmed(text) == #[trigger] text.subrange(from, to)
                && (forall|i: int| 0 <= i < from ==> white_space(#[trigger] text[i])) && (forall|
                i: int,
            |
                to <= i < text.len() ==> white_space(#[trigger] text[i])),
{
    let front = strip_leading(text, CharClass::WhiteSpace);
    lemma_leading_part(text, CharClass::WhiteSpace);
    lemma_trailing_part(front, CharClass::WhiteSpace);
    let from = text.len() - front.len();
    let to = from + trimmed(text).len();
    assert(front =~= text.skip(from));
    assert(trimmed(text) =~= text.subrange(from, to));
    assert forall|i: int| to <= i < text.len() implies white_space(#[trigger] text[i]) by {
        assert(front[i - from] == text[i]);
    }
}

/// What is stripped from the front belongs to the class.
pub proof fn lemma_leading_part(text: Seq<char>, class: CharClass)
    ensures
        strip_leading(text, class).len() <= text.len(),
        strip_leading(text, class) == text.skip(text.len() - strip_leading(text, class).len()),
        forall|i: int|
            0 <= i < text.len() - strip_leading(text, class).len() ==> in_class(
                class,
                #[trigger] text[i],
            ),
    decreases text.len(),
{
    if text.len() > 0 && in_class(class, text[0]) {
        let next = text.drop_first();
        lemma_leading_part(next, class);
        let rest = strip_leading(text, class);
        assert(next.skip(next.len() - rest.len()) =~= text.skip(text.len() - rest.len()));
        assert forall|i: int| 0 <= i < text.len() - rest.len() implies in_class(
            class,
            #[trigger] text[i],
        ) by {
            if i > 0 {
                assert(next[i - 1] == text[i]);
            }
        }
    } else {
        assert(text.skip(0) =~= text);
    }
}

/// What is stripped from the end belongs to the class.
pub proof fn lemma_trailing_part(text: Seq<char>, class: CharClass)
    ensures
        strip_trailing(text, class).len() <= text.len(),
        strip_trailing(text, class) == text.take(strip_trailing(text, class).len() as int),
        forall|i: int|
            strip_trailing(text, class).len() <= i < text.len() ==> in_class(
                class,
                #[trigger] text[i],
            ),
    decreases text.len(),
{
    if text.len() > 0 && in_class(class, text.last()) {
        let next = text.drop_last();
        lemma_trailing_part(next, class);
        let rest = strip_trailing(text, class);
        assert(next.take(rest.len() as int) =~= text.take(rest.len() as int));
        assert forall|i: int| rest.len() <= i < text.len() implies in_class(
            class,
            #[trigger] text[i],
        ) by {
            if i < next.len() {
                assert(next[i] == text[i]);
            }
        }
    } else {
        assert(text.take(text.len() as int) =~= text);
    }
}

/// A text without characters of the class at an end keeps that end.
pub proof fn law_stripping_keeps_other_ends(text: Seq<char>, class: CharClass)
    ensures
        text.len() > 0 && !in_class(class, text[0]) ==> strip_leading(text, class) == text,
        text.len() > 0 && !in_class(class, text.last()) ==> strip_trailing(text, class) == text,
        strip_leading(text, class).len() > 0 ==> !in_class(class, strip_leading(text, class)[0]),
        strip_trailing(text, class).len() > 0 ==> !in_class(
            class,
            strip_trailing(text, class).last(),
        ),
{
    lemma_strip_leading(text, class);
    lemma_strip_trailing(text, class);
}

/// The classes are white space, the double quotation mark, the letter of a version, and
/// the two slashes.
pub proof fn law_classes(c: char)
    ensures
        in_class(CharClass::WhiteSpace, c) <==> white_space(c),
        in_class(CharClass::DoubleQuote, c) <==> c == '"',
        in_class(CharClass::LetterV, c) <==> c == 'v',
        in_class(CharClass::Separator, c) <==> c == '/' || c == '\\',
        white_space(' ') && white_space('\t') && white_space('\n') && white_space('\r')
            && white_space('\u{3000}'),
        'a' <= c <= 'z' || 'A' <= c <= 'Z' || '0' <= c <= '9' ==> !white_space(c),
{
}

/// The letters of ASCII are made small one by one, and nothing else changes.
pub proof fn law_lowered_text_keeps_its_shape(text: Seq<char>, at: int)
    requires
        0 <= at < text.len(),
    ensures
        lowered(text).len() == text.len(),
        !('A' <= text[at] <= 'Z') ==> lowered(text)[at] == text[at],
        'A' <= text[at] <= 'Z' ==> lowered(text)[at] as int == text[at] as int + 32,
{
}

/// Every occurrence of the character is replaced and nothing else: a text without it
/// stays, and two texts are replaced one after the other.
pub proof fn law_replacement_is_made_everywhere(
    text: Seq<char>,
    other: Seq<char>,
    from: char,
    to: Seq<char>,
)
    ensures
        !text.contains(from) ==> replaced(text, from, to) == text,
        replaced(seq![from], from, to) == to,
        replaced(text + other, from, to) == replaced(text, from, to) + replaced(other, from, to),
    decreases other.len(),
{
    lemma_replaced_without(text, from, to);
    assert(seq![from].drop_last() =~= Seq::empty());
    assert(replaced(Seq::empty(), from, to) =~= Seq::empty());
    assert(replaced(seq![from], from, to) =~= to);
    if other.len() == 0 {
        assert(text + other =~= text);
        assert(replaced(other, from, to) =~= Seq::empty());
        assert(replaced(text, from, to) + replaced(other, from, to) =~= replaced(text, from, to));
    } else {
        law_replacement_is_made_everywhere(text, other.drop_last(), from, to);
        assert((text + other).drop_last() =~= text + other.drop_last());
        assert(replaced(text + other, from, to) =~= replaced(text, from, to) + replaced(
            other,
            from,
            to,
        ));
    }
}

proof fn lemma_replaced_without(text: Seq<char>, from: char, to: Seq<char>)
    ensures
        !text.contains(from) ==> replaced(text, from, to) == text,
    decreases text.len(),
{
    if text.len() > 0 && !text.contains(from) {
        let init = text.drop_last();
        assert(!init.contains(from)) by {
            if init.contains(from) {
                let i = choose|i: int| 0 <= i < init.len() && init[i] == from;
                assert(text[i] == from);
            }
        }
        lemma_replaced_without(init, from, to);
        assert(text.contains(text.last()));
        assert(replaced(text, from, to) =~= text);
    }
}

/// A text is cut at the first mark: what comes before it holds none, and both parts
/// with the mark between them are the text. A text without a mark is not cut.
pub proof fn law_text_is_cut_at_the_first_mark(text: Seq<char>, mark: char)
    ensures
        match split_once(text, mark) {
            Some((before, after)) => text == before + seq![mark] + after && !before.contains(mark),
            None => !text.contains(mark),
        },
{
    crate::text::lemma_first_from(text, seq![mark], 0);
    match split_once(text, mark) {
        Some((before, after)) => {
            let at = before.len() as int;
            assert(text.subrange(at, at + 1) =~= seq![text[at]]);
            assert(text.subrange(at, at + 1)[0] == seq![mark][0]);
            assert(text =~= before + seq![mark] + after);
            if before.contains(mark) {
                let i = choose|i: int| 0 <= i < before.len() && before[i] == mark;
                assert(text.subrange(i, i + 1) =~= seq![mark]);
                assert(crate::text::occurs_at(text, seq![mark], i));
            }
        },
        None => {
            if text.contains(mark) {
                let i = choose|i: int| 0 <= i < text.len() && text[i] == mark;
                assert(text.subrange(i, i + 1) =~= seq![mark]);
                assert(crate::text::occurs_at(text, seq![mark], i));
            }
        },
    }
}

/// A number is written with digits alone, without a leading zero, and adding a digit
/// multiplies it by ten.
pub proof fn law_decimal_digits(n: nat)
    ensures
        decimal(n).len() > 0,
        n < 10 ==> decimal(n) == seq![digit(n)],
        n >= 10 ==> decimal(n) == decimal(n / 10).push(digit(n % 10)),
        digit(0) == '0' && digit(1) == '1' && digit(5) == '5' && digit(9) == '9',
{
}

/// A line ends at its line feed, and a carriage return before that belongs to the end;
/// what is not ended by one is a line where it is not empty.
pub proof fn law_line_ends_at_its_feed(line: Seq<char>, rest: Seq<char>)
    requires
        !line.contains('\n'),
    ensures
        lines_of(line + seq!['\n'] + rest) == seq![
            if line.len() > 0 && line.last() == '\r' {
                line.drop_last()
            } else {
                line
            },
        ] + lines_of(rest),
        line.len() > 0 ==> lines_of(line) == seq![line],
        lines_of(Seq::empty()) == Seq::<Seq<char>>::empty(),
{
    let text = line + seq!['\n'] + rest;
    law_text_is_cut_at_the_first_mark(text, '\n');
    law_text_is_cut_at_the_first_mark(line, '\n');
    assert(text[line.len() as int] == '\n');
    assert(text.contains('\n'));
    let (before, after) = split_once(text, '\n')->0;
    let whole = before + seq!['\n'] + after;
    assert(text == whole);
    assert(whole[before.len() as int] == '\n');
    if before.len() < line.len() {
        assert(line[before.len() as int] == text[before.len() as int]);
        assert(line.contains('\n'));
    }
    if before.len() > line.len() {
        assert(before[line.len() as int] == whole[line.len() as int]);
        assert(before.contains('\n'));
    }
    assert(before =~= whole.take(line.len() as int));
    assert(line =~= text.take(line.len() as int));
    assert(after =~= whole.skip(line.len() as int + 1));
    assert(rest =~= text.skip(line.len() as int + 1));
    assert(after.len() < text.len());
    assert(split_once(line, '\n') is None) by {
        if split_once(line, '\n') is Some {
            let (front, back) = split_once(line, '\n')->0;
            assert(line[front.len() as int] == '\n');
            assert(line.contains('\n'));
        }
    }
}

/// The first word of a text is a run without white space, with nothing but white space
/// before it and none or white space behind it; only a blank text has none.
pub proof fn law_first_word_is_the_first(text: Seq<char>)
    ensures
        first_word(text) matches Some(word) ==> word.len() > 0 && (exists|from: int|
            0 <= from <= text.len() - word.len() && #[trigger] text.subrange(
                from,
                from + word.len(),
            ) == word && (forall|i: int| 0 <= i < from ==> white_space(#[trigger] text[i])) && (
            from + word.len() == text.len() || white_space(text[from + word.len()])) && (forall|
                i: int,
            |
                0 <= i < word.len() ==> !white_space(#[trigger] word[i]))),
        first_word(text) is None ==> forall|i: int|
            0 <= i < text.len() ==> white_space(#[trigger] text[i]),
{
    let rest = strip_leading(text, CharClass::WhiteSpace);
    lemma_leading_part(text, CharClass::WhiteSpace);
    lemma_strip_leading(text, CharClass::WhiteSpace);
    lemma_word_length(rest);
    lemma_word_ends(rest);
    let from = text.len() - rest.len();
    if let Some(word) = first_word(text) {
        let length = word_length(rest) as int;
        assert(text.subrange(from, from + word.len()) =~= rest.take(length));
        assert(from + length < text.len() ==> text[from + length] == rest[length]);
        assert forall|i: int| 0 <= i < word.len() implies !white_space(#[trigger] word[i]) by {
            assert(word[i] == rest[i]);
        }
    }
}

proof fn lemma_word_ends(text: Seq<char>)
    ensures
        word_length(text) < text.len() ==> white_space(text[word_length(text) as int]),
    decreases text.len(),
{
    if text.len() > 0 && !white_space(text[0]) {
        let rest = text.drop_first();
        lemma_word_ends(rest);
        lemma_word_length(rest);
        if word_length(text) < text.len() {
            assert(text[word_length(text) as int] == rest[word_length(rest) as int]);
        }
    }
}

} // verus!
