//! Text as a sequence of characters: searching, trimming, splitting and
//! joining, each stated over `Seq<char>` and proved for the executable form.

use vstd::prelude::*;

verus! {

/// `String::push` appends one character to the end of the text.
pub assume_specification[ String::push ](text: &mut String, c: char)
    ensures
        final(text)@ == old(text)@.push(c),
;

/// The characters of `text`, in order.
pub fn chars_of(text: &str) -> (chars: Vec<char>)
    ensures
        chars@ == text@,
{
    let mut chars: Vec<char> = Vec::new();
    for c in it: text.chars()
        invariant
            chars@ == it.seq().take(it.index()),
            it.seq() == text@,
    {
        chars.push(c);
    }
    chars
}

/// The text made of `chars[from..to]`.
pub fn text_of(chars: &Vec<char>, from: usize, to: usize) -> (text: String)
    requires
        from <= to <= chars@.len(),
    ensures
        text@ == chars@.subrange(from as int, to as int),
{
    let mut text = String::new();
    let mut i: usize = from;
    while i < to
        invariant
            from <= i <= to <= chars@.len(),
            text@ == chars@.subrange(from as int, i as int),
        decreases to - i,
    {
        text.push(chars[i]);
        i = i + 1;
        assert(text@ =~= chars@.subrange(from as int, i as int));
    }
    text
}

/// Whether two texts hold the same characters.
pub fn same(left: &str, right: &str) -> (equal: bool)
    ensures
        equal == (left@ == right@),
{
    let a = chars_of(left);
    let b = chars_of(right);
    if a.len() != b.len() {
        return false;
    }
    let mut i: usize = 0;
    while i < a.len()
        invariant
            i <= a@.len(),
            a@.len() == b@.len(),
            a@ == left@,
            b@ == right@,
            forall|j: int| 0 <= j < i ==> a@[j] == b@[j],
        decreases a@.len() - i,
    {
        if a[i] != b[i] {
            return false;
        }
        i = i + 1;
    }
    assert(a@ =~= b@);
    true
}

/// Whether an optional text is present and holds the characters of `wanted`.
pub fn is_text(held: &Option<String>, wanted: &str) -> (equal: bool)
    ensures
        equal == (held.deep_view() == Some(wanted@)),
{
    match held {
        Some(text) => same(text.as_str(), wanted),
        None => false,
    }
}

/// Whether some element of `list` holds the characters of `wanted`.
pub fn list_has(list: &Vec<String>, wanted: &str) -> (found: bool)
    ensures
        found == list.deep_view().contains(wanted@),
{
    let mut i: usize = 0;
    while i < list.len()
        invariant
            i <= list@.len(),
            forall|j: int| 0 <= j < i ==> list.deep_view()[j] != wanted@,
        decreases list@.len() - i,
    {
        if same(list[i].as_str(), wanted) {
            assert(list.deep_view()[i as int] == wanted@);
            return true;
        }
        i = i + 1;
    }
    false
}

// ---------------------------------------------------------------------------
// Concatenation
// ---------------------------------------------------------------------------

/// A list without texts.
pub fn no_texts() -> (list: Vec<String>)
    ensures
        list@.len() == 0,
        list.deep_view() == Seq::<Seq<char>>::empty(),
{
    let list: Vec<String> = Vec::new();
    assert(list.deep_view() =~= Seq::empty());
    list
}

/// A result of texts, seen as its characters.
pub open spec fn texts(result: Result<String, String>) -> Result<Seq<char>, Seq<char>> {
    match result {
        Ok(value) => Ok(value@),
        Err(message) => Err(message@),
    }
}

/// `a` followed by `b`.
pub fn cat2(a: &str, b: &str) -> (text: String)
    ensures
        text@ == a@ + b@,
{
    let mut text = a.to_string();
    text.append(b);
    text
}

/// `a`, `b` and `c` one after another.
pub fn cat3(a: &str, b: &str, c: &str) -> (text: String)
    ensures
        text@ == a@ + b@ + c@,
{
    let mut text = cat2(a, b);
    text.append(c);
    text
}

/// Four texts one after another.
pub fn cat4(a: &str, b: &str, c: &str, d: &str) -> (text: String)
    ensures
        text@ == a@ + b@ + c@ + d@,
{
    let mut text = cat3(a, b, c);
    text.append(d);
    text
}

/// Five texts one after another.
pub fn cat5(a: &str, b: &str, c: &str, d: &str, e: &str) -> (text: String)
    ensures
        text@ == a@ + b@ + c@ + d@ + e@,
{
    let mut text = cat4(a, b, c, d);
    text.append(e);
    text
}

/// Six texts one after another.
pub fn cat6(a: &str, b: &str, c: &str, d: &str, e: &str, f: &str) -> (text: String)
    ensures
        text@ == a@ + b@ + c@ + d@ + e@ + f@,
{
    let mut text = cat5(a, b, c, d, e);
    text.append(f);
    text
}

/// The parts in order with `separator` between neighbours.
pub open spec fn joined(parts: Seq<Seq<char>>, separator: Seq<char>) -> Seq<char>
    decreases parts.len(),
{
    if parts.len() == 0 {
        Seq::empty()
    } else if parts.len() == 1 {
        parts[0]
    } else {
        joined(parts.drop_last(), separator) + separator + parts.last()
    }
}

/// Joins the parts with `separator` between neighbours.
pub fn join(parts: &Vec<String>, separator: &str) -> (text: String)
    ensures
        text@ == joined(parts.deep_view(), separator@),
{
    let mut text = String::new();
    let mut i: usize = 0;
    while i < parts.len()
        invariant
            i <= parts@.len(),
            text@ == joined(parts.deep_view().take(i as int), separator@),
        decreases parts@.len() - i,
    {
        let ghost before = parts.deep_view().take(i as int);
        let ghost after = parts.deep_view().take(i + 1);
        assert(after.drop_last() =~= before);
        assert(after.last() == parts@[i as int]@);
        if i != 0 {
            text.append(separator);
        }
        text.append(parts[i].as_str());
        i = i + 1;
        assert(before.len() == 0 ==> text@ =~= after[0]);
    }
    assert(parts.deep_view().take(i as int) =~= parts.deep_view());
    text
}

// ---------------------------------------------------------------------------
// Searching
// ---------------------------------------------------------------------------

/// `needle` stands in `hay` at position `at`.
pub open spec fn occurs_at(hay: Seq<char>, needle: Seq<char>, at: int) -> bool {
    &&& 0 <= at
    &&& at + needle.len() <= hay.len()
    &&& hay.subrange(at, at + needle.len()) == needle
}

/// `needle` stands somewhere in `hay`.
pub open spec fn has_text(hay: Seq<char>, needle: Seq<char>) -> bool {
    exists|at: int| occurs_at(hay, needle, at)
}

/// The first position at or after `from` where `needle` stands in `hay`.
pub open spec fn first_from(hay: Seq<char>, needle: Seq<char>, from: int) -> Option<int>
    decreases hay.len() - from + 1,
{
    if from < 0 || from + needle.len() > hay.len() {
        None
    } else if occurs_at(hay, needle, from) {
        Some(from)
    } else {
        first_from(hay, needle, from + 1)
    }
}

/// `first_from` is the least position at or after `from`, and is `None` only
/// where there is no such position.
pub proof fn lemma_first_from(hay: Seq<char>, needle: Seq<char>, from: int)
    requires
        0 <= from,
    ensures
        match first_from(hay, needle, from) {
            Some(at) => {
                &&& from <= at
                &&& occurs_at(hay, needle, at)
                &&& forall|j: int| from <= j < at ==> !occurs_at(hay, needle, j)
            },
            None => forall|j: int| from <= j ==> !occurs_at(hay, needle, j),
        },
    decreases hay.len() - from + 1,
{
    if from + needle.len() <= hay.len() && !occurs_at(hay, needle, from) {
        lemma_first_from(hay, needle, from + 1);
    }
}

/// A position that bounds the first one: where `needle` stands at `at` and
/// nowhere in `from..at`, `at` is what `first_from` gives.
pub proof fn lemma_first_from_is(hay: Seq<char>, needle: Seq<char>, from: int, at: int)
    requires
        0 <= from <= at,
        occurs_at(hay, needle, at),
        forall|j: int| from <= j < at ==> !occurs_at(hay, needle, j),
    ensures
        first_from(hay, needle, from) == Some(at),
{
    lemma_first_from(hay, needle, from);
}

fn occurs(hay: &Vec<char>, needle: &Vec<char>, at: usize) -> (found: bool)
    requires
        at + needle@.len() <= hay@.len(),
    ensures
        found == occurs_at(hay@, needle@, at as int),
{
    let length: usize = hay.len();
    let mut i: usize = 0;
    while i < needle.len()
        invariant
            i <= needle@.len(),
            at + needle@.len() <= length,
            length == hay@.len(),
            forall|j: int| 0 <= j < i ==> hay@[at + j] == needle@[j],
        decreases needle@.len() - i,
    {
        if hay[at + i] != needle[i] {
            assert(hay@.subrange(at as int, at + needle@.len())[i as int] == hay@[at + i]);
            return false;
        }
        i = i + 1;
    }
    assert(hay@.subrange(at as int, at + needle@.len()) =~= needle@);
    true
}

/// Finds the first position at or after `from` where `needle` stands.
pub fn find_from(hay: &Vec<char>, needle: &Vec<char>, from: usize) -> (found: Option<usize>)
    ensures
        match found {
            Some(at) => first_from(hay@, needle@, from as int) == Some(at as int),
            None => first_from(hay@, needle@, from as int) is None,
        },
{
    if needle.len() > hay.len() {
        return None;
    }
    let end: usize = hay.len() - needle.len();
    let mut at: usize = from;
    while at < end
        invariant
            from <= at,
            end + needle@.len() == hay@.len(),
            first_from(hay@, needle@, from as int) == first_from(hay@, needle@, at as int),
        decreases end - at,
    {
        if occurs(hay, needle, at) {
            return Some(at);
        }
        at = at + 1;
    }
    if at == end && occurs(hay, needle, at) {
        Some(at)
    } else {
        proof {
            lemma_first_from(hay@, needle@, at as int);
        }
        None
    }
}

/// Whether `needle` stands somewhere in `hay`.
pub fn contains(hay: &str, needle: &str) -> (found: bool)
    ensures
        found == has_text(hay@, needle@),
{
    let found = find_from(&chars_of(hay), &chars_of(needle), 0);
    proof {
        lemma_first_from(hay@, needle@, 0);
    }
    found.is_some()
}

/// The last position where `needle` stands in `hay`.
pub open spec fn last_occurrence(hay: Seq<char>, needle: Seq<char>) -> Option<int> {
    if has_text(hay, needle) {
        Some(
            choose|at: int|
                occurs_at(hay, needle, at) && forall|later: int|
                    at < later ==> !occurs_at(hay, needle, later),
        )
    } else {
        None
    }
}

/// A position where `needle` stands and behind which it does not stand is the
/// last one.
pub proof fn lemma_last_occurrence(hay: Seq<char>, needle: Seq<char>, at: int)
    requires
        occurs_at(hay, needle, at),
        forall|later: int| at < later ==> !occurs_at(hay, needle, later),
    ensures
        last_occurrence(hay, needle) == Some(at),
{
    let chosen = choose|at: int|
        occurs_at(hay, needle, at) && forall|later: int|
            at < later ==> !occurs_at(hay, needle, later);
    assert(occurs_at(hay, needle, chosen));
    assert(!(chosen < at));
    assert(!(at < chosen));
}

/// What stands behind the last place where `mark` stands.
pub open spec fn after_last(text: Seq<char>, mark: Seq<char>) -> Option<Seq<char>> {
    match last_occurrence(text, mark) {
        Some(at) => Some(text.skip(at + mark.len())),
        None => None,
    }
}

/// What stands behind the last place where `mark` stands.
pub fn behind_last(text: &str, mark: &str) -> (rest: Option<String>)
    ensures
        rest.deep_view() == after_last(text@, mark@),
{
    let hay = chars_of(text);
    let needle = chars_of(mark);
    let length: usize = hay.len();
    if needle.len() > length {
        assert(forall|at: int| !occurs_at(hay@, needle@, at));
        return None;
    }
    let mut at: usize = length - needle.len();
    while at > 0
        invariant
            at + needle@.len() <= hay@.len(),
            length == hay@.len(),
            hay@ == text@,
            needle@ == mark@,
            forall|later: int| at < later ==> !occurs_at(hay@, needle@, later),
        decreases at,
    {
        if occurs(&hay, &needle, at) {
            proof {
                lemma_last_occurrence(hay@, needle@, at as int);
            }
            let rest = text_of(&hay, at + needle.len(), length);
            assert(rest@ =~= text@.skip(at + needle@.len()));
            return Some(rest);
        }
        at = at - 1;
    }
    if occurs(&hay, &needle, 0) {
        proof {
            lemma_last_occurrence(hay@, needle@, 0);
        }
        let rest = text_of(&hay, needle.len(), length);
        assert(rest@ =~= text@.skip(needle@.len() as int));
        return Some(rest);
    }
    assert(forall|later: int| !occurs_at(hay@, needle@, later));
    None
}

/// One of the needles stands somewhere in `hay`.
pub open spec fn has_any(hay: Seq<char>, needles: Seq<Seq<char>>) -> bool {
    exists|i: int| 0 <= i < needles.len() && has_text(hay, #[trigger] needles[i])
}

/// Whether one of the needles stands somewhere in `hay`.
pub fn contains_any(hay: &str, needles: &Vec<String>) -> (found: bool)
    ensures
        found == has_any(hay@, needles.deep_view()),
{
    let mut i: usize = 0;
    while i < needles.len()
        invariant
            i <= needles@.len(),
            forall|j: int| 0 <= j < i ==> !has_text(hay@, #[trigger] needles.deep_view()[j]),
        decreases needles@.len() - i,
    {
        if contains(hay, needles[i].as_str()) {
            assert(has_text(hay@, needles.deep_view()[i as int]));
            return true;
        }
        i = i + 1;
    }
    false
}

/// Whether `text` begins with `prefix`.
pub fn begins_with(text: &str, prefix: &str) -> (yes: bool)
    ensures
        yes == prefix@.is_prefix_of(text@),
{
    let hay = chars_of(text);
    let needle = chars_of(prefix);
    if needle.len() > hay.len() {
        return false;
    }
    occurs(&hay, &needle, 0)
}

/// Whether `text` ends with `suffix`.
pub fn ends_with(text: &str, suffix: &str) -> (yes: bool)
    ensures
        yes == suffix@.is_suffix_of(text@),
{
    let hay = chars_of(text);
    let needle = chars_of(suffix);
    if needle.len() > hay.len() {
        return false;
    }
    occurs(&hay, &needle, hay.len() - needle.len())
}

/// What follows `prefix` in `text`, where `text` begins with it.
pub fn after_prefix(text: &str, prefix: &str) -> (rest: Option<String>)
    ensures
        match rest {
            Some(rest) => prefix@.is_prefix_of(text@) && rest@ == text@.skip(prefix@.len() as int),
            None => !prefix@.is_prefix_of(text@),
        },
{
    if !begins_with(text, prefix) {
        return None;
    }
    let hay = chars_of(text);
    let skipped = chars_of(prefix).len();
    Some(text_of(&hay, skipped, hay.len()))
}

/// How often `needle` stands in `hay` at or after `from`, counting from the
/// left and going on behind each place where it was found.
pub open spec fn count_from(hay: Seq<char>, needle: Seq<char>, from: int) -> nat
    decreases hay.len() - from,
{
    match first_from(hay, needle, from) {
        Some(at) if needle.len() > 0 && from <= at && at + needle.len() <= hay.len() => 1
            + count_from(hay, needle, at + needle.len()),
        _ => 0,
    }
}

/// Counts the places where `needle` stands in `hay` without overlap.
pub fn count(hay: &str, needle: &str) -> (total: usize)
    requires
        needle@.len() > 0,
    ensures
        total == count_from(hay@, needle@, 0),
{
    let text = chars_of(hay);
    let wanted = chars_of(needle);
    let length: usize = text.len();
    let mut total: usize = 0;
    let mut from: usize = 0;
    loop
        invariant
            text@ == hay@,
            wanted@ == needle@,
            needle@.len() > 0,
            length == text@.len(),
            from <= length,
            total <= from,
            count_from(hay@, needle@, 0) == total + count_from(hay@, needle@, from as int),
        ensures
            total == count_from(hay@, needle@, 0),
        decreases text@.len() - from,
    {
        let found = find_from(&text, &wanted, from);
        proof {
            lemma_first_from(hay@, needle@, from as int);
        }
        match found {
            Some(at) => {
                total = total + 1;
                from = at + wanted.len();
            },
            None => {
                break;
            },
        }
    }
    total
}

/// What stands in a text stands in a longer one too.
pub proof fn lemma_part_of(front: Seq<char>, text: Seq<char>, back: Seq<char>, part: Seq<char>)
    requires
        has_text(text, part),
    ensures
        has_text(front + text + back, part),
{
    let at = choose|at: int| occurs_at(text, part, at);
    let whole = front + text + back;
    assert(whole.subrange(front.len() + at, front.len() + at + part.len()) =~= text.subrange(
        at,
        at + part.len(),
    ));
    assert(occurs_at(whole, part, front.len() + at));
}

/// Every part stands in the joined text.
pub proof fn lemma_joined_holds(parts: Seq<Seq<char>>, separator: Seq<char>, at: int)
    requires
        0 <= at < parts.len(),
    ensures
        has_text(joined(parts, separator), parts[at]),
    decreases parts.len(),
{
    let whole = joined(parts, separator);
    if parts.len() == 1 {
        assert(whole.subrange(0, whole.len() as int) =~= whole);
        assert(occurs_at(whole, parts[at], 0));
    } else if at == parts.len() - 1 {
        let front = joined(parts.drop_last(), separator) + separator;
        assert(whole =~= front + parts[at]);
        assert(whole.subrange(front.len() as int, whole.len() as int) =~= parts[at]);
        assert(occurs_at(whole, parts[at], front.len() as int));
    } else {
        lemma_joined_holds(parts.drop_last(), separator, at);
        let front = joined(parts.drop_last(), separator);
        lemma_part_of(Seq::empty(), front, separator + parts.last(), parts[at]);
        assert(Seq::<char>::empty() + front + (separator + parts.last()) =~= whole);
    }
}

/// Of the parts of a joined text each stands behind the one before it, with the
/// separator between them; one part stands alone and no part is no text.
pub proof fn law_joined_parts_follow_each_other(
    parts: Seq<Seq<char>>,
    part: Seq<char>,
    separator: Seq<char>,
)
    ensures
        joined(Seq::empty(), separator) == Seq::<char>::empty(),
        joined(seq![part], separator) == part,
        parts.len() > 0 ==> joined(parts.push(part), separator) == joined(parts, separator)
            + separator + part,
{
    assert(parts.push(part).drop_last() =~= parts);
}

/// A text stands in another exactly where the other has it between a beginning and an
/// end.
pub proof fn law_text_stands_between_two_others(hay: Seq<char>, needle: Seq<char>)
    ensures
        has_text(hay, needle) <==> exists|before: Seq<char>, after: Seq<char>|
            hay == #[trigger] (before + needle + after),
{
    if has_text(hay, needle) {
        let at = choose|at: int| occurs_at(hay, needle, at);
        let before = hay.take(at);
        let after = hay.skip(at + needle.len());
        assert(hay =~= before + needle + after);
    }
    if exists|before: Seq<char>, after: Seq<char>| hay == #[trigger] (before + needle + after) {
        let (before, after) = choose|before: Seq<char>, after: Seq<char>|
            hay == #[trigger] (before + needle + after);
        assert(hay.subrange(before.len() as int, before.len() as int + needle.len()) =~= needle);
        assert(occurs_at(hay, needle, before.len() as int));
    }
}

/// What stands behind the last mark holds no further mark, and the text ends with the
/// mark and it.
pub proof fn law_rest_stands_behind_the_last_mark(text: Seq<char>, mark: Seq<char>)
    requires
        mark.len() > 0,
    ensures
        after_last(text, mark) matches Some(rest) ==> (mark + rest).is_suffix_of(text) && !has_text(
            rest,
            mark,
        ),
        after_last(text, mark) is None ==> !has_text(text, mark),
{
    if has_text(text, mark) {
        lemma_greatest_occurrence(text, mark, text.len() as int);
        let at = choose|at: int|
            occurs_at(text, mark, at) && forall|later: int|
                at < later ==> !occurs_at(text, mark, later);
        lemma_last_occurrence(text, mark, at);
        let rest = text.skip(at + mark.len());
        assert(text.subrange(at, at + mark.len()) =~= mark);
        assert(text.subrange(text.len() - (mark + rest).len(), text.len() as int) =~= mark + rest);
        if has_text(rest, mark) {
            let inner = choose|inner: int| occurs_at(rest, mark, inner);
            let place = at + mark.len() + inner;
            assert(text.subrange(place, place + mark.len()) =~= rest.subrange(
                inner,
                inner + mark.len(),
            ));
            assert(occurs_at(text, mark, place));
        }
    }
}

proof fn lemma_greatest_occurrence(text: Seq<char>, mark: Seq<char>, below: int)
    requires
        exists|at: int| at < below && occurs_at(text, mark, at),
        forall|later: int| below <= later ==> !occurs_at(text, mark, later),
    ensures
        exists|at: int|
            occurs_at(text, mark, at) && forall|later: int|
                at < later ==> !occurs_at(text, mark, later),
    decreases below,
{
    let found = choose|at: int| at < below && occurs_at(text, mark, at);
    if occurs_at(text, mark, below - 1) {
        assert(forall|later: int| below - 1 < later ==> !occurs_at(text, mark, later));
    } else {
        assert(found < below - 1);
        lemma_greatest_occurrence(text, mark, below - 1);
    }
}

/// A result of texts is its text or its error, unchanged.
pub proof fn law_value_of_a_result(text: String, error: String)
    ensures
        texts(Ok(text)) == Ok::<Seq<char>, Seq<char>>(text@),
        texts(Err(error)) == Err::<Seq<char>, Seq<char>>(error@),
{
}

/// A text stands at a place exactly where its characters are there, one after the other.
pub proof fn law_occurrence(hay: Seq<char>, needle: Seq<char>, at: int)
    ensures
        occurs_at(hay, needle, at) <==> 0 <= at && at + needle.len() <= hay.len() && forall|i: int|
            0 <= i < needle.len() ==> hay[at + i] == #[trigger] needle[i],
{
    if 0 <= at && at + needle.len() <= hay.len() {
        let part = hay.subrange(at, at + needle.len());
        if occurs_at(hay, needle, at) {
            assert forall|i: int| 0 <= i < needle.len() implies hay[at + i] == #[trigger] needle[
                i] by {
                assert(part[i] == hay[at + i]);
            }
        }
        if forall|i: int| 0 <= i < needle.len() ==> hay[at + i] == #[trigger] needle[i] {
            assert(part =~= needle);
        }
    }
}

/// One of several texts stands in another exactly where the last of them does, or one
/// of the rest.
pub proof fn law_any_of_several(hay: Seq<char>, needles: Seq<Seq<char>>, needle: Seq<char>)
    ensures
        has_any(hay, needles.push(needle)) <==> has_any(hay, needles) || has_text(hay, needle),
        !has_any(hay, Seq::empty()),
{
    let all = needles.push(needle);
    if has_any(hay, needles) {
        let i = choose|i: int| 0 <= i < needles.len() && has_text(hay, #[trigger] needles[i]);
        assert(has_text(hay, all[i]));
    }
    if has_text(hay, needle) {
        assert(has_text(hay, all[needles.len() as int]));
    }
    if has_any(hay, all) {
        let i = choose|i: int| 0 <= i < all.len() && has_text(hay, #[trigger] all[i]);
        if i < needles.len() {
            assert(has_text(hay, needles[i]));
        }
    }
}

} // verus!
