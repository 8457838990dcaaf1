//! Versions of the runtime, of Node.js and of npm.

use vstd::prelude::*;

use crate::text::{lemma_first_from, lemma_first_from_is, occurs_at};
use crate::trim::{decimal, split_once};

verus! {

/// A parsed version: its numbers, and its pre-release and build texts, which
/// are empty where the version has none.
pub struct VersionParts {
    pub major: u64,
    pub minor: u64,
    pub patch: u64,
    pub pre: String,
    pub build: String,
}

/// The contents of a [`VersionParts`].
#[verifier::ext_equal]
pub struct VersionView {
    pub major: nat,
    pub minor: nat,
    pub patch: nat,
    pub pre: Seq<char>,
    pub build: Seq<char>,
}

impl View for VersionParts {
    type V = VersionView;

    open spec fn view(&self) -> VersionView {
        VersionView {
            major: self.major as nat,
            minor: self.minor as nat,
            patch: self.patch as nat,
            pre: self.pre@,
            build: self.build@,
        }
    }
}

/// How one version stands to another.
#[derive(Clone, Copy, Debug, PartialEq, Eq, Structural)]
pub enum VersionOrder {
    Older,
    Same,
    Newer,
}

/// The order seen from the other side.
pub open spec fn reversed(order: VersionOrder) -> VersionOrder {
    match order {
        VersionOrder::Older => VersionOrder::Newer,
        VersionOrder::Same => VersionOrder::Same,
        VersionOrder::Newer => VersionOrder::Older,
    }
}

/// A character of a pre-release or build identifier.
pub open spec fn identifier_char(c: char) -> bool {
    '0' <= c <= '9' || 'a' <= c <= 'z' || 'A' <= c <= 'Z' || c == '-'
}

/// `start..end` is one of the identifiers that dots separate in `text`.
pub open spec fn is_segment(text: Seq<char>, start: int, end: int) -> bool {
    &&& 0 <= start <= end <= text.len()
    &&& start == 0 || text[start - 1] == '.'
    &&& end == text.len() || text[end] == '.'
    &&& forall|i: int| start <= i < end ==> text[i] != '.'
}

/// Every character is a dot or belongs to an identifier, and no identifier is
/// empty.
pub open spec fn identifiers(text: Seq<char>) -> bool {
    &&& forall|i: int| 0 <= i < text.len() ==> text[i] == '.' || #[trigger] identifier_char(text[i])
    &&& forall|start: int, end: int| #[trigger] is_segment(text, start, end) ==> start < end
}

/// An identifier of more than one digit does not begin with a zero.
pub open spec fn no_leading_zeros(text: Seq<char>) -> bool {
    forall|start: int, end: int| #[trigger]
        is_segment(text, start, end) && end - start > 1 && text[start] == '0' ==> exists|i: int|
            start <= i < end && !('0' <= #[trigger] text[i] <= '9')
}

impl VersionView {
    /// The texts are what a version may hold behind `-` and `+`.
    pub open spec fn valid(self) -> bool {
        &&& self.pre.len() == 0 || (identifiers(self.pre) && no_leading_zeros(self.pre))
        &&& self.build.len() == 0 || identifiers(self.build)
        &&& self.major <= u64::MAX
        &&& self.minor <= u64::MAX
        &&& self.patch <= u64::MAX
    }

    /// A version without pre-release and build texts.
    pub open spec fn release(major: nat, minor: nat, patch: nat) -> VersionView {
        VersionView { major, minor, patch, pre: Seq::empty(), build: Seq::empty() }
    }
}

/// What `semver::Version::parse` makes of a text: the parts of the version, or
/// the message of the error.
pub uninterp spec fn semver_parse(text: Seq<char>) -> Result<VersionView, Seq<char>>;

/// The order of the three numbers, compared from left to right.
pub open spec fn release_order(left: VersionView, right: VersionView) -> VersionOrder {
    if left.major != right.major {
        number_order(left.major as int, right.major as int)
    } else if left.minor != right.minor {
        number_order(left.minor as int, right.minor as int)
    } else {
        number_order(left.patch as int, right.patch as int)
    }
}

/// The order of two numbers.
pub open spec fn number_order(left: int, right: int) -> VersionOrder {
    if left < right {
        VersionOrder::Older
    } else if left == right {
        VersionOrder::Same
    } else {
        VersionOrder::Newer
    }
}

/// The texts between the dots of a text.
pub open spec fn dot_parts(text: Seq<char>) -> Seq<Seq<char>>
    decreases text.len(),
{
    match split_once(text, '.') {
        Some((part, rest)) if rest.len() < text.len() => seq![part] + dot_parts(rest),
        _ => seq![text],
    }
}

/// The text holds digits alone.
pub open spec fn all_digits(text: Seq<char>) -> bool {
    forall|i: int| 0 <= i < text.len() ==> '0' <= #[trigger] text[i] <= '9'
}

/// The number that digits write.
pub open spec fn numeral(digits: Seq<char>) -> int
    decreases digits.len(),
{
    if digits.len() == 0 {
        0
    } else {
        numeral(digits.drop_last()) * 10 + (digits.last() as int - '0' as int)
    }
}

/// What an identifier is ordered by, number after number: digits alone come
/// before anything else and are ordered by the number that they write, with fewer
/// leading zeros first; others are ordered by their characters.
pub open spec fn identifier_key(identifier: Seq<char>) -> Seq<int> {
    if all_digits(identifier) {
        seq![0, numeral(identifier), identifier.len() as int]
    } else {
        seq![1] + identifier.map_values(|c: char| c as int)
    }
}

/// What the identifiers of a text are ordered by.
pub open spec fn identifier_keys(text: Seq<char>) -> Seq<Seq<int>> {
    dot_parts(text).map_values(|identifier: Seq<char>| identifier_key(identifier))
}

/// The order of two lists of numbers, as in a dictionary.
pub open spec fn key_order(left: Seq<int>, right: Seq<int>) -> VersionOrder
    decreases left.len(),
{
    if left.len() == 0 || right.len() == 0 {
        number_order(left.len() as int, right.len() as int)
    } else if left[0] != right[0] {
        number_order(left[0], right[0])
    } else {
        key_order(left.drop_first(), right.drop_first())
    }
}

/// The order of two lists of keys, as in a dictionary.
pub open spec fn keys_order(left: Seq<Seq<int>>, right: Seq<Seq<int>>) -> VersionOrder
    decreases left.len(),
{
    if left.len() == 0 || right.len() == 0 {
        number_order(left.len() as int, right.len() as int)
    } else if key_order(left[0], right[0]) != VersionOrder::Same {
        key_order(left[0], right[0])
    } else {
        keys_order(left.drop_first(), right.drop_first())
    }
}

/// The order of two pre-release texts: none is newer than any.
pub open spec fn prerelease_order(left: Seq<char>, right: Seq<char>) -> VersionOrder {
    if left.len() == 0 && right.len() == 0 {
        VersionOrder::Same
    } else if left.len() == 0 {
        VersionOrder::Newer
    } else if right.len() == 0 {
        VersionOrder::Older
    } else {
        keys_order(identifier_keys(left), identifier_keys(right))
    }
}

/// The order of two versions: by their numbers from left to right, then by their
/// pre-release texts, then by their build texts.
pub open spec fn precedence(left: VersionView, right: VersionView) -> VersionOrder {
    if release_order(left, right) != VersionOrder::Same {
        release_order(left, right)
    } else if prerelease_order(left.pre, right.pre) != VersionOrder::Same {
        prerelease_order(left.pre, right.pre)
    } else {
        keys_order(identifier_keys(left.build), identifier_keys(right.build))
    }
}

/// Calls `semver::Version::parse`. The numbers and texts are those of the
/// version, `pre` and `build` keep to the syntax that the crate documents for
/// `Prerelease` and `BuildMetadata`, and an error is its message. Which texts
/// are versions is left to the crate.
#[verifier::external_body]
pub(crate) fn parse_version(text: &str) -> (parsed: Result<VersionParts, String>)
    ensures
        match parsed {
            Ok(parts) => semver_parse(text@) == Ok::<VersionView, Seq<char>>(parts@)
                && parts@.valid(),
            Err(message) => semver_parse(text@) == Err::<VersionView, Seq<char>>(message@),
        },
{
    match semver::Version::parse(text) {
        Ok(version) => Ok(
            VersionParts {
                major: version.major,
                minor: version.minor,
                patch: version.patch,
                pre: version.pre.as_str().to_string(),
                build: version.build.as_str().to_string(),
            },
        ),
        Err(error) => Err(error.to_string()),
    }
}

/// Calls the comparison of two `semver::Version` values. It is the order that the
/// crate documents for `Version`, `Prerelease` and `BuildMetadata`, and only equal
/// versions are the same.
#[verifier::external_body]
pub(crate) fn compare_parts(left: &VersionParts, right: &VersionParts) -> (order: VersionOrder)
    requires
        left@.valid(),
        right@.valid(),
    ensures
        order == precedence(left@, right@),
        order == VersionOrder::Same <==> left@ == right@,
{
    let parts = |v: &VersionParts| semver::Version {
        major: v.major,
        minor: v.minor,
        patch: v.patch,
        pre: semver::Prerelease::new(&v.pre).unwrap(),
        build: semver::BuildMetadata::new(&v.build).unwrap(),
    };
    match parts(left).cmp(&parts(right)) {
        std::cmp::Ordering::Less => VersionOrder::Older,
        std::cmp::Ordering::Equal => VersionOrder::Same,
        std::cmp::Ordering::Greater => VersionOrder::Newer,
    }
}

/// The text that `{:?}` gives for a text.
pub uninterp spec fn debug_form(text: Seq<char>) -> Seq<char>;

/// Every character is a printable one of ASCII, and none is a double quotation
/// mark or a backslash.
pub open spec fn plain_ascii(text: Seq<char>) -> bool {
    forall|i: int|
        0 <= i < text.len() ==> ' ' <= #[trigger] text[i] <= '~' && text[i] != '"' && text[i]
            != '\\'
}

/// Calls the `Debug` formatting of `str`: the text between double quotation
/// marks, with escapes. Printable ASCII other than the quotation mark and the
/// backslash stays as it is; which other characters are escaped is left to the
/// standard library.
#[verifier::external_body]
pub(crate) fn debug_text(text: &str) -> (shown: String)
    ensures
        shown@ == debug_form(text@),
        plain_ascii(text@) ==> shown@ == seq!['"'] + text@ + seq!['"'],
{
    format!("{text:?}")
}

/// How `candidate` stands to `active`. The numbers decide from left to right;
/// a release is newer than its own pre-releases.
pub fn order_versions(candidate: &VersionParts, active: &VersionParts) -> (order: VersionOrder)
    requires
        candidate@.valid(),
        active@.valid(),
    ensures
        order == precedence(candidate@, active@),
        order == reversed(precedence(active@, candidate@)),
        order == VersionOrder::Same <==> candidate@ == active@,
{
    proof {
        lemma_precedence_turned(candidate@, active@);
    }
    compare_parts(candidate, active)
}

/// The order as the standard library writes it.
pub open spec fn std_order(order: VersionOrder) -> std::cmp::Ordering {
    match order {
        VersionOrder::Older => std::cmp::Ordering::Less,
        VersionOrder::Same => std::cmp::Ordering::Equal,
        VersionOrder::Newer => std::cmp::Ordering::Greater,
    }
}

fn to_std_order(order: VersionOrder) -> (converted: std::cmp::Ordering)
    ensures
        converted == std_order(order),
{
    match order {
        VersionOrder::Older => std::cmp::Ordering::Less,
        VersionOrder::Same => std::cmp::Ordering::Equal,
        VersionOrder::Newer => std::cmp::Ordering::Greater,
    }
}

/// The message for a candidate that is no version.
pub open spec fn invalid_candidate(candidate: Seq<char>, error: Seq<char>) -> Seq<char> {
    "候选 DSH 版本 "@ + debug_form(candidate) + " 无效："@ + error
}

/// The message for an active version that is no version.
pub open spec fn invalid_active(active: Seq<char>, error: Seq<char>) -> Seq<char> {
    "当前 DSH 版本 "@ + debug_form(active) + " 无效："@ + error
}

/// How two version texts stand to each other; the candidate is parsed first.
pub open spec fn text_order(candidate: Seq<char>, active: Seq<char>) -> Result<
    VersionOrder,
    Seq<char>,
> {
    match (semver_parse(candidate), semver_parse(active)) {
        (Err(error), _) => Err(invalid_candidate(candidate, error)),
        (Ok(_), Err(error)) => Err(invalid_active(active, error)),
        (Ok(new), Ok(old)) => Ok(precedence(new, old)),
    }
}

/// Compares the texts of two versions.
pub fn compare_version_texts(candidate: &str, active: &str) -> (order: Result<VersionOrder, String>)
    ensures
        match order {
            Ok(found) => text_order(candidate@, active@) == Ok::<VersionOrder, Seq<char>>(found),
            Err(message) => text_order(candidate@, active@) == Err::<VersionOrder, Seq<char>>(
                message@,
            ),
        },
{
    match parse_version(candidate) {
        Err(error) => Err(
            crate::text::cat4(
                "候选 DSH 版本 ",
                debug_text(candidate).as_str(),
                " 无效：",
                error.as_str(),
            ),
        ),
        Ok(new) => match parse_version(active) {
            Err(error) => Err(
                crate::text::cat4(
                    "当前 DSH 版本 ",
                    debug_text(active).as_str(),
                    " 无效：",
                    error.as_str(),
                ),
            ),
            Ok(old) => Ok(order_versions(&new, &old)),
        },
    }
}

/// Compares the texts of two versions of the runtime.
pub fn compare_runtime_versions(candidate: &str, active: &str) -> (order: Result<
    std::cmp::Ordering,
    String,
>)
    ensures
        match order {
            Ok(found) => text_order(candidate@, active@) is Ok && found == std_order(
                text_order(candidate@, active@)->Ok_0,
            ),
            Err(message) => text_order(candidate@, active@) == Err::<VersionOrder, Seq<char>>(
                message@,
            ),
        },
{
    match compare_version_texts(candidate, active) {
        Ok(order) => Ok(to_std_order(order)),
        Err(message) => Err(message),
    }
}

/// Why a text is no version.
pub open spec fn version_fault(text: Seq<char>) -> Option<Seq<char>> {
    match semver_parse(text) {
        Ok(_) => None,
        Err(error) => Some(error),
    }
}

/// Why a text is no version.
pub fn fault_of_version(text: &str) -> (fault: Option<String>)
    ensures
        fault.deep_view() == version_fault(text@),
{
    match parse_version(text) {
        Ok(_) => None,
        Err(error) => Some(error),
    }
}

/// Why a text that was read is no version: `None` also where nothing was read.
pub open spec fn named_fault(named: Result<Seq<char>, Seq<char>>) -> Option<Seq<char>> {
    match named {
        Ok(text) => version_fault(text),
        Err(_) => None,
    }
}

/// Why a text that was read is no version.
pub fn fault_of_named(named: &Result<String, String>) -> (fault: Option<String>)
    ensures
        fault.deep_view() == named_fault(crate::text::texts(*named)),
{
    match named {
        Ok(text) => fault_of_version(text.as_str()),
        Err(_) => None,
    }
}

/// Both texts are versions, and `candidate` is the newer.
pub open spec fn newer(candidate: Seq<char>, active: Seq<char>) -> bool {
    text_order(candidate, active) == Ok::<VersionOrder, Seq<char>>(VersionOrder::Newer)
}

proof fn lemma_key_order(left: Seq<int>, right: Seq<int>)
    ensures
        key_order(left, right) == reversed(key_order(right, left)),
        key_order(left, right) == VersionOrder::Same <==> left == right,
    decreases left.len(),
{
    if left.len() > 0 && right.len() > 0 && left[0] == right[0] {
        lemma_key_order(left.drop_first(), right.drop_first());
        assert(left =~= seq![left[0]] + left.drop_first());
        assert(right =~= seq![right[0]] + right.drop_first());
    } else if left.len() == 0 && right.len() == 0 {
        assert(left =~= right);
    }
}

proof fn lemma_key_order_chains(first: Seq<int>, second: Seq<int>, third: Seq<int>)
    requires
        key_order(first, second) == VersionOrder::Newer,
        key_order(second, third) == VersionOrder::Newer,
    ensures
        key_order(first, third) == VersionOrder::Newer,
    decreases first.len(),
{
    if first.len() > 0 && second.len() > 0 && third.len() > 0 && first[0] == second[0] && second[0]
        == third[0] {
        lemma_key_order_chains(first.drop_first(), second.drop_first(), third.drop_first());
    }
}

proof fn lemma_keys_order(left: Seq<Seq<int>>, right: Seq<Seq<int>>)
    ensures
        keys_order(left, right) == reversed(keys_order(right, left)),
        keys_order(left, right) == VersionOrder::Same <==> left == right,
    decreases left.len(),
{
    if left.len() > 0 && right.len() > 0 {
        lemma_key_order(left[0], right[0]);
        lemma_keys_order(left.drop_first(), right.drop_first());
        assert(left =~= seq![left[0]] + left.drop_first());
        assert(right =~= seq![right[0]] + right.drop_first());
    } else if left.len() == 0 && right.len() == 0 {
        assert(left =~= right);
    }
}

proof fn lemma_keys_order_chains(
    first: Seq<Seq<int>>,
    second: Seq<Seq<int>>,
    third: Seq<Seq<int>>,
)
    requires
        keys_order(first, second) == VersionOrder::Newer,
        keys_order(second, third) == VersionOrder::Newer,
    ensures
        keys_order(first, third) == VersionOrder::Newer,
    decreases first.len(),
{
    if first.len() > 0 && second.len() > 0 && third.len() > 0 {
        lemma_key_order(first[0], second[0]);
        lemma_key_order(second[0], third[0]);
        lemma_key_order(first[0], third[0]);
        if key_order(first[0], second[0]) == VersionOrder::Newer && key_order(second[0], third[0])
            == VersionOrder::Newer {
            lemma_key_order_chains(first[0], second[0], third[0]);
        } else if first[0] == second[0] && second[0] == third[0] {
            lemma_keys_order_chains(first.drop_first(), second.drop_first(), third.drop_first());
        }
    }
}

proof fn lemma_precedence_turned(left: VersionView, right: VersionView)
    ensures
        precedence(left, right) == reversed(precedence(right, left)),
{
    lemma_keys_order(identifier_keys(left.pre), identifier_keys(right.pre));
    lemma_keys_order(identifier_keys(left.build), identifier_keys(right.build));
}

proof fn lemma_precedence_chains(first: VersionView, second: VersionView, third: VersionView)
    requires
        precedence(first, second) == VersionOrder::Newer,
        precedence(second, third) == VersionOrder::Newer,
    ensures
        precedence(first, third) == VersionOrder::Newer,
{
    let (a, b, c) = (
        identifier_keys(first.pre),
        identifier_keys(second.pre),
        identifier_keys(third.pre),
    );
    let (x, y, z) = (
        identifier_keys(first.build),
        identifier_keys(second.build),
        identifier_keys(third.build),
    );
    lemma_keys_order(a, b);
    lemma_keys_order(b, c);
    lemma_keys_order(a, c);
    lemma_keys_order(x, y);
    lemma_keys_order(y, z);
    lemma_keys_order(x, z);
    if keys_order(a, b) == VersionOrder::Newer && keys_order(b, c) == VersionOrder::Newer {
        lemma_keys_order_chains(a, b, c);
    }
    if keys_order(x, y) == VersionOrder::Newer && keys_order(y, z) == VersionOrder::Newer {
        lemma_keys_order_chains(x, y, z);
    }
}

/// No build text comes before none.
proof fn lemma_empty_build_is_least(build: Seq<char>, empty: Seq<char>)
    requires
        empty.len() == 0,
    ensures
        keys_order(identifier_keys(build), identifier_keys(empty)) != VersionOrder::Older,
{
    lemma_first_from(empty, seq!['.'], 0);
    assert(dot_parts(empty) =~= seq![empty]);
    assert(identifier_keys(empty) =~= seq![identifier_key(empty)]);
    assert(identifier_key(empty) =~= seq![0int, 0, 0]);
    let keys = identifier_keys(build);
    assert(dot_parts(build).len() > 0);
    let first = dot_parts(build)[0];
    assert(keys[0] == identifier_key(first));
    lemma_numeral(first);
    let left = keys[0];
    let right = seq![0int, 0, 0];
    assert(key_order(left, right) != VersionOrder::Older) by {
        if all_digits(first) {
            assert(left.drop_first() =~= seq![numeral(first), first.len() as int]);
            assert(right.drop_first() =~= seq![0int, 0]);
            assert(left.drop_first().drop_first() =~= seq![first.len() as int]);
            assert(right.drop_first().drop_first() =~= seq![0int]);
            let (long, short) = (seq![first.len() as int], seq![0int]);
            assert(key_order(long.drop_first(), short.drop_first()) == VersionOrder::Same);
            assert(key_order(long, short) != VersionOrder::Older);
            assert(key_order(left.drop_first(), right.drop_first()) != VersionOrder::Older);
        }
    }
    let rest = identifier_keys(empty).drop_first();
    assert(keys_order(keys.drop_first(), rest) != VersionOrder::Older);
}

proof fn lemma_numeral(digits: Seq<char>)
    ensures
        all_digits(digits) ==> numeral(digits) >= 0,
    decreases digits.len(),
{
    if all_digits(digits) && digits.len() > 0 {
        assert(all_digits(digits.drop_last()));
        lemma_numeral(digits.drop_last());
        assert('0' <= digits[digits.len() - 1]);
    }
}

/// Being newer is a strict order: no text is newer than itself, of two at most one
/// is newer, what is newer than something newer is newer, and a text that is no
/// version is neither newer nor older than anything.
pub proof fn law_newer_is_a_strict_order(first: Seq<char>, second: Seq<char>, third: Seq<char>)
    ensures
        !newer(first, first),
        newer(first, second) ==> !newer(second, first),
        newer(first, second) && newer(second, third) ==> newer(first, third),
        version_fault(first) is Some || version_fault(second) is Some ==> !newer(first, second),
{
    if semver_parse(first) is Ok {
        lemma_precedence_turned(semver_parse(first)->Ok_0, semver_parse(first)->Ok_0);
    }
    if semver_parse(first) is Ok && semver_parse(second) is Ok {
        lemma_precedence_turned(semver_parse(first)->Ok_0, semver_parse(second)->Ok_0);
    }
    if newer(first, second) && newer(second, third) {
        lemma_precedence_chains(
            semver_parse(first)->Ok_0,
            semver_parse(second)->Ok_0,
            semver_parse(third)->Ok_0,
        );
    }
}

proof fn lemma_decimal(n: nat)
    ensures
        all_digits(decimal(n)),
        numeral(decimal(n)) == n,
        decimal(n).len() > 0,
    decreases n,
{
    if n < 10 {
        let text = decimal(n);
        assert(text.drop_last().len() == 0);
        assert(numeral(text.drop_last()) == 0);
    } else {
        lemma_decimal(n / 10);
        let text = decimal(n);
        assert(text.drop_last() =~= decimal(n / 10));
        assert forall|i: int| 0 <= i < text.len() implies '0' <= #[trigger] text[i] <= '9' by {
            if i < text.len() - 1 {
                assert(text[i] == decimal(n / 10)[i]);
            }
        }
    }
}

/// A text without a dot, then a dot, then a text without a dot.
proof fn lemma_two_parts(tag: Seq<char>, rest: Seq<char>)
    requires
        !tag.contains('.'),
        !rest.contains('.'),
    ensures
        dot_parts(tag + seq!['.'] + rest) == seq![tag, rest],
{
    let dot = seq!['.'];
    let whole = tag + dot + rest;
    let at = tag.len() as int;
    assert(whole.subrange(at, at + 1) =~= dot);
    assert forall|j: int| 0 <= j < at implies !occurs_at(whole, dot, j) by {
        if occurs_at(whole, dot, j) {
            assert(whole.subrange(j, j + 1)[0] == tag[j]);
            assert(tag.contains(tag[j]));
        }
    }
    lemma_first_from_is(whole, dot, 0, at);
    assert(whole.take(at) =~= tag);
    assert(whole.skip(at + 1) =~= rest);
    assert(forall|j: int| !occurs_at(rest, dot, j)) by {
        assert forall|j: int| !occurs_at(rest, dot, j) by {
            if occurs_at(rest, dot, j) {
                assert(rest.subrange(j, j + 1)[0] == rest[j]);
                assert(rest.contains(rest[j]));
            }
        }
    }
    lemma_first_from(rest, dot, 0);
    assert(dot_parts(rest) =~= seq![rest]);
    assert(dot_parts(whole) =~= seq![tag, rest]);
}

/// Numbered pre-releases are ordered by their numbers, so that a ninth comes before
/// a tenth.
pub proof fn law_numbered_prereleases_follow_their_numbers(
    left: VersionView,
    right: VersionView,
    tag: Seq<char>,
    earlier: nat,
    later: nat,
)
    requires
        release_order(left, right) == VersionOrder::Same,
        !tag.contains('.'),
        left.pre == tag + seq!['.'] + decimal(earlier),
        right.pre == tag + seq!['.'] + decimal(later),
        earlier < later,
    ensures
        precedence(left, right) == VersionOrder::Older,
        precedence(right, left) == VersionOrder::Newer,
{
    let (low, high) = (decimal(earlier), decimal(later));
    lemma_decimal(earlier);
    lemma_decimal(later);
    assert(!low.contains('.')) by {
        if low.contains('.') {
            let i = choose|i: int| 0 <= i < low.len() && low[i] == '.';
            assert('0' <= low[i]);
        }
    }
    assert(!high.contains('.')) by {
        if high.contains('.') {
            let i = choose|i: int| 0 <= i < high.len() && high[i] == '.';
            assert('0' <= high[i]);
        }
    }
    lemma_two_parts(tag, low);
    lemma_two_parts(tag, high);
    let a = identifier_keys(left.pre);
    let b = identifier_keys(right.pre);
    assert(a =~= seq![identifier_key(tag), identifier_key(low)]);
    assert(b =~= seq![identifier_key(tag), identifier_key(high)]);
    lemma_key_order(a[0], b[0]);
    let (x, y) = (identifier_key(low), identifier_key(high));
    assert(x.drop_first() =~= seq![earlier as int, low.len() as int]);
    assert(y.drop_first() =~= seq![later as int, high.len() as int]);
    assert(key_order(x.drop_first(), y.drop_first()) == VersionOrder::Older);
    assert(key_order(x, y) == VersionOrder::Older);
    assert(a.drop_first()[0] == x && b.drop_first()[0] == y);
    assert(keys_order(a.drop_first(), b.drop_first()) == VersionOrder::Older);
    assert(keys_order(a, b) == VersionOrder::Older);
    lemma_precedence_turned(left, right);
}

/// A release is newer than each of its pre-releases.
pub proof fn law_release_follows_its_prereleases(release: VersionView, other: VersionView)
    requires
        release_order(release, other) == VersionOrder::Same,
        release.pre.len() == 0,
        other.pre.len() > 0,
    ensures
        precedence(release, other) == VersionOrder::Newer,
        precedence(other, release) == VersionOrder::Older,
{
}

/// Whether both texts are versions and `candidate` is the newer one. Of two
/// texts at most one is newer than the other, and none is newer than itself.
pub fn version_is_newer(candidate: &str, active: &str) -> (yes: bool)
    ensures
        yes == newer(candidate@, active@),
        yes ==> !newer(active@, candidate@),
        yes ==> candidate@ != active@,
{
    proof {
        law_newer_is_a_strict_order(candidate@, active@, candidate@);
    }
    match parse_version(candidate) {
        Err(_) => false,
        Ok(new) => match parse_version(active) {
            Err(_) => false,
            Ok(old) => matches!(order_versions(&new, &old), VersionOrder::Newer),
        },
    }
}

/// Node.js 22 from 22.19.0 on, and every release line from 24 on. A pre-release
/// of 22.19.0 comes before it.
pub open spec fn supported_node(version: VersionView) -> bool {
    ||| version.major >= 24
    ||| version.major == 22 && version.minor > 19
    ||| version.major == 22 && version.minor == 19 && (version.patch > 0 || version.pre.len() == 0)
}

/// Whether the runtime can run on this version of Node.js.
pub fn supported_node_release(version: &VersionParts) -> (yes: bool)
    requires
        version@.valid(),
    ensures
        yes == supported_node(version@),
{
    let first = plain_release(22, 19, 0);
    (version.major == 22 && !matches!(compare_with_release(version, &first), VersionOrder::Older))
        || version.major >= 24
}

fn plain_release(major: u64, minor: u64, patch: u64) -> (version: VersionParts)
    ensures
        version@ == VersionView::release(major as nat, minor as nat, patch as nat),
        version@.valid(),
{
    let version = VersionParts { major, minor, patch, pre: String::new(), build: String::new() };
    assert(version@ =~= VersionView::release(major as nat, minor as nat, patch as nat));
    version
}

fn compare_with_release(version: &VersionParts, release: &VersionParts) -> (order: VersionOrder)
    requires
        version@.valid(),
        release@.valid(),
        release@.pre.len() == 0,
        release@.build.len() == 0,
    ensures
        order == VersionOrder::Older <==> (release_order(version@, release@) == VersionOrder::Older
            || (release_order(version@, release@) == VersionOrder::Same && version@.pre.len() > 0)),
{
    proof {
        lemma_empty_build_is_least(version@.build, release@.build);
    }
    compare_parts(version, release)
}

/// Whether a text is a version of Node.js that the runtime can run on.
pub fn supported_node_version(value: &str) -> (yes: bool)
    ensures
        yes == (semver_parse(value@) is Ok && supported_node(semver_parse(value@)->Ok_0)),
{
    match parse_version(value) {
        Ok(version) => supported_node_release(&version),
        Err(_) => false,
    }
}

/// npm from 11.16.0 on. A pre-release of 11.16.0 comes before it.
pub open spec fn allows_scripts(version: VersionView) -> bool {
    ||| version.major > 11
    ||| version.major == 11 && version.minor > 16
    ||| version.major == 11 && version.minor == 16 && (version.patch > 0 || version.pre.len() == 0)
}

/// Whether this version of npm knows a list of packages whose install scripts
/// may run.
pub fn npm_release_allows_scripts(version: &VersionParts) -> (yes: bool)
    requires
        version@.valid(),
    ensures
        yes == allows_scripts(version@),
{
    let first = plain_release(11, 16, 0);
    !matches!(compare_with_release(version, &first), VersionOrder::Older)
}

/// Whether a text is a version of npm that knows a list of packages whose
/// install scripts may run.
pub fn npm_supports_allow_scripts(value: &str) -> (yes: bool)
    ensures
        yes == (semver_parse(value@) is Ok && allows_scripts(semver_parse(value@)->Ok_0)),
{
    match parse_version(value) {
        Ok(version) => npm_release_allows_scripts(&version),
        Err(_) => false,
    }
}

/// The numbers of two versions decide from left to right, whatever stands behind them.
pub proof fn law_numbers_decide_first(left: VersionView, right: VersionView)
    ensures
        left.major > right.major ==> precedence(left, right) == VersionOrder::Newer,
        left.major == right.major && left.minor > right.minor ==> precedence(left, right)
            == VersionOrder::Newer,
        left.major == right.major && left.minor == right.minor && left.patch > right.patch
            ==> precedence(left, right) == VersionOrder::Newer,
        left.major < right.major ==> precedence(left, right) == VersionOrder::Older,
        left.major == right.major && left.minor < right.minor ==> precedence(left, right)
            == VersionOrder::Older,
        left.major == right.major && left.minor == right.minor && left.patch < right.patch
            ==> precedence(left, right) == VersionOrder::Older,
        precedence(left, left) == VersionOrder::Same,
        precedence(left, right) == reversed(precedence(right, left)),
{
    lemma_precedence_turned(left, right);
    lemma_precedence_turned(left, left);
}

/// Two texts are compared where both are versions, by their precedence; otherwise the
/// error names the one that is none, the candidate first.
pub proof fn law_texts_are_compared_as_versions(candidate: Seq<char>, active: Seq<char>)
    ensures
        ({
            let new = semver_parse(candidate);
            let old = semver_parse(active);
            let order = text_order(candidate, active);
            &&& new is Ok && old is Ok ==> order == Ok::<VersionOrder, Seq<char>>(
                precedence(new->Ok_0, old->Ok_0),
            )
            &&& new is Err ==> order == Err::<VersionOrder, Seq<char>>(
                "候选 DSH 版本 "@ + debug_form(candidate) + " 无效："@ + new->Err_0,
            )
            &&& new is Ok && old is Err ==> order == Err::<VersionOrder, Seq<char>>(
                "当前 DSH 版本 "@ + debug_form(active) + " 无效："@ + old->Err_0,
            )
            &&& newer(candidate, active) <==> new is Ok && old is Ok && precedence(
                new->Ok_0,
                old->Ok_0,
            ) == VersionOrder::Newer
        }),
{
}

/// A text has a fault exactly where it is no version, and what was not read has none.
pub proof fn law_fault_of_a_text(text: Seq<char>, reason: Seq<char>)
    ensures
        version_fault(text) is None <==> semver_parse(text) is Ok,
        version_fault(text) matches Some(error) ==> semver_parse(text) == Err::<
            VersionView,
            Seq<char>,
        >(error),
        named_fault(Ok(text)) == version_fault(text),
        named_fault(Err(reason)) is None,
{
}

/// The three orders are those of the standard library, and each is the other's reverse.
pub proof fn law_orders(order: VersionOrder)
    ensures
        std_order(VersionOrder::Older) == std::cmp::Ordering::Less,
        std_order(VersionOrder::Same) == std::cmp::Ordering::Equal,
        std_order(VersionOrder::Newer) == std::cmp::Ordering::Greater,
        reversed(VersionOrder::Older) == VersionOrder::Newer,
        reversed(VersionOrder::Newer) == VersionOrder::Older,
        reversed(VersionOrder::Same) == VersionOrder::Same,
{
}

/// The runtime runs on Node.js 22 from 22.19.0 on and on every version from 24 on, and
/// on no other; a pre-release of 22.19.0 comes before it.
pub proof fn law_supported_node(version: VersionView)
    ensures
        version.major >= 24 ==> supported_node(version),
        version.major == 23 || version.major < 22 ==> !supported_node(version),
        version.major == 22 && version.minor > 19 ==> supported_node(version),
        version.major == 22 && version.minor < 19 ==> !supported_node(version),
        version.major == 22 && version.minor == 19 && version.patch > 0 ==> supported_node(version),
        version.major == 22 && version.minor == 19 && version.patch == 0 ==> (supported_node(
            version,
        ) <==> version.pre.len() == 0),
{
}

/// npm knows a list of packages whose install scripts may run from 11.16.0 on.
pub proof fn law_npm_with_a_list_of_scripts(version: VersionView)
    ensures
        version.major > 11 ==> allows_scripts(version),
        version.major < 11 ==> !allows_scripts(version),
        version.major == 11 && version.minor > 16 ==> allows_scripts(version),
        version.major == 11 && version.minor < 16 ==> !allows_scripts(version),
        version.major == 11 && version.minor == 16 ==> (allows_scripts(version) <==> version.patch
            > 0 || version.pre.len() == 0),
{
}

/// A number that is written in base ten reads back as itself.
pub proof fn law_decimal_reads_back(n: nat)
    ensures
        all_digits(decimal(n)),
        numeral(decimal(n)) == n,
    decreases n,
{
    if n < 10 {
        let text = decimal(n);
        assert(text.drop_last() =~= Seq::<char>::empty());
        assert(numeral(text.drop_last()) == 0);
    } else {
        law_decimal_reads_back(n / 10);
        let text = decimal(n);
        assert(text.drop_last() =~= decimal(n / 10));
        assert forall|i: int| 0 <= i < text.len() implies '0' <= #[trigger] text[i] <= '9' by {
            if i < text.len() - 1 {
                assert(text[i] == decimal(n / 10)[i]);
            }
        }
    }
}

/// What contracts say of a [`VersionParts`] they say of every part of it.
pub proof fn law_value_of_version_parts(value: VersionParts)
    ensures
        value@.major == value.major as nat,
        value@.minor == value.minor as nat,
        value@.patch == value.patch as nat,
        value@.pre == value.pre@,
        value@.build == value.build@,
{
}

} // verus!
