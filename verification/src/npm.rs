//! What npm prints and what npm reads: versions, publish times and the package
//! manifest of an update.

use vstd::prelude::*;
use vstd::utf8::{decode_utf8, valid_utf8};

use crate::text::{cat2, cat3, contains, ends_with, has_text, same, texts};
use crate::trim::{strip, stripped, trim, trimmed, CharClass};

verus! {

/// The npm package that holds the runtime.
pub const PACKAGE_NAME: &'static str = "@deepseek-ai/dsh";

/// What `String::from_utf8_lossy` makes of bytes.
pub uninterp spec fn lossy_form(bytes: Seq<u8>) -> Seq<char>;

/// Calls `String::from_utf8_lossy`: valid UTF-8 becomes the text that it
/// encodes. How invalid bytes are replaced is left to the standard library.
#[verifier::external_body]
pub(crate) fn lossy_text(bytes: &[u8]) -> (text: String)
    ensures
        text@ == lossy_form(bytes@),
        valid_utf8(bytes@) ==> text@ == decode_utf8(bytes@),
{
    String::from_utf8_lossy(bytes).into_owned()
}

/// The message with which `String::from_utf8` refuses bytes.
pub uninterp spec fn utf8_error(bytes: Seq<u8>) -> Seq<char>;

/// Calls `String::from_utf8`: valid UTF-8 becomes the text that it encodes,
/// anything else the message of the error.
#[verifier::external_body]
pub(crate) fn strict_text(bytes: Vec<u8>) -> (text: Result<String, String>)
    ensures
        match text {
            Ok(text) => valid_utf8(bytes@) && text@ == decode_utf8(bytes@),
            Err(message) => !valid_utf8(bytes@) && message@ == utf8_error(bytes@),
        },
{
    String::from_utf8(bytes).map_err(|error| error.to_string())
}

/// What `serde_json` reads from bytes that hold one JSON string.
pub uninterp spec fn json_string_form(bytes: Seq<u8>) -> Option<Seq<char>>;

/// Calls `serde_json::from_slice::<String>`. Which bytes are a JSON string and
/// what it holds is left to the crate.
#[verifier::external_body]
pub(crate) fn json_string(bytes: &[u8]) -> (value: Option<String>)
    ensures
        value.deep_view() == json_string_form(bytes@),
{
    serde_json::from_slice::<String>(bytes).ok()
}

/// A member of a JSON object: its name, and its text where it is a string.
pub type JsonMember = (String, Option<String>);

/// What `serde_json` reads from bytes that hold a JSON value: the members of an
/// object, `None` for any other value, or the message of the error.
pub uninterp spec fn json_members_form(bytes: Seq<u8>) -> Result<
    Option<Seq<(Seq<char>, Option<Seq<char>>)>>,
    Seq<char>,
>;

/// No name occurs twice.
pub open spec fn distinct_names(members: Seq<(Seq<char>, Option<Seq<char>>)>) -> bool {
    forall|i: int, j: int| 0 <= i < j < members.len() ==> members[i].0 != members[j].0
}

/// Calls `serde_json::from_slice::<serde_json::Value>` and lists the members of
/// the value where it is an object, with the text of those that are strings.
/// No name occurs twice. Which bytes are JSON is left to the crate.
#[verifier::external_body]
pub(crate) fn json_members(bytes: &[u8]) -> (members: Result<Option<Vec<JsonMember>>, String>)
    ensures
        match members {
            Ok(Some(list)) => json_members_form(bytes@) == Ok::<
                Option<Seq<(Seq<char>, Option<Seq<char>>)>>,
                Seq<char>,
            >(Some(list.deep_view())) && distinct_names(list.deep_view()),
            Ok(None) => json_members_form(bytes@) == Ok::<
                Option<Seq<(Seq<char>, Option<Seq<char>>)>>,
                Seq<char>,
            >(None),
            Err(message) => json_members_form(bytes@) == Err::<
                Option<Seq<(Seq<char>, Option<Seq<char>>)>>,
                Seq<char>,
            >(message@),
        },
{
    let value: serde_json::Value = serde_json::from_slice(bytes).map_err(|error| error.to_string())?;
    Ok(
        value.as_object().map(
            |object|
                object.iter().map(
                    |(name, member)| (name.clone(), member.as_str().map(str::to_string)),
                ).collect(),
        ),
    )
}

/// What a program printed, as text.
pub fn output_text(bytes: &Vec<u8>) -> (text: String)
    ensures
        text@ == lossy_form(bytes@),
        valid_utf8(bytes@) ==> text@ == decode_utf8(bytes@),
{
    lossy_text(bytes.as_slice())
}

/// The version that `npm view` printed: a JSON string as it is, anything else
/// without white space and then without quotation marks at its ends.
pub open spec fn npm_version(json: Option<Seq<char>>, lossy: Seq<char>) -> Result<
    Seq<char>,
    Seq<char>,
> {
    match json {
        Some(value) => Ok(value),
        None => {
            let value = stripped(trimmed(lossy), CharClass::DoubleQuote);
            if value.len() == 0 {
                Err("npm view 返回了空版本"@)
            } else {
                Ok(value)
            }
        },
    }
}

/// The version that `npm view` printed, from the JSON string that its output
/// holds, if it holds one, and from the output as text.
pub fn npm_version_from(json: Option<String>, lossy: &str) -> (version: Result<String, String>)
    ensures
        texts(version) == npm_version(json.deep_view(), lossy@),
{
    match json {
        Some(value) => Ok(value),
        None => {
            let value = strip(trim(lossy).as_str(), CharClass::DoubleQuote);
            if value.as_str().is_empty() {
                Err("npm view 返回了空版本".to_string())
            } else {
                Ok(value)
            }
        },
    }
}

/// Reads the version that `npm view` printed.
pub fn parse_npm_version(bytes: &[u8]) -> (version: Result<String, String>)
    ensures
        texts(version) == npm_version(json_string_form(bytes@), lossy_form(bytes@)),
{
    npm_version_from(json_string(bytes), lossy_text(bytes).as_str())
}

/// The member called `name`, where it is a string.
pub open spec fn member_text(
    members: Seq<(Seq<char>, Option<Seq<char>>)>,
    name: Seq<char>,
) -> Option<Seq<char>>
    decreases members.len(),
{
    if members.len() == 0 {
        None
    } else if members[0].0 == name {
        members[0].1
    } else {
        member_text(members.drop_first(), name)
    }
}

/// A time of day in UTC: it holds a `T` and ends with `Z`.
pub open spec fn utc_time(time: Seq<char>) -> bool {
    has_text(time, "T"@) && "Z"@.is_suffix_of(time)
}

/// The publish time of `version` among the members of what npm printed.
pub open spec fn publish_time(
    members: Result<Option<Seq<(Seq<char>, Option<Seq<char>>)>>, Seq<char>>,
    version: Seq<char>,
) -> Result<Seq<char>, Seq<char>> {
    let missing = "npm view 没有返回 DSH "@ + version + " 的发布时间"@;
    match members {
        Err(error) => Err("npm view 返回了无效的发布时间："@ + error),
        Ok(None) => Err(missing),
        Ok(Some(list)) => match member_text(list, version) {
            Some(time) if utc_time(time) => Ok(time),
            _ => Err(missing),
        },
    }
}

/// The members that were read, seen as characters.
pub open spec fn members_view(members: Result<Option<Vec<JsonMember>>, String>) -> Result<
    Option<Seq<(Seq<char>, Option<Seq<char>>)>>,
    Seq<char>,
> {
    match members {
        Ok(Some(list)) => Ok(Some(list.deep_view())),
        Ok(None) => Ok(None),
        Err(message) => Err(message@),
    }
}

fn find_member(members: &Vec<JsonMember>, name: &str) -> (text: Option<String>)
    ensures
        text.deep_view() == member_text(members.deep_view(), name@),
{
    let ghost all = members.deep_view();
    let mut i: usize = 0;
    assert(all.skip(0) =~= all);
    while i < members.len()
        invariant
            i <= members@.len(),
            all == members.deep_view(),
            member_text(all, name@) == member_text(all.skip(i as int), name@),
        decreases members@.len() - i,
    {
        let ghost rest = all.skip(i as int);
        assert(rest[0] == members@[i as int].deep_view());
        if same(members[i].0.as_str(), name) {
            return members[i].1.clone();
        }
        assert(rest.drop_first() =~= all.skip(i + 1));
        i = i + 1;
    }
    None
}

/// Selects the publish time of `version` from the members that npm printed.
pub fn publish_time_from(members: Result<Option<Vec<JsonMember>>, String>, version: &str) -> (time:
    Result<String, String>)
    ensures
        texts(time) == publish_time(members_view(members), version@),
{
    match members {
        Err(error) => Err(cat2("npm view 返回了无效的发布时间：", error.as_str())),
        Ok(Some(list)) => {
            if let Some(time) = find_member(&list, version) {
                if contains(time.as_str(), "T") && ends_with(time.as_str(), "Z") {
                    return Ok(time);
                }
            }
            Err(cat3("npm view 没有返回 DSH ", version, " 的发布时间"))
        },
        Ok(None) => Err(cat3("npm view 没有返回 DSH ", version, " 的发布时间")),
    }
}

/// Reads the publish time of `version` from what npm printed.
pub fn parse_npm_publish_time(bytes: &[u8], version: &str) -> (time: Result<String, String>)
    ensures
        texts(time) == publish_time(json_members_form(bytes@), version@),
{
    publish_time_from(json_members(bytes), version)
}

/// The packages below the runtime whose install scripts may run.
pub open spec fn script_packages() -> Seq<Seq<char>> {
    seq![
        "@deepseek-ai/dsh-subprocess-local"@,
        "@google/genai"@,
        "koffi"@,
        "node-pty"@,
        "protobufjs"@,
    ]
}

/// The packages whose install scripts may run.
pub fn install_script_packages() -> (names: Vec<String>)
    ensures
        names.deep_view() == script_packages(),
{
    let mut names: Vec<String> = Vec::new();
    names.push("@deepseek-ai/dsh-subprocess-local".to_string());
    names.push("@google/genai".to_string());
    names.push("koffi".to_string());
    names.push("node-pty".to_string());
    names.push("protobufjs".to_string());
    assert(names.deep_view() =~= script_packages());
    names
}

/// A value in a package manifest.
pub enum ManifestValue {
    Flag(bool),
    Texts(Vec<(String, String)>),
    Flags(Vec<(String, bool)>),
}

/// The contents of a [`ManifestValue`].
pub enum ManifestValueView {
    Flag(bool),
    Texts(Seq<(Seq<char>, Seq<char>)>),
    Flags(Seq<(Seq<char>, bool)>),
}

impl DeepView for ManifestValue {
    type V = ManifestValueView;

    open spec fn deep_view(&self) -> ManifestValueView {
        match self {
            ManifestValue::Flag(flag) => ManifestValueView::Flag(*flag),
            ManifestValue::Texts(texts) => ManifestValueView::Texts(texts.deep_view()),
            ManifestValue::Flags(flags) => ManifestValueView::Flags(flags.deep_view()),
        }
    }
}

/// The manifest of a directory into which npm installs an update.
pub struct PackageManifest {
    pub members: Vec<(String, ManifestValue)>,
}

/// The members of the manifest that installs one version of the runtime: the
/// package is private, depends on exactly that version and lets the install
/// scripts of the listed packages run.
pub open spec fn manifest_members(version: Seq<char>) -> Seq<(Seq<char>, ManifestValueView)> {
    seq![
        ("private"@, ManifestValueView::Flag(true)),
        ("dependencies"@, ManifestValueView::Texts(seq![(PACKAGE_NAME@, version)])),
        (
            "allowScripts"@,
            ManifestValueView::Flags(script_packages().map_values(|name: Seq<char>| (name, true))),
        ),
    ]
}

/// The manifest that installs `version` of the runtime.
pub fn update_package_manifest(version: &str) -> (manifest: PackageManifest)
    ensures
        manifest.members.deep_view() == manifest_members(version@),
{
    let mut dependencies: Vec<(String, String)> = Vec::new();
    dependencies.push((PACKAGE_NAME.to_string(), version.to_string()));
    assert(dependencies.deep_view() =~= seq![(PACKAGE_NAME@, version@)]);
    let names = install_script_packages();
    let mut allowed: Vec<(String, bool)> = Vec::new();
    let mut i: usize = 0;
    while i < names.len()
        invariant
            i <= names@.len(),
            allowed.deep_view() == names.deep_view().take(i as int).map_values(
                |name: Seq<char>| (name, true),
            ),
        decreases names@.len() - i,
    {
        let ghost before = allowed.deep_view();
        allowed.push((names[i].clone(), true));
        assert(allowed.deep_view() =~= before.push((names@[i as int]@, true)));
        i = i + 1;
        assert(allowed.deep_view() =~= names.deep_view().take(i as int).map_values(
            |name: Seq<char>| (name, true),
        ));
    }
    assert(names.deep_view().take(i as int) =~= script_packages());
    let mut members: Vec<(String, ManifestValue)> = Vec::new();
    members.push(("private".to_string(), ManifestValue::Flag(true)));
    members.push(("dependencies".to_string(), ManifestValue::Texts(dependencies)));
    members.push(("allowScripts".to_string(), ManifestValue::Flags(allowed)));
    assert(members.deep_view() =~= manifest_members(version@));
    PackageManifest { members }
}

/// The bytes that `serde_json` writes for an object with these members, or the
/// message of the error.
pub uninterp spec fn json_pretty_form(members: Seq<(Seq<char>, ManifestValueView)>) -> Result<
    Seq<u8>,
    Seq<char>,
>;

/// Calls `serde_json::to_vec_pretty` on an object with these members. The bytes
/// are left to the crate.
#[verifier::external_body]
pub(crate) fn json_pretty(members: &Vec<(String, ManifestValue)>) -> (bytes: Result<
    Vec<u8>,
    String,
>)
    ensures
        match bytes {
            Ok(bytes) => json_pretty_form(members.deep_view()) == Ok::<Seq<u8>, Seq<char>>(bytes@),
            Err(message) => json_pretty_form(members.deep_view()) == Err::<Seq<u8>, Seq<char>>(
                message@,
            ),
        },
{
    let value = |member: &ManifestValue| -> serde_json::Value {
        match member {
            ManifestValue::Flag(flag) => (*flag).into(),
            ManifestValue::Texts(list) => list.iter().cloned().collect(),
            ManifestValue::Flags(list) => list.iter().cloned().collect(),
        }
    };
    let object: serde_json::Value = members.iter().map(|(name, member)| (name.clone(), value(member))).collect();
    serde_json::to_vec_pretty(&object).map_err(|error| error.to_string())
}

impl PackageManifest {
    /// The manifest as the bytes of its file.
    pub fn to_json(&self) -> (bytes: Result<Vec<u8>, String>)
        ensures
            match bytes {
                Ok(bytes) => json_pretty_form(self.members.deep_view()) == Ok::<
                    Seq<u8>,
                    Seq<char>,
                >(bytes@),
                Err(message) => json_pretty_form(self.members.deep_view()) == Err::<
                    Seq<u8>,
                    Seq<char>,
                >(message@),
            },
    {
        json_pretty(&self.members)
    }
}

/// What npm prints is the version where it is a JSON string; any other text is it
/// without the white space and then the quotation marks at its ends, where that leaves
/// anything.
pub proof fn law_printed_version_is_read(json: Option<Seq<char>>, lossy: Seq<char>)
    ensures
        json matches Some(value) ==> npm_version(json, lossy) == Ok::<Seq<char>, Seq<char>>(value),
        json is None && stripped(trimmed(lossy), CharClass::DoubleQuote).len() > 0 ==> npm_version(
            json,
            lossy,
        ) == Ok::<Seq<char>, Seq<char>>(stripped(trimmed(lossy), CharClass::DoubleQuote)),
        json is None && stripped(trimmed(lossy), CharClass::DoubleQuote).len() == 0 ==> npm_version(
            json,
            lossy,
        ) == Err::<Seq<char>, Seq<char>>("npm view 返回了空版本"@),
{
}

/// A member is found by its name, wherever it stands; one that is no string has no text.
pub proof fn law_member_is_found_by_its_name(
    members: Seq<(Seq<char>, Option<Seq<char>>)>,
    name: Seq<char>,
    at: int,
)
    requires
        distinct_names(members),
    ensures
        0 <= at < members.len() && members[at].0 == name ==> member_text(members, name)
            == members[at].1,
        (forall|i: int| 0 <= i < members.len() ==> (#[trigger] members[i]).0 != name)
            ==> member_text(members, name) is None,
    decreases members.len(),
{
    if members.len() > 0 {
        let rest = members.drop_first();
        assert(distinct_names(rest)) by {
            assert forall|i: int, j: int| 0 <= i < j < rest.len() implies rest[i].0 != rest[j].0 by {
                assert(rest[i] == members[i + 1] && rest[j] == members[j + 1]);
            }
        }
        if 0 < at < members.len() {
            law_member_is_found_by_its_name(rest, name, at - 1);
            assert(rest[at - 1] == members[at]);
            assert(members[at].0 == name ==> members[0].0 != name);
        } else {
            law_member_is_found_by_its_name(rest, name, at);
        }
        if forall|i: int| 0 <= i < members.len() ==> (#[trigger] members[i]).0 != name {
            assert(members[0].0 != name);
            assert forall|i: int| 0 <= i < rest.len() implies (#[trigger] rest[i]).0 != name by {
                assert(rest[i] == members[i + 1]);
            }
        }
    }
}

/// The publish time of a version is the text of its member, unchanged, where that is a
/// time of day in UTC; otherwise the error names the version, or says why npm's answer
/// could not be read.
pub proof fn law_publish_time_is_that_of_the_version(
    list: Seq<(Seq<char>, Option<Seq<char>>)>,
    version: Seq<char>,
    error: Seq<char>,
)
    ensures
        ({
            let time = publish_time(Ok(Some(list)), version);
            let held = member_text(list, version);
            let missing = Err::<Seq<char>, Seq<char>>(
                "npm view 没有返回 DSH "@ + version + " 的发布时间"@,
            );
            &&& held is Some && utc_time(held->0) ==> time == Ok::<Seq<char>, Seq<char>>(held->0)
            &&& held is None || !utc_time(held->0) ==> time == missing
            &&& publish_time(Ok(None), version) == missing
            &&& publish_time(Err(error), version) == Err::<Seq<char>, Seq<char>>(
                "npm view 返回了无效的发布时间："@ + error,
            )
        }),
{
}

/// A time of day in UTC holds a `T` and ends with a `Z`.
pub proof fn law_utc_time(time: Seq<char>)
    ensures
        utc_time(time) <==> time.contains('T') && time.len() > 0 && time.last() == 'Z',
{
    reveal_strlit("T");
    reveal_strlit("Z");
    assert("T"@ =~= seq!['T']);
    assert("Z"@ =~= seq!['Z']);
    if has_text(time, "T"@) {
        let at = choose|at: int| crate::text::occurs_at(time, "T"@, at);
        assert(time.subrange(at, at + 1)[0] == 'T');
        assert(time[at] == 'T');
    }
    if time.contains('T') {
        let at = choose|at: int| 0 <= at < time.len() && time[at] == 'T';
        assert(time.subrange(at, at + 1) =~= seq!['T']);
        assert(crate::text::occurs_at(time, "T"@, at));
    }
    if time.len() > 0 {
        let end = time.subrange(time.len() - 1, time.len() as int);
        assert(end =~= seq![time.last()]);
        assert(end[0] == time.last());
        if "Z"@.is_suffix_of(time) {
            assert(end == "Z"@);
        }
    }
}

/// The manifest is private, asks for exactly the one version of the runtime and nothing
/// else, and lets the install scripts of the listed packages run and no others.
pub proof fn law_manifest_asks_for_one_version(version: Seq<char>)
    ensures
        ({
            let members = manifest_members(version);
            &&& members.len() == 3
            &&& members[0] == ("private"@, ManifestValueView::Flag(true))
            &&& members[1] == (
                "dependencies"@,
                ManifestValueView::Texts(seq![("@deepseek-ai/dsh"@, version)]),
            )
            &&& members[2] == (
                "allowScripts"@,
                ManifestValueView::Flags(
                    seq![
                        ("@deepseek-ai/dsh-subprocess-local"@, true),
                        ("@google/genai"@, true),
                        ("koffi"@, true),
                        ("node-pty"@, true),
                        ("protobufjs"@, true),
                    ],
                ),
            )
        }),
{
    let allowed = script_packages().map_values(|name: Seq<char>| (name, true));
    assert(allowed =~= seq![
        ("@deepseek-ai/dsh-subprocess-local"@, true),
        ("@google/genai"@, true),
        ("koffi"@, true),
        ("node-pty"@, true),
        ("protobufjs"@, true),
    ]);
}

} // verus!
