//! Paths in the form that Node.js takes.

use vstd::prelude::*;

use crate::host::Platform;
use crate::path_prefix::on_drive;

verus! {

/// The prefix of a verbatim path of Windows.
pub const VERBATIM_PREFIX: &'static str = "\\\\?\\";

/// `form` is `path`, or `path` without a verbatim prefix before a drive.
pub open spec fn simplified_form(path: Seq<char>, form: Seq<char>) -> bool {
    ||| form == path
    ||| VERBATIM_PREFIX@.is_prefix_of(path) && form == path.skip(VERBATIM_PREFIX@.len() as int)
        && on_drive(form)
}

/// Calls `dunce::simplified`. A path without the verbatim prefix before a drive
/// comes back as it is; one with it comes back as it is or without the prefix. When
/// the prefix is dropped depends on the system that the crate was built for and on
/// the names in the path, and is left to the crate.
#[verifier::external_body]
fn simplified(path: &str) -> (form: String)
    ensures
        simplified_form(path@, form@),
{
    dunce::simplified(std::path::Path::new(path)).to_string_lossy().into_owned()
}

/// `form` is what Node.js is given for `path`: on Windows the simplified form,
/// elsewhere the path itself.
pub open spec fn node_form(path: Seq<char>, form: Seq<char>, platform: Platform) -> bool {
    if platform.windows() {
        simplified_form(path, form)
    } else {
        form == path
    }
}

/// The path in the form that Node.js takes.
pub fn node_compatible_path(path: &str, platform: Platform) -> (form: String)
    ensures
        node_form(path@, form@, platform),
{
    if platform.is_windows() {
        simplified(path)
    } else {
        path.to_string()
    }
}

/// A path without the verbatim prefix, or with it before anything but a drive, is
/// handed on as it is.
pub proof fn law_plain_path_is_kept(path: Seq<char>, form: Seq<char>, platform: Platform)
    requires
        !VERBATIM_PREFIX@.is_prefix_of(path) || !on_drive(
            path.skip(VERBATIM_PREFIX@.len() as int),
        ),
        node_form(path, form, platform),
    ensures
        form == path,
{
}

/// Node.js is given a path as it is, but on Windows, where the verbatim prefix before a
/// drive may be left out.
pub proof fn law_node_is_given_the_path(path: Seq<char>, form: Seq<char>, platform: Platform)
    requires
        node_form(path, form, platform),
    ensures
        platform != Platform::Windows ==> form == path,
        form == path || (VERBATIM_PREFIX@ + form == path && on_drive(form)),
        node_form(path, path, platform),
{
    if form != path {
        assert(path =~= path.take(VERBATIM_PREFIX@.len() as int) + path.skip(
            VERBATIM_PREFIX@.len() as int,
        ));
    }
}

} // verus!
