//! What the standard library computes on paths and on byte strings. The
//! contracts in this file are believed, not proved: each names the
//! function it stands for.

use vstd::prelude::*;
use vstd::utf8::*;

verus! {

/// The final component of `path` on the platform the library is built
/// for, as `std::path::Path::file_name` gives it: none where the path is
/// empty, is a root or ends in `..`.
pub uninterp spec fn path_file_name(path: Seq<char>) -> Option<Seq<char>>;

/// `base` extended by `part`, as `std::path::PathBuf::push` leaves it.
pub uninterp spec fn path_join(base: Seq<char>, part: Seq<char>) -> Seq<char>;

/// `path` cut back to its parent, as `std::path::PathBuf::pop` leaves
/// it: `path` itself where it has no parent.
pub uninterp spec fn path_parent(path: Seq<char>) -> Seq<char>;

/// Whether the last components of `path` are those of `child`, as
/// `std::path::Path::ends_with` tells.
pub uninterp spec fn path_ends_with(path: Seq<char>, child: Seq<char>) -> bool;

/// The text that `String::from_utf8_lossy` makes of `bytes`: what does
/// not decode is replaced by U+FFFD.
pub uninterp spec fn utf8_lossy(bytes: Seq<u8>) -> Seq<char>;

/// Calls `std::path::Path::file_name` on `path`. The contract names the
/// result and claims nothing else of it; the component of a path that
/// was given as text is text, so nothing is lost in handing it back.
#[verifier::external_body]
pub(crate) fn file_name(path: &str) -> (r: Option<String>)
    ensures
        match r {
            Some(name) => path_file_name(path@) == Some(name@),
            None => path_file_name(path@) is None,
        },
{
    match std::path::Path::new(path).file_name() {
        Some(name) => Some(name.to_string_lossy().into_owned()),
        None => None,
    }
}

/// Calls `std::path::PathBuf::push` on a copy of `base`. The contract
/// names the result and claims nothing else of it.
#[verifier::external_body]
pub(crate) fn push_path(base: &str, part: &str) -> (r: String)
    ensures
        r@ == path_join(base@, part@),
{
    let mut path = std::path::PathBuf::from(base);
    path.push(part);
    path.to_string_lossy().into_owned()
}

/// Calls `std::path::PathBuf::pop` on a copy of `path`. The contract
/// names the result and claims nothing else of it.
#[verifier::external_body]
pub(crate) fn pop_path(path: &str) -> (r: String)
    ensures
        r@ == path_parent(path@),
{
    let mut path = std::path::PathBuf::from(path);
    path.pop();
    path.to_string_lossy().into_owned()
}

/// Calls `std::path::Path::ends_with`. The contract names the result
/// and claims nothing else of it.
#[verifier::external_body]
pub(crate) fn has_tail(path: &str, child: &str) -> (r: bool)
    ensures
        r == path_ends_with(path@, child@),
{
    std::path::Path::new(path).ends_with(child)
}

/// Calls `String::from_utf8_lossy`. The contract names the result and
/// claims of it what the function's documentation says of well-formed
/// input: bytes that are valid UTF-8 come back as the text they encode.
#[verifier::external_body]
pub(crate) fn from_utf8_lossy(bytes: &[u8]) -> (r: String)
    ensures
        r@ == utf8_lossy(bytes@),
        valid_utf8(bytes@) ==> r@ == decode_utf8(bytes@),
{
    String::from_utf8_lossy(bytes).into_owned()
}

} // verus!
