//! Output paths, computed by `camino` under the rules of the target platform.

use camino::Utf8Path;
use vstd::prelude::*;

verus! {

/// The text of the path that `camino::Utf8Path::join` builds from the path
/// `base` and the path `name`. Which text that is follows the path rules of
/// the platform the crate is built for; nothing more is stated of it here.
pub uninterp spec fn joined_path(base: Seq<char>, name: Seq<char>) -> Seq<char>;

/// The text of the path that `camino::Utf8Path::with_added_extension` builds
/// from `path` by appending `extension` to its file name.
pub uninterp spec fn path_with_added_extension(path: Seq<char>, extension: Seq<char>) -> Seq<char>;

/// Whether `text` holds a character that some platform reads as a path separator.
pub open spec fn has_separator(text: Seq<char>) -> bool {
    exists|i: int| 0 <= i < text.len() && (text[i] == '/' || text[i] == '\\')
}

/// Calls `camino::Utf8Path::join` on `base` with `name` and hands back the
/// text of the path it built. Trusted: the result is the one that
/// [`joined_path`] names for the two texts.
#[verifier::external_body]
pub(crate) fn join_path(base: &str, name: &str) -> (res: String)
    ensures
        res@ == joined_path(base@, name@),
{
    Utf8Path::new(base).join(name).into_string()
}

/// Calls `camino::Utf8Path::with_added_extension` on `path` with `extension`
/// and hands back the text of the path it built. The outside function panics
/// on an extension that holds a path separator, so such an extension is not
/// admitted. Trusted: the result is the one that
/// [`path_with_added_extension`] names for the two texts.
#[verifier::external_body]
pub(crate) fn add_extension(path: &str, extension: &str) -> (res: String)
    requires
        !has_separator(extension@),
    ensures
        res@ == path_with_added_extension(path@, extension@),
{
    Utf8Path::new(path).with_added_extension(extension).into_string()
}

} // verus!
