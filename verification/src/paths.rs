//! File-system paths held as text, taken apart and put together by
//! `std::path`.

use vstd::prelude::*;

verus! {

/// The stem of the path `path`: its last component without the extension, as
/// `std::path::Path::file_stem` defines it under the path syntax of the
/// platform the library is built for. It is `None` where the path has no
/// file name.
pub uninterp spec fn path_file_stem(path: Seq<char>) -> Option<Seq<char>>;

/// The path `base` extended by `component`, as `std::path::PathBuf::push`
/// builds it under the path syntax of the platform the library is built for.
pub uninterp spec fn path_join(base: Seq<char>, component: Seq<char>) -> Seq<char>;

/// Calls `std::path::Path::file_stem` on the path that `path` spells.
/// Nothing is claimed of the result but that it is the stem std finds.
#[verifier::external_body]
pub(crate) fn file_stem(path: &str) -> (r: Option<String>)
    ensures
        r.deep_view() == path_file_stem(path@),
{
    match std::path::Path::new(path).file_stem() {
        Some(stem) => Some(stem.to_string_lossy().into_owned()),
        None => None,
    }
}

/// Calls `std::path::PathBuf::push` on the path that `base` spells.
/// Nothing is claimed of the result but that it is the path std builds.
#[verifier::external_body]
pub(crate) fn join(base: &str, component: &str) -> (r: String)
    ensures
        r@ == path_join(base@, component@),
{
    let mut buffer = std::path::PathBuf::from(base);
    buffer.push(component);
    buffer.to_string_lossy().into_owned()
}

} // verus!
