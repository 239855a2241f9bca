//! Path operations that the configuration logic relies on. Paths are held
//! as text; the operations themselves are std's and path-dedot's.

use vstd::prelude::*;
use path_dedot::ParseDot;

verus! {

/// What `Path::parent` gives for a path.
pub uninterp spec fn parent_path(p: Seq<char>) -> Option<Seq<char>>;

/// Whether `Path::is_relative` holds of a path.
pub uninterp spec fn is_relative_path(p: Seq<char>) -> bool;

/// What `Path::join` gives for a base path and a path.
pub uninterp spec fn joined_path(base: Seq<char>, p: Seq<char>) -> Seq<char>;

/// What path-dedot's `parse_dot` gives for an absolute path: "." segments
/// dropped and ".." segments resolved against their parent.
pub uninterp spec fn dedot_path(p: Seq<char>) -> Seq<char>;

/// Relies on `std::path::Path::parent`: the path without its final
/// component, or nothing for a root or an empty path.
#[verifier::external_body]
pub(crate) fn path_parent(p: &str) -> (r: Option<String>)
    ensures
        r matches Some(s) ==> parent_path(p@) == Some(s@),
        r is None ==> parent_path(p@) is None,
        p@.len() == 0 ==> r is None,
{
    std::path::Path::new(p).parent().map(|q| q.to_string_lossy().into_owned())
}

/// Relies on `std::path::Path::is_relative`.
#[verifier::external_body]
pub(crate) fn path_is_relative(p: &str) -> (r: bool)
    ensures
        r == is_relative_path(p@),
{
    std::path::Path::new(p).is_relative()
}

/// Relies on `std::path::Path::join`: an absolute path replaces the base.
#[verifier::external_body]
pub(crate) fn path_join(base: &str, p: &str) -> (r: String)
    ensures
        r@ == joined_path(base@, p@),
        !is_relative_path(p@) ==> r@ == p@,
{
    std::path::Path::new(base).join(p).to_string_lossy().into_owned()
}

/// Relies on `path_dedot::ParseDot::parse_dot`. It reads the process's
/// current directory only for a path that starts with "." or "..", which
/// an absolute path never does; so an absolute path always succeeds, with
/// a result that depends on the path alone.
#[verifier::external_body]
pub(crate) fn parse_dot(p: &str) -> (r: Option<String>)
    ensures
        r is None ==> is_relative_path(p@),
        r matches Some(s) ==> (!is_relative_path(p@) ==> s@ == dedot_path(p@)),
{
    std::path::Path::new(p).parse_dot().ok().map(|q| q.to_string_lossy().into_owned())
}

} // verus!
