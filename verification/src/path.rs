//! Paths as text: the way from one path to another, whether one lies below
//! another, and the absolute form of a path.

use vstd::prelude::*;

verus! {

/// The way from `base` to `path`, where there is one that can be written down.
pub uninterp spec fn path_difference(path: Seq<char>, base: Seq<char>) -> Option<Seq<char>>;

/// Whether the components of `base` are the first components of `path`.
pub uninterp spec fn path_has_prefix(path: Seq<char>, base: Seq<char>) -> bool;

/// Whether a path is absolute: it names its place without regard to a
/// working directory.
pub uninterp spec fn path_is_absolute(path: Seq<char>) -> bool;

/// The absolute form of `path` for a working directory `cwd`, where there is one.
pub uninterp spec fn absolute_path(path: Seq<char>, cwd: Seq<char>) -> Option<Seq<char>>;

/// `diff_paths` of the pathdiff crate, on paths given as text. The contract
/// names the outcome as a function of the two paths and states nothing else
/// of it.
#[verifier::external_body]
pub(crate) fn diff_paths(path: &str, base: &str) -> (difference: Option<String>)
    ensures
        difference.deep_view() == path_difference(path@, base@),
{
    pathdiff::diff_paths(path, base).map(|relative| relative.to_string_lossy().into_owned())
}

/// `Path::starts_with` of std, on paths given as text. The contract names the
/// outcome as a function of the two paths and states nothing else of it.
#[verifier::external_body]
pub(crate) fn starts_with(path: &str, base: &str) -> (inside: bool)
    ensures
        inside == path_has_prefix(path@, base@),
{
    std::path::Path::new(path).starts_with(base)
}

/// `Path::is_absolute` of std, on a path given as text. The contract names
/// the outcome as a function of the path and states nothing else of it.
#[verifier::external_body]
fn is_absolute(path: &str) -> (absolute: bool)
    ensures
        absolute == path_is_absolute(path@),
{
    std::path::Path::new(path).is_absolute()
}

/// `Absolutize::absolutize_from` of the path_absolutize crate, on paths given
/// as text, an error given as `None`. The working directory has to be
/// absolute: from one that is not, the outside function can be left with no
/// component at all, and then it panics. The contract names the outcome as a
/// function of the two paths and states nothing else of it.
#[verifier::external_body]
fn absolutize(path: &str, cwd: &str) -> (absolute: Option<String>)
    requires
        path_is_absolute(cwd@),
    ensures
        absolute.deep_view() == absolute_path(path@, cwd@),
{
    path_absolutize::Absolutize::absolutize_from(std::path::Path::new(path), cwd).ok().map(
        |absolute| absolute.to_string_lossy().into_owned(),
    )
}

/// The project root for a project given as `project` to a process whose
/// working directory is `cwd`: none where the working directory is not
/// absolute, else the absolute form of the project path.
pub open spec fn project_root_text(project: Seq<char>, cwd: Seq<char>) -> Option<Seq<char>> {
    if path_is_absolute(cwd) {
        absolute_path(project, cwd)
    } else {
        None
    }
}

/// Resolves the project root from the project path as it was given and the
/// working directory.
pub fn project_root(project: &str, cwd: &str) -> (root: Option<String>)
    ensures
        root.deep_view() == project_root_text(project@, cwd@),
{
    if is_absolute(cwd) {
        absolutize(project, cwd)
    } else {
        None
    }
}

} // verus!
