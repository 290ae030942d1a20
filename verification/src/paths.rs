//! What this crate asks of paths: the file name at the end of one, and the
//! relative path from one place to another.
//!
//! Both answers depend on the path syntax of the platform and are left to
//! `std` and to `pathdiff`. Neither looks at the file system. Verus believes
//! what the functions here state and knows no more of the answers than that
//! equal questions have equal answers.
use vstd::prelude::*;

verus! {

/// The final component of a path, if it is the name of a file or directory.
pub uninterp spec fn file_name_text(path: Seq<char>) -> Option<Seq<char>>;

/// The path of the entry called `name` in the directory `folder`.
pub uninterp spec fn joined_path_text(folder: Seq<char>, name: Seq<char>) -> Seq<char>;

/// The relative path that leads from the directory `base` to `path`, if
/// there is one.
pub uninterp spec fn relative_path_text(path: Seq<char>, base: Seq<char>) -> Option<Seq<char>>;

/// `std::path::Path::file_name`. A path that ends in `..`, or that is
/// empty or a root, has no file name.
#[verifier::external_body]
pub(crate) fn file_name(path: &str) -> (name: Option<String>)
    ensures
        match name {
            Some(n) => file_name_text(path@) == Some(n@),
            None => file_name_text(path@) is None,
        },
{
    std::path::Path::new(path).file_name().and_then(|n| n.to_str()).map(|n| n.to_owned())
}

/// `std::path::Path::join`. Both parts are text, and so is the path that
/// joins them.
#[verifier::external_body]
pub(crate) fn join_path(folder: &str, name: &str) -> (path: String)
    ensures
        path@ == joined_path_text(folder@, name@),
{
    std::path::Path::new(folder).join(name).to_string_lossy().into_owned()
}

/// `pathdiff::diff_paths`. There is no relative path from an absolute
/// base to a relative path, nor where the base goes up through `..` after
/// the two have parted.
#[verifier::external_body]
pub(crate) fn relative_path(path: &str, base: &str) -> (relative: Option<String>)
    ensures
        match relative {
            Some(r) => relative_path_text(path@, base@) == Some(r@),
            None => relative_path_text(path@, base@) is None,
        },
{
    pathdiff::diff_paths(path, base).and_then(|p| p.to_str().map(|s| s.to_owned()))
}

} // verus!
