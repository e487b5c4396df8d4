use vstd::prelude::*;

verus! {

/// Where the tool lies beneath the host application's packaged-resource
/// directory.
pub const RESOURCE_RELATIVE_PATH: &'static str = "resources/exiftool.exe";

/// The directory that contains a path, as `std::path::Path::parent` gives
/// it; `None` for a path that ends in a root or prefix, or is empty.
pub uninterp spec fn parent_of(path: Seq<char>) -> Option<Seq<char>>;

/// Relies on `std::path::Path::parent`: the parent is a function of the
/// path's text alone, and an empty path has none. The parent of a UTF-8
/// path is a prefix of it, so the lossy conversion back to text is exact.
#[verifier::external_body]
pub(crate) fn parent_dir(path: &str) -> (r: Option<String>)
    ensures
        match r {
            Some(dir) => parent_of(path@) == Some(dir@),
            None => parent_of(path@) is None,
        },
        path@.len() == 0 ==> r is None,
{
    match std::path::Path::new(path).parent() {
        Some(dir) => Some(dir.to_string_lossy().into_owned()),
        None => None,
    }
}

} // verus!
