//! Where the store lives: the directory that must exist before the store can be created.
use vstd::prelude::*;

verus! {

/// Permission bits of a directory created for the store: read, write and
/// execute for owner, group and others, where the platform has such bits.
pub const DIRECTORY_MODE: u32 = 0o777;

/// What `std::path::Path::parent` returns for a path, as characters.
pub uninterp spec fn path_parent(path: Seq<char>) -> Option<Seq<char>>;

/// Relies on `std::path::Path::parent`: the path without its final component,
/// or `None` where the path ends in a root or a prefix, or is empty. The result
/// depends on the path alone; a parent of a `&str` path is valid UTF-8, so the
/// conversion back to a string is exact.
#[verifier::external_body]
fn parent_of(location: &str) -> (r: Option<String>)
    ensures
        match r {
            Some(p) => path_parent(location@) == Some(p@),
            None => path_parent(location@) is None,
        },
        location@.len() == 0 ==> r is None,
{
    match std::path::Path::new(location).parent() {
        Some(p) => Some(p.to_string_lossy().into_owned()),
        None => None,
    }
}

/// The directory to create before the store: the location's parent, where it
/// has one that is not empty. A bare name or a locator whose directory part
/// cannot be derived has none.
pub open spec fn store_directory(location: Seq<char>) -> Option<Seq<char>> {
    match path_parent(location) {
        Some(p) => if p.len() > 0 { Some(p) } else { None },
        None => None,
    }
}

/// The directory that must exist before a store at `location` can be created,
/// if one can be derived from it.
pub fn directory_to_create(location: &str) -> (r: Option<String>)
    ensures
        match r {
            Some(p) => store_directory(location@) == Some(p@),
            None => store_directory(location@) is None,
        },
{
    match parent_of(location) {
        Some(p) => {
            if p.as_str().is_empty() {
                None
            } else {
                Some(p)
            }
        },
        None => None,
    }
}

} // verus!
