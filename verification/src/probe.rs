//! Read-only filesystem probing.

use vstd::prelude::*;

verus! {

/// Relies on std::path::Path::exists: whether the path points at an entity
/// currently present on disk.  The answer depends on the state of the
/// filesystem, so nothing is promised of it.
#[verifier::external_body]
pub(crate) fn path_exists(p: &str) -> bool {
    std::path::Path::new(p).exists()
}

} // verus!
