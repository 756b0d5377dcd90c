//! Path arithmetic of the platform, as far as the dispatcher needs it.
//!
//! What a path's components are depends on the platform, so nothing is
//! claimed of the results here; the decisions that follow take them as
//! arguments.

use vstd::prelude::*;

verus! {

/// Calls `std::path::Path::strip_prefix`: the rest of `path` below `root`, as
/// text, or `None` where `root` is not a prefix of `path`. Nothing is claimed
/// of the outcome.
#[verifier::external_body]
pub(crate) fn strip_root(path: &str, root: &str) -> (r: Option<String>) {
    match std::path::Path::new(path).strip_prefix(root) {
        Ok(rest) => Some(rest.to_string_lossy().into_owned()),
        Err(_) => None,
    }
}

/// Calls `std::path::Path::file_name`: the final component of `path`, as
/// text, or `None` where the path has none. Nothing is claimed of the
/// outcome.
#[verifier::external_body]
pub(crate) fn final_component(path: &str) -> (r: Option<String>) {
    match std::path::Path::new(path).file_name() {
        Some(name) => Some(name.to_string_lossy().into_owned()),
        None => None,
    }
}

} // verus!
