//! Platforms (stored with the shape of tags) and their application paths.
use vstd::prelude::*;

verus! {

/// An application path used by a platform's games, with how many use it.
#[derive(Clone, Debug)]
pub struct PlatformAppPath {
    pub app_path: String,
    pub count: i64,
}

} // verus!
