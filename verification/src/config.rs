use vstd::prelude::*;

use crate::fingerprint::Backend;

verus! {

/// Persisted per-wallpaper settings: which extraction backend to use
/// and where its cache lives.
#[derive(Clone, Debug, PartialEq)]
pub struct Config {
    pub wallust_backend: Backend,
    pub wallust_cache_path: String,
}

} // verus!
