use vstd::prelude::*;

use crate::fingerprint::Backend;

verus! {

/// What one invocation is asked to do.
#[derive(Clone, Debug, PartialEq)]
pub enum Cmd {
    /// Generate colors for a single wallpaper, given by its path.
    Generate { wallpaper: String },
    /// Run in a loop to monitor wallpaper changes.
    Daemon {},
}

/// Options for one invocation, as the command line hands them over.
#[derive(Clone, Debug, PartialEq)]
pub struct Options {
    pub mode: Cmd,
    /// Path used to cache colors, wallpaper settings and templates; when
    /// absent, a per-user cache location is resolved outside the library.
    pub cache_dir: Option<String>,
    /// Overwrite the cache entry even when an intact one exists.
    pub overwrite_cache: bool,
    /// Do not use per-wallpaper cached settings.
    pub skip_cached_settings: bool,
    /// Do not generate templates.
    pub skip_template_generation: bool,
    /// Extraction backend to use.
    pub backend: Option<Backend>,
}

} // verus!
