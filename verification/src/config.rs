//! Holder of the configured library sources.
//!
//! A source is a root path and whether it was found reachable when the
//! configuration was loaded.  Reading, creating and validating the
//! configuration file is console and filesystem glue outside this core: the
//! session is handed sources that were already validated.

use vstd::prelude::*;

verus! {

/// The configured library sources, each marked reachable or not at load
/// time.
pub struct ConfigHandler {
    pub sources: Vec<(String, bool)>,
}

impl ConfigHandler {
    /// A handler with no sources yet.
    pub fn init() -> (r: ConfigHandler)
        ensures
            r.sources@ == Seq::<(String, bool)>::empty(),
    {
        ConfigHandler { sources: Vec::new() }
    }
}

} // verus!
