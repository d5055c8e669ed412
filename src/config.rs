//! The plugin's configuration.

use vstd::prelude::*;

verus! {

/// How many candidates a query returns when no configuration says otherwise.
pub const DEFAULT_MAX_ENTRIES: usize = 5;

/// Settings read once when the plugin starts.
#[derive(Clone, Copy, Debug, PartialEq, Eq, Structural)]
pub struct Config {
    /// The most candidates that one query returns.
    pub max_entries: usize,
}

impl Default for Config {
    fn default() -> (r: Self)
        ensures
            r.max_entries == DEFAULT_MAX_ENTRIES,
    {
        Config { max_entries: DEFAULT_MAX_ENTRIES }
    }
}

/// The configuration in force: the one that was loaded, or the default
/// where the file could not be read or parsed.
pub fn init(loaded: Option<Config>) -> (r: Config)
    ensures
        loaded matches Some(c) ==> r == c,
        loaded is None ==> r.max_entries == DEFAULT_MAX_ENTRIES,
{
    match loaded {
        Some(c) => c,
        None => Config::default(),
    }
}

} // verus!
