//! The single user setting: whether the theme may be switched automatically.

use vstd::prelude::*;

verus! {

#[derive(Clone, Copy, PartialEq, Eq, Structural, Debug)]
pub struct Config {
    pub automatic_switching: bool,
}

/// The configuration a fresh installation starts from: automatic switching on.
pub open spec fn default_config() -> Config {
    Config { automatic_switching: true }
}

impl Config {
    pub fn new() -> (c: Config)
        ensures
            c == default_config(),
            c.automatic_switching,
    {
        Config { automatic_switching: true }
    }
}

/// The configuration the process starts with: the persisted one where a
/// persisted record exists, the default otherwise.
pub open spec fn startup_config(loaded: Option<Config>) -> Config {
    match loaded {
        Some(c) => c,
        None => default_config(),
    }
}

/// Picks the configuration at startup. `loaded` is the persisted record, or
/// `None` where none was found; in that case the default (automatic switching
/// enabled) is the result, and the caller is expected to persist it.
pub fn initial_config(loaded: Option<Config>) -> (c: Config)
    ensures
        c == startup_config(loaded),
        loaded is None ==> c.automatic_switching,
{
    match loaded {
        Some(c) => c,
        None => Config::new(),
    }
}

} // verus!
