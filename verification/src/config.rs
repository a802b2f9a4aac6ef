//! The settings file of a tier.
use vstd::prelude::*;

use crate::profile::first_set;

verus! {

/// The settings of one tier: the profile used when none is named.
#[derive(Debug)]
pub struct Config {
    pub default_profile: Option<String>,
}

impl Default for Config {
    fn default() -> (c: Self)
        ensures
            c.default_profile is None,
    {
        Config { default_profile: None }
    }
}

impl Config {
    /// The default profile in effect: the user tier's where it sets one,
    /// else the system tier's.
    pub fn resolve_default_profile(user: Config, system: Config) -> (r: Option<String>)
        ensures
            r == first_set(user.default_profile, system.default_profile),
    {
        match user.default_profile {
            Some(name) => Some(name),
            None => system.default_profile,
        }
    }
}

} // verus!
