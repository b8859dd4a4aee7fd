//! The persisted root: the profile store and the time of its last save.

use crate::profile::HostConfigView;
use crate::store::ProfileStore;
use vstd::prelude::*;

verus! {

/// The mathematical content of a [`Config`].
pub struct ConfigView {
    pub profiles: Map<Seq<char>, HostConfigView>,
    pub updated_at: i64,
}

/// What the configuration file holds: the profiles, and the time of the
/// last save in seconds since the Unix epoch.
#[derive(Debug)]
pub struct Config {
    pub profiles: ProfileStore,
    pub updated_at: i64,
}

impl View for Config {
    type V = ConfigView;

    open spec fn view(&self) -> ConfigView {
        ConfigView { profiles: self.profiles@, updated_at: self.updated_at }
    }
}

impl Config {
    /// A configuration without profiles, as of the given time.
    pub fn new(now: i64) -> (config: Config)
        ensures
            config@ == (ConfigView { profiles: Map::empty(), updated_at: now }),
    {
        Config { profiles: ProfileStore::new(), updated_at: now }
    }

    /// Whether two configurations hold the same profiles and the same time.
    pub fn same(&self, other: &Config) -> (same: bool)
        ensures
            same == (self@ == other@),
    {
        self.updated_at == other.updated_at && self.profiles.same(&other.profiles)
    }
}

} // verus!
