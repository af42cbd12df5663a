//! The shared container for the configuration and the cached sun data.
//!
//! One value of this type is the single owner of both pieces of state. Every
//! read returns a copied-out snapshot and every write replaces a whole value;
//! a caller that shares it across threads serializes the four operations
//! behind one point of exclusive access and never holds a live alias into it.

use vstd::prelude::*;
use crate::config::Config;
use crate::sun_data::SunData;

verus! {

pub struct SharedState {
    pub config: Config,
    pub sun_data: Option<SunData>,
}

/// The state after one replacement of the cached snapshot: the whole snapshot
/// is the given one, the configuration is untouched.
pub open spec fn after_set_sun_data(s: SharedState, data: SunData) -> SharedState {
    SharedState { sun_data: Some(data), config: s.config }
}

/// The state after one replacement of the configuration: the cached snapshot
/// is untouched.
pub open spec fn after_set_config(s: SharedState, config: Config) -> SharedState {
    SharedState { config, sun_data: s.sun_data }
}

impl SharedState {
    /// The container's invariant: a cached snapshot, where one exists, is
    /// internally consistent.
    pub open spec fn well_formed(&self) -> bool {
        self.sun_data matches Some(d) ==> d.well_formed()
    }

    /// A fresh container: the given configuration, no sun data fetched yet.
    pub fn new(config: Config) -> (s: SharedState)
        ensures
            s.config == config,
            s.sun_data is None,
            s.well_formed(),
    {
        SharedState { config, sun_data: None }
    }

    /// Read-only snapshot of the configuration.
    pub fn get_config(&self) -> (c: Config)
        ensures
            c == self.config,
    {
        self.config
    }

    /// Replaces the configuration; the cached sun data is untouched.
    pub fn set_config(&mut self, config: Config)
        ensures
            *final(self) == after_set_config(*old(self), config),
            final(self).config == config,
            final(self).sun_data == old(self).sun_data,
            old(self).well_formed() ==> final(self).well_formed(),
    {
        self.config = config;
    }

    /// Read-only snapshot of the cached sun data; a copy, never a live alias.
    pub fn get_sun_data(&self) -> (d: Option<SunData>)
        ensures
            d == self.sun_data,
    {
        self.sun_data
    }

    /// Unconditionally replaces the cached snapshot as a whole; the
    /// configuration is untouched.
    pub fn set_sun_data(&mut self, data: SunData)
        requires
            data.well_formed(),
        ensures
            *final(self) == after_set_sun_data(*old(self), data),
            final(self).sun_data == Some(data),
            final(self).config == old(self).config,
            final(self).well_formed(),
    {
        self.sun_data = Some(data);
    }
}

/// Replacements of the cached snapshot cannot tear: two writes of snapshots
/// `a` and `b`, serialized in either order, leave the cache holding exactly
/// one of the two attempted snapshots, whole — never a value mixing fields of
/// both — and the later writer wins.
pub proof fn lemma_sun_data_writes_untorn(s: SharedState, a: SunData, b: SunData)
    ensures
        after_set_sun_data(after_set_sun_data(s, a), b).sun_data == Some(b),
        after_set_sun_data(after_set_sun_data(s, b), a).sun_data == Some(a),
        after_set_sun_data(after_set_sun_data(s, a), b).config == s.config,
        after_set_sun_data(after_set_sun_data(s, b), a).config == s.config,
{
}

} // verus!
