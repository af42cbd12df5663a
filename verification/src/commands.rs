//! The foreground command path: toggling automatic switching on demand.
//!
//! Toggling runs in two steps around the one piece of outside work it may
//! need. First the caller asks whether a fetch is needed (`toggle_needs_fetch`);
//! exactly where it is, the caller performs one fetch. Then `toggle_commit`
//! takes the fetch's outcome, stores a fresh snapshot, records the requested
//! flag — also when the fetch failed, so the setting always ends up as
//! requested — and says which theme, if any, is to be applied once before the
//! command returns. A fetch failure is surfaced to the caller as `FetchError`,
//! unlike the scheduled job's silent one.

use vstd::prelude::*;
use crate::config::Config;
use crate::decision::decide;
use crate::decision::decision;
use crate::shared_state::SharedState;
use crate::sun_data::SunData;
use crate::theme::Theme;
use crate::time::Timestamp;

verus! {

/// Remote sun data could not be obtained.
#[derive(Clone, Copy, PartialEq, Eq, Structural, Debug)]
pub enum FetchError {
    /// The remote service could not be reached or answered with a failure.
    Unavailable,
    /// The service answered, but not with a usable snapshot.
    Malformed,
}

/// A toggle needs a fetch exactly when it enables automatic switching while
/// no snapshot is cached yet.
pub open spec fn fetch_needed(s: SharedState, enabled: bool) -> bool {
    enabled && s.sun_data is None
}

/// Whether toggling automatic switching to `enabled` must first fetch sun
/// data: only enabling with an empty cache does; disabling never does.
pub fn toggle_needs_fetch(state: &SharedState, enabled: bool) -> (b: bool)
    ensures
        b == fetch_needed(*state, enabled),
        !enabled ==> !b,
{
    enabled && state.get_sun_data().is_none()
}

/// The state a toggle commit leaves: the flag as requested, the cache
/// replaced by a successfully fetched snapshot and otherwise untouched.
pub open spec fn toggle_result(s: SharedState, enabled: bool, fetched: Option<SunData>) -> SharedState {
    SharedState {
        config: Config { automatic_switching: enabled },
        sun_data: if fetched is Some {
            fetched
        } else {
            s.sun_data
        },
    }
}

/// The theme a toggle commit asks the caller to apply: when enabling with a
/// snapshot available (cached or just fetched), the decision for `now`;
/// nothing when disabling, and nothing when enabling while the fetch failed
/// and no snapshot was cached.
pub open spec fn toggle_theme(s: SharedState, enabled: bool, fetched: Option<SunData>, now: Timestamp) -> Option<Theme> {
    if enabled && toggle_result(s, enabled, fetched).sun_data is Some {
        Some(decision(now, toggle_result(s, enabled, fetched).sun_data->0))
    } else {
        None
    }
}

/// Commits a toggle of automatic switching. `fetched` is the outcome of the
/// one fetch the toggle needed, `None` where none was needed or it failed.
/// The requested flag is recorded unconditionally — a failed fetch does not
/// keep the setting from ending up as requested. Returns the theme to apply
/// once before the command returns, if any; the caller persists the
/// configuration afterwards.
pub fn toggle_commit(
    state: &mut SharedState,
    enabled: bool,
    fetched: Option<SunData>,
    now: Timestamp,
) -> (r: Option<Theme>)
    requires
        fetched matches Some(d) ==> d.well_formed(),
    ensures
        *final(state) == toggle_result(*old(state), enabled, fetched),
        final(state).config.automatic_switching == enabled,
        fetched matches Some(d) ==> final(state).sun_data == Some(d),
        fetched is None ==> final(state).sun_data == old(state).sun_data,
        r == toggle_theme(*old(state), enabled, fetched, now),
        !enabled ==> r is None,
        old(state).well_formed() ==> final(state).well_formed(),
{
    match fetched {
        Some(data) => state.set_sun_data(data),
        None => (),
    }
    state.set_config(Config { automatic_switching: enabled });
    if !enabled {
        return None;
    }
    match state.get_sun_data() {
        None => None,
        Some(data) => Some(decide(now, &data)),
    }
}

/// Disabling automatic switching triggers nothing, whatever the cache holds:
/// no fetch is needed, no theme is applied, and the cached snapshot is left
/// unchanged — only the flag is recorded.
pub proof fn lemma_disable_triggers_nothing(s: SharedState, fetched: Option<SunData>, now: Timestamp)
    ensures
        !fetch_needed(s, false),
        toggle_theme(s, false, fetched, now) is None,
        toggle_result(s, false, None).sun_data == s.sun_data,
        !toggle_result(s, false, fetched).config.automatic_switching,
{
}

/// Enabling automatic switching with an empty cache needs exactly one fetch,
/// and, when that fetch succeeds with snapshot `d`, caches `d` whole and asks
/// for exactly one application: the decision for `now` on `d`.
pub proof fn lemma_enable_fetches_once_then_applies_once(s: SharedState, d: SunData, now: Timestamp)
    requires
        s.sun_data is None,
    ensures
        fetch_needed(s, true),
        toggle_result(s, true, Some(d)).sun_data == Some(d),
        toggle_theme(s, true, Some(d), now) == Some(decision(now, d)),
{
}

/// Enabling automatic switching with a snapshot already cached needs no
/// fetch, and the commit decides from the cached snapshot.
pub proof fn lemma_enable_with_cache_skips_fetch(s: SharedState, d: SunData, now: Timestamp)
    requires
        s.sun_data == Some(d),
    ensures
        !fetch_needed(s, true),
        toggle_result(s, true, None).sun_data == Some(d),
        toggle_theme(s, true, None, now) == Some(decision(now, d)),
{
}

} // verus!
