//! The day/night decision: a pure function from the current instant and a
//! snapshot of sun data to a theme selection.

use vstd::prelude::*;
use crate::sun_data::SunData;
use crate::theme::Theme;
use crate::time::Timestamp;
use crate::time::hour_spec;

verus! {

/// The decision rule. Night wraps midnight: `Dark` is selected exactly when
/// the current hour of the day has reached the sunset hour or has not yet
/// left the sunrise hour — `hour(now) >= hour(sunset)` or
/// `hour(now) <= hour(sunrise)`, both bounds inclusive; otherwise `Light`.
///
/// The rule deliberately compares whole hours only: minutes are ignored, so
/// an instant shortly before the sunset minute is classified like one
/// shortly after it. This hour-truncated comparison is a known approximation
/// and is preserved as such.
pub open spec fn decision(now: Timestamp, data: SunData) -> Theme {
    if hour_spec(now) >= hour_spec(data.sunset) || hour_spec(now) <= hour_spec(data.sunrise) {
        Theme::Dark
    } else {
        Theme::Light
    }
}

/// Derives the theme for the instant `now` from a populated snapshot.
/// No side effects, no failure mode.
pub fn decide(now: Timestamp, data: &SunData) -> (t: Theme)
    ensures
        t == decision(now, *data),
{
    let now_hour: u64 = now.hour();
    if now_hour >= data.sunset.hour() || now_hour <= data.sunrise.hour() {
        Theme::Dark
    } else {
        Theme::Light
    }
}

/// The decision is total and deterministic: for every instant and every
/// populated snapshot it yields one of the two selections, and equal inputs
/// always yield the same selection.
pub proof fn lemma_decision_total_and_deterministic(
    now1: Timestamp,
    data1: SunData,
    now2: Timestamp,
    data2: SunData,
)
    ensures
        decision(now1, data1) is Dark || decision(now1, data1) is Light,
        now1 == now2 && data1 == data2 ==> decision(now1, data1) == decision(now2, data2),
{
}

/// The decision reads nothing of an instant but its hour of the day: two
/// instants within the same hour are decided alike on the same snapshot.
pub proof fn lemma_decision_depends_on_hour_only(
    now1: Timestamp,
    now2: Timestamp,
    data: SunData,
)
    requires
        hour_spec(now1) == hour_spec(now2),
    ensures
        decision(now1, data) == decision(now2, data),
{
}

} // verus!
