//! The scheduler core: when the two recurring jobs are due, and what each of
//! them does to the shared state.
//!
//! A driver loop runs one tick about every second. Each tick it plans from a
//! snapshot of the state what is to be done — apply a theme, fetch fresh sun
//! data — performs the outside work, and commits the outcome back. Both jobs
//! are no-ops while automatic switching is off.

use vstd::prelude::*;
use crate::config::Config;
use crate::decision::decide;
use crate::decision::decision;
use crate::shared_state::SharedState;
use crate::sun_data::SunData;
use crate::theme::Theme;
use crate::time::Timestamp;
use crate::time::hour_spec;
use crate::time::minute_spec;
use crate::time::second_spec;

verus! {

/// Minute of every hour at which the hourly recompute job fires.
pub const HOURLY_JOB_MINUTE: u64 = 5;

/// Hour of the day (UTC) at which the daily data-refresh job fires, chosen
/// before a typical sunrise.
pub const DAILY_JOB_HOUR: u64 = 6;

/// The hourly recompute job is due exactly at second 0 of its fixed minute.
pub open spec fn hourly_job_due_spec(t: Timestamp) -> bool {
    minute_spec(t) == HOURLY_JOB_MINUTE && second_spec(t) == 0
}

/// The daily refresh job is due exactly at second 0, minute 0 of its fixed
/// hour.
pub open spec fn daily_job_due_spec(t: Timestamp) -> bool {
    hour_spec(t) == DAILY_JOB_HOUR && minute_spec(t) == 0 && second_spec(t) == 0
}

pub fn hourly_job_due(t: Timestamp) -> (b: bool)
    ensures
        b == hourly_job_due_spec(t),
{
    t.minute() == HOURLY_JOB_MINUTE && t.second() == 0
}

pub fn daily_job_due(t: Timestamp) -> (b: bool)
    ensures
        b == daily_job_due_spec(t),
{
    t.hour() == DAILY_JOB_HOUR && t.minute() == 0 && t.second() == 0
}

/// What one run of the hourly job selects: the decision for `now`, where
/// automatic switching is on and a snapshot is cached; nothing otherwise
/// (switched off, or nothing fetched yet — a silent skip, not an error).
pub open spec fn hourly_job_outcome(
    config: Config,
    sun_data: Option<SunData>,
    now: Timestamp,
) -> Option<Theme> {
    if config.automatic_switching && sun_data is Some {
        Some(decision(now, sun_data->0))
    } else {
        None
    }
}

/// One run of the hourly recompute job, on a snapshot of the state. Returns
/// the selection the caller is to hand to the theme switch, or `None` where
/// the job is a no-op. Reads the state, writes nothing.
pub fn hourly_job_step(state: &SharedState, now: Timestamp) -> (r: Option<Theme>)
    ensures
        r == hourly_job_outcome(state.config, state.sun_data, now),
{
    if !state.get_config().automatic_switching {
        return None;
    }
    match state.get_sun_data() {
        None => None,
        Some(data) => Some(decide(now, &data)),
    }
}

/// The hourly job is idempotent within an hour: run twice with unchanged
/// configuration and sun data, at two instants of the same hour of the day,
/// it selects the same theme both times — there is no internal toggling
/// state.
pub proof fn lemma_hourly_job_idempotent_within_hour(
    config: Config,
    sun_data: Option<SunData>,
    now1: Timestamp,
    now2: Timestamp,
)
    requires
        hour_spec(now1) == hour_spec(now2),
    ensures
        hourly_job_outcome(config, sun_data, now1) == hourly_job_outcome(config, sun_data, now2),
{
}

/// Whether one run of the daily refresh job is to fetch fresh sun data:
/// exactly when automatic switching is on.
pub fn daily_job_wants_fetch(state: &SharedState) -> (b: bool)
    ensures
        b == state.config.automatic_switching,
{
    state.get_config().automatic_switching
}

/// Commits the outcome of the daily job's fetch. A successful fetch replaces
/// the cached snapshot as a whole; a failed one (`None`) leaves the previous
/// snapshot — if any — unchanged and readable, and no retry happens before
/// the job's next scheduled occurrence. The configuration is untouched.
pub fn daily_job_commit(state: &mut SharedState, fetched: Option<SunData>)
    requires
        fetched matches Some(d) ==> d.well_formed(),
    ensures
        fetched matches Some(d) ==> final(state).sun_data == Some(d),
        fetched is None ==> final(state).sun_data == old(state).sun_data,
        final(state).config == old(state).config,
        old(state).well_formed() ==> final(state).well_formed(),
{
    match fetched {
        Some(data) => state.set_sun_data(data),
        None => (),
    }
}

/// What one tick is to do, planned from a snapshot of the state: the jobs due
/// at this instant, in their registration order — the hourly recompute first,
/// the daily refresh second.
pub struct TickPlan {
    /// Theme the hourly job selected this tick, to be applied; `None` where
    /// the job was not due or was a no-op.
    pub apply: Option<Theme>,
    /// Whether the daily job is to fetch fresh sun data this tick.
    pub fetch: bool,
}

/// Plans one tick of the scheduler loop at instant `now`. Reads the state,
/// writes nothing; a fetch the plan calls for is performed by the driver and
/// committed through `daily_job_commit`.
pub fn plan_tick(state: &SharedState, now: Timestamp) -> (p: TickPlan)
    ensures
        p.apply == (if hourly_job_due_spec(now) {
            hourly_job_outcome(state.config, state.sun_data, now)
        } else {
            None::<Theme>
        }),
        p.fetch == (daily_job_due_spec(now) && state.config.automatic_switching),
{
    let apply: Option<Theme> = if hourly_job_due(now) {
        hourly_job_step(state, now)
    } else {
        None
    };
    let fetch: bool = daily_job_due(now) && daily_job_wants_fetch(state);
    TickPlan { apply, fetch }
}

} // verus!
