use sunset_switcher::config::Config;
use sunset_switcher::scheduler::daily_job_commit;
use sunset_switcher::scheduler::daily_job_due;
use sunset_switcher::scheduler::daily_job_wants_fetch;
use sunset_switcher::scheduler::hourly_job_due;
use sunset_switcher::scheduler::hourly_job_step;
use sunset_switcher::scheduler::plan_tick;
use sunset_switcher::shared_state::SharedState;
use sunset_switcher::sun_data::SunData;
use sunset_switcher::theme::Theme;
use sunset_switcher::time::Timestamp;

const HOUR: u64 = 3600;

fn snapshot(sunrise_hour: u64, sunset_hour: u64) -> SunData {
    // Sunrise and sunset on the same day, the sunrise instant first, as a
    // well-formed snapshot requires.
    let sunrise = Timestamp::new(sunrise_hour * HOUR);
    let sunset = Timestamp::new(sunset_hour * HOUR);
    SunData {
        sunrise,
        sunset,
        solar_noon: Timestamp::new(12 * HOUR),
        day_length_seconds: 13 * 3600,
        civil_twilight_begin: sunrise,
        civil_twilight_end: sunset,
        nautical_twilight_begin: sunrise,
        nautical_twilight_end: sunset,
        astronomical_twilight_begin: sunrise,
        astronomical_twilight_end: sunset,
    }
}

fn enabled_state_with(data: SunData) -> SharedState {
    let mut s = SharedState::new(Config::new());
    s.set_sun_data(data);
    s
}

#[test]
fn hourly_job_due_at_minute_five() {
    // Second 0 of minute 5 of any hour.
    assert!(hourly_job_due(Timestamp::new(5 * 60)));
    assert!(hourly_job_due(Timestamp::new(7 * HOUR + 5 * 60)));
    assert!(!hourly_job_due(Timestamp::new(7 * HOUR + 5 * 60 + 1)));
    assert!(!hourly_job_due(Timestamp::new(7 * HOUR + 4 * 60)));
    assert!(!hourly_job_due(Timestamp::new(0)));
}

#[test]
fn daily_job_due_at_six() {
    // 06:00:00 of any day.
    assert!(daily_job_due(Timestamp::new(6 * HOUR)));
    assert!(daily_job_due(Timestamp::new(86400 + 6 * HOUR)));
    assert!(!daily_job_due(Timestamp::new(6 * HOUR + 1)));
    assert!(!daily_job_due(Timestamp::new(6 * HOUR + 60)));
    assert!(!daily_job_due(Timestamp::new(7 * HOUR)));
}

#[test]
fn hourly_job_twice_in_same_hour_same_selection() {
    let s = enabled_state_with(snapshot(6, 19));
    let first = hourly_job_step(&s, Timestamp::new(20 * HOUR + 5 * 60));
    let second = hourly_job_step(&s, Timestamp::new(20 * HOUR + 40 * 60));
    assert_eq!(first, Some(Theme::Dark));
    assert_eq!(first, second);
}

#[test]
fn hourly_job_skips_when_disabled() {
    let mut s = enabled_state_with(snapshot(6, 19));
    s.set_config(Config { automatic_switching: false });
    assert_eq!(hourly_job_step(&s, Timestamp::new(12 * HOUR)), None);
}

#[test]
fn hourly_job_skips_without_data() {
    let s = SharedState::new(Config::new());
    assert_eq!(hourly_job_step(&s, Timestamp::new(12 * HOUR)), None);
}

#[test]
fn daily_job_fetches_only_when_enabled() {
    let mut s = SharedState::new(Config::new());
    assert!(daily_job_wants_fetch(&s));
    s.set_config(Config { automatic_switching: false });
    assert!(!daily_job_wants_fetch(&s));
}

#[test]
fn daily_refresh_failure_keeps_previous_snapshot() {
    let data = snapshot(6, 19);
    let mut s = enabled_state_with(data);
    daily_job_commit(&mut s, None);
    assert_eq!(s.get_sun_data(), Some(data));
    assert!(s.get_config().automatic_switching);
}

#[test]
fn daily_refresh_failure_with_empty_cache_leaves_it_empty() {
    let mut s = SharedState::new(Config::new());
    daily_job_commit(&mut s, None);
    assert_eq!(s.get_sun_data(), None);
}

#[test]
fn daily_refresh_success_replaces_snapshot() {
    let mut s = enabled_state_with(snapshot(6, 19));
    let fresh = snapshot(7, 18);
    daily_job_commit(&mut s, Some(fresh));
    assert_eq!(s.get_sun_data(), Some(fresh));
}

#[test]
fn tick_plan_runs_due_jobs_only() {
    let s = enabled_state_with(snapshot(6, 19));
    // Minute 5 of hour 20: hourly job due, daily not; hour 20 is night.
    let p = plan_tick(&s, Timestamp::new(20 * HOUR + 5 * 60));
    assert_eq!(p.apply, Some(Theme::Dark));
    assert!(!p.fetch);
    // Minute 5 of hour 12: hourly job due again; hour 12 is daytime.
    let p = plan_tick(&s, Timestamp::new(12 * HOUR + 5 * 60));
    assert_eq!(p.apply, Some(Theme::Light));
    assert!(!p.fetch);
    // 06:00:00: daily job due, hourly not.
    let p = plan_tick(&s, Timestamp::new(6 * HOUR));
    assert_eq!(p.apply, None);
    assert!(p.fetch);
    // An ordinary second: neither.
    let p = plan_tick(&s, Timestamp::new(12 * HOUR + 30 * 60 + 7));
    assert_eq!(p.apply, None);
    assert!(!p.fetch);
}

#[test]
fn tick_plan_idle_when_disabled() {
    let mut s = enabled_state_with(snapshot(6, 19));
    s.set_config(Config { automatic_switching: false });
    let p = plan_tick(&s, Timestamp::new(20 * HOUR + 5 * 60));
    assert_eq!(p.apply, None);
    let p = plan_tick(&s, Timestamp::new(6 * HOUR));
    assert!(!p.fetch);
}
