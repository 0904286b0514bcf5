use cosmic_weather::config::{configured_coordinates, refresh_policy_of, Config};
use cosmic_weather::coords::Coordinates;
use cosmic_weather::scheduler::{
    effective_interval_minutes, timer_active, timer_period_seconds, RefreshPolicy,
    RefreshScheduler, SchedulerPhase, TriggerEvent, MIN_INTERVAL_MINUTES,
};
use cosmic_weather::state::{FetchOutcome, WeatherState};
use cosmic_weather::weather::WeatherData;

fn oslo_policy() -> RefreshPolicy {
    RefreshPolicy {
        auto_enabled: true,
        interval_minutes: 15,
        coordinates: Some(Coordinates { latitude_micro: 59_910_000, longitude_micro: 10_750_000 }),
    }
}

fn sample_snapshot() -> WeatherData {
    WeatherData {
        temperature_milli: 5_200,
        feels_like_milli: 5_200,
        humidity: 80,
        condition_code: "lightrain".to_string(),
        description: "Light rain".to_string(),
        icon: "10d".to_string(),
        location: "(59.91, 10.75)".to_string(),
        timestamp: 1_700_000_000,
    }
}

#[test]
fn interval_floor_raises_one_minute_to_five() {
    assert_eq!(MIN_INTERVAL_MINUTES, 5);
    assert_eq!(effective_interval_minutes(1), 5);
    assert_eq!(effective_interval_minutes(0), 5);
    assert_eq!(effective_interval_minutes(5), 5);
    assert_eq!(effective_interval_minutes(15), 15);
    let mut p = oslo_policy();
    p.interval_minutes = 1;
    assert_eq!(timer_period_seconds(&p), 300);
    p.interval_minutes = 15;
    assert_eq!(timer_period_seconds(&p), 900);
}

#[test]
fn timer_exists_only_with_auto_update_and_coordinates() {
    let p = oslo_policy();
    assert!(timer_active(&p));
    let mut no_auto = oslo_policy();
    no_auto.auto_enabled = false;
    assert!(!timer_active(&no_auto));
    let mut no_coords = oslo_policy();
    no_coords.coordinates = None;
    assert!(!timer_active(&no_coords));
}

#[test]
fn manual_refresh_while_fetching_starts_no_second_fetch() {
    let policy = oslo_policy();
    let mut scheduler = RefreshScheduler::new();
    let mut state = WeatherState::new();
    let mut requests = 0;

    // One trigger starts exactly one fetch.
    if scheduler.on_trigger(TriggerEvent::ManualRefresh, &policy) {
        state.begin_fetch();
        requests += 1;
    }
    assert_eq!(scheduler.phase, SchedulerPhase::Fetching);
    assert!(state.loading);

    // Triggers during the in-flight fetch are all ignored.
    assert!(!scheduler.on_trigger(TriggerEvent::ManualRefresh, &policy));
    assert!(!scheduler.on_trigger(TriggerEvent::TimerTick, &policy));
    assert!(!scheduler.on_trigger(TriggerEvent::CoordinatesChanged, &policy));
    assert_eq!(scheduler.phase, SchedulerPhase::Fetching);
    assert_eq!(requests, 1);

    // Exactly one completion follows; the machine is released.
    scheduler.on_outcome();
    state.complete(FetchOutcome::Success(sample_snapshot()));
    assert_eq!(scheduler.phase, SchedulerPhase::Idle);
    assert!(!state.loading);
}

#[test]
fn triggers_need_valid_coordinates() {
    let mut scheduler = RefreshScheduler::new();
    let mut no_coords = oslo_policy();
    no_coords.coordinates = None;
    assert!(!scheduler.on_trigger(TriggerEvent::Startup, &no_coords));
    let mut bad_coords = oslo_policy();
    bad_coords.coordinates =
        Some(Coordinates { latitude_micro: 95_000_000, longitude_micro: 0 });
    assert!(!scheduler.on_trigger(TriggerEvent::ManualRefresh, &bad_coords));
    assert_eq!(scheduler.phase, SchedulerPhase::Idle);
}

#[test]
fn timer_tick_needs_auto_update() {
    let mut scheduler = RefreshScheduler::new();
    let mut no_auto = oslo_policy();
    no_auto.auto_enabled = false;
    assert!(!scheduler.on_trigger(TriggerEvent::TimerTick, &no_auto));
    // A manual refresh still works without auto update.
    assert!(scheduler.on_trigger(TriggerEvent::ManualRefresh, &no_auto));
}

#[test]
fn outcome_always_returns_to_idle() {
    let policy = oslo_policy();
    let mut scheduler = RefreshScheduler::new();
    assert!(scheduler.on_trigger(TriggerEvent::Startup, &policy));
    scheduler.on_outcome();
    assert_eq!(scheduler.phase, SchedulerPhase::Idle);
    // After release a new trigger may start the next fetch.
    assert!(scheduler.on_trigger(TriggerEvent::TimerTick, &policy));
}

#[test]
fn state_starts_empty() {
    let state = WeatherState::new();
    let (snapshot, loading, error) = state.current();
    assert!(snapshot.is_none());
    assert!(!loading);
    assert!(error.is_none());
}

#[test]
fn begin_fetch_keeps_stale_data_visible() {
    let mut state = WeatherState::new();
    state.complete(FetchOutcome::Success(sample_snapshot()));
    state.begin_fetch();
    let (snapshot, loading, error) = state.current();
    assert_eq!(snapshot.as_ref(), Some(&sample_snapshot()));
    assert!(loading);
    assert!(error.is_none());
}

#[test]
fn success_replaces_snapshot_and_clears_error() {
    let mut state = WeatherState::new();
    state.begin_fetch();
    state.complete(FetchOutcome::Failure("no route to host".to_string()));
    assert_eq!(state.last_error.as_deref(), Some("no route to host"));
    state.begin_fetch();
    state.complete(FetchOutcome::Success(sample_snapshot()));
    let (snapshot, loading, error) = state.current();
    assert_eq!(snapshot.as_ref(), Some(&sample_snapshot()));
    assert!(!loading);
    assert!(error.is_none());
}

#[test]
fn failure_keeps_the_last_known_good_snapshot() {
    let mut state = WeatherState::new();
    state.complete(FetchOutcome::Success(sample_snapshot()));
    state.begin_fetch();
    state.complete(FetchOutcome::Failure("status 503".to_string()));
    let (snapshot, loading, error) = state.current();
    assert_eq!(snapshot.as_ref(), Some(&sample_snapshot()));
    assert!(!loading);
    assert_eq!(error.as_deref(), Some("status 503"));
}

#[test]
fn config_new_defaults() {
    let c = Config::new(
        Some("59.91".to_string()),
        Some("10.75".to_string()),
        Some("Oslo".to_string()),
    );
    assert_eq!(c.latitude.as_deref(), Some("59.91"));
    assert_eq!(c.longitude.as_deref(), Some("10.75"));
    assert_eq!(c.city.as_deref(), Some("Oslo"));
    assert_eq!(c.units, "metric");
    assert!(c.auto_update);
    assert_eq!(c.update_interval, 15);
}

#[test]
fn config_default_is_empty() {
    let c = Config::default();
    assert!(c.latitude.is_none());
    assert!(c.longitude.is_none());
    assert!(c.city.is_none());
    assert_eq!(c.units, "");
    assert!(!c.auto_update);
    assert_eq!(c.update_interval, 0);
}

#[test]
fn configured_coordinates_parse_both_strings() {
    let c = Config::new(Some("59.91".to_string()), Some("10.75".to_string()), None);
    assert_eq!(
        configured_coordinates(&c),
        Some(Coordinates { latitude_micro: 59_910_000, longitude_micro: 10_750_000 })
    );
    let missing = Config::new(Some("59.91".to_string()), None, None);
    assert_eq!(configured_coordinates(&missing), None);
    let garbled = Config::new(Some("59,91".to_string()), Some("10.75".to_string()), None);
    assert_eq!(configured_coordinates(&garbled), None);
    let out_of_range = Config::new(Some("99.0".to_string()), Some("10.75".to_string()), None);
    assert_eq!(configured_coordinates(&out_of_range), None);
}

#[test]
fn refresh_policy_mirrors_the_configuration() {
    let c = Config::new(Some("59.91".to_string()), Some("10.75".to_string()), None);
    let p = refresh_policy_of(&c);
    assert!(p.auto_enabled);
    assert_eq!(p.interval_minutes, 15);
    assert_eq!(
        p.coordinates,
        Some(Coordinates { latitude_micro: 59_910_000, longitude_micro: 10_750_000 })
    );
}
