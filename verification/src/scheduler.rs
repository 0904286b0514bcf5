//! Refresh scheduling policy: when to fetch, the interval floor, and the
//! no-overlap guarantee (at most one fetch in flight at a time).
//!
//! The scheduler is a two-state machine. A trigger — startup, a manual
//! refresh, a coordinate change, or a periodic tick — starts a fetch only
//! from the idle state and only when valid coordinates are configured; while
//! a fetch is in flight every further trigger is ignored, and the arrival of
//! the outcome always returns the machine to idle, whatever the outcome was.

use crate::coords::{coordinates_valid, valid_coordinates, Coordinates};
use vstd::prelude::*;

verus! {

/// Minimum permitted refresh interval, in minutes. The floor protects the
/// upstream provider from excessive polling and is enforced unconditionally.
pub const MIN_INTERVAL_MINUTES: u64 = 5;

/// What drives the scheduler: whether periodic refresh is on, how often it
/// asks to run, and where to fetch for.
#[derive(Clone, Copy, Debug, PartialEq, Eq, Structural)]
pub struct RefreshPolicy {
    pub auto_enabled: bool,
    pub interval_minutes: u64,
    pub coordinates: Option<Coordinates>,
}

/// Where the scheduler stands: waiting, with a fetch in flight, or resting
/// after one. No transition enters the cooldown today — an outcome returns
/// the machine straight to idle, and the interval floor alone spaces the
/// periodic fetches — but a fetch never starts from it either.
#[derive(Clone, Copy, Debug, PartialEq, Eq, Structural)]
pub enum SchedulerPhase {
    Idle,
    Fetching,
    Cooldown,
}

/// What may ask for a fetch.
#[derive(Clone, Copy, Debug, PartialEq, Eq, Structural)]
pub enum TriggerEvent {
    /// The application started with coordinates already configured.
    Startup,
    /// The user asked for a refresh.
    ManualRefresh,
    /// A coordinate value changed.
    CoordinatesChanged,
    /// The periodic timer fired.
    TimerTick,
}

/// The effective timer interval in minutes: the configured interval, raised
/// to the floor when the configuration asks for less.
pub open spec fn spec_effective_interval_minutes(configured: u64) -> u64 {
    if configured >= MIN_INTERVAL_MINUTES {
        configured
    } else {
        MIN_INTERVAL_MINUTES
    }
}

/// Applies the interval floor to a configured interval.
pub fn effective_interval_minutes(configured: u64) -> (r: u64)
    ensures
        r == spec_effective_interval_minutes(configured),
        r >= MIN_INTERVAL_MINUTES,
{
    if configured >= MIN_INTERVAL_MINUTES {
        configured
    } else {
        MIN_INTERVAL_MINUTES
    }
}

/// The interval floor holds for every configuration: even a configured
/// interval below the floor yields an effective period of at least five
/// minutes, and a configured interval at or above the floor passes through.
pub proof fn lemma_interval_floor(configured: u64)
    ensures
        spec_effective_interval_minutes(configured) >= MIN_INTERVAL_MINUTES,
        configured >= MIN_INTERVAL_MINUTES ==> spec_effective_interval_minutes(configured)
            == configured,
{
}

/// The effective timer period in seconds.
pub fn timer_period_seconds(policy: &RefreshPolicy) -> (r: u64)
    requires
        policy.interval_minutes <= u64::MAX / 60,
    ensures
        r == spec_effective_interval_minutes(policy.interval_minutes) * 60,
        r >= 300,
{
    let minutes = effective_interval_minutes(policy.interval_minutes);
    minutes * 60
}

/// The periodic timer exists only while periodic refresh is enabled and
/// coordinates are configured; otherwise only manual triggers remain.
pub open spec fn spec_timer_active(policy: RefreshPolicy) -> bool {
    policy.auto_enabled && policy.coordinates is Some
}

/// Decides whether the periodic timer subscription should exist.
pub fn timer_active(policy: &RefreshPolicy) -> (r: bool)
    ensures
        r == spec_timer_active(*policy),
{
    policy.auto_enabled && policy.coordinates.is_some()
}

/// Whether a trigger event starts a fetch: only from idle, only with valid
/// configured coordinates, and a timer tick only while the timer may exist
/// at all.
pub open spec fn spec_starts_fetch(
    phase: SchedulerPhase,
    ev: TriggerEvent,
    policy: RefreshPolicy,
) -> bool {
    &&& phase == SchedulerPhase::Idle
    &&& match policy.coordinates {
        Option::Some(c) => valid_coordinates(c),
        Option::None => false,
    }
    &&& (ev == TriggerEvent::TimerTick ==> policy.auto_enabled)
}

/// The refresh state machine.
#[derive(Clone, Copy, Debug, PartialEq, Eq, Structural)]
pub struct RefreshScheduler {
    pub phase: SchedulerPhase,
}

impl RefreshScheduler {
    /// A scheduler starts idle.
    pub fn new() -> (s: Self)
        ensures
            s.phase == SchedulerPhase::Idle,
    {
        RefreshScheduler { phase: SchedulerPhase::Idle }
    }

    /// Reacts to a trigger event. Returns whether a fetch starts now: exactly
    /// when the machine was idle, the policy holds valid coordinates, and a
    /// timer tick arrived only with periodic refresh enabled. While a fetch
    /// is in flight nothing changes and nothing starts; in particular a
    /// coordinate change neither cancels the in-flight fetch nor schedules a
    /// follow-up — the next fetch comes only from a fresh trigger.
    pub fn on_trigger(&mut self, ev: TriggerEvent, policy: &RefreshPolicy) -> (start: bool)
        ensures
            start == spec_starts_fetch(old(self).phase, ev, *policy),
            final(self).phase == if start {
                SchedulerPhase::Fetching
            } else {
                old(self).phase
            },
    {
        match self.phase {
            SchedulerPhase::Fetching => false,
            SchedulerPhase::Cooldown => false,
            SchedulerPhase::Idle => {
                let coords_ok = match &policy.coordinates {
                    Some(c) => coordinates_valid(c),
                    None => false,
                };
                let tick_ok = match ev {
                    TriggerEvent::TimerTick => policy.auto_enabled,
                    _ => true,
                };
                if coords_ok && tick_ok {
                    self.phase = SchedulerPhase::Fetching;
                    true
                } else {
                    false
                }
            },
        }
    }

    /// Reacts to the arrival of a fetch outcome: the machine returns to idle
    /// always, success or failure alike, so it can never stay stuck waiting.
    pub fn on_outcome(&mut self)
        ensures
            final(self).phase == SchedulerPhase::Idle,
    {
        self.phase = SchedulerPhase::Idle;
    }
}

/// No overlap: while a fetch is in flight, no trigger event whatsoever — not
/// a manual refresh, not a timer tick, not a coordinate change — starts a
/// second fetch; only the outcome's arrival releases the machine.
pub proof fn lemma_no_overlapping_fetch(ev: TriggerEvent, policy: RefreshPolicy)
    ensures
        !spec_starts_fetch(SchedulerPhase::Fetching, ev, policy),
{
}

} // verus!
