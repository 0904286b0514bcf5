//! The last-known weather state.
//!
//! One owner holds the latest snapshot, the loading flag, and the last error.
//! A fetch beginning sets the flag and keeps stale data visible; the outcome
//! clears the flag and either replaces the snapshot (clearing the error) or
//! records the error (keeping the last known-good snapshot). Stale-but-present
//! data is always preferred over blanking the display.

use crate::weather::WeatherData;
use vstd::prelude::*;

verus! {

/// What one fetch attempt produced.
#[derive(Clone, Debug, PartialEq, Eq)]
pub enum FetchOutcome {
    Success(WeatherData),
    Failure(String),
}

/// The latest snapshot, the loading flag, and the last error. Mutation is
/// meant to flow through `begin_fetch` and `complete` only; the presentation
/// layer reads.
#[derive(Clone, Debug, PartialEq, Eq)]
pub struct WeatherState {
    pub snapshot: Option<WeatherData>,
    pub loading: bool,
    pub last_error: Option<String>,
}

impl WeatherState {
    /// The state starts empty: nothing fetched, nothing loading, no error.
    pub fn new() -> (s: Self)
        ensures
            s.snapshot is None,
            !s.loading,
            s.last_error is None,
    {
        WeatherState { snapshot: None, loading: false, last_error: None }
    }

    /// A fetch begins: the loading flag goes up, and the previous snapshot
    /// and error stay visible while the refresh runs.
    pub fn begin_fetch(&mut self)
        ensures
            final(self).loading,
            final(self).snapshot == old(self).snapshot,
            final(self).last_error == old(self).last_error,
    {
        self.loading = true;
    }

    /// A fetch outcome arrives: loading ends; a success replaces the
    /// snapshot and clears the error, a failure records the error and leaves
    /// the last known-good snapshot untouched.
    pub fn complete(&mut self, outcome: FetchOutcome)
        ensures
            !final(self).loading,
            match outcome {
                FetchOutcome::Success(w) => final(self).snapshot == Option::Some(w)
                    && final(self).last_error is None,
                FetchOutcome::Failure(msg) => final(self).snapshot == old(self).snapshot
                    && final(self).last_error == Option::Some(msg),
            },
    {
        self.loading = false;
        match outcome {
            FetchOutcome::Success(w) => {
                self.snapshot = Some(w);
                self.last_error = None;
            },
            FetchOutcome::Failure(msg) => {
                self.last_error = Some(msg);
            },
        }
    }

    /// Read access for the presentation layer: the snapshot, the loading
    /// flag, and the last error, exactly as held.
    pub fn current(&self) -> (r: (&Option<WeatherData>, bool, &Option<String>))
        ensures
            *r.0 == self.snapshot,
            r.1 == self.loading,
            *r.2 == self.last_error,
    {
        (&self.snapshot, self.loading, &self.last_error)
    }
}

} // verus!
