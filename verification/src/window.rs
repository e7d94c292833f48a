use vstd::prelude::*;

verus! {

/// Mathematical model of an event-time window: the two bounds of its
/// half-open interval, as unbounded integers.
pub struct WindowModel {
    pub min_timestamp: int,
    pub max_timestamp: int,
}

impl WindowModel {
    /// A timestamp belongs to a window when it lies in the half-open interval
    /// `[min_timestamp, max_timestamp)`: the lower bound is included, the
    /// upper bound is excluded.
    pub open spec fn contains(self, timestamp: int) -> bool {
        self.min_timestamp <= timestamp < self.max_timestamp
    }
}

/// An event-time window, identified by the half-open interval
/// `[min_timestamp, max_timestamp)`. Two windows are equal exactly when both
/// bounds match.
#[derive(Clone, Copy, PartialEq, Eq, Structural, Debug)]
pub struct Window {
    pub min_timestamp: i64,
    pub max_timestamp: i64,
}

impl View for Window {
    type V = WindowModel;

    open spec fn view(&self) -> WindowModel {
        WindowModel {
            min_timestamp: self.min_timestamp as int,
            max_timestamp: self.max_timestamp as int,
        }
    }
}

impl DeepView for Window {
    type V = WindowModel;

    open spec fn deep_view(&self) -> WindowModel {
        self.view()
    }
}

impl Window {
    pub fn new(min_timestamp: i64, max_timestamp: i64) -> (w: Window)
        ensures
            w@ == (WindowModel {
                min_timestamp: min_timestamp as int,
                max_timestamp: max_timestamp as int,
            }),
    {
        Window { min_timestamp, max_timestamp }
    }

    /// Inclusive lower bound of the window.
    pub fn min_timestamp(&self) -> (r: i64)
        ensures
            r as int == self@.min_timestamp,
    {
        self.min_timestamp
    }

    /// Exclusive upper bound of the window.
    pub fn max_timestamp(&self) -> (r: i64)
        ensures
            r as int == self@.max_timestamp,
    {
        self.max_timestamp
    }

    /// Whether `timestamp` falls inside this window's half-open interval.
    pub fn contains_timestamp(&self, timestamp: i64) -> (r: bool)
        ensures
            r == self@.contains(timestamp as int),
    {
        self.min_timestamp <= timestamp && timestamp < self.max_timestamp
    }
}

} // verus!
