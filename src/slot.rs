//! The one current reading, which the poller overwrites and the pages read.
//! A program shares it between threads behind a lock of its choice; each
//! method here is one whole step under that lock.

use vstd::prelude::*;

verus! {

/// The current reading in micro-degrees, or unknown.
pub struct AppState {
    pub temperature: Option<i64>,
}

impl View for AppState {
    type V = Option<i64>;

    open spec fn view(&self) -> Option<i64> {
        self.temperature
    }
}

impl AppState {
    /// A state whose reading is unknown.
    pub fn new() -> (s: Self)
        ensures
            s@ == None::<i64>,
    {
        AppState { temperature: None }
    }

    /// The reading that the latest write left.
    pub fn read(&self) -> (r: Option<i64>)
        ensures
            r == self@,
    {
        self.temperature
    }

    /// Replaces the reading as a whole.
    pub fn write(&mut self, reading: Option<i64>)
        ensures
            final(self)@ == reading,
    {
        self.temperature = reading;
    }
}

} // verus!
