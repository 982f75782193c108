//! An injectable source of time.

use vstd::prelude::*;

verus! {

/// A source of time: a function that is asked for the current time, so that
/// a test can put a clock of its own in the place of the real one.
pub struct TimeGetter<F: Fn() -> i64> {
    f: F,
}

impl<F: Fn() -> i64> TimeGetter<F> {
    /// The function that the getter asks.
    pub closed spec fn spec_getter(&self) -> F {
        self.f
    }

    pub fn new(f: F) -> (r: Self)
        ensures
            r.spec_getter() == f,
    {
        Self { f }
    }

    /// Asks the function for the time and returns its answer.
    pub fn get_time(&self) -> (r: i64)
        requires
            call_requires(self.spec_getter(), ()),
        ensures
            call_ensures(self.spec_getter(), (), r),
    {
        (self.f)()
    }

    pub fn getter(&self) -> (r: &F)
        ensures
            *r == self.spec_getter(),
    {
        &self.f
    }
}

} // verus!
