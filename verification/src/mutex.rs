//! A critical section based mutex.

use vstd::prelude::*;

verus! {

/// A critical section based mutex
pub struct CriticalSectionMutex<T> {
    data: T,
}

impl<T> CriticalSectionMutex<T> {
    /// The protected data.
    pub closed spec fn spec_data(&self) -> T {
        self.data
    }

    /// Create a new mutex
    pub fn new(data: T) -> (r: Self)
        ensures
            r.spec_data() == data,
    {
        CriticalSectionMutex { data }
    }

    /// Returns the protected data, giving the mutex up
    pub fn into_inner(self) -> (r: T)
        ensures
            r == self.spec_data(),
    {
        self.data
    }
}

} // verus!
