//! Synchronization for the single-core boot phase: a lock in name only,
//! since exactly one thread of execution exists while this code runs.

use vstd::prelude::*;

verus! {

/// Wraps the data a driver shares. During boot there is no concurrency, so
/// taking the lock is simply borrowing the data.
pub struct NullLock<T> {
    pub data: T,
}

impl<T> NullLock<T> {
    pub fn new(data: T) -> (r: Self)
        ensures
            r.data == data,
    {
        Self { data }
    }

    pub fn get(&self) -> (r: &T)
        ensures
            *r == self.data,
    {
        &self.data
    }
}

} // verus!
