//! Primitive types for statistics.

use vstd::prelude::*;

verus! {

/// A monotonically increasing counter.
///
/// It holds a running total. Like a 64-bit atomic counter it wraps around past `u64::MAX`.
#[derive(Debug)]
pub struct Counter(u64);

impl View for Counter {
    type V = u64;

    closed spec fn view(&self) -> u64 {
        self.0
    }
}

/// The total reached from `value` by adding `n`, in 64 bits.
pub open spec fn counted(value: u64, n: u64) -> u64 {
    if value + n <= u64::MAX {
        (value + n) as u64
    } else {
        (value + n - u64::MAX - 1) as u64
    }
}

impl Counter {
    /// Creates a counter that holds 0.
    pub fn new() -> (counter: Self)
        ensures
            counter@ == 0,
    {
        Counter(0)
    }

    /// Reads the current value.
    pub fn get(&self) -> (value: u64)
        ensures
            value == self@,
    {
        self.0
    }

    /// Increases the counter by 1.
    pub fn inc(&mut self)
        ensures
            final(self)@ == counted(old(self)@, 1),
    {
        self.0 = self.0.wrapping_add(1);
    }

    /// Increases the counter by `n`.
    pub fn add(&mut self, n: u64)
        ensures
            final(self)@ == counted(old(self)@, n),
    {
        self.0 = self.0.wrapping_add(n);
    }
}

impl Clone for Counter {
    /// Takes a snapshot of the current value: a counter of its own.
    fn clone(&self) -> (snapshot: Self)
        ensures
            snapshot == *self,
    {
        Counter(self.0)
    }
}

impl Default for Counter {
    fn default() -> (counter: Self)
        ensures
            counter@ == 0,
    {
        Counter::new()
    }
}

/// A gauge: the value of something at this moment.
///
/// Unlike a [`Counter`] it is set, not accumulated.
#[derive(Debug)]
pub struct Gauge(u64);

impl View for Gauge {
    type V = u64;

    closed spec fn view(&self) -> u64 {
        self.0
    }
}

impl Gauge {
    /// Creates a gauge that holds 0.
    pub fn new() -> (gauge: Self)
        ensures
            gauge@ == 0,
    {
        Gauge(0)
    }

    /// Reads the current value.
    pub fn get(&self) -> (value: u64)
        ensures
            value == self@,
    {
        self.0
    }

    /// Sets the value.
    pub fn set(&mut self, value: u64)
        ensures
            final(self)@ == value,
    {
        self.0 = value;
    }
}

impl Clone for Gauge {
    /// Takes a snapshot of the current value: a gauge of its own.
    fn clone(&self) -> (snapshot: Self)
        ensures
            snapshot == *self,
    {
        Gauge(self.0)
    }
}

impl Default for Gauge {
    fn default() -> (gauge: Self)
        ensures
            gauge@ == 0,
    {
        Gauge::new()
    }
}

/// Two additions count as much as one addition of their sum.
pub proof fn additions_accumulate(value: u64, first: u64, second: u64)
    requires
        first + second <= u64::MAX,
    ensures
        counted(counted(value, first), second) == counted(value, (first + second) as u64),
{
}

/// As long as the total fits in 64 bits, a counter never decreases.
pub proof fn counter_is_monotonic(value: u64, n: u64)
    requires
        value + n <= u64::MAX,
    ensures
        counted(value, n) >= value,
        counted(value, n) == value + n,
{
}

/// A counter counts: it goes up by what is added, in 64 bits.
pub proof fn counters_count(value: u64, n: u64)
    ensures
        counted(value, n) == (value + n) % 0x1_0000_0000_0000_0000,
        counted(0, n) == n,
        value < u64::MAX ==> counted(value, 1) == value + 1,
{
}

} // verus!
