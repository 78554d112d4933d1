use vstd::prelude::*;

verus! {

/// A span of time. The canonical unit is the millisecond: `t@` is the
/// magnitude of `t` in milliseconds.
#[derive(Copy, Clone, Debug)]
pub struct Time {
    amount: u64,
}

impl View for Time {
    type V = u64;

    closed spec fn view(&self) -> u64 {
        self.amount
    }
}

impl Time {
    pub fn seconds(amount: u64) -> (r: Self)
        requires
            amount * 1000 <= u64::MAX,
        ensures
            r@ == amount * 1000,
    {
        Time { amount: amount * 1000 }
    }

    pub fn milliseconds(amount: u64) -> (r: Self)
        ensures
            r@ == amount,
    {
        Time { amount }
    }

    /// Whole seconds, truncated.
    pub fn as_seconds(&self) -> (r: u64)
        ensures
            r == self@ / 1000,
    {
        self.amount / 1000
    }

    pub fn as_milliseconds(&self) -> (r: u64)
        ensures
            r == self@,
    {
        self.amount
    }
}

} // verus!
