use vstd::prelude::*;

verus! {

/// A speed. The canonical unit is the micrometer per second: `s@` is the
/// magnitude of `s` in micrometers per second.
#[derive(Copy, Clone, Debug)]
pub struct Speed {
    amount: u128,
}

impl View for Speed {
    type V = u128;

    closed spec fn view(&self) -> u128 {
        self.amount
    }
}

impl Speed {
    pub fn from_micrometers_per_second(amount: u128) -> (r: Self)
        ensures
            r@ == amount,
    {
        Speed { amount }
    }

    pub fn from_meter_per_second(amount: u64) -> (r: Self)
        ensures
            r@ == amount * 1_000_000,
    {
        Speed { amount: (amount as u128) * 1_000_000 }
    }

    pub fn as_micrometers_per_second(&self) -> (r: u128)
        ensures
            r == self@,
    {
        self.amount
    }

    /// Whole meters per second, truncated.
    pub fn as_meter_per_second(&self) -> (r: u128)
        ensures
            r == self@ / 1_000_000,
    {
        self.amount / 1_000_000
    }

    /// Whole kilometers per hour, truncated: one meter per second is
    /// 3.6 kilometers per hour.
    pub fn as_kilometers_per_hour(&self) -> (r: u128)
        requires
            self@ * 3600 <= u128::MAX,
        ensures
            r == self@ * 3600 / 1_000_000_000,
    {
        self.amount * 3600 / 1_000_000_000
    }
}

} // verus!
