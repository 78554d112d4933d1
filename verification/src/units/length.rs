use vstd::prelude::*;

use crate::units::speed::Speed;
use crate::units::time::Time;

verus! {

/// A distance. The canonical unit is the micrometer: `l@` is the magnitude
/// of `l` in micrometers.
#[derive(Copy, Clone, Debug)]
pub struct Length {
    amount: u128,
}

impl View for Length {
    type V = u128;

    closed spec fn view(&self) -> u128 {
        self.amount
    }
}

impl Length {
    pub fn from_centimeters(amount: u64) -> (r: Self)
        ensures
            r@ == amount * 10_000,
    {
        Length { amount: (amount as u128) * 10_000 }
    }

    pub fn from_micrometers(amount: u128) -> (r: Self)
        ensures
            r@ == amount,
    {
        Length { amount }
    }

    /// Whole kilometers, truncated.
    pub fn as_kilometer(&self) -> (r: u128)
        ensures
            r == self@ / 1_000_000_000,
    {
        self.amount / 1_000_000_000
    }

    /// Whole meters, truncated.
    pub fn as_meter(&self) -> (r: u128)
        ensures
            r == self@ / 1_000_000,
    {
        self.amount / 1_000_000
    }

    pub fn as_micrometers(&self) -> (r: u128)
        ensures
            r == self@,
    {
        self.amount
    }

    /// Multiplies the magnitude by an integer factor.
    pub fn scale(self, factor: u64) -> (r: Self)
        requires
            self@ * factor <= u128::MAX,
        ensures
            r@ == self@ * factor,
    {
        Length { amount: self.amount * (factor as u128) }
    }

    /// Divides the magnitude by an integer divisor, truncating.
    pub fn div(self, divisor: u64) -> (r: Self)
        requires
            divisor >= 1,
        ensures
            r@ == self@ / divisor as u128,
    {
        Length { amount: self.amount / (divisor as u128) }
    }

    /// The speed at which this distance is covered in the given time:
    /// length divided by time.
    pub fn to_speed(self, time: Time) -> (r: Speed)
        requires
            time@ >= 1,
            self@ * 1000 <= u128::MAX,
        ensures
            r@ == self@ * 1000 / (time@ as int),
    {
        Speed::from_micrometers_per_second(self.amount * 1000 / (time.as_milliseconds() as u128))
    }
}

} // verus!
