use vstd::prelude::*;

use crate::units::{QMAX, SCALE};

verus! {

/// Portions a fresh can holds.
pub const DEFAULT_CAPACITY: i32 = 3;

/// The watering can: how much one pour delivers, and how many pours are
/// left.
pub struct WaterCan {
    pub portion: i64,
    pub portions_left: i32,
}

impl WaterCan {
    pub fn new() -> (w: WaterCan)
        ensures
            w.portion == 10 * SCALE,
            w.portions_left == DEFAULT_CAPACITY,
            0 <= w.portion <= QMAX,
    {
        WaterCan { portion: 10 * SCALE, portions_left: DEFAULT_CAPACITY }
    }

    /// How much one pour delivers.
    pub fn get_portion(&self) -> (r: i64)
        ensures
            r == self.portion,
    {
        self.portion
    }
}

} // verus!
