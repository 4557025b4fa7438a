//! The humidity capability, mirror of the temperature one.

use vstd::prelude::*;

verus! {

/// A sensor front-end that reads the latest humidity out of its driver's
/// shared cell.
pub trait HumiditySensor {
    /// The driver's shared cell this handle reads from.
    type Shared;

    /// The humidity the cell currently holds, in tenths of a percent.
    spec fn humidity_of(shared: &Self::Shared) -> int;

    /// Current humidity in tenths of a percent.
    fn get_humidity(&self, shared: &Self::Shared) -> (h: u16)
        ensures
            h as int == Self::humidity_of(shared),
    ;
}

} // verus!
