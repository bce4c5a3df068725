//! Optional node adjustment.

use vstd::prelude::*;

use crate::errors::AdjustmentError;
use crate::types::array_grid::ArrayGrid;

verus! {

/// A node that can be adjusted by transformation data held in a grid.  The
/// default does nothing, keeping adjustment optional; a node kind overrides
/// it where an adjustment applies.
pub trait Adjustable: Sized {
    /// Applies the transformation data in `array_grid` to this node; checks
    /// such as division by zero or overflow report an adjustment error.
    /// The provided default does nothing and succeeds, keeping adjustment
    /// optional.
    fn adjust<T: Copy + Default, const W: usize, const H: usize, const D: usize, const C: usize>(
        &mut self,
        array_grid: &ArrayGrid<T, W, H, D, C>,
    ) -> (r: Result<(), AdjustmentError>)
        default_ensures
            r is Ok,
            *final(self) == *old(self),
    {
        Ok(())
    }
}

} // verus!
