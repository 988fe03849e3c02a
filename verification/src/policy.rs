//! The choice between the two variants of the repair.

use vstd::prelude::*;

verus! {

/// The variant of the repair. One policy governs both how the mask is
/// rebuilt and how it is merged into the picture, and it is chosen once for
/// a whole run.
#[derive(Clone, Copy, Debug, PartialEq, Eq, Structural)]
pub enum CompositingPolicy {
    /// Smooth, stretch, cut; then overwrite the alpha of the picture.
    Simple,
    /// Contract and expand the mask around the smoothing, then merge it with
    /// regard to the alpha that the picture already has.
    Guarded,
}

} // verus!
