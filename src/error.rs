use vstd::prelude::*;

verus! {

/// Why a layer record, or the buffers handed with it, were refused.
#[derive(Clone, Copy, Debug, PartialEq, Eq, Structural)]
pub enum LayerError {
    /// The activation code names none of the known activations.
    BadActivation,
    /// A count is negative, or a tensor or buffer length disagrees with the counts.
    DimensionMismatch,
    /// The unit count exceeds the capacity of the per-unit buffers of a GRU step.
    CapacityExceeded,
}

} // verus!
