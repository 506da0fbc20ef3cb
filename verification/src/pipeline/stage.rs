//! The kinds of stage a pipeline runs.

use vstd::prelude::*;

verus! {

/// One step of a pipeline: `Interpolate` is run by the `Interpolate` stage
/// type, `Encode` by the `Encode` stage type.
#[derive(Clone, Copy, Debug, PartialEq, Eq, Structural)]
pub enum Stage {
    /// Frame interpolation with a VFI model.
    Interpolate,
    /// Encoding of the frames into a video.
    Encode,
}

} // verus!
