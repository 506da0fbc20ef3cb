//! The pipeline of stages and its configuration.

pub mod builder;
pub mod context;
pub mod encoding;
pub mod interpolation;
pub mod stage;

pub use builder::Builder;
pub use context::Context;
pub use encoding::Encode;
pub use interpolation::Interpolate;
pub use stage::Stage;

use vstd::prelude::*;

verus! {

/// An ordered list of stages, run one after the other on a `Context`.
pub struct Pipeline {
    pub stages: Vec<Stage>,
}

impl Pipeline {
    /// A pipeline that runs `stages` in order.
    pub fn new(stages: Vec<Stage>) -> (r: Self)
        ensures
            r.stages@ == stages@,
    {
        Pipeline { stages }
    }

    /// The number of stages.
    pub fn len(&self) -> (r: usize)
        ensures
            r == self.stages@.len(),
    {
        self.stages.len()
    }
}

} // verus!
