use vstd::prelude::*;

verus! {

/// A set of preview features, one bit per feature.
#[derive(Clone, Copy, Debug, PartialEq, Eq, Structural)]
pub struct PreviewFeatures {
    pub bits: u64,
}

} // verus!
