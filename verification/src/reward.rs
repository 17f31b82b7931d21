use vstd::prelude::*;

verus! {

/// What a reward lying on the ground gives.
#[derive(Clone, Copy, PartialEq, Eq, Debug, Structural)]
pub struct RewardInfo {
    pub gold: u32,
}

} // verus!
