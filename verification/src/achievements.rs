use vstd::prelude::*;

verus! {

/// One condition of an achievement: a counter of some kind reaching a value.
pub struct AchievementCondition {
    pub kind: &'static str,
    pub value: u64,
}

/// An achievement, earned once all its conditions hold.
pub struct Achievement {
    pub name: String,
    pub conditions: Vec<AchievementCondition>,
}

} // verus!
