//! The exercise-preset route group.

use vstd::prelude::*;

verus! {

/// The exercise-preset route group.
pub struct ExercisePresetRoute;

impl ExercisePresetRoute {
    /// Where the group is mounted.
    pub fn path() -> (r: &'static str)
        ensures
            r@ == "/exercise-presets"@,
    {
        "/exercise-presets"
    }
}

/// An exercise preset as the route returns it.
#[derive(Debug, Clone, PartialEq, Eq)]
pub struct ReadExercisePresetModel {
    pub id: i64,
    pub name: String,
    pub description: Option<String>,
}

} // verus!
