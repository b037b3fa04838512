//! Exercise preset records.

use vstd::prelude::*;

use crate::models::base::DbBmc;

verus! {

/// A stored exercise preset.
#[derive(Debug, Clone, PartialEq, Eq)]
pub struct ExercisePresetModel {
    pub id: i64,
    pub name: String,
    pub description: Option<String>,
}

impl DbBmc for ExercisePresetModel {
    fn table() -> &'static str {
        "workout_management.exercise_presets"
    }
}

} // verus!
