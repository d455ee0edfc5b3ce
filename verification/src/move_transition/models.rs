//! The settings that trigger a move transition filter.
use crate::move_transition::duration::EasingDuration;
use vstd::prelude::*;

verus! {

/// Settings for a move transition filter over a target filter's own
/// settings `T`.
pub struct MovePluginSettings<T> {
    pub filter: String,
    /// Written as its number, `value_type_code()`.
    pub value_type: (),
    /// Written as its number, `move_value_type_code()`.
    pub move_value_type: (),
    pub settings: T,
    pub duration: EasingDuration,
}

/// The value type these settings are written with.
pub fn value_type_code() -> (c: i32)
    ensures
        c == 2,
{
    2
}

/// The move value type these settings are written with.
pub fn move_value_type_code() -> (c: i32)
    ensures
        c == 1,
{
    1
}

/// The kinds of move transition filter.
pub enum FilterKind {
    MoveAction,
    MoveValue,
    MoveSource,
}

impl FilterKind {
    /// The plugin's name for the filter kind.
    pub open spec fn name_spec(self) -> Seq<char> {
        match self {
            FilterKind::MoveAction => "move_action_filter"@,
            FilterKind::MoveValue => "move_value_filter"@,
            FilterKind::MoveSource => "move_source_filter"@,
        }
    }

    /// The plugin's name for the filter kind.
    pub fn name(&self) -> (s: String)
        ensures
            s@ == self.name_spec(),
    {
        match self {
            FilterKind::MoveAction => crate::text::owned("move_action_filter"),
            FilterKind::MoveValue => crate::text::owned("move_value_filter"),
            FilterKind::MoveSource => crate::text::owned("move_source_filter"),
        }
    }
}


/// Each filter kind has its own plugin name.
pub proof fn filter_kinds_are_distinct(a: FilterKind, b: FilterKind)
    ensures
        a != b ==> a.name_spec() != b.name_spec(),
{
    reveal_strlit("move_action_filter");
    reveal_strlit("move_value_filter");
    reveal_strlit("move_source_filter");
    assert("move_action_filter"@.len() == 18 && "move_action_filter"@[5] == 'a');
    assert("move_value_filter"@.len() == 17 && "move_value_filter"@[5] == 'v');
    assert("move_source_filter"@.len() == 18 && "move_source_filter"@[5] == 's');
}

} // verus!
