//! Move-value filters: which kind of change a filter makes to a setting.
use crate::move_transition::duration::EasingDuration;
use vstd::prelude::*;

verus! {

/// The kinds of change a move-value filter makes.
#[derive(PartialEq, Eq, Structural, Clone, Copy, Debug)]
pub enum MoveValueType {
    SingleSetting,
    Settings,
    Random,
    Add,
    Typing,
}

impl MoveValueType {
    /// The number the plugin uses for the kind.
    pub open spec fn code_spec(self) -> i32 {
        match self {
            MoveValueType::SingleSetting => 0,
            MoveValueType::Settings => 1,
            MoveValueType::Random => 2,
            MoveValueType::Add => 3,
            MoveValueType::Typing => 4,
        }
    }

    /// The number the plugin uses for the kind.
    pub fn code(&self) -> (c: i32)
        ensures
            c == self.code_spec(),
    {
        match self {
            MoveValueType::SingleSetting => 0,
            MoveValueType::Settings => 1,
            MoveValueType::Random => 2,
            MoveValueType::Add => 3,
            MoveValueType::Typing => 4,
        }
    }
}

/// A move-value filter that sets several settings of `target_filter` at once.
pub struct Settings<T> {
    pub target_filter: String,
    /// Written as `MoveValueType::Settings`.
    pub move_value_type: (),
    pub settings: T,
    pub duration: EasingDuration,
}

impl<T> Settings<T> {
    /// Settings that move `target_filter` to `settings` over `duration`.
    pub fn new(target_filter: String, settings: T, duration: EasingDuration) -> (r: Settings<T>)
        ensures
            r.target_filter@ == target_filter@,
            r.settings == settings,
            r.duration == duration,
    {
        Settings { target_filter, move_value_type: (), settings, duration }
    }
}

/// Settings under construction.
pub struct SettingsBuilder<T> {
    pub target_filter: String,
    pub settings: Option<T>,
    pub duration: EasingDuration,
}

/// A move-value filter that types into a text source.
pub struct Typing {
    pub filter: String,
    /// Written as `MoveValueType::Typing`.
    pub move_value_type: (),
    pub duration: EasingDuration,
}


/// Each kind of change has its own plugin number, from 0 to 4 in the
/// plugin's order.
pub proof fn move_value_codes_are_distinct(a: MoveValueType, b: MoveValueType)
    ensures
        0 <= a.code_spec() <= 4,
        a != b ==> a.code_spec() != b.code_spec(),
        MoveValueType::Typing.code_spec() == 4,
        MoveValueType::Settings.code_spec() == 1,
{
}

} // verus!
