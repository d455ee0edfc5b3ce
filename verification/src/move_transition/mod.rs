//! Settings for OBS's move transition plugin: easing, move-value filters,
//! move-source signs, and the text filter.
use vstd::prelude::*;

pub mod duration;
pub mod models;
pub mod move_plus_cache;
pub mod move_source;
pub mod move_value;

verus! {

/// The settings of a move-value filter that types text into a text source.
pub struct MoveTextFilter {
    pub setting_name: String,
    pub value_type: u32,
    pub setting_text: String,
    pub duration: Option<u32>,
    pub custom_duration: bool,
    pub easing_match: Option<u32>,
    pub setting_decimals: Option<u32>,
    pub move_value_type: Option<u32>,
}

impl MoveTextFilter {
    /// A filter that types `text` into the source's `text` setting: value
    /// type 4 (text), move value type 4 (typing), no custom duration.
    pub fn typing(text: String) -> (f: MoveTextFilter)
        ensures
            f.setting_text@ == text@,
            f.setting_name@ == "text"@,
            f.value_type == 4,
            f.move_value_type == Some(4u32),
            f.duration is None,
            !f.custom_duration,
            f.easing_match is None,
            f.setting_decimals is None,
    {
        MoveTextFilter {
            setting_name: crate::text::owned("text"),
            value_type: 4,
            setting_text: text,
            duration: None,
            custom_duration: false,
            easing_match: None,
            setting_decimals: None,
            move_value_type: Some(4),
        }
    }
}

/// The perspective camera has no default settings of its own to apply.
pub fn default_perspective_settings() {
}

/// The corner-pin camera has no default settings of its own to apply.
pub fn default_corner_pin_settings() {
}

} // verus!
