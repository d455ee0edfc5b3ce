//! The first timelapse handler: the same random screenshot styles and
//! timelapse files as the current one.
pub use crate::handlers::ai_screenshots_timer_handler::{
    generate_random_prompt, handle_ai_screenshots, screenshot_style_choices, timelapse_path,
};
