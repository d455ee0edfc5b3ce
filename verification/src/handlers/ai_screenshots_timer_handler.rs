//! The timelapse: every second a screenshot of the stream is redrawn in a
//! style picked at random.
use crate::deps::random_below;
use crate::image_generation::{is_utc_stamp, utc_timestamp};
use crate::text::{concat3, owned};
use vstd::prelude::*;

verus! {

/// The styles a timelapse screenshot is redrawn in.
pub open spec fn screenshot_styles() -> Seq<Seq<char>> {
    seq![
        "an 80's anime"@,
        "as a ripped dude"@,
        "as a crazy Bitcoin laser maxi"@,
        "as a Ape"@,
        "as SNES Pixel Art"@,
        "as Modern Art Painting"@,
        "anthropomorphic animals"@,
        "rap album cover"@,
        "outrun synthwave"@,
        "propaganda poster"@,
    ]
}

/// The styles a timelapse screenshot is redrawn in.
pub fn screenshot_style_choices() -> (r: Vec<&'static str>)
    ensures
        r@.map_values(|s: &'static str| s@) == screenshot_styles(),
{
    let r: Vec<&'static str> = vec![
        "an 80's anime",
        "as a ripped dude",
        "as a crazy Bitcoin laser maxi",
        "as a Ape",
        "as SNES Pixel Art",
        "as Modern Art Painting",
        "anthropomorphic animals",
        "rap album cover",
        "outrun synthwave",
        "propaganda poster",
    ];
    assert(r@.map_values(|s: &'static str| s@) =~= screenshot_styles());
    r
}

/// One of the screenshot styles, picked at random.
pub fn generate_random_prompt() -> (r: String)
    ensures
        screenshot_styles().contains(r@),
{
    let choices = screenshot_style_choices();
    assert(choices@.map_values(|s: &'static str| s@).len() == 10);
    let i = random_below(choices.len());
    let s = owned(choices[i]);
    assert(screenshot_styles()[i as int] == choices@[i as int]@);
    s
}

/// The file a timelapse screenshot taken at `timestamp` is saved in.
pub open spec fn timelapse_path_spec(timestamp: Seq<char>) -> Seq<char> {
    "../../tmp/screenshots/timelapse/"@ + timestamp + "_screenshot.png"@
}

/// The file a timelapse screenshot taken at `timestamp` is saved in.
pub fn timelapse_path(timestamp: &str) -> (r: String)
    ensures
        r@ == timelapse_path_spec(timestamp@),
{
    concat3("../../tmp/screenshots/timelapse/", timestamp, "_screenshot.png")
}

/// The next timelapse screenshot: the file it is saved in, whose name
/// starts with the current UTC time, and the style it is redrawn in, picked
/// at random.
pub fn handle_ai_screenshots() -> (r: (String, String))
    ensures
        exists|timestamp: Seq<char>|
            is_utc_stamp(timestamp) && r.0@ == #[trigger] timelapse_path_spec(timestamp),
        screenshot_styles().contains(r.1@),
{
    let timestamp = utc_timestamp();
    let path = timelapse_path(timestamp.as_str());
    assert(path@ == timelapse_path_spec(timestamp@));
    let prompt = generate_random_prompt();
    (path, prompt)
}

} // verus!
