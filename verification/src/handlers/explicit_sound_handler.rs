//! Explicit sounds: a chat message `!name` plays the sound effect `name`
//! when explicit sound effects are on.
use crate::handlers::implicit_sound_handler::{sound_path, soundboard_path};
use crate::text::{chars_of, contains_text, lowercase, string_of_range, str_eq, to_lowercase, views};
use vstd::prelude::*;

verus! {

/// The sound effect that a message asks for, given the message in lower
/// case: a `!` followed by the name of one of the sound files in `paths`.
pub open spec fn explicit_sound_spec(lowered: Seq<char>, paths: Seq<Seq<char>>) -> Option<Seq<char>> {
    if lowered.len() > 0 && lowered[0] == '!' && paths.contains(
        soundboard_path(lowered.skip(1)),
    ) {
        Some(lowered.skip(1))
    } else {
        None
    }
}

/// The sound effect that the lower-case message `lowered` asks for.
pub fn explicit_sound_in(lowered: &str, paths: &Vec<String>) -> (r: Option<String>)
    requires
        lowered@.len() > 0,
    ensures
        crate::text::opt_view(r) == explicit_sound_spec(lowered@, views(paths@)),
{
    let v = chars_of(lowered);
    if v[0] != '!' {
        return None;
    }
    let name = string_of_range(&v, 1, v.len());
    assert(v@.subrange(1, v@.len() as int) =~= v@.skip(1));
    let p = sound_path(name.as_str());
    if contains_text(paths, p.as_str()) {
        Some(name)
    } else {
        None
    }
}

/// The sound effect that a chat message plays: none from Nightbot, none
/// while explicit sound effects are off, none for an empty message, and
/// otherwise what the message in lower case asks for.
pub open spec fn explicit_sound_plan_spec(
    user_name: Seq<char>,
    explicit_enabled: bool,
    contents: Seq<char>,
    paths: Seq<Seq<char>>,
) -> Option<Seq<char>> {
    if user_name == "Nightbot"@ || !explicit_enabled || lowercase(contents).len() == 0 {
        None
    } else {
        explicit_sound_spec(lowercase(contents), paths)
    }
}

/// The sound effect that the chat message `contents` from `user_name` plays.
pub fn explicit_sound(
    user_name: &str,
    explicit_enabled: bool,
    contents: &str,
    paths: &Vec<String>,
) -> (r: Option<String>)
    ensures
        crate::text::opt_view(r) == explicit_sound_plan_spec(
            user_name@,
            explicit_enabled,
            contents@,
            views(paths@),
        ),
{
    if str_eq(user_name, "Nightbot") || !explicit_enabled {
        return None;
    }
    let lowered = to_lowercase(contents);
    if lowered.as_str().is_empty() {
        return None;
    }
    explicit_sound_in(lowered.as_str(), paths)
}


/// `!name` plays the sound `name` exactly when `./MP3s/name.mp3` is one of
/// the sound files; a message without the `!` plays nothing, and nothing
/// plays for Nightbot or while explicit sounds are off.
pub proof fn bang_name_plays_its_file(
    name: Seq<char>,
    message: Seq<char>,
    paths: Seq<Seq<char>>,
    user_name: Seq<char>,
    explicit_enabled: bool,
    contents: Seq<char>,
)
    ensures
        paths.contains("./MP3s/"@ + name + ".mp3"@) ==> explicit_sound_spec(seq!['!'] + name, paths)
            == Some(name),
        !paths.contains("./MP3s/"@ + name + ".mp3"@) ==> explicit_sound_spec(seq!['!'] + name, paths)
            is None,
        message.len() > 0 && message[0] != '!' ==> explicit_sound_spec(message, paths) is None,
        user_name == "Nightbot"@ || !explicit_enabled ==> explicit_sound_plan_spec(
            user_name,
            explicit_enabled,
            contents,
            paths,
        ) is None,
{
    assert((seq!['!'] + name).skip(1) =~= name);
}

} // verus!
