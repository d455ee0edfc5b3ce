//! Sound effects and speech for chat messages, the variant where an
//! explicit `!name` is lower-cased after its `!` is taken off.
use crate::handlers::implicit_sound_handler::{sound_path, soundboard_path};
use crate::text::{chars_of, contains_text, lowercase, string_of_range, str_eq, to_lowercase, views};
use vstd::prelude::*;

pub use crate::handlers::implicit_sound_handler::{
    choose_character, sound_words, speaks, Character, SpeechVoices,
};

verus! {

/// The sound effect that a chat message plays: none from Nightbot or while
/// explicit sound effects are off; otherwise a message `!name` plays
/// `name` in lower case when that sound file is among `paths`.
pub open spec fn explicit_sound_word_spec(
    user_name: Seq<char>,
    explicit_enabled: bool,
    contents: Seq<char>,
    paths: Seq<Seq<char>>,
) -> Option<Seq<char>> {
    if user_name == "Nightbot"@ || !explicit_enabled || contents[0] != '!' {
        None
    } else {
        let word = lowercase(contents.skip(1));
        if paths.contains(soundboard_path(word)) {
            Some(word)
        } else {
            None
        }
    }
}

/// The sound effect that the chat message `contents` from `user_name`
/// plays. A message that is looked at must not be empty (its first
/// character is taken off).
pub fn explicit_sound_word(
    user_name: &str,
    explicit_enabled: bool,
    contents: &str,
    paths: &Vec<String>,
) -> (r: Option<String>)
    requires
        user_name@ != "Nightbot"@ && explicit_enabled ==> contents@.len() > 0,
    ensures
        crate::text::opt_view(r) == explicit_sound_word_spec(
            user_name@,
            explicit_enabled,
            contents@,
            views(paths@),
        ),
{
    if str_eq(user_name, "Nightbot") || !explicit_enabled {
        return None;
    }
    let v = chars_of(contents);
    if v[0] != '!' {
        return None;
    }
    let rest = string_of_range(&v, 1, v.len());
    assert(v@.subrange(1, v@.len() as int) =~= v@.skip(1));
    let word = to_lowercase(rest.as_str());
    let p = sound_path(word.as_str());
    if contains_text(paths, p.as_str()) {
        Some(word)
    } else {
        None
    }
}


/// A message `!name` plays `name` in lower case exactly when that sound's
/// file `./MP3s/name.mp3` is among the sound files; other messages, and
/// any from Nightbot or while explicit sounds are off, play nothing.
pub proof fn bang_word_plays_its_file(
    user_name: Seq<char>,
    explicit_enabled: bool,
    contents: Seq<char>,
    paths: Seq<Seq<char>>,
)
    requires
        contents.len() > 0,
    ensures
        ({
            let r = explicit_sound_word_spec(user_name, explicit_enabled, contents, paths);
            let w = lowercase(contents.skip(1));
            &&& (user_name == "Nightbot"@ || !explicit_enabled || contents[0] != '!') ==> r is None
            &&& user_name != "Nightbot"@ && explicit_enabled && contents[0] == '!' ==> (r is Some
                <==> paths.contains("./MP3s/"@ + w + ".mp3"@))
            &&& r matches Some(x) ==> x == w
        }),
{
}

} // verus!
