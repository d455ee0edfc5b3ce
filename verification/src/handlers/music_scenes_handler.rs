//! Music scene commands: a moderator or VIP switches the background music
//! and the narrator voice with one of the scene commands.
use crate::deps::random_below;
use crate::files::{is_mp3, is_mp3_spec};
use crate::music_scenes::{find_voice_scene, voice_scene_spec, NewVoiceScene, VoiceSceneView};
use crate::text::{concat, concat3, str_eq};
use vstd::prelude::*;

verus! {

/// The scene that a music-scene command starts: only moderators and VIPs
/// may start one, and only with a command of the scene table.
pub open spec fn music_scene_command_spec(command: Seq<char>, is_mod: bool, is_vip: bool) -> Option<
    VoiceSceneView,
> {
    if is_mod || is_vip {
        voice_scene_spec(command)
    } else {
        None
    }
}

/// The scene that the words of a chat message start, if any.
pub fn handle_commands(splitmsg: &Vec<String>, is_mod: bool, is_vip: bool) -> (r: Option<
    NewVoiceScene,
>)
    requires
        splitmsg@.len() > 0,
    ensures
        match r {
            Some(s) => music_scene_command_spec(splitmsg@[0]@, is_mod, is_vip) == Some(s@),
            None => music_scene_command_spec(splitmsg@[0]@, is_mod, is_vip) is None,
        },
{
    let found = find_voice_scene(splitmsg[0].as_str());
    if found.is_none() {
        return None;
    }
    if !is_mod && !is_vip {
        return None;
    }
    found
}

/// Whether any of `names` is `name`.
pub open spec fn names_contain(names: Seq<Seq<char>>, name: Seq<char>) -> bool {
    exists|i: int| 0 <= i < names.len() && #[trigger] names[i] == name
}

/// Whether starting a scene turns global voice mode on: not when a new
/// playlist track was loaded into the scene's music source while that
/// source was already playing (only the music changes then).
pub open spec fn sets_global_voice_spec(
    track_loaded: bool,
    enabled_sources: Seq<Seq<char>>,
    music: Seq<char>,
) -> bool {
    !(track_loaded && names_contain(enabled_sources, music))
}

/// Whether starting the scene with music source `music` turns global voice
/// mode on, given whether a playlist track was loaded and the names of the
/// sources enabled in the background music scene.
pub fn sets_global_voice(track_loaded: bool, enabled_sources: &Vec<String>, music: &str) -> (r:
    bool)
    ensures
        r == sets_global_voice_spec(track_loaded, crate::text::views(enabled_sources@), music@),
{
    let ghost names = crate::text::views(enabled_sources@);
    if !track_loaded {
        return true;
    }
    let mut i: usize = 0;
    while i < enabled_sources.len()
        invariant
            i <= enabled_sources@.len(),
            names == crate::text::views(enabled_sources@),
            names.len() == enabled_sources@.len(),
            track_loaded,
            forall|j: int| 0 <= j < i ==> names[j] != music@,
        decreases enabled_sources@.len() - i,
    {
        assert(names[i as int] == enabled_sources@[i as int]@);
        if str_eq(enabled_sources[i].as_str(), music) {
            assert(names[i as int] == music@);
            return false;
        }
        i = i + 1;
    }
    true
}

/// Where the tracks of the background music playlists are kept.
pub open spec fn background_music_path(folder: Seq<char>, file_name: Seq<char>) -> Seq<char> {
    "/home/begin/stream/Stream/BackgroundMusic/"@ + folder + "/"@ + file_name
}

/// Whether one of `names` is an mp3 file.
pub open spec fn has_mp3(names: Seq<Seq<char>>) -> bool {
    exists|i: int| 0 <= i < names.len() && #[trigger] is_mp3_spec(names[i])
}

/// Picks a track at random from the file names of a playlist folder: one of
/// its mp3 files, as a path under the background music folder; `None` when
/// the folder holds no mp3 file.
pub fn random_mp3_file_name(folder: &str, file_names: &Vec<String>) -> (r: Option<String>)
    ensures
        r is None <==> !has_mp3(crate::text::views(file_names@)),
        r matches Some(p) ==> exists|i: int|
            0 <= i < file_names@.len() && is_mp3_spec(file_names@[i]@) && p@
                == background_music_path(folder@, #[trigger] file_names@[i]@),
{
    let ghost names = crate::text::views(file_names@);
    let mut mp3s: Vec<usize> = Vec::new();
    let mut i: usize = 0;
    while i < file_names.len()
        invariant
            i <= file_names@.len(),
            names == crate::text::views(file_names@),
            forall|k: int| 0 <= k < mp3s@.len() ==> #[trigger] mp3s@[k] < file_names@.len()
                && is_mp3_spec(file_names@[mp3s@[k] as int]@),
            forall|j: int| 0 <= j < i && is_mp3_spec(#[trigger] names[j]) ==> mp3s@.len() > 0,
        decreases file_names@.len() - i,
    {
        if is_mp3(file_names[i].as_str()) {
            mp3s.push(i);
            assert(mp3s@[mp3s@.len() - 1] == i);
        }
        i = i + 1;
    }
    if mp3s.len() == 0 {
        assert(!has_mp3(names));
        return None;
    }
    let k = random_below(mp3s.len());
    let idx = mp3s[k];
    assert(is_mp3_spec(names[idx as int]));
    let dir = concat3("/home/begin/stream/Stream/BackgroundMusic/", folder, "/");
    let p = concat(dir.as_str(), file_names[idx].as_str());
    Some(p)
}


/// Moderators and VIPs start the scene their command names, and nobody
/// else starts any; global voice mode goes on with a scene unless a new
/// track was loaded into its music source while that source was already
/// playing.
pub proof fn mods_and_vips_start_scenes(
    command: Seq<char>,
    is_mod: bool,
    is_vip: bool,
    track_loaded: bool,
    enabled_sources: Seq<Seq<char>>,
    music: Seq<char>,
)
    ensures
        is_mod || is_vip ==> music_scene_command_spec(command, is_mod, is_vip) == voice_scene_spec(
            command,
        ),
        !is_mod && !is_vip ==> music_scene_command_spec(command, is_mod, is_vip) is None,
        !track_loaded ==> sets_global_voice_spec(track_loaded, enabled_sources, music),
        (forall|i: int| 0 <= i < enabled_sources.len() ==> #[trigger] enabled_sources[i] != music)
            ==> sets_global_voice_spec(track_loaded, enabled_sources, music),
        track_loaded && (exists|i: int|
            0 <= i < enabled_sources.len() && #[trigger] enabled_sources[i] == music)
            ==> !sets_global_voice_spec(track_loaded, enabled_sources, music),
{
}

} // verus!
