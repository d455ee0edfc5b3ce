//! The music scenes: each chat command names a narrator voice, a background
//! music source and, for some, a playlist folder to draw tracks from.
use crate::text::str_eq;
use vstd::prelude::*;

verus! {

/// A music scene: the voice that narrates it, its background music source,
/// and the playlist folder its tracks come from, if it has one.
pub struct NewVoiceScene {
    pub voice: &'static str,
    pub music: &'static str,
    pub playlist_folder: Option<&'static str>,
}

/// A music scene as text.
pub struct VoiceSceneView {
    pub voice: Seq<char>,
    pub music: Seq<char>,
    pub playlist_folder: Option<Seq<char>>,
}

impl View for NewVoiceScene {
    type V = VoiceSceneView;

    open spec fn view(&self) -> VoiceSceneView {
        VoiceSceneView {
            voice: self.voice@,
            music: self.music@,
            playlist_folder: match self.playlist_folder {
                Some(f) => Some(f@),
                None => None,
            },
        }
    }
}

/// One row of the scene table.
pub open spec fn scene_entry(
    command: Seq<char>,
    voice: Seq<char>,
    music: Seq<char>,
    playlist_folder: Option<Seq<char>>,
) -> (Seq<char>, VoiceSceneView) {
    (command, VoiceSceneView { voice, music, playlist_folder })
}

/// The music scenes by command.
pub open spec fn voice_to_music_table() -> Seq<(Seq<char>, VoiceSceneView)> {
    seq![
        scene_entry("!yoga"@, "god"@, "Yoga-BG-Music"@, Some("Yoga"@)),
        scene_entry("!drama"@, "Ethan"@, "Dramatic-BG-Music"@, Some("Drama"@)),
        scene_entry("!greed"@, "Michael"@, "Greed-BG-Music"@, None),
        scene_entry("!ken"@, "James"@, "KenBurns-BG-Music"@, Some("KenBurns"@)),
        scene_entry("!hospital"@, "Bella"@, "Hospital-BG-Music"@, None),
        scene_entry("!sigma"@, "Ethan"@, "Sigma-BG-Music"@, Some("Sigma"@)),
        scene_entry("!news"@, "Ethan"@, "News-1-BG-Music"@, Some("News"@)),
        scene_entry("!sexy"@, "Charlotte"@, "Sexy-2-BG-Music"@, Some("Sexy"@)),
        scene_entry("!romcom"@, "Fin"@, "Romcom-BG-Music"@, None),
        scene_entry("!chef"@, "Giovanni"@, "Chef-BG-Music"@, None),
        scene_entry("!carti"@, "Random"@, "Carti-BG-Music"@, None),
        scene_entry("!nerds"@, "Fin"@, "Nerd-BG-Music"@, None),
        scene_entry("!earth"@, "atten"@, "Planet-Earth-BG-Music-1"@, Some("PlanetEarth"@)),
    ]
}

/// The view of a table of scenes.
pub open spec fn scene_table_view(t: Seq<(&'static str, NewVoiceScene)>) -> Seq<
    (Seq<char>, VoiceSceneView),
> {
    t.map_values(|p: (&'static str, NewVoiceScene)| (p.0@, p.1@))
}

/// The scene of the first row of `table` whose command is `command`.
pub open spec fn scene_lookup(table: Seq<(Seq<char>, VoiceSceneView)>, command: Seq<char>) -> Option<
    VoiceSceneView,
>
    decreases table.len(),
{
    if table.len() == 0 {
        None
    } else if table[0].0 == command {
        Some(table[0].1)
    } else {
        scene_lookup(table.drop_first(), command)
    }
}

/// The music scene that a command starts, if any.
pub open spec fn voice_scene_spec(command: Seq<char>) -> Option<VoiceSceneView> {
    scene_lookup(voice_to_music_table(), command)
}

fn scene(voice: &'static str, music: &'static str, playlist_folder: Option<&'static str>) -> (s:
    NewVoiceScene)
    ensures
        s.voice == voice,
        s.music == music,
        s.playlist_folder == playlist_folder,
{
    NewVoiceScene { voice, music, playlist_folder }
}

/// The music scenes and the commands that start them.
pub fn voice_to_music() -> (t: Vec<(&'static str, NewVoiceScene)>)
    ensures
        scene_table_view(t@) == voice_to_music_table(),
{
    let mut t: Vec<(&'static str, NewVoiceScene)> = Vec::new();
    t.push(("!yoga", scene("god", "Yoga-BG-Music", Some("Yoga"))));
    t.push(("!drama", scene("Ethan", "Dramatic-BG-Music", Some("Drama"))));
    t.push(("!greed", scene("Michael", "Greed-BG-Music", None)));
    t.push(("!ken", scene("James", "KenBurns-BG-Music", Some("KenBurns"))));
    t.push(("!hospital", scene("Bella", "Hospital-BG-Music", None)));
    t.push(("!sigma", scene("Ethan", "Sigma-BG-Music", Some("Sigma"))));
    t.push(("!news", scene("Ethan", "News-1-BG-Music", Some("News"))));
    t.push(("!sexy", scene("Charlotte", "Sexy-2-BG-Music", Some("Sexy"))));
    t.push(("!romcom", scene("Fin", "Romcom-BG-Music", None)));
    t.push(("!chef", scene("Giovanni", "Chef-BG-Music", None)));
    t.push(("!carti", scene("Random", "Carti-BG-Music", None)));
    t.push(("!nerds", scene("Fin", "Nerd-BG-Music", None)));
    t.push(("!earth", scene("atten", "Planet-Earth-BG-Music-1", Some("PlanetEarth"))));
    assert(scene_table_view(t@) =~= voice_to_music_table());
    t
}

/// The music scene that `command` starts, if it names one.
pub fn find_voice_scene(command: &str) -> (r: Option<NewVoiceScene>)
    ensures
        match r {
            Some(s) => voice_scene_spec(command@) == Some(s@),
            None => voice_scene_spec(command@) is None,
        },
{
    let table = voice_to_music();
    let ghost tv = scene_table_view(table@);
    let mut i: usize = 0;
    assert(tv.skip(0) =~= tv);
    while i < table.len()
        invariant
            i <= table@.len(),
            tv == scene_table_view(table@),
            tv == voice_to_music_table(),
            scene_lookup(tv, command@) == scene_lookup(tv.skip(i as int), command@),
        decreases table@.len() - i,
    {
        let ghost rest = tv.skip(i as int);
        assert(rest[0] == tv[i as int]);
        assert(rest.drop_first() =~= tv.skip(i + 1));
        if str_eq(table[i].0, command) {
            let s = &table[i].1;
            return Some(NewVoiceScene {
                voice: s.voice,
                music: s.music,
                playlist_folder: s.playlist_folder,
            });
        }
        i = i + 1;
    }
    assert(tv.skip(i as int) =~= Seq::<(Seq<char>, VoiceSceneView)>::empty());
    None
}

/// The background music sources of all scenes, in table order.
pub open spec fn music_sources_spec() -> Seq<Seq<char>> {
    voice_to_music_table().map_values(|p: (Seq<char>, VoiceSceneView)| p.1.music)
}

/// The background music sources of all scenes, in table order.
pub fn music_sources() -> (r: Vec<&'static str>)
    ensures
        r@.map_values(|s: &'static str| s@) == music_sources_spec(),
{
    let table = voice_to_music();
    let mut r: Vec<&'static str> = Vec::new();
    let mut i: usize = 0;
    while i < table.len()
        invariant
            i <= table@.len(),
            scene_table_view(table@) == voice_to_music_table(),
            r@.map_values(|s: &'static str| s@) =~= music_sources_spec().take(i as int),
        decreases table@.len() - i,
    {
        assert(scene_table_view(table@)[i as int] == (table@[i as int].0@, table@[i as int].1@));
        r.push(table[i].1.music);
        assert(music_sources_spec().take(i + 1) =~= music_sources_spec().take(i as int).push(
            table@[i as int].1.music@,
        ));
        i = i + 1;
    }
    assert(music_sources_spec().take(i as int) =~= music_sources_spec());
    r
}

/// Every command of the scene table starts its own scene: no command is
/// listed twice, so none is shadowed by an earlier row.
pub proof fn each_command_starts_its_scene(i: int)
    requires
        0 <= i < voice_to_music_table().len(),
    ensures
        voice_scene_spec(voice_to_music_table()[i].0) == Some(voice_to_music_table()[i].1),
{
    reveal_strlit("!yoga");
    reveal_strlit("!drama");
    reveal_strlit("!greed");
    reveal_strlit("!ken");
    reveal_strlit("!hospital");
    reveal_strlit("!sigma");
    reveal_strlit("!news");
    reveal_strlit("!sexy");
    reveal_strlit("!romcom");
    reveal_strlit("!chef");
    reveal_strlit("!carti");
    reveal_strlit("!nerds");
    reveal_strlit("!earth");
    let t = voice_to_music_table();
    assert forall|j: int, k: int| 0 <= j < k < t.len() implies t[j].0 != t[k].0 by {
        if t[j].0 == t[k].0 {
            assert(t[j].0.len() == t[k].0.len());
            assert(t[j].0[1] == t[k].0[1]);
            assert(t[j].0[2] == t[k].0[2]);
        }
    }
    lemma_lookup_first(t, i);
}

/// Looking up the command of row `i` of a table whose commands are all
/// different finds row `i`.
proof fn lemma_lookup_first(t: Seq<(Seq<char>, VoiceSceneView)>, i: int)
    requires
        0 <= i < t.len(),
        forall|j: int, k: int| 0 <= j < k < t.len() ==> t[j].0 != t[k].0,
    ensures
        scene_lookup(t, t[i].0) == Some(t[i].1),
    decreases t.len(),
{
    if i > 0 {
        let r = t.drop_first();
        assert forall|j: int, k: int| 0 <= j < k < r.len() implies r[j].0 != r[k].0 by {
            assert(r[j] == t[j + 1]);
            assert(r[k] == t[k + 1]);
        }
        lemma_lookup_first(r, i - 1);
        assert(r[i - 1] == t[i]);
        assert(t[0].0 != t[i].0);
    }
}


/// A command not in the scene table starts no scene.
proof fn lemma_scene_absent(t: Seq<(Seq<char>, VoiceSceneView)>, command: Seq<char>)
    requires
        forall|j: int| 0 <= j < t.len() ==> #[trigger] t[j].0 != command,
    ensures
        scene_lookup(t, command) is None,
    decreases t.len(),
{
    if t.len() > 0 {
        let r = t.drop_first();
        assert forall|j: int| 0 <= j < r.len() implies #[trigger] r[j].0 != command by {
            assert(r[j] == t[j + 1]);
        }
        lemma_scene_absent(r, command);
    }
}

/// Each scene command starts its own scene, with its narrator voice, its
/// background music and its playlist folder; any other word starts none.
pub proof fn scene_commands_start_their_scene(command: Seq<char>)
    ensures
        command == "!yoga"@ ==> voice_scene_spec(command) == Some(
            VoiceSceneView { voice: "god"@, music: "Yoga-BG-Music"@, playlist_folder: Some("Yoga"@) },
        ),
        command == "!drama"@ ==> voice_scene_spec(command) == Some(
            VoiceSceneView { voice: "Ethan"@, music: "Dramatic-BG-Music"@, playlist_folder: Some("Drama"@) },
        ),
        command == "!greed"@ ==> voice_scene_spec(command) == Some(
            VoiceSceneView { voice: "Michael"@, music: "Greed-BG-Music"@, playlist_folder: None },
        ),
        command == "!ken"@ ==> voice_scene_spec(command) == Some(
            VoiceSceneView { voice: "James"@, music: "KenBurns-BG-Music"@, playlist_folder: Some("KenBurns"@) },
        ),
        command == "!hospital"@ ==> voice_scene_spec(command) == Some(
            VoiceSceneView { voice: "Bella"@, music: "Hospital-BG-Music"@, playlist_folder: None },
        ),
        command == "!sigma"@ ==> voice_scene_spec(command) == Some(
            VoiceSceneView { voice: "Ethan"@, music: "Sigma-BG-Music"@, playlist_folder: Some("Sigma"@) },
        ),
        command == "!news"@ ==> voice_scene_spec(command) == Some(
            VoiceSceneView { voice: "Ethan"@, music: "News-1-BG-Music"@, playlist_folder: Some("News"@) },
        ),
        command == "!sexy"@ ==> voice_scene_spec(command) == Some(
            VoiceSceneView { voice: "Charlotte"@, music: "Sexy-2-BG-Music"@, playlist_folder: Some("Sexy"@) },
        ),
        command == "!romcom"@ ==> voice_scene_spec(command) == Some(
            VoiceSceneView { voice: "Fin"@, music: "Romcom-BG-Music"@, playlist_folder: None },
        ),
        command == "!chef"@ ==> voice_scene_spec(command) == Some(
            VoiceSceneView { voice: "Giovanni"@, music: "Chef-BG-Music"@, playlist_folder: None },
        ),
        command == "!carti"@ ==> voice_scene_spec(command) == Some(
            VoiceSceneView { voice: "Random"@, music: "Carti-BG-Music"@, playlist_folder: None },
        ),
        command == "!nerds"@ ==> voice_scene_spec(command) == Some(
            VoiceSceneView { voice: "Fin"@, music: "Nerd-BG-Music"@, playlist_folder: None },
        ),
        command == "!earth"@ ==> voice_scene_spec(command) == Some(
            VoiceSceneView { voice: "atten"@, music: "Planet-Earth-BG-Music-1"@, playlist_folder: Some("PlanetEarth"@) },
        ),
        command != "!yoga"@ && command != "!drama"@ && command != "!greed"@ && command != "!ken"@ && command != "!hospital"@ && command != "!sigma"@ && command != "!news"@ && command != "!sexy"@ && command != "!romcom"@ && command != "!chef"@ && command != "!carti"@ && command != "!nerds"@ && command != "!earth"@ ==> voice_scene_spec(command) is None,
{
    reveal_strlit("!yoga");
    reveal_strlit("!drama");
    reveal_strlit("!greed");
    reveal_strlit("!ken");
    reveal_strlit("!hospital");
    reveal_strlit("!sigma");
    reveal_strlit("!news");
    reveal_strlit("!sexy");
    reveal_strlit("!romcom");
    reveal_strlit("!chef");
    reveal_strlit("!carti");
    reveal_strlit("!nerds");
    reveal_strlit("!earth");
    assert("!yoga"@.len() == 5 && "!yoga"@[1] == 'y');
    assert("!drama"@.len() == 6 && "!drama"@[1] == 'd');
    assert("!greed"@.len() == 6 && "!greed"@[1] == 'g');
    assert("!ken"@.len() == 4 && "!ken"@[1] == 'k');
    assert("!hospital"@.len() == 9 && "!hospital"@[1] == 'h');
    assert("!sigma"@.len() == 6 && "!sigma"@[1] == 's');
    assert("!news"@.len() == 5 && "!news"@[1] == 'n');
    assert("!sexy"@.len() == 5 && "!sexy"@[1] == 's');
    assert("!romcom"@.len() == 7 && "!romcom"@[1] == 'r');
    assert("!chef"@.len() == 5 && "!chef"@[1] == 'c');
    assert("!carti"@.len() == 6 && "!carti"@[1] == 'c');
    assert("!nerds"@.len() == 6 && "!nerds"@[1] == 'n');
    assert("!earth"@.len() == 6 && "!earth"@[1] == 'e');
    let t = voice_to_music_table();
    if command == "!yoga"@ {
        each_command_starts_its_scene(0);
    } else if command == "!drama"@ {
        each_command_starts_its_scene(1);
    } else if command == "!greed"@ {
        each_command_starts_its_scene(2);
    } else if command == "!ken"@ {
        each_command_starts_its_scene(3);
    } else if command == "!hospital"@ {
        each_command_starts_its_scene(4);
    } else if command == "!sigma"@ {
        each_command_starts_its_scene(5);
    } else if command == "!news"@ {
        each_command_starts_its_scene(6);
    } else if command == "!sexy"@ {
        each_command_starts_its_scene(7);
    } else if command == "!romcom"@ {
        each_command_starts_its_scene(8);
    } else if command == "!chef"@ {
        each_command_starts_its_scene(9);
    } else if command == "!carti"@ {
        each_command_starts_its_scene(10);
    } else if command == "!nerds"@ {
        each_command_starts_its_scene(11);
    } else if command == "!earth"@ {
        each_command_starts_its_scene(12);
    } else {
        assert forall|j: int| 0 <= j < t.len() implies #[trigger] t[j].0 != command by {}
        lemma_scene_absent(t, command);
    }
}

} // verus!
