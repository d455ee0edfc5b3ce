//! Implicit sounds: every chat message of two words or more is read out in
//! the chatter's voice (under sub-only TTS, only the text of subscribers,
//! moderators, staff and the helper bot), and each of its words that names
//! a sound effect plays that effect.
use crate::text::{concat3, contains_text, lowercase, split_on, split_spec, str_eq, to_lowercase, views};
use vstd::prelude::*;

verus! {

/// The voice a chat message is spoken in, and the source that shows the
/// speaker, if not the usual one.
#[derive(Debug)]
pub struct Character {
    pub voice: Option<String>,
    pub source: Option<String>,
}

impl Default for Character {
    fn default() -> (r: Self)
        ensures
            r.voice is None,
            r.source is None,
    {
        Character { voice: None, source: None }
    }
}

/// A character, as plain text.
pub struct CharacterView {
    pub voice: Option<Seq<char>>,
    pub source: Option<Seq<char>>,
}

impl View for Character {
    type V = CharacterView;

    open spec fn view(&self) -> CharacterView {
        CharacterView { voice: crate::text::opt_view(self.voice), source: crate::text::opt_view(self.source) }
    }
}

/// The stream's configured voices: moderators' default voice, the voice for
/// Twitch staff and the source that shows them, and the helper bot's voice.
pub struct SpeechVoices {
    pub mod_default: String,
    pub staff: String,
    pub broadcaster_raw: String,
    pub helper: String,
}

/// Whether a chat message is read out: not Nightbot's, and two words or more
/// when split on spaces.
pub open spec fn speaks_spec(user_name: Seq<char>, contents: Seq<char>) -> bool {
    user_name != "Nightbot"@ && split_spec(contents, ' ').len() >= 2
}

/// Whether the chat message `contents` from `user_name` is read out.
pub fn speaks(user_name: &str, contents: &str) -> (r: bool)
    ensures
        r == speaks_spec(user_name@, contents@),
{
    if str_eq(user_name, "Nightbot") {
        return false;
    }
    let fields = split_on(contents, ' ');
    fields.len() >= 2
}

/// The voice a chatter has: their stream character's voice, else the
/// moderators' default.
pub open spec fn own_voice_or(own_voice: Option<Seq<char>>, mod_default: Seq<char>) -> Seq<char> {
    match own_voice {
        Some(v) => v,
        None => mod_default,
    }
}

/// Whether a chatter's messages are read out in their own voice: always
/// for moderators and subscribers, and for everyone else only while the
/// stream is not limited to subscribers' text.
pub open spec fn reads_own_voice(is_mod: bool, is_sub: bool, sub_only_tts: bool) -> bool {
    is_mod || is_sub || !sub_only_tts
}

/// The character a message is spoken as: Twitch staff speak in the staff
/// voice shown on the broadcaster's raw source, the helper bot in the
/// helper voice, moderators and subscribers in their own voice, and other
/// chatters in their own voice too unless only subscribers are read out,
/// in which case they get no voice and their message is not spoken.
pub open spec fn character_spec(
    user_name: Seq<char>,
    is_staff: bool,
    is_mod: bool,
    is_sub: bool,
    sub_only_tts: bool,
    own_voice: Option<Seq<char>>,
    voices: SpeechVoicesView,
) -> CharacterView {
    if is_staff {
        CharacterView { voice: Some(voices.staff), source: Some(voices.broadcaster_raw) }
    } else if user_name == "beginbotbot"@ {
        CharacterView { voice: Some(voices.helper), source: None }
    } else if reads_own_voice(is_mod, is_sub, sub_only_tts) {
        CharacterView { voice: Some(own_voice_or(own_voice, voices.mod_default)), source: None }
    } else {
        CharacterView { voice: None, source: None }
    }
}

/// The stream's configured voices, as plain text.
pub struct SpeechVoicesView {
    pub mod_default: Seq<char>,
    pub staff: Seq<char>,
    pub broadcaster_raw: Seq<char>,
    pub helper: Seq<char>,
}

impl View for SpeechVoices {
    type V = SpeechVoicesView;

    open spec fn view(&self) -> SpeechVoicesView {
        SpeechVoicesView {
            mod_default: self.mod_default@,
            staff: self.staff@,
            broadcaster_raw: self.broadcaster_raw@,
            helper: self.helper@,
        }
    }
}

/// The character that `user_name`'s message is spoken as, from their
/// roles (Twitch staff, moderator, subscriber), whether the stream reads
/// out only subscribers' text, the voice their stream character has, and
/// the stream's voices. A character without a voice is not spoken.
pub fn choose_character(
    user_name: &str,
    is_staff: bool,
    is_mod: bool,
    is_sub: bool,
    sub_only_tts: bool,
    own_voice: Option<String>,
    voices: &SpeechVoices,
) -> (r: Character)
    ensures
        r@ == character_spec(
            user_name@,
            is_staff,
            is_mod,
            is_sub,
            sub_only_tts,
            crate::text::opt_view(own_voice),
            voices@,
        ),
{
    let voice = match own_voice {
        Some(v) => v,
        None => voices.mod_default.clone(),
    };
    let mut character = Character { voice: None, ..Default::default() };
    if is_staff {
        character.voice = Some(voices.staff.clone());
        character.source = Some(voices.broadcaster_raw.clone());
    } else if str_eq(user_name, "beginbotbot") {
        character.voice = Some(voices.helper.clone());
    } else if is_mod || is_sub || !sub_only_tts {
        character.voice = Some(voice);
    }
    character
}

/// The path of the sound effect called `word`.
pub open spec fn soundboard_path(word: Seq<char>) -> Seq<char> {
    "./MP3s/"@ + word + ".mp3"@
}

/// The path of the sound effect called `word`.
pub fn sound_path(word: &str) -> (r: String)
    ensures
        r@ == soundboard_path(word@),
{
    concat3("./MP3s/", word, ".mp3")
}

/// The sound effects that `words` call for, in order: each word in lower
/// case whose sound file is among `paths`.
pub open spec fn sound_words_spec(words: Seq<Seq<char>>, paths: Seq<Seq<char>>) -> Seq<Seq<char>>
    decreases words.len(),
{
    if words.len() == 0 {
        Seq::empty()
    } else {
        let rest = sound_words_spec(words.drop_last(), paths);
        let w = lowercase(words.last());
        if paths.contains(soundboard_path(w)) {
            rest.push(w)
        } else {
            rest
        }
    }
}

/// The sound effects that a chat message plays, in order: each of its
/// space-separated words, in lower case, that names a sound file among
/// `paths`.
pub fn sound_words(contents: &str, paths: &Vec<String>) -> (r: Vec<String>)
    ensures
        views(r@) == sound_words_spec(split_spec(contents@, ' '), views(paths@)),
{
    let words = split_on(contents, ' ');
    let ghost ws = views(words@);
    let mut r: Vec<String> = Vec::new();
    let mut i: usize = 0;
    assert(ws.take(0) =~= Seq::<Seq<char>>::empty());
    assert(views(r@) =~= Seq::<Seq<char>>::empty());
    while i < words.len()
        invariant
            i <= words@.len(),
            ws == views(words@),
            ws.len() == words@.len(),
            views(r@) == sound_words_spec(ws.take(i as int), views(paths@)),
        decreases words@.len() - i,
    {
        let ghost pre = ws.take(i + 1);
        assert(pre.drop_last() =~= ws.take(i as int));
        assert(pre.last() == words@[i as int]@);
        let w = to_lowercase(words[i].as_str());
        let p = sound_path(w.as_str());
        let ghost old_r = r@;
        if contains_text(paths, p.as_str()) {
            r.push(w);
            assert(views(r@) =~= views(old_r).push(w@));
        }
        i = i + 1;
    }
    assert(ws.take(i as int) =~= ws);
    r
}

/// Every sound effect a message plays has its sound file among `paths`,
/// and is one of the message's words in lower case.
pub proof fn played_sounds_have_files(words: Seq<Seq<char>>, paths: Seq<Seq<char>>)
    ensures
        forall|k: int|
            0 <= k < sound_words_spec(words, paths).len() ==> paths.contains(
                soundboard_path(#[trigger] sound_words_spec(words, paths)[k]),
            ) && exists|i: int|
                0 <= i < words.len() && sound_words_spec(words, paths)[k] == lowercase(
                    #[trigger] words[i],
                ),
    decreases words.len(),
{
    if words.len() > 0 {
        let init = words.drop_last();
        played_sounds_have_files(init, paths);
        let rest = sound_words_spec(init, paths);
        let out = sound_words_spec(words, paths);
        assert forall|k: int| 0 <= k < out.len() implies paths.contains(
            soundboard_path(#[trigger] out[k]),
        ) && exists|i: int| 0 <= i < words.len() && out[k] == lowercase(#[trigger] words[i]) by {
            if k < rest.len() {
                assert(out[k] == rest[k]);
                let i = choose|i: int| 0 <= i < init.len() && rest[k] == lowercase(#[trigger] init[i]);
                assert(words[i] == init[i]);
            } else {
                assert(out[k] == lowercase(words.last()));
                assert(words[words.len() - 1] == words.last());
            }
        }
    }
}

/// A message that is read out goes unspoken exactly when the stream reads
/// out only subscribers' text and its sender is neither Twitch staff, the
/// helper bot, a moderator nor a subscriber; only Twitch staff are shown
/// on another source.
pub proof fn only_subscribers_speak_when_limited(
    user_name: Seq<char>,
    is_staff: bool,
    is_mod: bool,
    is_sub: bool,
    sub_only_tts: bool,
    own_voice: Option<Seq<char>>,
    voices: SpeechVoicesView,
)
    ensures
        character_spec(user_name, is_staff, is_mod, is_sub, sub_only_tts, own_voice, voices).voice
            is None <==> (sub_only_tts && !is_staff && user_name != "beginbotbot"@ && !is_mod
            && !is_sub),
        character_spec(user_name, is_staff, is_mod, is_sub, sub_only_tts, own_voice, voices).source
            is Some <==> is_staff,
{
}


/// The voice a message is read in: Twitch staff in the staff voice, shown
/// on the broadcaster's raw source; the helper bot in the helper voice;
/// every other chatter who is read out at all (a moderator, a subscriber,
/// or anyone while the stream is not limited to subscribers) in the voice
/// of their own stream character, or the moderators' default voice when
/// they have none.
pub proof fn chatters_keep_their_own_voice(
    user_name: Seq<char>,
    is_staff: bool,
    is_mod: bool,
    is_sub: bool,
    sub_only_tts: bool,
    own_voice: Option<Seq<char>>,
    voices: SpeechVoicesView,
)
    ensures
        ({
            let c = character_spec(user_name, is_staff, is_mod, is_sub, sub_only_tts, own_voice, voices);
            let others = !is_staff && user_name != "beginbotbot"@;
            &&& is_staff ==> c == CharacterView {
                voice: Some(voices.staff),
                source: Some(voices.broadcaster_raw),
            }
            &&& !is_staff && user_name == "beginbotbot"@ ==> c == CharacterView {
                voice: Some(voices.helper),
                source: None,
            }
            &&& others && (is_mod || is_sub || !sub_only_tts) ==> c.source is None && c.voice
                == Some(
                match own_voice {
                    Some(v) => v,
                    None => voices.mod_default,
                },
            )
        }),
{
}

} // verus!
