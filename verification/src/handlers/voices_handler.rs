//! Voice commands: text to speech with effects, voice selection, the
//! stream's global modes, and voice cloning.
use crate::handlers::{is_streamer, is_streamer_name};
use crate::text::{
    concat3, join_spec, lowercase, owned, parse_i32, parse_i32_spec, slice_from, split_on,
    split_spec, str_eq, to_lowercase, views, word_copy,
};
use crate::handlers::skybox::{join_after, words_after};
use vstd::prelude::*;

verus! {

/// The effects that `!transform PITCH/STRETCH/REVERB` asks for.
pub struct TransformSettings {
    /// The pitch shift, within ±1000 (0 when the text gives none).
    pub pitch: i32,
    /// The text given for the stretch, if any; the program reads it as a
    /// number and keeps it when it lies between 0.1 and `stretch_limit`
    /// (else the stretch is 1).
    pub stretch: Option<String>,
    /// The largest stretch allowed: 3 for messages of more than two words,
    /// else 10.
    pub stretch_limit: u32,
    pub reverb: bool,
}

/// The effects, as plain text.
pub struct TransformSettingsView {
    pub pitch: i32,
    pub stretch: Option<Seq<char>>,
    pub stretch_limit: u32,
    pub reverb: bool,
}

impl View for TransformSettings {
    type V = TransformSettingsView;

    open spec fn view(&self) -> TransformSettingsView {
        TransformSettingsView {
            pitch: self.pitch,
            stretch: match &self.stretch {
                Some(s) => Some(s@),
                None => None,
            },
            stretch_limit: self.stretch_limit,
            reverb: self.reverb,
        }
    }
}

/// The effects that the text `PITCH/STRETCH/REVERB` asks for, for a message
/// of `word_count` words.
pub open spec fn transform_settings_spec(text: Seq<char>, word_count: nat) -> TransformSettingsView {
    let fields = split_spec(text, '/');
    TransformSettingsView {
        pitch: match parse_i32_spec(fields[0]) {
            Some(p) => if -1000 <= p <= 1000 { p } else { 0 },
            None => 0,
        },
        stretch: if fields.len() > 1 { Some(fields[1]) } else { None },
        stretch_limit: if word_count > 2 { 3 } else { 10 },
        reverb: fields.len() > 2 && (lowercase(fields[2]) == "true"@ || lowercase(fields[2]) == "t"@),
    }
}

proof fn lemma_split_has_field(s: Seq<char>, sep: char)
    ensures
        split_spec(s, sep).len() >= 1,
    decreases s.len(),
{
    if s.len() > 0 {
        lemma_split_has_field(s.drop_last(), sep);
    }
}

/// Reads the effects of `!transform PITCH/STRETCH/REVERB` for a message of
/// `word_count` words.
pub fn parse_transform_settings(transform_settings: &str, word_count: usize) -> (r: TransformSettings)
    ensures
        r@ == transform_settings_spec(transform_settings@, word_count as nat),
{
    let settings = split_on(transform_settings, '/');
    proof {
        lemma_split_has_field(transform_settings@, '/');
    }
    assert(settings@.len() > 0);
    assert(views(settings@)[0] == settings@[0]@);
    let pitch = match parse_i32(settings[0].as_str()) {
        Some(p) => if -1000 <= p && p <= 1000 {
            p
        } else {
            0
        },
        None => 0,
    };
    let stretch_limit: u32 = if word_count > 2 {
        3
    } else {
        10
    };
    let stretch = if settings.len() > 1 {
        assert(views(settings@)[1] == settings@[1]@);
        Some(owned(settings[1].as_str()))
    } else {
        None
    };
    let reverb = if settings.len() > 2 {
        assert(views(settings@)[2] == settings@[2]@);
        let lower = to_lowercase(settings[2].as_str());
        str_eq(lower.as_str(), "true") || str_eq(lower.as_str(), "t")
    } else {
        false
    };
    TransformSettings { pitch, stretch, stretch_limit, reverb }
}

/// The stream modes that voice commands switch.
#[derive(PartialEq, Eq, Structural, Clone, Copy, Debug)]
pub enum StreamMode {
    DisableStableDiffusion,
    EnableStableDiffusion,
    DisableDalle,
    EnableDalle,
    DisableGlobalVoice,
    EnableGlobalVoice,
}

/// What a voice chat command asks for.
pub enum VoiceCommand {
    /// Speak `message` as the sender through the "begin" source with the
    /// effects read from the message.
    Transform { message: String, settings: TransformSettings },
    /// Speak `message` with a given stretch, pitch or reverb.
    Speak { message: String, pitch: Option<String>, stretch: Option<String>, reverb: bool },
    /// Give the sender a voice.
    SetVoice { voice: String },
    /// Speak the whole message in a voice.
    TalkInVoice { voice: String },
    /// Hide every background music source and leave global voice mode.
    StopMusic,
    /// Switch a stream mode.
    SetMode(StreamMode),
    /// Isolate the voice in the audio at a URL.
    Isolate { url: String },
    /// Clone a voice from samples already split into `folder`.
    CloneFromFolder { name: String, folder: String },
    /// Download samples from the URLs (at most 16), split them into
    /// `folder` and clone a voice from them.
    Clone { name: String, urls: Vec<String>, folder: String },
    Nothing,
}

/// A voice command, as plain text.
pub enum VoiceCommandView {
    Transform { message: Seq<char>, settings: TransformSettingsView },
    Speak {
        message: Seq<char>,
        pitch: Option<Seq<char>>,
        stretch: Option<Seq<char>>,
        reverb: bool,
    },
    SetVoice { voice: Seq<char> },
    TalkInVoice { voice: Seq<char> },
    StopMusic,
    SetMode(StreamMode),
    Isolate { url: Seq<char> },
    CloneFromFolder { name: Seq<char>, folder: Seq<char> },
    Clone { name: Seq<char>, urls: Seq<Seq<char>>, folder: Seq<char> },
    Nothing,
}

pub open spec fn opt_string_view(o: Option<String>) -> Option<Seq<char>> {
    match o {
        Some(s) => Some(s@),
        None => None,
    }
}

impl View for VoiceCommand {
    type V = VoiceCommandView;

    open spec fn view(&self) -> VoiceCommandView {
        match self {
            VoiceCommand::Transform { message, settings } => VoiceCommandView::Transform {
                message: message@,
                settings: settings@,
            },
            VoiceCommand::Speak { message, pitch, stretch, reverb } => VoiceCommandView::Speak {
                message: message@,
                pitch: opt_string_view(*pitch),
                stretch: opt_string_view(*stretch),
                reverb: *reverb,
            },
            VoiceCommand::SetVoice { voice } => VoiceCommandView::SetVoice { voice: voice@ },
            VoiceCommand::TalkInVoice { voice } => VoiceCommandView::TalkInVoice { voice: voice@ },
            VoiceCommand::StopMusic => VoiceCommandView::StopMusic,
            VoiceCommand::SetMode(m) => VoiceCommandView::SetMode(*m),
            VoiceCommand::Isolate { url } => VoiceCommandView::Isolate { url: url@ },
            VoiceCommand::CloneFromFolder { name, folder } => VoiceCommandView::CloneFromFolder {
                name: name@,
                folder: folder@,
            },
            VoiceCommand::Clone { name, urls, folder } => VoiceCommandView::Clone {
                name: name@,
                urls: views(urls@),
                folder: folder@,
            },
            VoiceCommand::Nothing => VoiceCommandView::Nothing,
        }
    }
}

/// The folder that a cloned voice's samples are split into.
pub open spec fn split_folder_spec(name: Seq<char>) -> Seq<char> {
    "./tmp/cloned/split_"@ + name + "/"@
}

/// The folder that a cloned voice's samples are split into.
pub fn split_folder(name: &str) -> (f: String)
    ensures
        f@ == split_folder_spec(name@),
{
    concat3("./tmp/cloned/split_", name, "/")
}

/// The stream mode a command switches, for the streamer's mode commands.
pub open spec fn mode_of(command: Seq<char>) -> Option<StreamMode> {
    if command == "!disable_stable_diffusion"@ {
        Some(StreamMode::DisableStableDiffusion)
    } else if command == "!enable_stable_diffusion"@ {
        Some(StreamMode::EnableStableDiffusion)
    } else if command == "!disable_dalle"@ {
        Some(StreamMode::DisableDalle)
    } else if command == "!enable_dalle"@ {
        Some(StreamMode::EnableDalle)
    } else if command == "!no_global_voice"@ {
        Some(StreamMode::DisableGlobalVoice)
    } else if command == "!global_voice"@ {
        Some(StreamMode::EnableGlobalVoice)
    } else {
        None
    }
}

/// The stream mode a command switches.
pub fn find_mode(command: &str) -> (r: Option<StreamMode>)
    ensures
        r == mode_of(command@),
{
    if str_eq(command, "!disable_stable_diffusion") {
        Some(StreamMode::DisableStableDiffusion)
    } else if str_eq(command, "!enable_stable_diffusion") {
        Some(StreamMode::EnableStableDiffusion)
    } else if str_eq(command, "!disable_dalle") {
        Some(StreamMode::DisableDalle)
    } else if str_eq(command, "!enable_dalle") {
        Some(StreamMode::EnableDalle)
    } else if str_eq(command, "!no_global_voice") {
        Some(StreamMode::DisableGlobalVoice)
    } else if str_eq(command, "!global_voice") {
        Some(StreamMode::EnableGlobalVoice)
    } else {
        None
    }
}

/// The samples a clone uses: at most the first 16 URLs.
pub open spec fn clone_urls(urls: Seq<Seq<char>>) -> Seq<Seq<char>> {
    if urls.len() > 16 {
        urls.take(16)
    } else {
        urls
    }
}

/// Whether a message is `!isolation` without the URL it needs (which the
/// command cannot run on).
pub open spec fn isolation_without_url(words: Seq<Seq<char>>) -> bool {
    words[0] == "!isolation"@ && words.len() < 2
}

/// What the words of a voice chat command, sent by `user_name`, ask for, or
/// the error that `!stretch` and `!pitch` report without a value.
/// `default_voice` is the voice used when `!set_voice` or `!voice` names
/// none.
pub open spec fn voice_command_spec(
    words: Seq<Seq<char>>,
    user_name: Seq<char>,
    is_mod: bool,
    is_vip: bool,
    default_voice: Seq<char>,
) -> Result<VoiceCommandView, Seq<char>> {
    let command = words[0];
    let streamer = is_streamer(user_name);
    if command == "!echo"@ || command == "!transform"@ {
        if words.len() < 2 {
            Ok(VoiceCommandView::Nothing)
        } else {
            Ok(
                VoiceCommandView::Transform {
                    message: words_after(words, 2),
                    settings: transform_settings_spec(words[1], (words.len() - 2) as nat),
                },
            )
        }
    } else if command == "!stretch"@ {
        if words.len() < 2 {
            Err("Nothing to !stretch"@)
        } else {
            Ok(
                VoiceCommandView::Speak {
                    message: words_after(words, 2),
                    pitch: None,
                    stretch: Some(words[1]),
                    reverb: false,
                },
            )
        }
    } else if command == "!pitch"@ {
        if words.len() < 2 {
            Err("Nothing to !pitch"@)
        } else {
            Ok(
                VoiceCommandView::Speak {
                    message: words_after(words, 2),
                    pitch: Some(words[1]),
                    stretch: None,
                    reverb: false,
                },
            )
        }
    } else if command == "!reverb"@ {
        Ok(
            VoiceCommandView::Speak {
                message: words_after(words, 1),
                pitch: None,
                stretch: None,
                reverb: true,
            },
        )
    } else if command == "!set_voice"@ || command == "!setvoice"@ || command == "!set_name"@
        || command == "!setname"@ {
        Ok(
            VoiceCommandView::SetVoice {
                voice: if words.len() > 1 { words[1] } else { default_voice },
            },
        )
    } else if command == "!voice"@ {
        Ok(
            VoiceCommandView::TalkInVoice {
                voice: if words.len() > 1 { words[1] } else { default_voice },
            },
        )
    } else if command == "!nothing"@ {
        if !is_mod && !is_vip {
            Ok(VoiceCommandView::Nothing)
        } else {
            Ok(VoiceCommandView::StopMusic)
        }
    } else if mode_of(command) is Some {
        if streamer {
            Ok(VoiceCommandView::SetMode(mode_of(command)->0))
        } else {
            Ok(VoiceCommandView::Nothing)
        }
    } else if command == "!isolation"@ {
        Ok(VoiceCommandView::Isolate { url: words[1] })
    } else if command == "!clone_no_dl"@ {
        if streamer && words.len() == 2 {
            Ok(
                VoiceCommandView::CloneFromFolder {
                    name: words[1],
                    folder: split_folder_spec(words[1]),
                },
            )
        } else {
            Ok(VoiceCommandView::Nothing)
        }
    } else if command == "!clone"@ {
        if streamer && words.len() >= 3 {
            Ok(
                VoiceCommandView::Clone {
                    name: words[1],
                    urls: clone_urls(words.skip(2)),
                    folder: split_folder_spec(words[1]),
                },
            )
        } else {
            Ok(VoiceCommandView::Nothing)
        }
    } else {
        Ok(VoiceCommandView::Nothing)
    }
}

/// The view of a planned voice command or its error.
pub open spec fn voice_plan_view(r: Result<VoiceCommand, String>) -> Result<VoiceCommandView, Seq<char>> {
    match r {
        Ok(c) => Ok(c@),
        Err(e) => Err(e@),
    }
}

fn copy(s: &String) -> (r: String)
    ensures
        r@ == s@,
{
    owned(s.as_str())
}

/// Decides what the words of a voice chat command ask for.
pub fn handle_voices_commands(
    splitmsg: &Vec<String>,
    user_name: &str,
    is_mod: bool,
    is_vip: bool,
    default_voice: &str,
) -> (r: Result<VoiceCommand, String>)
    requires
        splitmsg@.len() > 0,
        !isolation_without_url(views(splitmsg@)),
    ensures
        voice_plan_view(r) == voice_command_spec(
            views(splitmsg@),
            user_name@,
            is_mod,
            is_vip,
            default_voice@,
        ),
{
    let ghost words = views(splitmsg@);
    assert(words[0] == splitmsg@[0]@);
    assert(splitmsg@.len() > 1 ==> words[1] == splitmsg@[1]@);
    let command = splitmsg[0].as_str();
    let streamer = is_streamer_name(user_name);
    if str_eq(command, "!echo") || str_eq(command, "!transform") {
        if splitmsg.len() < 2 {
            return Ok(VoiceCommand::Nothing);
        }
        let message = join_after(splitmsg, 2);
        let settings = parse_transform_settings(splitmsg[1].as_str(), splitmsg.len() - 2);
        Ok(VoiceCommand::Transform { message, settings })
    } else if str_eq(command, "!stretch") {
        if splitmsg.len() < 2 {
            return Err(owned("Nothing to !stretch"));
        }
        Ok(
            VoiceCommand::Speak {
                message: join_after(splitmsg, 2),
                pitch: None,
                stretch: Some(copy(&splitmsg[1])),
                reverb: false,
            },
        )
    } else if str_eq(command, "!pitch") {
        if splitmsg.len() < 2 {
            return Err(owned("Nothing to !pitch"));
        }
        Ok(
            VoiceCommand::Speak {
                message: join_after(splitmsg, 2),
                pitch: Some(copy(&splitmsg[1])),
                stretch: None,
                reverb: false,
            },
        )
    } else if str_eq(command, "!reverb") {
        Ok(
            VoiceCommand::Speak {
                message: join_after(splitmsg, 1),
                pitch: None,
                stretch: None,
                reverb: true,
            },
        )
    } else if str_eq(command, "!set_voice") || str_eq(command, "!setvoice") || str_eq(
        command,
        "!set_name",
    ) || str_eq(command, "!setname") {
        let voice = match word_copy(splitmsg, 1) {
            Some(v) => v,
            None => owned(default_voice),
        };
        Ok(VoiceCommand::SetVoice { voice })
    } else if str_eq(command, "!voice") {
        let voice = match word_copy(splitmsg, 1) {
            Some(v) => v,
            None => owned(default_voice),
        };
        Ok(VoiceCommand::TalkInVoice { voice })
    } else if str_eq(command, "!nothing") {
        if !is_mod && !is_vip {
            Ok(VoiceCommand::Nothing)
        } else {
            Ok(VoiceCommand::StopMusic)
        }
    } else if let Some(mode) = find_mode(command) {
        if streamer {
            Ok(VoiceCommand::SetMode(mode))
        } else {
            Ok(VoiceCommand::Nothing)
        }
    } else if str_eq(command, "!isolation") {
        Ok(VoiceCommand::Isolate { url: copy(&splitmsg[1]) })
    } else if str_eq(command, "!clone_no_dl") {
        if streamer && splitmsg.len() == 2 {
            let name = copy(&splitmsg[1]);
            let folder = split_folder(name.as_str());
            Ok(VoiceCommand::CloneFromFolder { name, folder })
        } else {
            Ok(VoiceCommand::Nothing)
        }
    } else if str_eq(command, "!clone") {
        if streamer && splitmsg.len() >= 3 {
            let name = copy(&splitmsg[1]);
            let folder = split_folder(name.as_str());
            let mut urls = slice_from(splitmsg, 2);
            if urls.len() > 16 {
                urls.truncate(16);
            }
            proof {
                assert(views(splitmsg@.skip(2)) =~= words.skip(2));
                if words.skip(2).len() > 16 {
                    assert(views(urls@) =~= words.skip(2).take(16));
                } else {
                    assert(views(urls@) =~= words.skip(2));
                }
            }
            Ok(VoiceCommand::Clone { name, urls, folder })
        } else {
            Ok(VoiceCommand::Nothing)
        }
    } else {
        Ok(VoiceCommand::Nothing)
    }
}

/// Only the streamer switches stream modes and clones voices, only
/// moderators and VIPs stop the music, and a clone never takes more than
/// sixteen samples.
pub proof fn voice_privileges(
    words: Seq<Seq<char>>,
    user_name: Seq<char>,
    is_mod: bool,
    is_vip: bool,
    default_voice: Seq<char>,
)
    requires
        words.len() > 0,
    ensures
        voice_command_spec(words, user_name, is_mod, is_vip, default_voice) matches Ok(c) ==> {
            &&& (c is SetMode || c is CloneFromFolder || c is Clone) ==> is_streamer(user_name)
            &&& c is StopMusic ==> is_mod || is_vip
            &&& c matches VoiceCommandView::Clone { urls, .. } ==> urls.len() <= 16
        },
{
}


/// The voice commands speak exactly the chatter's text after their
/// arguments: `!reverb TEXT` speaks all the words after the command with
/// reverb; `!stretch AMOUNT TEXT` and `!pitch AMOUNT TEXT` speak the words
/// after the amount, stretched or pitched by it (an error without one);
/// `!echo SETTINGS TEXT` and `!transform SETTINGS TEXT` speak the words
/// after the settings with the effects those settings name.
pub proof fn voice_commands_keep_the_text(
    words: Seq<Seq<char>>,
    user_name: Seq<char>,
    is_mod: bool,
    is_vip: bool,
    default_voice: Seq<char>,
)
    requires
        words.len() > 0,
    ensures
        ({
            let r = voice_command_spec(words, user_name, is_mod, is_vip, default_voice);
            &&& words[0] == "!reverb"@ ==> r == Ok::<VoiceCommandView, Seq<char>>(
                VoiceCommandView::Speak {
                    message: join_spec(words.skip(1), " "@),
                    pitch: None,
                    stretch: None,
                    reverb: true,
                },
            )
            &&& words[0] == "!stretch"@ && words.len() >= 2 ==> r == Ok::<
                VoiceCommandView,
                Seq<char>,
            >(
                VoiceCommandView::Speak {
                    message: join_spec(words.skip(2), " "@),
                    pitch: None,
                    stretch: Some(words[1]),
                    reverb: false,
                },
            )
            &&& words[0] == "!pitch"@ && words.len() >= 2 ==> r == Ok::<VoiceCommandView, Seq<char>>(
                VoiceCommandView::Speak {
                    message: join_spec(words.skip(2), " "@),
                    pitch: Some(words[1]),
                    stretch: None,
                    reverb: false,
                },
            )
            &&& (words[0] == "!stretch"@ || words[0] == "!pitch"@) && words.len() < 2 ==> r is Err
            &&& (words[0] == "!echo"@ || words[0] == "!transform"@) && words.len() >= 2 ==> r
                == Ok::<VoiceCommandView, Seq<char>>(
                VoiceCommandView::Transform {
                    message: join_spec(words.skip(2), " "@),
                    settings: transform_settings_spec(words[1], (words.len() - 2) as nat),
                },
            )
        }),
{
    reveal_strlit("!echo");
    reveal_strlit("!transform");
    reveal_strlit("!stretch");
    reveal_strlit("!pitch");
    reveal_strlit("!reverb");
    reveal_strlit("!set_voice");
    reveal_strlit("!setvoice");
    reveal_strlit("!set_name");
    reveal_strlit("!setname");
    reveal_strlit("!voice");
    reveal_strlit("!nothing");
    reveal_strlit("!disable_stable_diffusion");
    reveal_strlit("!enable_stable_diffusion");
    reveal_strlit("!disable_dalle");
    reveal_strlit("!enable_dalle");
    reveal_strlit("!no_global_voice");
    reveal_strlit("!global_voice");
    reveal_strlit("!isolation");
    reveal_strlit("!clone_no_dl");
    reveal_strlit("!clone");
    assert("!echo"@.len() == 5 && "!echo"@[1] == 'e' && "!echo"@[2] == 'c' && "!echo"@[4] == 'o');
    assert("!transform"@.len() == 10 && "!transform"@[1] == 't' && "!transform"@[2] == 'r' && "!transform"@[4] == 'n');
    assert("!stretch"@.len() == 8 && "!stretch"@[1] == 's' && "!stretch"@[2] == 't' && "!stretch"@[4] == 'e');
    assert("!pitch"@.len() == 6 && "!pitch"@[1] == 'p' && "!pitch"@[2] == 'i' && "!pitch"@[4] == 'c');
    assert("!reverb"@.len() == 7 && "!reverb"@[1] == 'r' && "!reverb"@[2] == 'e' && "!reverb"@[4] == 'e');
    assert("!set_voice"@.len() == 10 && "!set_voice"@[1] == 's' && "!set_voice"@[2] == 'e' && "!set_voice"@[4] == '_');
    assert("!setvoice"@.len() == 9 && "!setvoice"@[1] == 's' && "!setvoice"@[2] == 'e' && "!setvoice"@[4] == 'v');
    assert("!set_name"@.len() == 9 && "!set_name"@[1] == 's' && "!set_name"@[2] == 'e' && "!set_name"@[4] == '_');
    assert("!setname"@.len() == 8 && "!setname"@[1] == 's' && "!setname"@[2] == 'e' && "!setname"@[4] == 'n');
    assert("!voice"@.len() == 6 && "!voice"@[1] == 'v' && "!voice"@[2] == 'o' && "!voice"@[4] == 'c');
    assert("!nothing"@.len() == 8 && "!nothing"@[1] == 'n' && "!nothing"@[2] == 'o' && "!nothing"@[4] == 'h');
    assert("!disable_stable_diffusion"@.len() == 25 && "!disable_stable_diffusion"@[1] == 'd' && "!disable_stable_diffusion"@[2] == 'i' && "!disable_stable_diffusion"@[4] == 'a');
    assert("!enable_stable_diffusion"@.len() == 24 && "!enable_stable_diffusion"@[1] == 'e' && "!enable_stable_diffusion"@[2] == 'n' && "!enable_stable_diffusion"@[4] == 'b');
    assert("!disable_dalle"@.len() == 14 && "!disable_dalle"@[1] == 'd' && "!disable_dalle"@[2] == 'i' && "!disable_dalle"@[4] == 'a');
    assert("!enable_dalle"@.len() == 13 && "!enable_dalle"@[1] == 'e' && "!enable_dalle"@[2] == 'n' && "!enable_dalle"@[4] == 'b');
    assert("!no_global_voice"@.len() == 16 && "!no_global_voice"@[1] == 'n' && "!no_global_voice"@[2] == 'o' && "!no_global_voice"@[4] == 'g');
    assert("!global_voice"@.len() == 13 && "!global_voice"@[1] == 'g' && "!global_voice"@[2] == 'l' && "!global_voice"@[4] == 'b');
    assert("!isolation"@.len() == 10 && "!isolation"@[1] == 'i' && "!isolation"@[2] == 's' && "!isolation"@[4] == 'l');
    assert("!clone_no_dl"@.len() == 12 && "!clone_no_dl"@[1] == 'c' && "!clone_no_dl"@[2] == 'l' && "!clone_no_dl"@[4] == 'n');
    assert("!clone"@.len() == 6 && "!clone"@[1] == 'c' && "!clone"@[2] == 'l' && "!clone"@[4] == 'n');
    assert(words.len() <= 1 ==> words.skip(1) =~= Seq::<Seq<char>>::empty());
    assert(words.len() == 2 ==> words.skip(2) =~= Seq::<Seq<char>>::empty());
}

/// The voice commands that name a voice, a URL or a clone take it from
/// their words: `!set_voice VOICE` (and `!setvoice`, `!set_name`,
/// `!setname`) sets the chatter's voice, `!voice VOICE` talks in it (the
/// default voice when none is named), `!isolation URL` isolates that URL,
/// `!clone_no_dl NAME` and `!clone NAME URL...` clone the voice `NAME`
/// from its samples (the streamer's, and at most sixteen URLs), and each
/// mode command switches its own mode for the streamer.
pub proof fn voice_commands_read_their_words(
    words: Seq<Seq<char>>,
    user_name: Seq<char>,
    is_mod: bool,
    is_vip: bool,
    default_voice: Seq<char>,
)
    requires
        words.len() > 0,
    ensures
        ({
            let r = voice_command_spec(words, user_name, is_mod, is_vip, default_voice);
            let named = if words.len() > 1 {
                words[1]
            } else {
                default_voice
            };
            let streamer = is_streamer(user_name);
            &&& (words[0] == "!set_voice"@ || words[0] == "!setvoice"@ || words[0] == "!set_name"@
                || words[0] == "!setname"@) ==> r == Ok::<VoiceCommandView, Seq<char>>(
                VoiceCommandView::SetVoice { voice: named },
            )
            &&& words[0] == "!voice"@ ==> r == Ok::<VoiceCommandView, Seq<char>>(
                VoiceCommandView::TalkInVoice { voice: named },
            )
            &&& words[0] == "!isolation"@ && words.len() > 1 ==> r == Ok::<
                VoiceCommandView,
                Seq<char>,
            >(VoiceCommandView::Isolate { url: words[1] })
            &&& words[0] == "!clone_no_dl"@ && streamer && words.len() == 2 ==> r == Ok::<
                VoiceCommandView,
                Seq<char>,
            >(
                VoiceCommandView::CloneFromFolder {
                    name: words[1],
                    folder: "./tmp/cloned/split_"@ + words[1] + "/"@,
                },
            )
            &&& words[0] == "!clone"@ && streamer && words.len() >= 3 ==> (r matches Ok(
                VoiceCommandView::Clone { name, urls, folder },
            ) && name == words[1] && folder == "./tmp/cloned/split_"@ + words[1] + "/"@
                && urls.len() == (if words.len() - 2 > 16 {
                16
            } else {
                words.len() - 2
            }) && forall|i: int| 0 <= i < urls.len() ==> #[trigger] urls[i] == words[i + 2])
            &&& words[0] == "!nothing"@ ==> r == Ok::<VoiceCommandView, Seq<char>>(
                if is_mod || is_vip {
                    VoiceCommandView::StopMusic
                } else {
                    VoiceCommandView::Nothing
                },
            )
            &&& streamer && words[0] == "!disable_stable_diffusion"@ ==> r == Ok::<
                VoiceCommandView,
                Seq<char>,
            >(VoiceCommandView::SetMode(StreamMode::DisableStableDiffusion))
            &&& streamer && words[0] == "!enable_stable_diffusion"@ ==> r == Ok::<
                VoiceCommandView,
                Seq<char>,
            >(VoiceCommandView::SetMode(StreamMode::EnableStableDiffusion))
            &&& streamer && words[0] == "!disable_dalle"@ ==> r == Ok::<VoiceCommandView, Seq<char>>(
                VoiceCommandView::SetMode(StreamMode::DisableDalle),
            )
            &&& streamer && words[0] == "!enable_dalle"@ ==> r == Ok::<VoiceCommandView, Seq<char>>(
                VoiceCommandView::SetMode(StreamMode::EnableDalle),
            )
            &&& streamer && words[0] == "!no_global_voice"@ ==> r == Ok::<
                VoiceCommandView,
                Seq<char>,
            >(VoiceCommandView::SetMode(StreamMode::DisableGlobalVoice))
            &&& streamer && words[0] == "!global_voice"@ ==> r == Ok::<VoiceCommandView, Seq<char>>(
                VoiceCommandView::SetMode(StreamMode::EnableGlobalVoice),
            )
        }),
{
    reveal_strlit("!echo");
    reveal_strlit("!transform");
    reveal_strlit("!stretch");
    reveal_strlit("!pitch");
    reveal_strlit("!reverb");
    reveal_strlit("!set_voice");
    reveal_strlit("!setvoice");
    reveal_strlit("!set_name");
    reveal_strlit("!setname");
    reveal_strlit("!voice");
    reveal_strlit("!nothing");
    reveal_strlit("!disable_stable_diffusion");
    reveal_strlit("!enable_stable_diffusion");
    reveal_strlit("!disable_dalle");
    reveal_strlit("!enable_dalle");
    reveal_strlit("!no_global_voice");
    reveal_strlit("!global_voice");
    reveal_strlit("!isolation");
    reveal_strlit("!clone_no_dl");
    reveal_strlit("!clone");
    assert("!echo"@.len() == 5 && "!echo"@[1] == 'e' && "!echo"@[2] == 'c' && "!echo"@[4] == 'o');
    assert("!transform"@.len() == 10 && "!transform"@[1] == 't' && "!transform"@[2] == 'r' && "!transform"@[4] == 'n');
    assert("!stretch"@.len() == 8 && "!stretch"@[1] == 's' && "!stretch"@[2] == 't' && "!stretch"@[4] == 'e');
    assert("!pitch"@.len() == 6 && "!pitch"@[1] == 'p' && "!pitch"@[2] == 'i' && "!pitch"@[4] == 'c');
    assert("!reverb"@.len() == 7 && "!reverb"@[1] == 'r' && "!reverb"@[2] == 'e' && "!reverb"@[4] == 'e');
    assert("!set_voice"@.len() == 10 && "!set_voice"@[1] == 's' && "!set_voice"@[2] == 'e' && "!set_voice"@[4] == '_');
    assert("!setvoice"@.len() == 9 && "!setvoice"@[1] == 's' && "!setvoice"@[2] == 'e' && "!setvoice"@[4] == 'v');
    assert("!set_name"@.len() == 9 && "!set_name"@[1] == 's' && "!set_name"@[2] == 'e' && "!set_name"@[4] == '_');
    assert("!setname"@.len() == 8 && "!setname"@[1] == 's' && "!setname"@[2] == 'e' && "!setname"@[4] == 'n');
    assert("!voice"@.len() == 6 && "!voice"@[1] == 'v' && "!voice"@[2] == 'o' && "!voice"@[4] == 'c');
    assert("!nothing"@.len() == 8 && "!nothing"@[1] == 'n' && "!nothing"@[2] == 'o' && "!nothing"@[4] == 'h');
    assert("!disable_stable_diffusion"@.len() == 25 && "!disable_stable_diffusion"@[1] == 'd' && "!disable_stable_diffusion"@[2] == 'i' && "!disable_stable_diffusion"@[4] == 'a');
    assert("!enable_stable_diffusion"@.len() == 24 && "!enable_stable_diffusion"@[1] == 'e' && "!enable_stable_diffusion"@[2] == 'n' && "!enable_stable_diffusion"@[4] == 'b');
    assert("!disable_dalle"@.len() == 14 && "!disable_dalle"@[1] == 'd' && "!disable_dalle"@[2] == 'i' && "!disable_dalle"@[4] == 'a');
    assert("!enable_dalle"@.len() == 13 && "!enable_dalle"@[1] == 'e' && "!enable_dalle"@[2] == 'n' && "!enable_dalle"@[4] == 'b');
    assert("!no_global_voice"@.len() == 16 && "!no_global_voice"@[1] == 'n' && "!no_global_voice"@[2] == 'o' && "!no_global_voice"@[4] == 'g');
    assert("!global_voice"@.len() == 13 && "!global_voice"@[1] == 'g' && "!global_voice"@[2] == 'l' && "!global_voice"@[4] == 'b');
    assert("!isolation"@.len() == 10 && "!isolation"@[1] == 'i' && "!isolation"@[2] == 's' && "!isolation"@[4] == 'l');
    assert("!clone_no_dl"@.len() == 12 && "!clone_no_dl"@[1] == 'c' && "!clone_no_dl"@[2] == 'l' && "!clone_no_dl"@[4] == 'n');
    assert("!clone"@.len() == 6 && "!clone"@[1] == 'c' && "!clone"@[2] == 'l' && "!clone"@[4] == 'n');
}

} // verus!
