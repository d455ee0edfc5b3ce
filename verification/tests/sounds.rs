use subd::handlers::elevenlabs_handler::{
    apply_audio_effects, determine_final_voice, next_audio_path, play_volume_percent, recording_path,
    should_skip_message, AudioOp,
};
use subd::handlers::explicit_sound_handler::explicit_sound;
use subd::handlers::implicit_sound_handler::{choose_character, sound_path, sound_words, speaks, SpeechVoices};
use subd::handlers::sound_handler::explicit_sound_word;

fn paths() -> Vec<String> {
    vec!["./MP3s/clap.mp3".to_string(), "./MP3s/boo.mp3".to_string()]
}

fn voices() -> SpeechVoices {
    SpeechVoices {
        mod_default: "brock-samson".to_string(),
        staff: "Randall".to_string(),
        broadcaster_raw: "half-life-scientist".to_string(),
        helper: "helper".to_string(),
    }
}

#[test]
fn who_speaks() {
    assert!(speaks("viewer", "hello there"));
    assert!(!speaks("viewer", "hello"));
    assert!(!speaks("Nightbot", "hello there"));
}

#[test]
fn characters() {
    // arguments: user, staff, mod, sub, sub-only TTS, own voice
    let c = choose_character("viewer", false, false, false, false, Some("arbys".to_string()), &voices());
    assert_eq!((c.voice, c.source), (Some("arbys".to_string()), None));
    let c = choose_character("viewer", false, false, false, false, None, &voices());
    assert_eq!(c.voice, Some("brock-samson".to_string()));
    let c = choose_character("viewer", true, false, false, true, Some("arbys".to_string()), &voices());
    assert_eq!((c.voice, c.source), (Some("Randall".to_string()), Some("half-life-scientist".to_string())));
    let c = choose_character("beginbotbot", false, false, false, true, Some("arbys".to_string()), &voices());
    assert_eq!(c.voice, Some("helper".to_string()));
}

#[test]
fn sub_only_tts_silences_other_chatters() {
    let c = choose_character("viewer", false, false, false, true, Some("arbys".to_string()), &voices());
    assert_eq!((c.voice, c.source), (None, None));
    let c = choose_character("viewer", false, false, true, true, Some("arbys".to_string()), &voices());
    assert_eq!(c.voice, Some("arbys".to_string()));
    let c = choose_character("viewer", false, true, false, true, None, &voices());
    assert_eq!(c.voice, Some("brock-samson".to_string()));
}

#[test]
fn implicit_sounds() {
    assert_eq!(sound_words("CLAP for the boo  clap", &paths()), vec!["clap", "boo", "clap"]);
    assert!(sound_words("nothing here", &paths()).is_empty());
    assert_eq!(sound_path("clap"), "./MP3s/clap.mp3");
}

#[test]
fn explicit_sounds() {
    assert_eq!(explicit_sound("viewer", true, "!CLAP", &paths()), Some("clap".to_string()));
    assert_eq!(explicit_sound("viewer", false, "!clap", &paths()), None);
    assert_eq!(explicit_sound("Nightbot", true, "!clap", &paths()), None);
    assert_eq!(explicit_sound("viewer", true, "clap", &paths()), None);
    assert_eq!(explicit_sound("viewer", true, "!nope", &paths()), None);
    assert_eq!(explicit_sound("viewer", true, "", &paths()), None);
    assert_eq!(explicit_sound_word("viewer", true, "!Boo", &paths()), Some("boo".to_string()));
    assert_eq!(explicit_sound_word("viewer", true, "?boo", &paths()), None);
    assert_eq!(explicit_sound_word("viewer", false, "", &paths()), None);
}

#[test]
fn skipped_messages() {
    assert!(should_skip_message("!command"));
    assert!(should_skip_message("@someone hi"));
    assert!(!should_skip_message("hello"));
    assert!(!should_skip_message(""));
}

#[test]
fn final_voices() {
    let s = |v: &str| Some(v.to_string());
    assert_eq!(determine_final_voice(s("melkey"), true, s("god"), s("fin")), "god");
    assert_eq!(determine_final_voice(None, true, None, s("fin")), "ethan");
    assert_eq!(determine_final_voice(s("melkey"), false, s("god"), s("fin")), "melkey");
    assert_eq!(determine_final_voice(None, false, s("god"), s("fin")), "fin");
    assert_eq!(determine_final_voice(None, false, s("god"), None), "god");
}

#[test]
fn effect_stages() {
    let stages = apply_audio_effects(true, Some("1.5".to_string()), None, "satan");
    assert_eq!(stages.len(), 3);
    assert!(matches!(stages[0][..], [AudioOp::Normalize, AudioOp::Reverb]));
    assert!(matches!(&stages[1][..], [AudioOp::Normalize, AudioOp::Stretch(s)] if s == "1.5"));
    assert!(matches!(&stages[2][..], [AudioOp::Normalize, AudioOp::Pitch(p), AudioOp::Reverb] if p == "-350"));
    assert!(apply_audio_effects(false, None, None, "fin").is_empty());
    let stages = apply_audio_effects(false, None, Some("200".to_string()), "god");
    assert_eq!(stages.len(), 2);
    assert!(matches!(stages[1][..], [AudioOp::Normalize, AudioOp::Reverb]));
}

#[test]
fn volumes_and_recordings() {
    assert_eq!(play_volume_percent("melkey"), 100);
    assert_eq!(play_volume_percent("god"), 70);
    assert_eq!(play_volume_percent("fin"), 50);
    assert_eq!(recording_path("bob_fin"), "./TwitchChatTTSRecordings/bob_fin.wav");
}

#[test]
fn failed_stage_keeps_the_recording() {
    assert_eq!(next_audio_path("a.wav".to_string(), None), "a.wav");
    assert_eq!(next_audio_path("a.wav".to_string(), Some("b.wav".to_string())), "b.wav");
    let mut path = "start.wav".to_string();
    for outcome in [Some("n1.wav".to_string()), None, Some("n3.wav".to_string()), None] {
        path = next_audio_path(path, outcome);
    }
    assert_eq!(path, "n3.wav");
}
