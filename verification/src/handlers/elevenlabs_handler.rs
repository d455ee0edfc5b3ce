//! Text-to-speech requests: which voice reads a message, which effects its
//! recording goes through, and how loud it plays.
use crate::text::{concat3, first_char, owned, str_eq};
use vstd::prelude::*;

verus! {

/// Whether a message is left unread: chat commands (`!`) and mentions (`@`).
pub open spec fn should_skip_spec(message: Seq<char>) -> bool {
    message.len() > 0 && (message[0] == '!' || message[0] == '@')
}

/// Whether the message is left unread.
pub fn should_skip_message(message: &str) -> (r: bool)
    ensures
        r == should_skip_spec(message@),
{
    match first_char(message) {
        Some(c) => c == '!' || c == '@',
        None => false,
    }
}

/// The voice a message is read in. With global voice mode on, every message
/// is read in the global voice: the streamer's own voice, or `ethan` when
/// none is stored. Otherwise the voice the request names, else the
/// chatter's stored voice, else the global voice.
pub open spec fn final_voice_spec(
    requested: Option<Seq<char>>,
    global_voice_enabled: bool,
    streamer_voice: Option<Seq<char>>,
    user_voice: Option<Seq<char>>,
) -> Seq<char> {
    let global_voice = match streamer_voice {
        Some(v) => v,
        None => "ethan"@,
    };
    if global_voice_enabled {
        global_voice
    } else {
        match requested {
            Some(v) => v,
            None => match user_voice {
                Some(v) => v,
                None => global_voice,
            },
        }
    }
}

/// The voice a message is read in, from the voice the request names,
/// whether global voice mode is on, and the stored voices of the streamer
/// and of the chatter (`None` where none could be read).
pub fn determine_final_voice(
    requested: Option<String>,
    global_voice_enabled: bool,
    streamer_voice: Option<String>,
    user_voice: Option<String>,
) -> (r: String)
    ensures
        r@ == final_voice_spec(
            crate::text::opt_view(requested),
            global_voice_enabled,
            crate::text::opt_view(streamer_voice),
            crate::text::opt_view(user_voice),
        ),
{
    let global_voice = match streamer_voice {
        Some(v) => v,
        None => owned("ethan"),
    };
    if global_voice_enabled {
        return global_voice;
    }
    match requested {
        Some(v) => v,
        None => match user_voice {
            Some(v) => v,
            None => global_voice,
        },
    }
}

/// One step of audio processing on a recording.
pub enum AudioOp {
    /// Normalise the loudness.
    Normalize,
    /// Add reverb.
    Reverb,
    /// Stretch the recording by the given factor.
    Stretch(String),
    /// Shift the pitch by the given amount.
    Pitch(String),
}

/// An audio step, as plain text.
pub enum AudioOpView {
    Normalize,
    Reverb,
    Stretch(Seq<char>),
    Pitch(Seq<char>),
}

impl View for AudioOp {
    type V = AudioOpView;

    open spec fn view(&self) -> AudioOpView {
        match self {
            AudioOp::Normalize => AudioOpView::Normalize,
            AudioOp::Reverb => AudioOpView::Reverb,
            AudioOp::Stretch(s) => AudioOpView::Stretch(s@),
            AudioOp::Pitch(p) => AudioOpView::Pitch(p@),
        }
    }
}

/// The view of a list of stages.
pub open spec fn stages_view(stages: Seq<Vec<AudioOp>>) -> Seq<Seq<AudioOpView>> {
    stages.map_values(|st: Vec<AudioOp>| st@.map_values(|op: AudioOp| op@))
}

/// The effects a recording goes through, as stages run in order. Each stage
/// is a chain of steps; a stage whose steps all succeed replaces the
/// recording, one that fails leaves it as it was. A requested reverb,
/// stretch and pitch come first, each after normalising; then the voices
/// `evil_pokimane` and `satan` are pitched down (by 200 and 350) with
/// reverb, and `god` gets reverb.
pub open spec fn audio_stages_spec(
    reverb: bool,
    stretch: Option<Seq<char>>,
    pitch: Option<Seq<char>>,
    final_voice: Seq<char>,
) -> Seq<Seq<AudioOpView>> {
    let s1: Seq<Seq<AudioOpView>> = if reverb {
        seq![seq![AudioOpView::Normalize, AudioOpView::Reverb]]
    } else {
        Seq::empty()
    };
    let s2 = match stretch {
        Some(s) => s1.push(seq![AudioOpView::Normalize, AudioOpView::Stretch(s)]),
        None => s1,
    };
    let s3 = match pitch {
        Some(p) => s2.push(seq![AudioOpView::Normalize, AudioOpView::Pitch(p)]),
        None => s2,
    };
    if final_voice == "evil_pokimane"@ {
        s3.push(seq![AudioOpView::Normalize, AudioOpView::Pitch("-200"@), AudioOpView::Reverb])
    } else if final_voice == "satan"@ {
        s3.push(seq![AudioOpView::Normalize, AudioOpView::Pitch("-350"@), AudioOpView::Reverb])
    } else if final_voice == "god"@ {
        s3.push(seq![AudioOpView::Normalize, AudioOpView::Reverb])
    } else {
        s3
    }
}

/// The effect stages for a recording read in `final_voice`, from the
/// reverb, stretch and pitch that the request asks for. The stages are run
/// in order, each on the recording that `next_audio_path` gave after the
/// one before; applying the effects never fails.
pub fn apply_audio_effects(
    reverb: bool,
    stretch: Option<String>,
    pitch: Option<String>,
    final_voice: &str,
) -> (r: Vec<Vec<AudioOp>>)
    ensures
        stages_view(r@) == audio_stages_spec(
            reverb,
            crate::text::opt_view(stretch),
            crate::text::opt_view(pitch),
            final_voice@,
        ),
{
    let mut stages: Vec<Vec<AudioOp>> = Vec::new();
    if reverb {
        stages.push(vec![AudioOp::Normalize, AudioOp::Reverb]);
    }
    match stretch {
        Some(s) => stages.push(vec![AudioOp::Normalize, AudioOp::Stretch(s)]),
        None => {},
    }
    match pitch {
        Some(p) => stages.push(vec![AudioOp::Normalize, AudioOp::Pitch(p)]),
        None => {},
    }
    if str_eq(final_voice, "evil_pokimane") {
        stages.push(vec![AudioOp::Normalize, AudioOp::Pitch(owned("-200")), AudioOp::Reverb]);
    } else if str_eq(final_voice, "satan") {
        stages.push(vec![AudioOp::Normalize, AudioOp::Pitch(owned("-350")), AudioOp::Reverb]);
    } else if str_eq(final_voice, "god") {
        stages.push(vec![AudioOp::Normalize, AudioOp::Reverb]);
    }
    proof {
        let ghost want = audio_stages_spec(
            reverb,
            crate::text::opt_view(stretch),
            crate::text::opt_view(pitch),
            final_voice@,
        );
        assert(stages_view(stages@) =~~= want);
    }
    stages
}

/// The recording after one effect stage: the path the stage produced when
/// all its steps succeeded, else the recording it started from.
pub open spec fn next_audio_path_spec(current: Seq<char>, produced: Option<Seq<char>>) -> Seq<char> {
    match produced {
        Some(p) => p,
        None => current,
    }
}

/// The recording after the stages whose outcomes are `outcomes`, run in
/// order from `start`.
pub open spec fn audio_path_after(start: Seq<char>, outcomes: Seq<Option<Seq<char>>>) -> Seq<char>
    decreases outcomes.len(),
{
    if outcomes.len() == 0 {
        start
    } else {
        next_audio_path_spec(audio_path_after(start, outcomes.drop_last()), outcomes.last())
    }
}

/// The recording to go on with after a stage run on `current`: `produced`
/// holds the stage's result when every step of it succeeded, and is `None`
/// when one failed.
pub fn next_audio_path(current: String, produced: Option<String>) -> (r: String)
    ensures
        r@ == next_audio_path_spec(current@, crate::text::opt_view(produced)),
{
    match produced {
        Some(p) => p,
        None => current,
    }
}

/// The volume, in percent, a recording plays at: loudest for `melkey`,
/// `beginbot` and `evil_pokimane`, then `satan` and `god`, then everyone
/// else.
pub open spec fn volume_percent_spec(final_voice: Seq<char>) -> u32 {
    if final_voice == "melkey"@ || final_voice == "beginbot"@ || final_voice == "evil_pokimane"@ {
        100
    } else if final_voice == "satan"@ || final_voice == "god"@ {
        70
    } else {
        50
    }
}

/// The volume, in percent, of a recording read in `final_voice`.
pub fn play_volume_percent(final_voice: &str) -> (r: u32)
    ensures
        r == volume_percent_spec(final_voice@),
{
    if str_eq(final_voice, "melkey") || str_eq(final_voice, "beginbot") || str_eq(
        final_voice,
        "evil_pokimane",
    ) {
        100
    } else if str_eq(final_voice, "satan") || str_eq(final_voice, "god") {
        70
    } else {
        50
    }
}

/// Where the recording of a chat message is saved, from its file name.
pub open spec fn recording_path_spec(filename: Seq<char>) -> Seq<char> {
    "./TwitchChatTTSRecordings/"@ + filename + ".wav"@
}

/// Where the recording with file name `filename` is saved.
pub fn recording_path(filename: &str) -> (r: String)
    ensures
        r@ == recording_path_spec(filename@),
{
    concat3("./TwitchChatTTSRecordings/", filename, ".wav")
}

/// Every effect stage normalises the recording before its effect.
pub proof fn every_stage_normalises_first(
    reverb: bool,
    stretch: Option<Seq<char>>,
    pitch: Option<Seq<char>>,
    final_voice: Seq<char>,
)
    ensures
        forall|i: int|
            0 <= i < audio_stages_spec(reverb, stretch, pitch, final_voice).len() ==> (
            #[trigger] audio_stages_spec(reverb, stretch, pitch, final_voice)[i]).len() >= 2
                && audio_stages_spec(reverb, stretch, pitch, final_voice)[i][0]
                == AudioOpView::Normalize,
{
    let s1: Seq<Seq<AudioOpView>> = if reverb {
        seq![seq![AudioOpView::Normalize, AudioOpView::Reverb]]
    } else {
        Seq::empty()
    };
    let s2 = match stretch {
        Some(s) => s1.push(seq![AudioOpView::Normalize, AudioOpView::Stretch(s)]),
        None => s1,
    };
    let s3 = match pitch {
        Some(p) => s2.push(seq![AudioOpView::Normalize, AudioOpView::Pitch(p)]),
        None => s2,
    };
    assert(forall|i: int| 0 <= i < s1.len() ==> (#[trigger] s1[i]).len() >= 2 && s1[i][0]
        == AudioOpView::Normalize);
    assert(forall|i: int| 0 <= i < s2.len() ==> (#[trigger] s2[i]).len() >= 2 && s2[i][0]
        == AudioOpView::Normalize);
    assert(forall|i: int| 0 <= i < s3.len() ==> (#[trigger] s3[i]).len() >= 2 && s3[i][0]
        == AudioOpView::Normalize);
}

/// The recording that comes out of the effects is the one that the last
/// successful stage produced, or the input recording when no stage
/// succeeded: a failed stage never loses the work of those before it.
pub proof fn last_successful_stage_wins(start: Seq<char>, outcomes: Seq<Option<Seq<char>>>)
    ensures
        (forall|i: int| 0 <= i < outcomes.len() ==> #[trigger] outcomes[i] is None)
            ==> audio_path_after(start, outcomes) == start,
        forall|k: int|
            0 <= k < outcomes.len() && #[trigger] outcomes[k] is Some && (forall|j: int|
                k < j < outcomes.len() ==> #[trigger] outcomes[j] is None) ==> audio_path_after(
                start,
                outcomes,
            ) == outcomes[k]->0,
    decreases outcomes.len(),
{
    if outcomes.len() > 0 {
        let init = outcomes.drop_last();
        last_successful_stage_wins(start, init);
        let n = outcomes.len() - 1;
        if forall|i: int| 0 <= i < outcomes.len() ==> #[trigger] outcomes[i] is None {
            assert(outcomes[n] is None);
            assert forall|i: int| 0 <= i < init.len() implies #[trigger] init[i] is None by {
                assert(init[i] == outcomes[i]);
            }
        }
        assert forall|k: int|
            0 <= k < outcomes.len() && #[trigger] outcomes[k] is Some && (forall|j: int|
                k < j < outcomes.len() ==> #[trigger] outcomes[j] is None) implies audio_path_after(
            start,
            outcomes,
        ) == outcomes[k]->0 by {
            if k < n {
                assert(outcomes[n] is None);
                assert(init[k] == outcomes[k]);
                assert forall|j: int| k < j < init.len() implies #[trigger] init[j] is None by {
                    assert(init[j] == outcomes[j]);
                    assert(outcomes[j] is None);
                }
            }
        }
    }
}

/// With global voice mode on, every message is read in the same voice,
/// whatever voice it asks for and whoever sends it.
pub proof fn global_voice_overrides_requests(
    requested_a: Option<Seq<char>>,
    requested_b: Option<Seq<char>>,
    streamer_voice: Option<Seq<char>>,
    user_voice_a: Option<Seq<char>>,
    user_voice_b: Option<Seq<char>>,
)
    ensures
        final_voice_spec(requested_a, true, streamer_voice, user_voice_a) == final_voice_spec(
            requested_b,
            true,
            streamer_voice,
            user_voice_b,
        ),
{
}


/// Which voice reads a message: with global voice mode on, the streamer's
/// voice (or `ethan`) whatever is asked; otherwise the voice the request
/// names comes first, then the chatter's own stored voice, then the
/// streamer's voice (or `ethan`).
pub proof fn requested_voice_comes_first(
    requested: Option<Seq<char>>,
    global_voice_enabled: bool,
    streamer_voice: Option<Seq<char>>,
    user_voice: Option<Seq<char>>,
)
    ensures
        ({
            let v = final_voice_spec(requested, global_voice_enabled, streamer_voice, user_voice);
            let global = if streamer_voice is Some {
                streamer_voice->0
            } else {
                "ethan"@
            };
            &&& global_voice_enabled ==> v == global
            &&& !global_voice_enabled && requested is Some ==> v == requested->0
            &&& !global_voice_enabled && requested is None && user_voice is Some ==> v
                == user_voice->0
            &&& !global_voice_enabled && requested is None && user_voice is None ==> v == global
        }),
{
}

/// Chat commands and mentions are never read out: a message is skipped
/// exactly when it starts with `!` or `@`.
pub proof fn commands_and_mentions_are_not_read(message: Seq<char>)
    ensures
        message.len() > 0 && message[0] == '!' ==> should_skip_spec(message),
        message.len() > 0 && message[0] == '@' ==> should_skip_spec(message),
        message.len() == 0 ==> !should_skip_spec(message),
        message.len() > 0 && message[0] != '!' && message[0] != '@' ==> !should_skip_spec(message),
{
}

/// The effects run in a fixed order, one stage for each thing asked: the
/// reverb first, then the stretch by the amount asked, then the pitch shift
/// by the amount asked, then the voice's own effect (`evil_pokimane` down
/// 200 with reverb, `satan` down 350 with reverb, `god` with reverb); with
/// nothing asked and another voice there is no stage.
pub proof fn effects_run_in_order(
    reverb: bool,
    stretch: Option<Seq<char>>,
    pitch: Option<Seq<char>>,
    final_voice: Seq<char>,
)
    ensures
        ({
            let st = audio_stages_spec(reverb, stretch, pitch, final_voice);
            let r: int = if reverb {
                1
            } else {
                0
            };
            let s: int = if stretch is Some {
                1
            } else {
                0
            };
            let p: int = if pitch is Some {
                1
            } else {
                0
            };
            let special = final_voice == "evil_pokimane"@ || final_voice == "satan"@ || final_voice
                == "god"@;
            let v: int = if special {
                1
            } else {
                0
            };
            &&& st.len() == r + s + p + v
            &&& reverb ==> st[0] == seq![AudioOpView::Normalize, AudioOpView::Reverb]
            &&& stretch is Some ==> st[r] == seq![
                AudioOpView::Normalize,
                AudioOpView::Stretch(stretch->0),
            ]
            &&& pitch is Some ==> st[r + s] == seq![
                AudioOpView::Normalize,
                AudioOpView::Pitch(pitch->0),
            ]
            &&& final_voice == "evil_pokimane"@ ==> st[r + s + p] == seq![
                AudioOpView::Normalize,
                AudioOpView::Pitch("-200"@),
                AudioOpView::Reverb,
            ]
            &&& final_voice == "satan"@ ==> st[r + s + p] == seq![
                AudioOpView::Normalize,
                AudioOpView::Pitch("-350"@),
                AudioOpView::Reverb,
            ]
            &&& final_voice == "god"@ ==> st[r + s + p] == seq![
                AudioOpView::Normalize,
                AudioOpView::Reverb,
            ]
        }),
{
    reveal_strlit("evil_pokimane");
    reveal_strlit("satan");
    reveal_strlit("god");
    reveal_strlit("melkey");
    reveal_strlit("beginbot");
    assert("evil_pokimane"@.len() == 13);
    assert("satan"@.len() == 5);
    assert("god"@.len() == 3);
    assert("melkey"@.len() == 6);
    assert("beginbot"@.len() == 8);
}

/// How loud a recording plays: `melkey`, `beginbot` and `evil_pokimane` at
/// full volume, `satan` and `god` at 70 percent, every other voice at half.
pub proof fn voices_play_at_their_volume(final_voice: Seq<char>)
    ensures
        (final_voice == "melkey"@ || final_voice == "beginbot"@ || final_voice == "evil_pokimane"@)
            ==> volume_percent_spec(final_voice) == 100,
        (final_voice == "satan"@ || final_voice == "god"@) ==> volume_percent_spec(final_voice)
            == 70,
        final_voice != "melkey"@ && final_voice != "beginbot"@ && final_voice != "evil_pokimane"@
            && final_voice != "satan"@ && final_voice != "god"@ ==> volume_percent_spec(final_voice)
            == 50,
{
    reveal_strlit("evil_pokimane");
    reveal_strlit("satan");
    reveal_strlit("god");
    reveal_strlit("melkey");
    reveal_strlit("beginbot");
    assert("evil_pokimane"@.len() == 13);
    assert("satan"@.len() == 5);
    assert("god"@.len() == 3);
    assert("melkey"@.len() == 6);
    assert("beginbot"@.len() == 8);
}

} // verus!
