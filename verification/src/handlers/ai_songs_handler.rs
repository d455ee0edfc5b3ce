//! The AI song player's chat commands: song information for everyone, and
//! for the streamer queueing, playing, and the player's speed and volume.
use crate::deps::{parse_uuid, uuid_text_value};
use crate::handlers::{is_streamer, is_streamer_name};
use crate::text::{
    concat, join_from, join_spec, owned, parse_usize, parse_usize_spec, split_words, str_eq, views,
    word_at_spec, word_copy, words_spec,
};
use vstd::prelude::*;

verus! {

/// Controls of the song player's playback.
#[derive(PartialEq, Eq, Structural, Clone, Copy, Debug)]
pub enum PlaybackControl {
    Pause,
    Unpause,
    /// Skip the current song and play on.
    Skip,
    Stop,
}

/// Controls of the song player's speed.
#[derive(PartialEq, Eq, Structural, Clone, Copy, Debug)]
pub enum SpeedControl {
    /// One and a half times the normal speed.
    Nightcore,
    /// Half the normal speed.
    Doom,
    /// The normal speed.
    Normal,
    /// A quarter faster than now.
    Speedup,
    /// A quarter slower than now.
    Slowdown,
}

/// Controls of the song player's volume.
#[derive(PartialEq, Eq, Structural, Clone, Copy, Debug)]
pub enum VolumeControl {
    /// A fifth louder than now.
    Up,
    /// A fifth quieter than now.
    Down,
    /// A tenth of full volume, for coding.
    Quiet,
    /// Full volume.
    Party,
}

/// What a chat message asks of the song player.
pub enum SongCommand {
    /// Show information on the song `id`, or on the current song.
    Info { id: Option<String> },
    /// Play the song `id` with reverb.
    Reverb { id: String },
    /// Add the song with UUID `song_id` to the playlist.
    Queue { song_id: u128 },
    /// Ask to play the song played last.
    LastSong,
    /// Queue `count` random songs.
    RandomSong { count: usize },
    /// Save the song `id` (UUID `song_id`) with the title `title`, and play it.
    PlayFakeSong { id: String, song_id: u128, title: String },
    /// Queue a highly rated recent song.
    Banger,
    /// Queue a random instrumental.
    RandomInstrumental,
    /// Play the song `id` now.
    Play { id: String },
    Playback(PlaybackControl),
    Speed(SpeedControl),
    Volume(VolumeControl),
    /// Nothing to do.
    Nothing,
}

/// A song command, as plain text.
pub enum SongCommandView {
    Info { id: Option<Seq<char>> },
    Reverb { id: Seq<char> },
    Queue { song_id: u128 },
    LastSong,
    RandomSong { count: usize },
    PlayFakeSong { id: Seq<char>, song_id: u128, title: Seq<char> },
    Banger,
    RandomInstrumental,
    Play { id: Seq<char> },
    Playback(PlaybackControl),
    Speed(SpeedControl),
    Volume(VolumeControl),
    Nothing,
}

impl View for SongCommand {
    type V = SongCommandView;

    open spec fn view(&self) -> SongCommandView {
        match self {
            SongCommand::Info { id } => SongCommandView::Info { id: crate::text::opt_view(*id) },
            SongCommand::Reverb { id } => SongCommandView::Reverb { id: id@ },
            SongCommand::Queue { song_id } => SongCommandView::Queue { song_id: *song_id },
            SongCommand::LastSong => SongCommandView::LastSong,
            SongCommand::RandomSong { count } => SongCommandView::RandomSong { count: *count },
            SongCommand::PlayFakeSong { id, song_id, title } => SongCommandView::PlayFakeSong {
                id: id@,
                song_id: *song_id,
                title: title@,
            },
            SongCommand::Banger => SongCommandView::Banger,
            SongCommand::RandomInstrumental => SongCommandView::RandomInstrumental,
            SongCommand::Play { id } => SongCommandView::Play { id: id@ },
            SongCommand::Playback(c) => SongCommandView::Playback(*c),
            SongCommand::Speed(c) => SongCommandView::Speed(*c),
            SongCommand::Volume(c) => SongCommandView::Volume(*c),
            SongCommand::Nothing => SongCommandView::Nothing,
        }
    }
}

/// Whether the song player's user may run the streamer's commands.
pub fn is_admin(user_name: &str) -> (r: bool)
    ensures
        r == is_streamer(user_name@),
{
    is_streamer_name(user_name)
}

/// The playback, speed or volume control that a command names.
pub open spec fn control_spec(command: Seq<char>) -> SongCommandView {
    if command == "!pause"@ {
        SongCommandView::Playback(PlaybackControl::Pause)
    } else if command == "!unpause"@ {
        SongCommandView::Playback(PlaybackControl::Unpause)
    } else if command == "!skip"@ {
        SongCommandView::Playback(PlaybackControl::Skip)
    } else if command == "!stop"@ {
        SongCommandView::Playback(PlaybackControl::Stop)
    } else if command == "!nightcore"@ {
        SongCommandView::Speed(SpeedControl::Nightcore)
    } else if command == "!doom"@ {
        SongCommandView::Speed(SpeedControl::Doom)
    } else if command == "!normal"@ {
        SongCommandView::Speed(SpeedControl::Normal)
    } else if command == "!speedup"@ {
        SongCommandView::Speed(SpeedControl::Speedup)
    } else if command == "!slowdown"@ {
        SongCommandView::Speed(SpeedControl::Slowdown)
    } else if command == "!up"@ {
        SongCommandView::Volume(VolumeControl::Up)
    } else if command == "!down"@ {
        SongCommandView::Volume(VolumeControl::Down)
    } else if command == "!coding_volume"@ || command == "!quiet"@ {
        SongCommandView::Volume(VolumeControl::Quiet)
    } else if command == "!party_volume"@ {
        SongCommandView::Volume(VolumeControl::Party)
    } else {
        SongCommandView::Nothing
    }
}

/// The playback, speed or volume control that `command` names.
pub fn control_command(command: &str) -> (r: SongCommand)
    ensures
        r@ == control_spec(command@),
{
    if str_eq(command, "!pause") {
        SongCommand::Playback(PlaybackControl::Pause)
    } else if str_eq(command, "!unpause") {
        SongCommand::Playback(PlaybackControl::Unpause)
    } else if str_eq(command, "!skip") {
        SongCommand::Playback(PlaybackControl::Skip)
    } else if str_eq(command, "!stop") {
        SongCommand::Playback(PlaybackControl::Stop)
    } else if str_eq(command, "!nightcore") {
        SongCommand::Speed(SpeedControl::Nightcore)
    } else if str_eq(command, "!doom") {
        SongCommand::Speed(SpeedControl::Doom)
    } else if str_eq(command, "!normal") {
        SongCommand::Speed(SpeedControl::Normal)
    } else if str_eq(command, "!speedup") {
        SongCommand::Speed(SpeedControl::Speedup)
    } else if str_eq(command, "!slowdown") {
        SongCommand::Speed(SpeedControl::Slowdown)
    } else if str_eq(command, "!up") {
        SongCommand::Volume(VolumeControl::Up)
    } else if str_eq(command, "!down") {
        SongCommand::Volume(VolumeControl::Down)
    } else if str_eq(command, "!coding_volume") || str_eq(command, "!quiet") {
        SongCommand::Volume(VolumeControl::Quiet)
    } else if str_eq(command, "!party_volume") {
        SongCommand::Volume(VolumeControl::Party)
    } else {
        SongCommand::Nothing
    }
}

/// The error for a song id that is no UUID.
pub open spec fn invalid_song_id(id: Seq<char>) -> Seq<char> {
    "Invalid song id: "@ + id
}

/// The number of random songs `!random_song` queues: its second word read
/// as a `usize`, or one.
pub open spec fn random_song_count(words: Seq<Seq<char>>) -> usize {
    if words.len() > 1 {
        match parse_usize_spec(words[1]) {
            Some(n) => n,
            None => 1,
        }
    } else {
        1
    }
}

/// What the words of a chat message from `user_name` ask of the song
/// player. `!info` is for everyone; the other commands are the streamer's.
/// A song id that is no UUID is an error where the command needs its UUID.
pub open spec fn song_command_spec(words: Seq<Seq<char>>, user_name: Seq<char>) -> Result<
    SongCommandView,
    Seq<char>,
> {
    let command = if words.len() > 0 {
        words[0]
    } else {
        Seq::empty()
    };
    if command == "!info"@ {
        Ok(SongCommandView::Info { id: word_at_spec(words, 1) })
    } else if !is_streamer(user_name) {
        Ok(SongCommandView::Nothing)
    } else if command == "!reverb"@ {
        Ok(
            match word_at_spec(words, 1) {
                Some(id) => SongCommandView::Reverb { id },
                None => SongCommandView::Nothing,
            },
        )
    } else if command == "!queue"@ {
        match word_at_spec(words, 1) {
            Some(id) => match uuid_text_value(id) {
                Some(u) => Ok(SongCommandView::Queue { song_id: u }),
                None => Err(invalid_song_id(id)),
            },
            None => Ok(SongCommandView::Nothing),
        }
    } else if command == "!last_song"@ {
        Ok(SongCommandView::LastSong)
    } else if command == "!random_song"@ {
        Ok(SongCommandView::RandomSong { count: random_song_count(words) })
    } else if command == "!play_fake_song"@ {
        match word_at_spec(words, 1) {
            Some(id) => match uuid_text_value(id) {
                Some(u) => Ok(
                    SongCommandView::PlayFakeSong {
                        id,
                        song_id: u,
                        title: join_spec(words.skip(2), " "@),
                    },
                ),
                None => Err(invalid_song_id(id)),
            },
            None => Ok(SongCommandView::Nothing),
        }
    } else if command == "!banger"@ {
        Ok(SongCommandView::Banger)
    } else if command == "!random_instrumental"@ || command == "!instrumental_jam"@ {
        Ok(SongCommandView::RandomInstrumental)
    } else if command == "!play"@ {
        Ok(
            match word_at_spec(words, 1) {
                Some(id) => SongCommandView::Play { id },
                None => SongCommandView::Nothing,
            },
        )
    } else {
        Ok(control_spec(command))
    }
}

/// Decides what the chat message `contents` from `user_name` asks of the
/// song player.
pub fn handle_requests(contents: &str, user_name: &str) -> (r: Result<SongCommand, String>)
    ensures
        match r {
            Ok(c) => song_command_spec(words_spec(contents@), user_name@) == Ok::<
                SongCommandView,
                Seq<char>,
            >(c@),
            Err(e) => song_command_spec(words_spec(contents@), user_name@) == Err::<
                SongCommandView,
                Seq<char>,
            >(e@),
        },
{
    let words = split_words(contents);
    let ghost ws = views(words@);
    let command = if words.len() > 0 {
        assert(ws[0] == words@[0]@);
        owned(words[0].as_str())
    } else {
        String::new()
    };
    let second = word_copy(&words, 1);
    if words.len() > 1 {
        assert(ws[1] == words@[1]@);
    }
    assert(crate::text::opt_view(second) == word_at_spec(ws, 1));
    let command = command.as_str();
    if str_eq(command, "!info") {
        return Ok(SongCommand::Info { id: second });
    }
    if !is_admin(user_name) {
        return Ok(SongCommand::Nothing);
    }
    if str_eq(command, "!reverb") {
        Ok(
            match second {
                Some(id) => SongCommand::Reverb { id },
                None => SongCommand::Nothing,
            },
        )
    } else if str_eq(command, "!queue") {
        match second {
            Some(id) => match parse_uuid(id.as_str()) {
                Some(u) => Ok(SongCommand::Queue { song_id: u }),
                None => Err(concat("Invalid song id: ", id.as_str())),
            },
            None => Ok(SongCommand::Nothing),
        }
    } else if str_eq(command, "!last_song") {
        Ok(SongCommand::LastSong)
    } else if str_eq(command, "!random_song") {
        let count = match &second {
            Some(w) => match parse_usize(w.as_str()) {
                Some(n) => n,
                None => 1,
            },
            None => 1,
        };
        Ok(SongCommand::RandomSong { count })
    } else if str_eq(command, "!play_fake_song") {
        match second {
            Some(id) => match parse_uuid(id.as_str()) {
                Some(u) => {
                    let title = join_from(&words, 2, " ");
                    if words.len() > 2 {
                        assert(views(words@.skip(2)) =~= ws.skip(2));
                    } else {
                        assert(ws.skip(2) =~= Seq::<Seq<char>>::empty());
                    }
                    Ok(SongCommand::PlayFakeSong { id, song_id: u, title })
                },
                None => Err(concat("Invalid song id: ", id.as_str())),
            },
            None => Ok(SongCommand::Nothing),
        }
    } else if str_eq(command, "!banger") {
        Ok(SongCommand::Banger)
    } else if str_eq(command, "!random_instrumental") || str_eq(command, "!instrumental_jam") {
        Ok(SongCommand::RandomInstrumental)
    } else if str_eq(command, "!play") {
        Ok(
            match second {
                Some(id) => SongCommand::Play { id },
                None => SongCommand::Nothing,
            },
        )
    } else {
        Ok(control_command(command))
    }
}

/// Anyone but the streamer can only ask for song information: their
/// messages never queue, play or control anything, and never fail.
pub proof fn others_only_ask_for_info(words: Seq<Seq<char>>, user_name: Seq<char>)
    requires
        !is_streamer(user_name),
    ensures
        song_command_spec(words, user_name) matches Ok(c) && (c is Info || c is Nothing),
{
}

/// The chat command that queues a song.
pub open spec fn queue_command_spec(song_id: Seq<char>) -> Seq<char> {
    "!queue "@ + song_id
}

/// The chat command that queues the song `song_id`.
pub fn queue_command(song_id: &str) -> (r: String)
    ensures
        r@ == queue_command_spec(song_id@),
{
    concat("!queue ", song_id)
}

/// The chat message that announces a song added to the queue.
pub open spec fn added_to_queue_spec(username: Seq<char>, title: Seq<char>, tags: Seq<char>) -> Seq<char> {
    "@"@ + username + " Added Song to Queue - "@ + title + " | "@ + tags
}

/// The chat message that announces the song `title` (with `tags`) of
/// `username` added to the queue.
pub fn added_to_queue_message(username: &str, title: &str, tags: &str) -> (r: String)
    ensures
        r@ == added_to_queue_spec(username@, title@, tags@),
{
    let a = crate::text::concat3("@", username, " Added Song to Queue - ");
    let b = crate::text::concat3(a.as_str(), title, " | ");
    concat(b.as_str(), tags)
}

/// The chat message that announces the song playing, with its average
/// score (or the note that it has no votes).
pub open spec fn now_playing_spec(
    username: Seq<char>,
    title: Seq<char>,
    tags: Seq<char>,
    song_id: Seq<char>,
    score: Seq<char>,
) -> Seq<char> {
    "@"@ + username + "'s Song is Currently playing - "@ + title + " | "@ + tags + " | "@ + song_id
        + " | AVG Score: "@ + score
}

/// The chat message that announces the song playing.
pub fn now_playing_message(
    username: &str,
    title: &str,
    tags: &str,
    song_id: &str,
    score: &str,
) -> (r: String)
    ensures
        r@ == now_playing_spec(username@, title@, tags@, song_id@, score@),
{
    let a = crate::text::concat3("@", username, "'s Song is Currently playing - ");
    let b = crate::text::concat3(a.as_str(), title, " | ");
    let c = crate::text::concat3(b.as_str(), tags, " | ");
    let d = crate::text::concat3(c.as_str(), song_id, " | AVG Score: ");
    concat(d.as_str(), score)
}


/// Each player control word names its own control: `!pause` pauses and
/// `!unpause` resumes, `!skip` skips and `!stop` stops; `!nightcore`,
/// `!doom`, `!normal`, `!speedup` and `!slowdown` set the speed; `!up`,
/// `!down`, `!coding_volume` or `!quiet`, and `!party_volume` set the
/// volume; any other word names no control.
pub proof fn player_controls_name_their_control(command: Seq<char>)
    ensures
        command == "!pause"@ ==> control_spec(command) == SongCommandView::Playback(PlaybackControl::Pause),
        command == "!unpause"@ ==> control_spec(command) == SongCommandView::Playback(PlaybackControl::Unpause),
        command == "!skip"@ ==> control_spec(command) == SongCommandView::Playback(PlaybackControl::Skip),
        command == "!stop"@ ==> control_spec(command) == SongCommandView::Playback(PlaybackControl::Stop),
        command == "!nightcore"@ ==> control_spec(command) == SongCommandView::Speed(SpeedControl::Nightcore),
        command == "!doom"@ ==> control_spec(command) == SongCommandView::Speed(SpeedControl::Doom),
        command == "!normal"@ ==> control_spec(command) == SongCommandView::Speed(SpeedControl::Normal),
        command == "!speedup"@ ==> control_spec(command) == SongCommandView::Speed(SpeedControl::Speedup),
        command == "!slowdown"@ ==> control_spec(command) == SongCommandView::Speed(SpeedControl::Slowdown),
        command == "!up"@ ==> control_spec(command) == SongCommandView::Volume(VolumeControl::Up),
        command == "!down"@ ==> control_spec(command) == SongCommandView::Volume(VolumeControl::Down),
        command == "!coding_volume"@ ==> control_spec(command) == SongCommandView::Volume(VolumeControl::Quiet),
        command == "!quiet"@ ==> control_spec(command) == SongCommandView::Volume(VolumeControl::Quiet),
        command == "!party_volume"@ ==> control_spec(command) == SongCommandView::Volume(VolumeControl::Party),
        command != "!pause"@ && command != "!unpause"@ && command != "!skip"@ && command != "!stop"@ && command != "!nightcore"@ && command != "!doom"@ && command != "!normal"@ && command != "!speedup"@ && command != "!slowdown"@ && command != "!up"@ && command != "!down"@ && command != "!coding_volume"@ && command != "!quiet"@ && command != "!party_volume"@ ==> control_spec(command) == SongCommandView::Nothing,
{
    reveal_strlit("!pause");
    reveal_strlit("!unpause");
    reveal_strlit("!skip");
    reveal_strlit("!stop");
    reveal_strlit("!nightcore");
    reveal_strlit("!doom");
    reveal_strlit("!normal");
    reveal_strlit("!speedup");
    reveal_strlit("!slowdown");
    reveal_strlit("!up");
    reveal_strlit("!down");
    reveal_strlit("!coding_volume");
    reveal_strlit("!quiet");
    reveal_strlit("!party_volume");
    assert("!pause"@.len() == 6 && "!pause"@[1] == 'p' && "!pause"@[2] == 'a' && "!pause"@[3] == 'u');
    assert("!unpause"@.len() == 8 && "!unpause"@[1] == 'u' && "!unpause"@[2] == 'n' && "!unpause"@[3] == 'p');
    assert("!skip"@.len() == 5 && "!skip"@[1] == 's' && "!skip"@[2] == 'k' && "!skip"@[3] == 'i');
    assert("!stop"@.len() == 5 && "!stop"@[1] == 's' && "!stop"@[2] == 't' && "!stop"@[3] == 'o');
    assert("!nightcore"@.len() == 10 && "!nightcore"@[1] == 'n' && "!nightcore"@[2] == 'i' && "!nightcore"@[3] == 'g');
    assert("!doom"@.len() == 5 && "!doom"@[1] == 'd' && "!doom"@[2] == 'o' && "!doom"@[3] == 'o');
    assert("!normal"@.len() == 7 && "!normal"@[1] == 'n' && "!normal"@[2] == 'o' && "!normal"@[3] == 'r');
    assert("!speedup"@.len() == 8 && "!speedup"@[1] == 's' && "!speedup"@[2] == 'p' && "!speedup"@[3] == 'e');
    assert("!slowdown"@.len() == 9 && "!slowdown"@[1] == 's' && "!slowdown"@[2] == 'l' && "!slowdown"@[3] == 'o');
    assert("!up"@.len() == 3 && "!up"@[1] == 'u' && "!up"@[2] == 'p');
    assert("!down"@.len() == 5 && "!down"@[1] == 'd' && "!down"@[2] == 'o' && "!down"@[3] == 'w');
    assert("!coding_volume"@.len() == 14 && "!coding_volume"@[1] == 'c' && "!coding_volume"@[2] == 'o' && "!coding_volume"@[3] == 'd');
    assert("!quiet"@.len() == 6 && "!quiet"@[1] == 'q' && "!quiet"@[2] == 'u' && "!quiet"@[3] == 'i');
    assert("!party_volume"@.len() == 13 && "!party_volume"@[1] == 'p' && "!party_volume"@[2] == 'a' && "!party_volume"@[3] == 'r');
}

/// The streamer's song commands read their words: `!reverb ID` and
/// `!play ID` play the song named by the second word, `!info ID` (for
/// anyone) asks about it or the current song, `!random_song N` queues the
/// number given (one when it is no number), `!play_fake_song ID TITLE...`
/// plays that song under the title of the remaining words, and a player
/// control word from the streamer is that control.
pub proof fn song_commands_read_their_words(words: Seq<Seq<char>>, user_name: Seq<char>)
    requires
        words.len() > 0,
    ensures
        ({
            let r = song_command_spec(words, user_name);
            let streamer = is_streamer(user_name);
            let second = if words.len() > 1 {
                Some(words[1])
            } else {
                None
            };
            &&& words[0] == "!info"@ ==> r == Ok::<SongCommandView, Seq<char>>(
                SongCommandView::Info { id: second },
            )
            &&& streamer && words[0] == "!reverb"@ && words.len() > 1 ==> r == Ok::<
                SongCommandView,
                Seq<char>,
            >(SongCommandView::Reverb { id: words[1] })
            &&& streamer && words[0] == "!play"@ && words.len() > 1 ==> r == Ok::<
                SongCommandView,
                Seq<char>,
            >(SongCommandView::Play { id: words[1] })
            &&& streamer && words[0] == "!random_song"@ ==> r == Ok::<SongCommandView, Seq<char>>(
                SongCommandView::RandomSong {
                    count: if words.len() > 1 && parse_usize_spec(words[1]) is Some {
                        parse_usize_spec(words[1])->0
                    } else {
                        1
                    },
                },
            )
            &&& streamer && words[0] == "!play_fake_song"@ && words.len() > 1 && uuid_text_value(
                words[1],
            ) is Some ==> r == Ok::<SongCommandView, Seq<char>>(
                SongCommandView::PlayFakeSong {
                    id: words[1],
                    song_id: uuid_text_value(words[1])->0,
                    title: join_spec(words.skip(2), " "@),
                },
            )
            &&& streamer && words[0] == "!queue"@ && words.len() > 1 && uuid_text_value(words[1]) is Some
                ==> r == Ok::<SongCommandView, Seq<char>>(
                SongCommandView::Queue { song_id: uuid_text_value(words[1])->0 },
            )
            &&& streamer && (words[0] == "!pause"@ || words[0] == "!unpause"@ || words[0] == "!skip"@
                || words[0] == "!stop"@ || words[0] == "!nightcore"@ || words[0] == "!doom"@
                || words[0] == "!normal"@ || words[0] == "!speedup"@ || words[0] == "!slowdown"@
                || words[0] == "!up"@ || words[0] == "!down"@ || words[0] == "!coding_volume"@
                || words[0] == "!quiet"@ || words[0] == "!party_volume"@) ==> r == Ok::<
                SongCommandView,
                Seq<char>,
            >(control_spec(words[0]))
        }),
{
    reveal_strlit("!info");
    reveal_strlit("!reverb");
    reveal_strlit("!queue");
    reveal_strlit("!last_song");
    reveal_strlit("!random_song");
    reveal_strlit("!play_fake_song");
    reveal_strlit("!banger");
    reveal_strlit("!random_instrumental");
    reveal_strlit("!instrumental_jam");
    reveal_strlit("!play");
    reveal_strlit("!pause");
    reveal_strlit("!unpause");
    reveal_strlit("!skip");
    reveal_strlit("!stop");
    reveal_strlit("!nightcore");
    reveal_strlit("!doom");
    reveal_strlit("!normal");
    reveal_strlit("!speedup");
    reveal_strlit("!slowdown");
    reveal_strlit("!up");
    reveal_strlit("!down");
    reveal_strlit("!coding_volume");
    reveal_strlit("!quiet");
    reveal_strlit("!party_volume");
    assert("!info"@.len() == 5 && "!info"@[1] == 'i' && "!info"@[3] == 'f');
    assert("!reverb"@.len() == 7 && "!reverb"@[1] == 'r' && "!reverb"@[3] == 'v');
    assert("!queue"@.len() == 6 && "!queue"@[1] == 'q' && "!queue"@[3] == 'e');
    assert("!last_song"@.len() == 10 && "!last_song"@[1] == 'l' && "!last_song"@[3] == 's');
    assert("!random_song"@.len() == 12 && "!random_song"@[1] == 'r' && "!random_song"@[3] == 'n');
    assert("!play_fake_song"@.len() == 15 && "!play_fake_song"@[1] == 'p' && "!play_fake_song"@[3] == 'a');
    assert("!banger"@.len() == 7 && "!banger"@[1] == 'b' && "!banger"@[3] == 'n');
    assert("!random_instrumental"@.len() == 20 && "!random_instrumental"@[1] == 'r' && "!random_instrumental"@[3] == 'n');
    assert("!instrumental_jam"@.len() == 17 && "!instrumental_jam"@[1] == 'i' && "!instrumental_jam"@[3] == 's');
    assert("!play"@.len() == 5 && "!play"@[1] == 'p' && "!play"@[3] == 'a');
    assert("!pause"@.len() == 6 && "!pause"@[1] == 'p' && "!pause"@[3] == 'u');
    assert("!unpause"@.len() == 8 && "!unpause"@[1] == 'u' && "!unpause"@[3] == 'p');
    assert("!skip"@.len() == 5 && "!skip"@[1] == 's' && "!skip"@[3] == 'i');
    assert("!stop"@.len() == 5 && "!stop"@[1] == 's' && "!stop"@[3] == 'o');
    assert("!nightcore"@.len() == 10 && "!nightcore"@[1] == 'n' && "!nightcore"@[3] == 'g');
    assert("!doom"@.len() == 5 && "!doom"@[1] == 'd' && "!doom"@[3] == 'o');
    assert("!normal"@.len() == 7 && "!normal"@[1] == 'n' && "!normal"@[3] == 'r');
    assert("!speedup"@.len() == 8 && "!speedup"@[1] == 's' && "!speedup"@[3] == 'e');
    assert("!slowdown"@.len() == 9 && "!slowdown"@[1] == 's' && "!slowdown"@[3] == 'o');
    assert("!up"@.len() == 3 && "!up"@[1] == 'u');
    assert("!down"@.len() == 5 && "!down"@[1] == 'd' && "!down"@[3] == 'w');
    assert("!coding_volume"@.len() == 14 && "!coding_volume"@[1] == 'c' && "!coding_volume"@[3] == 'd');
    assert("!quiet"@.len() == 6 && "!quiet"@[1] == 'q' && "!quiet"@[3] == 'i');
    assert("!party_volume"@.len() == 13 && "!party_volume"@[1] == 'p' && "!party_volume"@[3] == 'r');
}

} // verus!
