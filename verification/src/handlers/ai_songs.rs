//! The first song player's chat commands, on the space-separated words of a
//! message: `!info` for everyone, playing and the player's controls for the
//! streamer.
use crate::handlers::ai_songs_handler::{control_command, control_spec, SongCommand, SongCommandView};
use crate::handlers::{is_streamer, is_streamer_name};
use crate::text::{str_eq, views, word_at_spec, word_copy};
use vstd::prelude::*;

verus! {

/// What the space-separated words of a chat message from `user_name` ask of
/// the song player.
pub open spec fn song_request_spec(words: Seq<Seq<char>>, user_name: Seq<char>) -> SongCommandView {
    let command = words[0];
    if command == "!info"@ {
        SongCommandView::Info { id: word_at_spec(words, 1) }
    } else if !is_streamer(user_name) {
        SongCommandView::Nothing
    } else if command == "!reverb"@ {
        match word_at_spec(words, 1) {
            Some(id) => SongCommandView::Reverb { id },
            None => SongCommandView::Nothing,
        }
    } else if command == "!play"@ {
        match word_at_spec(words, 1) {
            Some(id) => SongCommandView::Play { id },
            None => SongCommandView::Nothing,
        }
    } else {
        control_spec(command)
    }
}

/// Decides what the space-separated words of a chat message from
/// `user_name` ask of the song player.
pub fn handle_requests(splitmsg: &Vec<String>, user_name: &str) -> (r: SongCommand)
    requires
        splitmsg@.len() > 0,
    ensures
        r@ == song_request_spec(views(splitmsg@), user_name@),
{
    let ghost ws = views(splitmsg@);
    assert(ws[0] == splitmsg@[0]@);
    let second = word_copy(splitmsg, 1);
    if splitmsg.len() > 1 {
        assert(ws[1] == splitmsg@[1]@);
    }
    assert(crate::text::opt_view(second) == word_at_spec(ws, 1));
    let command = splitmsg[0].as_str();
    if str_eq(command, "!info") {
        return SongCommand::Info { id: second };
    }
    if !is_streamer_name(user_name) {
        return SongCommand::Nothing;
    }
    if str_eq(command, "!reverb") {
        match second {
            Some(id) => SongCommand::Reverb { id },
            None => SongCommand::Nothing,
        }
    } else if str_eq(command, "!play") {
        match second {
            Some(id) => SongCommand::Play { id },
            None => SongCommand::Nothing,
        }
    } else {
        control_command(command)
    }
}

/// The file an AI song is saved in.
pub open spec fn song_file_spec(id: Seq<char>) -> Seq<char> {
    "ai_songs/"@ + id + ".mp3"@
}

/// The file the AI song `id` is saved in.
pub fn song_file(id: &str) -> (r: String)
    ensures
        r@ == song_file_spec(id@),
{
    crate::text::concat3("ai_songs/", id, ".mp3")
}

/// The chat message that announces a queued song.
pub open spec fn queued_message_spec(user_name: Seq<char>, id: Seq<char>) -> Seq<char> {
    "@"@ + user_name + " added "@ + id + " to Queue"@
}

/// The chat message that announces that `user_name` queued the song `id`.
pub fn queued_message(user_name: &str, id: &str) -> (r: String)
    ensures
        r@ == queued_message_spec(user_name@, id@),
{
    let head = crate::text::concat3("@", user_name, " added ");
    crate::text::concat3(head.as_str(), id, " to Queue")
}


/// The song player reads the words of a message: `!info ID` asks anyone's
/// question about that song (or the current one); for the streamer,
/// `!reverb ID` and `!play ID` play that song, and any other word is the
/// player control it names; other chatters get nothing but information.
pub proof fn song_requests_read_their_words(words: Seq<Seq<char>>, user_name: Seq<char>)
    requires
        words.len() > 0,
    ensures
        ({
            let r = song_request_spec(words, user_name);
            let second = if words.len() > 1 {
                Some(words[1])
            } else {
                None
            };
            &&& words[0] == "!info"@ ==> r == SongCommandView::Info { id: second }
            &&& words[0] != "!info"@ && !is_streamer(user_name) ==> r == SongCommandView::Nothing
            &&& is_streamer(user_name) && words[0] == "!reverb"@ && words.len() > 1 ==> r
                == SongCommandView::Reverb { id: words[1] }
            &&& is_streamer(user_name) && words[0] == "!play"@ && words.len() > 1 ==> r
                == SongCommandView::Play { id: words[1] }
            &&& is_streamer(user_name) && words[0] != "!info"@ && words[0] != "!reverb"@
                && words[0] != "!play"@ ==> r == control_spec(words[0])
        }),
{
    reveal_strlit("!info");
    reveal_strlit("!reverb");
    reveal_strlit("!play");
    assert("!info"@.len() == 5 && "!info"@[1] == 'i');
    assert("!reverb"@.len() == 7 && "!reverb"@[1] == 'r');
    assert("!play"@.len() == 5 && "!play"@[1] == 'p');
}

} // verus!
