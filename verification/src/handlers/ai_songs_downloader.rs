//! The first song downloader's chat commands, on the space-separated words
//! of a message: the streamer's `!download` and everyone's `!create_song`.
use crate::handlers::ai_songs_downloader_handler::{DownloaderCommand, DownloaderCommandView};
use crate::handlers::{is_streamer, is_streamer_name};
use crate::text::{join_from, join_spec, owned, split_spec, str_eq, views};
use vstd::prelude::*;

pub use crate::handlers::ai_songs_downloader_handler::{play_song_message, song_cdn_url};

verus! {

/// What the space-separated words of a chat message from `user_name` ask of
/// the song downloader.
pub open spec fn download_request_spec(words: Seq<Seq<char>>, user_name: Seq<char>) -> DownloaderCommandView {
    let command = words[0];
    if command == "!download"@ {
        if is_streamer(user_name) && words.len() > 1 {
            DownloaderCommandView::Download { id: words[1] }
        } else {
            DownloaderCommandView::Unknown
        }
    } else if command == "!create_song"@ || command == "!song"@ {
        DownloaderCommandView::CreateSong { prompt: join_spec(words.skip(1), " "@) }
    } else {
        DownloaderCommandView::Unknown
    }
}

/// Decides what the space-separated words of a chat message from
/// `user_name` ask of the song downloader.
pub fn handle_requests(splitmsg: &Vec<String>, user_name: &str) -> (r: DownloaderCommand)
    requires
        splitmsg@.len() > 0,
    ensures
        r@ == download_request_spec(views(splitmsg@), user_name@),
{
    let ghost ws = views(splitmsg@);
    assert(ws[0] == splitmsg@[0]@);
    let command = splitmsg[0].as_str();
    if str_eq(command, "!download") {
        if is_streamer_name(user_name) && splitmsg.len() > 1 {
            assert(ws[1] == splitmsg@[1]@);
            DownloaderCommand::Download { id: owned(splitmsg[1].as_str()) }
        } else {
            DownloaderCommand::Unknown
        }
    } else if str_eq(command, "!create_song") || str_eq(command, "!song") {
        let prompt = join_from(splitmsg, 1, " ");
        if splitmsg.len() > 1 {
            assert(views(splitmsg@.skip(1)) =~= ws.skip(1));
        } else {
            assert(ws.skip(1) =~= Seq::<Seq<char>>::empty());
        }
        DownloaderCommand::CreateSong { prompt }
    } else {
        DownloaderCommand::Unknown
    }
}

/// A song is generated from exactly the text written after `!create_song `.
pub proof fn song_prompt_is_text_after_command(rest: Seq<char>, user_name: Seq<char>)
    ensures
        download_request_spec(split_spec("!create_song"@ + " "@ + rest, ' '), user_name)
            == (DownloaderCommandView::CreateSong { prompt: rest }),
{
    reveal_strlit("!create_song");
    assert(!"!create_song"@.contains(' ')) by {
        if "!create_song"@.contains(' ') {
            let k = choose|k: int| 0 <= k < "!create_song"@.len() && "!create_song"@[k] == ' ';
            assert(false);
        }
    }
    crate::text::text_after_command("!create_song"@, rest);
    reveal_strlit("!download");
    assert("!create_song"@.len() != "!download"@.len());
}


/// The downloader reads the words of a message: the streamer's
/// `!download ID` downloads the song named by the second word (nothing for
/// others), and `!create_song TEXT...` or `!song TEXT...` makes a song from
/// all the words after the command.
pub proof fn download_requests_read_their_words(words: Seq<Seq<char>>, user_name: Seq<char>)
    requires
        words.len() > 0,
    ensures
        words[0] == "!download"@ && is_streamer(user_name) && words.len() > 1 ==> download_request_spec(
            words,
            user_name,
        ) == (DownloaderCommandView::Download { id: words[1] }),
        words[0] == "!download"@ && !is_streamer(user_name) ==> download_request_spec(words, user_name)
            == DownloaderCommandView::Unknown,
        (words[0] == "!create_song"@ || words[0] == "!song"@) ==> download_request_spec(
            words,
            user_name,
        ) == (DownloaderCommandView::CreateSong { prompt: join_spec(words.skip(1), " "@) }),
{
    reveal_strlit("!download");
    reveal_strlit("!create_song");
    reveal_strlit("!song");
    assert("!download"@.len() == 9);
    assert("!create_song"@.len() == 12);
    assert("!song"@.len() == 5);
}

} // verus!
