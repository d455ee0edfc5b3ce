//! Song votes: `!top_songs` lists the best rated songs and `!vote` rates the
//! song playing (the score is read as a decimal number by the program).
use crate::text::{str_eq, views, word_at_spec, word_copy};
use vstd::prelude::*;

verus! {

/// What a chat message asks of the song votes.
pub enum VoteCommand {
    /// List the five best rated songs.
    TopSongs { count: u32 },
    /// Rate the current song with the score written in the word given.
    Vote { score: String },
    Nothing,
}

/// A vote command, as plain text.
pub enum VoteCommandView {
    TopSongs { count: u32 },
    Vote { score: Seq<char> },
    Nothing,
}

impl View for VoteCommand {
    type V = VoteCommandView;

    open spec fn view(&self) -> VoteCommandView {
        match self {
            VoteCommand::TopSongs { count } => VoteCommandView::TopSongs { count: *count },
            VoteCommand::Vote { score } => VoteCommandView::Vote { score: score@ },
            VoteCommand::Nothing => VoteCommandView::Nothing,
        }
    }
}

/// What the space-separated words of a chat message ask of the song votes;
/// `!vote` without a score is an error.
pub open spec fn vote_command_spec(words: Seq<Seq<char>>) -> Result<VoteCommandView, Seq<char>> {
    if words[0] == "!top_songs"@ {
        Ok(VoteCommandView::TopSongs { count: 5 })
    } else if words[0] == "!vote"@ {
        match word_at_spec(words, 1) {
            Some(s) => Ok(VoteCommandView::Vote { score: s }),
            None => Err("No score provided"@),
        }
    } else {
        Ok(VoteCommandView::Nothing)
    }
}

/// Decides what the space-separated words of a chat message ask of the song
/// votes.
pub fn handle_telephone_requests(splitmsg: &Vec<String>) -> (r: Result<VoteCommand, String>)
    requires
        splitmsg@.len() > 0,
    ensures
        match r {
            Ok(c) => vote_command_spec(views(splitmsg@)) == Ok::<VoteCommandView, Seq<char>>(c@),
            Err(e) => vote_command_spec(views(splitmsg@)) == Err::<VoteCommandView, Seq<char>>(e@),
        },
{
    let ghost ws = views(splitmsg@);
    assert(ws[0] == splitmsg@[0]@);
    if splitmsg.len() > 1 {
        assert(ws[1] == splitmsg@[1]@);
    }
    let command = splitmsg[0].as_str();
    if str_eq(command, "!top_songs") {
        Ok(VoteCommand::TopSongs { count: 5 })
    } else if str_eq(command, "!vote") {
        match word_copy(splitmsg, 1) {
            Some(s) => Ok(VoteCommand::Vote { score: s }),
            None => Err(crate::text::owned("No score provided")),
        }
    } else {
        Ok(VoteCommand::Nothing)
    }
}


/// `!top_songs` lists the five best songs, `!vote SCORE` votes with the
/// second word as the score (an error without it), and other messages ask
/// for nothing.
pub proof fn votes_read_their_words(words: Seq<Seq<char>>)
    requires
        words.len() > 0,
    ensures
        words[0] == "!top_songs"@ ==> vote_command_spec(words) == Ok::<VoteCommandView, Seq<char>>(
            VoteCommandView::TopSongs { count: 5 },
        ),
        words[0] == "!vote"@ && words.len() > 1 ==> vote_command_spec(words) == Ok::<
            VoteCommandView,
            Seq<char>,
        >(VoteCommandView::Vote { score: words[1] }),
        words[0] == "!vote"@ && words.len() == 1 ==> (vote_command_spec(words) is Err),
        words[0] != "!top_songs"@ && words[0] != "!vote"@ ==> vote_command_spec(words) == Ok::<
            VoteCommandView,
            Seq<char>,
        >(VoteCommandView::Nothing),
{
    reveal_strlit("!top_songs");
    reveal_strlit("!vote");
    assert("!top_songs"@.len() == 10);
    assert("!vote"@.len() == 5);
}

} // verus!
