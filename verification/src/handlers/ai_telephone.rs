//! The AI telephone game: an image is described and redrawn over and over,
//! started from chat with `!telephone`, `!carlphone` or, for the streamer,
//! `!begin_telephone`.
use crate::handlers::{is_streamer, is_streamer_name};
use crate::text::{join_from, join_spec, owned, split_spec, str_eq, views, word_copy};
use vstd::prelude::*;

verus! {

/// What a telephone chat command asks for.
pub enum TelephoneCommand {
    /// Show the telephone game with id `id` again.
    OldTelephone { id: String },
    /// Play `rounds` rounds from the image at `image_url`, redrawn by
    /// Stable Diffusion with `prompt`.
    Carlphone { image_url: String, prompt: String, rounds: u32 },
    /// Play `rounds` rounds from the image at `image_url`, redrawn by DALL·E
    /// with `prompt`.
    Telephone { image_url: String, prompt: String, rounds: u32 },
    /// Nothing to do.
    Nothing,
}

/// A telephone command, as plain text.
pub enum TelephoneCommandView {
    OldTelephone { id: Seq<char> },
    Carlphone { image_url: Seq<char>, prompt: Seq<char>, rounds: u32 },
    Telephone { image_url: Seq<char>, prompt: Seq<char>, rounds: u32 },
    Nothing,
}

impl View for TelephoneCommand {
    type V = TelephoneCommandView;

    open spec fn view(&self) -> TelephoneCommandView {
        match self {
            TelephoneCommand::OldTelephone { id } => TelephoneCommandView::OldTelephone { id: id@ },
            TelephoneCommand::Carlphone { image_url, prompt, rounds } =>
                TelephoneCommandView::Carlphone {
                image_url: image_url@,
                prompt: prompt@,
                rounds: *rounds,
            },
            TelephoneCommand::Telephone { image_url, prompt, rounds } =>
                TelephoneCommandView::Telephone {
                image_url: image_url@,
                prompt: prompt@,
                rounds: *rounds,
            },
            TelephoneCommand::Nothing => TelephoneCommandView::Nothing,
        }
    }
}

/// The image a telephone command starts from: its second word, or nothing.
pub open spec fn telephone_image_url(words: Seq<Seq<char>>) -> Seq<char> {
    if words.len() > 1 {
        words[1]
    } else {
        Seq::empty()
    }
}

/// The prompt of a telephone command: its words from the third on, joined
/// with spaces.
pub open spec fn telephone_prompt(words: Seq<Seq<char>>) -> Seq<char> {
    if words.len() > 2 {
        join_spec(words.skip(2), " "@)
    } else {
        Seq::empty()
    }
}

/// What the space-separated words of a chat message from `user_name` ask of
/// the telephone game; `!begin_telephone` is the streamer's, a longer game.
pub open spec fn telephone_command_spec(words: Seq<Seq<char>>, user_name: Seq<char>) -> TelephoneCommandView {
    let command = words[0];
    if command == "!old_telephone"@ {
        TelephoneCommandView::OldTelephone { id: words[1] }
    } else if command == "!carlphone"@ {
        TelephoneCommandView::Carlphone {
            image_url: telephone_image_url(words),
            prompt: telephone_prompt(words),
            rounds: 5,
        }
    } else if command == "!begin_telephone"@ && is_streamer(user_name) {
        TelephoneCommandView::Telephone {
            image_url: telephone_image_url(words),
            prompt: telephone_prompt(words),
            rounds: 13,
        }
    } else if command == "!telephone"@ {
        TelephoneCommandView::Telephone {
            image_url: telephone_image_url(words),
            prompt: telephone_prompt(words),
            rounds: 5,
        }
    } else {
        TelephoneCommandView::Nothing
    }
}

/// The image url and prompt of a telephone command.
pub fn telephone_args(splitmsg: &Vec<String>) -> (r: (String, String))
    ensures
        r.0@ == telephone_image_url(views(splitmsg@)),
        r.1@ == telephone_prompt(views(splitmsg@)),
{
    let image_url = match word_copy(splitmsg, 1) {
        Some(w) => w,
        None => String::new(),
    };
    if splitmsg.len() > 1 {
        assert(views(splitmsg@)[1] == splitmsg@[1]@);
    }
    let prompt = join_from(splitmsg, 2, " ");
    if splitmsg.len() > 2 {
        assert(views(splitmsg@.skip(2)) =~= views(splitmsg@).skip(2));
    }
    (image_url, prompt)
}

/// Decides what the words of a chat message from `user_name` ask of the
/// telephone game. `!old_telephone` needs the game's id as second word.
pub fn handle_telephone_requests(splitmsg: &Vec<String>, user_name: &str) -> (r: TelephoneCommand)
    requires
        splitmsg@.len() > 0,
        splitmsg@[0]@ == "!old_telephone"@ ==> splitmsg@.len() > 1,
    ensures
        r@ == telephone_command_spec(views(splitmsg@), user_name@),
{
    let command = splitmsg[0].as_str();
    assert(views(splitmsg@)[0] == splitmsg@[0]@);
    if str_eq(command, "!old_telephone") {
        assert(views(splitmsg@)[1] == splitmsg@[1]@);
        return TelephoneCommand::OldTelephone { id: owned(splitmsg[1].as_str()) };
    }
    let (image_url, prompt) = telephone_args(splitmsg);
    if str_eq(command, "!carlphone") {
        TelephoneCommand::Carlphone { image_url, prompt, rounds: 5 }
    } else if str_eq(command, "!begin_telephone") && is_streamer_name(user_name) {
        TelephoneCommand::Telephone { image_url, prompt, rounds: 13 }
    } else if str_eq(command, "!telephone") {
        TelephoneCommand::Telephone { image_url, prompt, rounds: 5 }
    } else {
        TelephoneCommand::Nothing
    }
}

/// A telephone game starts from the image url given as second word and
/// redraws it from exactly the text written after the url.
pub proof fn telephone_prompt_is_text_after_url(url: Seq<char>, prompt: Seq<char>, user_name: Seq<char>)
    requires
        !url.contains(' '),
    ensures
        telephone_command_spec(split_spec("!telephone"@ + " "@ + url + " "@ + prompt, ' '), user_name)
            == (TelephoneCommandView::Telephone { image_url: url, prompt, rounds: 5 }),
{
    reveal_strlit("!telephone");
    reveal_strlit(" ");
    assert(!"!telephone"@.contains(' ')) by {
        if "!telephone"@.contains(' ') {
            let k = choose|k: int| 0 <= k < "!telephone"@.len() && "!telephone"@[k] == ' ';
            assert(false);
        }
    }
    let tail = url + " "@ + prompt;
    assert("!telephone"@ + " "@ + url + " "@ + prompt =~= "!telephone"@ + " "@ + tail);
    crate::text::text_after_command("!telephone"@, tail);
    crate::text::text_after_command(url, prompt);
    crate::text::lemma_split_nonempty(prompt, ' ');
    crate::text::lemma_split_nonempty(tail, ' ');
    crate::text::lemma_split_nonempty("!telephone"@ + " "@ + tail, ' ');
    let w = split_spec("!telephone"@ + " "@ + tail, ' ');
    assert(w.skip(1) == split_spec(tail, ' '));
    assert(w.skip(1)[0] == w[1]);
    assert(split_spec(tail, ' ')[0] == url);
    assert(w.skip(2) =~= split_spec(tail, ' ').skip(1));
    reveal_strlit("!old_telephone");
    reveal_strlit("!carlphone");
    reveal_strlit("!begin_telephone");
    assert("!telephone"@.len() != "!old_telephone"@.len());
    assert("!telephone"@.len() == "!carlphone"@.len() && "!telephone"@[1] != "!carlphone"@[1]);
    assert("!telephone"@.len() != "!begin_telephone"@.len());
}

/// Only the streamer plays the long telephone game: a game of thirteen
/// rounds is always the streamer's.
pub proof fn long_games_are_the_streamers(words: Seq<Seq<char>>, user_name: Seq<char>)
    requires
        words.len() > 0,
    ensures
        telephone_command_spec(words, user_name) matches TelephoneCommandView::Telephone {
            rounds,
            ..
        } && rounds == 13 ==> is_streamer(user_name),
{
}


/// The telephone commands read their words: `!old_telephone ID` shows the
/// game `ID` again; `!carlphone URL PROMPT...` plays five rounds with
/// Stable Diffusion, `!telephone URL PROMPT...` five rounds with DALL·E, and
/// the streamer's `!begin_telephone URL PROMPT...` thirteen, each from the
/// image at the second word with the remaining words as the prompt.
pub proof fn telephone_commands_read_their_words(words: Seq<Seq<char>>, user_name: Seq<char>)
    requires
        words.len() > 2,
    ensures
        ({
            let r = telephone_command_spec(words, user_name);
            let prompt = join_spec(words.skip(2), " "@);
            &&& words[0] == "!old_telephone"@ ==> r == TelephoneCommandView::OldTelephone {
                id: words[1],
            }
            &&& words[0] == "!carlphone"@ ==> r == TelephoneCommandView::Carlphone {
                image_url: words[1],
                prompt,
                rounds: 5,
            }
            &&& words[0] == "!telephone"@ ==> r == TelephoneCommandView::Telephone {
                image_url: words[1],
                prompt,
                rounds: 5,
            }
            &&& words[0] == "!begin_telephone"@ ==> r == (if is_streamer(user_name) {
                TelephoneCommandView::Telephone { image_url: words[1], prompt, rounds: 13 }
            } else {
                TelephoneCommandView::Nothing
            })
        }),
{
    reveal_strlit("!old_telephone");
    reveal_strlit("!carlphone");
    reveal_strlit("!begin_telephone");
    reveal_strlit("!telephone");
    assert("!old_telephone"@.len() == 14 && "!old_telephone"@[1] == 'o');
    assert("!carlphone"@.len() == 10 && "!carlphone"@[1] == 'c');
    assert("!begin_telephone"@.len() == 16 && "!begin_telephone"@[1] == 'b');
    assert("!telephone"@.len() == 10 && "!telephone"@[1] == 't');
}

} // verus!
