//! The telephone game's chat handler: `!telephone`, `!carlphone` and
//! `!old_telephone` (this handler has no streamer-only variant).
use crate::handlers::ai_telephone::{
    telephone_args, telephone_image_url, telephone_prompt, TelephoneCommand, TelephoneCommandView,
};
use crate::text::{join_spec, owned, str_eq, views};
use vstd::prelude::*;

verus! {

/// What the space-separated words of a chat message ask of the telephone
/// game.
pub open spec fn telephone_request_spec(words: Seq<Seq<char>>) -> TelephoneCommandView {
    let command = words[0];
    if command == "!old_telephone"@ {
        TelephoneCommandView::OldTelephone { id: words[1] }
    } else if command == "!carlphone"@ {
        TelephoneCommandView::Carlphone {
            image_url: telephone_image_url(words),
            prompt: telephone_prompt(words),
            rounds: 5,
        }
    } else if command == "!telephone"@ {
        TelephoneCommandView::Telephone {
            image_url: telephone_image_url(words),
            prompt: telephone_prompt(words),
            rounds: 5,
        }
    } else {
        TelephoneCommandView::Nothing
    }
}

/// Decides what the words of a chat message ask of the telephone game.
/// `!old_telephone` needs the game's id as second word.
pub fn handle_telephone_requests(splitmsg: &Vec<String>) -> (r: TelephoneCommand)
    requires
        splitmsg@.len() > 0,
        splitmsg@[0]@ == "!old_telephone"@ ==> splitmsg@.len() > 1,
    ensures
        r@ == telephone_request_spec(views(splitmsg@)),
{
    let command = splitmsg[0].as_str();
    assert(views(splitmsg@)[0] == splitmsg@[0]@);
    if str_eq(command, "!old_telephone") {
        assert(views(splitmsg@)[1] == splitmsg@[1]@);
        return TelephoneCommand::OldTelephone { id: owned(splitmsg[1].as_str()) };
    }
    let (image_url, prompt) = telephone_args(splitmsg);
    if str_eq(command, "!carlphone") {
        TelephoneCommand::Carlphone { image_url, prompt, rounds: 5 }
    } else if str_eq(command, "!telephone") {
        TelephoneCommand::Telephone { image_url, prompt, rounds: 5 }
    } else {
        TelephoneCommand::Nothing
    }
}


/// The telephone commands read their words: `!old_telephone ID` shows the
/// game `ID` again; `!carlphone URL PROMPT...` plays five rounds with
/// Stable Diffusion and `!telephone URL PROMPT...` five rounds with DALL·E,
/// from the image at the second word with the remaining words as prompt.
pub proof fn telephone_requests_read_their_words(words: Seq<Seq<char>>)
    requires
        words.len() > 2,
    ensures
        words[0] == "!old_telephone"@ ==> telephone_request_spec(words)
            == (TelephoneCommandView::OldTelephone { id: words[1] }),
        words[0] == "!carlphone"@ ==> telephone_request_spec(words) == (
        TelephoneCommandView::Carlphone {
            image_url: words[1],
            prompt: join_spec(words.skip(2), " "@),
            rounds: 5,
        }),
        words[0] == "!telephone"@ ==> telephone_request_spec(words) == (
        TelephoneCommandView::Telephone {
            image_url: words[1],
            prompt: join_spec(words.skip(2), " "@),
            rounds: 5,
        }),
{
    reveal_strlit("!old_telephone");
    reveal_strlit("!carlphone");
    reveal_strlit("!telephone");
    assert("!old_telephone"@.len() == 14 && "!old_telephone"@[1] == 'o');
    assert("!carlphone"@.len() == 10 && "!carlphone"@[1] == 'c');
    assert("!telephone"@.len() == 10 && "!telephone"@[1] == 't');
}

} // verus!
