//! Skybox commands, where `!skybox` needs a valid style number.
use crate::handlers::skybox::{is_style_id, join_after, words_after, SkyboxCommand, SkyboxCommandView};
use crate::handlers::{is_streamer, is_streamer_name};
use crate::text::{
    i32_parse_error_text, join_spec, owned, parse_i32_or_error, parse_i32_spec, str_eq, views,
    word_copy,
};
use vstd::prelude::*;

pub use crate::handlers::channel_rewards::chunk_string;

verus! {

/// The style a `!skybox` message names, or why it names none: no second
/// word, a second word that is no number (std's parse error), or a number
/// outside the styles.
pub open spec fn style_id_result_spec(words: Seq<Seq<char>>) -> Result<i32, Seq<char>> {
    if words.len() <= 1 {
        Err("No Style ID Arg found"@)
    } else {
        match parse_i32_spec(words[1]) {
            Some(v) => if is_style_id(v) { Ok(v) } else { Err("Error finding Style ID"@) },
            None => Err(i32_parse_error_text(words[1])),
        }
    }
}

/// The style that a `!skybox` message names in its second word.
pub fn find_style_id(splitmsg: Vec<String>) -> (r: Result<i32, String>)
    ensures
        match r {
            Ok(v) => style_id_result_spec(views(splitmsg@)) == Ok::<i32, Seq<char>>(v),
            Err(e) => style_id_result_spec(views(splitmsg@)) == Err::<i32, Seq<char>>(e@),
        },
{
    if splitmsg.len() <= 1 {
        return Err(owned("No Style ID Arg found"));
    }
    match parse_i32_or_error(splitmsg[1].as_str()) {
        Ok(v) => if 1 <= v && v <= 47 {
            Ok(v)
        } else {
            Err(owned("Error finding Style ID"))
        },
        Err(e) => Err(e),
    }
}

/// What the words of a skybox chat command ask for: `!skybox` only acts on
/// a valid style number, and its prompt starts after the style when that is
/// not style 1.
pub open spec fn skybox_command_spec(words: Seq<Seq<char>>, user_name: Seq<char>) -> SkyboxCommandView {
    let command = words[0];
    if command == "!previous"@ {
        SkyboxCommandView::Previous {
            skybox_id: if words.len() > 1 { words[1] } else { "2449796"@ },
        }
    } else if command == "!skybox_styles"@ {
        SkyboxCommandView::Styles
    } else if command == "!check_skybox"@ {
        if is_streamer(user_name) {
            SkyboxCommandView::CheckSkybox
        } else {
            SkyboxCommandView::Nothing
        }
    } else if command == "!skybox"@ {
        match style_id_result_spec(words) {
            Ok(style_id) => SkyboxCommandView::Skybox {
                prompt: if style_id == 1 { words_after(words, 1) } else { words_after(words, 2) },
                style_id,
            },
            Err(_) => SkyboxCommandView::Nothing,
        }
    } else if command == "!remix"@ {
        SkyboxCommandView::Remix { prompt: words_after(words, 1) }
    } else {
        SkyboxCommandView::Nothing
    }
}

/// Decides what the words of a skybox chat command ask for.
pub fn handle_skybox_commands(splitmsg: &Vec<String>, user_name: &str) -> (r: SkyboxCommand)
    requires
        splitmsg@.len() > 0,
    ensures
        r@ == skybox_command_spec(views(splitmsg@), user_name@),
{
    let command = splitmsg[0].as_str();
    assert(views(splitmsg@)[0] == splitmsg@[0]@);
    if str_eq(command, "!previous") {
        let skybox_id = match word_copy(splitmsg, 1) {
            Some(w) => w,
            None => owned("2449796"),
        };
        SkyboxCommand::Previous { skybox_id }
    } else if str_eq(command, "!skybox_styles") {
        SkyboxCommand::Styles
    } else if str_eq(command, "!check_skybox") {
        if is_streamer_name(user_name) {
            SkyboxCommand::CheckSkybox
        } else {
            SkyboxCommand::Nothing
        }
    } else if str_eq(command, "!skybox") {
        match find_style_id(splitmsg.clone()) {
            Ok(style_id) => {
                let prompt = if style_id == 1 {
                    join_after(splitmsg, 1)
                } else {
                    join_after(splitmsg, 2)
                };
                SkyboxCommand::Skybox { prompt, style_id }
            },
            Err(_) => SkyboxCommand::Nothing,
        }
    } else if str_eq(command, "!remix") {
        SkyboxCommand::Remix { prompt: join_after(splitmsg, 1) }
    } else {
        SkyboxCommand::Nothing
    }
}

/// A skybox is only ever drawn in one of the styles, 1 to 47, and only the
/// streamer checks on pending skyboxes.
pub proof fn skyboxes_use_known_styles(words: Seq<Seq<char>>, user_name: Seq<char>)
    requires
        words.len() > 0,
    ensures
        skybox_command_spec(words, user_name) matches SkyboxCommandView::Skybox { style_id, .. }
            ==> 1 <= style_id <= 47,
        skybox_command_spec(words, user_name) is CheckSkybox ==> is_streamer(user_name),
{
}


/// The skybox commands read their words: `!skybox STYLE PROMPT...` draws the
/// words after the style number in that style (1 to 47; for style 1 the
/// prompt keeps the number), and a message without a valid style number asks for nothing;
/// `!remix PROMPT...` remixes with the words after the command;
/// `!previous ID` returns to that skybox (else to 2449796).
pub proof fn skybox_commands_read_their_words(words: Seq<Seq<char>>, user_name: Seq<char>)
    requires
        words.len() > 0,
    ensures
        ({
            let r = skybox_command_spec(words, user_name);
            let valid = words.len() > 1 && parse_i32_spec(words[1]) is Some && 1 <= parse_i32_spec(
                words[1],
            )->0 <= 47;
            &&& words[0] == "!skybox"@ && valid && parse_i32_spec(words[1])->0 != 1 ==> r
                == SkyboxCommandView::Skybox {
                prompt: join_spec(words.skip(2), " "@),
                style_id: parse_i32_spec(words[1])->0,
            }
            &&& words[0] == "!skybox"@ && valid && parse_i32_spec(words[1])->0 == 1 ==> r
                == SkyboxCommandView::Skybox { prompt: join_spec(words.skip(1), " "@), style_id: 1 }
            &&& words[0] == "!skybox"@ && !valid ==> r == SkyboxCommandView::Nothing
            &&& words[0] == "!remix"@ ==> r == SkyboxCommandView::Remix {
                prompt: join_spec(words.skip(1), " "@),
            }
            &&& words[0] == "!previous"@ ==> r == SkyboxCommandView::Previous {
                skybox_id: if words.len() > 1 {
                    words[1]
                } else {
                    "2449796"@
                },
            }
        }),
{
    reveal_strlit("!previous");
    reveal_strlit("!skybox_styles");
    reveal_strlit("!check_skybox");
    reveal_strlit("!skybox");
    reveal_strlit("!remix");
    assert("!previous"@.len() == 9);
    assert("!skybox_styles"@.len() == 14);
    assert("!check_skybox"@.len() == 13);
    assert("!skybox"@.len() == 7);
    assert("!remix"@.len() == 6);
    assert(words.len() == 1 ==> words.skip(1) =~= Seq::<Seq<char>>::empty());
    assert(words.len() == 2 ==> words.skip(2) =~= Seq::<Seq<char>>::empty());
}

} // verus!
