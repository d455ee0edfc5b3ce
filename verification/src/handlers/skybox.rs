//! Skybox commands: 360° backgrounds generated from a prompt in one of the
//! generator's styles.
use crate::handlers::is_streamer;
use crate::handlers::is_streamer_name;
use crate::text::{
    join_from, join_spec, owned, parse_i32, parse_i32_spec, str_eq, views, word_copy,
};
use vstd::prelude::*;

pub use crate::handlers::channel_rewards::chunk_string;

verus! {

/// The style numbers the generator offers.
pub open spec fn is_style_id(v: i32) -> bool {
    1 <= v <= 47
}

/// The style a `!skybox` message asks for: its second word when that reads
/// as a style number, else style 1.
pub open spec fn style_id_spec(words: Seq<Seq<char>>) -> i32 {
    if words.len() > 1 {
        match parse_i32_spec(words[1]) {
            Some(v) => if is_style_id(v) { v } else { 1 },
            None => 1,
        }
    } else {
        1
    }
}

/// The style a `!skybox` message asks for (style 1 when it names none).
pub fn find_style_id(splitmsg: Vec<String>) -> (id: i32)
    ensures
        id == style_id_spec(views(splitmsg@)),
{
    if splitmsg.len() > 1 {
        match parse_i32(splitmsg[1].as_str()) {
            Some(v) => if 1 <= v && v <= 47 {
                v
            } else {
                1
            },
            None => 1,
        }
    } else {
        1
    }
}

/// The words after the first `n`, joined with spaces.
pub open spec fn words_after(words: Seq<Seq<char>>, n: int) -> Seq<char> {
    if n < words.len() {
        join_spec(words.skip(n), " "@)
    } else {
        Seq::empty()
    }
}

/// What a skybox chat command asks for.
pub enum SkyboxCommand {
    /// Return to an earlier skybox.
    Previous { skybox_id: String },
    /// Post the list of styles in chat.
    Styles,
    /// Check on a pending skybox.
    CheckSkybox,
    /// Generate a skybox from a prompt in a style.
    Skybox { prompt: String, style_id: i32 },
    /// Remix the current skybox.
    Remix { prompt: String },
    Nothing,
}

/// A skybox command, as plain text.
pub enum SkyboxCommandView {
    Previous { skybox_id: Seq<char> },
    Styles,
    CheckSkybox,
    Skybox { prompt: Seq<char>, style_id: i32 },
    Remix { prompt: Seq<char> },
    Nothing,
}

impl View for SkyboxCommand {
    type V = SkyboxCommandView;

    open spec fn view(&self) -> SkyboxCommandView {
        match self {
            SkyboxCommand::Previous { skybox_id } => SkyboxCommandView::Previous {
                skybox_id: skybox_id@,
            },
            SkyboxCommand::Styles => SkyboxCommandView::Styles,
            SkyboxCommand::CheckSkybox => SkyboxCommandView::CheckSkybox,
            SkyboxCommand::Skybox { prompt, style_id } => SkyboxCommandView::Skybox {
                prompt: prompt@,
                style_id: *style_id,
            },
            SkyboxCommand::Remix { prompt } => SkyboxCommandView::Remix { prompt: prompt@ },
            SkyboxCommand::Nothing => SkyboxCommandView::Nothing,
        }
    }
}

/// What the words of a skybox chat command ask for: the prompt of
/// `!skybox` starts after the style number when the message gives one.
pub open spec fn skybox_command_spec(words: Seq<Seq<char>>, user_name: Seq<char>) -> SkyboxCommandView {
    let command = words[0];
    if command == "!previous"@ {
        SkyboxCommandView::Previous {
            skybox_id: if words.len() > 1 { words[1] } else { "2449796"@ },
        }
    } else if command == "!skybox_styles"@ {
        SkyboxCommandView::Styles
    } else if command == "!check_skybox"@ {
        if is_streamer(user_name) {
            SkyboxCommandView::CheckSkybox
        } else {
            SkyboxCommandView::Nothing
        }
    } else if command == "!skybox"@ {
        let style_id = style_id_spec(words);
        SkyboxCommandView::Skybox {
            prompt: if style_id == 1 { words_after(words, 1) } else { words_after(words, 2) },
            style_id,
        }
    } else if command == "!remix"@ {
        SkyboxCommandView::Remix { prompt: words_after(words, 1) }
    } else {
        SkyboxCommandView::Nothing
    }
}

/// The words of `words` after the first `n`, joined with spaces.
pub fn join_after(words: &Vec<String>, n: usize) -> (r: String)
    ensures
        r@ == words_after(views(words@), n as int),
{
    let r = join_from(words, n, " ");
    proof {
        if n < words@.len() {
            assert(views(words@.skip(n as int)) =~= views(words@).skip(n as int));
        }
    }
    r
}

/// Decides what the words of a skybox chat command ask for.
pub fn handle_skybox_commands(splitmsg: &Vec<String>, user_name: &str) -> (r: SkyboxCommand)
    requires
        splitmsg@.len() > 0,
    ensures
        r@ == skybox_command_spec(views(splitmsg@), user_name@),
{
    let command = splitmsg[0].as_str();
    assert(views(splitmsg@)[0] == splitmsg@[0]@);
    if str_eq(command, "!previous") {
        let skybox_id = match word_copy(splitmsg, 1) {
            Some(w) => w,
            None => owned("2449796"),
        };
        SkyboxCommand::Previous { skybox_id }
    } else if str_eq(command, "!skybox_styles") {
        SkyboxCommand::Styles
    } else if str_eq(command, "!check_skybox") {
        if is_streamer_name(user_name) {
            SkyboxCommand::CheckSkybox
        } else {
            SkyboxCommand::Nothing
        }
    } else if str_eq(command, "!skybox") {
        let style_id = find_style_id(splitmsg.clone());
        let prompt = if style_id == 1 {
            join_after(splitmsg, 1)
        } else {
            join_after(splitmsg, 2)
        };
        SkyboxCommand::Skybox { prompt, style_id }
    } else if str_eq(command, "!remix") {
        SkyboxCommand::Remix { prompt: join_after(splitmsg, 1) }
    } else {
        SkyboxCommand::Nothing
    }
}


/// The skybox commands read their words: `!skybox STYLE PROMPT...` draws the
/// words after the style number in that style (1 to 47; for style 1 the
/// prompt keeps the number), and a message without a valid style number is drawn in style 1 from all its words;
/// `!remix PROMPT...` remixes with the words after the command;
/// `!previous ID` returns to that skybox (else to 2449796).
pub proof fn skybox_commands_read_their_words(words: Seq<Seq<char>>, user_name: Seq<char>)
    requires
        words.len() > 0,
    ensures
        ({
            let r = skybox_command_spec(words, user_name);
            let valid = words.len() > 1 && parse_i32_spec(words[1]) is Some && 1 <= parse_i32_spec(
                words[1],
            )->0 <= 47;
            &&& words[0] == "!skybox"@ && valid && parse_i32_spec(words[1])->0 != 1 ==> r
                == SkyboxCommandView::Skybox {
                prompt: join_spec(words.skip(2), " "@),
                style_id: parse_i32_spec(words[1])->0,
            }
            &&& words[0] == "!skybox"@ && valid && parse_i32_spec(words[1])->0 == 1 ==> r
                == SkyboxCommandView::Skybox { prompt: join_spec(words.skip(1), " "@), style_id: 1 }
            &&& words[0] == "!skybox"@ && !valid ==> r == SkyboxCommandView::Skybox {
                prompt: join_spec(words.skip(1), " "@),
                style_id: 1,
            }
            &&& words[0] == "!remix"@ ==> r == SkyboxCommandView::Remix {
                prompt: join_spec(words.skip(1), " "@),
            }
            &&& words[0] == "!previous"@ ==> r == SkyboxCommandView::Previous {
                skybox_id: if words.len() > 1 {
                    words[1]
                } else {
                    "2449796"@
                },
            }
        }),
{
    reveal_strlit("!previous");
    reveal_strlit("!skybox_styles");
    reveal_strlit("!check_skybox");
    reveal_strlit("!skybox");
    reveal_strlit("!remix");
    assert("!previous"@.len() == 9);
    assert("!skybox_styles"@.len() == 14);
    assert("!check_skybox"@.len() == 13);
    assert("!skybox"@.len() == 7);
    assert("!remix"@.len() == 6);
    assert(words.len() == 1 ==> words.skip(1) =~= Seq::<Seq<char>>::empty());
    assert(words.len() == 2 ==> words.skip(2) =~= Seq::<Seq<char>>::empty());
}

} // verus!
