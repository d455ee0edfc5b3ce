//! The Fal image commands: the theme for generated backgrounds, and an
//! image drawn for each chat message of more than one word.
use crate::handlers::{is_streamer, is_streamer_name};
use crate::text::{
    concat3, first_char, join_from, join_spec, owned, split_on, split_spec, split_words, str_eq,
    views, words_spec,
};
use vstd::prelude::*;

verus! {

/// What a chat message asks of the Fal image generator.
pub enum FalCommand {
    /// Set the theme of generated images.
    SetTheme { theme: String },
    /// Animate the talking image.
    Talk { image_file: String },
    /// Draw an image for the message, in the current theme.
    Draw { prompt: String },
    /// Nothing to do.
    Nothing,
}

/// A Fal command, as plain text.
pub enum FalCommandView {
    SetTheme { theme: Seq<char> },
    Talk { image_file: Seq<char> },
    Draw { prompt: Seq<char> },
    Nothing,
}

impl View for FalCommand {
    type V = FalCommandView;

    open spec fn view(&self) -> FalCommandView {
        match self {
            FalCommand::SetTheme { theme } => FalCommandView::SetTheme { theme: theme@ },
            FalCommand::Talk { image_file } => FalCommandView::Talk { image_file: image_file@ },
            FalCommand::Draw { prompt } => FalCommandView::Draw { prompt: prompt@ },
            FalCommand::Nothing => FalCommandView::Nothing,
        }
    }
}

/// Whether a word starts with `c`.
pub open spec fn starts_with(word: Seq<char>, c: char) -> bool {
    word.len() > 0 && word[0] == c
}

/// What the chat message `contents` from `user_name` asks of Fal: the
/// streamer and moderators set the theme with `!theme`; any other message
/// of more than one word that is no command or mention is drawn.
pub open spec fn fal_command_spec(contents: Seq<char>, user_name: Seq<char>, is_mod: bool) -> FalCommandView {
    let fields = split_spec(contents, ' ');
    let command = fields[0];
    if command == "!theme"@ {
        if !is_streamer(user_name) && !is_mod {
            FalCommandView::Nothing
        } else {
            FalCommandView::SetTheme { theme: join_spec(fields.skip(1), " "@) }
        }
    } else if command == "!talk"@ {
        FalCommandView::Talk { image_file: "teej_2.jpg"@ }
    } else if !starts_with(command, '!') && !starts_with(command, '@') && words_spec(contents).len()
        > 1 {
        FalCommandView::Draw { prompt: contents }
    } else {
        FalCommandView::Nothing
    }
}

/// Decides what the chat message `contents` from `user_name` asks of Fal.
pub fn handle_fal_commands(contents: &str, user_name: &str, is_mod: bool) -> (r: FalCommand)
    ensures
        r@ == fal_command_spec(contents@, user_name@, is_mod),
{
    let fields = split_on(contents, ' ');
    let ghost fs = views(fields@);
    proof {
        crate::text::lemma_split_nonempty(contents@, ' ');
    }
    assert(fs[0] == fields@[0]@);
    let command = fields[0].as_str();
    if str_eq(command, "!theme") {
        if !is_streamer_name(user_name) && !is_mod {
            FalCommand::Nothing
        } else {
            let theme = join_from(&fields, 1, " ");
            if fields.len() > 1 {
                assert(views(fields@.skip(1)) =~= fs.skip(1));
            } else {
                assert(fs.skip(1) =~= Seq::<Seq<char>>::empty());
            }
            FalCommand::SetTheme { theme }
        }
    } else if str_eq(command, "!talk") {
        FalCommand::Talk { image_file: owned("teej_2.jpg") }
    } else {
        let first = first_char(command);
        let marked = match first {
            Some(c) => c == '!' || c == '@',
            None => false,
        };
        if !marked && split_words(contents).len() > 1 {
            FalCommand::Draw { prompt: owned(contents) }
        } else {
            FalCommand::Nothing
        }
    }
}

/// The prompt an image is drawn from: the theme, then the message.
pub fn themed_prompt(theme: &str, prompt: &str) -> (r: String)
    ensures
        r@ == theme@ + " "@ + prompt@,
{
    concat3(theme, " ", prompt)
}

/// The streamer and moderators set the theme to exactly the text they
/// write after `!theme `.
pub proof fn theme_is_text_after_command(rest: Seq<char>, user_name: Seq<char>, is_mod: bool)
    requires
        is_streamer(user_name) || is_mod,
    ensures
        fal_command_spec("!theme"@ + " "@ + rest, user_name, is_mod) == (FalCommandView::SetTheme {
            theme: rest,
        }),
{
    reveal_strlit("!theme");
    assert(!"!theme"@.contains(' ')) by {
        if "!theme"@.contains(' ') {
            let k = choose|k: int| 0 <= k < "!theme"@.len() && "!theme"@[k] == ' ';
            assert(false);
        }
    }
    crate::text::text_after_command("!theme"@, rest);
}


/// A chat message of more than one word that is no command (`!`) or
/// mention (`@`) is drawn exactly as written, whoever sends it; `!talk`
/// always talks with the same image.
pub proof fn plain_messages_are_drawn_as_written(contents: Seq<char>, user_name: Seq<char>, is_mod: bool)
    ensures
        ({
            let first = split_spec(contents, ' ')[0];
            !starts_with(first, '!') && !starts_with(first, '@') && words_spec(contents).len() > 1
                ==> fal_command_spec(contents, user_name, is_mod) == (FalCommandView::Draw {
                prompt: contents,
            })
        }),
        split_spec(contents, ' ')[0] == "!talk"@ ==> fal_command_spec(contents, user_name, is_mod)
            == (FalCommandView::Talk { image_file: "teej_2.jpg"@ }),
{
    reveal_strlit("!theme");
    reveal_strlit("!talk");
    assert("!theme"@.len() == 6);
    assert("!talk"@.len() == 5);
}

} // verus!
