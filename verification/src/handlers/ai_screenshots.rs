//! AI screenshots: a chat command takes a screenshot of one source and has
//! it redrawn from a prompt, by DALL·E or Stable Diffusion.
use crate::image_generation::{is_utc_stamp, utc_timestamp};
use crate::text::{concat3, join_from, join_spec, owned, str_eq, views};
use vstd::prelude::*;

verus! {

/// A screenshot to redraw: the source to capture, the prompt, and whether
/// DALL·E draws it (Stable Diffusion otherwise).
pub struct ScreenshotRequest {
    pub source: String,
    pub prompt: String,
    pub use_dalle: bool,
}

/// A screenshot request, as plain text.
pub struct ScreenshotRequestView {
    pub source: Seq<char>,
    pub prompt: Seq<char>,
    pub use_dalle: bool,
}

impl View for ScreenshotRequest {
    type V = ScreenshotRequestView;

    open spec fn view(&self) -> ScreenshotRequestView {
        ScreenshotRequestView { source: self.source@, prompt: self.prompt@, use_dalle: self.use_dalle }
    }
}

/// The source that a screenshot command captures.
pub open spec fn screenshot_source_spec(command: Seq<char>) -> Option<Seq<char>> {
    if command == "!new_alex"@ || command == "edit_alex"@ || command == "!ai_alex"@ {
        Some("alex"@)
    } else if command == "!new_scene"@ || command == "edit_scene"@ || command == "!ai_scene"@ {
        Some("Primary"@)
    } else if command == "!new_begin"@ || command == "edit_begin"@ || command == "!ai_begin"@ {
        Some("begin"@)
    } else {
        None
    }
}

/// Whether a word names one of the image models.
pub open spec fn is_model_name(word: Seq<char>) -> bool {
    word == "dalle"@ || word == "sd"@
}

/// The prompt of a screenshot command: the words after the model name when
/// the second word is one, else the words after the command; a fixed prompt
/// for a bare command.
pub open spec fn screenshot_prompt_spec(words: Seq<Seq<char>>) -> Seq<char> {
    if words.len() > 1 {
        if is_model_name(words[1]) {
            join_spec(words.skip(2), " "@)
        } else {
            join_spec(words.skip(1), " "@)
        }
    } else {
        "coolest programmer ever. Super stylish"@
    }
}

/// What the space-separated words of a chat message ask for: a screenshot
/// of the source the command names, drawn by DALL·E when the second word is
/// `dalle`.
pub open spec fn screenshot_request_spec(words: Seq<Seq<char>>) -> Option<ScreenshotRequestView> {
    match screenshot_source_spec(words[0]) {
        Some(source) => Some(
            ScreenshotRequestView {
                source,
                prompt: screenshot_prompt_spec(words),
                use_dalle: words.len() > 1 && words[1] == "dalle"@,
            },
        ),
        None => None,
    }
}

/// Decides which screenshot the words of a chat message ask for, if any.
pub fn handle_ai_screenshots(splitmsg: &Vec<String>) -> (r: Option<ScreenshotRequest>)
    requires
        splitmsg@.len() > 0,
    ensures
        match r {
            Some(q) => screenshot_request_spec(views(splitmsg@)) == Some(q@),
            None => screenshot_request_spec(views(splitmsg@)) is None,
        },
{
    let ghost ws = views(splitmsg@);
    assert(ws[0] == splitmsg@[0]@);
    let command = splitmsg[0].as_str();
    let source = if str_eq(command, "!new_alex") || str_eq(command, "edit_alex") || str_eq(
        command,
        "!ai_alex",
    ) {
        "alex"
    } else if str_eq(command, "!new_scene") || str_eq(command, "edit_scene") || str_eq(
        command,
        "!ai_scene",
    ) {
        "Primary"
    } else if str_eq(command, "!new_begin") || str_eq(command, "edit_begin") || str_eq(
        command,
        "!ai_begin",
    ) {
        "begin"
    } else {
        return None;
    };
    let (prompt, use_dalle) = if splitmsg.len() > 1 {
        assert(ws[1] == splitmsg@[1]@);
        let second = splitmsg[1].as_str();
        let dalle = str_eq(second, "dalle");
        if dalle || str_eq(second, "sd") {
            let p = join_from(splitmsg, 2, " ");
            if splitmsg.len() > 2 {
                assert(views(splitmsg@.skip(2)) =~= ws.skip(2));
            } else {
                assert(ws.skip(2) =~= Seq::<Seq<char>>::empty());
            }
            (p, dalle)
        } else {
            let p = join_from(splitmsg, 1, " ");
            assert(views(splitmsg@.skip(1)) =~= ws.skip(1));
            (p, false)
        }
    } else {
        (owned("coolest programmer ever. Super stylish"), false)
    };
    Some(ScreenshotRequest { source: owned(source), prompt, use_dalle })
}

/// The file a screenshot taken at `timestamp` is saved in.
pub open spec fn screenshot_path_spec(timestamp: Seq<char>) -> Seq<char> {
    "/home/begin/code/subd/tmp/screenshots/"@ + timestamp + "_screenshot.png"@
}

/// The file a screenshot taken at `timestamp` is saved in.
pub fn screenshot_path(timestamp: &str) -> (r: String)
    ensures
        r@ == screenshot_path_spec(timestamp@),
{
    concat3("/home/begin/code/subd/tmp/screenshots/", timestamp, "_screenshot.png")
}

/// The file the screenshot taken now is saved in: its name starts with the
/// current UTC time.
pub fn new_screenshot_path() -> (r: String)
    ensures
        exists|timestamp: Seq<char>|
            is_utc_stamp(timestamp) && r@ == #[trigger] screenshot_path_spec(timestamp),
{
    let timestamp = utc_timestamp();
    let r = screenshot_path(timestamp.as_str());
    assert(r@ == screenshot_path_spec(timestamp@));
    r
}


/// A screenshot command captures its own source (`alex` for the `alex`
/// commands, `Primary` for the scene commands, `begin` for the `begin`
/// commands) and draws it with the chatter's words: the words after the
/// model name when the second word is `dalle` (drawn by DALL·E) or `sd`,
/// else all the words after the command; other messages ask for nothing.
pub proof fn screenshots_read_their_words(words: Seq<Seq<char>>)
    requires
        words.len() > 0,
    ensures
        ({
            let r = screenshot_request_spec(words);
            let c = words[0];
            let source = if c == "!new_alex"@ || c == "edit_alex"@ || c == "!ai_alex"@ {
                "alex"@
            } else if c == "!new_scene"@ || c == "edit_scene"@ || c == "!ai_scene"@ {
                "Primary"@
            } else {
                "begin"@
            };
            let known = c == "!new_alex"@ || c == "edit_alex"@ || c == "!ai_alex"@ || c
                == "!new_scene"@ || c == "edit_scene"@ || c == "!ai_scene"@ || c == "!new_begin"@
                || c == "edit_begin"@ || c == "!ai_begin"@;
            &&& !known ==> r is None
            &&& known && words.len() > 1 && (words[1] == "dalle"@ || words[1] == "sd"@) ==> r
                == Some(
                ScreenshotRequestView {
                    source,
                    prompt: join_spec(words.skip(2), " "@),
                    use_dalle: words[1] == "dalle"@,
                },
            )
            &&& known && words.len() > 1 && words[1] != "dalle"@ && words[1] != "sd"@ ==> r
                == Some(
                ScreenshotRequestView {
                    source,
                    prompt: join_spec(words.skip(1), " "@),
                    use_dalle: false,
                },
            )
        }),
{
    reveal_strlit("!new_alex");
    reveal_strlit("edit_alex");
    reveal_strlit("!ai_alex");
    reveal_strlit("!new_scene");
    reveal_strlit("edit_scene");
    reveal_strlit("!ai_scene");
    reveal_strlit("!new_begin");
    reveal_strlit("edit_begin");
    reveal_strlit("!ai_begin");
    reveal_strlit("dalle");
    reveal_strlit("sd");
    assert("!new_alex"@.len() == 9 && "!new_alex"@[0] == '!' && "!new_alex"@[1] == 'n' && "!new_alex"@[5] == 'a');
    assert("edit_alex"@.len() == 9 && "edit_alex"@[0] == 'e' && "edit_alex"@[1] == 'd' && "edit_alex"@[5] == 'a');
    assert("!ai_alex"@.len() == 8 && "!ai_alex"@[0] == '!' && "!ai_alex"@[1] == 'a' && "!ai_alex"@[5] == 'l');
    assert("!new_scene"@.len() == 10 && "!new_scene"@[0] == '!' && "!new_scene"@[1] == 'n' && "!new_scene"@[5] == 's');
    assert("edit_scene"@.len() == 10 && "edit_scene"@[0] == 'e' && "edit_scene"@[1] == 'd' && "edit_scene"@[5] == 's');
    assert("!ai_scene"@.len() == 9 && "!ai_scene"@[0] == '!' && "!ai_scene"@[1] == 'a' && "!ai_scene"@[5] == 'c');
    assert("!new_begin"@.len() == 10 && "!new_begin"@[0] == '!' && "!new_begin"@[1] == 'n' && "!new_begin"@[5] == 'b');
    assert("edit_begin"@.len() == 10 && "edit_begin"@[0] == 'e' && "edit_begin"@[1] == 'd' && "edit_begin"@[5] == 'b');
    assert("!ai_begin"@.len() == 9 && "!ai_begin"@[0] == '!' && "!ai_begin"@[1] == 'a' && "!ai_begin"@[5] == 'e');
    assert("dalle"@.len() == 5 && "dalle"@[0] == 'd' && "dalle"@[1] == 'a');
    assert("sd"@.len() == 2 && "sd"@[0] == 's' && "sd"@[1] == 'd');
}

} // verus!
