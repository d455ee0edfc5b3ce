//! The OBS chat commands of the current handler: moving, scaling, rotating
//! and spinning sources, 3D perspectives, hotkeys and outline strokes.
//! Numbers for OBS are handed on as the words the chatter wrote; the
//! program reads them, with the defaults each command documents.
use crate::handlers::channel_rewards::{
    build_wide_request, word_or, ChatMoveSourceRequest, MoveRequestView, WideRequest,
    WideRequestView, read_wide_positions,
};
use crate::handlers::obs_messages::{
    arg_views, build_chat_move_source_request, build_chat_twirl_request, default_move_or_scale_args,
    default_spin_args, default_twirl_args, default_wide_args, duration_as_i32, duration_or_default,
    move_or_scale_args_spec, move_request_spec, spin_args_spec, to_i32_or_default,
    to_i32_truncating, twirl_args_spec, twirl_request_spec, wide_args_spec, word_or_lit, given_word,
    given_or, given_number, given_duration, move_words_in_order, spin_words_in_order,
    twirl_words_in_order, wide_words_in_order,
    TwirlRequest, TwirlRequestView,
};
use crate::handlers::{is_streamer, is_streamer_name};
use crate::text::{concat, owned, slice_from, str_eq, views, word_at_spec, word_copy};
use vstd::prelude::*;

verus! {

/// The scene a source lives in, and the source's name there: `begin` in
/// the Begin scene, `bogan` in AIAssets, `randall` in TestScene, any other
/// in Memes.
pub open spec fn scene_and_source_spec(source: Seq<char>) -> (Seq<char>, Seq<char>) {
    if source == "begin"@ {
        ("Begin"@, "begin"@)
    } else if source == "bogan"@ {
        ("AIAssets"@, source)
    } else if source == "randall"@ {
        ("TestScene"@, source)
    } else {
        ("Memes"@, source)
    }
}

/// The scene that `source` lives in, and its name there.
pub fn scene_and_source(source: &str) -> (r: (String, String))
    ensures
        r.0@ == scene_and_source_spec(source@).0,
        r.1@ == scene_and_source_spec(source@).1,
{
    if str_eq(source, "begin") {
        (owned("Begin"), owned("begin"))
    } else if str_eq(source, "bogan") {
        (owned("AIAssets"), owned(source))
    } else if str_eq(source, "randall") {
        (owned("TestScene"), owned(source))
    } else {
        (owned("Memes"), owned(source))
    }
}

/// The move-transition filter that moves `source`.
pub open spec fn move_filter_spec(source: Seq<char>) -> Seq<char> {
    "Move_"@ + source
}

/// What an OBS chat command asks for.
pub enum ObsHandlerCommand {
    /// Press an OBS hotkey.
    Hotkey { key: String },
    /// Set the outline's stroke size through its move-value filter; the
    /// word given is read as the size (99.9 when it is none).
    Stroke { source: String, filter: String, setting: String, value: Option<String> },
    /// Bring a source back into view.
    Find { scene: String, source: String, filter: String },
    /// Move a source to the words given for x and y (100 for one that is no
    /// number).
    MoveTo { scene: String, source: String, filter: String, x: Option<String>, y: Option<String> },
    /// Widen a source with the orthographic 3D transform.
    Wide(WideRequest),
    /// The "nerd" perspective on a source.
    Nerd { source: String },
    /// Store a new position for a meme: `x` is the word read as the
    /// horizontal position (the command fails when it is no number), `y`
    /// the word read as the vertical one, which falls back to `x` when it
    /// is missing or no number.
    UpdateMeme { source: String, x: String, y: Option<String> },
    /// Reset a source's 3D transforms and move it back to its stored spot.
    Norm { source: String },
    /// The "chad" perspective on a source.
    Chad { source: String },
    /// Scale a source by the words given for x (2 when it is none) and y
    /// (x when it is none).
    Scale { scene: String, source: String, filter: String, x: Option<String>, y: Option<String> },
    /// Move a source within a scene over `duration` milliseconds.
    Move { scene: String, source: String, request: ChatMoveSourceRequest, duration: i32 },
    /// Show a filter's settings.
    ShowFilter { filter: String },
    /// Twirl a source around its y axis.
    Twirl { source: String, request: TwirlRequest, duration: i32 },
    /// Rotate a source by the word given (360 when it is none).
    Rotate { scene: String, source: String, filter: String, z: Option<String> },
    /// Spin `source` (always the camera source "begin") around its z axis.
    Spin { source: String, request: ChatMoveSourceRequest, duration: i32 },
    /// Recreate the 3D transform filters of a source.
    CreateFilters { source: String },
    Nothing,
}

/// An OBS command, as plain text.
pub enum ObsHandlerCommandView {
    Hotkey { key: Seq<char> },
    Stroke { source: Seq<char>, filter: Seq<char>, setting: Seq<char>, value: Option<Seq<char>> },
    Find { scene: Seq<char>, source: Seq<char>, filter: Seq<char> },
    MoveTo {
        scene: Seq<char>,
        source: Seq<char>,
        filter: Seq<char>,
        x: Option<Seq<char>>,
        y: Option<Seq<char>>,
    },
    Wide(WideRequestView),
    Nerd { source: Seq<char> },
    UpdateMeme { source: Seq<char>, x: Seq<char>, y: Option<Seq<char>> },
    Norm { source: Seq<char> },
    Chad { source: Seq<char> },
    Scale {
        scene: Seq<char>,
        source: Seq<char>,
        filter: Seq<char>,
        x: Option<Seq<char>>,
        y: Option<Seq<char>>,
    },
    Move { scene: Seq<char>, source: Seq<char>, request: MoveRequestView, duration: i32 },
    ShowFilter { filter: Seq<char> },
    Twirl { source: Seq<char>, request: TwirlRequestView, duration: i32 },
    Rotate { scene: Seq<char>, source: Seq<char>, filter: Seq<char>, z: Option<Seq<char>> },
    Spin { source: Seq<char>, request: MoveRequestView, duration: i32 },
    CreateFilters { source: Seq<char> },
    Nothing,
}

impl View for ObsHandlerCommand {
    type V = ObsHandlerCommandView;

    open spec fn view(&self) -> ObsHandlerCommandView {
        match self {
            ObsHandlerCommand::Hotkey { key } => ObsHandlerCommandView::Hotkey { key: key@ },
            ObsHandlerCommand::Stroke { source, filter, setting, value } =>
                ObsHandlerCommandView::Stroke {
                source: source@,
                filter: filter@,
                setting: setting@,
                value: crate::text::opt_view(*value),
            },
            ObsHandlerCommand::Find { scene, source, filter } => ObsHandlerCommandView::Find {
                scene: scene@,
                source: source@,
                filter: filter@,
            },
            ObsHandlerCommand::MoveTo { scene, source, filter, x, y } =>
                ObsHandlerCommandView::MoveTo {
                scene: scene@,
                source: source@,
                filter: filter@,
                x: crate::text::opt_view(*x),
                y: crate::text::opt_view(*y),
            },
            ObsHandlerCommand::Wide(r) => ObsHandlerCommandView::Wide(r@),
            ObsHandlerCommand::Nerd { source } => ObsHandlerCommandView::Nerd { source: source@ },
            ObsHandlerCommand::UpdateMeme { source, x, y } => ObsHandlerCommandView::UpdateMeme {
                source: source@,
                x: x@,
                y: crate::text::opt_view(*y),
            },
            ObsHandlerCommand::Norm { source } => ObsHandlerCommandView::Norm { source: source@ },
            ObsHandlerCommand::Chad { source } => ObsHandlerCommandView::Chad { source: source@ },
            ObsHandlerCommand::Scale { scene, source, filter, x, y } =>
                ObsHandlerCommandView::Scale {
                scene: scene@,
                source: source@,
                filter: filter@,
                x: crate::text::opt_view(*x),
                y: crate::text::opt_view(*y),
            },
            ObsHandlerCommand::Move { scene, source, request, duration } =>
                ObsHandlerCommandView::Move {
                scene: scene@,
                source: source@,
                request: request@,
                duration: *duration,
            },
            ObsHandlerCommand::ShowFilter { filter } => ObsHandlerCommandView::ShowFilter {
                filter: filter@,
            },
            ObsHandlerCommand::Twirl { source, request, duration } =>
                ObsHandlerCommandView::Twirl {
                source: source@,
                request: request@,
                duration: *duration,
            },
            ObsHandlerCommand::Rotate { scene, source, filter, z } =>
                ObsHandlerCommandView::Rotate {
                scene: scene@,
                source: source@,
                filter: filter@,
                z: crate::text::opt_view(*z),
            },
            ObsHandlerCommand::Spin { source, request, duration } => ObsHandlerCommandView::Spin {
                source: source@,
                request: request@,
                duration: *duration,
            },
            ObsHandlerCommand::CreateFilters { source } => ObsHandlerCommandView::CreateFilters {
                source: source@,
            },
            ObsHandlerCommand::Nothing => ObsHandlerCommandView::Nothing,
        }
    }
}

/// What the space-separated words of an OBS chat command ask for. The
/// source is the second word (`default_source` when there is none), in the
/// scene it lives in; `new_begin_source` and `primary_camera_scene` are the
/// stream's configured names.
pub open spec fn obs_handler_command_spec(
    words: Seq<Seq<char>>,
    is_mod: bool,
    user_name: Seq<char>,
    default_source: Seq<char>,
    new_begin_source: Seq<char>,
    primary_camera_scene: Seq<char>,
) -> Result<ObsHandlerCommandView, Seq<char>> {
    let command = words[0];
    let (scene, source) = scene_and_source_spec(word_or(words, 1, default_source));
    let filter = move_filter_spec(source);
    let rest = words.skip(1);
    if command == "!hotkey"@ {
        Ok(ObsHandlerCommandView::Hotkey { key: "H"@ })
    } else if command == "!stroke"@ {
        Ok(
            ObsHandlerCommandView::Stroke {
                source: "BeginOutline1"@,
                filter: "Move_Outline"@,
                setting: "stroke_size"@,
                value: word_at_spec(words, 1),
            },
        )
    } else if command == "!find"@ {
        Ok(ObsHandlerCommandView::Find { scene, source, filter })
    } else if command == "!move"@ {
        Ok(
            ObsHandlerCommandView::MoveTo {
                scene,
                source,
                filter,
                x: word_at_spec(words, 2),
                y: word_at_spec(words, 3),
            },
        )
    } else if command == "!wide"@ {
        Ok(ObsHandlerCommandView::Wide(read_wide_positions(rest, wide_args_spec())))
    } else if command == "!nerd"@ {
        Ok(ObsHandlerCommandView::Nerd { source })
    } else if command == "!update_meme"@ {
        if !is_mod {
            Ok(ObsHandlerCommandView::Nothing)
        } else if words.len() > 2 {
            Ok(
                ObsHandlerCommandView::UpdateMeme {
                    source,
                    x: words[2],
                    y: crate::text::word_at_spec(words, 3),
                },
            )
        } else {
            Err("Error Fetching X to update_meme"@)
        }
    } else if command == "!norm"@ {
        Ok(ObsHandlerCommandView::Norm { source })
    } else if command == "!chad"@ {
        Ok(ObsHandlerCommandView::Chad { source })
    } else if command == "!grow"@ || command == "!scale"@ {
        Ok(
            ObsHandlerCommandView::Scale {
                scene,
                source,
                filter,
                x: word_at_spec(words, 2),
                y: word_at_spec(words, 3),
            },
        )
    } else if command == "!alex"@ {
        let r = move_request_spec(rest, move_or_scale_args_spec().skip(1), new_begin_source);
        Ok(
            ObsHandlerCommandView::Move {
                scene: "Memes"@,
                source: "alex"@,
                request: r,
                duration: duration_as_i32(r.duration),
            },
        )
    } else if command == "!begin"@ {
        let r = move_request_spec(rest, move_or_scale_args_spec().skip(1), new_begin_source);
        Ok(
            ObsHandlerCommandView::Move {
                scene: primary_camera_scene,
                source: "begin"@,
                request: r,
                duration: duration_or_default(r.duration),
            },
        )
    } else if command == "!filter"@ {
        Ok(ObsHandlerCommandView::ShowFilter { filter: word_or(words, 1, "3D-Transform-Perspective"@) })
    } else if command == "!twirl"@ {
        let r = twirl_request_spec(rest, twirl_args_spec());
        Ok(ObsHandlerCommandView::Twirl { source, request: r, duration: duration_as_i32(r.duration) })
    } else if command == "!rot"@ {
        Ok(ObsHandlerCommandView::Rotate { scene, source, filter, z: word_at_spec(words, 2) })
    } else if command == "!spin"@ || command == "!spinx"@ || command == "spiny"@ {
        let r = move_request_spec(rest, spin_args_spec(), new_begin_source);
        Ok(
            ObsHandlerCommandView::Spin {
                source: "begin"@,
                request: r,
                duration: duration_as_i32(r.duration),
            },
        )
    } else if command == "!create_filters_for_source"@ {
        if !is_streamer(user_name) {
            Ok(ObsHandlerCommandView::Nothing)
        } else {
            Ok(ObsHandlerCommandView::CreateFilters { source: word_or(words, 1, "alex"@) })
        }
    } else {
        Ok(ObsHandlerCommandView::Nothing)
    }
}

/// The plain view of a planned command or its error.
pub open spec fn handler_plan_view(r: Result<ObsHandlerCommand, String>) -> Result<
    ObsHandlerCommandView,
    Seq<char>,
> {
    match r {
        Ok(c) => Ok(c@),
        Err(e) => Err(e@),
    }
}

/// Decides what the space-separated words of an OBS chat command ask for.
pub fn handle_obs_commands(
    splitmsg: &Vec<String>,
    is_mod: bool,
    user_name: &str,
    default_source: &str,
    new_begin_source: &str,
    primary_camera_scene: &str,
) -> (r: Result<ObsHandlerCommand, String>)
    requires
        splitmsg@.len() > 0,
    ensures
        handler_plan_view(r) == obs_handler_command_spec(
            views(splitmsg@),
            is_mod,
            user_name@,
            default_source@,
            new_begin_source@,
            primary_camera_scene@,
        ),
{
    let ghost words = views(splitmsg@);
    assert(words[0] == splitmsg@[0]@);
    let named = word_or_lit(splitmsg, 1, default_source);
    let (scene, source) = scene_and_source(named.as_str());
    let filter = concat("Move_", source.as_str());
    let rest = slice_from(splitmsg, 1);
    assert(views(rest@) =~= words.skip(1));
    let second = word_copy(splitmsg, 1);
    let third = word_copy(splitmsg, 2);
    let fourth = word_copy(splitmsg, 3);
    proof {
        if splitmsg@.len() > 1 {
            assert(words[1] == splitmsg@[1]@);
        }
        if splitmsg@.len() > 2 {
            assert(words[2] == splitmsg@[2]@);
        }
        if splitmsg@.len() > 3 {
            assert(words[3] == splitmsg@[3]@);
        }
    }
    assert(crate::text::opt_view(second) == word_at_spec(words, 1));
    assert(crate::text::opt_view(third) == word_at_spec(words, 2));
    assert(crate::text::opt_view(fourth) == word_at_spec(words, 3));
    let command = splitmsg[0].as_str();
    if str_eq(command, "!hotkey") {
        Ok(ObsHandlerCommand::Hotkey { key: owned("H") })
    } else if str_eq(command, "!stroke") {
        Ok(
            ObsHandlerCommand::Stroke {
                source: owned("BeginOutline1"),
                filter: owned("Move_Outline"),
                setting: owned("stroke_size"),
                value: second,
            },
        )
    } else if str_eq(command, "!find") {
        Ok(ObsHandlerCommand::Find { scene, source, filter })
    } else if str_eq(command, "!move") {
        Ok(ObsHandlerCommand::MoveTo { scene, source, filter, x: third, y: fourth })
    } else if str_eq(command, "!wide") {
        match build_wide_request(rest, default_wide_args()) {
            Ok(req) => Ok(ObsHandlerCommand::Wide(req)),
            Err(e) => Err(e),
        }
    } else if str_eq(command, "!nerd") {
        Ok(ObsHandlerCommand::Nerd { source })
    } else if str_eq(command, "!update_meme") {
        if !is_mod {
            Ok(ObsHandlerCommand::Nothing)
        } else {
            match third {
                Some(x) => Ok(
                    ObsHandlerCommand::UpdateMeme { source, x, y: word_copy(splitmsg, 3) },
                ),
                None => Err(owned("Error Fetching X to update_meme")),
            }
        }
    } else if str_eq(command, "!norm") {
        Ok(ObsHandlerCommand::Norm { source })
    } else if str_eq(command, "!chad") {
        Ok(ObsHandlerCommand::Chad { source })
    } else if str_eq(command, "!grow") || str_eq(command, "!scale") {
        Ok(ObsHandlerCommand::Scale { scene, source, filter, x: third, y: fourth })
    } else if str_eq(command, "!alex") || str_eq(command, "!begin") {
        let mut args = default_move_or_scale_args();
        args.remove(0);
        assert(arg_views(args@) =~= move_or_scale_args_spec().skip(1));
        let req = build_chat_move_source_request(rest, args.as_slice(), new_begin_source);
        if str_eq(command, "!alex") {
            let duration = to_i32_truncating(req.duration);
            Ok(
                ObsHandlerCommand::Move {
                    scene: owned("Memes"),
                    source: owned("alex"),
                    request: req,
                    duration,
                },
            )
        } else {
            let duration = to_i32_or_default(req.duration);
            Ok(
                ObsHandlerCommand::Move {
                    scene: owned(primary_camera_scene),
                    source: owned("begin"),
                    request: req,
                    duration,
                },
            )
        }
    } else if str_eq(command, "!filter") {
        Ok(
            ObsHandlerCommand::ShowFilter {
                filter: word_or_lit(splitmsg, 1, "3D-Transform-Perspective"),
            },
        )
    } else if str_eq(command, "!twirl") {
        let args = default_twirl_args();
        let req = build_chat_twirl_request(rest, args.as_slice());
        let duration = to_i32_truncating(req.duration);
        Ok(ObsHandlerCommand::Twirl { source, request: req, duration })
    } else if str_eq(command, "!rot") {
        Ok(ObsHandlerCommand::Rotate { scene, source, filter, z: third })
    } else if str_eq(command, "!spin") || str_eq(command, "!spinx") || str_eq(command, "spiny") {
        let args = default_spin_args();
        let req = build_chat_move_source_request(rest, args.as_slice(), new_begin_source);
        let duration = to_i32_truncating(req.duration);
        Ok(ObsHandlerCommand::Spin { source: owned("begin"), request: req, duration })
    } else if str_eq(command, "!create_filters_for_source") {
        if !is_streamer_name(user_name) {
            Ok(ObsHandlerCommand::Nothing)
        } else {
            Ok(ObsHandlerCommand::CreateFilters { source: word_or_lit(splitmsg, 1, "alex") })
        }
    } else {
        Ok(ObsHandlerCommand::Nothing)
    }
}

/// Only moderators store meme positions, and only the streamer recreates a
/// source's filters.
pub proof fn handler_privileges(
    words: Seq<Seq<char>>,
    is_mod: bool,
    user_name: Seq<char>,
    default_source: Seq<char>,
    new_begin_source: Seq<char>,
    primary_camera_scene: Seq<char>,
)
    requires
        words.len() > 0,
    ensures
        obs_handler_command_spec(
            words,
            is_mod,
            user_name,
            default_source,
            new_begin_source,
            primary_camera_scene,
        ) matches Ok(c) ==> {
            &&& c is UpdateMeme ==> is_mod
            &&& c is CreateFilters ==> is_streamer(user_name)
        },
{
}


/// The OBS commands that act on a source read their words in place:
/// `!move SOURCE X Y` moves to x then y, `!scale SOURCE X Y` and
/// `!grow SOURCE X Y` scale by the horizontal factor then the vertical one,
/// `!rot SOURCE Z` rotates by z, and `!find SOURCE` finds the source. The
/// source is the second word (else the default source) and its filter is
/// `Move_` and the source's name.
pub proof fn source_commands_read_their_words(
    words: Seq<Seq<char>>,
    is_mod: bool,
    user_name: Seq<char>,
    default_source: Seq<char>,
    new_begin_source: Seq<char>,
    primary_camera_scene: Seq<char>,
)
    requires
        words.len() > 0,
    ensures
        ({
            let r = obs_handler_command_spec(
                words,
                is_mod,
                user_name,
                default_source,
                new_begin_source,
                primary_camera_scene,
            );
            let named = if words.len() > 1 {
                words[1]
            } else {
                default_source
            };
            &&& (words[0] == "!scale"@ || words[0] == "!grow"@) ==> (r matches Ok(
                ObsHandlerCommandView::Scale { source, filter, x, y, .. },
            ) && source == named && filter == "Move_"@ + named && x == given_word(words, 2) && y
                == given_word(words, 3))
            &&& words[0] == "!move"@ ==> (r matches Ok(
                ObsHandlerCommandView::MoveTo { source, filter, x, y, .. },
            ) && source == named && filter == "Move_"@ + named && x == given_word(words, 2) && y
                == given_word(words, 3))
            &&& words[0] == "!rot"@ ==> (r matches Ok(
                ObsHandlerCommandView::Rotate { source, filter, z, .. },
            ) && source == named && filter == "Move_"@ + named && z == given_word(words, 2))
            &&& words[0] == "!find"@ ==> (r matches Ok(ObsHandlerCommandView::Find { source, filter, .. })
                && source == named && filter == "Move_"@ + named)
        }),
{
    reveal_strlit("!hotkey");
    reveal_strlit("!stroke");
    reveal_strlit("!find");
    reveal_strlit("!move");
    reveal_strlit("!wide");
    reveal_strlit("!nerd");
    reveal_strlit("!update_meme");
    reveal_strlit("!norm");
    reveal_strlit("!chad");
    reveal_strlit("!grow");
    reveal_strlit("!scale");
    reveal_strlit("!alex");
    reveal_strlit("!begin");
    reveal_strlit("!filter");
    reveal_strlit("!twirl");
    reveal_strlit("!rot");
    assert("!hotkey"@.len() == 7 && "!hotkey"@[1] == 'h' && "!hotkey"@[2] == 'o');
    assert("!stroke"@.len() == 7 && "!stroke"@[1] == 's' && "!stroke"@[2] == 't');
    assert("!find"@.len() == 5 && "!find"@[1] == 'f' && "!find"@[2] == 'i');
    assert("!move"@.len() == 5 && "!move"@[1] == 'm' && "!move"@[2] == 'o');
    assert("!wide"@.len() == 5 && "!wide"@[1] == 'w' && "!wide"@[2] == 'i');
    assert("!nerd"@.len() == 5 && "!nerd"@[1] == 'n' && "!nerd"@[2] == 'e');
    assert("!update_meme"@.len() == 12 && "!update_meme"@[1] == 'u' && "!update_meme"@[2] == 'p');
    assert("!norm"@.len() == 5 && "!norm"@[1] == 'n' && "!norm"@[2] == 'o');
    assert("!chad"@.len() == 5 && "!chad"@[1] == 'c' && "!chad"@[2] == 'h');
    assert("!grow"@.len() == 5 && "!grow"@[1] == 'g' && "!grow"@[2] == 'r');
    assert("!scale"@.len() == 6 && "!scale"@[1] == 's' && "!scale"@[2] == 'c');
    assert("!alex"@.len() == 5 && "!alex"@[1] == 'a' && "!alex"@[2] == 'l');
    assert("!begin"@.len() == 6 && "!begin"@[1] == 'b' && "!begin"@[2] == 'e');
    assert("!filter"@.len() == 7 && "!filter"@[1] == 'f' && "!filter"@[2] == 'i');
    assert("!twirl"@.len() == 6 && "!twirl"@[1] == 't' && "!twirl"@[2] == 'w');
    assert("!rot"@.len() == 4 && "!rot"@[1] == 'r' && "!rot"@[2] == 'o');
    reveal_strlit("begin");
}


/// The other OBS commands that name a source or a value take it from their
/// words: `!nerd`, `!norm` and `!chad` act on the named source;
/// `!update_meme SOURCE X Y` stores x and y for a moderator (an error
/// without x, nothing for others); `!stroke SIZE` sets the outline's stroke
/// to the size given; `!filter NAME` shows that filter (else
/// `3D-Transform-Perspective`); `!create_filters_for_source SOURCE`
/// rebuilds that source's filters (else `alex`'s) for the streamer only.
pub proof fn named_commands_read_their_words(
    words: Seq<Seq<char>>,
    is_mod: bool,
    user_name: Seq<char>,
    default_source: Seq<char>,
    new_begin_source: Seq<char>,
    primary_camera_scene: Seq<char>,
)
    requires
        words.len() > 0,
    ensures
        ({
            let r = obs_handler_command_spec(
                words,
                is_mod,
                user_name,
                default_source,
                new_begin_source,
                primary_camera_scene,
            );
            let named = if words.len() > 1 {
                words[1]
            } else {
                default_source
            };
            &&& words[0] == "!nerd"@ ==> r == Ok::<ObsHandlerCommandView, Seq<char>>(
                ObsHandlerCommandView::Nerd { source: named },
            )
            &&& words[0] == "!norm"@ ==> r == Ok::<ObsHandlerCommandView, Seq<char>>(
                ObsHandlerCommandView::Norm { source: named },
            )
            &&& words[0] == "!chad"@ ==> r == Ok::<ObsHandlerCommandView, Seq<char>>(
                ObsHandlerCommandView::Chad { source: named },
            )
            &&& words[0] == "!update_meme"@ && is_mod && words.len() > 2 ==> r == Ok::<
                ObsHandlerCommandView,
                Seq<char>,
            >(
                ObsHandlerCommandView::UpdateMeme {
                    source: named,
                    x: words[2],
                    y: given_word(words, 3),
                },
            )
            &&& words[0] == "!update_meme"@ && is_mod && words.len() <= 2 ==> r is Err
            &&& words[0] == "!update_meme"@ && !is_mod ==> r == Ok::<
                ObsHandlerCommandView,
                Seq<char>,
            >(ObsHandlerCommandView::Nothing)
            &&& words[0] == "!stroke"@ ==> (r matches Ok(
                ObsHandlerCommandView::Stroke { value, .. },
            ) && value == given_word(words, 1))
            &&& words[0] == "!filter"@ ==> r == Ok::<ObsHandlerCommandView, Seq<char>>(
                ObsHandlerCommandView::ShowFilter {
                    filter: if words.len() > 1 {
                        words[1]
                    } else {
                        "3D-Transform-Perspective"@
                    },
                },
            )
            &&& words[0] == "!create_filters_for_source"@ && is_streamer(user_name) ==> r == Ok::<
                ObsHandlerCommandView,
                Seq<char>,
            >(
                ObsHandlerCommandView::CreateFilters {
                    source: if words.len() > 1 {
                        words[1]
                    } else {
                        "alex"@
                    },
                },
            )
            &&& words[0] == "!create_filters_for_source"@ && !is_streamer(user_name) ==> r == Ok::<
                ObsHandlerCommandView,
                Seq<char>,
            >(ObsHandlerCommandView::Nothing)
        }),
{
    reveal_strlit("!hotkey");
    reveal_strlit("!stroke");
    reveal_strlit("!find");
    reveal_strlit("!move");
    reveal_strlit("!wide");
    reveal_strlit("!nerd");
    reveal_strlit("!update_meme");
    reveal_strlit("!norm");
    reveal_strlit("!chad");
    reveal_strlit("!grow");
    reveal_strlit("!scale");
    reveal_strlit("!alex");
    reveal_strlit("!begin");
    reveal_strlit("!filter");
    reveal_strlit("!twirl");
    reveal_strlit("!rot");
    reveal_strlit("!spin");
    reveal_strlit("!spinx");
    reveal_strlit("spiny");
    reveal_strlit("!create_filters_for_source");
    assert("!hotkey"@.len() == 7 && "!hotkey"@[1] == 'h' && "!hotkey"@[2] == 'o');
    assert("!stroke"@.len() == 7 && "!stroke"@[1] == 's' && "!stroke"@[2] == 't');
    assert("!find"@.len() == 5 && "!find"@[1] == 'f' && "!find"@[2] == 'i');
    assert("!move"@.len() == 5 && "!move"@[1] == 'm' && "!move"@[2] == 'o');
    assert("!wide"@.len() == 5 && "!wide"@[1] == 'w' && "!wide"@[2] == 'i');
    assert("!nerd"@.len() == 5 && "!nerd"@[1] == 'n' && "!nerd"@[2] == 'e');
    assert("!update_meme"@.len() == 12 && "!update_meme"@[1] == 'u' && "!update_meme"@[2] == 'p');
    assert("!norm"@.len() == 5 && "!norm"@[1] == 'n' && "!norm"@[2] == 'o');
    assert("!chad"@.len() == 5 && "!chad"@[1] == 'c' && "!chad"@[2] == 'h');
    assert("!grow"@.len() == 5 && "!grow"@[1] == 'g' && "!grow"@[2] == 'r');
    assert("!scale"@.len() == 6 && "!scale"@[1] == 's' && "!scale"@[2] == 'c');
    assert("!alex"@.len() == 5 && "!alex"@[1] == 'a' && "!alex"@[2] == 'l');
    assert("!begin"@.len() == 6 && "!begin"@[1] == 'b' && "!begin"@[2] == 'e');
    assert("!filter"@.len() == 7 && "!filter"@[1] == 'f' && "!filter"@[2] == 'i');
    assert("!twirl"@.len() == 6 && "!twirl"@[1] == 't' && "!twirl"@[2] == 'w');
    assert("!rot"@.len() == 4 && "!rot"@[1] == 'r' && "!rot"@[2] == 'o');
    assert("!spin"@.len() == 5 && "!spin"@[1] == 's' && "!spin"@[2] == 'p');
    assert("!spinx"@.len() == 6 && "!spinx"@[1] == 's' && "!spinx"@[2] == 'p');
    assert("spiny"@.len() == 5 && "spiny"@[1] == 'p' && "spiny"@[2] == 'i');
    assert("!create_filters_for_source"@.len() == 26 && "!create_filters_for_source"@[1] == 'c' && "!create_filters_for_source"@[2] == 'r');
    reveal_strlit("begin");
}


/// The moves and spins read the words after the command in order:
/// `!alex X Y DURATION EASING-TYPE EASING-FUNCTION` moves alex in Memes,
/// `!begin X Y ...` the camera source in the primary camera scene (a
/// duration past 32 bits becomes 3000 ms), `!spin SPIN_AMOUNT DURATION ...`
/// spins `begin`, and `!twirl SOURCE ROTATION DURATION ...` twirls the
/// named source.
pub proof fn move_commands_read_their_words(
    words: Seq<Seq<char>>,
    is_mod: bool,
    user_name: Seq<char>,
    default_source: Seq<char>,
    new_begin_source: Seq<char>,
    primary_camera_scene: Seq<char>,
)
    requires
        words.len() > 0,
    ensures
        ({
            let r = obs_handler_command_spec(
                words,
                is_mod,
                user_name,
                default_source,
                new_begin_source,
                primary_camera_scene,
            );
            &&& words[0] == "!alex"@ ==> (r matches Ok(
                ObsHandlerCommandView::Move { scene, source, request, duration },
            ) && scene == "Memes"@ && source == "alex"@ && request.x == given_number(words, 1, "1111"@)
                && request.y == given_number(words, 2, "500"@) && request.duration
                == given_duration(words, 3, 3000) && duration == request.duration as i32
                && request.easing_type == given_or(words, 4, "ease-in"@) && request.easing_function
                == given_or(words, 5, "bounce"@))
            &&& words[0] == "!begin"@ ==> (r matches Ok(
                ObsHandlerCommandView::Move { scene, source, request, duration },
            ) && scene == primary_camera_scene && source == "begin"@ && request.x == given_number(
                words,
                1,
                "1111"@,
            ) && request.y == given_number(words, 2, "500"@) && request.duration == given_duration(
                words,
                3,
                3000,
            ) && duration == (if request.duration <= i32::MAX {
                request.duration as i32
            } else {
                3000i32
            }) && request.easing_type == given_or(words, 4, "ease-in"@) && request.easing_function
                == given_or(words, 5, "bounce"@))
            &&& (words[0] == "!spin"@ || words[0] == "!spinx"@ || words[0] == "spiny"@) ==> (r matches Ok(
                ObsHandlerCommandView::Spin { source, request, duration },
            ) && source == "begin"@ && request.rotation_z == given_number(words, 1, "1080"@)
                && request.duration == given_duration(words, 2, 3000) && duration
                == request.duration as i32 && request.easing_type == given_or(
                words,
                3,
                "ease-in-and-out"@,
            ) && request.easing_function == given_or(words, 4, "sine"@))
            &&& words[0] == "!twirl"@ ==> (r matches Ok(
                ObsHandlerCommandView::Twirl { request, duration, .. },
            ) && request.source == given_or(words, 1, "begin"@) && request.rotation_y
                == given_number(words, 2, "360"@) && request.duration == given_duration(words, 3, 3000)
                && duration == request.duration as i32)
        }),
{
    reveal_strlit("!hotkey");
    reveal_strlit("!stroke");
    reveal_strlit("!find");
    reveal_strlit("!move");
    reveal_strlit("!wide");
    reveal_strlit("!nerd");
    reveal_strlit("!update_meme");
    reveal_strlit("!norm");
    reveal_strlit("!chad");
    reveal_strlit("!grow");
    reveal_strlit("!scale");
    reveal_strlit("!alex");
    reveal_strlit("!begin");
    reveal_strlit("!filter");
    reveal_strlit("!twirl");
    reveal_strlit("!rot");
    reveal_strlit("!spin");
    reveal_strlit("!spinx");
    reveal_strlit("spiny");
    assert("!hotkey"@.len() == 7 && "!hotkey"@[1] == 'h' && "!hotkey"@[2] == 'o');
    assert("!stroke"@.len() == 7 && "!stroke"@[1] == 's' && "!stroke"@[2] == 't');
    assert("!find"@.len() == 5 && "!find"@[1] == 'f' && "!find"@[2] == 'i');
    assert("!move"@.len() == 5 && "!move"@[1] == 'm' && "!move"@[2] == 'o');
    assert("!wide"@.len() == 5 && "!wide"@[1] == 'w' && "!wide"@[2] == 'i');
    assert("!nerd"@.len() == 5 && "!nerd"@[1] == 'n' && "!nerd"@[2] == 'e');
    assert("!update_meme"@.len() == 12 && "!update_meme"@[1] == 'u' && "!update_meme"@[2] == 'p');
    assert("!norm"@.len() == 5 && "!norm"@[1] == 'n' && "!norm"@[2] == 'o');
    assert("!chad"@.len() == 5 && "!chad"@[1] == 'c' && "!chad"@[2] == 'h');
    assert("!grow"@.len() == 5 && "!grow"@[1] == 'g' && "!grow"@[2] == 'r');
    assert("!scale"@.len() == 6 && "!scale"@[1] == 's' && "!scale"@[2] == 'c');
    assert("!alex"@.len() == 5 && "!alex"@[1] == 'a' && "!alex"@[2] == 'l');
    assert("!begin"@.len() == 6 && "!begin"@[1] == 'b' && "!begin"@[2] == 'e');
    assert("!filter"@.len() == 7 && "!filter"@[1] == 'f' && "!filter"@[2] == 'i');
    assert("!twirl"@.len() == 6 && "!twirl"@[1] == 't' && "!twirl"@[2] == 'w');
    assert("!rot"@.len() == 4 && "!rot"@[1] == 'r' && "!rot"@[2] == 'o');
    assert("!spin"@.len() == 5 && "!spin"@[1] == 's' && "!spin"@[2] == 'p');
    assert("!spinx"@.len() == 6 && "!spinx"@[1] == 's' && "!spinx"@[2] == 'p');
    assert("spiny"@.len() == 5 && "spiny"@[1] == 'p' && "spiny"@[2] == 'i');
    let rest = words.skip(1);
    move_words_in_order(rest, new_begin_source);
    spin_words_in_order(rest, new_begin_source);
    twirl_words_in_order(rest);
    assert forall|i: int| 0 <= i < rest.len() implies #[trigger] rest[i] == words[i + 1] by {}
    assert(forall|i: int| #![trigger given_word(rest, i)] 0 <= i ==> given_word(rest, i) == given_word(words, i + 1));
    assert(forall|i: int, d: Seq<char>| #![trigger given_or(rest, i, d)] 0 <= i ==> given_or(rest, i, d) == given_or(words, i + 1, d));
    assert(forall|i: int, d: Seq<char>| #![trigger given_number(rest, i, d)] 0 <= i ==> given_number(rest, i, d) == given_number(words, i + 1, d));
    assert(forall|i: int, d: u64| #![trigger given_duration(rest, i, d)] 0 <= i ==> given_duration(rest, i, d) == given_duration(words, i + 1, d));
}


/// `!wide SOURCE WIDTH DURATION` widens the source named after the command
/// (else `begin`) by the width word given.
pub proof fn wide_reads_its_words(
    words: Seq<Seq<char>>,
    is_mod: bool,
    user_name: Seq<char>,
    default_source: Seq<char>,
    new_begin_source: Seq<char>,
    primary_camera_scene: Seq<char>,
)
    requires
        words.len() > 0,
    ensures
        words[0] == "!wide"@ ==> (obs_handler_command_spec(words, is_mod, user_name, default_source, new_begin_source, primary_camera_scene) matches Ok(ObsHandlerCommandView::Wide(w)) && w.source
            == given_or(words, 1, "begin"@) && w.x == given_word(words, 2) && w.duration == (if words.len()
            > 3 {
            given_duration(words, 3, 3000)
        } else {
            0
        })),
{
    reveal_strlit("!hotkey");
    reveal_strlit("!stroke");
    reveal_strlit("!find");
    reveal_strlit("!move");
    reveal_strlit("!wide");
    assert("!hotkey"@.len() == 7 && "!hotkey"@[1] == 'h');
    assert("!stroke"@.len() == 7 && "!stroke"@[1] == 's');
    assert("!find"@.len() == 5 && "!find"@[1] == 'f');
    assert("!move"@.len() == 5 && "!move"@[1] == 'm');
    assert("!wide"@.len() == 5 && "!wide"@[1] == 'w');
    let rest = words.skip(1);
    wide_words_in_order(rest);
    assert forall|i: int| 0 <= i < rest.len() implies #[trigger] rest[i] == words[i + 1] by {}
}

} // verus!
