//! The OBS chat commands: moving, scaling, spinning and twirling sources
//! with the 3D transform and move transition filters.
use crate::handlers::channel_rewards::{
    duration_or, easing_indices_spec, find_easing_indicies, number_word, number_word_at,
    read_position, read_positions, read_wide_positions, word_or, zero_number, zero_number_word,
    ArgView, ChatMoveSourceRequest, MoveRequestView, NumberWord, NumberWordView, WideRequestView,
};
use crate::handlers::{is_streamer, is_streamer_name};
use crate::text::{
    opt_view, owned, parse_u64, parse_u64_spec, slice_from, str_eq, views, word_at_spec,
    word_copy,
};
use vstd::prelude::*;

pub use crate::handlers::channel_rewards::{
    build_wide_request, easing_function_match, easing_match, wide_arg_views, WideArgPosition,
    WideArgView, WideRequest,
};

verus! {

/// What the word at one position of an OBS chat command stands for, with
/// the value used when the message is shorter. Positions and angles are
/// given as decimal text; a request keeps them as a `NumberWord`.
pub enum ChatArgPosition {
    Source(String),
    X(String),
    Y(String),
    RotationX(String),
    RotationY(String),
    RotationZ(String),
    Duration(u64),
    EasingType(String),
    EasingFunction(String),
}

impl View for ChatArgPosition {
    type V = ArgView;

    open spec fn view(&self) -> ArgView {
        match self {
            ChatArgPosition::Source(d) => ArgView::Source(d@),
            ChatArgPosition::X(d) => ArgView::X(d@),
            ChatArgPosition::Y(d) => ArgView::Y(d@),
            ChatArgPosition::RotationX(d) => ArgView::RotationX(d@),
            ChatArgPosition::RotationY(d) => ArgView::RotationY(d@),
            ChatArgPosition::RotationZ(d) => ArgView::RotationZ(d@),
            ChatArgPosition::Duration(d) => ArgView::Duration(*d),
            ChatArgPosition::EasingType(d) => ArgView::EasingType(d@),
            ChatArgPosition::EasingFunction(d) => ArgView::EasingFunction(d@),
        }
    }
}

/// The views of a list of argument positions.
pub open spec fn arg_views(args: Seq<ChatArgPosition>) -> Seq<ArgView> {
    args.map_values(|a: ChatArgPosition| a@)
}

/// The scene a source is moved in: "begin" in "Begin", the new camera
/// source in "AIAssets", everything else in "Memes".
pub open spec fn scene_for(source: Seq<char>, new_begin_source: Seq<char>) -> Seq<char> {
    if source == "begin"@ {
        "Begin"@
    } else if source == new_begin_source {
        "AIAssets"@
    } else {
        "Memes"@
    }
}

/// The move request that a chat message asks for.
pub open spec fn move_request_spec(
    words: Seq<Seq<char>>,
    args: Seq<ArgView>,
    new_begin_source: Seq<char>,
) -> MoveRequestView {
    let r = read_positions(words, args);
    let (t, f) = easing_indices_spec(r.easing_type, r.easing_function);
    MoveRequestView {
        scene: scene_for(r.source, new_begin_source),
        easing_type_index: t,
        easing_function_index: f,
        ..r
    }
}

fn copy(s: &String) -> (r: String)
    ensures
        r@ == s@,
{
    owned(s.as_str())
}

fn word_or_copy(words: &Vec<String>, i: usize, d: &String) -> (r: String)
    ensures
        r@ == word_or(views(words@), i as int, d@),
{
    if i < words.len() {
        copy(&words[i])
    } else {
        copy(d)
    }
}

fn duration_or_exec(words: &Vec<String>, i: usize, d: u64) -> (r: u64)
    ensures
        r == duration_or(views(words@), i as int, d),
{
    if i < words.len() {
        match parse_u64(words[i].as_str()) {
            Some(v) => v,
            None => d,
        }
    } else {
        d
    }
}

/// Reads a move request from the words of a chat message (see
/// `channel_rewards::build_chat_move_source_request`); `new_begin_source` is
/// the name of the camera source that lives in the "AIAssets" scene.
pub fn build_chat_move_source_request(
    splitmsg: Vec<String>,
    arg_positions: &[ChatArgPosition],
    new_begin_source: &str,
) -> (req: ChatMoveSourceRequest)
    ensures
        req@ == move_request_spec(views(splitmsg@), arg_views(arg_positions@), new_begin_source@),
{
    let ghost words = views(splitmsg@);
    let mut req = ChatMoveSourceRequest {
        source: String::new(),
        scene: String::new(),
        x: zero_number_word(),
        y: zero_number_word(),
        rotation_z: zero_number_word(),
        duration: 0,
        easing_type: String::new(),
        easing_function: String::new(),
        easing_type_index: 0,
        easing_function_index: 0,
    };
    let mut index: usize = 0;
    while index < arg_positions.len()
        invariant
            index <= arg_positions@.len(),
            words == views(splitmsg@),
            req@ == read_positions(words, arg_views(arg_positions@.take(index as int))),
        decreases arg_positions@.len() - index,
    {
        let ghost before = req@;
        let ghost pre = arg_views(arg_positions@.take(index + 1));
        assert(pre.drop_last() =~= arg_views(arg_positions@.take(index as int)));
        assert(pre.last() == arg_positions@[index as int]@);
        match &arg_positions[index] {
            ChatArgPosition::Source(d) => {
                req.source = word_or_copy(&splitmsg, index, d);
            },
            ChatArgPosition::X(d) => {
                req.x = number_word_at(&splitmsg, index, d);
            },
            ChatArgPosition::Y(d) => {
                req.y = number_word_at(&splitmsg, index, d);
            },
            ChatArgPosition::RotationZ(d) => {
                req.rotation_z = number_word_at(&splitmsg, index, d);
            },
            ChatArgPosition::Duration(d) => {
                req.duration = duration_or_exec(&splitmsg, index, *d);
            },
            ChatArgPosition::EasingType(d) => {
                req.easing_type = word_or_copy(&splitmsg, index, d);
            },
            ChatArgPosition::EasingFunction(d) => {
                req.easing_function = word_or_copy(&splitmsg, index, d);
            },
            _ => {},
        }
        assert(req@ == read_position(before, words, index as int, arg_positions@[index as int]@));
        index = index + 1;
    }
    assert(arg_positions@.take(arg_positions@.len() as int) =~= arg_positions@);
    let (t, f) = find_easing_indicies(copy(&req.easing_type), copy(&req.easing_function));
    req.easing_type_index = t;
    req.easing_function_index = f;
    req.scene = if str_eq(req.source.as_str(), "begin") {
        owned("Begin")
    } else if str_eq(req.source.as_str(), new_begin_source) {
        owned("AIAssets")
    } else {
        owned("Memes")
    };
    req
}

/// A request to twirl a source around its y axis, read from chat.
pub struct TwirlRequest {
    pub source: String,
    /// The rotation around the y axis.
    pub rotation_y: NumberWord,
    pub duration: u64,
    pub easing_type: String,
    pub easing_function: String,
    pub easing_type_index: i32,
    pub easing_function_index: i32,
}

/// The plain-text contents of a twirl request.
pub struct TwirlRequestView {
    pub source: Seq<char>,
    pub rotation_y: NumberWordView,
    pub duration: u64,
    pub easing_type: Seq<char>,
    pub easing_function: Seq<char>,
    pub easing_type_index: i32,
    pub easing_function_index: i32,
}

impl View for TwirlRequest {
    type V = TwirlRequestView;

    open spec fn view(&self) -> TwirlRequestView {
        TwirlRequestView {
            source: self.source@,
            rotation_y: self.rotation_y@,
            duration: self.duration,
            easing_type: self.easing_type@,
            easing_function: self.easing_function@,
            easing_type_index: self.easing_type_index,
            easing_function_index: self.easing_function_index,
        }
    }
}

/// The twirl request after reading argument position `i`.
pub open spec fn read_twirl_position(
    req: TwirlRequestView,
    words: Seq<Seq<char>>,
    i: int,
    arg: ArgView,
) -> TwirlRequestView {
    match arg {
        ArgView::Source(d) => TwirlRequestView { source: word_or(words, i, d), ..req },
        ArgView::RotationY(d) => TwirlRequestView { rotation_y: number_word(words, i, d), ..req },
        ArgView::Duration(d) => TwirlRequestView { duration: duration_or(words, i, d), ..req },
        ArgView::EasingType(d) => TwirlRequestView { easing_type: word_or(words, i, d), ..req },
        ArgView::EasingFunction(d) => TwirlRequestView {
            easing_function: word_or(words, i, d),
            ..req
        },
        _ => req,
    }
}

/// The twirl request after reading the argument positions in order.
pub open spec fn read_twirl_positions(words: Seq<Seq<char>>, args: Seq<ArgView>) -> TwirlRequestView
    decreases args.len(),
{
    if args.len() == 0 {
        TwirlRequestView {
            source: Seq::empty(),
            rotation_y: zero_number(),
            duration: 0,
            easing_type: Seq::empty(),
            easing_function: Seq::empty(),
            easing_type_index: 0,
            easing_function_index: 0,
        }
    } else {
        read_twirl_position(
            read_twirl_positions(words, args.drop_last()),
            words,
            args.len() - 1,
            args.last(),
        )
    }
}

/// The twirl request that a chat message asks for.
pub open spec fn twirl_request_spec(words: Seq<Seq<char>>, args: Seq<ArgView>) -> TwirlRequestView {
    let r = read_twirl_positions(words, args);
    let (t, f) = easing_indices_spec(r.easing_type, r.easing_function);
    TwirlRequestView { easing_type_index: t, easing_function_index: f, ..r }
}

/// Reads a twirl request from the words of a chat message.
pub fn build_chat_twirl_request(splitmsg: Vec<String>, arg_positions: &[ChatArgPosition]) -> (req:
    TwirlRequest)
    ensures
        req@ == twirl_request_spec(views(splitmsg@), arg_views(arg_positions@)),
{
    let ghost words = views(splitmsg@);
    let mut req = TwirlRequest {
        source: String::new(),
        rotation_y: zero_number_word(),
        duration: 0,
        easing_type: String::new(),
        easing_function: String::new(),
        easing_type_index: 0,
        easing_function_index: 0,
    };
    let mut index: usize = 0;
    while index < arg_positions.len()
        invariant
            index <= arg_positions@.len(),
            words == views(splitmsg@),
            req@ == read_twirl_positions(words, arg_views(arg_positions@.take(index as int))),
        decreases arg_positions@.len() - index,
    {
        let ghost before = req@;
        let ghost pre = arg_views(arg_positions@.take(index + 1));
        assert(pre.drop_last() =~= arg_views(arg_positions@.take(index as int)));
        assert(pre.last() == arg_positions@[index as int]@);
        match &arg_positions[index] {
            ChatArgPosition::Source(d) => {
                req.source = word_or_copy(&splitmsg, index, d);
            },
            ChatArgPosition::RotationY(d) => {
                req.rotation_y = number_word_at(&splitmsg, index, d);
            },
            ChatArgPosition::Duration(d) => {
                req.duration = duration_or_exec(&splitmsg, index, *d);
            },
            ChatArgPosition::EasingType(d) => {
                req.easing_type = word_or_copy(&splitmsg, index, d);
            },
            ChatArgPosition::EasingFunction(d) => {
                req.easing_function = word_or_copy(&splitmsg, index, d);
            },
            _ => {},
        }
        assert(req@ == read_twirl_position(
            before,
            words,
            index as int,
            arg_positions@[index as int]@,
        ));
        index = index + 1;
    }
    assert(arg_positions@.take(arg_positions@.len() as int) =~= arg_positions@);
    let (t, f) = find_easing_indicies(copy(&req.easing_type), copy(&req.easing_function));
    req.easing_type_index = t;
    req.easing_function_index = f;
    req
}

// ---------------------------------------------------------------------------
// The commands' argument positions
// ---------------------------------------------------------------------------

/// The positions of `!wide SOURCE WIDTH DURATION`.
pub open spec fn wide_args_spec() -> Seq<WideArgView> {
    seq![WideArgView::Source("begin"@), WideArgView::X("500"@), WideArgView::Duration(3000)]
}

/// The positions of `!spin SPIN_AMOUNT DURATION EASING-TYPE EASING-FUNCTION`.
pub open spec fn spin_args_spec() -> Seq<ArgView> {
    seq![
        ArgView::RotationZ("1080"@),
        ArgView::Duration(3000),
        ArgView::EasingType("ease-in-and-out"@),
        ArgView::EasingFunction("sine"@),
    ]
}

/// The positions of `!move SOURCE X Y DURATION EASING-TYPE EASING-FUNCTION`.
pub open spec fn move_or_scale_args_spec() -> Seq<ArgView> {
    seq![
        ArgView::Source("begin"@),
        ArgView::X("1111"@),
        ArgView::Y("500"@),
        ArgView::Duration(3000),
        ArgView::EasingType("ease-in"@),
        ArgView::EasingFunction("bounce"@),
    ]
}

/// The positions of `!twirl SOURCE ROTATION DURATION EASING-TYPE EASING-FUNCTION`.
pub open spec fn twirl_args_spec() -> Seq<ArgView> {
    seq![
        ArgView::Source("begin"@),
        ArgView::RotationY("360"@),
        ArgView::Duration(3000),
        ArgView::EasingType("ease-in"@),
        ArgView::EasingFunction("bounce"@),
    ]
}

/// `!wide SOURCE WIDTH DURATION`.
pub fn default_wide_args() -> (args: Vec<WideArgPosition>)
    ensures
        wide_arg_views(args@) == wide_args_spec(),
{
    let mut v: Vec<WideArgPosition> = Vec::new();
    v.push(WideArgPosition::Source(owned("begin")));
    v.push(WideArgPosition::X(owned("500")));
    v.push(WideArgPosition::Duration(3000));
    assert(wide_arg_views(v@) =~= wide_args_spec());
    v
}

/// `!spin SPIN_AMOUNT DURATION EASING-TYPE EASING-FUNCTION`.
pub fn default_spin_args() -> (args: Vec<ChatArgPosition>)
    ensures
        arg_views(args@) == spin_args_spec(),
{
    let mut v: Vec<ChatArgPosition> = Vec::new();
    v.push(ChatArgPosition::RotationZ(owned("1080")));
    v.push(ChatArgPosition::Duration(3000));
    v.push(ChatArgPosition::EasingType(owned("ease-in-and-out")));
    v.push(ChatArgPosition::EasingFunction(owned("sine")));
    assert(arg_views(v@) =~= spin_args_spec());
    v
}

/// `!move SOURCE X Y DURATION EASING-TYPE EASING-FUNCTION`.
pub fn default_move_or_scale_args() -> (args: Vec<ChatArgPosition>)
    ensures
        arg_views(args@) == move_or_scale_args_spec(),
{
    let mut v: Vec<ChatArgPosition> = Vec::new();
    v.push(ChatArgPosition::Source(owned("begin")));
    v.push(ChatArgPosition::X(owned("1111")));
    v.push(ChatArgPosition::Y(owned("500")));
    v.push(ChatArgPosition::Duration(3000));
    v.push(ChatArgPosition::EasingType(owned("ease-in")));
    v.push(ChatArgPosition::EasingFunction(owned("bounce")));
    assert(arg_views(v@) =~= move_or_scale_args_spec());
    v
}

/// `!twirl SOURCE ROTATION DURATION EASING-TYPE EASING-FUNCTION`.
pub fn default_twirl_args() -> (args: Vec<ChatArgPosition>)
    ensures
        arg_views(args@) == twirl_args_spec(),
{
    let mut v: Vec<ChatArgPosition> = Vec::new();
    v.push(ChatArgPosition::Source(owned("begin")));
    v.push(ChatArgPosition::RotationY(owned("360")));
    v.push(ChatArgPosition::Duration(3000));
    v.push(ChatArgPosition::EasingType(owned("ease-in")));
    v.push(ChatArgPosition::EasingFunction(owned("bounce")));
    assert(arg_views(v@) =~= twirl_args_spec());
    v
}


// ---------------------------------------------------------------------------
// The commands
// ---------------------------------------------------------------------------

/// What an OBS chat command asks for.
pub enum ObsCommand {
    /// Widen a source with the orthographic 3D transform.
    Wide(WideRequest),
    /// The "nerd" perspective on a source.
    Nerd { source: String },
    /// Store a new default position for a meme: `x` is the word read as
    /// the horizontal position (the command fails when it is no number),
    /// `y` the word read as the vertical one, which falls back to `x` when
    /// it is missing or no number.
    UpdateMeme { source: String, x: String, y: Option<String> },
    /// Reset a source's 3D transforms and move it back to its stored spot.
    Norm { source: String },
    /// The "chad" perspective on a source.
    Chad { source: String },
    /// A scale request (read, then only shown).
    Grow(ChatMoveSourceRequest),
    /// Move a source within a scene over `duration` milliseconds.
    Move { scene: String, source: String, request: ChatMoveSourceRequest, duration: i32 },
    /// Show a filter's settings.
    ShowFilter { filter: String },
    /// Twirl a source around its y axis.
    Twirl { source: String, request: TwirlRequest, duration: i32 },
    /// Spin `source` (always the camera source "begin") around its z axis.
    Spin { source: String, request: ChatMoveSourceRequest, duration: i32 },
    /// Recreate the 3D transform filters of a source.
    CreateFilters { source: String },
    Nothing,
}

/// The source a command names: its second word, else "begin".
pub open spec fn named_source(words: Seq<Seq<char>>) -> Seq<char> {
    word_or(words, 1, "begin"@)
}

/// A duration cut down to 32 bits (what `as i32` keeps).
pub open spec fn duration_as_i32(d: u64) -> i32 {
    d as i32
}

/// A duration as 32 bits when it fits, else 3000.
pub open spec fn duration_or_default(d: u64) -> i32 {
    if d <= i32::MAX as u64 {
        d as i32
    } else {
        3000
    }
}

/// What the words of an OBS chat command ask for, or the error the command
/// reports (`!update_meme` without a position).
pub open spec fn obs_command_spec(
    words: Seq<Seq<char>>,
    is_mod: bool,
    user_name: Seq<char>,
    new_begin_source: Seq<char>,
) -> Result<ObsCommandView, Seq<char>> {
    let command = words[0];
    let source = named_source(words);
    let rest = words.skip(1);
    if command == "!wide"@ {
        Ok(ObsCommandView::Wide(read_wide_positions(rest, wide_args_spec())))
    } else if command == "!nerd"@ {
        Ok(ObsCommandView::Nerd { source })
    } else if command == "!update_meme"@ {
        if !is_mod {
            Ok(ObsCommandView::Nothing)
        } else if words.len() > 2 {
            Ok(ObsCommandView::UpdateMeme { source, x: words[2], y: word_at_spec(words, 3) })
        } else {
            Err("Error Fetching X to update_meme"@)
        }
    } else if command == "!norm"@ {
        Ok(ObsCommandView::Norm { source })
    } else if command == "!chad"@ {
        Ok(ObsCommandView::Chad { source })
    } else if command == "!grow"@ || command == "!scale"@ {
        Ok(
            ObsCommandView::Grow(
                move_request_spec(rest, move_or_scale_args_spec(), new_begin_source),
            ),
        )
    } else if command == "!alex"@ {
        let r = move_request_spec(rest, move_or_scale_args_spec().skip(1), new_begin_source);
        Ok(
            ObsCommandView::Move {
                scene: "memes"@,
                source: "alex"@,
                request: r,
                duration: duration_as_i32(r.duration),
            },
        )
    } else if command == "!begin"@ {
        let r = move_request_spec(rest, move_or_scale_args_spec().skip(1), new_begin_source);
        Ok(
            ObsCommandView::Move {
                scene: "Begin"@,
                source: "begin"@,
                request: r,
                duration: duration_or_default(r.duration),
            },
        )
    } else if command == "!move"@ {
        let r = move_request_spec(rest, move_or_scale_args_spec(), new_begin_source);
        Ok(
            ObsCommandView::Move {
                scene: r.scene,
                source: r.source,
                request: r,
                duration: duration_or_default(r.duration),
            },
        )
    } else if command == "!filter"@ {
        Ok(ObsCommandView::ShowFilter { filter: word_or(words, 1, "3D-Transform-Perspective"@) })
    } else if command == "!twirl"@ {
        let r = twirl_request_spec(rest, twirl_args_spec());
        Ok(ObsCommandView::Twirl { source, request: r, duration: duration_as_i32(r.duration) })
    } else if command == "!spin"@ || command == "!spinx"@ || command == "spiny"@ {
        let r = move_request_spec(rest, spin_args_spec(), new_begin_source);
        Ok(
            ObsCommandView::Spin {
                source: "begin"@,
                request: r,
                duration: duration_as_i32(r.duration),
            },
        )
    } else if command == "!create_filters_for_source"@ {
        if !is_streamer(user_name) {
            Ok(ObsCommandView::Nothing)
        } else {
            Ok(ObsCommandView::CreateFilters { source: word_or(words, 1, "alex"@) })
        }
    } else {
        Ok(ObsCommandView::Nothing)
    }
}

/// An OBS command, as plain text.
pub enum ObsCommandView {
    Wide(WideRequestView),
    Nerd { source: Seq<char> },
    UpdateMeme { source: Seq<char>, x: Seq<char>, y: Option<Seq<char>> },
    Norm { source: Seq<char> },
    Chad { source: Seq<char> },
    Grow(MoveRequestView),
    Move { scene: Seq<char>, source: Seq<char>, request: MoveRequestView, duration: i32 },
    ShowFilter { filter: Seq<char> },
    Twirl { source: Seq<char>, request: TwirlRequestView, duration: i32 },
    Spin { source: Seq<char>, request: MoveRequestView, duration: i32 },
    CreateFilters { source: Seq<char> },
    Nothing,
}

impl View for ObsCommand {
    type V = ObsCommandView;

    open spec fn view(&self) -> ObsCommandView {
        match self {
            ObsCommand::Wide(r) => ObsCommandView::Wide(r@),
            ObsCommand::Nerd { source } => ObsCommandView::Nerd { source: source@ },
            ObsCommand::UpdateMeme { source, x, y } => ObsCommandView::UpdateMeme {
                source: source@,
                x: x@,
                y: opt_view(*y),
            },
            ObsCommand::Norm { source } => ObsCommandView::Norm { source: source@ },
            ObsCommand::Chad { source } => ObsCommandView::Chad { source: source@ },
            ObsCommand::Grow(r) => ObsCommandView::Grow(r@),
            ObsCommand::Move { scene, source, request, duration } => ObsCommandView::Move {
                scene: scene@,
                source: source@,
                request: request@,
                duration: *duration,
            },
            ObsCommand::ShowFilter { filter } => ObsCommandView::ShowFilter { filter: filter@ },
            ObsCommand::Twirl { source, request, duration } => ObsCommandView::Twirl {
                source: source@,
                request: request@,
                duration: *duration,
            },
            ObsCommand::Spin { source, request, duration } => ObsCommandView::Spin {
                source: source@,
                request: request@,
                duration: *duration,
            },
            ObsCommand::CreateFilters { source } => ObsCommandView::CreateFilters {
                source: source@,
            },
            ObsCommand::Nothing => ObsCommandView::Nothing,
        }
    }
}

/// The view of a planned command or its error.
pub open spec fn plan_view(r: Result<ObsCommand, String>) -> Result<ObsCommandView, Seq<char>> {
    match r {
        Ok(c) => Ok(c@),
        Err(e) => Err(e@),
    }
}

pub(crate) fn word_or_lit(words: &Vec<String>, i: usize, d: &str) -> (r: String)
    ensures
        r@ == word_or(views(words@), i as int, d@),
{
    if i < words.len() {
        copy(&words[i])
    } else {
        owned(d)
    }
}

pub(crate) fn to_i32_truncating(d: u64) -> (r: i32)
    ensures
        r == duration_as_i32(d),
{
    d as i32
}

pub(crate) fn to_i32_or_default(d: u64) -> (r: i32)
    ensures
        r == duration_or_default(d),
{
    if d <= i32::MAX as u64 {
        d as i32
    } else {
        3000
    }
}

/// Decides what the words of an OBS chat command ask for. `is_mod` tells
/// whether the sender moderates the channel; `new_begin_source` names the
/// camera source that lives in the "AIAssets" scene.
pub fn handle_obs_commands(
    splitmsg: &Vec<String>,
    is_mod: bool,
    user_name: &str,
    new_begin_source: &str,
) -> (r: Result<ObsCommand, String>)
    requires
        splitmsg@.len() > 0,
    ensures
        plan_view(r) == obs_command_spec(views(splitmsg@), is_mod, user_name@, new_begin_source@),
{
    let ghost words = views(splitmsg@);
    assert(words[0] == splitmsg@[0]@);
    let source = word_or_lit(splitmsg, 1, "begin");
    let rest = slice_from(splitmsg, 1);
    assert(views(rest@) =~= words.skip(1));
    let command = splitmsg[0].as_str();
    if str_eq(command, "!wide") {
        let req = match build_wide_request(rest, default_wide_args()) {
            Ok(r) => r,
            Err(e) => {
                return Err(e);
            },
        };
        Ok(ObsCommand::Wide(req))
    } else if str_eq(command, "!nerd") {
        Ok(ObsCommand::Nerd { source })
    } else if str_eq(command, "!update_meme") {
        if !is_mod {
            Ok(ObsCommand::Nothing)
        } else {
            match word_copy(splitmsg, 2) {
                Some(x) => Ok(ObsCommand::UpdateMeme { source, x, y: word_copy(splitmsg, 3) }),
                None => Err(owned("Error Fetching X to update_meme")),
            }
        }
    } else if str_eq(command, "!norm") {
        Ok(ObsCommand::Norm { source })
    } else if str_eq(command, "!chad") {
        Ok(ObsCommand::Chad { source })
    } else if str_eq(command, "!grow") || str_eq(command, "!scale") {
        let args = default_move_or_scale_args();
        let req = build_chat_move_source_request(rest, args.as_slice(), new_begin_source);
        Ok(ObsCommand::Grow(req))
    } else if str_eq(command, "!alex") || str_eq(command, "!begin") {
        let mut args = default_move_or_scale_args();
        args.remove(0);
        assert(arg_views(args@) =~= move_or_scale_args_spec().skip(1));
        let req = build_chat_move_source_request(rest, args.as_slice(), new_begin_source);
        if str_eq(command, "!alex") {
            let duration = to_i32_truncating(req.duration);
            Ok(ObsCommand::Move { scene: owned("memes"), source: owned("alex"), request: req, duration })
        } else {
            let duration = to_i32_or_default(req.duration);
            Ok(ObsCommand::Move { scene: owned("Begin"), source: owned("begin"), request: req, duration })
        }
    } else if str_eq(command, "!move") {
        let args = default_move_or_scale_args();
        let req = build_chat_move_source_request(rest, args.as_slice(), new_begin_source);
        let duration = to_i32_or_default(req.duration);
        let scene = copy(&req.scene);
        let src = copy(&req.source);
        Ok(ObsCommand::Move { scene, source: src, request: req, duration })
    } else if str_eq(command, "!filter") {
        Ok(ObsCommand::ShowFilter { filter: word_or_lit(splitmsg, 1, "3D-Transform-Perspective") })
    } else if str_eq(command, "!twirl") {
        let args = default_twirl_args();
        let req = build_chat_twirl_request(rest, args.as_slice());
        let duration = to_i32_truncating(req.duration);
        Ok(ObsCommand::Twirl { source, request: req, duration })
    } else if str_eq(command, "!spin") || str_eq(command, "!spinx") || str_eq(command, "spiny") {
        let args = default_spin_args();
        let req = build_chat_move_source_request(rest, args.as_slice(), new_begin_source);
        let duration = to_i32_truncating(req.duration);
        Ok(ObsCommand::Spin { source: owned("begin"), request: req, duration })
    } else if str_eq(command, "!create_filters_for_source") {
        if !is_streamer_name(user_name) {
            Ok(ObsCommand::Nothing)
        } else {
            Ok(ObsCommand::CreateFilters { source: word_or_lit(splitmsg, 1, "alex") })
        }
    } else {
        Ok(ObsCommand::Nothing)
    }
}

/// Only moderators store meme positions, and only the streamer recreates a
/// source's filters.
pub proof fn obs_privileges(
    words: Seq<Seq<char>>,
    is_mod: bool,
    user_name: Seq<char>,
    new_begin_source: Seq<char>,
)
    requires
        words.len() > 0,
    ensures
        obs_command_spec(words, is_mod, user_name, new_begin_source) matches Ok(c) ==> {
            &&& c is UpdateMeme ==> is_mod
            &&& c is CreateFilters ==> is_streamer(user_name)
        },
{
}


/// The word a chat command gives at `i`, if the message has one.
pub open spec fn given_word(words: Seq<Seq<char>>, i: int) -> Option<Seq<char>> {
    if 0 <= i < words.len() {
        Some(words[i])
    } else {
        None
    }
}

/// The word at `i`, or `d` when the message has none there.
pub open spec fn given_or(words: Seq<Seq<char>>, i: int, d: Seq<char>) -> Seq<char> {
    if 0 <= i < words.len() {
        words[i]
    } else {
        d
    }
}

/// The number a chat command gives at `i`, with `d` beside it.
pub open spec fn given_number(words: Seq<Seq<char>>, i: int, d: Seq<char>) -> NumberWordView {
    NumberWordView { word: given_word(words, i), default: d }
}

/// The duration at `i`: the word's value when it is a whole number of
/// milliseconds, else `d`.
pub open spec fn given_duration(words: Seq<Seq<char>>, i: int, d: u64) -> u64 {
    if 0 <= i < words.len() && parse_u64_spec(words[i]) is Some {
        parse_u64_spec(words[i])->0
    } else {
        d
    }
}

/// `SOURCE X Y DURATION EASING-TYPE EASING-FUNCTION`: the words after a
/// move command are read in this order, each with its default (`begin`,
/// 1111, 500, 3000 ms, `ease-in`, `bounce`); the rotation is not set, and
/// the easing codes are those of the easing names. Without the source
/// (`!alex`, `!begin`) the other words move one place forward.
pub proof fn move_words_in_order(rest: Seq<Seq<char>>, new_begin_source: Seq<char>)
    ensures
        ({
            let r = move_request_spec(rest, move_or_scale_args_spec(), new_begin_source);
            &&& r.source == given_or(rest, 0, "begin"@)
            &&& r.x == given_number(rest, 1, "1111"@)
            &&& r.y == given_number(rest, 2, "500"@)
            &&& r.rotation_z == zero_number()
            &&& r.duration == given_duration(rest, 3, 3000)
            &&& r.easing_type == given_or(rest, 4, "ease-in"@)
            &&& r.easing_function == given_or(rest, 5, "bounce"@)
            &&& (r.easing_type_index, r.easing_function_index) == easing_indices_spec(
                r.easing_type,
                r.easing_function,
            )
        }),
        ({
            let r = move_request_spec(rest, move_or_scale_args_spec().skip(1), new_begin_source);
            &&& r.x == given_number(rest, 0, "1111"@)
            &&& r.y == given_number(rest, 1, "500"@)
            &&& r.duration == given_duration(rest, 2, 3000)
            &&& r.easing_type == given_or(rest, 3, "ease-in"@)
            &&& r.easing_function == given_or(rest, 4, "bounce"@)
        }),
{
    reveal_with_fuel(read_positions, 7);
    let a = move_or_scale_args_spec();
    assert(a.drop_last() =~= seq![a[0], a[1], a[2], a[3], a[4]]);
    assert(a.drop_last().drop_last() =~= seq![a[0], a[1], a[2], a[3]]);
    assert(a.drop_last().drop_last().drop_last() =~= seq![a[0], a[1], a[2]]);
    assert(a.drop_last().drop_last().drop_last().drop_last() =~= seq![a[0], a[1]]);
    assert(a.drop_last().drop_last().drop_last().drop_last().drop_last() =~= seq![a[0]]);
    assert(seq![a[0]].drop_last() =~= Seq::<ArgView>::empty());
    let b = a.skip(1);
    assert(b =~= seq![a[1], a[2], a[3], a[4], a[5]]);
    assert(b.drop_last() =~= seq![a[1], a[2], a[3], a[4]]);
    assert(b.drop_last().drop_last() =~= seq![a[1], a[2], a[3]]);
    assert(b.drop_last().drop_last().drop_last() =~= seq![a[1], a[2]]);
    assert(b.drop_last().drop_last().drop_last().drop_last() =~= seq![a[1]]);
    assert(seq![a[1]].drop_last() =~= Seq::<ArgView>::empty());
}

/// `!spin SPIN_AMOUNT DURATION EASING-TYPE EASING-FUNCTION`: the words after
/// the command are read in this order, each with its default (1080, 3000
/// ms, `ease-in-and-out`, `sine`); no source or position is read.
pub proof fn spin_words_in_order(rest: Seq<Seq<char>>, new_begin_source: Seq<char>)
    ensures
        ({
            let r = move_request_spec(rest, spin_args_spec(), new_begin_source);
            &&& r.rotation_z == given_number(rest, 0, "1080"@)
            &&& r.duration == given_duration(rest, 1, 3000)
            &&& r.easing_type == given_or(rest, 2, "ease-in-and-out"@)
            &&& r.easing_function == given_or(rest, 3, "sine"@)
            &&& r.x == zero_number() && r.y == zero_number()
            &&& r.source == Seq::<char>::empty()
            &&& (r.easing_type_index, r.easing_function_index) == easing_indices_spec(
                r.easing_type,
                r.easing_function,
            )
        }),
{
    reveal_with_fuel(read_positions, 5);
    let a = spin_args_spec();
    assert(a.drop_last() =~= seq![a[0], a[1], a[2]]);
    assert(a.drop_last().drop_last() =~= seq![a[0], a[1]]);
    assert(a.drop_last().drop_last().drop_last() =~= seq![a[0]]);
    assert(seq![a[0]].drop_last() =~= Seq::<ArgView>::empty());
}

/// `!twirl SOURCE ROTATION DURATION EASING-TYPE EASING-FUNCTION`: the words
/// after the command are read in this order, each with its default
/// (`begin`, 360, 3000 ms, `ease-in`, `bounce`).
pub proof fn twirl_words_in_order(rest: Seq<Seq<char>>)
    ensures
        ({
            let r = twirl_request_spec(rest, twirl_args_spec());
            &&& r.source == given_or(rest, 0, "begin"@)
            &&& r.rotation_y == given_number(rest, 1, "360"@)
            &&& r.duration == given_duration(rest, 2, 3000)
            &&& r.easing_type == given_or(rest, 3, "ease-in"@)
            &&& r.easing_function == given_or(rest, 4, "bounce"@)
        }),
{
    reveal_with_fuel(read_twirl_positions, 6);
    let a = twirl_args_spec();
    assert(a.drop_last() =~= seq![a[0], a[1], a[2], a[3]]);
    assert(a.drop_last().drop_last() =~= seq![a[0], a[1], a[2]]);
    assert(a.drop_last().drop_last().drop_last() =~= seq![a[0], a[1]]);
    assert(a.drop_last().drop_last().drop_last().drop_last() =~= seq![a[0]]);
    assert(seq![a[0]].drop_last() =~= Seq::<ArgView>::empty());
}


/// The OBS commands read their words in place: `!move SOURCE X Y DURATION
/// EASING-TYPE EASING-FUNCTION` (and `!grow`, `!scale`) move the named
/// source, `!alex X Y ...` and `!begin X Y ...` move alex and the camera
/// source, `!spin SPIN_AMOUNT DURATION ...` spins `begin`, `!twirl SOURCE
/// ROTATION ...` twirls, and `!update_meme SOURCE X Y` stores x and y for a
/// moderator; `!nerd`, `!norm` and `!chad` act on the named source.
pub proof fn obs_commands_read_their_words(
    words: Seq<Seq<char>>,
    is_mod: bool,
    user_name: Seq<char>,
    new_begin_source: Seq<char>,
)
    requires
        words.len() > 0,
    ensures
        ({
            let r = obs_command_spec(words, is_mod, user_name, new_begin_source);
            let named = given_or(words, 1, "begin"@);
            &&& words[0] == "!move"@ ==> (r matches Ok(
                ObsCommandView::Move { scene, source, request, duration },
            ) && source == named && scene == request.scene && request.source == named && request.x
                == given_number(words, 2, "1111"@) && request.y == given_number(words, 3, "500"@)
                && request.duration == given_duration(words, 4, 3000) && request.easing_type
                == given_or(words, 5, "ease-in"@) && request.easing_function == given_or(
                words,
                6,
                "bounce"@,
            ) && duration == (if request.duration <= i32::MAX {
                request.duration as i32
            } else {
                3000i32
            }))
            &&& (words[0] == "!grow"@ || words[0] == "!scale"@) ==> (r matches Ok(
                ObsCommandView::Grow(request),
            ) && request.source == named && request.x == given_number(words, 2, "1111"@)
                && request.y == given_number(words, 3, "500"@))
            &&& (words[0] == "!alex"@ || words[0] == "!begin"@) ==> (r matches Ok(
                ObsCommandView::Move { source, request, .. },
            ) && source == (if words[0] == "!alex"@ {
                "alex"@
            } else {
                "begin"@
            }) && request.x == given_number(words, 1, "1111"@) && request.y == given_number(
                words,
                2,
                "500"@,
            ) && request.duration == given_duration(words, 3, 3000))
            &&& (words[0] == "!spin"@ || words[0] == "!spinx"@ || words[0] == "spiny"@) ==> (r matches Ok(
                ObsCommandView::Spin { source, request, duration },
            ) && source == "begin"@ && request.rotation_z == given_number(words, 1, "1080"@)
                && request.duration == given_duration(words, 2, 3000) && duration
                == request.duration as i32 && request.easing_type == given_or(
                words,
                3,
                "ease-in-and-out"@,
            ) && request.easing_function == given_or(words, 4, "sine"@))
            &&& words[0] == "!twirl"@ ==> (r matches Ok(ObsCommandView::Twirl { request, .. })
                && request.source == named && request.rotation_y == given_number(words, 2, "360"@)
                && request.duration == given_duration(words, 3, 3000))
            &&& words[0] == "!update_meme"@ && is_mod && words.len() > 2 ==> r == Ok::<
                ObsCommandView,
                Seq<char>,
            >(ObsCommandView::UpdateMeme { source: named, x: words[2], y: given_word(words, 3) })
            &&& words[0] == "!update_meme"@ && !is_mod ==> r == Ok::<ObsCommandView, Seq<char>>(
                ObsCommandView::Nothing,
            )
            &&& words[0] == "!nerd"@ ==> r == Ok::<ObsCommandView, Seq<char>>(
                ObsCommandView::Nerd { source: named },
            )
            &&& words[0] == "!norm"@ ==> r == Ok::<ObsCommandView, Seq<char>>(
                ObsCommandView::Norm { source: named },
            )
            &&& words[0] == "!chad"@ ==> r == Ok::<ObsCommandView, Seq<char>>(
                ObsCommandView::Chad { source: named },
            )
        }),
{
    reveal_strlit("!wide");
    reveal_strlit("!nerd");
    reveal_strlit("!update_meme");
    reveal_strlit("!norm");
    reveal_strlit("!chad");
    reveal_strlit("!grow");
    reveal_strlit("!scale");
    reveal_strlit("!alex");
    reveal_strlit("!begin");
    reveal_strlit("!move");
    reveal_strlit("!filter");
    reveal_strlit("!twirl");
    reveal_strlit("!spin");
    reveal_strlit("!spinx");
    reveal_strlit("spiny");
    reveal_strlit("!create_filters_for_source");
    assert("!wide"@.len() == 5 && "!wide"@[1] == 'w' && "!wide"@[2] == 'i');
    assert("!nerd"@.len() == 5 && "!nerd"@[1] == 'n' && "!nerd"@[2] == 'e');
    assert("!update_meme"@.len() == 12 && "!update_meme"@[1] == 'u' && "!update_meme"@[2] == 'p');
    assert("!norm"@.len() == 5 && "!norm"@[1] == 'n' && "!norm"@[2] == 'o');
    assert("!chad"@.len() == 5 && "!chad"@[1] == 'c' && "!chad"@[2] == 'h');
    assert("!grow"@.len() == 5 && "!grow"@[1] == 'g' && "!grow"@[2] == 'r');
    assert("!scale"@.len() == 6 && "!scale"@[1] == 's' && "!scale"@[2] == 'c');
    assert("!alex"@.len() == 5 && "!alex"@[1] == 'a' && "!alex"@[2] == 'l');
    assert("!begin"@.len() == 6 && "!begin"@[1] == 'b' && "!begin"@[2] == 'e');
    assert("!move"@.len() == 5 && "!move"@[1] == 'm' && "!move"@[2] == 'o');
    assert("!filter"@.len() == 7 && "!filter"@[1] == 'f' && "!filter"@[2] == 'i');
    assert("!twirl"@.len() == 6 && "!twirl"@[1] == 't' && "!twirl"@[2] == 'w');
    assert("!spin"@.len() == 5 && "!spin"@[1] == 's' && "!spin"@[2] == 'p');
    assert("!spinx"@.len() == 6 && "!spinx"@[1] == 's' && "!spinx"@[2] == 'p');
    assert("spiny"@.len() == 5 && "spiny"@[1] == 'p' && "spiny"@[2] == 'i');
    assert("!create_filters_for_source"@.len() == 26 && "!create_filters_for_source"@[1] == 'c' && "!create_filters_for_source"@[2] == 'r');
    let rest = words.skip(1);
    move_words_in_order(rest, new_begin_source);
    spin_words_in_order(rest, new_begin_source);
    twirl_words_in_order(rest);
    assert forall|i: int| 0 <= i < rest.len() implies #[trigger] rest[i] == words[i + 1] by {}
    assert(forall|i: int| #![trigger given_word(rest, i)] 0 <= i ==> given_word(rest, i) == given_word(words, i + 1));
    assert(forall|i: int, d: Seq<char>| #![trigger given_or(rest, i, d)] 0 <= i ==> given_or(rest, i, d) == given_or(words, i + 1, d));
    assert(forall|i: int, d: Seq<char>| #![trigger given_number(rest, i, d)] 0 <= i ==> given_number(rest, i, d) == given_number(words, i + 1, d));
    assert(forall|i: int, d: u64| #![trigger given_duration(rest, i, d)] 0 <= i ==> given_duration(rest, i, d) == given_duration(words, i + 1, d));
}


/// `!wide SOURCE WIDTH DURATION`: the words after the command are read in
/// this order; the source defaults to `begin`, the width and the duration
/// are only set by a word that is there (a duration that is no whole number
/// of milliseconds is 3000), and the scene is not set.
pub proof fn wide_words_in_order(rest: Seq<Seq<char>>)
    ensures
        ({
            let r = read_wide_positions(rest, wide_args_spec());
            &&& r.source == given_or(rest, 0, "begin"@)
            &&& r.x == given_word(rest, 1)
            &&& r.duration == (if rest.len() > 2 {
                given_duration(rest, 2, 3000)
            } else {
                0
            })
            &&& r.scene == Seq::<char>::empty()
        }),
{
    reveal_with_fuel(read_wide_positions, 4);
    let a = wide_args_spec();
    assert(a.drop_last() =~= seq![a[0], a[1]]);
    assert(a.drop_last().drop_last() =~= seq![a[0]]);
    assert(seq![a[0]].drop_last() =~= Seq::<WideArgView>::empty());
}


/// `!wide SOURCE WIDTH DURATION` widens the source named after the command
/// (else `begin`) by the width word given.
pub proof fn wide_reads_its_words(
    words: Seq<Seq<char>>,
    is_mod: bool,
    user_name: Seq<char>,
    new_begin_source: Seq<char>,
)
    requires
        words.len() > 0,
    ensures
        words[0] == "!wide"@ ==> (obs_command_spec(words, is_mod, user_name, new_begin_source) matches Ok(ObsCommandView::Wide(w)) && w.source
            == given_or(words, 1, "begin"@) && w.x == given_word(words, 2) && w.duration == (if words.len()
            > 3 {
            given_duration(words, 3, 3000)
        } else {
            0
        })),
{
    reveal_strlit("!wide");
    assert("!wide"@.len() == 5);
    let rest = words.skip(1);
    wide_words_in_order(rest);
    assert forall|i: int| 0 <= i < rest.len() implies #[trigger] rest[i] == words[i + 1] by {}
}

} // verus!
