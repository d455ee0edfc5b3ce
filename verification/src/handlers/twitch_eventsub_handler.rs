//! Twitch EventSub notifications: answering the subscription challenge and
//! turning channel point redemptions into AI scenes, themes and styles.
use crate::deps::{parse_uuid, uuid_text_value};
use crate::text::{concat3, owned, str_eq};
use vstd::prelude::*;

verus! {

/// The EventSub subscription a notification belongs to.
pub struct Subscription {
    pub id: String,
    pub status: String,
    pub type_field: String,
    pub version: String,
    pub condition: Condition,
    pub transport: Transport,
    pub created_at: String,
}

/// What a subscription listens for.
pub struct Condition {
    pub broadcaster_user_id: String,
    pub reward_id: String,
}

/// How a subscription's notifications are delivered.
pub struct Transport {
    pub method: String,
    pub callback: Option<String>,
}

/// The channel point reward that was redeemed; `id` is its UUID as a
/// 128-bit value.
pub struct Reward {
    pub title: String,
    pub cost: i32,
    pub id: u128,
}

/// A notification's event; `id` is the redemption's UUID as a 128-bit
/// value.
pub struct SubEvent {
    pub id: u128,
    pub user_id: String,
    pub user_login: String,
    pub user_name: String,
    pub broadcaster_user_id: String,
    pub broadcaster_user_login: String,
    pub broadcaster_user_name: String,
    pub title: Option<String>,
    pub tier: Option<String>,
    pub is_gift: Option<bool>,
    pub reward: Option<Reward>,
    pub user_input: Option<String>,
}

/// The body of an EventSub request.
pub struct EventSubRoot {
    pub subscription: Subscription,
    pub event: Option<SubEvent>,
    pub challenge: Option<String>,
}

/// The 128-bit value of the UUID written in `text` (the id of a reward or
/// of a redemption), if the text is one.
pub fn uuid_value(text: &str) -> (r: Option<u128>)
    ensures
        r == uuid_text_value(text@),
{
    parse_uuid(text)
}

/// What to do with an EventSub request.
pub enum EventSubAction {
    /// Answer the verification challenge with its text.
    Challenge(String),
    /// Handle the channel point redemption.
    Redemption,
    /// Nothing to handle.
    Ignore,
}

/// The subscription type of channel point redemptions.
pub open spec fn redemption_type() -> Seq<char> {
    "channel.channel_points_custom_reward_redemption.add"@
}

/// Decides what an EventSub request asks for: a challenge is answered
/// first; an event is handled when it is a channel point redemption.
pub fn eventsub_action(root: &EventSubRoot) -> (r: EventSubAction)
    ensures
        match r {
            EventSubAction::Challenge(c) => root.challenge matches Some(rc) && c@ == rc@,
            EventSubAction::Redemption => root.challenge is None && root.event is Some
                && root.subscription.type_field@ == redemption_type(),
            EventSubAction::Ignore => root.challenge is None && (root.event is None
                || root.subscription.type_field@ != redemption_type()),
        },
{
    match &root.challenge {
        Some(c) => EventSubAction::Challenge(c.clone()),
        None => {
            if root.event.is_some() && str_eq(
                root.subscription.type_field.as_str(),
                "channel.channel_points_custom_reward_redemption.add",
            ) {
                EventSubAction::Redemption
            } else {
                EventSubAction::Ignore
            }
        },
    }
}

/// What a channel point redemption asks for.
pub enum RedemptionAction {
    /// Generate new styles for the stream page from the chatter's text.
    GenerateAiCss { user_input: String },
    /// Set the AI background theme to the chatter's text.
    SetTheme { user_input: String },
    /// Run the AI scene of the reward `title` with the chatter's text.
    AiScene { title: String, user_input: String },
}

/// A redemption action, as plain text.
pub enum RedemptionActionView {
    GenerateAiCss { user_input: Seq<char> },
    SetTheme { user_input: Seq<char> },
    AiScene { title: Seq<char>, user_input: Seq<char> },
}

impl View for RedemptionAction {
    type V = RedemptionActionView;

    open spec fn view(&self) -> RedemptionActionView {
        match self {
            RedemptionAction::GenerateAiCss { user_input } => RedemptionActionView::GenerateAiCss {
                user_input: user_input@,
            },
            RedemptionAction::SetTheme { user_input } => RedemptionActionView::SetTheme {
                user_input: user_input@,
            },
            RedemptionAction::AiScene { title, user_input } => RedemptionActionView::AiScene {
                title: title@,
                user_input: user_input@,
            },
        }
    }
}

/// What redeeming the reward `title` with the text `user_input` does.
pub open spec fn redemption_action_spec(title: Seq<char>, user_input: Seq<char>) -> RedemptionActionView {
    if title == "Generate new AI CSS"@ {
        RedemptionActionView::GenerateAiCss { user_input }
    } else if title == "Set Theme"@ {
        RedemptionActionView::SetTheme { user_input }
    } else {
        RedemptionActionView::AiScene { title, user_input }
    }
}

/// Decides what redeeming the reward `title` with the chatter's text does;
/// a redemption without text counts as empty text.
pub fn handle_channel_rewards_request(title: &str, user_input: Option<String>) -> (r:
    RedemptionAction)
    ensures
        r@ == redemption_action_spec(
            title@,
            match crate::text::opt_view(user_input) {
                Some(t) => t,
                None => Seq::empty(),
            },
        ),
{
    let input = match user_input {
        Some(t) => t,
        None => String::new(),
    };
    if str_eq(title, "Generate new AI CSS") {
        RedemptionAction::GenerateAiCss { user_input: input }
    } else if str_eq(title, "Set Theme") {
        RedemptionAction::SetTheme { user_input: input }
    } else {
        RedemptionAction::AiScene { title: owned(title), user_input: input }
    }
}

/// The song whose page gets new styles: the song playing, else the second
/// of the songs played last (the lookup asks for one song, so there is
/// none).
pub open spec fn css_song_id_spec(current: Option<Seq<char>>, last_played: Seq<Seq<char>>) -> Result<
    Seq<char>,
    Seq<char>,
> {
    match current {
        Some(id) => Ok(id),
        None => if last_played.len() > 1 {
            Ok(last_played[1])
        } else {
            Err("No song found"@)
        },
    }
}

/// The song whose page gets new styles, from the song playing (if any) and
/// the songs played last.
pub fn css_song_id(current: Option<String>, last_played: &Vec<String>) -> (r: Result<String, String>)
    ensures
        match r {
            Ok(id) => css_song_id_spec(
                crate::text::opt_view(current),
                crate::text::views(last_played@),
            ) == Ok::<Seq<char>, Seq<char>>(id@),
            Err(e) => css_song_id_spec(
                crate::text::opt_view(current),
                crate::text::views(last_played@),
            ) == Err::<Seq<char>, Seq<char>>(e@),
        },
{
    match current {
        Some(id) => Ok(id),
        None => {
            if last_played.len() > 1 {
                assert(crate::text::views(last_played@)[1] == last_played@[1]@);
                Ok(owned(last_played[1].as_str()))
            } else {
                Err(owned("No song found"))
            }
        },
    }
}

/// The image prompt of an AI scene: the scene's base prompt and the
/// chatter's text, when an image generator is on.
pub open spec fn scene_prompt_spec(
    base_dalle_prompt: Seq<char>,
    user_input: Seq<char>,
    enable_dalle: bool,
    enable_stable_diffusion: bool,
) -> Option<Seq<char>> {
    if enable_dalle || enable_stable_diffusion {
        Some(base_dalle_prompt + " "@ + user_input)
    } else {
        None
    }
}

/// The image prompt of an AI scene run with the chatter's text.
pub fn scene_prompt(
    base_dalle_prompt: &str,
    user_input: &str,
    enable_dalle: bool,
    enable_stable_diffusion: bool,
) -> (r: Option<String>)
    ensures
        crate::text::opt_view(r) == scene_prompt_spec(
            base_dalle_prompt@,
            user_input@,
            enable_dalle,
            enable_stable_diffusion,
        ),
{
    if enable_dalle || enable_stable_diffusion {
        Some(concat3(base_dalle_prompt, " ", user_input))
    } else {
        None
    }
}


/// A redemption always carries the chatter's text unchanged: the reward
/// "Generate new AI CSS" restyles, "Set Theme" sets the theme, and any
/// other reward runs the AI scene of that title. The scene's image prompt
/// is its base prompt, a space and the chatter's text, and there is none
/// while both image generators are off. The song restyled is the one
/// playing, else the second of those played last.
pub proof fn redemptions_keep_the_text(
    title: Seq<char>,
    user_input: Seq<char>,
    base: Seq<char>,
    enable_dalle: bool,
    enable_stable_diffusion: bool,
    current: Option<Seq<char>>,
    last_played: Seq<Seq<char>>,
)
    ensures
        ({
            let a = redemption_action_spec(title, user_input);
            &&& title == "Generate new AI CSS"@ ==> a == (RedemptionActionView::GenerateAiCss {
                user_input,
            })
            &&& title == "Set Theme"@ ==> a == (RedemptionActionView::SetTheme { user_input })
            &&& title != "Generate new AI CSS"@ && title != "Set Theme"@ ==> a == (
            RedemptionActionView::AiScene { title, user_input })
            &&& (enable_dalle || enable_stable_diffusion) ==> scene_prompt_spec(
                base,
                user_input,
                enable_dalle,
                enable_stable_diffusion,
            ) == Some(base + " "@ + user_input)
            &&& !enable_dalle && !enable_stable_diffusion ==> scene_prompt_spec(
                base,
                user_input,
                enable_dalle,
                enable_stable_diffusion,
            ) is None
            &&& current is Some ==> css_song_id_spec(current, last_played) == Ok::<
                Seq<char>,
                Seq<char>,
            >(current->0)
            &&& current is None && last_played.len() > 1 ==> css_song_id_spec(current, last_played)
                == Ok::<Seq<char>, Seq<char>>(last_played[1])
            &&& current is None && last_played.len() <= 1 ==> css_song_id_spec(
                current,
                last_played,
            ) is Err
        }),
{
    reveal_strlit("Generate new AI CSS");
    reveal_strlit("Set Theme");
    assert("Generate new AI CSS"@.len() == 19);
    assert("Set Theme"@.len() == 9);
}

} // verus!
