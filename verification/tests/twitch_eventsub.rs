use subd::handlers::twitch_eventsub_handler::{
    css_song_id, eventsub_action, handle_channel_rewards_request, scene_prompt, uuid_value,
    Condition, EventSubAction, EventSubRoot, RedemptionAction, Subscription, Transport,
};

#[test]
fn test_uuid_parsing() {
    let uuid_str = "ba11ad0f-dad5-c001-c001-700bac001e57";
    assert!(uuid_value(uuid_str).is_some());
}

#[test]
fn uuid_value_reads_the_number() {
    assert_eq!(uuid_value("ba11ad0f-dad5-c001-c001-700bac001e57"), Some(0xba11ad0fdad5c001c001700bac001e57));
    assert_eq!(uuid_value("not-a-uuid"), None);
}

fn root(challenge: Option<&str>, type_field: &str, with_event: bool) -> EventSubRoot {
    EventSubRoot {
        subscription: Subscription {
            id: "1".to_string(),
            status: "enabled".to_string(),
            type_field: type_field.to_string(),
            version: "1".to_string(),
            condition: Condition { broadcaster_user_id: "b".to_string(), reward_id: "r".to_string() },
            transport: Transport { method: "webhook".to_string(), callback: None },
            created_at: "now".to_string(),
        },
        event: if with_event {
            Some(subd::handlers::twitch_eventsub_handler::SubEvent {
                id: 1,
                user_id: "u".to_string(),
                user_login: "u".to_string(),
                user_name: "u".to_string(),
                broadcaster_user_id: "b".to_string(),
                broadcaster_user_login: "b".to_string(),
                broadcaster_user_name: "b".to_string(),
                title: None,
                tier: None,
                is_gift: None,
                reward: None,
                user_input: None,
            })
        } else {
            None
        },
        challenge: challenge.map(|c| c.to_string()),
    }
}

#[test]
fn challenge_is_answered_first() {
    let r = root(Some("abc"), "channel.channel_points_custom_reward_redemption.add", true);
    assert!(matches!(eventsub_action(&r), EventSubAction::Challenge(c) if c == "abc"));
}

#[test]
fn redemptions_are_handled_and_other_events_ignored() {
    let r = root(None, "channel.channel_points_custom_reward_redemption.add", true);
    assert!(matches!(eventsub_action(&r), EventSubAction::Redemption));
    let r = root(None, "channel.follow", true);
    assert!(matches!(eventsub_action(&r), EventSubAction::Ignore));
    let r = root(None, "channel.channel_points_custom_reward_redemption.add", false);
    assert!(matches!(eventsub_action(&r), EventSubAction::Ignore));
}

#[test]
fn redemption_actions() {
    assert!(matches!(
        handle_channel_rewards_request("Generate new AI CSS", Some("blue".to_string())),
        RedemptionAction::GenerateAiCss { user_input } if user_input == "blue"
    ));
    assert!(matches!(
        handle_channel_rewards_request("Set Theme", None),
        RedemptionAction::SetTheme { user_input } if user_input.is_empty()
    ));
    assert!(matches!(
        handle_channel_rewards_request("Ask Melkey a Question", Some("why?".to_string())),
        RedemptionAction::AiScene { title, user_input } if title == "Ask Melkey a Question" && user_input == "why?"
    ));
}

#[test]
fn css_song_falls_back_to_the_second_last_played() {
    assert_eq!(css_song_id(Some("cur".to_string()), &vec![]), Ok("cur".to_string()));
    assert_eq!(css_song_id(None, &vec!["a".to_string(), "b".to_string()]), Ok("b".to_string()));
    assert_eq!(css_song_id(None, &vec!["a".to_string()]), Err("No song found".to_string()));
}

#[test]
fn scene_prompt_needs_an_image_generator() {
    assert_eq!(scene_prompt("A cat", "in space", true, false), Some("A cat in space".to_string()));
    assert_eq!(scene_prompt("A cat", "in space", false, true), Some("A cat in space".to_string()));
    assert_eq!(scene_prompt("A cat", "in space", false, false), None);
}
