use subd::handlers::channel_rewards::{
    bootstrap_rewards, chunk_string, find_easing_indicies, flash_sale_message, pick_flash_sale_title,
    handle_obs_commands, build_chat_move_source_request, ChatArgPosition, RewardCommand,
};

fn words(s: &str) -> Vec<String> {
    s.split(' ').map(|w| w.to_string()).collect()
}

#[test]
fn test_chunk_string() {
    let input = "hello, now";
    let strs = chunk_string(input, 4);
    assert_eq!(strs[0], "hello,");
    assert_eq!(strs[1], " now");
    assert_eq!(strs.len(), 2);
}

#[test]
fn test_easing_index() {
    let res = find_easing_indicies("ease-in".to_string(), "bounce".to_string());
    assert_eq!(res, (1, 9));
}

#[test]
fn chunks_give_back_the_message() {
    let input = "one, two, three, four, five";
    let chunks = chunk_string(input, 6);
    assert_eq!(chunks.concat(), input);
    assert_eq!(chunks, vec!["one, two,", " three,", " four,", " five"]);
}

#[test]
fn chunk_without_commas_is_whole_message() {
    assert_eq!(chunk_string("no commas here", 3), vec!["no commas here"]);
    assert!(chunk_string("", 3).is_empty());
}

#[test]
fn unknown_easing_names_count_as_one() {
    assert_eq!(find_easing_indicies("sideways".to_string(), "wobbly".to_string()), (1, 1));
    assert_eq!(find_easing_indicies("nothing".to_string(), "back".to_string()), (0, 10));
}

#[test]
fn reward_commands_are_the_streamers() {
    assert!(matches!(handle_obs_commands(&words("!flash_sale"), "beginbot"), RewardCommand::FlashSale));
    assert!(matches!(
        handle_obs_commands(&words("!bootstrap_rewards"), "beginbotbot"),
        RewardCommand::BootstrapRewards
    ));
    assert!(matches!(handle_obs_commands(&words("!flash_sale"), "viewer"), RewardCommand::Nothing));
}

#[test]
fn flash_sale_announcement() {
    assert_eq!(flash_sale_message("Ask Melkey a Question", 100), "Flash Sale! Ask Melkey a Question - New Low Price! 100");
}

#[test]
fn flash_sale_title_comes_from_the_list() {
    let titles = vec!["a".to_string(), "b".to_string(), "c".to_string()];
    for _ in 0..20 {
        let t = pick_flash_sale_title(&titles);
        assert!(titles.contains(&t));
    }
}

#[test]
fn bootstrap_creates_the_melkey_reward_at_ten_times_cost() {
    let scenes = vec![("Ask Melkey a Question".to_string(), 300), ("Other".to_string(), 50)];
    assert_eq!(bootstrap_rewards(&scenes), vec![("Ask Melkey a Question".to_string(), 3000)]);
}

#[test]
fn chunking_is_deterministic() {
    let s = "a, b, c, d, e, f";
    assert_eq!(chunk_string(s, 3), chunk_string(s, 3));
    assert_eq!(chunk_string(s, 3), vec!["a, b,", " c,", " d,", " e,", " f"]);
}

#[test]
fn move_request_keeps_the_default_beside_the_word() {
    let args = vec![
        ChatArgPosition::Source("begin".to_string()),
        ChatArgPosition::X("1111".to_string()),
        ChatArgPosition::Y("500".to_string()),
        ChatArgPosition::Duration(3000),
        ChatArgPosition::EasingType("ease-in".to_string()),
        ChatArgPosition::EasingFunction("bounce".to_string()),
    ];
    let req = build_chat_move_source_request(words("begin abc"), args);
    assert_eq!((req.source.as_str(), req.scene.as_str()), ("begin", "Begin"));
    assert_eq!((req.x.word.as_deref(), req.x.default.as_str()), (Some("abc"), "1111"));
    assert_eq!((req.y.word.as_deref(), req.y.default.as_str()), (None, "500"));
    assert_eq!((req.rotation_z.word.as_deref(), req.rotation_z.default.as_str()), (None, "0"));
    assert_eq!(req.duration, 3000);
    assert_eq!((req.easing_type_index, req.easing_function_index), (1, 9));
}
