use subd::handlers::fal_handler::{handle_fal_commands, themed_prompt, FalCommand};
use subd::handlers::music_scenes_handler::{handle_commands, random_mp3_file_name, sets_global_voice};
use subd::handlers::reward_handler::{
    all_bootstrap_rewards, announcement, find_random_ai_scene_title, route_messages, RewardRoute,
};
use subd::handlers::ai_telephone;
use subd::handlers::ai_telephone_handler;
use subd::handlers::ai_telephone::TelephoneCommand;
use subd::music_scenes::{find_voice_scene, music_sources, voice_to_music};

fn fields(s: &str) -> Vec<String> {
    s.split(' ').map(|w| w.to_string()).collect()
}

#[test]
fn every_scene_command_finds_its_scene() {
    for (cmd, scene) in voice_to_music() {
        let found = find_voice_scene(cmd).unwrap();
        assert_eq!(found.voice, scene.voice);
        assert_eq!(found.music, scene.music);
        assert_eq!(found.playlist_folder, scene.playlist_folder);
    }
    assert!(find_voice_scene("!nope").is_none());
    assert_eq!(music_sources().len(), 13);
    assert_eq!(music_sources()[0], "Yoga-BG-Music");
}

#[test]
fn music_scenes_are_for_mods_and_vips() {
    let s = handle_commands(&fields("!yoga now"), true, false).unwrap();
    assert_eq!((s.voice, s.music, s.playlist_folder), ("god", "Yoga-BG-Music", Some("Yoga")));
    assert!(handle_commands(&fields("!yoga"), false, false).is_none());
    assert!(handle_commands(&fields("!nope"), true, true).is_none());
}

#[test]
fn global_voice_and_tracks() {
    let enabled = vec!["Yoga-BG-Music".to_string()];
    assert!(!sets_global_voice(true, &enabled, "Yoga-BG-Music"));
    assert!(sets_global_voice(false, &enabled, "Yoga-BG-Music"));
    assert!(sets_global_voice(true, &enabled, "News-1-BG-Music"));
    let files = vec!["a.txt".to_string(), "b.mp3".to_string()];
    assert_eq!(
        random_mp3_file_name("Yoga", &files),
        Some("/home/begin/stream/Stream/BackgroundMusic/Yoga/b.mp3".to_string())
    );
    assert_eq!(random_mp3_file_name("Yoga", &vec!["a.txt".to_string()]), None);
}

#[test]
fn reward_routes() {
    assert_eq!(route_messages("!flash_sale", "beginbot"), RewardRoute::FlashSale);
    assert_eq!(route_messages("!blowout_sale", "beginbot"), RewardRoute::BlowoutSale);
    assert_eq!(route_messages("!bootstrap_rewards", "beginbot"), RewardRoute::BootstrapRewards);
    assert_eq!(route_messages("!inflation", "beginbotbot"), RewardRoute::Inflation);
    assert_eq!(route_messages("!inflation", "viewer"), RewardRoute::Nothing);
    assert_eq!(route_messages("!other", "beginbot"), RewardRoute::Nothing);
    assert_eq!(announcement(RewardRoute::Inflation), Some("INFLATION HIT! ALL PRICES RAISED TO 10000!".to_string()));
    assert_eq!(announcement(RewardRoute::FlashSale), None);
    assert_eq!(
        all_bootstrap_rewards(&vec![("a".to_string(), 5), ("b".to_string(), 7)]),
        vec![("a".to_string(), 50), ("b".to_string(), 70)]
    );
    let t = find_random_ai_scene_title(&vec!["x".to_string()]);
    assert_eq!(t, "x");
}

#[test]
fn fal_commands() {
    assert!(matches!(handle_fal_commands("!theme dark  forest", "viewer", true), FalCommand::SetTheme { theme } if theme == "dark  forest"));
    assert!(matches!(handle_fal_commands("!theme dark", "viewer", false), FalCommand::Nothing));
    assert!(matches!(handle_fal_commands("!talk", "viewer", false), FalCommand::Talk { image_file } if image_file == "teej_2.jpg"));
    assert!(matches!(handle_fal_commands("a big cat", "viewer", false), FalCommand::Draw { prompt } if prompt == "a big cat"));
    assert!(matches!(handle_fal_commands("cat", "viewer", false), FalCommand::Nothing));
    assert!(matches!(handle_fal_commands("@bob hi there", "viewer", false), FalCommand::Nothing));
    assert_eq!(themed_prompt("noir", "a cat"), "noir a cat");
}

#[test]
fn telephone_games() {
    match ai_telephone::handle_telephone_requests(&fields("!telephone http://i.png a  red  fox"), "viewer") {
        TelephoneCommand::Telephone { image_url, prompt, rounds } => {
            assert_eq!((image_url.as_str(), prompt.as_str(), rounds), ("http://i.png", "a  red  fox", 5));
        }
        _ => panic!("expected a telephone game"),
    }
    match ai_telephone::handle_telephone_requests(&fields("!begin_telephone u p"), "beginbot") {
        TelephoneCommand::Telephone { rounds, .. } => assert_eq!(rounds, 13),
        _ => panic!("expected a telephone game"),
    }
    assert!(matches!(ai_telephone::handle_telephone_requests(&fields("!begin_telephone u p"), "viewer"), TelephoneCommand::Nothing));
    assert!(matches!(ai_telephone::handle_telephone_requests(&fields("!old_telephone 7"), "viewer"), TelephoneCommand::OldTelephone { id } if id == "7"));
    match ai_telephone_handler::handle_telephone_requests(&fields("!carlphone u")) {
        TelephoneCommand::Carlphone { image_url, prompt, rounds } => {
            assert_eq!((image_url.as_str(), prompt.as_str(), rounds), ("u", "", 5));
        }
        _ => panic!("expected carlphone"),
    }
    assert!(matches!(ai_telephone_handler::handle_telephone_requests(&fields("!begin_telephone u p")), TelephoneCommand::Nothing));
}

#[test]
fn flash_sale_prices_the_reward_at_one_hundred() {
    let (cost, msg) = subd::handlers::reward_handler::flash_sale("Hat");
    assert_eq!(cost, 100);
    assert_eq!(msg, "Flash Sale! Hat - New Low Price! 100");
}

#[test]
fn art_command_and_uploads() {
    assert!(subd::handlers::gen_art_handler::handle_gen_art_requests(&fields("!art now")));
    assert!(!subd::handlers::gen_art_handler::handle_gen_art_requests(&fields("!artist")));
    assert_eq!(
        subd::handlers::upload_image("!upload http://x.png extra", "bob"),
        (Some("http://x.png".to_string()), "bob.png".to_string())
    );
    assert_eq!(subd::handlers::upload_image("!upload", "bob").0, None);
}
