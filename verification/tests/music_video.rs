use subd::handlers::ai_music_video_creator_handler::{
    find_image, music_video_dir, handle_requests, MusicVideoCommand,
};

#[test]
fn ai_music_video_creator_handler_test_music_video_path() {
    println!();
}

#[test]
fn music_video_commands() {
    match handle_requests("viewer", "!generate_images 3", "song-1") {
        Ok(MusicVideoCommand::CreateMusicVideoImages { id, count }) => {
            assert_eq!(id, "song-1");
            assert_eq!(count, 3);
        }
        _ => panic!("expected images"),
    }
    match handle_requests("viewer", "!create_music_video_images many", "s") {
        Ok(MusicVideoCommand::CreateMusicVideoImages { count, .. }) => assert_eq!(count, 1),
        _ => panic!("expected images"),
    }
    match handle_requests("viewer", "!generate_video frame_3", "s") {
        Ok(MusicVideoCommand::CreateMusicVideoVideo { id, image_name }) => {
            assert_eq!(id, "s");
            assert_eq!(image_name, "frame_3");
        }
        _ => panic!("expected video"),
    }
    match handle_requests("viewer", "!generate_image a  dancing cat", "s") {
        Ok(MusicVideoCommand::CreateMusicVideoImage { prompt, .. }) => {
            assert_eq!(prompt, Some("a  dancing cat".to_string()))
        }
        _ => panic!("expected image"),
    }
    match handle_requests("viewer", "!generate_image", "s") {
        Ok(MusicVideoCommand::CreateMusicVideoImage { prompt, .. }) => assert_eq!(prompt, None),
        _ => panic!("expected image"),
    }
    match handle_requests("viewer", "!create_music_video other", "s") {
        Ok(MusicVideoCommand::CreateMusicVideo { id }) => assert_eq!(id, "other"),
        _ => panic!("expected music video"),
    }
    match handle_requests("viewer", "!create_music_video", "s") {
        Ok(MusicVideoCommand::CreateMusicVideo { id }) => assert_eq!(id, "s"),
        _ => panic!("expected music video"),
    }
}

#[test]
fn generate_video_needs_an_image_name() {
    match handle_requests("viewer", "!generate_video", "s") {
        Err(e) => assert_eq!(e, "No image name provided for video generation"),
        Ok(_) => panic!("expected an error"),
    }
}

#[test]
fn the_bot_and_other_messages_ask_nothing() {
    assert!(matches!(handle_requests("nightbot", "!generate_images 3", "s"), Ok(MusicVideoCommand::Unknown)));
    assert!(matches!(handle_requests("viewer", "hello there", "s"), Ok(MusicVideoCommand::Unknown)));
    assert!(matches!(handle_requests("viewer", "   ", "s"), Ok(MusicVideoCommand::Unknown)));
}

#[test]
fn image_lookup() {
    let names: Vec<String> = vec!["a.txt.png", "b.gif", "frame_1.jpg", "frame_2.jpeg"]
        .into_iter()
        .map(String::from)
        .collect();
    assert_eq!(find_image(&names, "frame_2"), Ok(3));
    assert_eq!(find_image(&names, "a.txt"), Ok(0));
    assert_eq!(find_image(&names, "b"), Err("No matching image found for: b".to_string()));
    let with_bare: Vec<String> = vec!["README".to_string(), "frame_1.jpg".to_string()];
    assert_eq!(find_image(&with_bare, "frame_1"), Err("Failed to get file extension".to_string()));
    assert_eq!(music_video_dir("x"), "./tmp/music_videos/x/");
}
