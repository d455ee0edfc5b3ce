use subd::handlers::skybox_handler::{find_style_id, handle_skybox_commands};
use subd::handlers::skybox::SkyboxCommand;
use subd::handlers::skybox_status_handler::{save_image_path, skybox_archive_file, skybox_ready};
use subd::handlers::stream_background_handler::{find_collection, handle_stream_background_commands, BackgroundCommand};
use subd::handlers::voices_handler::{parse_transform_settings, handle_voices_commands, VoiceCommand};

fn fields(s: &str) -> Vec<String> {
    s.split(' ').map(|w| w.to_string()).collect()
}

#[test]
fn skybox_styles() {
    assert_eq!(find_style_id(fields("!skybox 5 a castle")), Ok(5));
    assert_eq!(find_style_id(fields("!skybox")), Err("No Style ID Arg found".to_string()));
    assert_eq!(find_style_id(fields("!skybox 48")), Err("Error finding Style ID".to_string()));
    assert_eq!(find_style_id(fields("!skybox x")), Err("invalid digit found in string".to_string()));
    match handle_skybox_commands(&fields("!skybox 5 a castle"), "viewer") {
        SkyboxCommand::Skybox { prompt, style_id } => {
            assert_eq!((prompt.as_str(), style_id), ("a castle", 5));
        }
        _ => panic!("expected a skybox"),
    }
    assert!(matches!(handle_skybox_commands(&fields("!check_skybox"), "viewer"), SkyboxCommand::Nothing));
    assert!(skybox_ready("http://x"));
    assert!(!skybox_ready(""));
    assert_eq!(skybox_archive_file("t", -3), "./archive/skybox/t_-3.png");
    assert!(save_image_path(7).ends_with("_7.png"));
}

#[test]
fn voice_commands() {
    let t = parse_transform_settings("200/1.5/T", 3);
    assert_eq!((t.pitch, t.stretch.as_deref(), t.stretch_limit, t.reverb), (200, Some("1.5"), 3, true));
    let t = parse_transform_settings("5000", 1);
    assert_eq!((t.pitch, t.stretch, t.stretch_limit, t.reverb), (0, None, 10, false));
    match handle_voices_commands(&fields("!voice"), "viewer", false, false, "ethan") {
        Ok(VoiceCommand::TalkInVoice { voice }) => assert_eq!(voice, "ethan"),
        _ => panic!("expected a voice"),
    }
    assert_eq!(
        handle_voices_commands(&fields("!stretch"), "viewer", false, false, "ethan").err(),
        Some("Nothing to !stretch".to_string())
    );
}

#[test]
fn backgrounds() {
    let c = find_collection("!chimera").unwrap();
    assert_eq!((c.lower_bound, c.upper_bound), (233000000, 233000986));
    assert!(find_collection("!nope").is_none());
    assert!(matches!(handle_stream_background_commands(&fields("!bogan"), "viewer", false), BackgroundCommand::Nothing));
    assert!(matches!(handle_stream_background_commands(&fields("!sd a  cat"), "viewer", false), BackgroundCommand::StableDiffusion { .. }));
}

#[test]
fn voice_privileges_hold() {
    assert!(matches!(
        handle_voices_commands(&fields("!global_voice"), "viewer", true, true, "ethan"),
        Ok(VoiceCommand::Nothing)
    ));
    assert!(matches!(
        handle_voices_commands(&fields("!global_voice"), "beginbot", false, false, "ethan"),
        Ok(VoiceCommand::SetMode(_))
    ));
    assert!(matches!(
        handle_voices_commands(&fields("!nothing"), "beginbot", false, false, "ethan"),
        Ok(VoiceCommand::Nothing)
    ));
    let many: Vec<String> = (0..20).map(|i| format!("u{}", i)).collect();
    let msg = format!("!clone troy {}", many.join(" "));
    match handle_voices_commands(&fields(&msg), "beginbot", false, false, "ethan") {
        Ok(VoiceCommand::Clone { name, urls, folder }) => {
            assert_eq!(name, "troy");
            assert_eq!(urls.len(), 16);
            assert_eq!(folder, "./tmp/cloned/split_troy/");
        }
        _ => panic!("expected a clone"),
    }
}

#[test]
fn first_skybox_handler_defaults_to_style_one() {
    use_first_skybox();
}

fn use_first_skybox() {
    assert_eq!(subd::handlers::skybox::find_style_id(fields("!skybox 12 a cave")), 12);
    assert_eq!(subd::handlers::skybox::find_style_id(fields("!skybox 99")), 1);
    assert_eq!(subd::handlers::skybox::find_style_id(fields("!skybox x")), 1);
    assert_eq!(subd::handlers::skybox::find_style_id(fields("!skybox")), 1);
    match subd::handlers::skybox::handle_skybox_commands(&fields("!remix a  lake"), "viewer") {
        SkyboxCommand::Remix { prompt } => assert_eq!(prompt, "a  lake"),
        _ => panic!("expected a remix"),
    }
}
