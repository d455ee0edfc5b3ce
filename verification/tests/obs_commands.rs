use subd::handlers::obs_messages::{handle_obs_commands as plan_first_handler, ObsCommand};
use subd::handlers::obs_messages_handler::{handle_obs_commands, scene_and_source, ObsHandlerCommand};
use subd::move_transition_effects::spin;
use subd::obs_combo::{follow, trigger_character_filters};
use subd::obs_bootstrap::bootstrap::{camera_filters, create_split_3d_transform_filters};
use subd::obs_filters::three_d_transform::CameraMode;
use subd::move_transition::move_plus_cache::{cache_slots, update_and_trigger_move_values_filter_plus_cache, MoveValuesSettings};
use subd::move_transition::move_source::{transform_signs, Sign};
use subd::move_transition::models::{move_value_type_code, value_type_code, FilterKind};
use subd::move_transition::move_value::MoveValueType;
use subd::move_transition::MoveTextFilter;

fn fields(s: &str) -> Vec<String> {
    s.split(' ').map(|w| w.to_string()).collect()
}

fn handler(s: &str, is_mod: bool, user: &str) -> Result<ObsHandlerCommand, String> {
    handle_obs_commands(&fields(s), is_mod, user, "begin", "NewBegin", "PrimaryCam")
}

#[test]
fn scenes_of_sources() {
    assert_eq!(scene_and_source("begin"), ("Begin".to_string(), "begin".to_string()));
    assert_eq!(scene_and_source("bogan"), ("AIAssets".to_string(), "bogan".to_string()));
    assert_eq!(scene_and_source("randall"), ("TestScene".to_string(), "randall".to_string()));
    assert_eq!(scene_and_source("alex"), ("Memes".to_string(), "alex".to_string()));
}

#[test]
fn handler_move_and_scale_keep_the_words() {
    match handler("!move alex 10 20", false, "viewer") {
        Ok(ObsHandlerCommand::MoveTo { scene, source, filter, x, y }) => {
            assert_eq!((scene.as_str(), source.as_str(), filter.as_str()), ("Memes", "alex", "Move_alex"));
            assert_eq!((x, y), (Some("10".to_string()), Some("20".to_string())));
        }
        _ => panic!("expected a move"),
    }
    match handler("!scale", false, "viewer") {
        Ok(ObsHandlerCommand::Scale { scene, source, x, y, .. }) => {
            assert_eq!((scene.as_str(), source.as_str(), x, y), ("Begin", "begin", None, None));
        }
        _ => panic!("expected a scale"),
    }
    match handler("!rot bogan 90", false, "viewer") {
        Ok(ObsHandlerCommand::Rotate { scene, z, .. }) => {
            assert_eq!((scene.as_str(), z), ("AIAssets", Some("90".to_string())));
        }
        _ => panic!("expected a rotation"),
    }
}

#[test]
fn handler_other_commands() {
    assert!(matches!(handler("!hotkey", false, "viewer"), Ok(ObsHandlerCommand::Hotkey { key }) if key == "H"));
    assert!(matches!(handler("!stroke 12", false, "viewer"), Ok(ObsHandlerCommand::Stroke { value: Some(v), .. }) if v == "12"));
    assert!(matches!(handler("!update_meme alex", true, "viewer"), Err(e) if e == "Error Fetching X to update_meme"));
    assert!(matches!(handler("!update_meme alex 5", false, "viewer"), Ok(ObsHandlerCommand::Nothing)));
    assert!(matches!(handler("!update_meme alex 5", true, "viewer"), Ok(ObsHandlerCommand::UpdateMeme { x, y: None, .. }) if x == "5"));
    assert!(matches!(handler("!update_meme alex 5 7", true, "viewer"), Ok(ObsHandlerCommand::UpdateMeme { source, x, y: Some(y) }) if source == "alex" && x == "5" && y == "7"));
    assert!(matches!(handler("!create_filters_for_source", false, "beginbot"), Ok(ObsHandlerCommand::CreateFilters { source }) if source == "alex"));
    assert!(matches!(handler("!create_filters_for_source", false, "viewer"), Ok(ObsHandlerCommand::Nothing)));
    match handler("!begin 100 200 5000", false, "viewer") {
        Ok(ObsHandlerCommand::Move { scene, source, request, duration }) => {
            assert_eq!((scene.as_str(), source.as_str()), ("PrimaryCam", "begin"));
            assert_eq!((request.x.word.as_deref(), request.y.word.as_deref(), duration), (Some("100"), Some("200"), 5000));
            assert_eq!((request.x.default.as_str(), request.y.default.as_str()), ("1111", "500"));
        }
        _ => panic!("expected a move"),
    }
    assert!(matches!(handler("!filter", false, "viewer"), Ok(ObsHandlerCommand::ShowFilter { filter }) if filter == "3D-Transform-Perspective"));
}

#[test]
fn first_handler_commands() {
    assert!(matches!(plan_first_handler(&fields("!nerd alex"), false, "viewer", "NewBegin"), Ok(ObsCommand::Nerd { source }) if source == "alex"));
    assert!(matches!(plan_first_handler(&fields("!chad"), false, "viewer", "NewBegin"), Ok(ObsCommand::Chad { source }) if source == "begin"));
    assert!(matches!(plan_first_handler(&fields("!hello"), false, "viewer", "NewBegin"), Ok(ObsCommand::Nothing)));
}

#[test]
fn character_filters_and_followers() {
    assert_eq!(trigger_character_filters("Seal", true), vec!["ShowSeal", "ShowSeal-text", "ShowSeal-speech_bubble"]);
    assert_eq!(trigger_character_filters("Seal", false)[0], "HideSeal");
    let sources: Vec<String> = vec!["alex", "Screen", "begin"].into_iter().map(String::from).collect();
    let f = follow(&sources, "begin");
    assert_eq!(
        f,
        vec![
            ("alex".to_string(), "Move_Source_alex".to_string()),
            ("Screen".to_string(), "Move_Source_Screen".to_string())
        ]
    );
}

#[test]
fn camera_modes_and_filters() {
    assert_eq!(CameraMode::default(), CameraMode::Perspective);
    assert_eq!(CameraMode::Orthographic.code(), 1);
    assert_eq!(CameraMode::CornerPin.filter_name(), "3D-Transform-CornerPin");
    let f = camera_filters(CameraMode::Perspective);
    assert_eq!(f.move_filter, "Move_3D-Transform-Perspective");
    assert_eq!(f.default_filter, "Default_3D-Transform-Perspective");
    assert_eq!(f.default_target, "3D_Perspective");
    let split = create_split_3d_transform_filters();
    assert_eq!(split.len(), 3);
    assert_eq!(split[0].0, 0);
    assert_eq!(split[0].1.transform_filter, "3D-Transform-Orthographic");
    assert_eq!(split[2].1.camera_mode, CameraMode::CornerPin);
}

#[test]
fn perspective_cache_shifts() {
    assert_eq!(cache_slots("Move_x")[0], "Move_x");
    assert_eq!(cache_slots("Move_x")[4], "Perspective-Cache-;");
    let new_settings = MoveValuesSettings { filter: Some("3D_Orthographic".to_string()), move_value_type: Some(0), value_type: None, values: 9 };
    let r = update_and_trigger_move_values_filter_plus_cache("Move_x", new_settings, vec![1, 2, 3, 4]);
    assert_eq!((r.new_settings.move_value_type, r.new_settings.value_type), (Some(1), Some(1)));
    assert_eq!((r.new_settings.filter.as_deref(), r.new_settings.values), (Some("3D_Orthographic"), 9));
    let expected: Vec<(String, i32)> = vec![
        ("Perspective-Cache-;".to_string(), 4),
        ("Perspective-Cache-l".to_string(), 3),
        ("Perspective-Cache-k".to_string(), 2),
        ("Perspective-Cache-j".to_string(), 1),
    ];
    assert_eq!(r.cache_writes, expected);
}

#[test]
fn spins_and_signs() {
    assert_eq!(spin("spinx"), "Rotation.X");
    assert_eq!(spin("y"), "Rotation.Y");
    assert_eq!(spin("spin"), "Rotation.Z");
    assert_eq!(spin("other"), "Rotation.Z");
    assert_eq!(transform_signs(Some(true)), (Sign::Positive, Sign::Multiply));
    assert_eq!(transform_signs(None), (Sign::Nothing, Sign::Nothing));
    assert_eq!(Sign::Divide.as_str(), "/");
    assert_eq!(Sign::default(), Sign::Nothing);
}

#[test]
fn move_filter_settings() {
    assert_eq!(value_type_code(), 2);
    assert_eq!(move_value_type_code(), 1);
    assert_eq!(FilterKind::MoveValue.name(), "move_value_filter");
    assert_eq!(MoveValueType::Typing.code(), 4);
    let f = MoveTextFilter::typing("hi".to_string());
    assert_eq!((f.setting_name.as_str(), f.setting_text.as_str(), f.value_type), ("text", "hi", 4));
}

#[test]
fn spin_reads_amount_duration_and_easing() {
    match plan_first_handler(&fields("!spin 1080 18000 ease-in-and-out cubic"), false, "viewer", "NewBegin") {
        Ok(ObsCommand::Spin { source, request, duration }) => {
            assert_eq!(source, "begin");
            assert_eq!(request.rotation_z.word.as_deref(), Some("1080"));
            assert_eq!((request.duration, duration), (18000, 18000));
            assert_eq!((request.easing_type_index, request.easing_function_index), (3, 2));
        }
        _ => panic!("expected a spin"),
    }
    match handler("!spin", false, "viewer") {
        Ok(ObsHandlerCommand::Spin { source, request, duration }) => {
            assert_eq!(source, "begin");
            assert_eq!((request.rotation_z.word, request.rotation_z.default.as_str()), (None, "1080"));
            assert_eq!(duration, 3000);
        }
        _ => panic!("expected a spin"),
    }
}

#[test]
fn plan_update_meme_keeps_both_coordinates() {
    assert!(matches!(plan_first_handler(&fields("!update_meme alex 5 7"), true, "viewer", "NewBegin"), Ok(ObsCommand::UpdateMeme { source, x, y: Some(y) }) if source == "alex" && x == "5" && y == "7"));
    assert!(matches!(plan_first_handler(&fields("!update_meme alex 5"), true, "viewer", "NewBegin"), Ok(ObsCommand::UpdateMeme { y: None, .. })));
}
