use subd::handlers::ai_screenshots::{handle_ai_screenshots, new_screenshot_path, screenshot_path};
use subd::handlers::ai_screenshots_timer;
use subd::handlers::ai_screenshots_timer_handler;

fn words(s: &str) -> Vec<String> {
    s.split(' ').map(|w| w.to_string()).collect()
}

#[test]
fn ai_screenshots_timer_test_screenshot_variation() {
    let _screenshot_prompt = ai_screenshots_timer::generate_random_prompt();
}

#[test]
fn ai_screenshots_timer_handler_test_screenshot_variation() {
    let _screenshot_prompt = ai_screenshots_timer_handler::generate_random_prompt();
}

#[test]
fn random_prompt_is_one_of_the_styles() {
    let styles = ai_screenshots_timer_handler::screenshot_style_choices();
    assert_eq!(styles.len(), 10);
    for _ in 0..30 {
        let p = ai_screenshots_timer_handler::generate_random_prompt();
        assert!(styles.contains(&p.as_str()));
    }
}

#[test]
fn timelapse_files() {
    assert_eq!(
        ai_screenshots_timer_handler::timelapse_path("20240101120000"),
        "../../tmp/screenshots/timelapse/20240101120000_screenshot.png"
    );
    let (p, prompt) = ai_screenshots_timer_handler::handle_ai_screenshots();
    assert!(ai_screenshots_timer_handler::screenshot_style_choices().contains(&prompt.as_str()));
    assert!(p.starts_with("../../tmp/screenshots/timelapse/"));
    assert!(p.ends_with("_screenshot.png"));
    let stamp = &p["../../tmp/screenshots/timelapse/".len()..p.len() - "_screenshot.png".len()];
    assert!(is_stamp(stamp));
}

fn is_stamp(t: &str) -> bool {
    let rest = t.strip_prefix('+').or_else(|| t.strip_prefix('-')).unwrap_or(t);
    t.len() >= 14 && !rest.is_empty() && rest.chars().all(|c| c.is_ascii_digit())
}

#[test]
fn screenshot_requests() {
    let r = handle_ai_screenshots(&words("!ai_begin dalle a cool cat")).unwrap();
    assert_eq!((r.source.as_str(), r.prompt.as_str(), r.use_dalle), ("begin", "a cool cat", true));
    let r = handle_ai_screenshots(&words("!new_alex sd wizard")).unwrap();
    assert_eq!((r.source.as_str(), r.prompt.as_str(), r.use_dalle), ("alex", "wizard", false));
    let r = handle_ai_screenshots(&words("edit_scene a tall tree")).unwrap();
    assert_eq!((r.source.as_str(), r.prompt.as_str(), r.use_dalle), ("Primary", "a tall tree", false));
    let r = handle_ai_screenshots(&words("!ai_scene")).unwrap();
    assert_eq!(r.prompt, "coolest programmer ever. Super stylish");
    assert!(handle_ai_screenshots(&words("!other thing")).is_none());
}

#[test]
fn screenshot_paths() {
    assert_eq!(screenshot_path("t"), "/home/begin/code/subd/tmp/screenshots/t_screenshot.png");
    let p = new_screenshot_path();
    assert!(p.starts_with("/home/begin/code/subd/tmp/screenshots/"));
    assert!(p.ends_with("_screenshot.png"));
    let stamp = &p["/home/begin/code/subd/tmp/screenshots/".len()..p.len() - "_screenshot.png".len()];
    assert!(is_stamp(stamp));
}
