use subd::move_transition::duration::{find_easing_indicies, EasingDuration, EasingFunction, EasingType};

#[test]
fn test_fun2() {
    let res = find_easing_indicies("cubic", "ease-in");
    assert_eq!(res, (2, 1));
}

#[test]
fn pascal_case_names_are_found() {
    assert_eq!(find_easing_indicies("bounce", "ease-in-and-out"), (9, 3));
    assert_eq!(EasingFunction::from_name("Elastic").map(|f| f.code()), Some(8));
    assert_eq!(EasingType::from_name("EaseOut").map(|t| t.code()), Some(2));
    assert!(EasingType::from_name("ease-out").is_none());
}

#[test]
fn easing_duration_keeps_the_duration() {
    let d = EasingDuration::new(3000);
    assert_eq!(d.duration, Some(3000));
}
