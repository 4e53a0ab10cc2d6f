use vvvvvv_hook::gamestates::{Gamestate, GamestateTime};
use vvvvvv_hook::patches::gamestates::{callbacks_for, gameinput_plan};

fn registry() -> Vec<Gamestate<&'static str>> {
    vec![
        Gamestate::new(5000, GamestateTime::PreInput, "a"),
        Gamestate::new(7, GamestateTime::PreInput, "b"),
        Gamestate::new(5000, GamestateTime::PostInput, "c"),
        Gamestate::new(5000, GamestateTime::PreInput, "d"),
        Gamestate::new(7, GamestateTime::PostInput, "e"),
    ]
}

#[test]
fn callbacks_for_filters_in_order() {
    let r = registry();
    assert_eq!(callbacks_for(&r, 5000, GamestateTime::PreInput), vec![0, 3]);
    assert_eq!(callbacks_for(&r, 5000, GamestateTime::PostInput), vec![2]);
    assert_eq!(callbacks_for(&r, 7, GamestateTime::PostInput), vec![4]);
    assert_eq!(callbacks_for(&r, 1, GamestateTime::PreInput), Vec::<usize>::new());
}

#[test]
fn gameinput_plan_splits_pre_and_post() {
    let r = registry();
    let plan = gameinput_plan(&r, 5000);
    let pre: Vec<&str> = plan.pre.iter().map(|&i| r[i].callback).collect();
    let post: Vec<&str> = plan.post.iter().map(|&i| r[i].callback).collect();
    assert_eq!(pre, vec!["a", "d"]);
    assert_eq!(post, vec!["c"]);
    for i in &plan.pre {
        assert!(!plan.post.contains(i));
    }
}

#[test]
fn gameinput_plan_empty_registry() {
    let r: Vec<Gamestate<u8>> = Vec::new();
    let plan = gameinput_plan(&r, 0);
    assert!(plan.pre.is_empty());
    assert!(plan.post.is_empty());
}
