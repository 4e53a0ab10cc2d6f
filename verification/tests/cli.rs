use vvvvvv_hook::patches::cli::{
    parse_args, parse_c_int, quickload_position, title_action, SavePosition, TitleAction,
    EX_USAGE, GAMEMODE_CUSTOM_LEVEL, GAMEMODE_CUSTOM_LEVEL_QUICKLOAD,
};

const SAMPLES: &[&str] = &[
    "", "+", "-", "0", "-0", "+0", "+5", "-17", "42", "007", "2147483647", "2147483648",
    "-2147483648", "-2147483649", "99999999999999999999", "-99999999999999999999", "12a",
    "a12", " 1", "1 ", "--1", "+-1", "-+1", "1-", "\u{0661}", "1.0", "0x10", "12\u{0}",
];

#[test]
fn parse_c_int_agrees_with_std() {
    for s in SAMPLES {
        assert_eq!(parse_c_int(s), s.parse::<i32>().ok(), "input {:?}", s);
    }
}

#[test]
fn parse_c_int_values() {
    assert_eq!(parse_c_int("123"), Some(123));
    assert_eq!(parse_c_int("-2147483648"), Some(i32::MIN));
    assert_eq!(parse_c_int("2147483647"), Some(i32::MAX));
    assert_eq!(parse_c_int("2147483648"), None);
    assert_eq!(parse_c_int("+"), None);
    assert_eq!(parse_c_int(""), None);
}

fn strings(v: &[&str]) -> Vec<String> {
    v.iter().map(|s| s.to_string()).collect()
}

#[test]
fn parse_args_skips_program_and_non_integers() {
    let args = strings(&["12", "3", "x", "-4", "5.5", "+6"]);
    assert_eq!(parse_args(&args), vec![3, -4, 6]);
    assert_eq!(parse_args(&strings(&[])), Vec::<i32>::new());
    assert_eq!(parse_args(&strings(&["7"])), Vec::<i32>::new());
}

#[test]
fn title_action_passthrough_without_args() {
    assert_eq!(title_action(&vec![]), TitleAction::Passthrough);
}

#[test]
fn title_action_one_arg_starts_level() {
    assert_eq!(
        title_action(&vec![4]),
        TitleAction::StartLevel { gamemode: 22, level: 4, reset_fade: false, music: None }
    );
    assert_eq!(GAMEMODE_CUSTOM_LEVEL, 22);
}

#[test]
fn title_action_six_args_start_from_quicksave() {
    assert_eq!(
        title_action(&vec![2, 10, 20, 3, 4, 1]),
        TitleAction::StartLevel { gamemode: 23, level: 2, reset_fade: true, music: None }
    );
    assert_eq!(GAMEMODE_CUSTOM_LEVEL_QUICKLOAD, 23);
}

#[test]
fn title_action_seven_args_play_music() {
    assert_eq!(
        title_action(&vec![2, 10, 20, 3, 4, 1, 9]),
        TitleAction::StartLevel { gamemode: 23, level: 2, reset_fade: true, music: Some(9) }
    );
}

#[test]
fn title_action_bad_counts() {
    for n in [2usize, 3, 4, 5, 8, 12] {
        let args: Vec<i32> = (0..n as i32).collect();
        assert_eq!(title_action(&args), TitleAction::BadArgCount { count: n });
    }
    assert_eq!(EX_USAGE, 64);
}

#[test]
fn quickload_position_from_six_args() {
    assert_eq!(
        quickload_position(&vec![2, 10, 20, 3, 4, 1]),
        Some(SavePosition { savex: 10, savey: 20, saverx: 3, savery: 4, savegc: 1 })
    );
    assert_eq!(
        quickload_position(&vec![2, 10, 20, 3, 4, 1, 9]),
        Some(SavePosition { savex: 10, savey: 20, saverx: 3, savery: 4, savegc: 1 })
    );
    assert_eq!(quickload_position(&vec![2, 10, 20, 3, 4]), None);
    assert_eq!(quickload_position(&vec![]), None);
}

#[test]
fn quicksave_start_and_quickload_agree() {
    for n in 0..10usize {
        let args: Vec<i32> = (0..n as i32).collect();
        if let TitleAction::StartLevel { gamemode, reset_fade, .. } = title_action(&args) {
            let loads = quickload_position(&args).is_some();
            assert_eq!(gamemode == GAMEMODE_CUSTOM_LEVEL_QUICKLOAD, loads);
            assert_eq!(reset_fade, loads);
        }
    }
}
