use vvvvvv_hook::args::{cmdline as args_cmdline, exe};
use vvvvvv_hook::proc::cmdline as proc_cmdline;

#[test]
fn proc_cmdline_splits_at_nul() {
    assert_eq!(proc_cmdline("./vvvvvv.x86_64\u{0}3\u{0}"), vec!["./vvvvvv.x86_64", "3", ""]);
    assert_eq!(proc_cmdline(""), vec![""]);
    assert_eq!(proc_cmdline("\u{0}\u{0}"), vec!["", "", ""]);
    assert_eq!(proc_cmdline("é\u{0}ü"), vec!["é", "ü"]);
}

#[test]
fn proc_cmdline_agrees_with_std_split() {
    for s in ["a", "a\u{0}b", "\u{0}a", "a\u{0}", "ab\u{0}\u{0}cd\u{0}", "x y\u{0}z"] {
        let expected: Vec<String> = s.split('\0').map(String::from).collect();
        assert_eq!(proc_cmdline(s), expected);
    }
}

#[test]
fn proc_cmdline_join_gives_back_contents() {
    for s in ["", "a", "a\u{0}b\u{0}", "\u{0}\u{0}x"] {
        assert_eq!(proc_cmdline(s).join("\u{0}"), s);
    }
}

#[test]
fn args_cmdline_decodes_utf8() {
    let argv = vec![b"prog".to_vec(), "é1".as_bytes().to_vec(), vec![0xff, 0x41], vec![]];
    assert_eq!(args_cmdline(&argv), vec!["prog", "é1", "", ""]);
}

#[test]
fn exe_is_first_argument() {
    let cmd = vec!["/opt/game/vvvvvv.x86_64".to_string(), "2".to_string()];
    assert_eq!(exe(&cmd), "/opt/game/vvvvvv.x86_64");
}
