use std::path::Path;
use vvvvvv_hook::helpers::{hook_message, is_v6, symbol_display};

#[test]
fn is_v6_by_file_name() {
    assert!(is_v6("/home/user/games/vvvvvv.x86_64"));
    assert!(is_v6("vvvvvv.x86_64"));
    assert!(is_v6("./vvvvvv.x86_64"));
    assert!(is_v6("/games//vvvvvv.x86_64/"));
    assert!(is_v6("/games/vvvvvv.x86_64/."));
    assert!(!is_v6("/games/vvvvvv.x86_64/.."));
    assert!(!is_v6("/games/vvvvvv"));
    assert!(!is_v6("/games/vvvvvv.x86_64.bak"));
    assert!(!is_v6(""));
    assert!(!is_v6("/"));
}

#[test]
fn is_v6_agrees_with_std_file_name() {
    for p in ["a/b", "a/b/", "a/./", ".", "..", "/", "", "x/..", "./vvvvvv.x86_64", "q/vvvvvv.x86_64"] {
        let expected = Path::new(p).file_name().map(|n| n == "vvvvvv.x86_64").unwrap_or(false);
        assert_eq!(is_v6(p), expected, "path {:?}", p);
    }
}

#[test]
fn symbol_display_demangles_cpp_names() {
    let sym: &[u8] = b"_ZN5space3fooEibc";
    assert_eq!(symbol_display(sym), Some("space::foo(int, bool, char)".to_string()));
    let expected = cpp_demangle::Symbol::new(sym).unwrap().to_string();
    assert_eq!(symbol_display(sym), Some(expected));
}

#[test]
fn symbol_display_plain_names_as_text() {
    assert_eq!(symbol_display(b"PHYSFS_init"), Some("PHYSFS_init".to_string()));
    assert_eq!(symbol_display(b"a\xffb"), Some("a\u{fffd}b".to_string()));
}

#[test]
fn hook_message_for_mangled_symbol() {
    let sym: &[u8] = b"_Z15preloaderrenderR8GraphicsR4GameR12UtilityClass";
    let name = cpp_demangle::Symbol::new(sym).unwrap().to_string();
    assert_ne!(name.as_bytes(), sym);
    assert_eq!(
        hook_message(sym, "hook_preloader_render"),
        Some(format!("hooking {} with hook_preloader_render", name))
    );
    assert_eq!(
        hook_message(sym, "hook_preloader_render"),
        Some("hooking preloaderrender(Graphics&, Game&, UtilityClass&) with hook_preloader_render".to_string())
    );
}

#[test]
fn hook_message_for_plain_symbol() {
    assert_eq!(
        hook_message(b"PHYSFS_init", "hook_physfs_init"),
        Some("hooking PHYSFS_init with hook_physfs_init".to_string())
    );
}
