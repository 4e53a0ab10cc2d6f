use vstd::prelude::*;
use vstd::utf8::{decode_utf8, valid_utf8};

use crate::text::split_on;

verus! {

/// The components of a Unix path that name something: the pieces between
/// `/` separators, leaving out the empty ones (repeated, leading or trailing
/// separators) and `.`.
pub open spec fn named_components(path: Seq<char>) -> Seq<Seq<char>> {
    split_on(path, '/').filter(|c: Seq<char>| c.len() > 0 && c != seq!['.'])
}

/// The final component of a Unix path, unless there is none or it is `..`.
pub open spec fn unix_file_name(path: Seq<char>) -> Option<Seq<char>> {
    let cs = named_components(path);
    if cs.len() == 0 || cs.last() == seq!['.', '.'] {
        None
    } else {
        Some(cs.last())
    }
}

/// `Path::file_name` on a path given as text, its result as text. Trusted:
/// std documents it as the final component of the path, `None` when that is
/// `..` or when there is none, where components are the pieces between
/// separators with repeated separators ignored and `.` normalized away; the
/// contract states that for Unix paths, the paths of this library's targets.
#[verifier::external_body]
fn file_name(path: &str) -> (r: Option<String>)
    ensures
        r.deep_view() == unix_file_name(path@),
{
    std::path::Path::new(path).file_name().and_then(|n| n.to_str()).map(|n| n.to_string())
}

/// The file name of the game's executable.
pub open spec fn game_executable() -> Seq<char> {
    seq!['v', 'v', 'v', 'v', 'v', 'v', '.', 'x', '8', '6', '_', '6', '4']
}

/// Whether the executable at path `exe` is the game, judged by its file
/// name. The patches apply only there.
pub fn is_v6(exe: &str) -> (r: bool)
    ensures
        r == (unix_file_name(exe@) == Some(game_executable())),
{
    match file_name(exe) {
        Some(name) => {
            let game = String::from_str("vvvvvv.x86_64");
            proof {
                reveal_strlit("vvvvvv.x86_64");
                assert(game@ =~= game_executable());
            }
            name == game
        },
        None => false,
    }
}

/// What `cpp_demangle` makes of a symbol: `None` when it is not a mangled
/// C++ name; otherwise the demangled text, `None` inside when it cannot be
/// rendered.
pub uninterp spec fn cpp_demangled(symbol: Seq<u8>) -> Option<Option<Seq<char>>>;

/// What `String::from_utf8_lossy` makes of some bytes.
pub uninterp spec fn utf8_lossy(bytes: Seq<u8>) -> Seq<char>;

/// `cpp_demangle::Symbol::new` on the symbol, then `Symbol::demangle` with
/// the default options, which is what the symbol's `Display` writes. Trusted:
/// the result depends on the bytes alone; the contract names it and says
/// nothing of its text.
#[verifier::external_body]
fn demangle(symbol: &[u8]) -> (r: Option<Option<String>>)
    ensures
        r.deep_view() == cpp_demangled(symbol@),
{
    match cpp_demangle::Symbol::new(symbol) {
        Ok(parsed) => Some(parsed.demangle(&cpp_demangle::DemangleOptions::default()).ok()),
        Err(_) => None,
    }
}

/// `String::from_utf8_lossy`, as an owned string. Trusted: the result depends
/// on the bytes alone, and std documents that valid UTF-8 comes back as it
/// is.
#[verifier::external_body]
fn string_from_utf8_lossy(bytes: &[u8]) -> (r: String)
    ensures
        r@ == utf8_lossy(bytes@),
        valid_utf8(bytes@) ==> r@ == decode_utf8(bytes@),
{
    String::from_utf8_lossy(bytes).into_owned()
}

/// How a symbol is shown: demangled when it is a mangled C++ name, else its
/// bytes as text; `None` when it is a mangled name that cannot be rendered.
pub open spec fn symbol_text(symbol: Seq<u8>) -> Option<Seq<char>> {
    match cpp_demangled(symbol) {
        Some(rendered) => rendered,
        None => Some(utf8_lossy(symbol)),
    }
}

/// The text shown for a symbol: its demangled form when it is a mangled C++
/// name, else its bytes decoded leniently. `None` for a mangled name whose
/// rendering fails.
pub fn symbol_display(symbol: &[u8]) -> (r: Option<String>)
    ensures
        r.deep_view() == symbol_text(symbol@),
        cpp_demangled(symbol@) matches Some(rendered) ==> r.deep_view() == rendered,
        cpp_demangled(symbol@) is None ==> r.deep_view() == Some(utf8_lossy(symbol@)),
        cpp_demangled(symbol@) is None && valid_utf8(symbol@) ==> r.deep_view() == Some(
            decode_utf8(symbol@),
        ),
{
    match demangle(symbol) {
        Some(rendered) => rendered,
        None => Some(string_from_utf8_lossy(symbol)),
    }
}

pub open spec fn hook_message_text(symbol: Seq<u8>, func: Seq<char>) -> Option<Seq<char>> {
    match symbol_text(symbol) {
        Some(t) => Some("hooking "@ + t + " with "@ + func),
        None => None,
    }
}

/// The line announcing that `symbol` is hooked with the function named
/// `func`: `hooking <symbol> with <func>`. `None` when the symbol is a
/// mangled name that cannot be rendered.
pub fn hook_message(symbol: &[u8], func: &str) -> (r: Option<String>)
    ensures
        r.deep_view() == hook_message_text(symbol@, func@),
        r is Some <==> symbol_text(symbol@) is Some,
        r.deep_view() matches Some(m) ==> m == "hooking "@ + symbol_text(symbol@)->0 + " with "@
            + func@,
{
    match symbol_display(symbol) {
        Some(name) => {
            let mut msg = String::from_str("hooking ");
            msg.append(name.as_str());
            msg.append(" with ");
            msg.append(func);
            Some(msg)
        },
        None => None,
    }
}

} // verus!
