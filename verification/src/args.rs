use vstd::prelude::*;
use vstd::utf8::{decode_utf8, decode_utf8_encode_utf8, encode_utf8, valid_utf8};

use crate::text::string_views;

verus! {

/// `String::from_utf8`: the bytes as a string when they are valid UTF-8,
/// `None` (the error) otherwise. Trusted: std documents that it fails exactly
/// on invalid UTF-8 and otherwise keeps the bytes as they are.
#[verifier::external_body]
fn string_from_utf8(bytes: Vec<u8>) -> (r: Option<String>)
    ensures
        r is Some <==> valid_utf8(bytes@),
        r matches Some(s) ==> s@ == decode_utf8(bytes@),
{
    String::from_utf8(bytes).ok()
}

/// One argument as text: its decoding when it is valid UTF-8, the empty
/// string otherwise.
pub open spec fn arg_text(bytes: Seq<u8>) -> Seq<char> {
    if valid_utf8(bytes) {
        decode_utf8(bytes)
    } else {
        Seq::empty()
    }
}

/// What the law on one argument's text says, for use under a quantifier.
pub open spec fn arg_text_facts(bytes: Seq<u8>) -> bool {
    &&& valid_utf8(bytes) ==> arg_text(bytes) == decode_utf8(bytes) && encode_utf8(
        arg_text(bytes),
    ) == bytes
    &&& !valid_utf8(bytes) ==> arg_text(bytes).len() == 0
}

/// An argument that is valid UTF-8 is decoded in full, whatever its length:
/// encoding the text gives back every byte, so the text is empty only for
/// an empty argument. Any other argument reads as the empty string.
pub proof fn lemma_arg_text(bytes: Seq<u8>)
    ensures
        valid_utf8(bytes) ==> arg_text(bytes) == decode_utf8(bytes) && encode_utf8(
            arg_text(bytes),
        ) == bytes,
        valid_utf8(bytes) && bytes.len() > 0 ==> arg_text(bytes).len() > 0,
        !valid_utf8(bytes) ==> arg_text(bytes).len() == 0,
{
    if valid_utf8(bytes) {
        decode_utf8_encode_utf8(bytes);
        if bytes.len() > 0 && arg_text(bytes).len() == 0 {
            assert(arg_text(bytes) =~= Seq::<char>::empty());
            assert(encode_utf8(Seq::<char>::empty()) =~= Seq::<u8>::empty());
        }
    }
}

/// The command line from the raw arguments the process was started with:
/// each argument decoded as UTF-8, or empty where it is not valid UTF-8.
pub fn cmdline(argv: &Vec<Vec<u8>>) -> (r: Vec<String>)
    ensures
        r@.len() == argv@.len(),
        forall|i: int| 0 <= i < argv@.len() ==> (#[trigger] r@[i])@ == arg_text(argv@[i]@),
        forall|i: int|
            0 <= i < argv@.len() && valid_utf8(argv@[i]@) ==> (#[trigger] r@[i])@ == decode_utf8(
                argv@[i]@,
            ) && encode_utf8(r@[i]@) == argv@[i]@,
        forall|i: int|
            0 <= i < argv@.len() && !valid_utf8(argv@[i]@) ==> (#[trigger] r@[i])@.len() == 0,
{
    proof {
        assert forall|i: int| 0 <= i < argv@.len() implies arg_text_facts(argv@[i]@) by {
            lemma_arg_text(argv@[i]@);
        }
    }
    let mut r: Vec<String> = Vec::new();
    let n: usize = argv.len();
    for i in 0..n
        invariant
            n == argv@.len(),
            r@.len() == i,
            forall|j: int| 0 <= j < i ==> (#[trigger] r@[j])@ == arg_text(argv@[j]@),
    {
        let bytes = argv[i].clone();
        let text = match string_from_utf8(bytes) {
            Some(s) => s,
            None => String::new(),
        };
        r.push(text);
    }
    r
}

/// The path of the executable: the first argument of the command line.
pub fn exe(cmdline: &Vec<String>) -> (r: String)
    requires
        cmdline@.len() > 0,
    ensures
        r@ == string_views(cmdline@)[0],
{
    cmdline[0].clone()
}

} // verus!
