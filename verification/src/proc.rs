use vstd::prelude::*;
use vstd::std_specs::iter::IteratorSpec;

use crate::text::{split_on, string_views};

verus! {

broadcast use vstd::string::group_string_axioms;

/// The process's command line from the contents of `/proc/self/cmdline`:
/// the pieces between NUL characters, in order. The file ends with a NUL, so
/// the last piece is empty.
pub fn cmdline(contents: &str) -> (r: Vec<String>)
    ensures
        string_views(r@) == split_on(contents@, '\0'),
{
    let n: usize = contents.unicode_len();
    let mut pieces: Vec<String> = Vec::new();
    let mut start: usize = 0;
    let mut i: usize = 0;
    assert(string_views(pieces@) =~= Seq::<Seq<char>>::empty());
    assert(contents@.subrange(0, 0) =~= Seq::<char>::empty());
    assert(contents@.take(0) =~= Seq::<char>::empty());
    assert(string_views(pieces@).push(contents@.subrange(0, 0)) =~= split_on(
        contents@.take(0),
        '\0',
    ));
    for c in it: contents.chars()
        invariant
            it.seq() == contents@,
            n == contents@.len(),
            i == it.index(),
            start <= i <= n,
            string_views(pieces@).push(contents@.subrange(start as int, i as int)) == split_on(
                contents@.take(i as int),
                '\0',
            ),
    {
        proof {
            let t = contents@.take(i + 1);
            assert(t.drop_last() =~= contents@.take(i as int));
            assert(t.last() == c);
        }
        if c == '\0' {
            let piece = String::from_str(contents.substring_char(start, i));
            let ghost before = string_views(pieces@);
            pieces.push(piece);
            assert(string_views(pieces@) =~= before.push(
                contents@.subrange(start as int, i as int),
            ));
            start = i + 1;
            assert(contents@.subrange(start as int, (i + 1) as int) =~= Seq::<char>::empty());
        } else {
            assert(contents@.subrange(start as int, (i + 1) as int) =~= contents@.subrange(
                start as int,
                i as int,
            ).push(c));
            assert(string_views(pieces@).push(contents@.subrange(start as int, (i + 1) as int))
                =~= string_views(pieces@).push(contents@.subrange(start as int, i as int)).update(
                string_views(pieces@).len() as int,
                contents@.subrange(start as int, i as int).push(c),
            ));
        }
        i = i + 1;
    }
    let last = String::from_str(contents.substring_char(start, n));
    let ghost before = string_views(pieces@);
    pieces.push(last);
    assert(string_views(pieces@) =~= before.push(contents@.subrange(start as int, n as int)));
    assert(contents@.take(n as int) =~= contents@);
    pieces
}

} // verus!
