use vstd::prelude::*;

verus! {

/// A list of strings as character sequences.
pub open spec fn string_views(strings: Seq<String>) -> Seq<Seq<char>> {
    strings.map_values(|a: String| a@)
}

/// The pieces of `s` between occurrences of `sep`: one more piece than there
/// are separators, empty pieces included.
pub open spec fn split_on(s: Seq<char>, sep: char) -> Seq<Seq<char>>
    decreases s.len(),
{
    if s.len() == 0 {
        seq![Seq::<char>::empty()]
    } else {
        let p = split_on(s.drop_last(), sep);
        if s.last() == sep {
            p.push(Seq::<char>::empty())
        } else {
            p.update(p.len() - 1, p.last().push(s.last()))
        }
    }
}

/// The pieces joined with `sep` between each two.
pub open spec fn join_on(pieces: Seq<Seq<char>>, sep: char) -> Seq<char>
    decreases pieces.len(),
{
    if pieces.len() == 0 {
        Seq::empty()
    } else if pieces.len() == 1 {
        pieces[0]
    } else {
        join_on(pieces.drop_last(), sep) + seq![sep] + pieces.last()
    }
}

pub proof fn lemma_split_nonempty(s: Seq<char>, sep: char)
    ensures
        split_on(s, sep).len() >= 1,
    decreases s.len(),
{
    if s.len() > 0 {
        lemma_split_nonempty(s.drop_last(), sep);
    }
}

/// Joining a list whose last piece grows by one character grows the joined
/// text by that character.
proof fn lemma_join_extend_last(ps: Seq<Seq<char>>, sep: char, c: char)
    requires
        ps.len() >= 1,
    ensures
        join_on(ps.update(ps.len() - 1, ps.last().push(c)), sep) == join_on(ps, sep).push(c),
{
    let qs = ps.update(ps.len() - 1, ps.last().push(c));
    if ps.len() == 1 {
        assert(qs[0] == ps[0].push(c));
    } else {
        assert(qs.drop_last() =~= ps.drop_last());
        assert(join_on(qs, sep) =~= join_on(ps, sep).push(c));
    }
}

/// Splitting at a separator and joining with it gives back the text, and no
/// piece holds the separator.
pub proof fn lemma_join_split(s: Seq<char>, sep: char)
    ensures
        join_on(split_on(s, sep), sep) == s,
        forall|k: int|
            0 <= k < split_on(s, sep).len() ==> !(#[trigger] split_on(s, sep)[k]).contains(sep),
    decreases s.len(),
{
    if s.len() == 0 {
        assert(!Seq::<char>::empty().contains(sep));
    } else {
        let prev = s.drop_last();
        lemma_join_split(prev, sep);
        lemma_split_nonempty(prev, sep);
        let p = split_on(prev, sep);
        if s.last() == sep {
            let q = p.push(Seq::<char>::empty());
            assert(q.drop_last() =~= p);
            assert(join_on(q, sep) =~= s);
            assert forall|k: int| 0 <= k < q.len() implies !(#[trigger] q[k]).contains(sep) by {
                if k < p.len() {
                    assert(q[k] == p[k]);
                } else {
                    assert(q[k] =~= Seq::<char>::empty());
                }
            }
        } else {
            let q = p.update(p.len() - 1, p.last().push(s.last()));
            lemma_join_extend_last(p, sep, s.last());
            assert(join_on(q, sep) =~= s);
            assert forall|k: int| 0 <= k < q.len() implies !(#[trigger] q[k]).contains(sep) by {
                if k < p.len() - 1 {
                    assert(q[k] == p[k]);
                } else {
                    let last = p.last().push(s.last());
                    assert(q[k] == last);
                    assert(!p[p.len() - 1].contains(sep));
                    if last.contains(sep) {
                        let j = choose|j: int| 0 <= j < last.len() && last[j] == sep;
                        if j < last.len() - 1 {
                            assert(p.last()[j] == sep);
                        }
                    }
                }
            }
        }
    }
}

/// Appending text without the separator extends the last piece by that
/// text.
proof fn lemma_split_append(x: Seq<char>, y: Seq<char>, sep: char)
    requires
        !y.contains(sep),
    ensures
        split_on(x + y, sep) == split_on(x, sep).update(
            split_on(x, sep).len() - 1,
            split_on(x, sep).last() + y,
        ),
    decreases y.len(),
{
    lemma_split_nonempty(x, sep);
    let p = split_on(x, sep);
    if y.len() == 0 {
        assert(x + y =~= x);
        assert(p.last() + y =~= p.last());
        assert(p.update(p.len() - 1, p.last() + y) =~= p);
    } else {
        let y0 = y.drop_last();
        assert(!y0.contains(sep)) by {
            if y0.contains(sep) {
                let j = choose|j: int| 0 <= j < y0.len() && y0[j] == sep;
                assert(y[j] == sep);
            }
        }
        lemma_split_append(x, y0, sep);
        assert((x + y).drop_last() =~= x + y0);
        assert((x + y).last() == y.last());
        assert(y.last() != sep) by {
            assert(y[y.len() - 1] == y.last());
        }
        let q = p.update(p.len() - 1, p.last() + y0);
        assert(q.last() == p.last() + y0);
        assert(q.last().push(y.last()) =~= p.last() + y);
        assert(q.update(q.len() - 1, q.last().push(y.last())) =~= p.update(
            p.len() - 1,
            p.last() + y,
        ));
    }
}

/// Joining pieces that hold no separator and splitting the result gives back
/// the pieces.
pub proof fn lemma_split_join(ps: Seq<Seq<char>>, sep: char)
    requires
        ps.len() >= 1,
        forall|k: int| 0 <= k < ps.len() ==> !(#[trigger] ps[k]).contains(sep),
    ensures
        split_on(join_on(ps, sep), sep) == ps,
    decreases ps.len(),
{
    if ps.len() == 1 {
        lemma_split_append(Seq::<char>::empty(), ps[0], sep);
        assert(Seq::<char>::empty() + ps[0] =~= ps[0]);
        assert(split_on(Seq::<char>::empty(), sep) =~= seq![Seq::<char>::empty()]);
        assert(split_on(join_on(ps, sep), sep) =~= ps);
    } else {
        let init = ps.drop_last();
        assert forall|k: int| 0 <= k < init.len() implies !(#[trigger] init[k]).contains(sep) by {
            assert(init[k] == ps[k]);
        }
        lemma_split_join(init, sep);
        let x = join_on(init, sep) + seq![sep];
        assert(x.drop_last() =~= join_on(init, sep));
        assert(x.last() == sep);
        assert(split_on(x, sep) == init.push(Seq::<char>::empty()));
        assert(!ps.last().contains(sep)) by {
            assert(ps[ps.len() - 1] == ps.last());
        }
        lemma_split_append(x, ps.last(), sep);
        assert(Seq::<char>::empty() + ps.last() =~= ps.last());
        assert(split_on(join_on(ps, sep), sep) =~= ps);
    }
}

} // verus!
