use vstd::prelude::*;
use vstd::std_specs::iter::IteratorSpec;

use crate::text::string_views;

verus! {

broadcast use vstd::string::group_string_axioms;

pub open spec fn is_digit(c: char) -> bool {
    '0' <= c && c <= '9'
}

pub open spec fn all_digits(ds: Seq<char>) -> bool {
    forall|i: int| 0 <= i < ds.len() ==> is_digit(#[trigger] ds[i])
}

/// The value of a string of decimal digits, most significant first.
pub open spec fn digits_value(ds: Seq<char>) -> int
    decreases ds.len(),
{
    if ds.len() == 0 {
        0
    } else {
        digits_value(ds.drop_last()) * 10 + ((ds.last() as int) - ('0' as int))
    }
}

pub open spec fn has_sign(s: Seq<char>) -> bool {
    s.len() > 0 && (s[0] == '-' || s[0] == '+')
}

/// The digits of a number: what follows a leading sign, if there is one.
pub open spec fn digit_part(s: Seq<char>) -> Seq<char> {
    if has_sign(s) {
        s.skip(1)
    } else {
        s
    }
}

/// The integer that a string writes in decimal: an optional `+` or `-`,
/// then one or more ASCII digits, and nothing else.
pub open spec fn decimal_value(s: Seq<char>) -> Option<int> {
    let ds = digit_part(s);
    if ds.len() > 0 && all_digits(ds) {
        Some(if s[0] == '-' { -digits_value(ds) } else { digits_value(ds) })
    } else {
        None
    }
}

/// What reading a string as a C `int` gives: its decimal value, where that
/// fits in 32 bits.
pub open spec fn parsed_c_int(s: Seq<char>) -> Option<i32> {
    match decimal_value(s) {
        Some(v) => if i32::MIN <= v <= i32::MAX {
            Some(v as i32)
        } else {
            None
        },
        None => None,
    }
}

proof fn lemma_digits_value_nonneg(ds: Seq<char>)
    requires
        all_digits(ds),
    ensures
        digits_value(ds) >= 0,
    decreases ds.len(),
{
    if ds.len() > 0 {
        lemma_digits_value_nonneg(ds.drop_last());
    }
}

/// A single digit reads as its value.
pub proof fn lemma_parse_digit(c: char)
    ensures
        '0' <= c <= '9' ==> parsed_c_int(seq![c]) == Some(((c as int) - ('0' as int)) as i32),
{
    if '0' <= c <= '9' {
        let s = seq![c];
        assert(!has_sign(s));
        assert(digit_part(s) == s);
        assert(s.drop_last() =~= Seq::<char>::empty());
        assert(all_digits(s));
        assert(s.last() == c);
        assert(s.drop_last().len() == 0);
        assert(digits_value(s.drop_last()) == 0);
        assert(digits_value(s) == (c as int) - ('0' as int));
        assert(decimal_value(s) == Some((c as int) - ('0' as int)));
    }
}

/// Appending a digit to a non-negative number multiplies it by ten and adds
/// the digit, while the result fits.
pub proof fn lemma_parse_append_digit(s: Seq<char>, c: char, v: i32)
    requires
        parsed_c_int(s) == Some(v),
        s[0] != '-',
        '0' <= c <= '9',
        (v as int) * 10 + ((c as int) - ('0' as int)) <= i32::MAX,
    ensures
        parsed_c_int(s.push(c)) == Some(((v as int) * 10 + ((c as int) - ('0' as int))) as i32),
{
    let t = s.push(c);
    let ds = digit_part(s);
    assert(s.len() > 0);
    assert(has_sign(t) == has_sign(s));
    assert(digit_part(t) =~= ds.push(c));
    assert(digit_part(t).drop_last() =~= ds);
    assert(all_digits(digit_part(t))) by {
        assert forall|i: int| 0 <= i < digit_part(t).len() implies is_digit(
            #[trigger] digit_part(t)[i],
        ) by {
            if i < ds.len() {
                assert(digit_part(t)[i] == ds[i]);
            }
        }
    }
    assert(t[0] == s[0]);
    assert(ds.len() > 0 && all_digits(ds));
    assert(decimal_value(s) == Some(digits_value(ds)));
    assert(digits_value(ds) == v as int);
    assert(digit_part(t).last() == c);
    assert(digits_value(digit_part(t)) == digits_value(ds) * 10 + ((c as int) - ('0' as int)));
    lemma_digits_value_nonneg(ds);
    assert(decimal_value(t) == Some(digits_value(digit_part(t))));
}

/// A leading `+` changes nothing, and a leading `-` negates, before a string
/// of digits.
pub proof fn lemma_parse_sign(s: Seq<char>, v: i32)
    requires
        parsed_c_int(s) == Some(v),
        '0' <= s[0] <= '9',
    ensures
        parsed_c_int(seq!['+'] + s) == Some(v),
        parsed_c_int(seq!['-'] + s) == Some((-(v as int)) as i32),
{
    let p = seq!['+'] + s;
    let m = seq!['-'] + s;
    assert(!has_sign(s));
    assert(has_sign(p));
    assert(has_sign(m));
    assert(digit_part(p) =~= s);
    assert(digit_part(m) =~= s);
    assert(digit_part(s) == s);
    lemma_digits_value_nonneg(s);
}

/// Nothing but an optional sign and digits reads as a number: the empty
/// string, a string with any other character after the first, and a string
/// whose first character is neither a sign nor a digit give `None`.
pub proof fn lemma_parse_rejects(s: Seq<char>)
    ensures
        s.len() == 0 ==> parsed_c_int(s) is None,
        (exists|i: int| 1 <= i < s.len() && !('0' <= #[trigger] s[i] <= '9')) ==> parsed_c_int(
            s,
        ) is None,
        s.len() > 0 && !('0' <= s[0] <= '9') && s[0] != '+' && s[0] != '-' ==> parsed_c_int(
            s,
        ) is None,
        s == seq!['+'] || s == seq!['-'] ==> parsed_c_int(s) is None,
{
    if exists|i: int| 1 <= i < s.len() && !('0' <= #[trigger] s[i] <= '9') {
        let i = choose|i: int| 1 <= i < s.len() && !('0' <= #[trigger] s[i] <= '9');
        let ds = digit_part(s);
        if has_sign(s) {
            assert(ds[i - 1] == s[i]);
        } else {
            assert(ds[i] == s[i]);
        }
    }
    if s.len() > 0 && !('0' <= s[0] <= '9') && s[0] != '+' && s[0] != '-' {
        assert(digit_part(s)[0] == s[0]);
    }
    if s == seq!['+'] || s == seq!['-'] {
        assert(digit_part(s).len() == 0);
    }
}

/// Any value at or above this one is out of range for a C `int`, whatever
/// its sign.
const DIGITS_CAP: i64 = 2147483649;

/// Reads a string as a C `int` the way `str::parse::<i32>` does: an optional
/// sign and decimal digits, within the range of `i32`.
pub fn parse_c_int(s: &str) -> (r: Option<i32>)
    ensures
        r == parsed_c_int(s@),
{
    let mut first = true;
    let mut signed = false;
    let mut negative = false;
    let mut all_ok = true;
    let mut has_body = false;
    let mut acc: i64 = 0;
    for c in it: s.chars()
        invariant
            it.seq() == s@,
            first == (it.index() == 0),
            signed == has_sign(s@.take(it.index() as int)),
            negative == (it.index() > 0 && s@[0] == '-'),
            all_ok == all_digits(digit_part(s@.take(it.index() as int))),
            has_body == (digit_part(s@.take(it.index() as int)).len() > 0),
            0 <= acc <= DIGITS_CAP,
            all_ok ==> (acc == if digits_value(digit_part(s@.take(it.index() as int)))
                < DIGITS_CAP {
                digits_value(digit_part(s@.take(it.index() as int)))
            } else {
                DIGITS_CAP as int
            }),
    {
        let ghost k = it.index() as int;
        let ghost p = s@.take(k);
        let ghost q = s@.take(k + 1);
        assert(q =~= p.push(c));
        if first && (c == '-' || c == '+') {
            signed = true;
            negative = c == '-';
            assert(digit_part(q) =~= Seq::<char>::empty());
        } else {
            assert(digit_part(q) =~= digit_part(p).push(c));
            assert(digit_part(q).drop_last() =~= digit_part(p));
            proof {
                let dp = digit_part(p);
                let dq = digit_part(q);
                assert(dq[dq.len() - 1] == c);
                assert(forall|i: int| 0 <= i < dp.len() ==> dq[i] == dp[i]);
                if !all_digits(dp) {
                    let j = choose|j: int| 0 <= j < dp.len() && !is_digit(dp[j]);
                    assert(dq[j] == dp[j]);
                }
                if all_digits(dp) && is_digit(c) {
                    assert forall|i: int| 0 <= i < dq.len() implies is_digit(#[trigger] dq[i]) by {
                        if i < dp.len() {
                            assert(dq[i] == dp[i]);
                        }
                    }
                }
            }
            if '0' <= c && c <= '9' {
                let d: i64 = (c as u32 - '0' as u32) as i64;
                if all_ok {
                    proof {
                        lemma_digits_value_nonneg(digit_part(p));
                    }
                    let next: i64 = acc * 10 + d;
                    acc = if next < DIGITS_CAP {
                        next
                    } else {
                        DIGITS_CAP
                    };
                }
            } else {
                all_ok = false;
            }
            has_body = true;
        }
        first = false;
    }
    assert(s@.take(s@.len() as int) =~= s@);
    if !all_ok || !has_body {
        None
    } else if negative {
        if acc <= 2147483648 {
            Some((0 - acc) as i32)
        } else {
            None
        }
    } else {
        if acc <= 2147483647 {
            Some(acc as i32)
        } else {
            None
        }
    }
}

/// The integers among a list of strings, in order; strings that are not a
/// C `int` are left out.
pub open spec fn int_args(args: Seq<Seq<char>>) -> Seq<i32>
    decreases args.len(),
{
    if args.len() == 0 {
        Seq::empty()
    } else {
        let rest = int_args(args.drop_last());
        match parsed_c_int(args.last()) {
            Some(v) => rest.push(v),
            None => rest,
        }
    }
}

/// How many of the strings read as a C `int`.
pub open spec fn parsing_count(args: Seq<Seq<char>>) -> nat
    decreases args.len(),
{
    if args.len() == 0 {
        0
    } else {
        parsing_count(args.drop_last()) + if parsed_c_int(args.last()) is Some {
            1nat
        } else {
            0nat
        }
    }
}

/// Every string that reads as a C `int` gives one entry, whatever its value:
/// the entry for string `i` sits after one entry for each earlier string that
/// reads as a C `int`, and there are no other entries.
pub proof fn lemma_int_args_keeps_every_int(args: Seq<Seq<char>>)
    ensures
        int_args(args).len() == parsing_count(args),
        forall|i: int|
            0 <= i < args.len() && (#[trigger] parsed_c_int(args[i])) is Some ==> parsing_count(
                args.take(i),
            ) < int_args(args).len() && int_args(args)[parsing_count(args.take(i)) as int]
                == parsed_c_int(args[i])->0,
    decreases args.len(),
{
    if args.len() > 0 {
        let init = args.drop_last();
        lemma_int_args_keeps_every_int(init);
        assert forall|i: int|
            0 <= i < args.len() && (#[trigger] parsed_c_int(args[i])) is Some implies parsing_count(
                args.take(i),
            ) < int_args(args).len() && int_args(args)[parsing_count(args.take(i)) as int]
                == parsed_c_int(args[i])->0 by {
            if i < args.len() - 1 {
                assert(args.take(i) =~= init.take(i));
                assert(init[i] == args[i]);
                assert(parsed_c_int(init[i]) is Some);
            } else {
                assert(args.take(i) =~= init);
            }
        }
    }
}

/// The arguments after the program name.
pub open spec fn operands(args: Seq<Seq<char>>) -> Seq<Seq<char>> {
    if args.len() == 0 {
        args
    } else {
        args.drop_first()
    }
}

/// The integer arguments of a command line: every argument after the program
/// name that reads as a C `int`, in order.
pub fn parse_args(args: &Vec<String>) -> (r: Vec<i32>)
    ensures
        r@ == int_args(operands(string_views(args@))),
        r@.len() == parsing_count(operands(string_views(args@))),
        forall|i: int|
            0 <= i < operands(string_views(args@)).len() && (#[trigger] parsed_c_int(
                operands(string_views(args@))[i],
            )) is Some ==> r@[parsing_count(operands(string_views(args@)).take(i)) as int]
                == parsed_c_int(operands(string_views(args@))[i])->0,
{
    let ghost views = string_views(args@);
    proof {
        lemma_int_args_keeps_every_int(operands(views));
    }
    let mut r: Vec<i32> = Vec::new();
    if args.len() == 0 {
        return r;
    }
    let n: usize = args.len();
    let mut i: usize = 1;
    while i < n
        invariant
            n == args.len(),
            views == string_views(args@),
            1 <= i <= n,
            r@ == int_args(views.subrange(1, i as int)),
        decreases n - i,
    {
        let v = parse_c_int(args[i].as_str());
        proof {
            let next = views.subrange(1, i + 1);
            assert(next.drop_last() =~= views.subrange(1, i as int));
            assert(next.last() == args@[i as int]@);
        }
        match v {
            Some(x) => r.push(x),
            None => {},
        }
        i = i + 1;
    }
    assert(views.subrange(1, n as int) =~= operands(views));
    r
}

/// The game mode that starts a custom level from its beginning.
pub const GAMEMODE_CUSTOM_LEVEL: i32 = 22;

/// The game mode that starts a custom level from a quicksave.
pub const GAMEMODE_CUSTOM_LEVEL_QUICKLOAD: i32 = 23;

/// The exit status for a command line of the wrong shape (`EX_USAGE`).
pub const EX_USAGE: i32 = 64;

/// What the title screen does with the integer arguments of the command line.
#[derive(Clone, Copy, Debug, PartialEq, Eq, Structural)]
pub enum TitleAction {
    /// No arguments: the title screen runs as usual.
    Passthrough,
    /// Start custom level number `level` in `gamemode`; clear the fade when
    /// `reset_fade`; play song `music` if there is one.
    StartLevel { gamemode: i32, level: i32, reset_fade: bool, music: Option<i32> },
    /// Any other number of arguments: report it and exit with `EX_USAGE`.
    BadArgCount { count: usize },
}

pub open spec fn title_action_of(args: Seq<i32>) -> TitleAction {
    let n: nat = args.len();
    if n == 0 {
        TitleAction::Passthrough
    } else if n == 1 || n == 6 || n == 7 {
        TitleAction::StartLevel {
            gamemode: if n == 1 {
                GAMEMODE_CUSTOM_LEVEL
            } else {
                GAMEMODE_CUSTOM_LEVEL_QUICKLOAD
            },
            level: args[0],
            reset_fade: n >= 6,
            music: if n == 7 {
                Some(args[6])
            } else {
                None
            },
        }
    } else {
        TitleAction::BadArgCount { count: n as usize }
    }
}

/// Decides the title screen's action from the integer arguments: none runs
/// the title screen; one (a level), six (a level and a saved position) or
/// seven (those and a song) start that custom level; any other count is an
/// error.
pub fn title_action(args: &Vec<i32>) -> (r: TitleAction)
    ensures
        r == title_action_of(args@),
        args@.len() == 0 ==> r == TitleAction::Passthrough,
        args@.len() == 1 ==> r == (TitleAction::StartLevel {
            gamemode: 22,
            level: args@[0],
            reset_fade: false,
            music: None,
        }),
        args@.len() == 6 ==> r == (TitleAction::StartLevel {
            gamemode: 23,
            level: args@[0],
            reset_fade: true,
            music: None,
        }),
        args@.len() == 7 ==> r == (TitleAction::StartLevel {
            gamemode: 23,
            level: args@[0],
            reset_fade: true,
            music: Some(args@[6]),
        }),
        !(args@.len() == 0 || args@.len() == 1 || args@.len() == 6 || args@.len() == 7) ==> r
            == (TitleAction::BadArgCount { count: args@.len() as usize }),
{
    let n: usize = args.len();
    if n == 0 {
        TitleAction::Passthrough
    } else if n == 1 || n == 6 || n == 7 {
        let gamemode: i32 = if n == 1 {
            GAMEMODE_CUSTOM_LEVEL
        } else {
            GAMEMODE_CUSTOM_LEVEL_QUICKLOAD
        };
        let music = if n == 7 {
            Some(args[6])
        } else {
            None
        };
        TitleAction::StartLevel { gamemode, level: args[0], reset_fade: n >= 6, music }
    } else {
        TitleAction::BadArgCount { count: n }
    }
}

/// A position in a custom level, as a quicksave holds it.
#[derive(Clone, Copy, Debug, PartialEq, Eq, Structural)]
pub struct SavePosition {
    pub savex: i32,
    pub savey: i32,
    pub saverx: i32,
    pub savery: i32,
    pub savegc: i32,
}

pub open spec fn quickload_position_of(args: Seq<i32>) -> Option<SavePosition> {
    if args.len() >= 6 {
        Some(
            SavePosition {
                savex: args[1],
                savey: args[2],
                saverx: args[3],
                savery: args[4],
                savegc: args[5],
            },
        )
    } else {
        None
    }
}

/// The position that a quickload takes from the integer arguments: with six
/// or more, arguments two to six are x, y, room x, room y and gravity.
pub fn quickload_position(args: &Vec<i32>) -> (r: Option<SavePosition>)
    ensures
        r == quickload_position_of(args@),
        args@.len() < 6 ==> r is None,
        args@.len() >= 6 ==> r == Some(
            SavePosition {
                savex: args@[1],
                savey: args@[2],
                saverx: args@[3],
                savery: args@[4],
                savegc: args@[5],
            },
        ),
{
    if args.len() >= 6 {
        Some(
            SavePosition {
                savex: args[1],
                savey: args[2],
                saverx: args[3],
                savery: args[4],
                savegc: args[5],
            },
        )
    } else {
        None
    }
}

/// The title screen's action for each argument count: none passes through;
/// one starts level `args[0]` from its beginning; six start it from a
/// quicksave with the fade cleared; seven do the same and play song
/// `args[6]`, whatever its number; any other count is reported as it is.
pub proof fn lemma_title_action_by_count(args: Seq<i32>)
    ensures
        args.len() == 0 ==> title_action_of(args) == TitleAction::Passthrough,
        args.len() == 1 ==> title_action_of(args) == (TitleAction::StartLevel {
            gamemode: 22,
            level: args[0],
            reset_fade: false,
            music: None,
        }),
        args.len() == 6 ==> title_action_of(args) == (TitleAction::StartLevel {
            gamemode: 23,
            level: args[0],
            reset_fade: true,
            music: None,
        }),
        args.len() == 7 ==> title_action_of(args) == (TitleAction::StartLevel {
            gamemode: 23,
            level: args[0],
            reset_fade: true,
            music: Some(args[6]),
        }),
        !(args.len() == 0 || args.len() == 1 || args.len() == 6 || args.len() == 7)
            ==> title_action_of(args) == (TitleAction::BadArgCount { count: args.len() as usize }),
{
}

/// The quickload position copies arguments two to six unchanged, whatever
/// their values, when there are six or more, and there is none otherwise.
pub proof fn lemma_quickload_copies_args(args: Seq<i32>)
    ensures
        args.len() < 6 ==> quickload_position_of(args) is None,
        args.len() >= 6 ==> (quickload_position_of(args) matches Some(p) && p.savex == args[1]
            && p.savey == args[2] && p.saverx == args[3] && p.savery == args[4] && p.savegc
            == args[5]),
{
}

/// A level started from the command line is started from a quicksave exactly
/// when the quickload that follows takes its position from the same
/// arguments, and only then is the fade cleared.
pub proof fn lemma_quickload_follows_start(args: Seq<i32>)
    ensures
        title_action_of(args) matches TitleAction::StartLevel { gamemode, reset_fade, .. }
            ==> ((gamemode == GAMEMODE_CUSTOM_LEVEL_QUICKLOAD) == (quickload_position_of(
            args,
        ) is Some) && reset_fade == (quickload_position_of(args) is Some)),
{
}

/// The title screen's action covers every argument count: it passes through
/// exactly when there is none, and reports every count other than 0, 1, 6
/// and 7.
pub proof fn lemma_title_action_counts(args: Seq<i32>)
    ensures
        (title_action_of(args) == TitleAction::Passthrough) == (args.len() == 0),
        (title_action_of(args) is BadArgCount) == !(args.len() == 0 || args.len() == 1
            || args.len() == 6 || args.len() == 7),
{
}

} // verus!
