//! Verified string building blocks the engine is made of: splitting on a
//! separator character, filtering empty tokens, character replacement, and
//! rendering integers and booleans as text.

use vstd::prelude::*;

verus! {

/// The views of a sequence of strings.
pub open spec fn seq_views(ss: Seq<String>) -> Seq<Seq<char>> {
    ss.map_values(|s: String| s@)
}

pub proof fn lemma_seq_views_push(ss: Seq<String>, s: String)
    ensures
        seq_views(ss.push(s)) == seq_views(ss).push(s@),
{
    assert(seq_views(ss.push(s)) =~= seq_views(ss).push(s@));
}

/// String equality, stated over the views.
pub(crate) fn string_eq(a: &String, b: &String) -> (r: bool)
    ensures
        r == (a@ == b@),
{
    a.eq(b)
}

/// A copy of an optional string, equal to the original as a value.
pub(crate) fn clone_opt_string(o: &Option<String>) -> (r: Option<String>)
    ensures
        r == *o,
{
    match o {
        Option::Some(s) => Option::Some(s.clone()),
        Option::None => Option::None,
    }
}

/// Relies on std's String::push: appends the given character to the end of
/// the string.
pub assume_specification[ String::push ](s: &mut String, c: char)
    ensures
        final(s)@ == old(s)@.push(c),
;

/// Splitting, expressed as a scan: `cur` is the token being accumulated.
/// Every separator ends a token; the end of input ends the last one. All
/// tokens, empty ones included, are kept, so a string with `k` separators
/// splits into exactly `k + 1` tokens.
pub open spec fn split_acc(s: Seq<char>, sep: char, cur: Seq<char>) -> Seq<Seq<char>>
    decreases s.len(),
{
    if s.len() == 0 {
        seq![cur]
    } else if s[0] == sep {
        seq![cur] + split_acc(s.skip(1), sep, Seq::empty())
    } else {
        split_acc(s.skip(1), sep, cur.push(s[0]))
    }
}

/// The tokens of `s` between occurrences of the separator `sep`.
pub open spec fn split_char(s: Seq<char>, sep: char) -> Seq<Seq<char>> {
    split_acc(s, sep, Seq::empty())
}

/// The non-empty tokens among `parts`, in order.
pub open spec fn nonempty_tokens(parts: Seq<Seq<char>>) -> Seq<Seq<char>> {
    parts.filter(|p: Seq<char>| p.len() > 0)
}

/// Split a string on a separator character, keeping empty tokens.
pub fn split_string(s: &String, sep: char) -> (parts: Vec<String>)
    ensures
        seq_views(parts@) == split_char(s@, sep),
{
    let mut parts: Vec<String> = Vec::new();
    let mut cur = String::new();
    let n = s.as_str().unicode_len();
    proof {
        assert(s@.skip(0) =~= s@);
        assert(seq_views(parts@) =~= Seq::<Seq<char>>::empty());
        assert(seq_views(parts@) + split_acc(s@, sep, cur@) =~= split_acc(s@, sep, cur@));
    }
    for i in 0..n
        invariant
            n == s@.len(),
            split_char(s@, sep) == seq_views(parts@) + split_acc(s@.skip(i as int), sep, cur@),
    {
        let c = s.as_str().get_char(i);
        proof {
            assert(s@.skip(i as int).skip(1) =~= s@.skip(i as int + 1));
            assert(s@.skip(i as int)[0] == s@[i as int]);
        }
        if c == sep {
            let ghost old_parts = parts@;
            let ghost cur_old = cur@;
            parts.push(cur);
            cur = String::new();
            proof {
                lemma_seq_views_push(old_parts, parts@.last());
                assert(parts@ == old_parts.push(parts@.last()));
                assert(parts@.last()@ == cur_old);
                assert(seq_views(parts@) + split_acc(s@.skip(i as int + 1), sep, cur@) =~= seq_views(
                    old_parts,
                ) + (seq![cur_old] + split_acc(s@.skip(i as int + 1), sep, Seq::empty())));
            }
        } else {
            cur.push(c);
        }
    }
    proof {
        assert(s@.skip(n as int) =~= Seq::<char>::empty());
    }
    let ghost old_parts = parts@;
    let ghost last_cur = cur@;
    parts.push(cur);
    proof {
        lemma_seq_views_push(old_parts, parts@.last());
        assert(parts@.last()@ == last_cur);
        assert(seq_views(parts@) =~= seq_views(old_parts) + seq![last_cur]);
    }
    parts
}

/// Split a string on a separator character and keep only non-empty tokens.
pub fn split_string_nonempty(s: &String, sep: char) -> (parts: Vec<String>)
    ensures
        seq_views(parts@) == nonempty_tokens(split_char(s@, sep)),
{
    let all = split_string(s, sep);
    let mut parts: Vec<String> = Vec::new();
    let n = all.len();
    proof {
        reveal(Seq::filter);
        assert(seq_views(all@).take(0) =~= Seq::<Seq<char>>::empty());
        assert(Seq::<Seq<char>>::empty().filter(|p: Seq<char>| p.len() > 0)
            =~= Seq::<Seq<char>>::empty());
        assert(seq_views(parts@) =~= Seq::<Seq<char>>::empty());
    }
    for i in 0..n
        invariant
            n == all@.len(),
            seq_views(parts@) == nonempty_tokens(seq_views(all@).take(i as int)),
    {
        let ghost prefix = seq_views(all@).take(i as int);
        let ghost x = all@[i as int]@;
        proof {
            reveal(Seq::filter);
            assert(seq_views(all@).take(i as int + 1) =~= prefix.push(x));
            assert(prefix.push(x).drop_last() =~= prefix);
            assert(prefix.push(x).last() == x);
        }
        if !all[i].as_str().is_empty() {
            let ghost old_parts = parts@;
            parts.push(all[i].clone());
            proof {
                lemma_seq_views_push(old_parts, parts@.last());
            }
        }
    }
    proof {
        assert(seq_views(all@).take(n as int) =~= seq_views(all@));
    }
    parts
}

/// `s` with every occurrence of `from` replaced by `to`.
pub open spec fn replace_char(s: Seq<char>, from: char, to: char) -> Seq<char> {
    s.map_values(|c: char| if c == from { to } else { c })
}

/// Replace every occurrence of one character by another.
pub fn replace_char_exec(s: &String, from: char, to: char) -> (r: String)
    ensures
        r@ == replace_char(s@, from, to),
{
    let mut out = String::new();
    let n = s.as_str().unicode_len();
    proof {
        assert(out@ =~= replace_char(s@.take(0), from, to));
    }
    for i in 0..n
        invariant
            n == s@.len(),
            out@ == replace_char(s@.take(i as int), from, to),
    {
        let c = s.as_str().get_char(i);
        if c == from {
            out.push(to);
        } else {
            out.push(c);
        }
        proof {
            assert(out@ =~= replace_char(s@.take(i as int + 1), from, to));
        }
    }
    proof {
        assert(s@.take(n as int) =~= s@);
    }
    out
}

/// The decimal digit character for a value below ten.
pub open spec fn decimal_digit(d: int) -> char {
    if d == 0 {
        '0'
    } else if d == 1 {
        '1'
    } else if d == 2 {
        '2'
    } else if d == 3 {
        '3'
    } else if d == 4 {
        '4'
    } else if d == 5 {
        '5'
    } else if d == 6 {
        '6'
    } else if d == 7 {
        '7'
    } else {
        if d == 8 {
            '8'
        } else {
            '9'
        }
    }
}

/// The decimal rendering of a non-negative integer, most significant digit
/// first, without leading zeros (zero itself renders as one digit).
pub open spec fn decimal_rep(n: int) -> Seq<char>
    decreases n,
{
    if n < 10 {
        seq![decimal_digit(n)]
    } else {
        decimal_rep(n / 10).push(decimal_digit(n % 10))
    }
}

fn decimal_digit_char(d: u64) -> (c: char)
    requires
        d < 10,
    ensures
        c == decimal_digit(d as int),
{
    if d == 0 {
        '0'
    } else if d == 1 {
        '1'
    } else if d == 2 {
        '2'
    } else if d == 3 {
        '3'
    } else if d == 4 {
        '4'
    } else if d == 5 {
        '5'
    } else if d == 6 {
        '6'
    } else if d == 7 {
        '7'
    } else if d == 8 {
        '8'
    } else {
        '9'
    }
}

fn push_decimal(n: u64, s: &mut String)
    ensures
        final(s)@ == old(s)@ + decimal_rep(n as int),
    decreases n,
{
    if n >= 10 {
        push_decimal(n / 10, s);
    }
    s.push(decimal_digit_char(n % 10));
    proof {
        if n < 10 {
            assert(s@ =~= old(s)@ + decimal_rep(n as int));
        } else {
            assert((n / 10) as int == n as int / 10);
            assert((n % 10) as int == n as int % 10);
            assert(s@ =~= old(s)@ + decimal_rep(n as int));
        }
        assert(s@ == old(s)@ + decimal_rep(n as int));
    }
}

/// The decimal rendering of `n`.
pub fn u64_to_string(n: u64) -> (s: String)
    ensures
        s@ == decimal_rep(n as int),
{
    let mut s = String::new();
    push_decimal(n, &mut s);
    proof {
        assert(s@ =~= decimal_rep(n as int));
    }
    s
}

/// The textual form of a boolean.
pub open spec fn bool_rep(b: bool) -> Seq<char> {
    if b {
        "true"@
    } else {
        "false"@
    }
}

/// Render a boolean as `true` or `false`.
pub fn bool_to_string(b: bool) -> (s: String)
    ensures
        s@ == bool_rep(b),
{
    if b {
        String::from_str("true")
    } else {
        String::from_str("false")
    }
}

} // verus!
