//! Character-level text handling: conversion between strings and characters,
//! whitespace trimming, and decimal and hexadecimal numerals.
use vstd::prelude::*;

verus! {

/// The characters of `s`, in order.
pub fn chars_of(s: &str) -> (v: Vec<char>)
    ensures
        v@ == s@,
{
    let mut v: Vec<char> = Vec::new();
    for c in it: s.chars()
        invariant
            v@ == it.seq().take(it.index() as int),
    {
        v.push(c);
    }
    v
}

/// `String::push`: appends one character.
#[verifier::external_body]
fn push_char(s: &mut String, c: char)
    ensures
        final(s)@ == old(s)@.push(c),
{
    s.push(c);
}

/// A new string made of `v[from..to]`.
pub fn string_from(v: &Vec<char>, from: usize, to: usize) -> (s: String)
    requires
        from <= to <= v@.len(),
    ensures
        s@ == v@.subrange(from as int, to as int),
{
    let mut s = String::new();
    let mut i = from;
    while i < to
        invariant
            from <= i <= to <= v@.len(),
            s@ == v@.subrange(from as int, i as int),
        decreases to - i,
    {
        push_char(&mut s, v[i]);
        i = i + 1;
    }
    s
}

/// Whether `c` has Unicode's White_Space property, which is what
/// `char::is_whitespace` reports: tab through carriage return (U+0009 to U+000D),
/// space, next line (U+0085), no-break space (U+00A0), ogham space mark (U+1680),
/// the spaces from en quad to hair space (U+2000 to U+200A), the line and
/// paragraph separators (U+2028, U+2029), narrow no-break space (U+202F), medium
/// mathematical space (U+205F) and ideographic space (U+3000).
pub open spec fn unicode_white_space(c: char) -> bool {
    let n = c as u32;
    ||| 0x9 <= n <= 0xD
    ||| n == 0x20
    ||| n == 0x85
    ||| n == 0xA0
    ||| n == 0x1680
    ||| 0x2000 <= n <= 0x200A
    ||| n == 0x2028
    ||| n == 0x2029
    ||| n == 0x202F
    ||| n == 0x205F
    ||| n == 0x3000
}

/// Whether `c` is whitespace (`char::is_whitespace`).
pub fn is_whitespace(c: char) -> (r: bool)
    ensures
        r == unicode_white_space(c),
{
    let n = c as u32;
    (0x9 <= n && n <= 0xD) || n == 0x20 || n == 0x85 || n == 0xA0 || n == 0x1680 || (0x2000 <= n
        && n <= 0x200A) || n == 0x2028 || n == 0x2029 || n == 0x202F || n == 0x205F || n == 0x3000
}

/// How many whitespace characters `s` starts with.
pub open spec fn leading_ws(s: Seq<char>) -> nat
    decreases s.len(),
{
    if s.len() > 0 && unicode_white_space(s[0]) {
        1 + leading_ws(s.drop_first())
    } else {
        0
    }
}

/// How many whitespace characters `s` ends with.
pub open spec fn trailing_ws(s: Seq<char>) -> nat
    decreases s.len(),
{
    if s.len() > 0 && unicode_white_space(s.last()) {
        1 + trailing_ws(s.drop_last())
    } else {
        0
    }
}

/// `s` without its leading and trailing whitespace.
pub open spec fn trim_view(s: Seq<char>) -> Seq<char> {
    let t = s.skip(leading_ws(s) as int);
    t.take(t.len() - trailing_ws(t))
}

/// The bounds of `v[from..to]` once its leading and trailing whitespace is cut off.
pub fn trim_bounds(v: &Vec<char>, from: usize, to: usize) -> (r: (usize, usize))
    requires
        from <= to <= v@.len(),
    ensures
        from <= r.0 <= r.1 <= to,
        v@.subrange(r.0 as int, r.1 as int) == trim_view(v@.subrange(from as int, to as int)),
{
    let ghost s = v@.subrange(from as int, to as int);
    let mut i = from;
    while i < to && is_whitespace(v[i])
        invariant
            from <= i <= to <= v@.len(),
            leading_ws(s) == (i - from) + leading_ws(v@.subrange(i as int, to as int)),
            forall|k: int| from <= k < i ==> unicode_white_space(#[trigger] v@[k]),
        decreases to - i,
    {
        assert(v@.subrange(i as int, to as int).drop_first() =~= v@.subrange(i + 1, to as int));
        i = i + 1;
    }
    assert(leading_ws(v@.subrange(i as int, to as int)) == 0);
    assert(s.skip(leading_ws(s) as int) =~= v@.subrange(i as int, to as int));
    let ghost t = v@.subrange(i as int, to as int);
    let mut j = to;
    while j > i && is_whitespace(v[j - 1])
        invariant
            from <= i <= j <= to <= v@.len(),
            t == v@.subrange(i as int, to as int),
            trailing_ws(t) == (to - j) + trailing_ws(v@.subrange(i as int, j as int)),
        decreases j - i,
    {
        assert(v@.subrange(i as int, j as int).drop_last() =~= v@.subrange(i as int, j - 1));
        j = j - 1;
    }
    assert(trailing_ws(v@.subrange(i as int, j as int)) == 0);
    assert(t.take(t.len() - trailing_ws(t)) =~= v@.subrange(i as int, j as int));
    (i, j)
}

/// `str::trim`: `s` without leading and trailing whitespace.
pub fn trim(s: &str) -> (r: String)
    ensures
        r@ == trim_view(s@),
{
    let v = chars_of(s);
    let (a, b) = trim_bounds(&v, 0, v.len());
    assert(v@.subrange(0, v@.len() as int) =~= s@);
    string_from(&v, a, b)
}


/// The digit for `d` (below sixteen), in lower case past nine.
pub open spec fn digit_char(d: nat) -> char {
    if d < 10 {
        (d + 48) as char
    } else {
        (d + 87) as char
    }
}

/// The decimal numeral of `n`, without leading zeros.
pub open spec fn decimal(n: nat) -> Seq<char>
    decreases n,
{
    if n < 10 {
        seq![digit_char(n)]
    } else {
        decimal(n / 10).push(digit_char(n % 10))
    }
}

/// The lower-case hexadecimal numeral of `n`, without leading zeros.
pub open spec fn hexadecimal(n: nat) -> Seq<char>
    decreases n,
{
    if n < 16 {
        seq![digit_char(n)]
    } else {
        hexadecimal(n / 16).push(digit_char(n % 16))
    }
}

fn push_digit(out: &mut String, d: u64)
    requires
        d < 16,
    ensures
        final(out)@ == old(out)@.push(digit_char(d as nat)),
{
    let b: u8 = d as u8;
    let c: char = if b < 10 {
        (b + 48) as char
    } else {
        (b + 87) as char
    };
    push_char(out, c);
}

/// Appends the decimal numeral of `n` to `out`.
pub fn push_decimal(out: &mut String, n: u64)
    ensures
        final(out)@ == old(out)@ + decimal(n as nat),
    decreases n,
{
    if n >= 10 {
        push_decimal(out, n / 10);
    }
    push_digit(out, n % 10);
}

/// Appends the lower-case hexadecimal numeral of `n` to `out`.
pub fn push_hexadecimal(out: &mut String, n: u64)
    ensures
        final(out)@ == old(out)@ + hexadecimal(n as nat),
    decreases n,
{
    if n >= 16 {
        push_hexadecimal(out, n / 16);
    }
    push_digit(out, n % 16);
}

/// The first `n` characters of `s`, or all of them where it has fewer.
pub open spec fn prefix_view(s: Seq<char>, n: nat) -> Seq<char> {
    if s.len() <= n {
        s
    } else {
        s.take(n as int)
    }
}

/// The first `n` characters of `s` (`s.chars().take(n).collect()`).
pub fn prefix_chars(s: &str, n: usize) -> (r: String)
    ensures
        r@ == prefix_view(s@, n as nat),
{
    let v = chars_of(s);
    let end = if v.len() <= n {
        v.len()
    } else {
        n
    };
    let r = string_from(&v, 0, end);
    assert(v@.subrange(0, v@.len() as int) =~= v@);
    r
}

/// What follows the last comma of `s`; all of `s` where it has none.
pub open spec fn after_last_comma(s: Seq<char>) -> Seq<char>
    decreases s.len(),
{
    if s.len() == 0 {
        s
    } else if s.last() == ',' {
        Seq::empty()
    } else {
        after_last_comma(s.drop_last()).push(s.last())
    }
}

proof fn lemma_after_last_comma(s: Seq<char>, j: int)
    requires
        0 <= j <= s.len(),
        forall|k: int| j <= k < s.len() ==> s[k] != ',',
    ensures
        after_last_comma(s) == after_last_comma(s.take(j)) + s.skip(j),
    decreases s.len(),
{
    if j == s.len() {
        assert(s.take(j) =~= s);
        assert(s.skip(j) =~= Seq::<char>::empty());
    } else {
        lemma_after_last_comma(s.drop_last(), j);
        assert(s.drop_last().take(j) =~= s.take(j));
        assert(s.drop_last().skip(j).push(s.last()) =~= s.skip(j));
    }
}

/// `s.split(',').last()`: the text after the last comma of `s`.
pub fn after_comma(s: &str) -> (r: String)
    ensures
        r@ == after_last_comma(s@),
{
    let v = chars_of(s);
    let mut j = v.len();
    while j > 0 && v[j - 1] != ','
        invariant
            j <= v@.len(),
            v@ == s@,
            forall|k: int| j <= k < v@.len() ==> v@[k] != ',',
        decreases j,
    {
        j = j - 1;
    }
    proof {
        lemma_after_last_comma(v@, j as int);
        if j == 0 {
            assert(v@.take(0) =~= Seq::<char>::empty());
        } else {
            assert(v@.take(j as int).last() == ',');
        }
    }
    string_from(&v, j, v.len())
}

/// The pieces of `parts` with `sep` between each two.
pub open spec fn join_view(parts: Seq<Seq<char>>, sep: Seq<char>) -> Seq<char>
    decreases parts.len(),
{
    if parts.len() == 0 {
        Seq::empty()
    } else if parts.len() == 1 {
        parts[0]
    } else {
        join_view(parts.drop_last(), sep) + sep + parts.last()
    }
}

/// The views of a sequence of strings.
pub open spec fn views(v: Seq<String>) -> Seq<Seq<char>> {
    v.map_values(|s: String| s@)
}

/// `parts.join(sep)`.
pub fn join(parts: &Vec<String>, sep: &str) -> (r: String)
    ensures
        r@ == join_view(views(parts@), sep@),
{
    let mut r = String::new();
    let mut i: usize = 0;
    while i < parts.len()
        invariant
            i <= parts@.len(),
            r@ == join_view(views(parts@.take(i as int)), sep@),
        decreases parts@.len() - i,
    {
        assert(views(parts@.take(i + 1)).drop_last() =~= views(parts@.take(i as int)));
        if i == 0 {
            assert(views(parts@.take(1)) =~= seq![parts@[0]@]);
        } else {
            r.append(sep);
        }
        r.append(parts[i].as_str());
        i = i + 1;
    }
    assert(parts@.take(parts@.len() as int) =~= parts@);
    r
}

/// The pieces of `s` between the separators `sep`: one more piece than `s` has
/// separators.
pub open spec fn pieces<T>(s: Seq<T>, sep: T) -> Seq<Seq<T>>
    decreases s.len(),
{
    if s.len() == 0 {
        seq![Seq::empty()]
    } else {
        let p = pieces(s.drop_last(), sep);
        if s.last() == sep {
            p.push(Seq::empty())
        } else {
            p.update(p.len() - 1, p.last().push(s.last()))
        }
    }
}

/// The pieces of `s` between line feeds.
pub open spec fn segments(s: Seq<char>) -> Seq<Seq<char>> {
    pieces(s, '\n')
}

/// `pieces` is never empty.
pub proof fn lemma_pieces_nonempty<T>(s: Seq<T>, sep: T)
    ensures
        pieces(s, sep).len() >= 1,
    decreases s.len(),
{
    if s.len() > 0 {
        lemma_pieces_nonempty(s.drop_last(), sep);
    }
}

/// A sequence without separators is a single piece.
pub proof fn lemma_pieces_no_sep<T>(s: Seq<T>, sep: T)
    requires
        forall|k: int| 0 <= k < s.len() ==> s[k] != sep,
    ensures
        pieces(s, sep) == seq![s],
    decreases s.len(),
{
    if s.len() > 0 {
        lemma_pieces_no_sep(s.drop_last(), sep);
        assert(s.drop_last().push(s.last()) =~= s);
        assert(seq![s.drop_last()].update(0, s.drop_last().push(s.last())) =~= seq![s]);
    } else {
        assert(s =~= Seq::<T>::empty());
    }
}

/// The last piece holds no separator.
proof fn lemma_last_piece_no_sep<T>(s: Seq<T>, sep: T)
    ensures
        forall|k: int| 0 <= k < pieces(s, sep).last().len() ==> pieces(s, sep).last()[k] != sep,
    decreases s.len(),
{
    lemma_pieces_nonempty(s, sep);
    if s.len() > 0 {
        lemma_last_piece_no_sep(s.drop_last(), sep);
        lemma_pieces_nonempty(s.drop_last(), sep);
    }
}

/// Cutting `x + y`: the pieces that a separator ends within `x`, then the pieces
/// of the rest of `x` followed by `y`.
pub proof fn lemma_pieces_append<T>(x: Seq<T>, y: Seq<T>, sep: T)
    ensures
        pieces(x + y, sep) == pieces(x, sep).drop_last() + pieces(pieces(x, sep).last() + y, sep),
    decreases y.len(),
{
    lemma_pieces_nonempty(x, sep);
    let l = pieces(x, sep).last();
    if y.len() == 0 {
        assert(x + y =~= x);
        assert(l + y =~= l);
        lemma_last_piece_no_sep(x, sep);
        lemma_pieces_no_sep(l, sep);
        assert(pieces(x, sep) =~= pieces(x, sep).drop_last() + seq![l]);
    } else {
        let y0 = y.drop_last();
        lemma_pieces_append(x, y0, sep);
        assert((x + y).drop_last() =~= x + y0);
        assert((l + y).drop_last() =~= l + y0);
        assert((x + y).last() == y.last());
        assert((l + y).last() == y.last());
        lemma_pieces_nonempty(l + y0, sep);
        let d = pieces(x, sep).drop_last();
        let q = pieces(l + y0, sep);
        if y.last() == sep {
            assert((d + q).push(Seq::empty()) =~= d + q.push(Seq::empty()));
        } else {
            assert((d + q).update((d + q).len() - 1, (d + q).last().push(y.last())) =~= d + q.update(
                q.len() - 1,
                q.last().push(y.last()),
            ));
        }
    }
}

/// The bounds of the pieces of `v` between line feeds: those of every piece
/// that a line feed ends, then where the last piece starts.
pub fn newline_bounds(v: &Vec<char>) -> (r: (Vec<(usize, usize)>, usize))
    ensures
        segments(v@).len() == r.0@.len() + 1,
        forall|k: int|
            #![trigger r.0@[k]]
            0 <= k < r.0@.len() ==> r.0@[k].0 <= r.0@[k].1 <= v@.len() && segments(v@)[k]
                == v@.subrange(r.0@[k].0 as int, r.0@[k].1 as int),
        r.1 <= v@.len(),
        segments(v@).last() == v@.subrange(r.1 as int, v@.len() as int),
{
    let mut bounds: Vec<(usize, usize)> = Vec::new();
    let mut start: usize = 0;
    let mut i: usize = 0;
    assert(v@.take(0) =~= Seq::<char>::empty());
    while i < v.len()
        invariant
            start <= i <= v@.len(),
            segments(v@.take(i as int)).len() == bounds@.len() + 1,
            forall|k: int|
                #![trigger bounds@[k]]
                0 <= k < bounds@.len() ==> bounds@[k].0 <= bounds@[k].1 <= v@.len() && segments(
                    v@.take(i as int),
                )[k] == v@.subrange(bounds@[k].0 as int, bounds@[k].1 as int),
            segments(v@.take(i as int)).last() == v@.subrange(start as int, i as int),
        decreases v@.len() - i,
    {
        let ghost prev = segments(v@.take(i as int));
        let ghost old_bounds = bounds@;
        assert(v@.take(i + 1).drop_last() =~= v@.take(i as int));
        assert(v@.take(i + 1).last() == v@[i as int]);
        let ghost next = segments(v@.take(i + 1));
        if v[i] == '\n' {
            assert(next == prev.push(Seq::empty()));
            bounds.push((start, i));
            start = i + 1;
            assert(v@.subrange(start as int, i + 1) =~= Seq::<char>::empty());
            assert forall|k: int| 0 <= k < bounds@.len() implies bounds@[k].0 <= bounds@[k].1
                <= v@.len() && next[k] == v@.subrange(
                bounds@[k].0 as int,
                bounds@[k].1 as int,
            ) by {
                if k < old_bounds.len() {
                    assert(next[k] == prev[k]);
                    assert(bounds@[k] == old_bounds[k]);
                }
            }
        } else {
            assert(next == prev.update(prev.len() - 1, prev.last().push(v@[i as int])));
            assert(v@.subrange(start as int, i + 1) =~= v@.subrange(start as int, i as int).push(
                v@[i as int],
            ));
            assert forall|k: int| 0 <= k < bounds@.len() implies bounds@[k].0 <= bounds@[k].1
                <= v@.len() && next[k] == v@.subrange(
                bounds@[k].0 as int,
                bounds@[k].1 as int,
            ) by {
                assert(next[k] == prev[k]);
            }
        }
        i = i + 1;
    }
    assert(v@.take(v@.len() as int) =~= v@);
    (bounds, start)
}

} // verus!
