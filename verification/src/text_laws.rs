//! What the operations on texts come to, in terms of the characters.

use crate::text::{
    decimal_spec, digit_char, find_spec, is_white, join_spec, lemma_span, lemma_span_is, lines_spec,
    span, split_spec, starts, trim_end_spec, trim_spec, trim_start_spec,
};
use vstd::prelude::*;

verus! {

/// The white space of ASCII is what a keyboard has of it: the space, the tabulators, the line
/// feed, the form feed and the carriage return.
pub proof fn law_ascii_white_space(c: char)
    requires
        c as u32 <= 0x7f,
    ensures
        is_white(c) <==> c == ' ' || c == '\t' || c == '\n' || c == '\r' || c == '\u{b}' || c
            == '\u{c}',
{
}

/// Beyond ASCII the white space is that of Unicode.
pub proof fn law_unicode_white_space(c: char)
    requires
        c as u32 > 0x7f,
    ensures
        is_white(c) <==> c == '\u{85}' || c == '\u{a0}' || c == '\u{1680}' || '\u{2000}' <= c
            <= '\u{200a}' || c == '\u{2028}' || c == '\u{2029}' || c == '\u{202f}' || c == '\u{205f}'
            || c == '\u{3000}',
{
}

// ---- trimming ------------------------------------------------------------------------

/// A stretch of white space.
pub open spec fn all_white(s: Seq<char>, from: int, to: int) -> bool {
    forall|i: int| from <= i < to ==> is_white(#[trigger] s[i])
}

proof fn lemma_trim_start(s: Seq<char>) -> (a: int)
    ensures
        0 <= a <= s.len(),
        trim_start_spec(s) == s.skip(a),
        all_white(s, 0, a),
        a < s.len() ==> !is_white(s[a]),
    decreases s.len(),
{
    if s.len() > 0 && is_white(s[0]) {
        let t = s.drop_first();
        let b = lemma_trim_start(t);
        assert(t.skip(b) =~= s.skip(b + 1));
        assert forall|i: int| 0 <= i < b + 1 implies is_white(#[trigger] s[i]) by {
            if i > 0 {
                assert(is_white(t[i - 1]));
            }
        }
        b + 1
    } else {
        assert(s.skip(0) =~= s);
        0
    }
}

proof fn lemma_trim_end(s: Seq<char>) -> (b: int)
    ensures
        0 <= b <= s.len(),
        trim_end_spec(s) == s.take(b),
        all_white(s, b, s.len() as int),
        b > 0 ==> !is_white(s[b - 1]),
    decreases s.len(),
{
    if s.len() > 0 && is_white(s.last()) {
        let t = s.drop_last();
        let b = lemma_trim_end(t);
        assert(t.take(b) =~= s.take(b));
        assert forall|i: int| b <= i < s.len() implies is_white(#[trigger] s[i]) by {
            if i < t.len() {
                assert(is_white(t[i]));
            }
        }
        b
    } else {
        assert(s.take(s.len() as int) =~= s);
        s.len() as int
    }
}

/// Trimming takes white space off the two ends and nothing else: what is left is a stretch of
/// the text that neither begins nor ends with white space.
pub proof fn law_trim_takes_only_white_space(s: Seq<char>) -> (r: (int, int))
    ensures
        0 <= r.0 <= r.1 <= s.len(),
        trim_spec(s) == s.subrange(r.0, r.1),
        all_white(s, 0, r.0),
        all_white(s, r.1, s.len() as int),
        r.0 < r.1 ==> !is_white(s[r.0]) && !is_white(s[r.1 - 1]),
{
    let a = lemma_trim_start(s);
    let t = s.skip(a);
    let b = lemma_trim_end(t);
    assert(t.take(b) =~= s.subrange(a, a + b));
    assert forall|i: int| a + b <= i < s.len() implies is_white(#[trigger] s[i]) by {
        assert(is_white(t[i - a]));
    }
    (a, a + b)
}

/// The same of the end alone.
pub proof fn law_trim_end_takes_only_white_space(s: Seq<char>) -> (b: int)
    ensures
        0 <= b <= s.len(),
        trim_end_spec(s) == s.take(b),
        all_white(s, b, s.len() as int),
        b > 0 ==> !is_white(s[b - 1]),
{
    lemma_trim_end(s)
}

// ---- lines and pieces ----------------------------------------------------------------

pub open spec fn lacks(s: Seq<char>, c: char) -> bool {
    forall|i: int| 0 <= i < s.len() ==> #[trigger] s[i] != c
}

/// No text has no lines, and a text without a line feed is one line.
pub proof fn law_one_line_is_itself(t: Seq<char>)
    requires
        lacks(t, '\n'),
    ensures
        t.len() == 0 ==> lines_spec(t).len() == 0,
        t.len() > 0 ==> lines_spec(t) == seq![t],
{
    lemma_span_is(t, '\n', t.len() as int);
}

/// A line feed ends a line: the line is what stands before it, and the others are the lines of
/// what stands behind it.
pub proof fn law_line_feed_ends_a_line(t: Seq<char>, rest: Seq<char>)
    requires
        lacks(t, '\n'),
        t.len() > 0 ==> t.last() != '\r',
    ensures
        lines_spec(t + seq!['\n'] + rest) == seq![t] + lines_spec(rest),
        lines_spec(t + seq!['\r', '\n'] + rest) == seq![t] + lines_spec(rest),
{
    let s = t + seq!['\n'] + rest;
    lemma_span_is(s, '\n', t.len() as int);
    assert(s.take(t.len() as int) =~= t);
    assert(s.skip(t.len() as int + 1) =~= rest);
    let u = t + seq!['\r', '\n'] + rest;
    lemma_span_is(u, '\n', t.len() as int + 1);
    assert(u.take(t.len() as int + 1) =~= t.push('\r'));
    assert(t.push('\r').drop_last() =~= t);
    assert(u.skip(t.len() as int + 2) =~= rest);
}

/// A text is split at each occurrence of the character: no piece holds it, and the pieces with
/// the character between them make up the text again.
pub proof fn law_split_joins_back(s: Seq<char>, c: char)
    ensures
        split_spec(s, c).len() > 0,
        forall|i: int| 0 <= i < split_spec(s, c).len() ==> lacks(#[trigger] split_spec(s, c)[i], c),
        joined(split_spec(s, c), c) == s,
    decreases s.len(),
{
    let k = span(s, c) as int;
    lemma_span(s, c);
    if k < s.len() {
        let rest = split_spec(s.skip(k + 1), c);
        law_split_joins_back(s.skip(k + 1), c);
        let all = split_spec(s, c);
        assert(all =~= seq![s.take(k)] + rest);
        assert(all.drop_first() =~= rest);
        assert forall|i: int| 0 <= i < all.len() implies lacks(#[trigger] all[i], c) by {
            if i > 0 {
                assert(all[i] == rest[i - 1]);
            }
        }
        assert(joined(all, c) =~= s);
    } else {
        assert(split_spec(s, c)[0] == s);
    }
}

/// Pieces with a character between each two of them.
pub open spec fn joined(v: Seq<Seq<char>>, c: char) -> Seq<char>
    decreases v.len(),
{
    if v.len() == 0 {
        seq![]
    } else if v.len() == 1 {
        v[0]
    } else {
        v[0].push(c) + joined(v.drop_first(), c)
    }
}

/// Joining: nothing joined is nothing, one piece is itself, and two lists joined are joined
/// with the separator between them.
pub proof fn law_join_concatenates(a: Seq<Seq<char>>, b: Seq<Seq<char>>, sep: Seq<char>)
    requires
        a.len() > 0,
        b.len() > 0,
    ensures
        join_spec(seq![], sep) == Seq::<char>::empty(),
        join_spec(seq![a[0]], sep) == a[0],
        join_spec(a + b, sep) == join_spec(a, sep) + sep + join_spec(b, sep),
    decreases b.len(),
{
    let ab = a + b;
    if b.len() == 1 {
        assert(ab.drop_last() =~= a);
        assert(ab.last() == b[0]);
    } else {
        law_join_concatenates(a, b.drop_last(), sep);
        assert(ab.drop_last() =~= a + b.drop_last());
        assert(join_spec(ab, sep) =~= join_spec(a, sep) + sep + join_spec(b, sep));
    }
}

// ---- searching -----------------------------------------------------------------------

/// A text stands in another at a position.
pub open spec fn stands_at(s: Seq<char>, p: Seq<char>, k: int) -> bool {
    0 <= k && k + p.len() <= s.len() && forall|i: int|
        0 <= i < p.len() ==> #[trigger] p[i] == s[k + i]
}

/// A text begins with another where that stands at its front.
pub proof fn law_beginning(s: Seq<char>, p: Seq<char>)
    ensures
        starts(s, p) <==> stands_at(s, p, 0),
{
    if stands_at(s, p, 0) {
        assert(s.take(p.len() as int) =~= p);
    }
    if starts(s, p) {
        assert forall|i: int| 0 <= i < p.len() implies #[trigger] p[i] == s[0 + i] by {
            assert(s.take(p.len() as int)[i] == s[i]);
        }
    }
}

/// What is found is the first occurrence; where there is none, the search ends at the end.
pub proof fn law_found_is_the_first(s: Seq<char>, p: Seq<char>, k: int)
    requires
        p.len() > 0,
    ensures
        find_spec(s, p) < s.len() ==> stands_at(s, p, find_spec(s, p) as int),
        find_spec(s, p) >= s.len() ==> find_spec(s, p) == s.len(),
        stands_at(s, p, k) ==> find_spec(s, p) <= k && find_spec(s, p) < s.len(),
    decreases s.len(),
{
    law_beginning(s, p);
    if s.len() > 0 && !starts(s, p) {
        let t = s.drop_first();
        law_found_is_the_first(t, p, k - 1);
        if find_spec(s, p) < s.len() {
            let n = find_spec(t, p) as int;
            assert(stands_at(t, p, n));
            assert forall|i: int| 0 <= i < p.len() implies #[trigger] p[i] == s[n + 1 + i] by {
                assert(p[i] == t[n + i]);
            }
        }
        if stands_at(s, p, k) {
            assert(k > 0);
            assert forall|i: int| 0 <= i < p.len() implies #[trigger] p[i] == t[k - 1 + i] by {
                assert(p[i] == s[k + i]);
            }
            assert(stands_at(t, p, k - 1));
        }
    }
}

// ---- numbers -------------------------------------------------------------------------

/// What a text of digits is worth.
pub open spec fn worth(s: Seq<char>) -> int
    decreases s.len(),
{
    if s.len() == 0 {
        0
    } else {
        10 * worth(s.drop_last()) + (s.last() as u32 - '0' as u32)
    }
}

/// A number is written in digits that are worth it, without a leading zero.
pub proof fn law_decimal_is_worth_its_number(n: nat)
    ensures
        worth(decimal_spec(n)) == n,
        decimal_spec(n).len() > 0,
        forall|i: int|
            0 <= i < decimal_spec(n).len() ==> '0' <= #[trigger] decimal_spec(n)[i] <= '9',
        n > 0 ==> decimal_spec(n)[0] != '0',
    decreases n,
{
    let s = decimal_spec(n);
    if n < 10 {
        assert(s.drop_last() =~= seq![]);
        assert(worth(s.drop_last()) == 0);
        assert(s.last() == digit_char(n));
    } else {
        law_decimal_is_worth_its_number(n / 10);
        assert(s.drop_last() =~= decimal_spec(n / 10));
        assert(s.last() == digit_char(n % 10));
        assert(s[0] == decimal_spec(n / 10)[0]);
        assert forall|i: int| 0 <= i < s.len() implies '0' <= #[trigger] s[i] <= '9' by {
            if i < s.len() - 1 {
                assert(s[i] == decimal_spec(n / 10)[i]);
            }
        }
    }
}

} // verus!
