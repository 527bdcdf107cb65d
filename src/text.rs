//! Character-level helpers on strings: trimming and decimal rendering.
use vstd::prelude::*;

verus! {

/// Relies on std's `String::push`: the character is appended at the end.
pub assume_specification[ std::string::String::push ](s: &mut std::string::String, ch: char)
    ensures
        final(s)@ == old(s)@.push(ch),
;

/// The characters with the Unicode `White_Space` property.
pub open spec fn is_white_space(c: char) -> bool {
    ('\u{9}' <= c && c <= '\u{d}') || c == ' ' || c == '\u{85}' || c == '\u{a0}' || c
        == '\u{1680}' || ('\u{2000}' <= c && c <= '\u{200a}') || c == '\u{2028}' || c
        == '\u{2029}' || c == '\u{202f}' || c == '\u{205f}' || c == '\u{3000}'
}

pub open spec fn is_dot(c: char) -> bool {
    c == '.'
}

/// `s` without the longest prefix whose characters all satisfy `p`.
pub open spec fn strip_leading(s: Seq<char>, p: spec_fn(char) -> bool) -> Seq<char>
    decreases s.len(),
{
    if s.len() > 0 && p(s[0]) {
        strip_leading(s.drop_first(), p)
    } else {
        s
    }
}

/// `s` without the longest suffix whose characters all satisfy `p`.
pub open spec fn strip_trailing(s: Seq<char>, p: spec_fn(char) -> bool) -> Seq<char>
    decreases s.len(),
{
    if s.len() > 0 && p(s.last()) {
        strip_trailing(s.drop_last(), p)
    } else {
        s
    }
}

/// Whitespace removed from both ends.
pub open spec fn trim_white(s: Seq<char>) -> Seq<char> {
    strip_trailing(strip_leading(s, |c: char| is_white_space(c)), |c: char| is_white_space(c))
}

/// Whitespace removed from both ends, then full stops removed from both ends.
pub open spec fn tidy(s: Seq<char>) -> Seq<char> {
    strip_trailing(strip_leading(trim_white(s), |c: char| is_dot(c)), |c: char| is_dot(c))
}

pub fn is_white_space_char(c: char) -> (r: bool)
    ensures
        r == is_white_space(c),
{
    ('\u{9}' <= c && c <= '\u{d}') || c == ' ' || c == '\u{85}' || c == '\u{a0}' || c
        == '\u{1680}' || ('\u{2000}' <= c && c <= '\u{200a}') || c == '\u{2028}' || c
        == '\u{2029}' || c == '\u{202f}' || c == '\u{205f}' || c == '\u{3000}'
}

fn in_class(c: char, white: bool) -> (r: bool)
    ensures
        r == (if white {
            is_white_space(c)
        } else {
            is_dot(c)
        }),
{
    if white {
        is_white_space_char(c)
    } else {
        c == '.'
    }
}

pub open spec fn class_of(white: bool) -> spec_fn(char) -> bool {
    if white {
        |c: char| is_white_space(c)
    } else {
        |c: char| is_dot(c)
    }
}

/// Copies the characters of `s` in `[from, to)`.
fn copy_range(s: &Vec<char>, from: usize, to: usize) -> (r: String)
    requires
        from <= to <= s.len(),
    ensures
        r@ == s@.subrange(from as int, to as int),
{
    let mut r = String::new();
    let mut i: usize = from;
    while i < to
        invariant
            from <= i <= to <= s.len(),
            r@ == s@.subrange(from as int, i as int),
        decreases to - i,
    {
        r.push(s[i]);
        i = i + 1;
        assert(r@ =~= s@.subrange(from as int, i as int));
    }
    r
}

/// Removes from both ends of `s` the characters of the class that `white`
/// selects: whitespace when it is set, full stops otherwise.
fn trim_class(s: &Vec<char>, white: bool) -> (r: Vec<char>)
    ensures
        r@ == strip_trailing(strip_leading(s@, class_of(white)), class_of(white)),
{
    let ghost p = class_of(white);
    assert(s@.subrange(0, s.len() as int) =~= s@);
    let mut start: usize = 0;
    while start < s.len() && in_class(s[start], white)
        invariant
            start <= s.len(),
            p == class_of(white),
            strip_leading(s@, p) == strip_leading(s@.subrange(start as int, s.len() as int), p),
        decreases s.len() - start,
    {
        let ghost rest = s@.subrange(start as int, s.len() as int);
        assert(rest.drop_first() =~= s@.subrange(start + 1, s.len() as int));
        start = start + 1;
    }
    let ghost lead = s@.subrange(start as int, s.len() as int);
    assert(strip_leading(lead, p) == lead);
    let mut end: usize = s.len();
    while end > start && in_class(s[end - 1], white)
        invariant
            start <= end <= s.len(),
            p == class_of(white),
            lead == s@.subrange(start as int, s.len() as int),
            strip_trailing(lead, p) == strip_trailing(s@.subrange(start as int, end as int), p),
        decreases end,
    {
        let ghost part = s@.subrange(start as int, end as int);
        assert(part.drop_last() =~= s@.subrange(start as int, end - 1));
        end = end - 1;
    }
    let mut r: Vec<char> = Vec::new();
    let mut i: usize = start;
    while i < end
        invariant
            start <= i <= end <= s.len(),
            r@ == s@.subrange(start as int, i as int),
        decreases end - i,
    {
        r.push(s[i]);
        i = i + 1;
        assert(r@ =~= s@.subrange(start as int, i as int));
    }
    r
}

/// The characters of `s` in order.
pub fn chars_of(s: &str) -> (r: Vec<char>)
    ensures
        r@ == s@,
{
    let n = s.unicode_len();
    let mut r: Vec<char> = Vec::new();
    let mut i: usize = 0;
    while i < n
        invariant
            i <= n,
            n == s@.len(),
            r@ == s@.subrange(0, i as int),
        decreases n - i,
    {
        r.push(s.get_char(i));
        i = i + 1;
        assert(r@ =~= s@.subrange(0, i as int));
    }
    assert(r@ =~= s@);
    r
}

/// `s` with whitespace and then full stops removed from both ends.
pub fn tidy_text(s: &str) -> (r: String)
    ensures
        r@ == tidy(s@),
{
    let cs = chars_of(s);
    let white = trim_class(&cs, true);
    assert(class_of(true) == (|c: char| is_white_space(c)));
    let dots = trim_class(&white, false);
    assert(class_of(false) == (|c: char| is_dot(c)));
    copy_range(&dots, 0, dots.len())
}

/// The decimal digit for `d` (below ten).
pub open spec fn digit(d: nat) -> char {
    if d == 0 {
        '0'
    } else if d == 1 {
        '1'
    } else if d == 2 {
        '2'
    } else if d == 3 {
        '3'
    } else if d == 4 {
        '4'
    } else if d == 5 {
        '5'
    } else if d == 6 {
        '6'
    } else if d == 7 {
        '7'
    } else if d == 8 {
        '8'
    } else {
        '9'
    }
}

/// `n` written in decimal, without leading zeros.
pub open spec fn decimal(n: nat) -> Seq<char>
    decreases n,
{
    if n < 10 {
        seq![digit(n)]
    } else {
        decimal(n / 10).push(digit(n % 10))
    }
}

fn digit_char(d: u16) -> (r: char)
    requires
        d < 10,
    ensures
        r == digit(d as nat),
{
    if d == 0 {
        '0'
    } else if d == 1 {
        '1'
    } else if d == 2 {
        '2'
    } else if d == 3 {
        '3'
    } else if d == 4 {
        '4'
    } else if d == 5 {
        '5'
    } else if d == 6 {
        '6'
    } else if d == 7 {
        '7'
    } else if d == 8 {
        '8'
    } else {
        '9'
    }
}

/// `n` written in decimal.
pub fn decimal_text(n: u16) -> (r: String)
    ensures
        r@ == decimal(n as nat),
    decreases n,
{
    if n < 10 {
        let mut r = String::new();
        r.push(digit_char(n));
        assert(r@ =~= seq![digit(n as nat)]);
        r
    } else {
        let mut r = decimal_text(n / 10);
        r.push(digit_char(n % 10));
        r
    }
}

/// `s` with every backslash removed.
pub open spec fn without_backslashes(s: Seq<char>) -> Seq<char> {
    s.filter(|c: char| c != '\\')
}

/// Removes every backslash from `s`.
pub fn strip_backslashes(s: &str) -> (r: String)
    ensures
        r@ == without_backslashes(s@),
{
    let cs = chars_of(s);
    let mut r = String::new();
    let mut i: usize = 0;
    while i < cs.len()
        invariant
            i <= cs.len(),
            cs@ == s@,
            r@ == without_backslashes(s@.subrange(0, i as int)),
        decreases cs.len() - i,
    {
        let c = cs[i];
        proof {
            let pre = s@.subrange(0, i as int);
            assert(s@.subrange(0, i + 1) =~= pre.push(c));
            pre.lemma_filter_push(c, |c: char| c != '\\');
        }
        if c != '\\' {
            r.push(c);
        }
        i = i + 1;
    }
    assert(s@.subrange(0, s@.len() as int) =~= s@);
    r
}

} // verus!
