//! Character-level helpers for building bridge URLs.

use vstd::prelude::*;

verus! {

/// The characters of a string that may be absent.
pub open spec fn opt_view(s: Option<String>) -> Option<Seq<char>> {
    match s {
        Some(text) => Some(text@),
        None => None,
    }
}

/// `s` without its longest suffix made only of `c`.
pub open spec fn trim_end_of(s: Seq<char>, c: char) -> Seq<char>
    decreases s.len(),
{
    if s.len() > 0 && s.last() == c {
        trim_end_of(s.drop_last(), c)
    } else {
        s
    }
}

/// `s` without its longest prefix made only of `c`.
pub open spec fn trim_start_of(s: Seq<char>, c: char) -> Seq<char>
    decreases s.len(),
{
    if s.len() > 0 && s.first() == c {
        trim_start_of(s.drop_first(), c)
    } else {
        s
    }
}

/// What trimming at the end leaves: the start of `s` up to its last
/// character other than `c`; all that it takes away is `c`.
pub proof fn lemma_trim_end(s: Seq<char>, c: char)
    ensures
        trim_end_of(s, c).len() <= s.len(),
        trim_end_of(s, c) == s.subrange(0, trim_end_of(s, c).len() as int),
        trim_end_of(s, c).len() > 0 ==> trim_end_of(s, c).last() != c,
        forall|i: int| trim_end_of(s, c).len() <= i < s.len() ==> s[i] == c,
    decreases s.len(),
{
    if s.len() > 0 && s.last() == c {
        lemma_trim_end(s.drop_last(), c);
        let kept = trim_end_of(s, c);
        assert(kept == s.drop_last().subrange(0, kept.len() as int));
        assert(kept =~= s.subrange(0, kept.len() as int));
        assert forall|i: int| kept.len() <= i < s.len() implies s[i] == c by {
            if i < s.len() - 1 {
                assert(s.drop_last()[i] == s[i]);
            }
        }
    } else {
        assert(s =~= s.subrange(0, s.len() as int));
    }
}

/// What trimming at the start leaves: the end of `s` from its first
/// character other than `c`; all that it takes away is `c`.
pub proof fn lemma_trim_start(s: Seq<char>, c: char)
    ensures
        trim_start_of(s, c).len() <= s.len(),
        trim_start_of(s, c) == s.subrange(
            s.len() - trim_start_of(s, c).len(),
            s.len() as int,
        ),
        trim_start_of(s, c).len() > 0 ==> trim_start_of(s, c).first() != c,
        forall|i: int| 0 <= i < s.len() - trim_start_of(s, c).len() ==> s[i] == c,
    decreases s.len(),
{
    if s.len() > 0 && s.first() == c {
        lemma_trim_start(s.drop_first(), c);
        let kept = trim_start_of(s, c);
        let rest = s.drop_first();
        assert(kept == rest.subrange(rest.len() - kept.len(), rest.len() as int));
        assert(kept =~= s.subrange(s.len() - kept.len(), s.len() as int));
        assert forall|i: int| 0 <= i < s.len() - kept.len() implies s[i] == c by {
            if i > 0 {
                assert(rest[i - 1] == s[i]);
            }
        }
    } else {
        assert(s =~= s.subrange(0, s.len() as int));
    }
}

/// Removes every trailing `/` from `s`.
pub fn trim_end_slashes(s: &str) -> (r: &str)
    ensures
        r@ == trim_end_of(s@, '/'),
{
    let mut n: usize = s.unicode_len();
    assert(s@.subrange(0, n as int) == s@);
    while n > 0 && s.get_char(n - 1) == '/'
        invariant
            n <= s@.len(),
            trim_end_of(s@, '/') == trim_end_of(s@.subrange(0, n as int), '/'),
        decreases n,
    {
        assert(s@.subrange(0, n as int).drop_last() == s@.subrange(0, n - 1));
        n = n - 1;
    }
    s.substring_char(0, n)
}

/// Removes every leading `/` from `s`.
pub fn trim_start_slashes(s: &str) -> (r: &str)
    ensures
        r@ == trim_start_of(s@, '/'),
{
    let len: usize = s.unicode_len();
    let mut i: usize = 0;
    assert(s@.subrange(0, len as int) == s@);
    while i < len && s.get_char(i) == '/'
        invariant
            i <= len,
            len == s@.len(),
            trim_start_of(s@, '/') == trim_start_of(s@.subrange(i as int, len as int), '/'),
        decreases len - i,
    {
        assert(s@.subrange(i as int, len as int).drop_first() == s@.subrange(i + 1, len as int));
        i = i + 1;
    }
    s.substring_char(i, len)
}

/// The characters of `s`, one by one.
pub fn chars_of(s: &str) -> (v: Vec<char>)
    ensures
        v@ == s@,
{
    let mut v: Vec<char> = Vec::new();
    for c in it: s.chars()
        invariant
            it.seq() == s@,
            v@ == s@.take(it.index() as int),
    {
        v.push(c);
    }
    v
}

/// Whether `needle` stands in `hay` at position `at`.
pub open spec fn stands_at(needle: Seq<char>, hay: Seq<char>, at: int) -> bool {
    &&& 0 <= at
    &&& at + needle.len() <= hay.len()
    &&& hay.subrange(at, at + needle.len()) == needle
}

/// Whether `needle` stands somewhere in `hay`.
pub open spec fn occurs_in(needle: Seq<char>, hay: Seq<char>) -> bool {
    exists|at: int| stands_at(needle, hay, at)
}

/// Whether `needle` stands in `hay` at `at`.
fn found_at(needle: &Vec<char>, hay: &Vec<char>, at: usize) -> (r: bool)
    requires
        at + needle@.len() <= hay@.len(),
    ensures
        r == stands_at(needle@, hay@, at as int),
{
    let width: usize = needle.len();
    let length: usize = hay.len();
    let mut j: usize = 0;
    while j < width
        invariant
            j <= width == needle@.len(),
            at + width <= length == hay@.len(),
            forall|k: int| 0 <= k < j ==> hay@[at + k] == needle@[k],
        decreases width - j,
    {
        if hay[at + j] != needle[j] {
            assert(hay@.subrange(at as int, at + needle@.len())[j as int] == hay@[at + j]);
            return false;
        }
        j = j + 1;
    }
    assert(hay@.subrange(at as int, at + needle@.len()) =~= needle@);
    true
}

/// Whether `needle` occurs in `hay`.
pub fn contains(hay: &str, needle: &str) -> (r: bool)
    ensures
        r == occurs_in(needle@, hay@),
{
    let hay_chars = chars_of(hay);
    let needle_chars = chars_of(needle);
    if needle_chars.len() > hay_chars.len() {
        return false;
    }
    let last: usize = hay_chars.len() - needle_chars.len();
    let mut at: usize = 0;
    loop
        invariant
            at <= last,
            last + needle_chars@.len() == hay_chars@.len(),
            hay_chars@ == hay@,
            needle_chars@ == needle@,
            forall|k: int| 0 <= k < at ==> !stands_at(needle@, hay@, k),
        decreases last - at,
    {
        if found_at(&needle_chars, &hay_chars, at) {
            return true;
        }
        if at == last {
            return false;
        }
        at = at + 1;
    }
}

/// The character that stands for the digit `d`.
pub open spec fn digit(d: int) -> char {
    if d == 0 {
        '0'
    } else if d == 1 {
        '1'
    } else if d == 2 {
        '2'
    } else if d == 3 {
        '3'
    } else if d == 4 {
        '4'
    } else if d == 5 {
        '5'
    } else if d == 6 {
        '6'
    } else if d == 7 {
        '7'
    } else if d == 8 {
        '8'
    } else {
        '9'
    }
}

/// A number in decimal digits, without leading zeros.
pub open spec fn decimal(n: nat) -> Seq<char>
    decreases n,
{
    if n < 10 {
        seq![digit(n as int)]
    } else {
        decimal(n / 10).push(digit((n % 10) as int))
    }
}

/// The digit that a character stands for.
pub open spec fn digit_value(c: char) -> nat {
    if c == '1' {
        1
    } else if c == '2' {
        2
    } else if c == '3' {
        3
    } else if c == '4' {
        4
    } else if c == '5' {
        5
    } else if c == '6' {
        6
    } else if c == '7' {
        7
    } else if c == '8' {
        8
    } else if c == '9' {
        9
    } else {
        0
    }
}

/// The number that a row of decimal digits stands for.
pub open spec fn decimal_value(digits: Seq<char>) -> nat
    decreases digits.len(),
{
    if digits.len() == 0 {
        0
    } else {
        decimal_value(digits.drop_last()) * 10 + digit_value(digits.last())
    }
}

/// The digits of a number read back as that number; they begin with a
/// zero only where the number is zero.
pub proof fn lemma_decimal_reads_back(n: nat)
    ensures
        decimal_value(decimal(n)) == n,
        decimal(n).len() >= 1,
        n > 0 ==> decimal(n).first() != '0',
    decreases n,
{
    if n < 10 {
        let one = seq![digit(n as int)];
        assert(one.drop_last() =~= Seq::<char>::empty());
        assert(decimal_value(one.drop_last()) == 0);
        assert(one.last() == digit(n as int));
    } else {
        lemma_decimal_reads_back(n / 10);
        let front = decimal(n / 10);
        let last = digit((n % 10) as int);
        assert(front.push(last).drop_last() =~= front);
        assert(front.push(last).last() == last);
        assert(front.push(last).first() == front.first());
    }
}

/// The text of one digit.
fn digit_text(d: usize) -> (r: &'static str)
    requires
        d < 10,
    ensures
        r@ == seq![digit(d as int)],
{
    proof {
        reveal_strlit("0");
        reveal_strlit("1");
        reveal_strlit("2");
        reveal_strlit("3");
        reveal_strlit("4");
        reveal_strlit("5");
        reveal_strlit("6");
        reveal_strlit("7");
        reveal_strlit("8");
        reveal_strlit("9");
    }
    let r = if d == 0 {
        "0"
    } else if d == 1 {
        "1"
    } else if d == 2 {
        "2"
    } else if d == 3 {
        "3"
    } else if d == 4 {
        "4"
    } else if d == 5 {
        "5"
    } else if d == 6 {
        "6"
    } else if d == 7 {
        "7"
    } else if d == 8 {
        "8"
    } else {
        "9"
    };
    assert(r@ =~= seq![digit(d as int)]);
    r
}

/// Appends `n` in decimal digits to `out`.
pub fn push_decimal(out: &mut String, n: usize)
    ensures
        final(out)@ == old(out)@ + decimal(n as nat),
    decreases n,
{
    if n >= 10 {
        push_decimal(out, n / 10);
    }
    out.append(digit_text(n % 10));
}

} // verus!
