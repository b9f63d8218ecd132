//! Character sequences: the whitespace rule, trimming, and joining of words.
//!
//! Every contract in this crate speaks about text as `Seq<char>`; the functions
//! here connect `&str` values to that model.

use vstd::prelude::*;
use vstd::string::*;

verus! {

/// The characters that count as white space when text is trimmed: the
/// code points that carry Unicode's `White_Space` property.
pub open spec fn is_whitespace(c: char) -> bool {
    let u = c as u32;
    ||| 0x09 <= u <= 0x0D
    ||| u == 0x20
    ||| u == 0x85
    ||| u == 0xA0
    ||| u == 0x1680
    ||| 0x2000 <= u <= 0x200A
    ||| u == 0x2028
    ||| u == 0x2029
    ||| u == 0x202F
    ||| u == 0x205F
    ||| u == 0x3000
}

/// `s` without its leading white space.
pub open spec fn trim_start(s: Seq<char>) -> Seq<char>
    decreases s.len(),
{
    if s.len() > 0 && is_whitespace(s.first()) {
        trim_start(s.drop_first())
    } else {
        s
    }
}

/// `s` without its trailing white space.
pub open spec fn trim_end(s: Seq<char>) -> Seq<char>
    decreases s.len(),
{
    if s.len() > 0 && is_whitespace(s.last()) {
        trim_end(s.drop_last())
    } else {
        s
    }
}

/// `s` without leading and trailing white space.
pub open spec fn trim(s: Seq<char>) -> Seq<char> {
    trim_end(trim_start(s))
}

/// The words of `ws` in order, with one space between neighbours.
pub open spec fn join_words(ws: Seq<Seq<char>>) -> Seq<char>
    decreases ws.len(),
{
    if ws.len() == 0 {
        Seq::empty()
    } else if ws.len() == 1 {
        ws[0]
    } else {
        join_words(ws.drop_last()) + seq![' '] + ws.last()
    }
}

/// `true` exactly for the white-space characters.
pub fn is_whitespace_char(c: char) -> (b: bool)
    ensures
        b == is_whitespace(c),
{
    let u: u32 = c as u32;
    (0x09 <= u && u <= 0x0D) || u == 0x20 || u == 0x85 || u == 0xA0 || u == 0x1680 || (0x2000 <= u
        && u <= 0x200A) || u == 0x2028 || u == 0x2029 || u == 0x202F || u == 0x205F || u == 0x3000
}

/// The characters of `s`, one element each.
pub fn to_chars(s: &str) -> (v: Vec<char>)
    ensures
        v@ == s@,
{
    let mut v: Vec<char> = Vec::new();
    for c in it: s.chars()
        invariant
            v@ == it.seq().take(it.index() as int),
            it.seq() == s@,
    {
        v.push(c);
    }
    v
}

/// Whether the characters `v` spell exactly the word `w`.
pub fn matches_word(v: &[char], w: &str) -> (b: bool)
    ensures
        b == (v@ == w@),
{
    let n: usize = w.unicode_len();
    if v.len() != n {
        return false;
    }
    let mut i: usize = 0;
    while i < n
        invariant
            n == w@.len(),
            v@.len() == n,
            i <= n,
            forall|j: int| 0 <= j < i ==> v@[j] == w@[j],
        decreases n - i,
    {
        if v[i] != w.get_char(i) {
            return false;
        }
        i += 1;
    }
    assert(v@ =~= w@);
    true
}

/// Whether `c` occurs in `v`.
pub fn contains_char(v: &[char], c: char) -> (b: bool)
    ensures
        b == v@.contains(c),
{
    let mut i: usize = 0;
    while i < v.len()
        invariant
            i <= v.len(),
            forall|j: int| 0 <= j < i ==> v@[j] != c,
        decreases v.len() - i,
    {
        if v[i] == c {
            return true;
        }
        i += 1;
    }
    false
}

/// Dropping `a` leading white-space characters does not change what
/// `trim_start` leaves.
proof fn lemma_trim_start_skip(s: Seq<char>, a: int)
    requires
        0 <= a <= s.len(),
        forall|j: int| 0 <= j < a ==> is_whitespace(s[j]),
    ensures
        trim_start(s) == trim_start(s.skip(a)),
    decreases a,
{
    if a > 0 {
        assert(s.drop_first().skip(a - 1) =~= s.skip(a));
        lemma_trim_start_skip(s.drop_first(), a - 1);
    } else {
        assert(s.skip(0) =~= s);
    }
}

/// Dropping trailing white-space characters does not change what `trim_end`
/// leaves.
proof fn lemma_trim_end_take(s: Seq<char>, b: int)
    requires
        0 <= b <= s.len(),
        forall|j: int| b <= j < s.len() ==> is_whitespace(s[j]),
    ensures
        trim_end(s) == trim_end(s.take(b)),
    decreases s.len() - b,
{
    if b < s.len() {
        assert(s.drop_last().take(b) =~= s.take(b));
        lemma_trim_end_take(s.drop_last(), b);
    } else {
        assert(s.take(b) =~= s);
    }
}

/// `s` without leading and trailing white space, as a new `String`.
pub fn trim_text(s: &str) -> (r: String)
    ensures
        r@ == trim(s@),
{
    let v = to_chars(s);
    let n: usize = v.len();
    let mut a: usize = 0;
    while a < n && is_whitespace_char(v[a])
        invariant
            n == v@.len(),
            a <= n,
            forall|j: int| 0 <= j < a ==> is_whitespace(v@[j]),
        decreases n - a,
    {
        a += 1;
    }
    let mut b: usize = n;
    while b > a && is_whitespace_char(v[b - 1])
        invariant
            n == v@.len(),
            a <= b <= n,
            forall|j: int| b <= j < n ==> is_whitespace(v@[j]),
        decreases b,
    {
        b -= 1;
    }
    proof {
        let rest = s@.skip(a as int);
        lemma_trim_start_skip(s@, a as int);
        lemma_trim_end_take(rest, b - a);
        let kept = rest.take(b - a);
    }
    s.substring_char(a, b).to_owned()
}

/// The decimal digit for `d`; only 0 to 9 have one of their own.
pub open spec fn digit_char(d: int) -> char {
    if d == 0 {
        '0'
    } else if d == 1 {
        '1'
    } else if d == 2 {
        '2'
    } else if d == 3 {
        '3'
    } else if d == 4 {
        '4'
    } else if d == 5 {
        '5'
    } else if d == 6 {
        '6'
    } else if d == 7 {
        '7'
    } else if d == 8 {
        '8'
    } else {
        '9'
    }
}

/// `n` written in decimal, without leading zeros.
pub open spec fn decimal(n: nat) -> Seq<char>
    decreases n,
{
    if n < 10 {
        seq![digit_char(n as int)]
    } else {
        decimal(n / 10).push(digit_char((n % 10) as int))
    }
}

fn digit_text(d: usize) -> (r: &'static str)
    requires
        d < 10,
    ensures
        r@ == seq![digit_char(d as int)],
{
    proof {
        reveal_strlit("0");
        reveal_strlit("1");
        reveal_strlit("2");
        reveal_strlit("3");
        reveal_strlit("4");
        reveal_strlit("5");
        reveal_strlit("6");
        reveal_strlit("7");
        reveal_strlit("8");
        reveal_strlit("9");
    }
    let r = if d == 0 {
        "0"
    } else if d == 1 {
        "1"
    } else if d == 2 {
        "2"
    } else if d == 3 {
        "3"
    } else if d == 4 {
        "4"
    } else if d == 5 {
        "5"
    } else if d == 6 {
        "6"
    } else if d == 7 {
        "7"
    } else if d == 8 {
        "8"
    } else {
        "9"
    };
    r
}

/// `n` written in decimal.
pub fn decimal_text(n: usize) -> (r: String)
    ensures
        r@ == decimal(n as nat),
    decreases n,
{
    if n < 10 {
        digit_text(n).to_owned()
    } else {
        let r = decimal_text(n / 10).concat(digit_text(n % 10));
        r
    }
}

/// `s` with every occurrence of `from` replaced by `to`. Occurrences are
/// found from the left and do not overlap; what was put in is not searched
/// again. An empty `from` occurs nowhere.
pub open spec fn replace_all(s: Seq<char>, from: Seq<char>, to: Seq<char>) -> Seq<char>
    decreases s.len(),
{
    if from.len() == 0 || s.len() < from.len() {
        s
    } else if s.take(from.len() as int) == from {
        to + replace_all(s.skip(from.len() as int), from, to)
    } else {
        seq![s[0]] + replace_all(s.skip(1), from, to)
    }
}

/// Whether `pat` stands in `v` at position `i`.
fn matches_at(v: &[char], i: usize, pat: &[char]) -> (b: bool)
    requires
        i + pat@.len() <= v@.len(),
    ensures
        b == (v@.subrange(i as int, i + pat@.len()) == pat@),
{
    let m: usize = pat.len();
    let n: usize = v.len();
    let mut k: usize = 0;
    while k < m
        invariant
            m == pat@.len(),
            n == v@.len(),
            i + m <= n,
            k <= m,
            forall|j: int| 0 <= j < k ==> v@[i + j] == pat@[j],
        decreases m - k,
    {
        if v[i + k] != pat[k] {
            return false;
        }
        k += 1;
    }
    assert(v@.subrange(i as int, i + m) =~= pat@);
    true
}

/// `s` with every occurrence of `from` replaced by `to`.
pub fn replace_text(s: &str, from: &str, to: &str) -> (r: String)
    ensures
        r@ == replace_all(s@, from@, to@),
{
    let v = to_chars(s);
    let pat = to_chars(from);
    let n: usize = v.len();
    let m: usize = pat.len();
    if m == 0 || n < m {
        return s.to_owned();
    }
    let mut out = String::new();
    let mut kept: usize = 0;
    let mut i: usize = 0;
    assert(out@ + s@.subrange(0, 0) + replace_all(s@.skip(0), from@, to@) =~= replace_all(
        s@,
        from@,
        to@,
    )) by {
        assert(s@.skip(0) =~= s@);
    }
    while i <= n - m
        invariant
            v@ == s@,
            pat@ == from@,
            n == v@.len(),
            m == pat@.len(),
            0 < m <= n,
            kept <= i <= n,
            out@ + s@.subrange(kept as int, i as int) + replace_all(s@.skip(i as int), from@, to@)
                == replace_all(s@, from@, to@),
        decreases n - i,
    {
        let ghost rest = s@.skip(i as int);
        assert(rest.take(m as int) =~= s@.subrange(i as int, i + m));
        if matches_at(v.as_slice(), i, pat.as_slice()) {
            assert(rest.skip(m as int) =~= s@.skip(i + m));
            out.append(s.substring_char(kept, i));
            out.append(to);
            i += m;
            kept = i;
        } else {
            assert(rest.skip(1) =~= s@.skip(i + 1));
            i += 1;
        }
    }
    out.append(s.substring_char(kept, n));
    out
}

/// Whether `a` and `b` hold the same characters.
pub fn same_text(a: &str, b: &str) -> (r: bool)
    ensures
        r == (a@ == b@),
{
    let v = to_chars(a);
    matches_word(v.as_slice(), b)
}

} // verus!
