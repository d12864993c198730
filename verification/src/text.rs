//! Text helpers shared by the protocol, parsing and formatting code:
//! character sequences, decimal rendering of integers, and UTF-16 encoding.

use vstd::prelude::*;
use vstd::string::*;

verus! {

/// The characters of `s`, in order.
pub fn chars_of(s: &str) -> (res: Vec<char>)
    ensures
        res@ == s@,
{
    let mut out: Vec<char> = Vec::new();
    for c in it: s.chars()
        invariant
            it.seq() == s@,
            out@.len() == it.index(),
            forall|k: int| 0 <= k < out@.len() ==> out@[k] == s@[k],
    {
        out.push(c);
    }
    assert(out@ =~= s@);
    out
}

/// Collects characters into a `String` (std's `FromIterator<&char>` for
/// `String`); the string holds exactly those characters, in order.
#[verifier::external_body]
pub(crate) fn string_from_chars(chars: &[char]) -> (res: String)
    ensures
        res@ == chars@,
{
    String::from_iter(chars)
}

/// The character for a decimal digit.
pub open spec fn digit_char(d: nat) -> char {
    if d == 0 { '0' }
    else if d == 1 { '1' }
    else if d == 2 { '2' }
    else if d == 3 { '3' }
    else if d == 4 { '4' }
    else if d == 5 { '5' }
    else if d == 6 { '6' }
    else if d == 7 { '7' }
    else if d == 8 { '8' }
    else { '9' }
}

/// Decimal digits of `n`, most significant first, without leading zeros.
pub open spec fn decimal_digits(n: nat) -> Seq<char>
    decreases n,
{
    if n < 10 {
        seq![digit_char(n)]
    } else {
        decimal_digits(n / 10).push(digit_char(n % 10))
    }
}

/// Decimal text of an integer, with a leading `-` when negative.
pub open spec fn decimal_text(v: int) -> Seq<char> {
    if v < 0 {
        seq!['-'] + decimal_digits((-v) as nat)
    } else {
        decimal_digits(v as nat)
    }
}

fn digit_to_char(d: u64) -> (res: char)
    requires
        d < 10,
    ensures
        res == digit_char(d as nat),
{
    if d == 0 { '0' }
    else if d == 1 { '1' }
    else if d == 2 { '2' }
    else if d == 3 { '3' }
    else if d == 4 { '4' }
    else if d == 5 { '5' }
    else if d == 6 { '6' }
    else if d == 7 { '7' }
    else if d == 8 { '8' }
    else { '9' }
}

/// Decimal digits of `n` as characters.
pub fn decimal_chars_u64(n: u64) -> (res: Vec<char>)
    ensures
        res@ == decimal_digits(n as nat),
{
    let mut rem = n;
    let mut acc: Vec<char> = Vec::new();
    while rem >= 10
        invariant
            decimal_digits(n as nat) == decimal_digits(rem as nat) + acc@,
        decreases rem,
    {
        let d = digit_to_char(rem % 10);
        proof {
            assert(decimal_digits(rem as nat) == decimal_digits((rem / 10) as nat).push(d));
            assert(decimal_digits((rem / 10) as nat).push(d) + acc@ == decimal_digits(
                (rem / 10) as nat,
            ) + (seq![d] + acc@));
        }
        acc.insert(0, d);
        rem = rem / 10;
    }
    let d = digit_to_char(rem);
    acc.insert(0, d);
    acc
}

/// Decimal rendering of an unsigned integer (as `to_string` prints it).
pub fn decimal_u64(n: u64) -> (res: String)
    ensures
        res@ == decimal_digits(n as nat),
{
    let cs = decimal_chars_u64(n);
    string_from_chars(cs.as_slice())
}

/// Decimal rendering of a signed integer (as `to_string` prints it).
pub fn decimal_i64(v: i64) -> (res: String)
    ensures
        res@ == decimal_text(v as int),
{
    if v < 0 {
        let mag: u64 = (0i128 - (v as i128)) as u64;
        let digits = decimal_chars_u64(mag);
        let mut cs: Vec<char> = Vec::new();
        cs.push('-');
        let mut i: usize = 0;
        while i < digits.len()
            invariant
                0 <= i <= digits@.len(),
                cs@ == seq!['-'] + digits@.take(i as int),
            decreases digits@.len() - i,
        {
            proof {
                assert(digits@.take(i + 1) == digits@.take(i as int).push(digits@[i as int]));
            }
            cs.push(digits[i]);
            i = i + 1;
        }
        proof {
            assert(digits@.take(digits@.len() as int) == digits@);
        }
        string_from_chars(cs.as_slice())
    } else {
        decimal_u64(v as u64)
    }
}

/// UTF-16 code units of one character.
pub open spec fn utf16_units(c: char) -> Seq<u16> {
    let v = (c as u32) as int;
    if v < 0x10000 {
        seq![v as u16]
    } else {
        let u = v - 0x10000;
        seq![(0xD800 + u / 0x400) as u16, (0xDC00 + u % 0x400) as u16]
    }
}

/// UTF-16 encoding of a character sequence.
pub open spec fn utf16_encode(s: Seq<char>) -> Seq<u16>
    decreases s.len(),
{
    if s.len() == 0 {
        Seq::empty()
    } else {
        utf16_encode(s.drop_last()) + utf16_units(s.last())
    }
}

/// `s` encoded as UTF-16 followed by a terminating 0, the form wide-string
/// system interfaces take.
pub fn wide(s: &str) -> (res: Vec<u16>)
    ensures
        res@ == utf16_encode(s@).push(0u16),
{
    let cs = chars_of(s);
    let mut out: Vec<u16> = Vec::new();
    let mut i: usize = 0;
    while i < cs.len()
        invariant
            0 <= i <= cs@.len(),
            out@ == utf16_encode(cs@.take(i as int)),
        decreases cs@.len() - i,
    {
        let c = cs[i];
        proof {
            assert(cs@.take(i + 1).drop_last() == cs@.take(i as int));
            assert(cs@.take(i + 1).last() == c);
        }
        let ghost prev = out@;
        let v = c as u32;
        proof {
            assert(utf16_encode(cs@.take(i + 1)) == prev + utf16_units(c));
        }
        if v < 0x10000 {
            out.push(v as u16);
            proof {
                assert(out@ =~= prev + utf16_units(c));
            }
        } else {
            let u = v - 0x10000;
            out.push((0xD800 + u / 0x400) as u16);
            out.push((0xDC00 + u % 0x400) as u16);
            proof {
                assert(out@ =~= prev + utf16_units(c));
            }
        }
        i = i + 1;
    }
    proof {
        assert(cs@.take(cs@.len() as int) == cs@);
    }
    out.push(0u16);
    out
}

/// Whether two character slices are equal.
pub fn chars_eq(a: &[char], b: &[char]) -> (res: bool)
    ensures
        res == (a@ == b@),
{
    if a.len() != b.len() {
        return false;
    }
    let mut i: usize = 0;
    while i < a.len()
        invariant
            a@.len() == b@.len(),
            0 <= i <= a@.len(),
            forall|k: int| 0 <= k < i ==> a@[k] == b@[k],
        decreases a@.len() - i,
    {
        if a[i] != b[i] {
            return false;
        }
        i = i + 1;
    }
    assert(a@ =~= b@);
    true
}

/// Whether two strings hold the same characters.
pub fn str_eq(a: &str, b: &str) -> (res: bool)
    ensures
        res == (a@ == b@),
{
    let ca = chars_of(a);
    let cb = chars_of(b);
    chars_eq(ca.as_slice(), cb.as_slice())
}

/// The lowercase form std's `str::to_lowercase` gives for `s` (Unicode
/// default case mapping).
pub uninterp spec fn lowercase_of(s: Seq<char>) -> Seq<char>;

/// std's `str::to_lowercase`.
#[verifier::external_body]
pub(crate) fn to_lowercase(s: &str) -> (res: String)
    ensures
        res@ == lowercase_of(s@),
{
    s.to_lowercase()
}

/// The views of a sequence of strings.
pub open spec fn string_views(v: Seq<String>) -> Seq<Seq<char>> {
    v.map_values(|s: String| s@)
}

/// `parts` joined with `sep` between consecutive parts.
pub open spec fn join_with(parts: Seq<Seq<char>>, sep: Seq<char>) -> Seq<char>
    decreases parts.len(),
{
    if parts.len() == 0 {
        Seq::empty()
    } else if parts.len() == 1 {
        parts[0]
    } else {
        join_with(parts.drop_last(), sep) + sep + parts.last()
    }
}

/// Join strings with a separator (as `[String]::join` does).
pub fn join_strings(parts: &Vec<String>, sep: &str) -> (res: String)
    ensures
        res@ == join_with(string_views(parts@), sep@),
{
    let mut res = String::new();
    let ghost views = string_views(parts@);
    let mut i: usize = 0;
    while i < parts.len()
        invariant
            0 <= i <= parts@.len(),
            views == string_views(parts@),
            res@ == join_with(views.take(i as int), sep@),
        decreases parts@.len() - i,
    {
        proof {
            assert(views.take(i + 1).drop_last() == views.take(i as int));
            assert(views.take(i + 1).last() == parts@[i as int]@);
        }
        if i != 0 {
            res.append(sep);
        } else {
            assert(views.take(1) == seq![parts@[0]@]);
        }
        res.append(parts[i].as_str());
        i = i + 1;
    }
    proof {
        assert(views.take(parts@.len() as int) == views);
    }
    res
}

/// `s` without any trailing copies of `c` (as `str::trim_end_matches` with a
/// single character).
pub open spec fn trim_end_char(s: Seq<char>, c: char) -> Seq<char>
    decreases s.len(),
{
    if s.len() > 0 && s.last() == c {
        trim_end_char(s.drop_last(), c)
    } else {
        s
    }
}

/// Remove every trailing `c` from `s`.
pub fn trim_end_matches_char(s: &str, c: char) -> (res: String)
    ensures
        res@ == trim_end_char(s@, c),
{
    let cs = chars_of(s);
    let mut n: usize = cs.len();
    assert(cs@.take(n as int) == cs@);
    while n > 0 && cs[n - 1] == c
        invariant
            0 <= n <= cs@.len(),
            trim_end_char(s@, c) == trim_end_char(cs@.take(n as int), c),
            cs@ == s@,
        decreases n,
    {
        assert(cs@.take(n as int).drop_last() == cs@.take(n - 1));
        n = n - 1;
    }
    assert(trim_end_char(cs@.take(n as int), c) == cs@.take(n as int));
    string_from_chars(cs.as_slice().split_at(n).0)
}

/// The part of `s` before the first occurrence of `c` (all of `s` when `c`
/// does not occur), as the first item of `str::split(c)`.
pub open spec fn before_first(s: Seq<char>, c: char) -> Seq<char>
    decreases s.len(),
{
    if s.len() == 0 {
        s
    } else if s[0] == c {
        Seq::empty()
    } else {
        seq![s[0]] + before_first(s.drop_first(), c)
    }
}

/// Index of the first `c` in `s`, or its length.
pub open spec fn first_index_of(s: Seq<char>, c: char) -> int
    decreases s.len(),
{
    if s.len() == 0 {
        0
    } else if s[0] == c {
        0
    } else {
        1 + first_index_of(s.drop_first(), c)
    }
}

proof fn lemma_before_first(s: Seq<char>, c: char)
    ensures
        0 <= first_index_of(s, c) <= s.len(),
        before_first(s, c) == s.take(first_index_of(s, c)),
        forall|k: int| 0 <= k < first_index_of(s, c) ==> s[k] != c,
        first_index_of(s, c) < s.len() ==> s[first_index_of(s, c)] == c,
    decreases s.len(),
{
    if s.len() > 0 && s[0] != c {
        lemma_before_first(s.drop_first(), c);
        assert(seq![s[0]] + s.drop_first().take(first_index_of(s.drop_first(), c)) =~= s.take(
            first_index_of(s, c),
        ));
        assert forall|k: int| 0 <= k < first_index_of(s, c) implies s[k] != c by {
            if k > 0 {
                assert(s[k] == s.drop_first()[k - 1]);
            }
        }
    } else if s.len() > 0 {
        assert(s.take(0) =~= Seq::<char>::empty());
    } else {
        assert(s.take(0) =~= s);
    }
}

/// The characters before the first `c` (as the first item of `split(c)`).
pub fn split_first(s: &[char], c: char) -> (res: &[char])
    ensures
        res@ == before_first(s@, c),
{
    let mut i: usize = 0;
    while i < s.len() && s[i] != c
        invariant
            0 <= i <= s@.len(),
            forall|k: int| 0 <= k < i ==> s@[k] != c,
        decreases s@.len() - i,
    {
        i = i + 1;
    }
    proof {
        lemma_before_first(s@, c);
        if first_index_of(s@, c) < i {
            assert(s@[first_index_of(s@, c)] != c);
        }
        if i < first_index_of(s@, c) {
            assert(s@[i as int] != c);
        }
    }
    s.split_at(i).0
}

} // verus!
