//! Character-level scanning of command output: splitting into lines,
//! trimming, searching and splitting on separators, each with the meaning
//! std's `str` methods of the same name give it.

use vstd::prelude::*;

verus! {

/// Whether `c` has Unicode's White_Space property, the characters
/// `char::is_whitespace` accepts: U+0009 to U+000D, U+0020, U+0085, U+00A0,
/// U+1680, U+2000 to U+200A, U+2028, U+2029, U+202F, U+205F and U+3000.
pub open spec fn is_white_space(c: char) -> bool {
    let v = c as u32;
    ||| 0x09 <= v <= 0x0D
    ||| v == 0x20
    ||| v == 0x85
    ||| v == 0xA0
    ||| v == 0x1680
    ||| 0x2000 <= v <= 0x200A
    ||| v == 0x2028
    ||| v == 0x2029
    ||| v == 0x202F
    ||| v == 0x205F
    ||| v == 0x3000
}

/// Whether `c` is white space (as `char::is_whitespace`).
pub fn char_is_whitespace(c: char) -> (res: bool)
    ensures
        res == is_white_space(c),
{
    let v = c as u32;
    (0x09 <= v && v <= 0x0D) || v == 0x20 || v == 0x85 || v == 0xA0 || v == 0x1680 || (0x2000 <= v
        && v <= 0x200A) || v == 0x2028 || v == 0x2029 || v == 0x202F || v == 0x205F || v == 0x3000
}

/// Which characters a trim removes.
#[derive(Debug, Clone, Copy, PartialEq, Eq, Structural)]
pub enum TrimSet {
    /// Unicode white space (`str::trim`).
    WhiteSpace,
    /// Double quotes, semicolons and spaces.
    QuotesSemicolonsSpaces,
}

/// Whether `set` removes `c`.
pub open spec fn trimmed_by(set: TrimSet, c: char) -> bool {
    match set {
        TrimSet::WhiteSpace => is_white_space(c),
        TrimSet::QuotesSemicolonsSpaces => c == '"' || c == ';' || c == ' ',
    }
}

fn is_trimmed(set: TrimSet, c: char) -> (res: bool)
    ensures
        res == trimmed_by(set, c),
{
    match set {
        TrimSet::WhiteSpace => char_is_whitespace(c),
        TrimSet::QuotesSemicolonsSpaces => c == '"' || c == ';' || c == ' ',
    }
}

/// `s` without the leading characters `set` removes.
pub open spec fn trim_start(s: Seq<char>, set: TrimSet) -> Seq<char>
    decreases s.len(),
{
    if s.len() > 0 && trimmed_by(set, s[0]) {
        trim_start(s.drop_first(), set)
    } else {
        s
    }
}

/// `s` without the trailing characters `set` removes.
pub open spec fn trim_end(s: Seq<char>, set: TrimSet) -> Seq<char>
    decreases s.len(),
{
    if s.len() > 0 && trimmed_by(set, s.last()) {
        trim_end(s.drop_last(), set)
    } else {
        s
    }
}

/// `s` without leading and trailing characters `set` removes.
pub open spec fn trim(s: Seq<char>, set: TrimSet) -> Seq<char> {
    trim_end(trim_start(s, set), set)
}

/// Trim both ends of `s`.
pub fn trim_chars(s: &[char], set: TrimSet) -> (res: Vec<char>)
    ensures
        res@ == trim(s@, set),
{
    let mut lo: usize = 0;
    assert(s@.subrange(0, s@.len() as int) == s@);
    while lo < s.len() && is_trimmed(set, s[lo])
        invariant
            0 <= lo <= s@.len(),
            trim_start(s@, set) == trim_start(s@.subrange(lo as int, s@.len() as int), set),
        decreases s@.len() - lo,
    {
        assert(s@.subrange(lo as int, s@.len() as int).drop_first() == s@.subrange(lo + 1, s@.len() as int));
        lo = lo + 1;
    }
    let ghost mid = s@.subrange(lo as int, s@.len() as int);
    assert(trim_start(s@, set) == mid);
    let mut hi: usize = s.len();
    assert(mid.take((hi - lo) as int) == mid);
    while hi > lo && is_trimmed(set, s[hi - 1])
        invariant
            lo <= hi <= s@.len(),
            mid == s@.subrange(lo as int, s@.len() as int),
            trim_end(mid, set) == trim_end(mid.take(hi - lo), set),
        decreases hi,
    {
        assert(mid.take(hi - lo).drop_last() == mid.take(hi - lo - 1));
        assert(mid.take(hi - lo).last() == s@[hi - 1]);
        hi = hi - 1;
    }
    assert(mid.take(hi - lo) == s@.subrange(lo as int, hi as int));
    let mut out: Vec<char> = Vec::new();
    let mut k: usize = lo;
    while k < hi
        invariant
            lo <= k <= hi <= s@.len(),
            out@ == s@.subrange(lo as int, k as int),
        decreases hi - k,
    {
        out.push(s[k]);
        assert(s@.subrange(lo as int, k + 1) == s@.subrange(lo as int, k as int).push(s@[k as int]));
        k = k + 1;
    }
    out
}

/// The segments of `s` between occurrences of `sep` (as `str::split` with a
/// character): always at least one segment.
pub open spec fn split_on(s: Seq<char>, sep: char) -> Seq<Seq<char>>
    decreases s.len(),
{
    if s.len() == 0 {
        seq![Seq::empty()]
    } else if s.last() == sep {
        split_on(s.drop_last(), sep).push(Seq::empty())
    } else {
        let r = split_on(s.drop_last(), sep);
        r.update(r.len() - 1, r.last().push(s.last()))
    }
}

proof fn lemma_split_nonempty(s: Seq<char>, sep: char)
    ensures
        split_on(s, sep).len() >= 1,
    decreases s.len(),
{
    if s.len() > 0 {
        lemma_split_nonempty(s.drop_last(), sep);
    }
}

/// `s` without a trailing carriage return.
pub open spec fn strip_cr(line: Seq<char>) -> Seq<char> {
    if line.len() > 0 && line.last() == '\r' { line.drop_last() } else { line }
}

/// The lines of `s` as `str::lines` yields them: split on `\n`, without the
/// empty piece after a final newline, each line without a trailing `\r`.
pub open spec fn lines_of(s: Seq<char>) -> Seq<Seq<char>> {
    let segs = split_on(s, '\n');
    let kept = if segs.last().len() == 0 { segs.drop_last() } else { segs };
    kept.map_values(|l: Seq<char>| strip_cr(l))
}

/// Split `s` into its lines.
pub fn lines(s: &[char]) -> (res: Vec<Vec<char>>)
    ensures
        res@.map_values(|l: Vec<char>| l@) == lines_of(s@),
{
    let mut segs: Vec<Vec<char>> = Vec::new();
    let mut cur: Vec<char> = Vec::new();
    let mut i: usize = 0;
    assert(s@.take(0) =~= Seq::<char>::empty());
    while i < s.len()
        invariant
            0 <= i <= s@.len(),
            segs@.map_values(|l: Vec<char>| l@).push(cur@) == split_on(s@.take(i as int), '\n'),
        decreases s@.len() - i,
    {
        let c = s[i];
        let ghost prev = segs@.map_values(|l: Vec<char>| l@);
        proof {
            assert(s@.take(i + 1).drop_last() == s@.take(i as int));
            assert(s@.take(i + 1).last() == c);
            lemma_split_nonempty(s@.take(i as int), '\n');
        }
        if c == '\n' {
            let done = cur;
            segs.push(done);
            cur = Vec::new();
            assert(segs@.map_values(|l: Vec<char>| l@) =~= prev.push(done@));
            assert(segs@.map_values(|l: Vec<char>| l@).push(cur@) =~= prev.push(done@).push(Seq::empty()));
        } else {
            let ghost old_cur = cur@;
            cur.push(c);
            assert(prev.push(old_cur).update(prev.len() as int, old_cur.push(c)) =~= prev.push(cur@));
            assert(prev.push(old_cur).last() == old_cur);
        }
        i = i + 1;
    }
    assert(s@.take(s@.len() as int) == s@);
    let ghost segs_v = segs@.map_values(|l: Vec<char>| l@).push(cur@);
    if cur.len() > 0 {
        segs.push(cur);
    }
    let ghost kept = segs@.map_values(|l: Vec<char>| l@);
    assert(kept == (if segs_v.last().len() == 0 { segs_v.drop_last() } else { segs_v }));
    let mut out: Vec<Vec<char>> = Vec::new();
    let mut j: usize = 0;
    while j < segs.len()
        invariant
            0 <= j <= segs@.len(),
            kept == segs@.map_values(|l: Vec<char>| l@),
            out@.map_values(|l: Vec<char>| l@) == kept.take(j as int).map_values(|l: Seq<char>| strip_cr(l)),
        decreases segs@.len() - j,
    {
        let seg = &segs[j];
        let mut line: Vec<char> = Vec::new();
        let n = if seg.len() > 0 && seg[seg.len() - 1] == '\r' { seg.len() - 1 } else { seg.len() };
        let mut k: usize = 0;
        while k < n
            invariant
                0 <= k <= n <= seg@.len(),
                line@ == seg@.take(k as int),
            decreases n - k,
        {
            line.push(seg[k]);
            assert(seg@.take(k + 1) == seg@.take(k as int).push(seg@[k as int]));
            k = k + 1;
        }
        assert(line@ == strip_cr(seg@));
        let ghost before = out@.map_values(|l: Vec<char>| l@);
        out.push(line);
        assert(kept[j as int] == seg@);
        assert(kept.take(j + 1) =~= kept.take(j as int).push(seg@));
        assert(kept.take(j + 1).map_values(|l: Seq<char>| strip_cr(l)) =~= kept.take(j as int).map_values(
            |l: Seq<char>| strip_cr(l),
        ).push(strip_cr(seg@)));
        assert(out@.map_values(|l: Vec<char>| l@) =~= kept.take(j + 1).map_values(|l: Seq<char>| strip_cr(l)));
        j = j + 1;
    }
    assert(kept.take(segs@.len() as int) == kept);
    out
}

/// Whether `pattern` occurs in `s`.
pub open spec fn has_substring(s: Seq<char>, pattern: Seq<char>) -> bool {
    exists|i: int| 0 <= i <= s.len() - pattern.len() && #[trigger] s.subrange(i, i + pattern.len()) == pattern
}

/// Whether `pattern` occurs in `s` (as `str::contains`).
pub fn contains_chars(s: &[char], pattern: &[char]) -> (res: bool)
    ensures
        res == has_substring(s@, pattern@),
{
    if pattern.len() > s.len() {
        return false;
    }
    let mut i: usize = 0;
    while i <= s.len() - pattern.len()
        invariant
            pattern@.len() <= s@.len(),
            0 <= i <= s@.len() - pattern@.len() + 1,
            forall|k: int| 0 <= k < i ==> #[trigger] s@.subrange(k, k + pattern@.len()) != pattern@,
        decreases s@.len() - pattern@.len() + 1 - i,
    {
        let mut j: usize = 0;
        let mut same = true;
        while j < pattern.len()
            invariant
                0 <= j <= pattern@.len(),
                i + pattern@.len() <= s@.len(),
                same == (forall|t: int| 0 <= t < j ==> s@[i + t] == pattern@[t]),
            decreases pattern@.len() - j,
        {
            assert(i + j < s.len());
            let idx = i + j;
            if s[idx] != pattern[j] {
                same = false;
            }
            j = j + 1;
        }
        if same {
            assert(s@.subrange(i as int, i + pattern@.len()) =~= pattern@);
            return true;
        }
        assert(s@.subrange(i as int, i + pattern@.len()) != pattern@) by {
            let t = choose|t: int| 0 <= t < pattern@.len() && s@[i + t] != pattern@[t];
            assert(s@.subrange(i as int, i + pattern@.len())[t] == s@[i + t]);
        }
        i = i + 1;
    }
    false
}

/// Whether `s` starts with `prefix`.
pub open spec fn starts_with(s: Seq<char>, prefix: Seq<char>) -> bool {
    s.len() >= prefix.len() && s.take(prefix.len() as int) == prefix
}

/// Whether `s` starts with `prefix` (as `str::starts_with`).
pub fn starts_with_chars(s: &[char], prefix: &[char]) -> (res: bool)
    ensures
        res == starts_with(s@, prefix@),
{
    if prefix.len() > s.len() {
        return false;
    }
    let mut j: usize = 0;
    while j < prefix.len()
        invariant
            prefix@.len() <= s@.len(),
            0 <= j <= prefix@.len(),
            forall|t: int| 0 <= t < j ==> s@[t] == prefix@[t],
        decreases prefix@.len() - j,
    {
        if s[j] != prefix[j] {
            assert(s@.take(prefix@.len() as int)[j as int] != prefix@[j as int]);
            return false;
        }
        j = j + 1;
    }
    assert(s@.take(prefix@.len() as int) =~= prefix@);
    true
}

/// Index of the first `c` in `s`, if any.
pub open spec fn find_char(s: Seq<char>, c: char) -> Option<int> {
    if exists|i: int| 0 <= i < s.len() && s[i] == c {
        Some(choose|i: int| 0 <= i < s.len() && s[i] == c && forall|k: int| 0 <= k < i ==> s[k] != c)
    } else {
        None
    }
}

/// Index of the first `c` in `s` (as `str::find` with a character).
pub fn find_first(s: &[char], c: char) -> (res: Option<usize>)
    ensures
        match res {
            Some(i) => i < s@.len() && s@[i as int] == c && forall|k: int| 0 <= k < i ==> s@[k] != c,
            None => forall|k: int| 0 <= k < s@.len() ==> s@[k] != c,
        },
        res matches Some(i) ==> find_char(s@, c) == Some(i as int),
        res is None ==> find_char(s@, c) is None,
{
    let mut i: usize = 0;
    while i < s.len()
        invariant
            0 <= i <= s@.len(),
            forall|k: int| 0 <= k < i ==> s@[k] != c,
        decreases s@.len() - i,
    {
        if s[i] == c {
            proof {
                let w = choose|w: int| 0 <= w < s@.len() && s@[w] == c && forall|k: int| 0 <= k < w ==> s@[k] != c;
                assert(w == i as int) by {
                    if w < i {
                    } else if w > i {
                        assert(s@[i as int] != c);
                    }
                }
            }
            return Some(i);
        }
        i = i + 1;
    }
    None
}

/// `s` with every `c` removed (as `str::replace(c, "")`).
pub open spec fn remove_char(s: Seq<char>, c: char) -> Seq<char>
    decreases s.len(),
{
    if s.len() == 0 {
        s
    } else if s.last() == c {
        remove_char(s.drop_last(), c)
    } else {
        remove_char(s.drop_last(), c).push(s.last())
    }
}

/// Remove every `c` from `s`.
pub fn remove_all(s: &[char], c: char) -> (res: Vec<char>)
    ensures
        res@ == remove_char(s@, c),
{
    let mut out: Vec<char> = Vec::new();
    let mut i: usize = 0;
    assert(s@.take(0) =~= Seq::<char>::empty());
    while i < s.len()
        invariant
            0 <= i <= s@.len(),
            out@ == remove_char(s@.take(i as int), c),
        decreases s@.len() - i,
    {
        assert(s@.take(i + 1).drop_last() == s@.take(i as int));
        assert(s@.take(i + 1).last() == s@[i as int]);
        if s[i] != c {
            out.push(s[i]);
        }
        i = i + 1;
    }
    assert(s@.take(s@.len() as int) == s@);
    out
}

/// The characters of `s` from index `from` on.
pub fn tail_from(s: &[char], from: usize) -> (res: Vec<char>)
    requires
        from <= s@.len(),
    ensures
        res@ == s@.skip(from as int),
{
    let mut out: Vec<char> = Vec::new();
    let mut i: usize = from;
    while i < s.len()
        invariant
            from <= i <= s@.len(),
            out@ == s@.subrange(from as int, i as int),
        decreases s@.len() - i,
    {
        out.push(s[i]);
        assert(s@.subrange(from as int, i + 1) == s@.subrange(from as int, i as int).push(s@[i as int]));
        i = i + 1;
    }
    assert(s@.subrange(from as int, s@.len() as int) == s@.skip(from as int));
    out
}

/// Split `s` on `sep` (as `str::split` with a character).
pub fn split_segments(s: &[char], sep: char) -> (res: Vec<Vec<char>>)
    ensures
        res@.map_values(|l: Vec<char>| l@) == split_on(s@, sep),
        res@.len() >= 1,
{
    let mut segs: Vec<Vec<char>> = Vec::new();
    let mut cur: Vec<char> = Vec::new();
    let mut i: usize = 0;
    assert(s@.take(0) =~= Seq::<char>::empty());
    while i < s.len()
        invariant
            0 <= i <= s@.len(),
            segs@.map_values(|l: Vec<char>| l@).push(cur@) == split_on(s@.take(i as int), sep),
        decreases s@.len() - i,
    {
        let c = s[i];
        let ghost prev = segs@.map_values(|l: Vec<char>| l@);
        proof {
            assert(s@.take(i + 1).drop_last() == s@.take(i as int));
            assert(s@.take(i + 1).last() == c);
            lemma_split_nonempty(s@.take(i as int), sep);
        }
        if c == sep {
            let done = cur;
            segs.push(done);
            cur = Vec::new();
            assert(segs@.map_values(|l: Vec<char>| l@) =~= prev.push(done@));
            assert(segs@.map_values(|l: Vec<char>| l@).push(cur@) =~= prev.push(done@).push(Seq::empty()));
        } else {
            let ghost old_cur = cur@;
            cur.push(c);
            assert(prev.push(old_cur).update(prev.len() as int, old_cur.push(c)) =~= prev.push(cur@));
            assert(prev.push(old_cur).last() == old_cur);
        }
        i = i + 1;
    }
    assert(s@.take(s@.len() as int) == s@);
    let ghost prev = segs@.map_values(|l: Vec<char>| l@);
    let last = cur;
    segs.push(last);
    assert(segs@.map_values(|l: Vec<char>| l@) =~= prev.push(last@));
    segs
}

} // verus!
