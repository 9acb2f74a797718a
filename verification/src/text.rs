//! Text primitives on characters: Unicode whitespace, trimming, prefix tests and
//! repeated prefix stripping, with the conversions between `String` and `Vec<char>`.
use vstd::prelude::*;

verus! {

/// The Unicode `White_Space` property (Unicode PropList.txt), the set of characters
/// for which `char::is_whitespace` holds and that `str::trim` removes.
pub open spec fn is_white_space(c: char) -> bool {
    let u = c as u32;
    ||| 0x9 <= u <= 0xd
    ||| u == 0x20
    ||| u == 0x85
    ||| u == 0xa0
    ||| u == 0x1680
    ||| 0x2000 <= u <= 0x200a
    ||| u == 0x2028
    ||| u == 0x2029
    ||| u == 0x202f
    ||| u == 0x205f
    ||| u == 0x3000
}

/// `s` with its leading whitespace removed.
pub open spec fn trim_start(s: Seq<char>) -> Seq<char>
    decreases s.len(),
{
    if s.len() > 0 && is_white_space(s[0]) {
        trim_start(s.drop_first())
    } else {
        s
    }
}

/// `s` with its trailing whitespace removed.
pub open spec fn trim_end(s: Seq<char>) -> Seq<char>
    decreases s.len(),
{
    if s.len() > 0 && is_white_space(s.last()) {
        trim_end(s.drop_last())
    } else {
        s
    }
}

/// `s` with leading and trailing whitespace removed, as `str::trim` does.
pub open spec fn trim(s: Seq<char>) -> Seq<char> {
    trim_end(trim_start(s))
}

/// Whether `s` begins with `p`.
pub open spec fn starts_with(s: Seq<char>, p: Seq<char>) -> bool {
    p.len() <= s.len() && s.take(p.len() as int) == p
}

/// `s` with every leading repetition of the non-empty pattern `p` removed, as
/// `str::trim_start_matches` does with a string pattern.
pub open spec fn strip_prefix_repeated(s: Seq<char>, p: Seq<char>) -> Seq<char>
    decreases s.len(),
{
    if p.len() > 0 && starts_with(s, p) {
        strip_prefix_repeated(s.skip(p.len() as int), p)
    } else {
        s
    }
}

/// Trimming the start of `s` drops the whitespace before its first other character.
pub proof fn lemma_trim_start_offset(s: Seq<char>) -> (k: int)
    ensures
        0 <= k <= s.len(),
        trim_start(s) == s.skip(k),
        forall|i: int| 0 <= i < k ==> is_white_space(#[trigger] s[i]),
        k < s.len() ==> !is_white_space(s[k]),
    decreases s.len(),
{
    if s.len() > 0 && is_white_space(s[0]) {
        let j = lemma_trim_start_offset(s.drop_first());
        assert(s.drop_first().skip(j) =~= s.skip(j + 1));
        assert forall|i: int| 0 <= i < j + 1 implies is_white_space(#[trigger] s[i]) by {
            if i > 0 {
                assert(s[i] == s.drop_first()[i - 1]);
            }
        }
        if j + 1 < s.len() {
            assert(s[j + 1] == s.drop_first()[j]);
        }
        j + 1
    } else {
        assert(s.skip(0) =~= s);
        0
    }
}

/// Trimming the end of `s` drops the whitespace after its last other character.
pub proof fn lemma_trim_end_offset(s: Seq<char>) -> (k: int)
    ensures
        0 <= k <= s.len(),
        trim_end(s) == s.take(k),
        forall|i: int| k <= i < s.len() ==> is_white_space(#[trigger] s[i]),
        k > 0 ==> !is_white_space(s[k - 1]),
    decreases s.len(),
{
    if s.len() > 0 && is_white_space(s.last()) {
        let j = lemma_trim_end_offset(s.drop_last());
        assert(s.drop_last().take(j) =~= s.take(j));
        assert forall|i: int| j <= i < s.len() implies is_white_space(#[trigger] s[i]) by {
            if i < s.len() - 1 {
                assert(s[i] == s.drop_last()[i]);
            }
        }
        if j > 0 {
            assert(s[j - 1] == s.drop_last()[j - 1]);
        }
        j
    } else {
        assert(s.take(s.len() as int) =~= s);
        s.len() as int
    }
}

/// A trimmed text is a run of `s` that starts and ends with characters other than
/// whitespace, and it is empty only when `s` is all whitespace.
pub proof fn lemma_trim_bounds(s: Seq<char>) -> (r: (int, int))
    ensures
        0 <= r.0 <= r.1 <= s.len(),
        trim(s) == s.subrange(r.0, r.1),
        r.0 < r.1 ==> !is_white_space(s[r.0]) && !is_white_space(s[r.1 - 1]),
        (exists|i: int| 0 <= i < s.len() && !is_white_space(#[trigger] s[i])) ==> r.0 < r.1,
        forall|i: int| 0 <= i < r.0 ==> is_white_space(#[trigger] s[i]),
        forall|i: int| r.1 <= i < s.len() ==> is_white_space(#[trigger] s[i]),
{
    let a = lemma_trim_start_offset(s);
    let t = s.skip(a);
    let b = lemma_trim_end_offset(t);
    assert forall|i: int| a + b <= i < s.len() implies is_white_space(#[trigger] s[i]) by {
        assert(s[i] == t[i - a]);
    }
    assert(t.take(b) =~= s.subrange(a, a + b));
    if a + b > a {
        assert(t[0] == s[a]);
        assert(t[b - 1] == s[a + b - 1]);
    }
    if exists|i: int| 0 <= i < s.len() && !is_white_space(#[trigger] s[i]) {
        let i = choose|i: int| 0 <= i < s.len() && !is_white_space(#[trigger] s[i]);
        if b == 0 {
            assert(i >= a);
            assert(t[i - a] == s[i]);
        }
    }
    (a, a + b)
}

/// Stripping a repeated prefix leaves a suffix of `s`; when the pattern ends with
/// whitespace and `s` does not, that suffix is not empty and ends as `s` does.
pub proof fn lemma_strip_offset(s: Seq<char>, p: Seq<char>) -> (k: int)
    ensures
        0 <= k <= s.len(),
        strip_prefix_repeated(s, p) == s.skip(k),
        p.len() > 0 && is_white_space(p.last()) && s.len() > 0 && !is_white_space(s.last())
            ==> k < s.len(),
    decreases s.len(),
{
    if p.len() > 0 && starts_with(s, p) {
        let t = s.skip(p.len() as int);
        let j = lemma_strip_offset(t, p);
        assert(t.skip(j) =~= s.skip(p.len() + j));
        if is_white_space(p.last()) && s.len() > 0 && !is_white_space(s.last()) {
            if p.len() == s.len() {
                assert(s.take(p.len() as int) =~= s);
            } else {
                assert(t.last() == s.last());
            }
        }
        p.len() + j
    } else {
        assert(s.skip(0) =~= s);
        0
    }
}

/// What trimming does, for every text: it keeps one run of `s`, which begins and
/// ends with a character other than whitespace (or is empty), and everything it
/// drops before and after that run is whitespace; so the result is empty exactly
/// when `s` is all whitespace.
pub proof fn law_trim(s: Seq<char>)
    ensures
        exists|a: int, b: int|
            0 <= a <= b <= s.len() && trim(s) == #[trigger] s.subrange(a, b) && (forall|i: int|
                0 <= i < a ==> is_white_space(#[trigger] s[i])) && (forall|i: int|
                b <= i < s.len() ==> is_white_space(#[trigger] s[i])),
        trim(s).len() > 0 ==> !is_white_space(trim(s)[0]) && !is_white_space(trim(s).last()),
        trim(s).len() == 0 <==> forall|i: int| 0 <= i < s.len() ==> is_white_space(#[trigger] s[i]),
{
    let (a, b) = lemma_trim_bounds(s);
    assert(trim(s) == s.subrange(a, b));
    if trim(s).len() > 0 {
        assert(trim(s)[0] == s[a]);
        assert(trim(s).last() == s[b - 1]);
    }
    if trim(s).len() == 0 {
        assert forall|i: int| 0 <= i < s.len() implies is_white_space(#[trigger] s[i]) by {
            if !is_white_space(s[i]) {
                assert(exists|j: int| 0 <= j < s.len() && !is_white_space(#[trigger] s[j]));
            }
        }
    } else {
        assert(!is_white_space(s[a]));
    }
}

/// A text that begins and ends with characters other than whitespace is its own
/// trim.
pub proof fn law_trim_keeps_trimmed(s: Seq<char>)
    requires
        s.len() > 0,
        !is_white_space(s[0]),
        !is_white_space(s.last()),
    ensures
        trim(s) == s,
{
    assert(trim_start(s) == s);
    assert(trim_end(s) == s);
}

/// What stripping a repeated prefix does, for every text: the input is some
/// number of copies of the pattern followed by the result, and the result does not
/// begin with the pattern.
pub proof fn law_strip_prefix_repeated(s: Seq<char>, p: Seq<char>)
    requires
        p.len() > 0,
    ensures
        !starts_with(strip_prefix_repeated(s, p), p),
        exists|n: int|
            #![trigger n * p.len()]
            0 <= n && n * p.len() + strip_prefix_repeated(s, p).len() == s.len() && s.skip(n * p.len())
                == strip_prefix_repeated(s, p) && forall|i: int|
                0 <= i < n * p.len() ==> #[trigger] s[i] == p[i % (p.len() as int)],
    decreases s.len(),
{
    if starts_with(s, p) {
        let t = s.skip(p.len() as int);
        law_strip_prefix_repeated(t, p);
        let n = choose|n: int|
            #![trigger n * p.len()]
            0 <= n && n * p.len() + strip_prefix_repeated(t, p).len() == t.len() && t.skip(n * p.len())
                == strip_prefix_repeated(t, p) && forall|i: int|
                0 <= i < n * p.len() ==> #[trigger] t[i] == p[i % (p.len() as int)];
        let m: int = n + 1;
        assert(m * p.len() == n * p.len() + p.len()) by (nonlinear_arith)
            requires
                m == n + 1,
        ;
        assert(t.skip(n * p.len()) =~= s.skip(m * p.len()));
        assert forall|i: int| 0 <= i < m * p.len() implies #[trigger] s[i] == p[i % (
        p.len() as int)] by {
            if i < p.len() {
                assert(s.take(p.len() as int)[i] == s[i]);
                assert(i % (p.len() as int) == i) by (nonlinear_arith)
                    requires
                        0 <= i < p.len(),
                ;
            } else {
                assert(t[i - p.len()] == s[i]);
                assert((i - p.len()) % (p.len() as int) == i % (p.len() as int)) by (
                nonlinear_arith)
                    requires
                        p.len() <= i,
                        p.len() > 0,
                ;
            }
        }
        assert(m * p.len() + strip_prefix_repeated(s, p).len() == s.len());
    } else {
        assert(0int * p.len() == 0);
        assert(s.skip(0) =~= s);
    }
}

/// Decides the Unicode `White_Space` property of `c`.
pub fn is_white_space_char(c: char) -> (b: bool)
    ensures
        b == is_white_space(c),
{
    let u = c as u32;
    (0x9 <= u && u <= 0xd) || u == 0x20 || u == 0x85 || u == 0xa0 || u == 0x1680 || (0x2000 <= u
        && u <= 0x200a) || u == 0x2028 || u == 0x2029 || u == 0x202f || u == 0x205f || u == 0x3000
}

proof fn lemma_trim_start_skip(s: Seq<char>, i: int)
    requires
        0 <= i < s.len(),
        is_white_space(s[i]),
    ensures
        trim_start(s.skip(i)) == trim_start(s.skip(i + 1)),
{
    assert(s.skip(i).drop_first() =~= s.skip(i + 1));
}

proof fn lemma_trim_end_take(s: Seq<char>, j: int)
    requires
        0 < j <= s.len(),
        is_white_space(s[j - 1]),
    ensures
        trim_end(s.take(j)) == trim_end(s.take(j - 1)),
{
    assert(s.take(j).drop_last() =~= s.take(j - 1));
}

/// The bounds of `v[lo..hi]` once leading and trailing whitespace is removed.
pub fn trim_range(v: &Vec<char>, lo: usize, hi: usize) -> (r: (usize, usize))
    requires
        lo <= hi <= v.len(),
    ensures
        lo <= r.0 <= r.1 <= hi,
        v@.subrange(r.0 as int, r.1 as int) == trim(v@.subrange(lo as int, hi as int)),
{
    let ghost s = v@.subrange(lo as int, hi as int);
    let mut a = lo;
    assert(s.skip(0) =~= s);
    while a < hi && is_white_space_char(v[a])
        invariant
            lo <= a <= hi <= v.len(),
            s == v@.subrange(lo as int, hi as int),
            trim_start(s) == trim_start(s.skip(a - lo)),
        decreases hi - a,
    {
        proof {
            lemma_trim_start_skip(s, a - lo);
        }
        a = a + 1;
    }
    let ghost t = s.skip(a - lo);
    assert(trim_start(s) == t);
    let mut b = hi;
    assert(t.take(t.len() as int) =~= t);
    while b > a && is_white_space_char(v[b - 1])
        invariant
            lo <= a <= b <= hi <= v.len(),
            s == v@.subrange(lo as int, hi as int),
            t == s.skip(a - lo),
            trim_end(t) == trim_end(t.take(b - a)),
        decreases b - a,
    {
        proof {
            lemma_trim_end_take(t, b - a);
        }
        b = b - 1;
    }
    assert(t.take(b - a) =~= v@.subrange(a as int, b as int));
    (a, b)
}

/// Whether `v[lo..hi]` begins with `p`.
pub fn range_starts_with(v: &Vec<char>, lo: usize, hi: usize, p: &[char]) -> (b: bool)
    requires
        lo <= hi <= v.len(),
    ensures
        b == starts_with(v@.subrange(lo as int, hi as int), p@),
{
    if p.len() > hi - lo {
        return false;
    }
    let mut k: usize = 0;
    while k < p.len()
        invariant
            lo <= hi <= v.len(),
            p.len() <= hi - lo,
            k <= p.len(),
            forall|i: int| 0 <= i < k ==> v@[lo + i] == p@[i],
        decreases p.len() - k,
    {
        if v[lo + k] != p[k] {
            assert(v@.subrange(lo as int, hi as int).take(p.len() as int)[k as int] != p@[k as int]);
            return false;
        }
        k = k + 1;
    }
    assert(v@.subrange(lo as int, hi as int).take(p.len() as int) =~= p@);
    true
}

/// The start of `v[lo..hi]` once every leading repetition of `p` is removed.
pub fn strip_prefix_range(v: &Vec<char>, lo: usize, hi: usize, p: &[char]) -> (r: usize)
    requires
        lo <= hi <= v.len(),
        p@.len() > 0,
    ensures
        lo <= r <= hi,
        v@.subrange(r as int, hi as int) == strip_prefix_repeated(
            v@.subrange(lo as int, hi as int),
            p@,
        ),
{
    let mut a = lo;
    while range_starts_with(v, a, hi, p)
        invariant
            lo <= a <= hi <= v.len(),
            p@.len() > 0,
            strip_prefix_repeated(v@.subrange(lo as int, hi as int), p@) == strip_prefix_repeated(
                v@.subrange(a as int, hi as int),
                p@,
            ),
        decreases hi - a,
    {
        assert(v@.subrange(a as int, hi as int).skip(p@.len() as int) =~= v@.subrange(
            a + p@.len(),
            hi as int,
        ));
        a = a + p.len();
    }
    a
}

/// Appends `c` to `s` (`String::push`).
#[verifier::external_body]
fn push_char(s: &mut String, c: char)
    ensures
        final(s)@ == old(s)@.push(c),
{
    s.push(c)
}

/// The string made of the characters `v[lo..hi]`.
pub fn string_from_range(v: &Vec<char>, lo: usize, hi: usize) -> (s: String)
    requires
        lo <= hi <= v.len(),
    ensures
        s@ == v@.subrange(lo as int, hi as int),
{
    let mut s = String::new();
    let mut k = lo;
    while k < hi
        invariant
            lo <= k <= hi <= v.len(),
            s@ == v@.subrange(lo as int, k as int),
        decreases hi - k,
    {
        push_char(&mut s, v[k]);
        assert(v@.subrange(lo as int, k + 1) =~= v@.subrange(lo as int, k as int).push(v@[k as int]));
        k = k + 1;
    }
    s
}

/// Appends the characters of `s` to `v`.
pub fn extend_with_chars(v: &mut Vec<char>, s: &str)
    ensures
        final(v)@ == old(v)@ + s@,
{
    let ghost start = v@;
    for c in it: s.chars()
        invariant
            it.seq() == s@,
            v@ == start + s@.take(it.index() as int),
    {
        v.push(c);
        assert(s@.take(it.index() + 1) =~= s@.take(it.index() as int).push(c));
    }
    assert(s@.take(s@.len() as int) =~= s@);
}

/// The characters of `s`.
pub fn chars_of(s: &str) -> (v: Vec<char>)
    ensures
        v@ == s@,
{
    let mut v = Vec::new();
    extend_with_chars(&mut v, s);
    assert(v@ =~= s@);
    v
}

/// `s` with leading and trailing whitespace removed, as `str::trim` does.
pub fn trim_text(s: &str) -> (r: String)
    ensures
        r@ == trim(s@),
{
    let v = chars_of(s);
    let (a, b) = trim_range(&v, 0, v.len());
    assert(v@.subrange(0, v@.len() as int) =~= v@);
    string_from_range(&v, a, b)
}

} // verus!
