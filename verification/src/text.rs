//! Character-level string helpers with exact specifications.
use vstd::prelude::*;

verus! {

/// Whether `c` has the Unicode `White_Space` property, the set that
/// `char::is_whitespace` (and therefore `str::trim`) uses.
pub open spec fn is_ws(c: char) -> bool {
    let u = c as u32;
    (0x09 <= u <= 0x0d) || u == 0x20 || u == 0x85 || u == 0xa0 || u == 0x1680
        || (0x2000 <= u <= 0x200a) || u == 0x2028 || u == 0x2029 || u == 0x202f
        || u == 0x205f || u == 0x3000
}

/// `s` without its leading white space.
pub open spec fn trim_start(s: Seq<char>) -> Seq<char>
    decreases s.len(),
{
    if s.len() > 0 && is_ws(s[0]) {
        trim_start(s.drop_first())
    } else {
        s
    }
}

/// `s` without its trailing white space.
pub open spec fn trim_end(s: Seq<char>) -> Seq<char>
    decreases s.len(),
{
    if s.len() > 0 && is_ws(s.last()) {
        trim_end(s.drop_last())
    } else {
        s
    }
}

/// `s` without leading and trailing white space, as `str::trim` gives it.
pub open spec fn trim(s: Seq<char>) -> Seq<char> {
    trim_end(trim_start(s))
}

/// `s` with every leading copy of a non-empty `p` removed, as `str::trim_start_matches`.
pub open spec fn strip_prefixes(s: Seq<char>, p: Seq<char>) -> Seq<char>
    decreases s.len(),
{
    if p.len() > 0 && p.len() <= s.len() && s.subrange(0, p.len() as int) == p {
        strip_prefixes(s.subrange(p.len() as int, s.len() as int), p)
    } else {
        s
    }
}

/// `s` with every trailing copy of a non-empty `p` removed, as `str::trim_end_matches`.
pub open spec fn strip_suffixes(s: Seq<char>, p: Seq<char>) -> Seq<char>
    decreases s.len(),
{
    if p.len() > 0 && p.len() <= s.len() && s.subrange(s.len() - p.len(), s.len() as int) == p {
        strip_suffixes(s.subrange(0, s.len() - p.len()), p)
    } else {
        s
    }
}

/// Whether `p` is a prefix of `s`.
pub open spec fn has_prefix(s: Seq<char>, p: Seq<char>) -> bool {
    p.len() <= s.len() && s.subrange(0, p.len() as int) == p
}

/// The ASCII lower-case form of a character; other characters are unchanged.
pub open spec fn ascii_lower(c: char) -> char {
    if 'A' <= c <= 'Z' {
        ((c as u32) + 32) as char
    } else {
        c
    }
}

/// Equality up to ASCII case, as `str::eq_ignore_ascii_case`.
pub open spec fn eq_ignore_ascii_case(a: Seq<char>, b: Seq<char>) -> bool {
    a.len() == b.len() && forall|i: int| 0 <= i < a.len() ==> ascii_lower(#[trigger] a[i]) == ascii_lower(b[i])
}

/// What `str::to_lowercase` returns for a string; Unicode case mapping is
/// table-driven, so it is named here rather than written out.
pub uninterp spec fn spec_to_lowercase(s: Seq<char>) -> Seq<char>;

/// Whether every character of `s` is ASCII.
pub open spec fn is_ascii_text(s: Seq<char>) -> bool {
    forall|i: int| 0 <= i < s.len() ==> (#[trigger] s[i] as u32) < 128
}

/// `s` with `A`-`Z` mapped to `a`-`z`.
pub open spec fn ascii_lowercase(s: Seq<char>) -> Seq<char> {
    s.map_values(|c: char| ascii_lower(c))
}

/// Calls `str::to_lowercase`; the result is the named Unicode lower-case
/// form, which for ASCII text maps `A`-`Z` to `a`-`z` and keeps every other
/// character (the Unicode lower-case mapping of the ASCII range).
#[verifier::external_body]
pub(crate) fn to_lowercase(s: &str) -> (r: String)
    ensures
        r@ == spec_to_lowercase(s@),
        is_ascii_text(s@) ==> r@ == ascii_lowercase(s@),
{
    s.to_lowercase()
}

/// Calls `String::push`: appends one character.
#[verifier::external_body]
pub(crate) fn push_char(s: &mut String, c: char)
    ensures
        final(s)@ == old(s)@.push(c),
{
    s.push(c)
}

/// Collects the characters of `s`.
pub fn chars_of(s: &str) -> (v: Vec<char>)
    ensures
        v@ == s@,
{
    let mut v: Vec<char> = Vec::new();
    for c in it: s.chars()
        invariant
            v@ == it.seq().take(it.index() as int),
            it.seq() == s@,
    {
        v.push(c);
    }
    v
}

/// The string made of `v[lo..hi]`.
pub fn string_of(v: &Vec<char>, lo: usize, hi: usize) -> (r: String)
    requires
        lo <= hi <= v.len(),
    ensures
        r@ == v@.subrange(lo as int, hi as int),
{
    let mut r = String::new();
    let mut i = lo;
    while i < hi
        invariant
            lo <= i <= hi <= v.len(),
            r@ == v@.subrange(lo as int, i as int),
        decreases hi - i,
    {
        push_char(&mut r, v[i]);
        i = i + 1;
    }
    r
}

/// Whether the characters `a[alo..ahi]` equal `b`.
pub fn slice_eq(a: &Vec<char>, alo: usize, ahi: usize, b: &Vec<char>) -> (r: bool)
    requires
        alo <= ahi <= a.len(),
    ensures
        r == (a@.subrange(alo as int, ahi as int) == b@),
{
    if ahi - alo != b.len() {
        return false;
    }
    let mut i: usize = 0;
    while i < b.len()
        invariant
            alo <= ahi <= a.len(),
            ahi - alo == b.len(),
            i <= b.len(),
            forall|j: int| 0 <= j < i ==> a@[alo + j] == b@[j],
        decreases b.len() - i,
    {
        if a[alo + i] != b[i] {
            assert(a@.subrange(alo as int, ahi as int)[i as int] != b@[i as int]);
            return false;
        }
        i = i + 1;
    }
    assert(a@.subrange(alo as int, ahi as int) =~= b@);
    true
}

/// Whether two strings hold the same characters.
pub fn str_eq(a: &str, b: &str) -> (r: bool)
    ensures
        r == (a@ == b@),
{
    let va = chars_of(a);
    let vb = chars_of(b);
    let r = slice_eq(&va, 0, va.len(), &vb);
    assert(va@.subrange(0, va@.len() as int) =~= va@);
    r
}

/// Whether `s` starts with `p`.
pub fn starts_with(s: &str, p: &str) -> (r: bool)
    ensures
        r == has_prefix(s@, p@),
{
    let vs = chars_of(s);
    let vp = chars_of(p);
    if vp.len() > vs.len() {
        return false;
    }
    slice_eq(&vs, 0, vp.len(), &vp)
}

/// Whether `c` is white space in the sense of `char::is_whitespace`.
pub fn is_whitespace(c: char) -> (r: bool)
    ensures
        r == is_ws(c),
{
    let u = c as u32;
    (0x09 <= u && u <= 0x0d) || u == 0x20 || u == 0x85 || u == 0xa0 || u == 0x1680
        || (0x2000 <= u && u <= 0x200a) || u == 0x2028 || u == 0x2029 || u == 0x202f
        || u == 0x205f || u == 0x3000
}

/// Bounds `[lo, hi)` of `v` once leading and trailing white space is dropped.
pub fn trim_bounds(v: &Vec<char>) -> (r: (usize, usize))
    ensures
        r.0 <= r.1 <= v.len(),
        v@.subrange(r.0 as int, r.1 as int) == trim(v@),
{
    let mut lo: usize = 0;
    assert(v@.subrange(0, v.len() as int) =~= v@);
    while lo < v.len() && is_whitespace(v[lo])
        invariant
            lo <= v.len(),
            trim_start(v@) == trim_start(v@.subrange(lo as int, v.len() as int)),
        decreases v.len() - lo,
    {
        assert(v@.subrange(lo as int, v.len() as int).drop_first() =~= v@.subrange(lo + 1, v.len() as int));
        lo = lo + 1;
    }
    assert(trim_start(v@.subrange(lo as int, v.len() as int)) == v@.subrange(lo as int, v.len() as int));
    let mut hi: usize = v.len();
    while hi > lo && is_whitespace(v[hi - 1])
        invariant
            lo <= hi <= v.len(),
            trim(v@) == trim_end(v@.subrange(lo as int, hi as int)),
        decreases hi - lo,
    {
        assert(v@.subrange(lo as int, hi as int).drop_last() =~= v@.subrange(lo as int, hi - 1));
        hi = hi - 1;
    }
    (lo, hi)
}

/// `s` with leading and trailing white space removed, as `str::trim`.
pub fn trimmed(s: &str) -> (r: String)
    ensures
        r@ == trim(s@),
{
    let v = chars_of(s);
    let (lo, hi) = trim_bounds(&v);
    string_of(&v, lo, hi)
}


/// Index after the leading copies of `p` in `v[lo..]`.
fn skip_prefixes(v: &Vec<char>, p: &Vec<char>) -> (lo: usize)
    ensures
        lo <= v.len(),
        v@.subrange(lo as int, v.len() as int) == strip_prefixes(v@, p@),
{
    let mut lo: usize = 0;
    assert(v@.subrange(0, v.len() as int) =~= v@);
    if p.len() == 0 {
        return 0;
    }
    while p.len() <= v.len() - lo && slice_eq(v, lo, lo + p.len(), p)
        invariant
            p.len() > 0,
            lo <= v.len(),
            strip_prefixes(v@, p@) == strip_prefixes(v@.subrange(lo as int, v.len() as int), p@),
        decreases v.len() - lo,
    {
        let ghost rest = v@.subrange(lo as int, v.len() as int);
        assert(rest.subrange(0, p.len() as int) =~= v@.subrange(lo as int, lo + p.len()));
        assert(rest.subrange(p.len() as int, rest.len() as int) =~= v@.subrange(lo + p.len(), v.len() as int));
        lo = lo + p.len();
    }
    let ghost rest = v@.subrange(lo as int, v.len() as int);
    if p.len() <= v.len() - lo {
        assert(rest.subrange(0, p.len() as int) =~= v@.subrange(lo as int, lo + p.len()));
    }
    lo
}

/// Index before the trailing copies of `p` in `v`.
fn drop_suffixes(v: &Vec<char>, p: &Vec<char>) -> (hi: usize)
    ensures
        hi <= v.len(),
        v@.subrange(0, hi as int) == strip_suffixes(v@, p@),
{
    let mut hi: usize = v.len();
    assert(v@.subrange(0, v.len() as int) =~= v@);
    if p.len() == 0 {
        return hi;
    }
    while p.len() <= hi && slice_eq(v, hi - p.len(), hi, p)
        invariant
            p.len() > 0,
            hi <= v.len(),
            strip_suffixes(v@, p@) == strip_suffixes(v@.subrange(0, hi as int), p@),
        decreases hi,
    {
        let ghost rest = v@.subrange(0, hi as int);
        assert(rest.subrange(rest.len() - p.len(), rest.len() as int) =~= v@.subrange(hi - p.len(), hi as int));
        assert(rest.subrange(0, rest.len() - p.len()) =~= v@.subrange(0, hi - p.len()));
        hi = hi - p.len();
    }
    let ghost rest = v@.subrange(0, hi as int);
    if p.len() <= hi {
        assert(rest.subrange(rest.len() - p.len(), rest.len() as int) =~= v@.subrange(hi - p.len(), hi as int));
    }
    hi
}

/// `s` with every leading copy of `p` removed, as `str::trim_start_matches`.
pub fn trim_start_matches(s: &str, p: &str) -> (r: String)
    ensures
        r@ == strip_prefixes(s@, p@),
{
    let v = chars_of(s);
    let vp = chars_of(p);
    let lo = skip_prefixes(&v, &vp);
    string_of(&v, lo, v.len())
}

/// `s` with every trailing copy of `p` removed, as `str::trim_end_matches`.
pub fn trim_end_matches(s: &str, p: &str) -> (r: String)
    ensures
        r@ == strip_suffixes(s@, p@),
{
    let v = chars_of(s);
    let vp = chars_of(p);
    let hi = drop_suffixes(&v, &vp);
    string_of(&v, 0, hi)
}


/// The decimal digit character for `d < 10`.
pub open spec fn digit_char(d: nat) -> char {
    (('0' as u32) + d) as char
}

/// The decimal representation of `n`, without leading zeros.
pub open spec fn decimal(n: nat) -> Seq<char>
    decreases n,
{
    if n < 10 {
        seq![digit_char(n)]
    } else {
        decimal(n / 10).push(digit_char(n % 10))
    }
}

/// The character of one decimal digit.
fn digit(d: u64) -> (c: char)
    requires
        d < 10,
    ensures
        c == digit_char(d as nat),
{
    match d {
        0 => '0',
        1 => '1',
        2 => '2',
        3 => '3',
        4 => '4',
        5 => '5',
        6 => '6',
        7 => '7',
        8 => '8',
        _ => '9',
    }
}

/// Appends the decimal representation of `n` to `out`.
pub fn push_decimal(out: &mut String, n: u64)
    ensures
        final(out)@ == old(out)@ + decimal(n as nat),
    decreases n,
{
    if n < 10 {
        push_char(out, digit(n));
        assert(decimal(n as nat) == seq![digit_char(n as nat)]);
    } else {
        push_decimal(out, n / 10);
        push_char(out, digit(n % 10));
        assert(decimal(n as nat) == decimal((n / 10) as nat).push(digit_char((n % 10) as nat)));
    }
}

/// The decimal representation of `n`, as `u64::to_string`.
pub fn to_decimal(n: u64) -> (r: String)
    ensures
        r@ == decimal(n as nat),
{
    let mut r = String::new();
    push_decimal(&mut r, n);
    assert(r@ =~= decimal(n as nat));
    r
}

/// Concatenation of two strings.
pub fn concat2(a: &str, b: &str) -> (r: String)
    ensures
        r@ == a@ + b@,
{
    let mut r = String::from_str(a);
    r.append(b);
    r
}

/// Concatenation of three strings.
pub fn concat3(a: &str, b: &str, c: &str) -> (r: String)
    ensures
        r@ == a@ + b@ + c@,
{
    let mut r = String::from_str(a);
    r.append(b);
    r.append(c);
    r
}


/// `trim_start` leaves nothing exactly when every character is white space.
pub proof fn lemma_trim_start_empty(x: Seq<char>)
    ensures
        trim_start(x).len() == 0 <==> forall|k: int| 0 <= k < x.len() ==> is_ws(#[trigger] x[k]),
        trim_start(x).len() > 0 ==> !is_ws(trim_start(x)[0]),
    decreases x.len(),
{
    if x.len() > 0 && is_ws(x[0]) {
        lemma_trim_start_empty(x.drop_first());
        if trim_start(x).len() == 0 {
            assert forall|k: int| 0 <= k < x.len() implies is_ws(#[trigger] x[k]) by {
                if k > 0 {
                    assert(x[k] == x.drop_first()[k - 1]);
                }
            }
        } else {
            assert(!is_ws(x.drop_first()[0]) || !(forall|k: int| 0 <= k < x.len() ==> is_ws(#[trigger] x[k])))
                by {
                if forall|k: int| 0 <= k < x.len() ==> is_ws(#[trigger] x[k]) {
                    assert forall|k: int| 0 <= k < x.drop_first().len() implies is_ws(
                        #[trigger] x.drop_first()[k],
                    ) by {
                        assert(x.drop_first()[k] == x[k + 1]);
                    }
                }
            }
        }
    }
}

/// `trim_end` keeps a string whose first character is not white space
/// non-empty, and empties an all-white-space one.
pub proof fn lemma_trim_end_empty(y: Seq<char>)
    ensures
        y.len() > 0 && !is_ws(y[0]) ==> trim_end(y).len() > 0,
        y.len() == 0 ==> trim_end(y).len() == 0,
    decreases y.len(),
{
    if y.len() > 0 && is_ws(y.last()) {
        lemma_trim_end_empty(y.drop_last());
        if y.len() > 1 {
            assert(y.drop_last()[0] == y[0]);
        }
    }
}

/// A string trims to nothing exactly when all its characters are white space.
pub proof fn lemma_trim_empty_iff_blank(x: Seq<char>)
    ensures
        trim(x).len() == 0 <==> forall|k: int| 0 <= k < x.len() ==> is_ws(#[trigger] x[k]),
{
    lemma_trim_start_empty(x);
    lemma_trim_end_empty(trim_start(x));
}

} // verus!
