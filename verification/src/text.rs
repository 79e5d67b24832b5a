//! Character-level text helpers shared by the request handlers.
//!
//! Strings are reasoned about through their character sequences (`s@`).
//! Every helper states its result over those sequences.
use vstd::prelude::*;

verus! {

// -- Specifications -----------------------------------------------------------

/// Whether a character has the Unicode `White_Space` property, which
/// `char::is_whitespace` reports: the controls U+0009 to U+000D, space,
/// U+0085, no-break space, U+1680, U+2000 to U+200A, the line and paragraph
/// separators, U+202F, U+205F and U+3000.
pub open spec fn is_ws(c: char) -> bool {
    let u = c as u32;
    ||| 0x09 <= u <= 0x0d
    ||| u == 0x20
    ||| u == 0x85
    ||| u == 0xa0
    ||| u == 0x1680
    ||| 0x2000 <= u <= 0x200a
    ||| u == 0x2028
    ||| u == 0x2029
    ||| u == 0x202f
    ||| u == 0x205f
    ||| u == 0x3000
}

/// `p` is a prefix of `s`.
pub open spec fn has_prefix(s: Seq<char>, p: Seq<char>) -> bool {
    p.len() <= s.len() && s.subrange(0, p.len() as int) == p
}

/// `s` contains the character `c`.
pub open spec fn has_char(s: Seq<char>, c: char) -> bool {
    exists|i: int| 0 <= i < s.len() && s[i] == c
}

/// `needle` occurs in `s` starting at position `i`.
pub open spec fn occurs_at(s: Seq<char>, needle: Seq<char>, i: int) -> bool {
    0 <= i && i + needle.len() <= s.len() && s.subrange(i, i + needle.len()) == needle
}

/// `needle` occurs somewhere in `s`.
pub open spec fn has_substr(s: Seq<char>, needle: Seq<char>) -> bool {
    exists|i: int| occurs_at(s, needle, i)
}

/// `s` without its leading whitespace.
pub open spec fn trim_start_spec(s: Seq<char>) -> Seq<char>
    decreases s.len(),
{
    if s.len() > 0 && is_ws(s[0]) {
        trim_start_spec(s.drop_first())
    } else {
        s
    }
}

/// `s` without its trailing whitespace.
pub open spec fn trim_end_spec(s: Seq<char>) -> Seq<char>
    decreases s.len(),
{
    if s.len() > 0 && is_ws(s.last()) {
        trim_end_spec(s.drop_last())
    } else {
        s
    }
}

/// `s` without leading and trailing whitespace.
pub open spec fn trim_spec(s: Seq<char>) -> Seq<char> {
    trim_end_spec(trim_start_spec(s))
}

/// ASCII lower-casing of one character; other characters are unchanged.
pub open spec fn ascii_lower(c: char) -> char {
    if 'A' <= c && c <= 'Z' {
        ((c as u32) + 32) as char
    } else {
        c
    }
}

/// ASCII upper-casing of one character; other characters are unchanged.
pub open spec fn ascii_upper(c: char) -> char {
    if 'a' <= c && c <= 'z' {
        ((c as u32) - 32) as char
    } else {
        c
    }
}

/// Whether every character of a text is ASCII.
pub open spec fn all_ascii(s: Seq<char>) -> bool {
    forall|i: int| 0 <= i < s.len() ==> (#[trigger] s[i] as u32) < 128
}

/// Two character sequences are equal up to ASCII case.
pub open spec fn eq_ignore_ascii_case_spec(a: Seq<char>, b: Seq<char>) -> bool {
    a.len() == b.len() && forall|i: int| 0 <= i < a.len() ==> ascii_lower(a[i]) == ascii_lower(b[i])
}

/// The first `n` characters of `s` (all of `s` when it is shorter).
pub open spec fn take_chars_spec(s: Seq<char>, n: nat) -> Seq<char> {
    if s.len() <= n {
        s
    } else {
        s.take(n as int)
    }
}

/// Length of the first segment of `s` before the delimiter `d` (all of `s`
/// when `d` does not occur).
pub open spec fn seg_len(s: Seq<char>, d: char) -> nat
    decreases s.len(),
{
    if s.len() == 0 {
        0
    } else if s[0] == d {
        0
    } else {
        1 + seg_len(s.drop_first(), d)
    }
}

/// The first segment of `s` before the delimiter `d`, as
/// `s.split(d).next()` yields it.
pub open spec fn first_seg(s: Seq<char>, d: char) -> Seq<char> {
    s.take(seg_len(s, d) as int)
}

/// What `seg_len` computes: no delimiter before it, the delimiter at it.
pub proof fn lemma_seg_len(s: Seq<char>, d: char)
    ensures
        seg_len(s, d) <= s.len(),
        forall|j: int| 0 <= j < seg_len(s, d) ==> s[j] != d,
        seg_len(s, d) < s.len() ==> s[seg_len(s, d) as int] == d,
    decreases s.len(),
{
    if s.len() > 0 && s[0] != d {
        lemma_seg_len(s.drop_first(), d);
        assert forall|j: int| 0 <= j < seg_len(s, d) implies s[j] != d by {
            if j > 0 {
                assert(s[j] == s.drop_first()[j - 1]);
            }
        }
    }
}

/// A delimiter-free prefix followed by the delimiter (or the end) fixes the
/// segment length.
pub proof fn lemma_seg_len_at(s: Seq<char>, d: char, k: int)
    requires
        0 <= k <= s.len(),
        forall|j: int| 0 <= j < k ==> s[j] != d,
        k < s.len() ==> s[k] == d,
    ensures
        seg_len(s, d) == k,
    decreases k,
{
    if k > 0 {
        lemma_seg_len_at(s.drop_first(), d, k - 1);
    }
}

// -- Characters ------------------------------------------------------------------

/// Whether a character is whitespace, as `char::is_whitespace` answers.
pub(crate) fn char_is_whitespace(c: char) -> (b: bool)
    ensures
        b == is_ws(c),
{
    let u = c as u32;
    (0x09 <= u && u <= 0x0d) || u == 0x20 || u == 0x85 || u == 0xa0 || u == 0x1680 || (0x2000 <= u
        && u <= 0x200a) || u == 0x2028 || u == 0x2029 || u == 0x202f || u == 0x205f || u == 0x3000
}

/// Calls `String::push`: appends one character.
#[verifier::external_body]
pub(crate) fn push_char(s: &mut String, c: char)
    ensures
        final(s)@ == old(s)@.push(c),
{
    s.push(c);
}

// -- Conversions --------------------------------------------------------------

/// Collects the characters of a string slice, in order.
pub fn chars_of(s: &str) -> (out: Vec<char>)
    ensures
        out@ == s@,
{
    let mut out: Vec<char> = Vec::new();
    for c in it: s.chars()
        invariant
            out@ == it.seq().take(it.index() as int),
            it.seq() == s@,
    {
        out.push(c);
    }
    out
}

/// Builds a `String` from a character sequence.
pub fn string_from_chars(v: &[char]) -> (out: String)
    ensures
        out@ == v@,
{
    let mut out = String::new();
    let mut i: usize = 0;
    while i < v.len()
        invariant
            i <= v.len(),
            out@ == v@.take(i as int),
        decreases v.len() - i,
    {
        push_char(&mut out, v[i]);
        assert(v@.take(i as int).push(v@[i as int]) == v@.take(i + 1));
        i = i + 1;
    }
    assert(v@.take(v.len() as int) == v@);
    out
}

/// Copies a string slice into an owned `String`.
pub fn to_owned_string(s: &str) -> (out: String)
    ensures
        out@ == s@,
{
    s.to_owned()
}

// -- Comparisons --------------------------------------------------------------

/// Character-sequence equality of two slices.
pub fn seq_eq(a: &[char], b: &[char]) -> (r: bool)
    ensures
        r == (a@ == b@),
{
    if a.len() != b.len() {
        return false;
    }
    let mut i: usize = 0;
    while i < a.len()
        invariant
            a.len() == b.len(),
            i <= a.len(),
            forall|j: int| 0 <= j < i ==> a@[j] == b@[j],
        decreases a.len() - i,
    {
        if a[i] != b[i] {
            return false;
        }
        i = i + 1;
    }
    assert(a@ =~= b@);
    true
}

/// String equality by characters.
pub fn str_eq(a: &str, b: &str) -> (r: bool)
    ensures
        r == (a@ == b@),
{
    let av = chars_of(a);
    let bv = chars_of(b);
    seq_eq(av.as_slice(), bv.as_slice())
}

/// Whether `p` is a prefix of `s`.
pub fn starts_with_chars(s: &[char], p: &[char]) -> (r: bool)
    ensures
        r == has_prefix(s@, p@),
{
    if p.len() > s.len() {
        return false;
    }
    let mut i: usize = 0;
    while i < p.len()
        invariant
            p.len() <= s.len(),
            i <= p.len(),
            forall|j: int| 0 <= j < i ==> s@[j] == p@[j],
        decreases p.len() - i,
    {
        if s[i] != p[i] {
            assert(s@.subrange(0, p.len() as int)[i as int] != p@[i as int]);
            return false;
        }
        i = i + 1;
    }
    assert(s@.subrange(0, p.len() as int) =~= p@);
    true
}

/// Whether `needle` occurs in `s` at position `at`.
pub fn occurs_at_exec(s: &[char], needle: &[char], at: usize) -> (r: bool)
    ensures
        r == occurs_at(s@, needle@, at as int),
{
    if at > s.len() || needle.len() > s.len() - at {
        return false;
    }
    let mut i: usize = 0;
    while i < needle.len()
        invariant
            at + needle.len() <= s.len(),
            i <= needle.len(),
            forall|j: int| 0 <= j < i ==> s@[at + j] == needle@[j],
        decreases needle.len() - i,
    {
        if s[at + i] != needle[i] {
            assert(s@.subrange(at as int, at + needle.len())[i as int] != needle@[i as int]);
            return false;
        }
        i = i + 1;
    }
    assert(s@.subrange(at as int, at + needle.len()) =~= needle@);
    true
}

/// Whether `needle` occurs anywhere in `s`.
pub fn contains_chars(s: &[char], needle: &[char]) -> (r: bool)
    ensures
        r == has_substr(s@, needle@),
{
    let mut i: usize = 0;
    while i < s.len()
        invariant
            i <= s.len(),
            forall|j: int| 0 <= j < i ==> !occurs_at(s@, needle@, j),
        decreases s.len() - i,
    {
        if occurs_at_exec(s, needle, i) {
            return true;
        }
        i = i + 1;
    }
    if occurs_at_exec(s, needle, s.len()) {
        return true;
    }
    assert forall|j: int| !occurs_at(s@, needle@, j) by {
        if 0 <= j && j < s.len() {
        } else if j > s.len() {
        }
    }
    false
}

/// Whether `needle` occurs anywhere in the string `s`.
pub fn str_contains(s: &str, needle: &str) -> (r: bool)
    ensures
        r == has_substr(s@, needle@),
{
    let sv = chars_of(s);
    let nv = chars_of(needle);
    contains_chars(sv.as_slice(), nv.as_slice())
}

/// Whether the character `c` occurs in `s`.
pub fn contains_char(s: &[char], c: char) -> (r: bool)
    ensures
        r == has_char(s@, c),
{
    let mut i: usize = 0;
    while i < s.len()
        invariant
            i <= s.len(),
            forall|j: int| 0 <= j < i ==> s@[j] != c,
        decreases s.len() - i,
    {
        if s[i] == c {
            return true;
        }
        i = i + 1;
    }
    false
}

/// ASCII lower-casing of one character.
pub fn ascii_lower_char(c: char) -> (r: char)
    ensures
        r == ascii_lower(c),
{
    if 'A' <= c && c <= 'Z' {
        let code: u32 = c as u32;
        let lowered: u8 = (code + 32) as u8;
        lowered as char
    } else {
        c
    }
}

/// Equality up to ASCII case, as `str::eq_ignore_ascii_case` defines it.
pub fn eq_ignore_ascii_case(a: &[char], b: &[char]) -> (r: bool)
    ensures
        r == eq_ignore_ascii_case_spec(a@, b@),
{
    if a.len() != b.len() {
        return false;
    }
    let mut i: usize = 0;
    while i < a.len()
        invariant
            a.len() == b.len(),
            i <= a.len(),
            forall|j: int| 0 <= j < i ==> ascii_lower(a@[j]) == ascii_lower(b@[j]),
        decreases a.len() - i,
    {
        if ascii_lower_char(a[i]) != ascii_lower_char(b[i]) {
            return false;
        }
        i = i + 1;
    }
    true
}

// -- Trimming -----------------------------------------------------------------

proof fn lemma_trim_start_skip(s: Seq<char>, i: int)
    requires
        0 <= i <= s.len(),
        forall|j: int| 0 <= j < i ==> is_ws(s[j]),
    ensures
        trim_start_spec(s) == trim_start_spec(s.skip(i)),
    decreases i,
{
    if i > 0 {
        assert(s.skip(1) == s.drop_first());
        lemma_trim_start_skip(s.drop_first(), i - 1);
        assert(s.drop_first().skip(i - 1) == s.skip(i));
    } else {
        assert(s.skip(0) == s);
    }
}

proof fn lemma_trim_end_take(s: Seq<char>, k: int)
    requires
        0 <= k <= s.len(),
        forall|j: int| k <= j < s.len() ==> is_ws(s[j]),
    ensures
        trim_end_spec(s) == trim_end_spec(s.take(k)),
    decreases s.len() - k,
{
    if k < s.len() {
        assert(s.drop_last() == s.take(s.len() - 1));
        lemma_trim_end_take(s.drop_last(), k);
        assert(s.drop_last().take(k) == s.take(k));
    } else {
        assert(s.take(k) == s);
    }
}

/// Start of what remains of `v[a..b]` after trimming leading whitespace.
pub fn trim_start_range(v: &[char], a: usize, b: usize) -> (x: usize)
    requires
        a <= b <= v.len(),
    ensures
        a <= x <= b,
        v@.subrange(x as int, b as int) == trim_start_spec(v@.subrange(a as int, b as int)),
{
    let mut i: usize = a;
    while i < b
        invariant
            a <= i <= b <= v.len(),
            forall|j: int| a <= j < i ==> is_ws(v@[j]),
        ensures
            a <= i <= b,
            forall|j: int| a <= j < i ==> is_ws(v@[j]),
            i == b || !is_ws(v@[i as int]),
        decreases b - i,
    {
        if !char_is_whitespace(v[i]) {
            break;
        }
        i = i + 1;
    }
    proof {
        let sub = v@.subrange(a as int, b as int);
        lemma_trim_start_skip(sub, (i - a) as int);
        let rest = sub.skip((i - a) as int);
        assert(rest =~= v@.subrange(i as int, b as int));
        if rest.len() > 0 {
            assert(rest[0] == v@[i as int]);
        }
        assert(trim_start_spec(rest) == rest);
    }
    i
}

/// Range of what remains of `v[a..b]` after trimming whitespace on both ends.
pub fn trim_range(v: &[char], a: usize, b: usize) -> (r: (usize, usize))
    requires
        a <= b <= v.len(),
    ensures
        a <= r.0 <= r.1 <= b,
        v@.subrange(r.0 as int, r.1 as int) == trim_spec(v@.subrange(a as int, b as int)),
{
    let i = trim_start_range(v, a, b);
    let ghost rest = v@.subrange(i as int, b as int);
    let mut k: usize = b;
    while k > i
        invariant
            i <= k <= b <= v.len(),
            forall|j: int| k <= j < b ==> is_ws(v@[j]),
        ensures
            i <= k <= b,
            forall|j: int| k <= j < b ==> is_ws(v@[j]),
            k == i || !is_ws(v@[k - 1]),
        decreases k,
    {
        if !char_is_whitespace(v[k - 1]) {
            break;
        }
        k = k - 1;
    }
    proof {
        let kk = (k - i) as int;
        assert forall|j: int| kk <= j < rest.len() implies is_ws(rest[j]) by {
            assert(rest[j] == v@[j + i]);
        }
        lemma_trim_end_take(rest, kk);
        let t = rest.take(kk);
        if t.len() > 0 {
            assert(t.last() == v@[k - 1]);
        }
        assert(trim_end_spec(t) == t);
        assert(t =~= v@.subrange(i as int, k as int));
    }
    (i, k)
}

/// Trims leading and trailing whitespace, as `str::trim` does.
pub fn trim_str(s: &str) -> (out: &str)
    ensures
        out@ == trim_spec(s@),
{
    let v = chars_of(s);
    let (a, b) = trim_range(v.as_slice(), 0, v.len());
    assert(v@.subrange(0, v.len() as int) == v@);
    s.substring_char(a, b)
}

/// Length of the first segment of `v` before the delimiter `d`.
pub fn seg_len_exec(v: &[char], from: usize, d: char) -> (k: usize)
    requires
        from <= v.len(),
    ensures
        from <= k <= v.len(),
        k - from == seg_len(v@.skip(from as int), d),
{
    let mut k: usize = from;
    while k < v.len()
        invariant
            from <= k <= v.len(),
            forall|j: int| from <= j < k ==> v@[j] != d,
        ensures
            from <= k <= v.len(),
            forall|j: int| from <= j < k ==> v@[j] != d,
            k == v.len() || v@[k as int] == d,
        decreases v.len() - k,
    {
        if v[k] == d {
            break;
        }
        k = k + 1;
    }
    proof {
        let rest = v@.skip(from as int);
        lemma_seg_len_at(rest, d, (k - from) as int);
    }
    k
}

/// The first `n` characters of `s`, as `s.chars().take(n).collect()` gives.
pub fn take_chars(s: &str, n: usize) -> (out: String)
    ensures
        out@ == take_chars_spec(s@, n as nat),
{
    let v = chars_of(s);
    if v.len() <= n {
        string_from_chars(v.as_slice())
    } else {
        let mut w: Vec<char> = Vec::new();
        let mut i: usize = 0;
        while i < n
            invariant
                i <= n < v.len(),
                w@ == v@.take(i as int),
            decreases n - i,
        {
            w.push(v[i]);
            assert(v@.take(i as int).push(v@[i as int]) == v@.take(i + 1));
            i = i + 1;
        }
        string_from_chars(w.as_slice())
    }
}

} // verus!
