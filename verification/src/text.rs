//! Character-level string helpers with exact specifications.

use vstd::prelude::*;
use vstd::string::*;

verus! {

/// `p` is a prefix of `s`.
pub open spec fn is_prefix(p: Seq<char>, s: Seq<char>) -> bool {
    p.len() <= s.len() && s.subrange(0, p.len() as int) == p
}

/// `p` is a suffix of `s`.
pub open spec fn is_suffix(p: Seq<char>, s: Seq<char>) -> bool {
    p.len() <= s.len() && s.subrange(s.len() - p.len(), s.len() as int) == p
}

/// Appends one character to a string (std `String::push`).
#[verifier::external_body]
pub(crate) fn push_char(s: &mut String, c: char)
    ensures
        final(s)@ == old(s)@.push(c),
{
    s.push(c)
}

/// The characters of `s`, in order.
pub fn chars_of(s: &str) -> (v: Vec<char>)
    ensures
        v@ == s@,
{
    let n = s.unicode_len();
    let mut v: Vec<char> = Vec::new();
    let mut i: usize = 0;
    while i < n
        invariant
            0 <= i <= n,
            n == s@.len(),
            v@ == s@.subrange(0, i as int),
        decreases n - i,
    {
        v.push(s.get_char(i));
        i += 1;
    }
    v
}

/// A string holding exactly the characters of `v`.
pub fn string_from_chars(v: &[char]) -> (s: String)
    ensures
        s@ == v@,
{
    let mut s = String::new();
    let mut i: usize = 0;
    while i < v.len()
        invariant
            0 <= i <= v@.len(),
            s@ == v@.subrange(0, i as int),
        decreases v@.len() - i,
    {
        push_char(&mut s, v[i]);
        i += 1;
    }
    s
}

/// Whether `s` starts with `p`.
pub fn str_starts_with(s: &str, p: &str) -> (b: bool)
    ensures
        b == is_prefix(p@, s@),
{
    let n = s.unicode_len();
    let m = p.unicode_len();
    if m > n {
        return false;
    }
    let mut i: usize = 0;
    while i < m
        invariant
            0 <= i <= m <= n,
            n == s@.len(),
            m == p@.len(),
            s@.subrange(0, i as int) == p@.subrange(0, i as int),
        decreases m - i,
    {
        if s.get_char(i) != p.get_char(i) {
            assert(s@.subrange(0, m as int)[i as int] != p@[i as int]);
            return false;
        }
        assert(s@.subrange(0, i + 1) =~= s@.subrange(0, i as int).push(s@[i as int]));
        assert(p@.subrange(0, i + 1) =~= p@.subrange(0, i as int).push(p@[i as int]));
        i += 1;
    }
    assert(p@.subrange(0, m as int) =~= p@);
    true
}

/// Whether two strings hold the same characters.
pub fn str_eq(a: &str, b: &str) -> (r: bool)
    ensures
        r == (a@ == b@),
{
    let sa = String::from_str(a);
    let sb = String::from_str(b);
    sa == sb
}

/// `a` followed by `b`.
pub fn concat(a: &str, b: &str) -> (r: String)
    ensures
        r@ == a@ + b@,
{
    let mut r = String::from_str(a);
    r.append(b);
    r
}

/// An ASCII decimal digit.
pub open spec fn is_digit(c: char) -> bool {
    '0' <= c && c <= '9'
}

/// Length of the longest prefix of `s` made of ASCII digits.
pub open spec fn digit_run(s: Seq<char>) -> nat
    decreases s.len(),
{
    if s.len() > 0 && is_digit(s[0]) {
        1 + digit_run(s.skip(1))
    } else {
        0
    }
}

/// Decimal value of a sequence of ASCII digits.
pub open spec fn digits_value(s: Seq<char>) -> nat
    decreases s.len(),
{
    if s.len() == 0 {
        0
    } else {
        digits_value(s.drop_last()) * 10 + ((s.last() as u32) - ('0' as u32)) as nat
    }
}

/// What `str::parse::<u32>` gives for a string of ASCII digits: its value,
/// when it is non-empty and fits in `u32`.
pub open spec fn parse_u32_digits(s: Seq<char>) -> Option<u32> {
    if s.len() == 0 || digits_value(s) > u32::MAX {
        None
    } else {
        Some(digits_value(s) as u32)
    }
}

/// `s` without its leading `'-'` characters (`trim_start_matches('-')`).
pub open spec fn trim_leading_dashes(s: Seq<char>) -> Seq<char>
    decreases s.len(),
{
    if s.len() > 0 && s[0] == '-' {
        trim_leading_dashes(s.skip(1))
    } else {
        s
    }
}

/// The digit run ends at the first non-digit.
pub proof fn lemma_digit_run(s: Seq<char>)
    ensures
        digit_run(s) <= s.len(),
        forall|i: int| 0 <= i < digit_run(s) ==> is_digit(#[trigger] s[i]),
        digit_run(s) < s.len() ==> !is_digit(s[digit_run(s) as int]),
    decreases s.len(),
{
    if s.len() > 0 && is_digit(s[0]) {
        lemma_digit_run(s.skip(1));
        assert forall|i: int| 0 <= i < digit_run(s) implies is_digit(#[trigger] s[i]) by {
            if i > 0 {
                assert(s[i] == s.skip(1)[i - 1]);
            }
        }
    }
}

/// A run of leading digits is determined by the positions of the digits.
pub proof fn lemma_digit_run_exact(s: Seq<char>, k: int)
    requires
        0 <= k <= s.len(),
        forall|i: int| 0 <= i < k ==> is_digit(#[trigger] s[i]),
        k < s.len() ==> !is_digit(s[k]),
    ensures
        digit_run(s) == k,
    decreases s.len(),
{
    if k > 0 {
        assert forall|i: int| 0 <= i < k - 1 implies is_digit(#[trigger] s.skip(1)[i]) by {
            assert(s.skip(1)[i] == s[i + 1]);
        }
        if k < s.len() {
            assert(s.skip(1)[k - 1] == s[k]);
        }
        lemma_digit_run_exact(s.skip(1), k - 1);
    }
}

/// A longer digit prefix never has a smaller value.
pub proof fn lemma_digits_value_mono(s: Seq<char>, i: int, j: int)
    requires
        0 <= i <= j <= s.len(),
        forall|k: int| 0 <= k < s.len() ==> is_digit(#[trigger] s[k]),
    ensures
        digits_value(s.subrange(0, i)) <= digits_value(s.subrange(0, j)),
    decreases j - i,
{
    if i < j {
        lemma_digits_value_mono(s, i, j - 1);
        assert(s.subrange(0, j).drop_last() =~= s.subrange(0, j - 1));
        assert(is_digit(s[j - 1]));
    }
}

/// Parses a run of ASCII digits as a `u32`; `None` when empty or too large.
pub fn parse_u32(s: &[char]) -> (r: Option<u32>)
    requires
        forall|k: int| 0 <= k < s@.len() ==> is_digit(#[trigger] s@[k]),
    ensures
        r == parse_u32_digits(s@),
{
    if s.len() == 0 {
        return None;
    }
    let mut acc: u32 = 0;
    let mut i: usize = 0;
    while i < s.len()
        invariant
            0 <= i <= s@.len(),
            s@.len() > 0,
            forall|k: int| 0 <= k < s@.len() ==> is_digit(#[trigger] s@[k]),
            acc as nat == digits_value(s@.subrange(0, i as int)),
        decreases s@.len() - i,
    {
        let c = s[i];
        assert(is_digit(s@[i as int]));
        let d: u32 = (c as u32) - ('0' as u32);
        assert(s@.subrange(0, i + 1).drop_last() =~= s@.subrange(0, i as int));
        if acc > (u32::MAX - d) / 10 {
            proof {
                lemma_digits_value_mono(s@, i + 1, s@.len() as int);
                assert(s@.subrange(0, s@.len() as int) =~= s@);
            }
            return None;
        }
        acc = acc * 10 + d;
        i += 1;
    }
    assert(s@.subrange(0, s@.len() as int) =~= s@);
    Some(acc)
}

/// Number of leading ASCII digits of `s[from..]`.
pub fn digit_run_from(s: &[char], from: usize) -> (k: usize)
    requires
        from <= s@.len(),
    ensures
        k == digit_run(s@.skip(from as int)),
        from + k <= s@.len(),
{
    let mut i = from;
    while i < s.len() && '0' <= s[i] && s[i] <= '9'
        invariant
            from <= i <= s@.len(),
            forall|k: int| from <= k < i ==> is_digit(#[trigger] s@[k]),
        decreases s@.len() - i,
    {
        i += 1;
    }
    proof {
        let t = s@.skip(from as int);
        assert forall|k: int| 0 <= k < i - from implies is_digit(#[trigger] t[k]) by {
            assert(t[k] == s@[from + k]);
        }
        if i < s@.len() {
            assert(t[i - from] == s@[i as int]);
        }
        lemma_digit_run_exact(t, i - from);
    }
    i - from
}

/// `s[from..]` with its leading `'-'` characters removed.
pub fn trim_dashes_from(s: &[char], from: usize) -> (r: Vec<char>)
    requires
        from <= s@.len(),
    ensures
        r@ == trim_leading_dashes(s@.skip(from as int)),
{
    let mut i = from;
    while i < s.len() && s[i] == '-'
        invariant
            from <= i <= s@.len(),
            trim_leading_dashes(s@.skip(from as int)) == trim_leading_dashes(s@.skip(i as int)),
        decreases s@.len() - i,
    {
        assert(s@.skip(i as int).skip(1) =~= s@.skip(i + 1));
        i += 1;
    }
    let mut r: Vec<char> = Vec::new();
    let mut j = i;
    while j < s.len()
        invariant
            i <= j <= s@.len(),
            r@ == s@.subrange(i as int, j as int),
        decreases s@.len() - j,
    {
        r.push(s[j]);
        j += 1;
    }
    assert(r@ =~= s@.skip(i as int));
    r
}

/// `s[from..to]` as a vector.
pub fn slice_chars(s: &[char], from: usize, to: usize) -> (r: Vec<char>)
    requires
        from <= to <= s@.len(),
    ensures
        r@ == s@.subrange(from as int, to as int),
{
    let mut r: Vec<char> = Vec::new();
    let mut j = from;
    while j < to
        invariant
            from <= j <= to <= s@.len(),
            r@ == s@.subrange(from as int, j as int),
        decreases to - j,
    {
        r.push(s[j]);
        j += 1;
    }
    r
}

/// Whether `p` is a prefix of `s`, both given as characters.
pub fn chars_start_with(s: &[char], p: &[char]) -> (b: bool)
    ensures
        b == is_prefix(p@, s@),
{
    if p.len() > s.len() {
        return false;
    }
    let mut i: usize = 0;
    while i < p.len()
        invariant
            0 <= i <= p@.len() <= s@.len(),
            s@.subrange(0, i as int) == p@.subrange(0, i as int),
        decreases p@.len() - i,
    {
        if s[i] != p[i] {
            assert(s@.subrange(0, p@.len() as int)[i as int] != p@[i as int]);
            return false;
        }
        assert(s@.subrange(0, i + 1) =~= s@.subrange(0, i as int).push(s@[i as int]));
        assert(p@.subrange(0, i + 1) =~= p@.subrange(0, i as int).push(p@[i as int]));
        i += 1;
    }
    assert(p@.subrange(0, p@.len() as int) =~= p@);
    true
}

/// `s` without one trailing `'/'`.
pub open spec fn without_trailing_slash_spec(s: Seq<char>) -> Seq<char> {
    if s.len() > 0 && s.last() == '/' {
        s.drop_last()
    } else {
        s
    }
}

/// Removes one trailing `'/'` from a URL.
pub fn without_trailing_slash(url: &str) -> (r: String)
    ensures
        r@ == without_trailing_slash_spec(url@),
{
    let c = chars_of(url);
    if c.len() > 0 && c[c.len() - 1] == '/' {
        string_from_chars(&slice_chars(&c, 0, c.len() - 1))
    } else {
        String::from_str(url)
    }
}

/// `a`, `b` and `c` joined.
pub fn concat3(a: &str, b: &str, c: &str) -> (r: String)
    ensures
        r@ == a@ + b@ + c@,
{
    let mut r = String::from_str(a);
    r.append(b);
    r.append(c);
    r
}

/// `p` occurs in `s` at position `i`.
pub open spec fn occurs_at(s: Seq<char>, p: Seq<char>, i: int) -> bool {
    0 <= i && i + p.len() <= s.len() && s.subrange(i, i + p.len()) == p
}

/// `p` occurs somewhere in `s`.
pub open spec fn contains_seq(s: Seq<char>, p: Seq<char>) -> bool {
    exists|i: int| occurs_at(s, p, i)
}

/// Whether `p` occurs in `s` at position `i`.
pub fn chars_occur_at(s: &[char], p: &[char], i: usize) -> (b: bool)
    ensures
        b == occurs_at(s@, p@, i as int),
{
    if i > s.len() || p.len() > s.len() - i {
        return false;
    }
    let mut k: usize = 0;
    while k < p.len()
        invariant
            0 <= k <= p@.len(),
            i <= s.len(),
            p.len() <= s.len() - i,
            forall|j: int| 0 <= j < k ==> s@[i + j] == p@[j],
        decreases p@.len() - k,
    {
        if s[i + k] != p[k] {
            assert(s@.subrange(i as int, i + p@.len())[k as int] != p@[k as int]);
            return false;
        }
        k += 1;
    }
    assert(s@.subrange(i as int, i + p@.len()) =~= p@);
    true
}

/// The first position at or after `from` where `p` occurs in `s`.
pub fn find_from(s: &[char], p: &[char], from: usize) -> (r: Option<usize>)
    ensures
        match r {
            Some(i) => from <= i && occurs_at(s@, p@, i as int) && forall|j: int|
                from <= j < i ==> !#[trigger] occurs_at(s@, p@, j),
            None => forall|j: int| from <= j ==> !#[trigger] occurs_at(s@, p@, j),
        },
{
    if from > s.len() {
        return None;
    }
    let mut i = from;
    loop
        invariant
            from <= i <= s@.len(),
            forall|j: int| from <= j < i ==> !#[trigger] occurs_at(s@, p@, j),
        decreases s@.len() - i,
    {
        if chars_occur_at(s, p, i) {
            return Some(i);
        }
        if i == s.len() {
            return None;
        }
        i += 1;
    }
}

/// Whether `p` occurs in `s`.
pub fn str_contains(s: &str, p: &str) -> (b: bool)
    ensures
        b == contains_seq(s@, p@),
{
    let sc = chars_of(s);
    let pc = chars_of(p);
    match find_from(&sc, &pc, 0) {
        Some(i) => true,
        None => {
            assert forall|j: int| !occurs_at(s@, p@, j) by {
                if 0 <= j {
                    assert(!occurs_at(sc@, pc@, j));
                }
            }
            false
        },
    }
}

/// A decimal digit.
pub open spec fn decimal_digit(d: nat) -> char {
    (48 + d) as char
}

/// The decimal digits of `n`, without leading zeros (`"0"` for zero).
pub open spec fn decimal_digits(n: nat) -> Seq<char>
    decreases n,
{
    if n < 10 {
        seq![decimal_digit(n)]
    } else {
        decimal_digits(n / 10).push(decimal_digit(n % 10))
    }
}

fn decimal_chars(n: u64) -> (r: Vec<char>)
    ensures
        r@ == decimal_digits(n as nat),
    decreases n,
{
    if n < 10 {
        let mut r: Vec<char> = Vec::new();
        r.push(((48u8 + n as u8) as char));
        r
    } else {
        let mut r = decimal_chars(n / 10);
        r.push(((48u8 + (n % 10) as u8) as char));
        r
    }
}

/// The decimal text of `n`.
pub fn u64_to_decimal(n: u64) -> (r: String)
    ensures
        r@ == decimal_digits(n as nat),
{
    let v = decimal_chars(n);
    string_from_chars(&v)
}

/// The Unicode `White_Space` characters (what `char::is_whitespace` accepts).
pub open spec fn is_whitespace_char(c: char) -> bool {
    ('\t' <= c && c <= '\r') || c == ' ' || c == '\u{85}' || c == '\u{a0}' || c == '\u{1680}' || (
    '\u{2000}' <= c && c <= '\u{200a}') || c == '\u{2028}' || c == '\u{2029}' || c == '\u{202f}'
        || c == '\u{205f}' || c == '\u{3000}'
}

/// Whether a character is white space.
pub fn is_whitespace(c: char) -> (b: bool)
    ensures
        b == is_whitespace_char(c),
{
    ('\t' <= c && c <= '\r') || c == ' ' || c == '\u{85}' || c == '\u{a0}' || c == '\u{1680}' || (
    '\u{2000}' <= c && c <= '\u{200a}') || c == '\u{2028}' || c == '\u{2029}' || c == '\u{202f}'
        || c == '\u{205f}' || c == '\u{3000}'
}

/// Nothing but white space (what is left after `trim` is empty).
pub open spec fn is_blank_spec(s: Seq<char>) -> bool {
    forall|i: int| 0 <= i < s.len() ==> is_whitespace_char(#[trigger] s[i])
}

/// Whether a string holds nothing but white space.
pub fn is_blank(s: &str) -> (b: bool)
    ensures
        b == is_blank_spec(s@),
{
    let n = s.unicode_len();
    let mut i: usize = 0;
    while i < n
        invariant
            0 <= i <= n,
            n == s@.len(),
            forall|j: int| 0 <= j < i ==> is_whitespace_char(#[trigger] s@[j]),
        decreases n - i,
    {
        if !is_whitespace(s.get_char(i)) {
            return false;
        }
        i += 1;
    }
    true
}

/// `c` occurs in `s`.
pub open spec fn has_char(s: Seq<char>, c: char) -> bool {
    exists|i: int| 0 <= i < s.len() && s[i] == c
}

/// Whether `c` occurs in `s`.
pub fn str_has_char(s: &str, c: char) -> (b: bool)
    ensures
        b == has_char(s@, c),
{
    let n = s.unicode_len();
    let mut i: usize = 0;
    while i < n
        invariant
            0 <= i <= n,
            n == s@.len(),
            forall|j: int| 0 <= j < i ==> s@[j] != c,
        decreases n - i,
    {
        if s.get_char(i) == c {
            return true;
        }
        i += 1;
    }
    false
}

/// `s` without its first `n` characters.
pub fn str_skip(s: &str, n: usize) -> (r: String)
    requires
        n <= s@.len(),
    ensures
        r@ == s@.skip(n as int),
{
    let c = chars_of(s);
    let v = slice_chars(&c, n, c.len());
    string_from_chars(&v)
}

/// What `format!("{:?}", s)` gives for a string: the text in double quotes,
/// with quotes, backslashes and non-printable characters escaped.
pub uninterp spec fn debug_quoted(s: Seq<char>) -> Seq<char>;

/// The `Debug` text of a string (std `impl Debug for str`).
#[verifier::external_body]
pub(crate) fn debug_str(s: &str) -> (r: String)
    ensures
        r@ == debug_quoted(s@),
{
    format!("{:?}", s)
}

/// `s` without leading white space.
pub open spec fn trim_start_spec(s: Seq<char>) -> Seq<char>
    decreases s.len(),
{
    if s.len() > 0 && is_whitespace_char(s[0]) {
        trim_start_spec(s.skip(1))
    } else {
        s
    }
}

/// `s` without trailing white space.
pub open spec fn trim_end_spec(s: Seq<char>) -> Seq<char>
    decreases s.len(),
{
    if s.len() > 0 && is_whitespace_char(s.last()) {
        trim_end_spec(s.drop_last())
    } else {
        s
    }
}

/// `s` without leading and trailing white space (`str::trim`).
pub open spec fn trim_spec(s: Seq<char>) -> Seq<char> {
    trim_end_spec(trim_start_spec(s))
}

/// `s` without leading and trailing white space.
pub fn str_trim(s: &str) -> (r: String)
    ensures
        r@ == trim_spec(s@),
{
    let c = chars_of(s);
    let mut i: usize = 0;
    assert(c@.skip(0) =~= c@);
    while i < c.len() && is_whitespace(c[i])
        invariant
            0 <= i <= c@.len(),
            c@ == s@,
            trim_start_spec(s@) == trim_start_spec(c@.skip(i as int)),
        decreases c@.len() - i,
    {
        assert(c@.skip(i as int).skip(1) =~= c@.skip(i + 1));
        i += 1;
    }
    let ghost start = c@.skip(i as int);
    assert(trim_start_spec(start) == start);
    let mut j: usize = c.len();
    assert(start =~= c@.subrange(i as int, j as int));
    while j > i && is_whitespace(c[j - 1])
        invariant
            i <= j <= c@.len(),
            c@ == s@,
            start == c@.skip(i as int),
            trim_end_spec(start) == trim_end_spec(c@.subrange(i as int, j as int)),
        decreases j,
    {
        assert(c@.subrange(i as int, j as int).drop_last() =~= c@.subrange(i as int, j - 1));
        j -= 1;
    }
    let v = slice_chars(&c, i, j);
    proof {
        let t = c@.subrange(i as int, j as int);
        if t.len() > 0 {
            assert(t.last() == c@[j - 1]);
        }
        assert(trim_end_spec(t) == t);
    }
    string_from_chars(&v)
}

/// What `str::parse::<u64>` gives for a string of ASCII digits.
pub open spec fn parse_u64_digits(s: Seq<char>) -> Option<u64> {
    if s.len() == 0 || digits_value(s) > u64::MAX {
        None
    } else {
        Some(digits_value(s) as u64)
    }
}

/// All characters are ASCII digits.
pub open spec fn all_digits(s: Seq<char>) -> bool {
    forall|k: int| 0 <= k < s.len() ==> is_digit(#[trigger] s[k])
}

/// Parses a run of ASCII digits as a `u64`; `None` when empty or too large.
pub fn parse_u64(s: &[char]) -> (r: Option<u64>)
    requires
        all_digits(s@),
    ensures
        r == parse_u64_digits(s@),
{
    if s.len() == 0 {
        return None;
    }
    let mut acc: u64 = 0;
    let mut i: usize = 0;
    while i < s.len()
        invariant
            0 <= i <= s@.len(),
            s@.len() > 0,
            forall|k: int| 0 <= k < s@.len() ==> is_digit(#[trigger] s@[k]),
            acc as nat == digits_value(s@.subrange(0, i as int)),
        decreases s@.len() - i,
    {
        let c = s[i];
        assert(is_digit(s@[i as int]));
        let d: u64 = ((c as u32) - ('0' as u32)) as u64;
        assert(s@.subrange(0, i + 1).drop_last() =~= s@.subrange(0, i as int));
        if acc > (u64::MAX - d) / 10 {
            proof {
                lemma_digits_value_mono(s@, i + 1, s@.len() as int);
                assert(s@.subrange(0, s@.len() as int) =~= s@);
            }
            return None;
        }
        acc = acc * 10 + d;
        i += 1;
    }
    assert(s@.subrange(0, s@.len() as int) =~= s@);
    Some(acc)
}

/// Whether every character is an ASCII digit.
pub fn chars_all_digits(s: &[char]) -> (b: bool)
    ensures
        b == all_digits(s@),
{
    let mut i: usize = 0;
    while i < s.len()
        invariant
            0 <= i <= s@.len(),
            forall|k: int| 0 <= k < i ==> is_digit(#[trigger] s@[k]),
        decreases s@.len() - i,
    {
        if !('0' <= s[i] && s[i] <= '9') {
            assert(!is_digit(s@[i as int]));
            return false;
        }
        i += 1;
    }
    true
}

/// The ASCII lower-case form of a character.
pub open spec fn ascii_lower_char(c: char) -> char {
    if 'A' <= c && c <= 'Z' {
        ((c as u32) + 32) as char
    } else {
        c
    }
}

/// `s` with ASCII letters in lower case (`to_ascii_lowercase`).
pub open spec fn ascii_lower_spec(s: Seq<char>) -> Seq<char> {
    Seq::new(s.len(), |i: int| ascii_lower_char(s[i]))
}

fn lower_char(c: char) -> (r: char)
    ensures
        r == ascii_lower_char(c),
{
    if 'A' <= c && c <= 'Z' {
        ((c as u8) + 32) as char
    } else {
        c
    }
}

/// `s` with ASCII letters in lower case.
pub fn ascii_lower(s: &str) -> (r: String)
    ensures
        r@ == ascii_lower_spec(s@),
{
    let c = chars_of(s);
    let mut v: Vec<char> = Vec::new();
    let mut i: usize = 0;
    while i < c.len()
        invariant
            0 <= i <= c@.len(),
            c@ == s@,
            v@ == ascii_lower_spec(s@).subrange(0, i as int),
        decreases c@.len() - i,
    {
        v.push(lower_char(c[i]));
        assert(v@ =~= ascii_lower_spec(s@).subrange(0, i + 1));
        i += 1;
    }
    assert(v@ =~= ascii_lower_spec(s@));
    string_from_chars(&v)
}

} // verus!
