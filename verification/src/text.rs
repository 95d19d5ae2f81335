//! Character and string helpers shared by the rest of the library: the
//! decimal and hexadecimal forms of numbers, trimming, splitting, searching
//! and parsing, each stated over sequences of characters.
use vstd::prelude::*;

verus! {

// ───────────────────────────── std's character classes ─────────────────────

/// Whether `c` has Unicode's `White_Space` property, which is what
/// `char::is_whitespace` answers: the 25 code points U+0009–U+000D, U+0020,
/// U+0085, U+00A0, U+1680, U+2000–U+200A, U+2028, U+2029, U+202F, U+205F and
/// U+3000.
pub open spec fn unicode_whitespace(c: char) -> bool {
    ||| '\u{9}' <= c <= '\u{d}'
    ||| c == ' '
    ||| c == '\u{85}'
    ||| c == '\u{a0}'
    ||| c == '\u{1680}'
    ||| '\u{2000}' <= c <= '\u{200a}'
    ||| c == '\u{2028}'
    ||| c == '\u{2029}'
    ||| c == '\u{202f}'
    ||| c == '\u{205f}'
    ||| c == '\u{3000}'
}

/// An ASCII letter or digit.
pub open spec fn ascii_alphanumeric(c: char) -> bool {
    ||| '0' <= c <= '9'
    ||| 'a' <= c <= 'z'
    ||| 'A' <= c <= 'Z'
}

/// Whether `c` is Unicode `Alphabetic` or `Numeric`, which is what
/// `char::is_alphanumeric` answers.
pub uninterp spec fn unicode_alphanumeric(c: char) -> bool;

/// Calls `char::is_whitespace`, which answers whether `c` has the
/// `White_Space` property (`unicode_whitespace`).
#[verifier::external_body]
pub(crate) fn is_whitespace(c: char) -> (b: bool)
    ensures
        b == unicode_whitespace(c),
{
    c.is_whitespace()
}

/// Calls `char::is_alphanumeric`. The answer is the one that
/// `unicode_alphanumeric` names; on ASCII it is an ASCII letter or digit. The
/// Unicode tables for the other characters are not stated.
#[verifier::external_body]
pub(crate) fn is_alphanumeric(c: char) -> (b: bool)
    ensures
        b == unicode_alphanumeric(c),
        c <= '\u{7f}' ==> (b <==> ascii_alphanumeric(c)),
{
    c.is_alphanumeric()
}

/// Calls `str::chars` and collects the characters, in order.
#[verifier::external_body]
pub(crate) fn chars_of(s: &str) -> (v: Vec<char>)
    ensures
        v@ == s@,
{
    s.chars().collect()
}

/// Collects characters into a `String`, in order.
#[verifier::external_body]
pub(crate) fn string_of(v: &[char]) -> (s: String)
    ensures
        s@ == v@,
{
    v.iter().collect()
}

// ───────────────────────────── numbers ─────────────────────────────────────

pub open spec fn is_digit(c: char) -> bool {
    '0' <= c <= '9'
}

pub open spec fn digit_char(d: nat) -> char {
    if d == 0 { '0' } else if d == 1 { '1' } else if d == 2 { '2' } else if d == 3 { '3' }
    else if d == 4 { '4' } else if d == 5 { '5' } else if d == 6 { '6' } else if d == 7 { '7' }
    else if d == 8 { '8' } else { '9' }
}

pub open spec fn hex_char(d: nat) -> char {
    if d < 10 { digit_char(d) } else if d == 10 { 'A' } else if d == 11 { 'B' } else if d == 12 { 'C' }
    else if d == 13 { 'D' } else if d == 14 { 'E' } else { 'F' }
}

/// The decimal digits of `n`, most significant first, without leading zeros
/// ("0" for zero): what `format!("{}", n)` writes.
pub open spec fn decimal(n: nat) -> Seq<char>
    decreases n,
{
    if n < 10 {
        seq![digit_char(n)]
    } else {
        decimal(n / 10).push(digit_char(n % 10))
    }
}

/// The upper-case hexadecimal digits of `n`, without leading zeros.
pub open spec fn hex_digits(n: nat) -> Seq<char>
    decreases n,
{
    if n < 16 {
        seq![hex_char(n)]
    } else {
        hex_digits(n / 16).push(hex_char(n % 16))
    }
}

/// What `format!("{:02X}", n)` writes: upper-case hexadecimal, padded with a
/// zero to at least two digits.
pub open spec fn hex2(n: nat) -> Seq<char> {
    if n < 16 { seq!['0', hex_char(n)] } else { hex_digits(n) }
}

/// The value of a non-empty run of decimal digits.
pub open spec fn digits_value(s: Seq<char>) -> nat
    decreases s.len(),
{
    if s.len() == 0 {
        0
    } else {
        digits_value(s.drop_last()) * 10 + (s.last() as nat - '0' as nat) as nat
    }
}

pub open spec fn all_digits(s: Seq<char>) -> bool {
    forall|i: int| 0 <= i < s.len() ==> is_digit(#[trigger] s[i])
}

/// What `str::parse::<u32>` accepts: an optional `+`, then one or more decimal
/// digits whose value fits in a `u32`.
pub open spec fn parse_u32_spec(s: Seq<char>) -> Option<u32> {
    let body = if s.len() > 0 && s[0] == '+' { s.drop_first() } else { s };
    if body.len() > 0 && all_digits(body) && digits_value(body) <= u32::MAX {
        Some(digits_value(body) as u32)
    } else {
        None
    }
}

fn digit(d: u64) -> (c: char)
    requires
        d < 10,
    ensures
        c == digit_char(d as nat),
{
    if d == 0 { '0' } else if d == 1 { '1' } else if d == 2 { '2' } else if d == 3 { '3' }
    else if d == 4 { '4' } else if d == 5 { '5' } else if d == 6 { '6' } else if d == 7 { '7' }
    else if d == 8 { '8' } else { '9' }
}

fn hex_digit(d: u32) -> (c: char)
    requires
        d < 16,
    ensures
        c == hex_char(d as nat),
{
    if d < 10 { digit(d as u64) } else if d == 10 { 'A' } else if d == 11 { 'B' } else if d == 12 { 'C' }
    else if d == 13 { 'D' } else if d == 14 { 'E' } else { 'F' }
}

/// Appends the decimal form of `n` to `out`.
pub fn push_decimal(out: &mut Vec<char>, n: u128)
    ensures
        final(out)@ == old(out)@ + decimal(n as nat),
    decreases n,
{
    if n < 10 {
        out.push(digit(n as u64));
        assert(decimal(n as nat) == seq![digit_char(n as nat)]);
    } else {
        push_decimal(out, n / 10);
        out.push(digit((n % 10) as u64));
        assert(decimal(n as nat) == decimal((n / 10) as nat).push(digit_char((n % 10) as nat)));
    }
}

/// Appends `format!("{:02X}", n)` to `out`.
pub fn push_hex2(out: &mut Vec<char>, n: u32)
    ensures
        final(out)@ == old(out)@ + hex2(n as nat),
{
    if n < 16 {
        out.push('0');
        out.push(hex_digit(n));
    } else {
        push_hex_digits(out, n);
    }
}

fn push_hex_digits(out: &mut Vec<char>, n: u32)
    ensures
        final(out)@ == old(out)@ + hex_digits(n as nat),
    decreases n,
{
    if n < 16 {
        out.push(hex_digit(n));
    } else {
        push_hex_digits(out, n / 16);
        out.push(hex_digit(n % 16));
        assert(hex_digits(n as nat) == hex_digits((n / 16) as nat).push(hex_char((n % 16) as nat)));
    }
}

/// The decimal form of `n` as a `String`.
pub fn decimal_string(n: u64) -> (s: String)
    ensures
        s@ == decimal(n as nat),
{
    let mut v: Vec<char> = Vec::new();
    push_decimal(&mut v, n as u128);
    assert(v@ =~= decimal(n as nat));
    string_of(v.as_slice())
}


/// Parses a `u32` the way `str::parse::<u32>` does.
pub fn parse_u32(s: &[char]) -> (r: Option<u32>)
    ensures
        r == parse_u32_spec(s@),
{
    let n = s.len();
    let b: usize = if n > 0 && s[0] == '+' { 1 } else { 0 };
    let ghost body = if s@.len() > 0 && s@[0] == '+' { s@.drop_first() } else { s@ };
    assert(body =~= s@.subrange(b as int, n as int));
    if b >= n {
        return None;
    }
    let mut val: u64 = 0;
    let mut i = b;
    while i < n
        invariant
            b <= i <= n,
            n == s@.len(),
            body =~= s@.subrange(b as int, n as int),
            body == (if s@.len() > 0 && s@[0] == '+' { s@.drop_first() } else { s@ }),
            all_digits(s@.subrange(b as int, i as int)),
            val == digits_value(s@.subrange(b as int, i as int)),
            val <= u32::MAX,
        decreases n - i,
    {
        let c = s[i];
        if !('0' <= c && c <= '9') {
            assert(body[i - b] == c);
            assert(!is_digit(body[(i - b) as int]));
            assert(!all_digits(body));
            return None;
        }
        let d = (c as u64) - ('0' as u64);
        let ghost pre = s@.subrange(b as int, i as int);
        let ghost post = s@.subrange(b as int, i + 1);
        assert(post.drop_last() =~= pre);
        assert(post.last() == c);
        val = val * 10 + d;
        assert(val == digits_value(post));
        if val > 0xffff_ffff {
            proof {
                if all_digits(body) {
                    let j = (i + 1 - b) as int;
                    assert(body.subrange(0, j) =~= post);
                    lemma_digits_value_prefix(body, j);
                    assert(digits_value(body) > u32::MAX);
                }
            }
            return None;
        }
        i = i + 1;
    }
    assert(s@.subrange(b as int, n as int) =~= body);
    Some(val as u32)
}

/// A prefix of a run of digits is worth no more than the whole run.
pub proof fn lemma_digits_value_prefix(s: Seq<char>, j: int)
    requires
        0 <= j <= s.len(),
        all_digits(s),
    ensures
        digits_value(s.subrange(0, j)) <= digits_value(s),
    decreases s.len(),
{
    if j < s.len() {
        let t = s.drop_last();
        assert(all_digits(t)) by {
            assert forall|i: int| 0 <= i < t.len() implies is_digit(#[trigger] t[i]) by {
                assert(t[i] == s[i]);
            }
        }
        lemma_digits_value_prefix(t, j);
        assert(t.subrange(0, j) =~= s.subrange(0, j));
        assert(is_digit(s[s.len() - 1]));
    } else {
        assert(s.subrange(0, j) =~= s);
    }
}

// ───────────────────────────── searching ───────────────────────────────────

/// The index of the first `c` in `s`, or -1 when there is none.
pub open spec fn index_of(s: Seq<char>, c: char) -> int
    decreases s.len(),
{
    if s.len() == 0 {
        -1
    } else if s[0] == c {
        0
    } else {
        let r = index_of(s.drop_first(), c);
        if r < 0 { -1 } else { r + 1 }
    }
}

pub proof fn lemma_index_of(s: Seq<char>, c: char)
    ensures
        -1 <= index_of(s, c) < s.len(),
        index_of(s, c) >= 0 ==> s[index_of(s, c)] == c,
        forall|k: int| 0 <= k < s.len() && (index_of(s, c) < 0 || k < index_of(s, c)) ==> s[k] != c,
    decreases s.len(),
{
    if s.len() > 0 && s[0] != c {
        lemma_index_of(s.drop_first(), c);
        assert forall|k: int| 0 <= k < s.len() && (index_of(s, c) < 0 || k < index_of(s, c)) implies s[k] != c by {
            if k > 0 {
                assert(s[k] == s.drop_first()[k - 1]);
            }
        }
    }
}

/// The first `c` in `s` is at `j` when `s[j] == c` and no earlier character is `c`.
pub proof fn lemma_index_of_at(s: Seq<char>, c: char, j: int)
    requires
        0 <= j < s.len(),
        s[j] == c,
        forall|k: int| 0 <= k < j ==> s[k] != c,
    ensures
        index_of(s, c) == j,
    decreases s.len(),
{
    if j > 0 {
        assert(s[0] != c);
        assert forall|k: int| 0 <= k < j - 1 implies s.drop_first()[k] != c by {
            assert(s.drop_first()[k] == s[k + 1]);
        }
        lemma_index_of_at(s.drop_first(), c, j - 1);
    }
}

/// `c` does not occur in `s` exactly when `index_of` is -1.
pub proof fn lemma_index_of_none(s: Seq<char>, c: char)
    requires
        forall|k: int| 0 <= k < s.len() ==> s[k] != c,
    ensures
        index_of(s, c) == -1,
    decreases s.len(),
{
    if s.len() > 0 {
        assert forall|k: int| 0 <= k < s.len() - 1 implies s.drop_first()[k] != c by {
            assert(s.drop_first()[k] == s[k + 1]);
        }
        lemma_index_of_none(s.drop_first(), c);
    }
}

/// Finds the first `c` at or after `from`.
pub fn find_char(v: &[char], from: usize, c: char) -> (r: Option<usize>)
    requires
        from <= v@.len(),
    ensures
        match r {
            Some(j) => from <= j < v@.len() && index_of(v@.skip(from as int), c) == j - from,
            None => index_of(v@.skip(from as int), c) == -1,
        },
{
    let n = v.len();
    let mut i = from;
    while i < n
        invariant
            from <= i <= n,
            n == v@.len(),
            forall|k: int| from <= k < i ==> v@[k] != c,
        decreases n - i,
    {
        if v[i] == c {
            proof {
                let t = v@.skip(from as int);
                assert forall|k: int| 0 <= k < i - from implies t[k] != c by {
                    assert(t[k] == v@[k + from]);
                }
                lemma_index_of_at(t, c, i - from);
            }
            return Some(i);
        }
        i = i + 1;
    }
    proof {
        let t = v@.skip(from as int);
        assert forall|k: int| 0 <= k < t.len() implies t[k] != c by {
            assert(t[k] == v@[k + from]);
        }
        lemma_index_of_none(t, c);
    }
    None
}

/// Copies `v[from..to]`.
pub fn copy_range(v: &[char], from: usize, to: usize) -> (r: Vec<char>)
    requires
        from <= to <= v@.len(),
    ensures
        r@ == v@.subrange(from as int, to as int),
{
    let mut r: Vec<char> = Vec::new();
    let mut i = from;
    while i < to
        invariant
            from <= i <= to <= v@.len(),
            r@ == v@.subrange(from as int, i as int),
        decreases to - i,
    {
        r.push(v[i]);
        assert(r@ =~= v@.subrange(from as int, i + 1));
        i = i + 1;
    }
    r
}

/// `p` occurs in `s` at `i`.
pub open spec fn occurs_at(s: Seq<char>, p: Seq<char>, i: int) -> bool {
    0 <= i && i + p.len() <= s.len() && s.subrange(i, i + p.len()) == p
}

/// `i` is where `p` first occurs in `s` (what `str::find` returns).
pub open spec fn first_occurrence(s: Seq<char>, p: Seq<char>, i: int) -> bool {
    occurs_at(s, p, i) && forall|k: int| 0 <= k < i ==> !occurs_at(s, p, k)
}

pub open spec fn contains_seq(s: Seq<char>, p: Seq<char>) -> bool {
    exists|i: int| occurs_at(s, p, i)
}

fn matches_at(s: &[char], p: &[char], i: usize) -> (b: bool)
    requires
        i + p@.len() <= s@.len(),
    ensures
        b == occurs_at(s@, p@, i as int),
{
    let m = p.len();
    let sl = s.len();
    let mut k: usize = 0;
    while k < m
        invariant
            k <= m,
            m == p@.len(),
            sl == s@.len(),
            i + m <= sl,
            forall|j: int| 0 <= j < k ==> s@[i + j] == p@[j],
        decreases m - k,
    {
        if s[i + k] != p[k] {
            assert(s@.subrange(i as int, i + m)[k as int] != p@[k as int]);
            return false;
        }
        k = k + 1;
    }
    assert(s@.subrange(i as int, i + m) =~= p@);
    true
}

/// Finds the first occurrence of `p` in `s`, as `str::find` does.
pub fn find_seq(s: &[char], p: &[char]) -> (r: Option<usize>)
    ensures
        match r {
            Some(i) => first_occurrence(s@, p@, i as int),
            None => !contains_seq(s@, p@),
        },
{
    let n = s.len();
    let m = p.len();
    if m > n {
        assert forall|i: int| !occurs_at(s@, p@, i) by {}
        return None;
    }
    if m == 0 {
        assert(s@.subrange(0, 0) =~= p@);
        return Some(0);
    }
    let mut i: usize = 0;
    while i <= n - m
        invariant
            n == s@.len(),
            m == p@.len(),
            0 < m <= n,
            i <= n - m + 1,
            forall|k: int| 0 <= k < i ==> !occurs_at(s@, p@, k),
        decreases n - m + 1 - i,
    {
        if matches_at(s, p, i) {
            return Some(i);
        }
        i = i + 1;
    }
    assert forall|k: int| !occurs_at(s@, p@, k) by {
        if 0 <= k && k < i {
        }
    }
    None
}

/// Whether `p` occurs in `s`, as `str::contains` answers.
pub fn contains(s: &[char], p: &[char]) -> (b: bool)
    ensures
        b == contains_seq(s@, p@),
{
    match find_seq(s, p) {
        Some(i) => true,
        None => false,
    }
}

pub open spec fn starts_with_seq(s: Seq<char>, p: Seq<char>) -> bool {
    p.len() <= s.len() && s.take(p.len() as int) == p
}

pub open spec fn ends_with_seq(s: Seq<char>, p: Seq<char>) -> bool {
    p.len() <= s.len() && s.skip(s.len() - p.len()) == p
}

/// Whether `s` begins with `p`, as `str::starts_with` answers.
pub fn starts_with(s: &[char], p: &[char]) -> (b: bool)
    ensures
        b == starts_with_seq(s@, p@),
{
    if p.len() > s.len() {
        return false;
    }
    let b = matches_at(s, p, 0);
    assert(s@.subrange(0, p@.len() as int) =~= s@.take(p@.len() as int));
    b
}

/// Whether `s` ends with `p`, as `str::ends_with` answers.
pub fn ends_with(s: &[char], p: &[char]) -> (b: bool)
    ensures
        b == ends_with_seq(s@, p@),
{
    if p.len() > s.len() {
        return false;
    }
    let b = matches_at(s, p, s.len() - p.len());
    assert(s@.subrange(s@.len() - p@.len(), s@.len() as int) =~= s@.skip(s@.len() - p@.len()));
    b
}

/// Whether two character sequences are the same.
pub fn same_chars(a: &[char], b: &[char]) -> (r: bool)
    ensures
        r == (a@ == b@),
{
    if a.len() != b.len() {
        return false;
    }
    let r = matches_at(a, b, 0);
    assert(a@.subrange(0, b@.len() as int) =~= a@);
    r
}


// ───────────────────────────── trimming ────────────────────────────────────

/// A set of characters that trimming and splitting can test for.
#[derive(Clone, Copy)]
pub enum CharClass {
    /// Unicode white space, as `char::is_whitespace` decides.
    Whitespace,
    /// One given character.
    Is(char),
    /// Every character other than an ASCII digit.
    NonDigit,
}

pub open spec fn in_class(k: CharClass, c: char) -> bool {
    match k {
        CharClass::Whitespace => unicode_whitespace(c),
        CharClass::Is(x) => c == x,
        CharClass::NonDigit => !is_digit(c),
    }
}

pub fn class_contains(k: CharClass, c: char) -> (b: bool)
    ensures
        b == in_class(k, c),
{
    match k {
        CharClass::Whitespace => is_whitespace(c),
        CharClass::Is(x) => c == x,
        CharClass::NonDigit => !('0' <= c && c <= '9'),
    }
}

/// How many characters at the front of `s` are (`inside`) or are not
/// (`!inside`) in class `k`.
pub open spec fn lead_len(s: Seq<char>, k: CharClass, inside: bool) -> nat
    decreases s.len(),
{
    if s.len() > 0 && in_class(k, s[0]) == inside {
        1 + lead_len(s.drop_first(), k, inside)
    } else {
        0
    }
}

/// How many characters at the back of `s` are in class `k`.
pub open spec fn trail_len(s: Seq<char>, k: CharClass) -> nat
    decreases s.len(),
{
    if s.len() > 0 && in_class(k, s.last()) {
        1 + trail_len(s.drop_last(), k)
    } else {
        0
    }
}

/// `s` without the characters of class `k` at its front.
pub open spec fn trim_start_spec(s: Seq<char>, k: CharClass) -> Seq<char> {
    s.skip(lead_len(s, k, true) as int)
}

/// `s` without the characters of class `k` at its back.
pub open spec fn trim_end_spec(s: Seq<char>, k: CharClass) -> Seq<char> {
    s.take(s.len() - trail_len(s, k))
}

/// `s` without the characters of class `k` at either end: `str::trim` for
/// white space, `str::trim_matches` for one character.
pub open spec fn trim_spec(s: Seq<char>, k: CharClass) -> Seq<char> {
    trim_end_spec(trim_start_spec(s, k), k)
}

pub proof fn lemma_lead_len(s: Seq<char>, k: CharClass, inside: bool)
    ensures
        lead_len(s, k, inside) <= s.len(),
        forall|i: int| 0 <= i < lead_len(s, k, inside) ==> in_class(k, #[trigger] s[i]) == inside,
        lead_len(s, k, inside) < s.len() ==> in_class(k, s[lead_len(s, k, inside) as int]) != inside,
    decreases s.len(),
{
    if s.len() > 0 && in_class(k, s[0]) == inside {
        lemma_lead_len(s.drop_first(), k, inside);
        assert forall|i: int| 0 <= i < lead_len(s, k, inside) implies in_class(k, #[trigger] s[i]) == inside by {
            if i > 0 {
                assert(s[i] == s.drop_first()[i - 1]);
            }
        }
        if lead_len(s, k, inside) < s.len() {
            assert(s[lead_len(s, k, inside) as int] == s.drop_first()[lead_len(s.drop_first(), k, inside) as int]);
        }
    }
}

pub proof fn lemma_lead_len_at(s: Seq<char>, k: CharClass, inside: bool, j: int)
    requires
        0 <= j <= s.len(),
        forall|i: int| 0 <= i < j ==> in_class(k, #[trigger] s[i]) == inside,
        j < s.len() ==> in_class(k, s[j]) != inside,
    ensures
        lead_len(s, k, inside) == j,
    decreases s.len(),
{
    if j > 0 {
        assert(in_class(k, s[0]) == inside);
        assert forall|i: int| 0 <= i < j - 1 implies in_class(k, #[trigger] s.drop_first()[i]) == inside by {
            assert(s.drop_first()[i] == s[i + 1]);
        }
        if j - 1 < s.len() - 1 {
            assert(s.drop_first()[j - 1] == s[j]);
        }
        lemma_lead_len_at(s.drop_first(), k, inside, j - 1);
    }
}

pub proof fn lemma_trail_len_at(s: Seq<char>, k: CharClass, j: int)
    requires
        0 <= j <= s.len(),
        forall|i: int| s.len() - j <= i < s.len() ==> in_class(k, #[trigger] s[i]),
        j < s.len() ==> !in_class(k, s[s.len() - j - 1]),
    ensures
        trail_len(s, k) == j,
    decreases s.len(),
{
    if j > 0 {
        assert(in_class(k, s[s.len() - 1]));
        let t = s.drop_last();
        assert forall|i: int| t.len() - (j - 1) <= i < t.len() implies in_class(k, #[trigger] t[i]) by {
            assert(t[i] == s[i]);
        }
        if j - 1 < t.len() {
            assert(t[t.len() - (j - 1) - 1] == s[s.len() - j - 1]);
        }
        lemma_trail_len_at(t, k, j - 1);
    }
}

pub proof fn lemma_trail_len(s: Seq<char>, k: CharClass)
    ensures
        trail_len(s, k) <= s.len(),
        forall|i: int| s.len() - trail_len(s, k) <= i < s.len() ==> in_class(k, #[trigger] s[i]),
        trail_len(s, k) < s.len() ==> !in_class(k, s[s.len() - trail_len(s, k) - 1]),
    decreases s.len(),
{
    if s.len() > 0 && in_class(k, s.last()) {
        let t = s.drop_last();
        lemma_trail_len(t, k);
        assert forall|i: int| s.len() - trail_len(s, k) <= i < s.len() implies in_class(k, #[trigger] s[i]) by {
            if i < s.len() - 1 {
                assert(s[i] == t[i]);
            }
        }
        if trail_len(s, k) < s.len() {
            assert(s[s.len() - trail_len(s, k) - 1] == t[t.len() - trail_len(t, k) - 1]);
        }
    }
}

/// Trimming what is already trimmed changes nothing.
pub proof fn lemma_trim_idempotent(s: Seq<char>, k: CharClass)
    ensures
        trim_spec(trim_spec(s, k), k) == trim_spec(s, k),
{
    lemma_lead_len(s, k, true);
    let a = lead_len(s, k, true);
    let t1 = s.skip(a as int);
    lemma_trail_len(t1, k);
    let b = trail_len(t1, k);
    let t2 = t1.take(t1.len() - b);
    assert(t2 == trim_spec(s, k));
    if t2.len() > 0 {
        assert(t2[0] == s[a as int]);
        assert(t2.last() == t1[t1.len() - b - 1]);
        lemma_lead_len_at(t2, k, true, 0);
        lemma_trail_len_at(t2, k, 0);
    } else {
        lemma_lead_len_at(t2, k, true, 0);
        lemma_trail_len_at(t2, k, 0);
    }
    assert(t2.skip(0) =~= t2);
    assert(t2.take(t2.len() as int) =~= t2);
}

/// The first index at or after `from` whose character is not (`inside`) or is
/// (`!inside`) in class `k`; `v.len()` when there is none.
pub fn lead_from(v: &[char], from: usize, k: CharClass, inside: bool) -> (j: usize)
    requires
        from <= v@.len(),
    ensures
        from <= j <= v@.len(),
        j - from == lead_len(v@.skip(from as int), k, inside),
{
    let n = v.len();
    let mut i = from;
    while i < n && class_contains(k, v[i]) == inside
        invariant
            from <= i <= n,
            n == v@.len(),
            forall|q: int| from <= q < i ==> in_class(k, #[trigger] v@[q]) == inside,
        decreases n - i,
    {
        i = i + 1;
    }
    proof {
        let t = v@.skip(from as int);
        assert forall|q: int| 0 <= q < i - from implies in_class(k, #[trigger] t[q]) == inside by {
            assert(t[q] == v@[q + from]);
        }
        if i - from < t.len() {
            assert(t[i - from] == v@[i as int]);
        }
        lemma_lead_len_at(t, k, inside, i - from);
    }
    i
}

/// The index where the trailing run of class `k` inside `v[from..to]` begins.
pub fn trail_from(v: &[char], from: usize, to: usize, k: CharClass) -> (j: usize)
    requires
        from <= to <= v@.len(),
    ensures
        from <= j <= to,
        to - j == trail_len(v@.subrange(from as int, to as int), k),
{
    let mut i = to;
    while i > from && class_contains(k, v[i - 1])
        invariant
            from <= i <= to <= v@.len(),
            forall|q: int| i <= q < to ==> in_class(k, #[trigger] v@[q]),
        decreases i,
    {
        i = i - 1;
    }
    proof {
        let t = v@.subrange(from as int, to as int);
        assert forall|q: int| t.len() - (to - i) <= q < t.len() implies in_class(k, #[trigger] t[q]) by {
            assert(t[q] == v@[q + from]);
        }
        if to - i < t.len() {
            assert(t[t.len() - (to - i) - 1] == v@[i - 1]);
        }
        lemma_trail_len_at(t, k, (to - i) as int);
    }
    i
}

/// `str::trim_start` (white space) or `str::trim_start_matches` (one character).
pub fn trim_start(v: &[char], k: CharClass) -> (r: Vec<char>)
    ensures
        r@ == trim_start_spec(v@, k),
{
    let a = lead_from(v, 0, k, true);
    assert(v@.skip(0) =~= v@);
    copy_range(v, a, v.len())
}

/// `str::trim_end` (white space) or `str::trim_end_matches` (one character).
pub fn trim_end(v: &[char], k: CharClass) -> (r: Vec<char>)
    ensures
        r@ == trim_end_spec(v@, k),
{
    let b = trail_from(v, 0, v.len(), k);
    assert(v@.subrange(0, v@.len() as int) =~= v@);
    copy_range(v, 0, b)
}

/// `str::trim` (white space) or `str::trim_matches` (one character).
pub fn trim(v: &[char], k: CharClass) -> (r: Vec<char>)
    ensures
        r@ == trim_spec(v@, k),
{
    let a = lead_from(v, 0, k, true);
    assert(v@.skip(0) =~= v@);
    let b = trail_from(v, a, v.len(), k);
    assert(v@.subrange(a as int, v@.len() as int) =~= trim_start_spec(v@, k));
    let r = copy_range(v, a, b);
    assert(r@ =~= trim_spec(v@, k));
    r
}


// ───────────────────────────── splitting ───────────────────────────────────

/// The character sequences held by a vector of character vectors.
pub open spec fn views(v: Seq<Vec<char>>) -> Seq<Seq<char>> {
    v.map_values(|x: Vec<char>| x@)
}

pub proof fn lemma_views_push(v: Seq<Vec<char>>, x: Vec<char>)
    ensures
        views(v.push(x)) == views(v).push(x@),
{
    assert(views(v.push(x)) =~= views(v).push(x@));
}

/// The pieces of `s` between occurrences of `c`: what `str::split(c)` yields.
pub open spec fn split_spec(s: Seq<char>, c: char) -> Seq<Seq<char>>
    decreases s.len(),
{
    let i = index_of(s, c);
    if i < 0 {
        seq![s]
    } else {
        proof {
            lemma_index_of(s, c);
        }
        seq![s.take(i)] + split_spec(s.skip(i + 1), c)
    }
}

/// `l` without one `\r` at its end.
pub open spec fn strip_cr(l: Seq<char>) -> Seq<char> {
    if l.len() > 0 && l.last() == '\r' { l.drop_last() } else { l }
}

/// The lines of `s`, as `str::lines` yields them: split at `\n`, a `\r`
/// before that `\n` dropped, and no empty last line after a final `\n`.
pub open spec fn lines_spec(s: Seq<char>) -> Seq<Seq<char>>
    decreases s.len(),
{
    if s.len() == 0 {
        seq![]
    } else {
        let i = index_of(s, '\n');
        if i < 0 {
            seq![s]
        } else {
            proof {
                lemma_index_of(s, '\n');
            }
            seq![strip_cr(s.take(i))] + lines_spec(s.skip(i + 1))
        }
    }
}

/// The runs of non-white-space characters of `s`, in order: what
/// `str::split_whitespace` yields.
pub open spec fn words_spec(s: Seq<char>) -> Seq<Seq<char>>
    decreases s.len(),
{
    let a = lead_len(s, CharClass::Whitespace, true);
    if a >= s.len() {
        seq![]
    } else {
        let t = s.skip(a as int);
        let b = lead_len(t, CharClass::Whitespace, false);
        proof {
            lemma_lead_len(s, CharClass::Whitespace, true);
            lemma_lead_len(t, CharClass::Whitespace, false);
            assert(t[0] == s[a as int]);
        }
        seq![t.take(b as int)] + words_spec(t.skip(b as int))
    }
}

/// `str::split(c)`.
pub fn split_chars(v: &[char], c: char) -> (r: Vec<Vec<char>>)
    ensures
        views(r@) == split_spec(v@, c),
{
    let n = v.len();
    let mut acc: Vec<Vec<char>> = Vec::new();
    let mut p: usize = 0;
    assert(v@.skip(0) =~= v@);
    loop
        invariant
            p <= n,
            n == v@.len(),
            split_spec(v@, c) == views(acc@) + split_spec(v@.skip(p as int), c),
        decreases n - p,
    {
        let ghost rest = v@.skip(p as int);
        match find_char(v, p, c) {
            Some(j) => {
                let piece = copy_range(v, p, j);
                proof {
                    assert(rest.take(j - p) =~= v@.subrange(p as int, j as int));
                    assert(rest.skip(j - p + 1) =~= v@.skip(j + 1));
                    lemma_views_push(acc@, piece);
                }
                acc.push(piece);
                p = j + 1;
            },
            None => {
                let piece = copy_range(v, p, n);
                proof {
                    assert(rest =~= v@.subrange(p as int, n as int));
                    lemma_views_push(acc@, piece);
                }
                acc.push(piece);
                return acc;
            },
        }
    }
}

/// `str::splitn(2, c)`: the text before the first `c`, and the text after it
/// when there is one.
pub open spec fn split_once_spec(s: Seq<char>, c: char) -> (Seq<char>, Option<Seq<char>>) {
    let i = index_of(s, c);
    if i < 0 { (s, None) } else { (s.take(i), Some(s.skip(i + 1))) }
}

pub fn split_once(v: &[char], c: char) -> (r: (Vec<char>, Option<Vec<char>>))
    ensures
        r.0@ == split_once_spec(v@, c).0,
        r.1 is Some == split_once_spec(v@, c).1 is Some,
        r.1 is Some ==> r.1.unwrap()@ == split_once_spec(v@, c).1.unwrap(),
{
    assert(v@.skip(0) =~= v@);
    let n = v.len();
    match find_char(v, 0, c) {
        Some(j) => {
            let a = copy_range(v, 0, j);
            let b = copy_range(v, j + 1, n);
            assert(v@.take(j as int) =~= a@);
            assert(v@.skip(j + 1) =~= b@);
            (a, Some(b))
        },
        None => {
            let a = copy_range(v, 0, v.len());
            assert(a@ =~= v@);
            (a, None)
        },
    }
}

/// `str::lines`.
pub fn lines(v: &[char]) -> (r: Vec<Vec<char>>)
    ensures
        views(r@) == lines_spec(v@),
{
    let n = v.len();
    let mut acc: Vec<Vec<char>> = Vec::new();
    let mut p: usize = 0;
    assert(v@.skip(0) =~= v@);
    while p < n
        invariant
            p <= n,
            n == v@.len(),
            lines_spec(v@) == views(acc@) + lines_spec(v@.skip(p as int)),
        decreases n - p,
    {
        let ghost rest = v@.skip(p as int);
        match find_char(v, p, '\n') {
            Some(j) => {
                let mut e = j;
                if e > p && v[e - 1] == '\r' {
                    e = e - 1;
                }
                let piece = copy_range(v, p, e);
                proof {
                    assert(rest.take(j - p) =~= v@.subrange(p as int, j as int));
                    assert(strip_cr(v@.subrange(p as int, j as int)) =~= piece@);
                    assert(rest.skip(j - p + 1) =~= v@.skip(j + 1));
                    lemma_views_push(acc@, piece);
                }
                acc.push(piece);
                p = j + 1;
            },
            None => {
                let piece = copy_range(v, p, n);
                proof {
                    assert(rest =~= v@.subrange(p as int, n as int));
                    lemma_views_push(acc@, piece);
                    assert(v@.skip(n as int).len() == 0);
                }
                acc.push(piece);
                p = n;
            },
        }
    }
    assert(v@.skip(n as int).len() == 0);
    assert(views(acc@) + seq![] =~= views(acc@));
    acc
}

/// `str::split_whitespace`.
pub fn words(v: &[char]) -> (r: Vec<Vec<char>>)
    ensures
        views(r@) == words_spec(v@),
{
    let n = v.len();
    let mut acc: Vec<Vec<char>> = Vec::new();
    let mut p: usize = 0;
    assert(v@.skip(0) =~= v@);
    loop
        invariant
            p <= n,
            n == v@.len(),
            words_spec(v@) == views(acc@) + words_spec(v@.skip(p as int)),
        decreases n - p,
    {
        let ghost rest = v@.skip(p as int);
        let a = lead_from(v, p, CharClass::Whitespace, true);
        if a >= n {
            assert(views(acc@) + seq![] =~= views(acc@));
            return acc;
        }
        let b = lead_from(v, a, CharClass::Whitespace, false);
        proof {
            assert(rest.skip(a - p) =~= v@.skip(a as int));
            lemma_lead_len(v@.skip(a as int), CharClass::Whitespace, false);
            assert(v@.skip(a as int)[0] == v@[a as int]);
            lemma_lead_len(rest, CharClass::Whitespace, true);
            assert(rest[a - p] == v@[a as int]);
        }
        let piece = copy_range(v, a, b);
        proof {
            assert(v@.skip(a as int).take(b - a) =~= piece@);
            assert(v@.skip(a as int).skip(b - a) =~= v@.skip(b as int));
            lemma_views_push(acc@, piece);
        }
        acc.push(piece);
        p = b;
    }
}


// ───────────────────────────── building text ───────────────────────────────

/// Appends the characters of `s` to `out`.
pub fn push_chars(out: &mut Vec<char>, s: &[char])
    ensures
        final(out)@ == old(out)@ + s@,
{
    let n = s.len();
    let mut i: usize = 0;
    while i < n
        invariant
            i <= n,
            n == s@.len(),
            out@ == old(out)@ + s@.take(i as int),
        decreases n - i,
    {
        out.push(s[i]);
        assert(out@ =~= old(out)@ + s@.take(i + 1));
        i = i + 1;
    }
    assert(s@.take(n as int) =~= s@);
}

/// Appends the characters of `s` to `out`.
pub fn push_str(out: &mut Vec<char>, s: &str)
    ensures
        final(out)@ == old(out)@ + s@,
{
    let v = chars_of(s);
    push_chars(out, v.as_slice());
}

/// The texts of a sequence of strings.
pub open spec fn string_views(v: Seq<String>) -> Seq<Seq<char>> {
    v.map_values(|x: String| x@)
}

/// Turns character vectors into strings, in order.
pub fn strings_of(v: &Vec<Vec<char>>) -> (r: Vec<String>)
    ensures
        string_views(r@) == views(v@),
{
    let n = v.len();
    let mut r: Vec<String> = Vec::new();
    let mut i: usize = 0;
    while i < n
        invariant
            i <= n,
            n == v@.len(),
            string_views(r@) == views(v@.take(i as int)),
        decreases n - i,
    {
        let s = string_of(v[i].as_slice());
        let ghost old_r = r@;
        r.push(s);
        assert(string_views(r@) =~= string_views(old_r).push(s@));
        assert(views(v@.take(i + 1)) =~= views(v@.take(i as int)).push(v@[i as int]@));
        i = i + 1;
    }
    assert(v@.take(n as int) =~= v@);
    r
}


// ───────────────────────────── substring positions ─────────────────────────

/// Where `p` first occurs in `s`, or -1 when it does not occur.
pub open spec fn find_index(s: Seq<char>, p: Seq<char>) -> int
    decreases s.len(),
{
    if p.len() > s.len() {
        -1
    } else if s.take(p.len() as int) =~= p {
        0
    } else if s.len() == 0 {
        -1
    } else {
        let r = find_index(s.drop_first(), p);
        if r < 0 { -1 } else { r + 1 }
    }
}

pub proof fn lemma_occurs_drop_first(s: Seq<char>, p: Seq<char>, k: int)
    requires
        s.len() > 0,
        k >= 0,
    ensures
        occurs_at(s.drop_first(), p, k) == occurs_at(s, p, k + 1),
{
    if 0 <= k && k + p.len() <= s.len() - 1 {
        assert(s.drop_first().subrange(k, k + p.len()) =~= s.subrange(k + 1, k + 1 + p.len()));
    }
}

/// `find_index` agrees with the first occurrence.
pub proof fn lemma_find_index(s: Seq<char>, p: Seq<char>)
    ensures
        contains_seq(s, p) ==> first_occurrence(s, p, find_index(s, p)),
        !contains_seq(s, p) ==> find_index(s, p) == -1,
    decreases s.len(),
{
    if p.len() > s.len() {
        assert(!contains_seq(s, p));
    } else if s.take(p.len() as int) =~= p {
        assert(s.subrange(0, p.len() as int) =~= s.take(p.len() as int));
        assert(occurs_at(s, p, 0));
    } else if s.len() == 0 {
        assert(!occurs_at(s, p, 0));
        assert(!contains_seq(s, p));
    } else {
        let t = s.drop_first();
        lemma_find_index(t, p);
        assert(!occurs_at(s, p, 0)) by {
            assert(s.subrange(0, p.len() as int) =~= s.take(p.len() as int));
        }
        if contains_seq(s, p) {
            let w = choose|i: int| occurs_at(s, p, i);
            assert(w != 0);
            lemma_occurs_drop_first(s, p, w - 1);
            assert(contains_seq(t, p));
            let r = find_index(t, p);
            lemma_occurs_drop_first(s, p, r);
            assert forall|k: int| 0 <= k < r + 1 implies !occurs_at(s, p, k) by {
                if k > 0 {
                    lemma_occurs_drop_first(s, p, k - 1);
                }
            }
        } else {
            if contains_seq(t, p) {
                let w = choose|i: int| occurs_at(t, p, i);
                lemma_occurs_drop_first(s, p, w);
            }
        }
    }
}

/// Finds `p` in `s` as `str::find` does, returning the index as a number.
pub fn find_str(s: &[char], p: &[char]) -> (r: Option<usize>)
    ensures
        match r {
            Some(i) => find_index(s@, p@) == i as int,
            None => find_index(s@, p@) == -1,
        },
{
    let r = find_seq(s, p);
    proof {
        lemma_find_index(s@, p@);
        if let Some(i) = r {
            if find_index(s@, p@) != i {
                let j = find_index(s@, p@);
                if j < i {
                    assert(!occurs_at(s@, p@, j));
                } else {
                    assert(!occurs_at(s@, p@, i as int));
                }
            }
        }
    }
    r
}

} // verus!
