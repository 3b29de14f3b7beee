//! Character-level text helpers shared by the library: Unicode whitespace,
//! trimming, ASCII case folding, word counting and decimal formatting.

use vstd::prelude::*;

verus! {

/// The characters of `s`, in order.
pub fn chars_of(s: &str) -> (v: Vec<char>)
    ensures
        v@ == s@,
{
    let mut v: Vec<char> = Vec::new();
    for c in it: s.chars()
        invariant
            v@ == it.seq().take(it.index() as int),
            it.seq() == s@,
    {
        v.push(c);
    }
    v
}

/// `String::push` from std: appends the given character to the end of the string.
#[verifier::external_body]
fn push_char(s: &mut String, c: char)
    ensures
        final(s)@ == old(s)@.push(c),
{
    s.push(c);
}

/// A string holding exactly the characters `v[start..end]`.
pub fn string_from_chars(v: &Vec<char>, start: usize, end: usize) -> (s: String)
    requires
        start <= end <= v.len(),
    ensures
        s@ == v@.subrange(start as int, end as int),
{
    let mut s = String::new();
    let mut i = start;
    while i < end
        invariant
            start <= i <= end <= v.len(),
            s@ == v@.subrange(start as int, i as int),
        decreases end - i,
    {
        push_char(&mut s, v[i]);
        assert(v@.subrange(start as int, i + 1) == v@.subrange(start as int, i as int).push(v@[i as int]));
        i = i + 1;
    }
    s
}

/// The Unicode `White_Space` property, which `char::is_whitespace` tests.
pub open spec fn is_unicode_whitespace(c: char) -> bool {
    let u = c as u32;
    ||| 0x09 <= u <= 0x0d
    ||| u == 0x20
    ||| u == 0x85
    ||| u == 0xa0
    ||| u == 0x1680
    ||| 0x2000 <= u <= 0x200a
    ||| u == 0x2028
    ||| u == 0x2029
    ||| u == 0x202f
    ||| u == 0x205f
    ||| u == 0x3000
}

/// Whether `c` is a Unicode whitespace character.
pub fn is_whitespace(c: char) -> (b: bool)
    ensures
        b == is_unicode_whitespace(c),
{
    let u = c as u32;
    (0x09 <= u && u <= 0x0d) || u == 0x20 || u == 0x85 || u == 0xa0 || u == 0x1680 || (0x2000
        <= u && u <= 0x200a) || u == 0x2028 || u == 0x2029 || u == 0x202f || u == 0x205f || u
        == 0x3000
}

/// `s` with leading whitespace removed.
pub open spec fn trim_start_seq(s: Seq<char>) -> Seq<char>
    decreases s.len(),
{
    if s.len() > 0 && is_unicode_whitespace(s[0]) {
        trim_start_seq(s.drop_first())
    } else {
        s
    }
}

/// `s` with trailing whitespace removed.
pub open spec fn trim_end_seq(s: Seq<char>) -> Seq<char>
    decreases s.len(),
{
    if s.len() > 0 && is_unicode_whitespace(s.last()) {
        trim_end_seq(s.drop_last())
    } else {
        s
    }
}

/// `s` with leading and trailing whitespace removed (what `str::trim` returns).
pub open spec fn trim_seq(s: Seq<char>) -> Seq<char> {
    trim_end_seq(trim_start_seq(s))
}

/// Index of the first non-whitespace character of `v` (or its length).
fn first_non_whitespace(v: &Vec<char>) -> (k: usize)
    ensures
        k <= v.len(),
        trim_start_seq(v@) == v@.subrange(k as int, v.len() as int),
{
    let mut k: usize = 0;
    assert(v@.subrange(0, v.len() as int) == v@);
    while k < v.len() && is_whitespace(v[k])
        invariant
            k <= v.len(),
            trim_start_seq(v@) == trim_start_seq(v@.subrange(k as int, v.len() as int)),
        decreases v.len() - k,
    {
        assert(v@.subrange(k as int, v.len() as int).drop_first() == v@.subrange(
            k + 1,
            v.len() as int,
        ));
        k = k + 1;
    }
    k
}

/// One past the index of the last non-whitespace character of `v[start..]`
/// (or `start` when there is none).
fn end_of_non_whitespace(v: &Vec<char>, start: usize) -> (k: usize)
    requires
        start <= v.len(),
    ensures
        start <= k <= v.len(),
        trim_end_seq(v@.subrange(start as int, v.len() as int)) == v@.subrange(
            start as int,
            k as int,
        ),
{
    let mut k: usize = v.len();
    while k > start && is_whitespace(v[k - 1])
        invariant
            start <= k <= v.len(),
            trim_end_seq(v@.subrange(start as int, v.len() as int)) == trim_end_seq(
                v@.subrange(start as int, k as int),
            ),
        decreases k,
    {
        assert(v@.subrange(start as int, k as int).drop_last() == v@.subrange(
            start as int,
            k - 1,
        ));
        k = k - 1;
    }
    k
}

/// The bounds `[a, b)` of the trimmed part of `v`.
pub fn trim_bounds(v: &Vec<char>) -> (r: (usize, usize))
    ensures
        r.0 <= r.1 <= v.len(),
        trim_seq(v@) == v@.subrange(r.0 as int, r.1 as int),
{
    let a = first_non_whitespace(v);
    let b = end_of_non_whitespace(v, a);
    (a, b)
}

/// `s` with leading and trailing whitespace removed.
pub fn trim(s: &str) -> (r: String)
    ensures
        r@ == trim_seq(s@),
{
    let v = chars_of(s);
    let (a, b) = trim_bounds(&v);
    string_from_chars(&v, a, b)
}

/// ASCII lower-case mapping of one character; other characters are unchanged.
pub open spec fn ascii_lower(c: char) -> char {
    if 'A' <= c <= 'Z' {
        ((c as u32) + 32) as char
    } else {
        c
    }
}

/// ASCII lower-case mapping of one character.
pub fn to_ascii_lower(c: char) -> (r: char)
    ensures
        r == ascii_lower(c),
{
    if 'A' <= c && c <= 'Z' {
        ((c as u8) + 32) as char
    } else {
        c
    }
}

/// ASCII letters and digits.
pub open spec fn is_ascii_alnum(c: char) -> bool {
    ||| '0' <= c <= '9'
    ||| 'A' <= c <= 'Z'
    ||| 'a' <= c <= 'z'
}

/// Whether `c` is an ASCII letter or digit.
pub fn is_ascii_alphanumeric(c: char) -> (b: bool)
    ensures
        b == is_ascii_alnum(c),
{
    ('0' <= c && c <= '9') || ('A' <= c && c <= 'Z') || ('a' <= c && c <= 'z')
}

/// Two sequences are equal once ASCII letters are folded to lower case.
pub open spec fn eq_ignore_ascii_case_seq(a: Seq<char>, b: Seq<char>) -> bool {
    &&& a.len() == b.len()
    &&& forall|i: int| 0 <= i < a.len() ==> ascii_lower(#[trigger] a[i]) == ascii_lower(b[i])
}

/// Whether `v` equals `lit` once ASCII letters are folded to lower case.
pub fn chars_eq_ignore_ascii_case(v: &Vec<char>, lit: &str) -> (b: bool)
    ensures
        b == eq_ignore_ascii_case_seq(v@, lit@),
{
    let n = lit.unicode_len();
    if v.len() != n {
        return false;
    }
    let mut i: usize = 0;
    while i < n
        invariant
            i <= n,
            n == v.len(),
            n == lit@.len(),
            forall|j: int| 0 <= j < i ==> ascii_lower(#[trigger] v@[j]) == ascii_lower(lit@[j]),
        decreases n - i,
    {
        if to_ascii_lower(v[i]) != to_ascii_lower(lit.get_char(i)) {
            return false;
        }
        i = i + 1;
    }
    true
}

/// Whether `v` holds exactly the characters of `lit`.
pub fn chars_eq_str(v: &Vec<char>, lit: &str) -> (b: bool)
    ensures
        b == (v@ == lit@),
{
    let n = lit.unicode_len();
    if v.len() != n {
        return false;
    }
    let mut i: usize = 0;
    while i < n
        invariant
            i <= n,
            n == v.len(),
            n == lit@.len(),
            forall|j: int| 0 <= j < i ==> v@[j] == lit@[j],
        decreases n - i,
    {
        if v[i] != lit.get_char(i) {
            return false;
        }
        i = i + 1;
    }
    assert(v@ == lit@);
    true
}

/// Number of whitespace-separated words in `s` (what `split_whitespace().count()` gives):
/// the number of positions that start a run of non-whitespace characters.
pub open spec fn word_count(s: Seq<char>) -> nat
    decreases s.len(),
{
    if s.len() == 0 {
        0
    } else {
        let starts_word = !is_unicode_whitespace(s.last()) && (s.len() == 1
            || is_unicode_whitespace(s[s.len() - 2]));
        word_count(s.drop_last()) + if starts_word {
            1nat
        } else {
            0nat
        }
    }
}

proof fn lemma_word_count_bound(s: Seq<char>)
    ensures
        word_count(s) <= s.len(),
    decreases s.len(),
{
    if s.len() > 0 {
        lemma_word_count_bound(s.drop_last());
    }
}

/// Counts the whitespace-separated words of `s`.
pub fn count_words(s: &str) -> (n: usize)
    ensures
        n == word_count(s@),
{
    let v = chars_of(s);
    let mut count: usize = 0;
    let mut i: usize = 0;
    assert(v@.take(0) == Seq::<char>::empty());
    while i < v.len()
        invariant
            i <= v.len(),
            count == word_count(v@.take(i as int)),
        decreases v.len() - i,
    {
        let starts = !is_whitespace(v[i]) && (i == 0 || is_whitespace(v[i - 1]));
        assert(v@.take(i + 1).drop_last() == v@.take(i as int));
        proof {
            lemma_word_count_bound(v@.take(i as int));
        }
        if starts {
            count = count + 1;
        }
        i = i + 1;
    }
    assert(v@.take(v.len() as int) == v@);
    count
}

/// Decimal digit character for `d < 10`.
pub open spec fn digit_char(d: nat) -> char {
    ((d + 48) as u32) as char
}

/// The decimal representation of `n`, without leading zeros.
pub open spec fn decimal_seq(n: nat) -> Seq<char>
    decreases n,
{
    if n < 10 {
        seq![digit_char(n)]
    } else {
        decimal_seq(n / 10).push(digit_char(n % 10))
    }
}

/// The decimal representation of `n` (what `n.to_string()` gives).
pub fn decimal_string(n: u64) -> (s: String)
    ensures
        s@ == decimal_seq(n as nat),
    decreases n,
{
    let d = (n % 10) as u8;
    let c = ((d + 48) as char);
    if n < 10 {
        let mut s = String::new();
        push_char(&mut s, c);
        assert(s@ == seq![c]);
        s
    } else {
        let mut s = decimal_string(n / 10);
        push_char(&mut s, c);
        s
    }
}

} // verus!

verus! {

/// The decimal representation of a signed number, with a leading '-' when negative.
pub open spec fn signed_decimal_seq(n: int) -> Seq<char> {
    if n < 0 {
        seq!['-'] + decimal_seq((-n) as nat)
    } else {
        decimal_seq(n as nat)
    }
}

/// The decimal representation of `n` (what `n.to_string()` gives).
pub fn signed_decimal_string(n: i64) -> (s: String)
    ensures
        s@ == signed_decimal_seq(n as int),
{
    if n < 0 {
        let magnitude: u64 = if n == i64::MIN {
            9223372036854775808u64
        } else {
            (-n) as u64
        };
        let digits = decimal_string(magnitude);
        let mut s = String::from_str("-");
        proof {
            reveal_strlit("-");
        }
        s.append(digits.as_str());
        s
    } else {
        decimal_string(n as u64)
    }
}

} // verus!

verus! {

proof fn lemma_trim_start_first(s: Seq<char>)
    ensures
        trim_start_seq(s).len() > 0 ==> !is_unicode_whitespace(trim_start_seq(s)[0]),
        trim_start_seq(s).len() <= s.len(),
    decreases s.len(),
{
    if s.len() > 0 && is_unicode_whitespace(s[0]) {
        lemma_trim_start_first(s.drop_first());
    }
}

proof fn lemma_trim_end_prefix(s: Seq<char>)
    ensures
        trim_end_seq(s).len() <= s.len(),
        trim_end_seq(s) == s.take(trim_end_seq(s).len() as int),
        trim_end_seq(s).len() > 0 ==> !is_unicode_whitespace(trim_end_seq(s).last()),
    decreases s.len(),
{
    if s.len() > 0 && is_unicode_whitespace(s.last()) {
        lemma_trim_end_prefix(s.drop_last());
        let t = trim_end_seq(s.drop_last());
        assert(s.drop_last().take(t.len() as int) =~= s.take(t.len() as int));
    } else {
        assert(s.take(s.len() as int) =~= s);
    }
}

/// Trimming an already trimmed text changes nothing.
pub proof fn lemma_trim_idempotent(s: Seq<char>)
    ensures
        trim_seq(trim_seq(s)) == trim_seq(s),
{
    let u = trim_start_seq(s);
    let v = trim_end_seq(u);
    lemma_trim_start_first(s);
    lemma_trim_end_prefix(u);
    if v.len() > 0 {
        assert(v[0] == u[0]);
        assert(trim_start_seq(v) == v);
        assert(trim_end_seq(v) == v);
    } else {
        assert(trim_start_seq(v) == v);
    }
}

} // verus!

verus! {

proof fn lemma_digit_char_injective(a: nat, b: nat)
    requires
        a < 10,
        b < 10,
        digit_char(a) == digit_char(b),
    ensures
        a == b,
{
    assert(digit_char(a) as u32 == (a + 48) as u32);
    assert(digit_char(b) as u32 == (b + 48) as u32);
}

proof fn lemma_decimal_len(n: nat)
    ensures
        decimal_seq(n).len() >= 1,
        n >= 10 ==> decimal_seq(n).len() >= 2,
    decreases n,
{
    if n >= 10 {
        lemma_decimal_len(n / 10);
    }
}

/// Different numbers have different decimal representations.
pub proof fn lemma_decimal_injective(a: nat, b: nat)
    requires
        decimal_seq(a) == decimal_seq(b),
    ensures
        a == b,
    decreases a,
{
    lemma_decimal_len(a);
    lemma_decimal_len(b);
    if a < 10 && b < 10 {
        assert(decimal_seq(a)[0] == digit_char(a));
        assert(decimal_seq(b)[0] == digit_char(b));
        lemma_digit_char_injective(a, b);
    } else if a >= 10 && b >= 10 {
        let da = decimal_seq(a);
        assert(da.drop_last() == decimal_seq(a / 10));
        assert(decimal_seq(b).drop_last() == decimal_seq(b / 10));
        lemma_decimal_injective(a / 10, b / 10);
        assert(da.last() == digit_char(a % 10));
        lemma_digit_char_injective(a % 10, b % 10);
    } else if a < 10 {
        assert(decimal_seq(a).len() == 1);
    } else {
        assert(decimal_seq(b).len() == 1);
    }
}

} // verus!
