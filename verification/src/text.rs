use vstd::prelude::*;
use vstd::string::*;

verus! {

/// Unicode `White_Space` code points, the set that `str::trim` strips.
pub open spec fn is_ws(c: char) -> bool {
    let n = c as u32;
    ||| 0x09 <= n <= 0x0d
    ||| n == 0x20
    ||| n == 0x85
    ||| n == 0xa0
    ||| n == 0x1680
    ||| 0x2000 <= n <= 0x200a
    ||| n == 0x2028
    ||| n == 0x2029
    ||| n == 0x202f
    ||| n == 0x205f
    ||| n == 0x3000
}

/// Whether every character of `s` is whitespace (so `s.trim()` is empty).
pub open spec fn is_blank_seq(s: Seq<char>) -> bool {
    forall|i: int| 0 <= i < s.len() ==> is_ws(#[trigger] s[i])
}

/// Index of the first non-whitespace character at or after `i`, or `s.len()`.
pub open spec fn trim_start_from(s: Seq<char>, i: int) -> int
    decreases s.len() - i,
{
    if i >= s.len() {
        s.len() as int
    } else if i < 0 {
        trim_start_from(s, 0)
    } else if !is_ws(s[i]) {
        i
    } else {
        trim_start_from(s, i + 1)
    }
}

/// One past the last non-whitespace character before `j`, or `0`.
pub open spec fn trim_end_from(s: Seq<char>, j: int) -> int
    decreases j,
{
    if j <= 0 {
        0
    } else if j > s.len() {
        trim_end_from(s, s.len() as int)
    } else if !is_ws(s[j - 1]) {
        j
    } else {
        trim_end_from(s, j - 1)
    }
}

/// `s` without its leading and trailing whitespace.
pub open spec fn trimmed(s: Seq<char>) -> Seq<char> {
    let a = trim_start_from(s, 0);
    let b = trim_end_from(s, s.len() as int);
    if a < b {
        s.subrange(a, b)
    } else {
        Seq::empty()
    }
}

/// The ASCII digit for `d` (taken modulo 10).
pub open spec fn digit_char(d: nat) -> char {
    let m = d % 10;
    if m == 0 {
        '0'
    } else if m == 1 {
        '1'
    } else if m == 2 {
        '2'
    } else if m == 3 {
        '3'
    } else if m == 4 {
        '4'
    } else if m == 5 {
        '5'
    } else if m == 6 {
        '6'
    } else if m == 7 {
        '7'
    } else if m == 8 {
        '8'
    } else {
        '9'
    }
}

/// Decimal notation of a natural number, without leading zeros.
pub open spec fn decimal(n: nat) -> Seq<char>
    decreases n,
{
    if n < 10 {
        seq![digit_char(n)]
    } else {
        decimal(n / 10).push(digit_char(n % 10))
    }
}

/// Decimal notation of an integer, with a leading `-` when negative.
pub open spec fn signed_decimal(n: int) -> Seq<char> {
    if n < 0 {
        seq!['-'] + decimal((-n) as nat)
    } else {
        decimal(n as nat)
    }
}

/// Appends one character to a string (`String::push`).
#[verifier::external_body]
pub(crate) fn push_char(s: &mut String, c: char)
    ensures
        final(s)@ == old(s)@.push(c),
{
    s.push(c);
}

/// Whether `c` is Unicode whitespace.
pub fn is_whitespace(c: char) -> (r: bool)
    ensures
        r == is_ws(c),
{
    let n = c as u32;
    (0x09 <= n && n <= 0x0d) || n == 0x20 || n == 0x85 || n == 0xa0 || n == 0x1680 || (0x2000
        <= n && n <= 0x200a) || n == 0x2028 || n == 0x2029 || n == 0x202f || n == 0x205f || n
        == 0x3000
}

/// Number of characters (not bytes) of `s`.
pub fn char_count(s: &str) -> (n: usize)
    ensures
        n == s@.len(),
{
    s.unicode_len()
}

/// Whether `s` holds nothing but whitespace (`s.trim().is_empty()`).
pub fn is_blank(s: &str) -> (r: bool)
    ensures
        r == is_blank_seq(s@),
{
    let n = s.unicode_len();
    let mut i: usize = 0;
    while i < n
        invariant
            n == s@.len(),
            i <= n,
            forall|k: int| 0 <= k < i ==> is_ws(#[trigger] s@[k]),
        decreases n - i,
    {
        let c = s.get_char(i);
        if !is_whitespace(c) {
            return false;
        }
        i = i + 1;
    }
    true
}

proof fn lemma_blank_iff_trimmed_empty(s: Seq<char>)
    ensures
        is_blank_seq(s) <==> trimmed(s).len() == 0,
{
    lemma_trim_start_bounds(s, 0);
    lemma_trim_end_bounds(s, s.len() as int);
    let a = trim_start_from(s, 0);
    let b = trim_end_from(s, s.len() as int);
    if is_blank_seq(s) {
        lemma_trim_start_blank(s, 0);
    } else {
        let k = choose|k: int| 0 <= k < s.len() && !is_ws(s[k]);
        lemma_trim_start_le(s, 0, k);
        lemma_trim_end_ge(s, s.len() as int, k);
    }
}

proof fn lemma_trim_start_bounds(s: Seq<char>, i: int)
    requires
        0 <= i <= s.len(),
    ensures
        i <= trim_start_from(s, i) <= s.len(),
        forall|k: int| i <= k < trim_start_from(s, i) ==> is_ws(#[trigger] s[k]),
        trim_start_from(s, i) < s.len() ==> !is_ws(s[trim_start_from(s, i)]),
    decreases s.len() - i,
{
    if i < s.len() && is_ws(s[i]) {
        lemma_trim_start_bounds(s, i + 1);
    }
}

proof fn lemma_trim_end_bounds(s: Seq<char>, j: int)
    requires
        0 <= j <= s.len(),
    ensures
        0 <= trim_end_from(s, j) <= j,
        forall|k: int| trim_end_from(s, j) <= k < j ==> is_ws(#[trigger] s[k]),
        trim_end_from(s, j) > 0 ==> !is_ws(s[trim_end_from(s, j) - 1]),
    decreases j,
{
    if j > 0 && is_ws(s[j - 1]) {
        lemma_trim_end_bounds(s, j - 1);
    }
}

proof fn lemma_trim_start_blank(s: Seq<char>, i: int)
    requires
        0 <= i <= s.len(),
        is_blank_seq(s),
    ensures
        trim_start_from(s, i) == s.len(),
    decreases s.len() - i,
{
    if i < s.len() {
        lemma_trim_start_blank(s, i + 1);
    }
}

proof fn lemma_trim_start_le(s: Seq<char>, i: int, k: int)
    requires
        0 <= i <= k < s.len(),
        !is_ws(s[k]),
    ensures
        trim_start_from(s, i) <= k,
    decreases s.len() - i,
{
    if i < k && is_ws(s[i]) {
        lemma_trim_start_le(s, i + 1, k);
    }
}

proof fn lemma_trim_end_ge(s: Seq<char>, j: int, k: int)
    requires
        0 <= k < j <= s.len(),
        !is_ws(s[k]),
    ensures
        trim_end_from(s, j) >= k + 1,
    decreases j,
{
    if j > k + 1 && is_ws(s[j - 1]) {
        lemma_trim_end_ge(s, j - 1, k);
    }
}

/// `s` with leading and trailing Unicode whitespace removed (`str::trim`).
pub fn trim(s: &str) -> (r: String)
    ensures
        r@ == trimmed(s@),
        r@.len() == 0 <==> is_blank_seq(s@),
{
    proof {
        lemma_blank_iff_trimmed_empty(s@);
        lemma_trim_start_bounds(s@, 0);
        lemma_trim_end_bounds(s@, s@.len() as int);
    }
    let n = s.unicode_len();
    let mut a: usize = 0;
    while a < n && is_whitespace(s.get_char(a))
        invariant
            n == s@.len(),
            a <= n,
            trim_start_from(s@, a as int) == trim_start_from(s@, 0),
        decreases n - a,
    {
        a = a + 1;
    }
    let mut b: usize = n;
    while b > a && is_whitespace(s.get_char(b - 1))
        invariant
            n == s@.len(),
            a <= b <= n,
            trim_end_from(s@, b as int) == trim_end_from(s@, n as int),
        decreases b,
    {
        b = b - 1;
    }
    proof {
        let ts = trim_start_from(s@, 0);
        let te = trim_end_from(s@, n as int);
        assert(ts == a);
        lemma_trim_end_bounds(s@, b as int);
        if b > a {
            assert(te == b);
        } else {
            assert(te <= ts);
        }
    }
    if a < b {
        String::from_str(s.substring_char(a, b))
    } else {
        String::new()
    }
}

/// The first `n` characters of `s` (all of it when it is shorter).
pub fn take_chars(s: &str, n: usize) -> (r: String)
    ensures
        r@ == s@.take(if n <= s@.len() { n as int } else { s@.len() as int }),
{
    let len = s.unicode_len();
    let m = if n <= len {
        n
    } else {
        len
    };
    String::from_str(s.substring_char(0, m))
}

/// Appends the decimal notation of `n` to `s`.
pub fn push_decimal(s: &mut String, n: u64)
    ensures
        final(s)@ == old(s)@ + decimal(n as nat),
    decreases n,
{
    if n >= 10 {
        push_decimal(s, n / 10);
    }
    let d = n % 10;
    let c = if d == 0 {
        '0'
    } else if d == 1 {
        '1'
    } else if d == 2 {
        '2'
    } else if d == 3 {
        '3'
    } else if d == 4 {
        '4'
    } else if d == 5 {
        '5'
    } else if d == 6 {
        '6'
    } else if d == 7 {
        '7'
    } else if d == 8 {
        '8'
    } else {
        '9'
    };
    push_char(s, c);
    proof {
        assert(c == digit_char(n as nat));
        if n >= 10 {
            assert(decimal(n as nat) == decimal((n / 10) as nat).push(digit_char((n % 10) as nat)));
            assert(digit_char((n % 10) as nat) == digit_char(n as nat));
        }
    }
}

/// Appends the decimal notation of the signed `n` to `s`.
pub fn push_signed_decimal(s: &mut String, n: i64)
    ensures
        final(s)@ == old(s)@ + signed_decimal(n as int),
{
    if n < 0 {
        push_char(s, '-');
        let m: u64 = if n == i64::MIN {
            9223372036854775808u64
        } else {
            (-n) as u64
        };
        push_decimal(s, m);
    } else {
        push_decimal(s, n as u64);
    }
}

/// A copy of the literal or slice `s` as an owned string.
pub fn owned(s: &str) -> (r: String)
    ensures
        r@ == s@,
{
    String::from_str(s)
}

} // verus!
