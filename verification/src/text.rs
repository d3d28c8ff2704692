//! Character-level text helpers: Unicode whitespace, trimming, decimal
//! rendering of integers and the truncation used for one-line snippets.
use vstd::prelude::*;

verus! {

/// `String::push` appends one character at the end of the string.
pub assume_specification[ String::push ](s: &mut String, ch: char)
    ensures
        final(s)@ == old(s)@.push(ch),
;

/// Whether `c` has the Unicode `White_Space` property (the set that
/// `char::is_whitespace`, `str::trim` and `str::trim_end` use).
pub open spec fn spec_is_whitespace(c: char) -> bool {
    let u = c as u32;
    ||| 0x09 <= u <= 0x0D
    ||| u == 0x20
    ||| u == 0x85
    ||| u == 0xA0
    ||| u == 0x1680
    ||| 0x2000 <= u <= 0x200A
    ||| u == 0x2028
    ||| u == 0x2029
    ||| u == 0x202F
    ||| u == 0x205F
    ||| u == 0x3000
}

/// `s` without its trailing whitespace.
pub open spec fn spec_trim_end(s: Seq<char>) -> Seq<char>
    decreases s.len(),
{
    if s.len() > 0 && spec_is_whitespace(s.last()) {
        spec_trim_end(s.drop_last())
    } else {
        s
    }
}

/// `s` without its leading whitespace.
pub open spec fn spec_trim_start(s: Seq<char>) -> Seq<char>
    decreases s.len(),
{
    if s.len() > 0 && spec_is_whitespace(s[0]) {
        spec_trim_start(s.drop_first())
    } else {
        s
    }
}

/// `s` without leading and trailing whitespace.
pub open spec fn spec_trim(s: Seq<char>) -> Seq<char> {
    spec_trim_end(spec_trim_start(s))
}

/// The character of a decimal digit.
pub open spec fn spec_digit_char(d: nat) -> char {
    if d == 0 { '0' }
    else if d == 1 { '1' }
    else if d == 2 { '2' }
    else if d == 3 { '3' }
    else if d == 4 { '4' }
    else if d == 5 { '5' }
    else if d == 6 { '6' }
    else if d == 7 { '7' }
    else if d == 8 { '8' }
    else { '9' }
}

/// The decimal digits of `n`, most significant first, without leading zeros.
pub open spec fn spec_digits(n: nat) -> Seq<char>
    decreases n,
{
    if n < 10 {
        seq![spec_digit_char(n)]
    } else {
        spec_digits(n / 10).push(spec_digit_char(n % 10))
    }
}

/// The decimal text of `i`, as `Display` writes an integer.
pub open spec fn spec_decimal(i: int) -> Seq<char> {
    if i < 0 {
        seq!['-'] + spec_digits((-i) as nat)
    } else {
        spec_digits(i as nat)
    }
}

/// `s` trimmed, then cut to `max` characters with an ellipsis when longer.
pub open spec fn spec_truncate(s: Seq<char>, max: nat) -> Seq<char> {
    let t = spec_trim(s);
    if t.len() <= max {
        t
    } else {
        t.take(max as int).push('…')
    }
}

pub fn is_whitespace(c: char) -> (r: bool)
    ensures
        r == spec_is_whitespace(c),
{
    let u = c as u32;
    (0x09 <= u && u <= 0x0D) || u == 0x20 || u == 0x85 || u == 0xA0 || u == 0x1680 || (0x2000
        <= u && u <= 0x200A) || u == 0x2028 || u == 0x2029 || u == 0x202F || u == 0x205F || u
        == 0x3000
}

/// The characters of `s`.
pub fn chars_of(s: &str) -> (r: Vec<char>)
    ensures
        r@ == s@,
{
    let mut r: Vec<char> = Vec::new();
    for c in it: s.chars()
        invariant
            r@ == it.seq().take(it.index() as int),
    {
        r.push(c);
    }
    r
}

/// Whether two strings hold the same characters.
pub fn str_eq(a: &str, b: &str) -> (r: bool)
    ensures
        r == (a@ == b@),
{
    let x = chars_of(a);
    let y = chars_of(b);
    if x.len() != y.len() {
        return false;
    }
    let mut i: usize = 0;
    while i < x.len()
        invariant
            x@ == a@,
            y@ == b@,
            x.len() == y.len(),
            i <= x.len(),
            forall|j: int| 0 <= j < i ==> x@[j] == y@[j],
        decreases x.len() - i,
    {
        if x[i] != y[i] {
            return false;
        }
        i += 1;
    }
    assert(x@ =~= y@);
    true
}

proof fn lemma_trim_end_index(s: Seq<char>, k: int)
    requires
        0 <= k <= s.len(),
        forall|j: int| k <= j < s.len() ==> spec_is_whitespace(#[trigger] s[j]),
    ensures
        spec_trim_end(s) == spec_trim_end(s.take(k)),
    decreases s.len() - k,
{
    if k < s.len() {
        assert(s.drop_last() =~= s.take(s.len() - 1));
        assert(s.take(s.len() - 1).take(k) =~= s.take(k));
        lemma_trim_end_index(s.drop_last(), k);
    } else {
        assert(s.take(k) =~= s);
    }
}

proof fn lemma_trim_start_index(s: Seq<char>, k: int)
    requires
        0 <= k <= s.len(),
        forall|j: int| 0 <= j < k ==> spec_is_whitespace(#[trigger] s[j]),
    ensures
        spec_trim_start(s) == spec_trim_start(s.skip(k)),
    decreases k,
{
    if k > 0 {
        assert(s.drop_first().skip(k - 1) =~= s.skip(k));
        assert forall|j: int| 0 <= j < k - 1 implies spec_is_whitespace(#[trigger] s.drop_first()[j]) by {
            assert(s.drop_first()[j] == s[j + 1]);
        }
        lemma_trim_start_index(s.drop_first(), k - 1);
    } else {
        assert(s.skip(0) =~= s);
    }
}

/// Index one past the last non-whitespace character of `c`, or 0.
fn end_of_content(c: &Vec<char>) -> (k: usize)
    ensures
        k <= c.len(),
        spec_trim_end(c@) == c@.take(k as int),
{
    let mut k = c.len();
    while k > 0 && is_whitespace(c[k - 1])
        invariant
            k <= c.len(),
            forall|j: int| k <= j < c.len() ==> spec_is_whitespace(#[trigger] c@[j]),
        decreases k,
    {
        k -= 1;
    }
    proof {
        lemma_trim_end_index(c@, k as int);
        let t = c@.take(k as int);
        if t.len() > 0 {
            assert(t.last() == c@[k - 1]);
        }
    }
    k
}

/// `s` without its trailing whitespace.
pub fn trim_end(s: &str) -> (r: &str)
    ensures
        r@ == spec_trim_end(s@),
{
    let c = chars_of(s);
    let k = end_of_content(&c);
    s.substring_char(0, k)
}

/// `s` without leading and trailing whitespace.
pub fn trim(s: &str) -> (r: &str)
    ensures
        r@ == spec_trim(s@),
{
    let c = chars_of(s);
    let mut i: usize = 0;
    while i < c.len() && is_whitespace(c[i])
        invariant
            i <= c.len(),
            forall|j: int| 0 <= j < i ==> spec_is_whitespace(#[trigger] c@[j]),
        decreases c.len() - i,
    {
        i += 1;
    }
    let ghost t = c@.skip(i as int);
    proof {
        lemma_trim_start_index(c@, i as int);
        if t.len() > 0 {
            assert(t[0] == c@[i as int]);
        }
    }
    let mut k = c.len();
    while k > i && is_whitespace(c[k - 1])
        invariant
            i <= k <= c.len(),
            t == c@.skip(i as int),
            forall|j: int| k <= j < c.len() ==> spec_is_whitespace(#[trigger] c@[j]),
        decreases k,
    {
        k -= 1;
    }
    proof {
        assert forall|j: int| k - i <= j < t.len() implies spec_is_whitespace(#[trigger] t[j]) by {
            assert(t[j] == c@[i + j]);
        }
        lemma_trim_end_index(t, k - i);
        let u = t.take(k - i);
        if u.len() > 0 {
            assert(u.last() == c@[k - 1]);
        }
        assert(u =~= c@.subrange(i as int, k as int));
    }
    s.substring_char(i, k)
}

fn digit_char(d: u64) -> (c: char)
    requires
        d < 10,
    ensures
        c == spec_digit_char(d as nat),
{
    if d == 0 { '0' }
    else if d == 1 { '1' }
    else if d == 2 { '2' }
    else if d == 3 { '3' }
    else if d == 4 { '4' }
    else if d == 5 { '5' }
    else if d == 6 { '6' }
    else if d == 7 { '7' }
    else if d == 8 { '8' }
    else { '9' }
}

/// Appends the decimal digits of `n`.
pub fn push_digits(out: &mut String, n: u64)
    ensures
        final(out)@ == old(out)@ + spec_digits(n as nat),
    decreases n,
{
    if n < 10 {
        out.push(digit_char(n));
        assert(old(out)@.push(spec_digit_char(n as nat)) =~= old(out)@ + spec_digits(n as nat));
    } else {
        push_digits(out, n / 10);
        out.push(digit_char(n % 10));
        assert(old(out)@ + spec_digits((n / 10) as nat) + seq![spec_digit_char((n % 10) as nat)]
            =~= old(out)@ + spec_digits(n as nat));
    }
}

/// Appends the decimal text of `n`, as `Display` writes it.
pub fn push_decimal(out: &mut String, n: i64)
    ensures
        final(out)@ == old(out)@ + spec_decimal(n as int),
{
    if n < 0 {
        out.push('-');
        let m: u64 = if n == i64::MIN {
            9223372036854775808u64
        } else {
            (-n) as u64
        };
        push_digits(out, m);
        assert(old(out)@.push('-') + spec_digits(m as nat) =~= old(out)@ + (seq!['-'] + spec_digits(m as nat)));
    } else {
        push_digits(out, n as u64);
    }
}

/// The trimmed text of `s`, cut to `max` characters followed by `…` when it
/// is longer.
pub fn truncate(s: &str, max: usize) -> (r: String)
    ensures
        r@ == spec_truncate(s@, max as nat),
{
    let t = trim(s);
    let count = t.unicode_len();
    let mut r = String::new();
    if count <= max {
        r.append(t);
    } else {
        r.append(t.substring_char(0, max));
        r.push('…');
    }
    r
}

} // verus!
