use vstd::prelude::*;
use vstd::string::StrSliceExecFns;

verus! {

/// An ASCII decimal digit.
pub open spec fn is_digit(c: char) -> bool {
    '0' <= c && c <= '9'
}

/// Every character of `t` is an ASCII digit.
pub open spec fn all_digits(t: Seq<char>) -> bool {
    forall|i: int| 0 <= i < t.len() ==> is_digit(#[trigger] t[i])
}

/// The number of ASCII digits with which `t` begins.
pub open spec fn leading_digits(t: Seq<char>) -> nat
    decreases t.len(),
{
    if t.len() > 0 && is_digit(t[0]) {
        1 + leading_digits(t.drop_first())
    } else {
        0
    }
}

/// The value of a string of ASCII digits, read in base ten.
pub open spec fn digits_value(t: Seq<char>) -> nat
    decreases t.len(),
{
    if t.len() == 0 {
        0
    } else {
        digits_value(t.drop_last()) * 10 + ((t.last() as nat) - ('0' as nat)) as nat
    }
}

/// The shortest decimal writing of `n`.
pub open spec fn decimal(n: nat) -> Seq<char>
    decreases n,
{
    if n < 10 {
        seq![digit_char(n)]
    } else {
        decimal(n / 10).push(digit_char(n % 10))
    }
}

pub open spec fn digit_char(d: nat) -> char {
    ((d + ('0' as nat)) as u32) as char
}

/// `k` digits at the front of `t`, then a non-digit or the end, give
/// `leading_digits(t) == k`.
pub proof fn lemma_leading_digits(t: Seq<char>, k: int)
    requires
        0 <= k <= t.len(),
        forall|i: int| 0 <= i < k ==> is_digit(#[trigger] t[i]),
        k == t.len() || !is_digit(t[k]),
    ensures
        leading_digits(t) == k,
    decreases k,
{
    if k > 0 {
        lemma_leading_digits(t.drop_first(), k - 1);
    }
}

/// A string of digits is never worth less than one of its prefixes.
pub proof fn lemma_value_prefix_monotone(t: Seq<char>, i: int)
    requires
        all_digits(t),
        0 <= i <= t.len(),
    ensures
        digits_value(t.take(i)) <= digits_value(t),
    decreases t.len() - i,
{
    if i < t.len() {
        lemma_value_prefix_monotone(t, i + 1);
        assert(t.take(i + 1).drop_last() =~= t.take(i));
        assert(is_digit(t[i]));
    }
    assert(t.take(t.len() as int) =~= t);
}

/// The writing of a number is a non-empty run of digits worth that number.
pub proof fn lemma_decimal(n: nat)
    ensures
        decimal(n).len() > 0,
        all_digits(decimal(n)),
        digits_value(decimal(n)) == n,
    decreases n,
{
    if n < 10 {
        assert(digits_value(decimal(n).drop_last()) == 0) by {
            assert(decimal(n).drop_last() =~= Seq::<char>::empty());
        }
    } else {
        lemma_decimal(n / 10);
        let d = decimal(n);
        assert(d.drop_last() =~= decimal(n / 10));
        assert forall|i: int| 0 <= i < d.len() implies is_digit(#[trigger] d[i]) by {
            if i < d.len() - 1 {
                assert(d[i] == decimal(n / 10)[i]);
            }
        }
    }
}

/// Reads a non-empty run of ASCII digits as an `i32`; `None` where the
/// value does not fit.
pub fn parse_i32_digits(t: &[char]) -> (r: Option<i32>)
    requires
        all_digits(t@),
    ensures
        r is Some <==> digits_value(t@) <= i32::MAX,
        r matches Some(v) ==> v as int == digits_value(t@),
{
    let mut v: i32 = 0;
    let mut i: usize = 0;
    while i < t.len()
        invariant
            all_digits(t@),
            0 <= i <= t.len(),
            v as int == digits_value(t@.take(i as int)),
        decreases t.len() - i,
    {
        assert(t@.take(i as int + 1).drop_last() =~= t@.take(i as int));
        assert(is_digit(t@[i as int]));
        let d: i32 = (t[i] as u32 - '0' as u32) as i32;
        if v > (i32::MAX - d) / 10 {
            proof {
                lemma_value_prefix_monotone(t@, i as int + 1);
            }
            return None;
        }
        v = v * 10 + d;
        i = i + 1;
    }
    assert(t@.take(i as int) =~= t@);
    Some(v)
}

/// The characters of a string, one for each element.
pub fn chars_of(s: &str) -> (r: Vec<char>)
    ensures
        r@ == s@,
{
    let n = s.unicode_len();
    let mut r: Vec<char> = Vec::new();
    let mut i: usize = 0;
    while i < n
        invariant
            n == s@.len(),
            0 <= i <= n,
            r@ == s@.take(i as int),
        decreases n - i,
    {
        r.push(s.get_char(i));
        i = i + 1;
        assert(r@ =~= s@.take(i as int));
    }
    assert(s@.take(n as int) =~= s@);
    r
}

} // verus!
