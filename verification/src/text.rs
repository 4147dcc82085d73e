//! Reading git's textual output: whitespace trimming and decimal counts,
//! with the same meaning as `str::trim` and `usize::from_str`.

use vstd::prelude::*;

verus! {

/// The Unicode `White_Space` property, which `char::is_whitespace` and
/// `str::trim` go by.
pub open spec fn is_white_space(c: char) -> bool {
    ||| ('\u{9}' <= c && c <= '\u{d}')
    ||| c == ' '
    ||| c == '\u{85}'
    ||| c == '\u{a0}'
    ||| c == '\u{1680}'
    ||| ('\u{2000}' <= c && c <= '\u{200a}')
    ||| c == '\u{2028}'
    ||| c == '\u{2029}'
    ||| c == '\u{202f}'
    ||| c == '\u{205f}'
    ||| c == '\u{3000}'
}

/// Number of white-space characters at the front of `s`.
pub open spec fn leading_space(s: Seq<char>) -> nat
    decreases s.len(),
{
    if s.len() == 0 {
        0
    } else if is_white_space(s[0]) {
        1 + leading_space(s.drop_first())
    } else {
        0
    }
}

/// Number of white-space characters at the back of `s`.
pub open spec fn trailing_space(s: Seq<char>) -> nat
    decreases s.len(),
{
    if s.len() == 0 {
        0
    } else if is_white_space(s.last()) {
        1 + trailing_space(s.drop_last())
    } else {
        0
    }
}

/// `s` without its leading and trailing white space.
pub open spec fn trimmed(s: Seq<char>) -> Seq<char> {
    if leading_space(s) == s.len() {
        Seq::empty()
    } else {
        s.subrange(leading_space(s) as int, s.len() - trailing_space(s))
    }
}

/// `leading_space` is the least index of a non-space character.
proof fn lemma_leading_space_is_first(s: Seq<char>, k: nat)
    requires
        k <= s.len(),
        forall|i: int| 0 <= i < k ==> is_white_space(#[trigger] s[i]),
        k < s.len() ==> !is_white_space(s[k as int]),
    ensures
        leading_space(s) == k,
    decreases s.len(),
{
    if s.len() > 0 && k > 0 {
        assert(is_white_space(s[0]));
        assert forall|i: int| 0 <= i < k - 1 implies is_white_space(#[trigger] s.drop_first()[i]) by {
            assert(s.drop_first()[i] == s[i + 1]);
        }
        if k < s.len() {
            assert(s.drop_first()[k - 1] == s[k as int]);
        }
        lemma_leading_space_is_first(s.drop_first(), (k - 1) as nat);
    }
}

/// `trailing_space` is the length of the longest white-space suffix.
proof fn lemma_trailing_space_is_last(s: Seq<char>, k: nat)
    requires
        k <= s.len(),
        forall|i: int| s.len() - k <= i < s.len() ==> is_white_space(#[trigger] s[i]),
        k < s.len() ==> !is_white_space(s[s.len() - k - 1]),
    ensures
        trailing_space(s) == k,
    decreases s.len(),
{
    if s.len() > 0 && k > 0 {
        assert(is_white_space(s[s.len() - 1]));
        let t = s.drop_last();
        assert forall|i: int| t.len() - (k - 1) <= i < t.len() implies is_white_space(#[trigger] t[i]) by {
            assert(t[i] == s[i]);
        }
        if k < s.len() {
            assert(t[t.len() - (k - 1) - 1] == s[s.len() - k - 1]);
        }
        lemma_trailing_space_is_last(t, (k - 1) as nat);
    }
}

/// Runtime test of the Unicode `White_Space` property.
pub fn is_space(c: char) -> (b: bool)
    ensures
        b == is_white_space(c),
{
    ('\u{9}' <= c && c <= '\u{d}') || c == ' ' || c == '\u{85}' || c == '\u{a0}' || c == '\u{1680}'
        || ('\u{2000}' <= c && c <= '\u{200a}') || c == '\u{2028}' || c == '\u{2029}' || c
        == '\u{202f}' || c == '\u{205f}' || c == '\u{3000}'
}

/// `s` without leading and trailing white space (as `str::trim`).
pub fn trim(s: &str) -> (t: String)
    ensures
        t@ == trimmed(s@),
{
    let n = s.unicode_len();
    let mut a: usize = 0;
    while a < n && is_space(s.get_char(a))
        invariant
            n == s@.len(),
            a <= n,
            forall|i: int| 0 <= i < a ==> is_white_space(#[trigger] s@[i]),
        decreases n - a,
    {
        a = a + 1;
    }
    proof {
        lemma_leading_space_is_first(s@, a as nat);
    }
    if a == n {
        return String::new();
    }
    let mut b: usize = n;
    while b > a && is_space(s.get_char(b - 1))
        invariant
            n == s@.len(),
            a < n,
            !is_white_space(s@[a as int]),
            a <= b <= n,
            forall|i: int| b <= i < n ==> is_white_space(#[trigger] s@[i]),
        decreases b,
    {
        b = b - 1;
    }
    proof {
        lemma_trailing_space_is_last(s@, (n - b) as nat);
    }
    let part = s.substring_char(a, b);
    String::from_str(part)
}

/// Why a count could not be read, as `core::num::IntErrorKind` names it.
#[derive(Clone, Copy, Debug, PartialEq, Eq, Structural)]
pub enum CountError {
    /// The text is empty.
    Empty,
    /// A character is not a decimal digit (or the text is a lone sign).
    InvalidDigit,
    /// The number does not fit in a `usize`.
    PosOverflow,
}

/// How `core::num::ParseIntError` describes each kind of failure.
pub open spec fn count_error_text(k: CountError) -> Seq<char> {
    match k {
        CountError::Empty => "cannot parse integer from empty string"@,
        CountError::InvalidDigit => "invalid digit found in string"@,
        CountError::PosOverflow => "number too large to fit in target type"@,
    }
}

impl CountError {
    /// The description of this failure, as `ParseIntError` displays it.
    pub fn describe(&self) -> (t: String)
        ensures
            t@ == count_error_text(*self),
    {
        match self {
            CountError::Empty => String::from_str("cannot parse integer from empty string"),
            CountError::InvalidDigit => String::from_str("invalid digit found in string"),
            CountError::PosOverflow => String::from_str("number too large to fit in target type"),
        }
    }
}

pub open spec fn is_digit(c: char) -> bool {
    '0' <= c && c <= '9'
}

pub open spec fn digit_value(c: char) -> nat {
    (c as int - '0' as int) as nat
}

/// Reads `ds` left to right as decimal digits, stopping at the first
/// character that is no digit or at the first prefix too large for a `usize`.
pub open spec fn scan_digits(ds: Seq<char>) -> Result<nat, CountError>
    decreases ds.len(),
{
    if ds.len() == 0 {
        Ok(0)
    } else {
        match scan_digits(ds.drop_last()) {
            Err(e) => Err(e),
            Ok(v) => if !is_digit(ds.last()) {
                Err(CountError::InvalidDigit)
            } else if v * 10 + digit_value(ds.last()) > usize::MAX {
                Err(CountError::PosOverflow)
            } else {
                Ok(v * 10 + digit_value(ds.last()))
            },
        }
    }
}

/// What `usize::from_str` gives for `s`: an optional `+`, then decimal digits.
pub open spec fn count_of(s: Seq<char>) -> Result<nat, CountError> {
    if s.len() == 0 {
        Err(CountError::Empty)
    } else if s[0] == '+' {
        if s.len() == 1 {
            Err(CountError::InvalidDigit)
        } else {
            scan_digits(s.drop_first())
        }
    } else {
        scan_digits(s)
    }
}

/// Reads a decimal count (as `usize::from_str`).
pub fn parse_count(s: &str) -> (r: Result<usize, CountError>)
    ensures
        match (r, count_of(s@)) {
            (Ok(n), Ok(m)) => n == m,
            (Err(e), Err(f)) => e == f,
            _ => false,
        },
{
    let n = s.unicode_len();
    if n == 0 {
        return Err(CountError::Empty);
    }
    let mut start: usize = 0;
    if s.get_char(0) == '+' {
        if n == 1 {
            return Err(CountError::InvalidDigit);
        }
        start = 1;
    }
    let ghost ds = s@.subrange(start as int, n as int);
    assert(start == 1 ==> ds =~= s@.drop_first());
    assert(start == 0 ==> ds =~= s@);
    assert(count_of(s@) == scan_digits(ds));
    let mut acc: usize = 0;
    let mut i: usize = start;
    while i < n
        invariant
            n == s@.len(),
            start <= i <= n,
            ds == s@.subrange(start as int, n as int),
            count_of(s@) == scan_digits(ds),
            scan_digits(ds.take(i - start)) == Ok::<nat, CountError>(acc as nat),
        decreases n - i,
    {
        let c = s.get_char(i);
        let ghost pre = ds.take(i - start);
        let ghost next = ds.take(i + 1 - start);
        assert(next.drop_last() =~= pre);
        assert(next.last() == c);
        if !('0' <= c && c <= '9') {
            assert(scan_digits(next) == Err::<nat, CountError>(CountError::InvalidDigit));
            proof {
                lemma_prefix_error(ds, (i + 1 - start) as nat);
            }
            return Err(CountError::InvalidDigit);
        }
        let d = (c as u32 - '0' as u32) as usize;
        assert(d == digit_value(c));
        if acc > (usize::MAX - d) / 10 {
            assert(acc * 10 + d > usize::MAX) by (nonlinear_arith)
                requires
                    acc > (usize::MAX - d) / 10,
                    d <= 9,
            ;
            assert(scan_digits(next) == Err::<nat, CountError>(CountError::PosOverflow));
            proof {
                lemma_prefix_error(ds, (i + 1 - start) as nat);
            }
            return Err(CountError::PosOverflow);
        }
        assert(acc * 10 + d <= usize::MAX) by (nonlinear_arith)
            requires
                acc <= (usize::MAX - d) / 10,
                d <= 9,
        ;
        acc = acc * 10 + d;
        i = i + 1;
    }
    assert(ds.take(n - start) =~= ds);
    Ok(acc)
}

/// Once a prefix of the digits fails, the whole scan fails the same way.
proof fn lemma_prefix_error(ds: Seq<char>, k: nat)
    requires
        k <= ds.len(),
        scan_digits(ds.take(k as int)) is Err,
    ensures
        scan_digits(ds) == scan_digits(ds.take(k as int)),
    decreases ds.len() - k,
{
    if k < ds.len() {
        let next = ds.take((k + 1) as int);
        assert(next.drop_last() =~= ds.take(k as int));
        lemma_prefix_error(ds, k + 1);
    } else {
        assert(ds.take(k as int) =~= ds);
    }
}

} // verus!
