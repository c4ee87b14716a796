//! Reading a duration given in microseconds as a decimal string.
//!
//! The accepted text is what `u64`'s `FromStr` accepts: an optional leading
//! `+` followed by one or more ASCII digits, whose value fits in a `u64`.
use vstd::prelude::*;
use vstd::string::StringSliceAdditionalSpecFns;

verus! {

/// Why a duration string was not accepted.
#[derive(Debug, Clone, Copy, PartialEq, Eq, Structural)]
pub enum ParseFault {
    /// The string is empty.
    Empty,
    /// A byte that is not a decimal digit stands before the value grew too large.
    InvalidDigit,
    /// The digits read so far no longer fit in a `u64`.
    PosOverflow,
}

pub open spec fn is_digit(b: u8) -> bool {
    48 <= b <= 57
}

/// The value of a sequence of decimal digits, most significant first.
pub open spec fn digits_value(s: Seq<u8>) -> nat
    decreases s.len(),
{
    if s.len() == 0 {
        0
    } else {
        digits_value(s.drop_last()) * 10 + (s.last() - 48) as nat
    }
}

/// The number of decimal digits at the front of `s`.
pub open spec fn digit_run(s: Seq<u8>) -> nat
    decreases s.len(),
{
    if s.len() == 0 || !is_digit(s[0]) {
        0
    } else {
        1 + digit_run(s.drop_first())
    }
}

/// `s` without a leading `+`.
pub open spec fn unsigned_body(s: Seq<u8>) -> Seq<u8> {
    if s.len() > 0 && s[0] == 43 {
        s.drop_first()
    } else {
        s
    }
}

/// The outcome of reading `s`, scanning the digits from left to right: the
/// first fault met decides the error.
pub open spec fn parse_spec(s: Seq<u8>) -> Result<u64, ParseFault> {
    let body = unsigned_body(s);
    let run = digit_run(body);
    if s.len() == 0 {
        Err(ParseFault::Empty)
    } else if body.len() == 0 {
        Err(ParseFault::InvalidDigit)
    } else if digits_value(body.take(run as int)) > u64::MAX {
        Err(ParseFault::PosOverflow)
    } else if run < body.len() {
        Err(ParseFault::InvalidDigit)
    } else {
        Ok(digits_value(body) as u64)
    }
}

/// The shortest decimal writing of `n`.
pub open spec fn decimal(n: nat) -> Seq<u8>
    decreases n,
{
    if n < 10 {
        seq![(48 + n) as u8]
    } else {
        decimal(n / 10).push((48 + n % 10) as u8)
    }
}

proof fn lemma_digit_run_bounds(s: Seq<u8>, i: int)
    requires
        0 <= i <= s.len(),
        forall|j: int| 0 <= j < i ==> is_digit(#[trigger] s[j]),
    ensures
        i <= digit_run(s) <= s.len(),
        i < s.len() && !is_digit(s[i]) ==> digit_run(s) == i,
    decreases i,
{
    reveal_with_fuel(digit_run, 2);
    if i > 0 {
        let t = s.drop_first();
        assert forall|j: int| 0 <= j < i - 1 implies is_digit(#[trigger] t[j]) by {
            assert(t[j] == s[j + 1]);
        }
        lemma_digit_run_bounds(t, i - 1);
    } else {
        lemma_digit_run_le_len(s);
    }
}

proof fn lemma_digit_run_le_len(s: Seq<u8>)
    ensures
        digit_run(s) <= s.len(),
    decreases s.len(),
{
    if s.len() > 0 && is_digit(s[0]) {
        lemma_digit_run_le_len(s.drop_first());
    }
}

/// A longer run of digits is worth at least as much as its prefix.
proof fn lemma_value_grows(s: Seq<u8>, i: int, k: int)
    requires
        0 <= i <= k <= s.len(),
        forall|j: int| 0 <= j < k ==> is_digit(#[trigger] s[j]),
    ensures
        digits_value(s.take(i)) <= digits_value(s.take(k)),
    decreases k - i,
{
    if i < k {
        lemma_value_grows(s, i, k - 1);
        assert(s.take(k).drop_last() =~= s.take(k - 1));
    }
}

/// One more digit multiplies the value read so far by ten and adds itself.
proof fn lemma_value_of_take(s: Seq<u8>, i: int)
    requires
        0 <= i < s.len(),
    ensures
        digits_value(s.take(i + 1)) == digits_value(s.take(i)) * 10 + (s[i] - 48) as nat,
{
    assert(s.take(i + 1).drop_last() =~= s.take(i));
}

/// Reads a duration in microseconds from its decimal writing.
pub fn parse_micros(text: &str) -> (r: Result<u64, ParseFault>)
    ensures
        r == parse_spec(text.spec_bytes()),
{
    let bytes = text.as_bytes();
    let n = bytes.len();
    if n == 0 {
        return Err(ParseFault::Empty);
    }
    let ghost s = bytes@;
    assert(s == text.spec_bytes());
    let ghost body = unsigned_body(s);
    let start: usize = if bytes[0] == 43u8 { 1 } else { 0 };
    assert(body =~= s.subrange(start as int, n as int));
    if start == n {
        return Err(ParseFault::InvalidDigit);
    }
    let mut acc: u64 = 0;
    let mut i: usize = start;
    while i < n
        invariant
            bytes@ == s,
            s == text.spec_bytes(),
            body == unsigned_body(s),
            n == s.len(),
            start <= i <= n,
            body =~= s.subrange(start as int, n as int),
            forall|j: int| 0 <= j < i - start ==> is_digit(#[trigger] body[j]),
            acc == digits_value(body.take(i - start)),
        decreases n - i,
    {
        let b = bytes[i];
        let ghost k: int = i - start;
        assert(body[k] == b);
        if b < 48u8 || b > 57u8 {
            proof {
                assert(!is_digit(body[k]));
                lemma_digit_run_bounds(body, k);
                assert(body.take(digit_run(body) as int) =~= body.take(k));
            }
            return Err(ParseFault::InvalidDigit);
        }
        proof {
            lemma_value_of_take(body, k);
            assert(is_digit(body[k]));
        }
        let d = (b - 48u8) as u64;
        match acc.checked_mul(10) {
            Some(m) => match m.checked_add(d) {
                Some(v) => {
                    acc = v;
                },
                None => {
                    proof {
                        lemma_overflow_decides(body, k);
                    }
                    return Err(ParseFault::PosOverflow);
                },
            },
            None => {
                proof {
                    lemma_overflow_decides(body, k);
                }
                return Err(ParseFault::PosOverflow);
            },
        }
        i = i + 1;
    }
    proof {
        lemma_digit_run_bounds(body, body.len() as int);
        assert(body.take(body.len() as int) =~= body);
    }
    Ok(acc)
}

/// Once the digits up to `k` are worth more than `u64::MAX`, so is the whole
/// leading run of digits.
proof fn lemma_overflow_decides(body: Seq<u8>, k: int)
    requires
        0 <= k < body.len(),
        forall|j: int| 0 <= j <= k ==> is_digit(#[trigger] body[j]),
        digits_value(body.take(k + 1)) > u64::MAX,
    ensures
        digits_value(body.take(digit_run(body) as int)) > u64::MAX,
{
    lemma_digit_run_bounds(body, k + 1);
    let run = digit_run(body) as int;
    assert forall|j: int| 0 <= j < run implies is_digit(#[trigger] body[j]) by {
        lemma_run_is_digits(body, j);
    }
    lemma_value_grows(body, k + 1, run);
}

proof fn lemma_run_is_digits(s: Seq<u8>, j: int)
    requires
        0 <= j < digit_run(s),
    ensures
        is_digit(s[j]),
    decreases j,
{
    lemma_digit_run_le_len(s);
    if j > 0 {
        lemma_run_is_digits(s.drop_first(), j - 1);
        assert(s.drop_first()[j - 1] == s[j]);
    }
}

proof fn lemma_decimal_digits(n: nat)
    ensures
        decimal(n).len() > 0,
        forall|j: int| 0 <= j < decimal(n).len() ==> is_digit(#[trigger] decimal(n)[j]),
        digits_value(decimal(n)) == n,
    decreases n,
{
    let d = decimal(n);
    assert(digits_value(d) == digits_value(d.drop_last()) * 10 + (d.last() - 48) as nat);
    if n < 10 {
        assert(d.drop_last() =~= Seq::<u8>::empty());
        assert(d.last() == (48 + n) as u8);
    } else {
        lemma_decimal_digits(n / 10);
        assert(decimal(n).drop_last() =~= decimal(n / 10));
        assert(decimal(n).last() == (48 + n % 10) as u8);
        assert(n == (n / 10) * 10 + n % 10);
    }
}

/// Writing any `u64` in decimal and reading it back gives the same number.
pub proof fn lemma_decimal_round_trip(n: u64)
    ensures
        parse_spec(decimal(n as nat)) == Ok::<u64, ParseFault>(n),
{
    let s = decimal(n as nat);
    lemma_decimal_digits(n as nat);
    assert(unsigned_body(s) == s);
    lemma_digit_run_bounds(s, s.len() as int);
    assert(s.take(s.len() as int) =~= s);
}

/// Where a byte that is no digit stands in `s`, the leading run of digits
/// ends at or before it.
proof fn lemma_run_before_non_digit(s: Seq<u8>, j: int)
    requires
        0 <= j < s.len(),
        !is_digit(s[j]),
    ensures
        digit_run(s) < s.len(),
{
    lemma_digit_run_le_len(s);
    if digit_run(s) == s.len() {
        lemma_run_is_digits(s, j);
    }
}

/// Whether `t` is the decimal writing of a non-negative integer: one or more
/// digits, after an optional `+`.
pub open spec fn is_plain_number(t: Seq<u8>) -> bool {
    let body = unsigned_body(t);
    &&& body.len() > 0
    &&& forall|j: int| 0 <= j < body.len() ==> is_digit(#[trigger] body[j])
}

/// Text that is not the writing of a non-negative integer (a negative number
/// among it) is refused.
pub proof fn lemma_not_number_is_rejected(t: Seq<u8>)
    requires
        !is_plain_number(t),
    ensures
        parse_spec(t) is Err,
{
    let body = unsigned_body(t);
    if t.len() > 0 && body.len() > 0 {
        let j = choose|j: int| 0 <= j < body.len() && !is_digit(#[trigger] body[j]);
        lemma_run_before_non_digit(body, j);
    }
}

} // verus!
