//! Decimal numerals: how numbers are written and read.

use vstd::prelude::*;
use crate::text::{chars_of, string_of};

verus! {

/// The character for the digit `d`.
pub open spec fn digit_char(d: nat) -> char {
    (48 + d) as char
}

/// The numeral of `n`, without leading zeros.
pub open spec fn decimal(n: nat) -> Seq<char>
    decreases n,
{
    if n < 10 {
        seq![digit_char(n)]
    } else {
        decimal(n / 10).push(digit_char(n % 10))
    }
}

/// Whether `c` is one of the ten ASCII digits.
pub open spec fn is_digit(c: char) -> bool {
    '0' <= c <= '9'
}

/// Whether `s` holds nothing but digits.
pub open spec fn all_digits(s: Seq<char>) -> bool {
    forall|i: int| 0 <= i < s.len() ==> is_digit(#[trigger] s[i])
}

/// The number that a text of digits stands for.
pub open spec fn digits_value(s: Seq<char>) -> nat
    decreases s.len(),
{
    if s.len() == 0 {
        0
    } else {
        digits_value(s.drop_last()) * 10 + (s.last() as nat - 48) as nat
    }
}

/// What a plus sign at the front leaves.
pub open spec fn unsigned_body(s: Seq<char>) -> Seq<char> {
    if s.len() > 0 && s[0] == '+' {
        s.skip(1)
    } else {
        s
    }
}

/// Whether `s` is a numeral: digits, at least one, with or without a plus sign.
pub open spec fn is_numeral(s: Seq<char>) -> bool {
    unsigned_body(s).len() > 0 && all_digits(unsigned_body(s))
}

/// The number of a text, where the text is a numeral of a number up to `max`.
pub open spec fn unsigned_value(s: Seq<char>, max: nat) -> Option<nat> {
    if is_numeral(s) && digits_value(unsigned_body(s)) <= max {
        Some(digits_value(unsigned_body(s)))
    } else {
        None
    }
}

/// The numeral of `n`.
pub fn u64_text(n: u64) -> (s: String)
    ensures
        s@ == decimal(n as nat),
    decreases n,
{
    if n < 10 {
        let mut s = String::new();
        let d: u8 = n as u8;
        s.push((48 + d) as char);
        assert(s@ =~= decimal(n as nat));
        s
    } else {
        let mut s = u64_text(n / 10);
        let d: u8 = (n % 10) as u8;
        s.push((48 + d) as char);
        s
    }
}

/// The numeral of a signed number.
pub open spec fn signed_decimal(n: int) -> Seq<char> {
    if n < 0 {
        seq!['-'] + decimal((-n) as nat)
    } else {
        decimal(n as nat)
    }
}

/// The numeral of a signed number.
pub fn i64_text(n: i64) -> (s: String)
    ensures
        s@ == signed_decimal(n as int),
{
    if n < 0 {
        let magnitude: u64 = if n == i64::MIN {
            0x8000_0000_0000_0000
        } else {
            (-n) as u64
        };
        let digits = u64_text(magnitude);
        let mut s = String::new();
        s.push('-');
        s.append(digits.as_str());
        assert(s@ =~= signed_decimal(n as int));
        s
    } else {
        u64_text(n as u64)
    }
}

proof fn lemma_prefix_value(s: Seq<char>, i: int)
    requires
        0 <= i <= s.len(),
        all_digits(s),
    ensures
        digits_value(s.take(i)) <= digits_value(s),
    decreases s.len() - i,
{
    if i < s.len() {
        lemma_prefix_value(s, i + 1);
        let t = s.take(i + 1);
        assert(t.drop_last() =~= s.take(i));
        assert(is_digit(s[i]));
    } else {
        assert(s.take(i) =~= s);
    }
}

/// Why a text is no numeral of a number in range.
#[derive(Debug, Clone, Copy, PartialEq, Eq, Structural)]
pub enum IntError {
    /// There is no text.
    Empty,
    /// A character is no digit, or there is no digit.
    InvalidDigit,
    /// The number is too large.
    Overflow,
}

impl IntError {
    /// The message of the error.
    pub open spec fn message(self) -> Seq<char> {
        match self {
            IntError::Empty => "cannot parse integer from empty string"@,
            IntError::InvalidDigit => "invalid digit found in string"@,
            IntError::Overflow => "number too large to fit in target type"@,
        }
    }

    /// The message of the error.
    pub fn as_str(self) -> (r: &'static str)
        ensures
            r@ == self.message(),
    {
        match self {
            IntError::Empty => "cannot parse integer from empty string",
            IntError::InvalidDigit => "invalid digit found in string",
            IntError::Overflow => "number too large to fit in target type",
        }
    }
}

/// How many digits `s` begins with.
pub open spec fn digit_run(s: Seq<char>) -> nat
    decreases s.len(),
{
    if s.len() > 0 && is_digit(s[0]) {
        1 + digit_run(s.skip(1))
    } else {
        0
    }
}

/// Why `s` is no numeral of a number up to `max`: a number that is too large already in the
/// digits at the front counts as too large whatever follows them.
pub open spec fn int_error(s: Seq<char>, max: nat) -> IntError {
    let body = unsigned_body(s);
    if s.len() == 0 {
        IntError::Empty
    } else if digits_value(body.take(digit_run(body) as int)) > max {
        IntError::Overflow
    } else {
        IntError::InvalidDigit
    }
}

proof fn lemma_digit_run(s: Seq<char>, i: int)
    requires
        0 <= i <= s.len(),
        forall|j: int| 0 <= j < i ==> is_digit(#[trigger] s[j]),
    ensures
        i <= digit_run(s) <= s.len(),
        all_digits(s.take(digit_run(s) as int)),
        i < s.len() && !is_digit(s[i]) ==> digit_run(s) == i,
    decreases s.len(),
{
    if s.len() > 0 && is_digit(s[0]) {
        let t = s.skip(1);
        let k = if i > 0 {
            i - 1
        } else {
            0
        };
        assert forall|j: int| 0 <= j < k implies is_digit(#[trigger] t[j]) by {
            assert(t[j] == s[j + 1]);
        }
        lemma_digit_run(t, k);
        let r = digit_run(s) as int;
        assert forall|j: int| 0 <= j < r implies is_digit(#[trigger] s.take(r)[j]) by {
            if j > 0 {
                assert(s.take(r)[j] == t.take(r - 1)[j - 1]);
            }
        }
    } else {
        assert(s.take(0).len() == 0);
    }
}

/// Reads an unsigned numeral up to `max`: digits, at least one, with or without a plus sign.
pub fn parse_unsigned(s: &str, max: u64) -> (r: Result<u64, IntError>)
    ensures
        match r {
            Ok(n) => unsigned_value(s@, max as nat) == Some(n as nat),
            Err(e) => unsigned_value(s@, max as nat) is None && e == int_error(s@, max as nat),
        },
{
    let v = chars_of(s);
    if v.len() == 0 {
        return Err(IntError::Empty);
    }
    let start: usize = if v[0] == '+' {
        1
    } else {
        0
    };
    let ghost body = unsigned_body(s@);
    assert(body =~= v@.skip(start as int));
    let mut i: usize = start;
    let mut n: u64 = 0;
    assert(body.take(0) =~= Seq::<char>::empty());
    if start == v.len() {
        return Err(IntError::InvalidDigit);
    }
    while i < v.len()
        invariant
            start <= i <= v@.len(),
            v@ == s@,
            v@.len() > 0,
            body == v@.skip(start as int),
            body == unsigned_body(s@),
            forall|j: int| 0 <= j < i - start ==> is_digit(#[trigger] body[j]),
            n as nat == digits_value(body.take(i - start)),
            n <= max,
        decreases v.len() - i,
    {
        let c = v[i];
        assert(body[i - start] == c);
        if !('0' <= c && c <= '9') {
            proof {
                assert(!is_digit(body[i - start]));
                lemma_digit_run(body, i - start);
            }
            return Err(IntError::InvalidDigit);
        }
        let d: u64 = (c as u32 - 48) as u64;
        let ghost t = body.take(i - start + 1);
        proof {
            assert(t.drop_last() =~= body.take(i - start));
            assert(digits_value(t) == n * 10 + d);
            lemma_digit_run(body, i - start + 1);
            let run = body.take(digit_run(body) as int);
            lemma_prefix_value(run, i - start + 1);
            assert(run.take(i - start + 1) =~= t);
            if all_digits(body) {
                lemma_prefix_value(body, i - start + 1);
            }
        }
        if d > max || n > (max - d) / 10 {
            assert(n * 10 + d > max);
            return Err(IntError::Overflow);
        }
        n = n * 10 + d;
        i += 1;
    }
    assert(body.take(body.len() as int) =~= body);
    Ok(n)
}

/// The number of a signed numeral in the range of `i64`: digits, at least one, with or
/// without a sign.
pub open spec fn signed_value(s: Seq<char>) -> Option<int> {
    if s.len() > 0 && s[0] == '-' {
        let body = s.skip(1);
        if body.len() > 0 && all_digits(body) && digits_value(body) <= 0x8000_0000_0000_0000 {
            Some(-(digits_value(body) as int))
        } else {
            None
        }
    } else {
        match unsigned_value(s, i64::MAX as nat) {
            Some(n) => Some(n as int),
            None => None,
        }
    }
}

/// Reads a signed numeral in the range of `i64`.
pub fn parse_signed(s: &str) -> (r: Option<i64>)
    ensures
        match r {
            Some(n) => signed_value(s@) == Some(n as int),
            None => signed_value(s@) is None,
        },
{
    let v = chars_of(s);
    if v.len() > 0 && v[0] == '-' {
        let body = string_of(&v, 1, v.len());
        assert(body@ =~= s@.skip(1));
        if v.len() > 1 && v[1] == '+' {
            assert(!is_digit(body@[0]));
            return None;
        }
        match parse_unsigned(body.as_str(), 0x8000_0000_0000_0000) {
            Ok(n) => {
                if n == 0x8000_0000_0000_0000 {
                    Some(i64::MIN)
                } else {
                    Some(-(n as i64))
                }
            },
            Err(_) => None,
        }
    } else {
        match parse_unsigned(s, 0x7fff_ffff_ffff_ffff) {
            Ok(n) => Some(n as i64),
            Err(_) => None,
        }
    }
}

proof fn lemma_decimal_digits(n: nat)
    ensures
        decimal(n).len() >= 1,
        all_digits(decimal(n)),
        digits_value(decimal(n)) == n,
        n > 0 ==> decimal(n)[0] != '0',
        n == 0 ==> decimal(n) =~= seq!['0'],
    decreases n,
{
    if n < 10 {
        let s = decimal(n);
        assert(s.drop_last() =~= Seq::<char>::empty());
        assert(digits_value(Seq::<char>::empty()) == 0);
    } else {
        lemma_decimal_digits(n / 10);
        let p = decimal(n / 10);
        let s = decimal(n);
        assert(s.drop_last() =~= p);
        assert forall|i: int| 0 <= i < s.len() implies is_digit(#[trigger] s[i]) by {
            if i < p.len() {
                assert(s[i] == p[i]);
                assert(is_digit(p[i]));
            }
        }
    }
}

/// A text of digits without a leading zero is the numeral of its number.
pub proof fn lemma_canonical_numeral(s: Seq<char>)
    requires
        s.len() > 0,
        all_digits(s),
        s.len() > 1 ==> s[0] != '0',
    ensures
        s == decimal(digits_value(s)),
        s.len() > 1 ==> digits_value(s) > 0,
    decreases s.len(),
{
    let p = s.drop_last();
    assert(is_digit(s.last()));
    if s.len() == 1 {
        assert(digits_value(p) == 0);
        assert(digits_value(s) == s[0] as nat - 48);
        assert(s =~= seq![digit_char(digits_value(s))]);
    } else {
        assert forall|i: int| 0 <= i < p.len() implies is_digit(#[trigger] p[i]) by {
            assert(p[i] == s[i]);
            assert(is_digit(s[i]));
        }
        lemma_canonical_numeral(p);
        if p.len() == 1 {
            assert(is_digit(s[0]));
            assert(p.drop_last() =~= Seq::<char>::empty());
            assert(digits_value(p) == (p.last() as nat - 48) as nat + 10 * digits_value(p.drop_last()));
            assert(digits_value(p) > 0);
        }
        assert(digits_value(s) / 10 == digits_value(p));
        assert(s =~= decimal(digits_value(s)));
    }
}

/// Reading a written number gives the number back, and a numeral is digits only,
/// without a leading zero except for zero itself.
pub proof fn lemma_decimal_round_trip(n: nat, max: nat)
    requires
        n <= max,
    ensures
        unsigned_value(decimal(n), max) == Some(n),
        all_digits(decimal(n)),
        decimal(n).len() >= 1,
        n > 0 ==> decimal(n)[0] != '0',
{
    lemma_decimal_digits(n);
    assert(is_digit(decimal(n)[0]));
    assert(unsigned_body(decimal(n)) == decimal(n));
}

} // verus!
