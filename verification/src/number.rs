//! Decimal and hexadecimal numbers as text.

use vstd::prelude::*;

verus! {

/// Why a text is not an unsigned decimal number.
#[derive(Debug, Clone, Copy, PartialEq, Eq, Structural)]
pub enum NumError {
    /// The text is empty.
    Empty,
    /// A character is not a digit, or a sign stands alone.
    InvalidDigit,
    /// The number does not fit in 64 bits.
    Overflow,
}

impl NumError {
    /// The message shown for the error.
    pub open spec fn message_spec(self) -> Seq<char> {
        match self {
            NumError::Empty => "cannot parse integer from empty string"@,
            NumError::InvalidDigit => "invalid digit found in string"@,
            NumError::Overflow => "number too large to fit in target type"@,
        }
    }

    /// The message shown for the error.
    pub fn message(&self) -> (out: &'static str)
        ensures
            out@ == self.message_spec(),
    {
        match self {
            NumError::Empty => "cannot parse integer from empty string",
            NumError::InvalidDigit => "invalid digit found in string",
            NumError::Overflow => "number too large to fit in target type",
        }
    }
}

/// Whether `c` is one of `0` to `9`.
pub open spec fn is_digit(c: char) -> bool {
    '0' <= c <= '9'
}

/// The value of the digit `c`.
pub open spec fn digit_value(c: char) -> nat
    recommends
        is_digit(c),
{
    (c as u32 - '0' as u32) as nat
}

/// The digit that stands for `d`.
pub open spec fn digit_char(d: nat) -> char
    recommends
        d < 10,
{
    (d + '0' as u32) as char
}

/// The decimal digits of `n`, most significant first, without leading zeros.
pub open spec fn decimal(n: nat) -> Seq<char>
    decreases n,
{
    if n < 10 {
        seq![digit_char(n)]
    } else {
        decimal(n / 10).push(digit_char(n % 10))
    }
}

/// Reads the digits `s` after the value `acc`, left to right; the first
/// character that is no digit, or that carries the value past 64 bits, decides
/// the error.
pub open spec fn scan_digits(s: Seq<char>, acc: nat) -> Result<u64, NumError>
    decreases s.len(),
{
    if s.len() == 0 {
        Ok(acc as u64)
    } else if !is_digit(s[0]) {
        Err(NumError::InvalidDigit)
    } else if acc * 10 + digit_value(s[0]) > u64::MAX {
        Err(NumError::Overflow)
    } else {
        scan_digits(s.drop_first(), acc * 10 + digit_value(s[0]))
    }
}

/// The unsigned 64-bit number that `s` spells: an optional `+`, then one or
/// more digits.
pub open spec fn parse_u64_spec(s: Seq<char>) -> Result<u64, NumError> {
    if s.len() == 0 {
        Err(NumError::Empty)
    } else {
        let body = if s[0] == '+' {
            s.drop_first()
        } else {
            s
        };
        if body.len() == 0 {
            Err(NumError::InvalidDigit)
        } else {
            scan_digits(body, 0)
        }
    }
}

/// The digit for `d` is a digit, and its value is `d`.
pub proof fn lemma_digit_char(d: nat)
    requires
        d < 10,
    ensures
        is_digit(digit_char(d)),
        digit_value(digit_char(d)) == d,
        digit_char(d) != '+',
{
    let c = digit_char(d);
    assert(c as u32 == d + 48);
}

/// Reading one more digit after digits that read as `v` gives ten times `v`
/// and the digit, as long as that fits in 64 bits.
pub proof fn lemma_scan_push(s: Seq<char>, acc: nat, v: u64, c: char)
    requires
        scan_digits(s, acc) == Ok::<u64, NumError>(v),
        acc <= u64::MAX,
        is_digit(c),
        v * 10 + digit_value(c) <= u64::MAX,
    ensures
        scan_digits(s.push(c), acc) == Ok::<u64, NumError>((v * 10 + digit_value(c)) as u64),
    decreases s.len(),
{
    let t = s.push(c);
    if s.len() == 0 {
        assert(v == acc);
        assert(t.drop_first() =~= Seq::<char>::empty());
        assert(t[0] == c);
        assert(scan_digits(t, acc) == scan_digits(t.drop_first(), acc * 10 + digit_value(c)));
        assert(scan_digits(Seq::<char>::empty(), acc * 10 + digit_value(c)) == Ok::<u64, NumError>(
            (acc * 10 + digit_value(c)) as u64,
        ));
    } else {
        assert(is_digit(s[0]));
        let next = acc * 10 + digit_value(s[0]);
        assert(next <= u64::MAX);
        assert(scan_digits(s, acc) == scan_digits(s.drop_first(), next));
        assert(t.drop_first() =~= s.drop_first().push(c));
        assert(t[0] == s[0]);
        lemma_scan_push(s.drop_first(), next, v, c);
        assert(scan_digits(t, acc) == scan_digits(t.drop_first(), next));
    }
}

/// The digits of a number read back as the number.
pub proof fn lemma_scan_decimal(n: nat)
    requires
        n <= u64::MAX,
    ensures
        scan_digits(decimal(n), 0) == Ok::<u64, NumError>(n as u64),
        decimal(n).len() > 0,
        is_digit(decimal(n)[0]),
    decreases n,
{
    if n < 10 {
        lemma_digit_char(n);
        let s = decimal(n);
        assert(s =~= Seq::<char>::empty().push(digit_char(n)));
        assert(scan_digits(Seq::<char>::empty(), 0) == Ok::<u64, NumError>(0));
        lemma_scan_push(Seq::<char>::empty(), 0, 0, digit_char(n));
    } else {
        lemma_scan_decimal(n / 10);
        lemma_digit_char(n % 10);
        let c = digit_char(n % 10);
        lemma_scan_push(decimal(n / 10), 0, (n / 10) as u64, c);
        assert(decimal(n)[0] == decimal(n / 10)[0]);
    }
}

/// A number written in decimal and read back is the same number.
pub proof fn law_decimal_round_trip(n: u64)
    ensures
        parse_u64_spec(decimal(n as nat)) == Ok::<u64, NumError>(n),
{
    lemma_scan_decimal(n as nat);
}

/// The decimal digits of `n`.
pub fn u64_to_decimal(n: u64) -> (out: Vec<char>)
    ensures
        out@ == decimal(n as nat),
{
    let mut rev: Vec<char> = Vec::new();
    let mut m: u64 = n;
    // Collect the digits least significant first.
    rev.push(digit_of((m % 10) as u8));
    m = m / 10;
    while m > 0
        invariant
            rev@.len() >= 1,
            decimal(n as nat) == if m == 0 {
                rev@.reverse()
            } else {
                decimal(m as nat) + rev@.reverse()
            },
        decreases m,
    {
        let ghost before = rev@;
        rev.push(digit_of((m % 10) as u8));
        proof {
            assert(rev@.reverse() =~= seq![digit_char((m % 10) as nat)] + before.reverse());
            if m >= 10 {
                assert(decimal(m as nat) + before.reverse() =~= decimal((m / 10) as nat)
                    + rev@.reverse());
            } else {
                assert(decimal(m as nat) + before.reverse() =~= rev@.reverse());
            }
        }
        m = m / 10;
    }
    let mut out: Vec<char> = Vec::new();
    let mut i: usize = rev.len();
    while i > 0
        invariant
            i <= rev.len(),
            out@ == rev@.reverse().take(rev.len() - i),
        decreases i,
    {
        i = i - 1;
        out.push(rev[i]);
        assert(rev@.reverse().take(rev.len() - i) =~= rev@.reverse().take(rev.len() - i - 1).push(
            rev@[i as int],
        ));
    }
    assert(rev@.reverse().take(rev.len() as int) =~= rev@.reverse());
    out
}

/// The digit character for `d`.
fn digit_of(d: u8) -> (c: char)
    requires
        d < 10,
    ensures
        c == digit_char(d as nat),
{
    let n: u8 = 48 + d;
    n as char
}

/// Reads an unsigned decimal number.
pub fn parse_u64(s: &[char]) -> (r: Result<u64, NumError>)
    ensures
        r == parse_u64_spec(s@),
{
    if s.len() == 0 {
        return Err(NumError::Empty);
    }
    let start: usize = if s[0] == '+' {
        1
    } else {
        0
    };
    if start >= s.len() {
        return Err(NumError::InvalidDigit);
    }
    let ghost body = s@.skip(start as int);
    proof {
        if start == 1 {
            assert(body =~= s@.drop_first());
        } else {
            assert(body =~= s@);
        }
    }
    let mut acc: u64 = 0;
    let mut i: usize = start;
    while i < s.len()
        invariant
            start <= i <= s.len(),
            parse_u64_spec(s@) == scan_digits(s@.skip(i as int), acc as nat),
        decreases s.len() - i,
    {
        let c = s[i];
        let ghost rest = s@.skip(i as int);
        proof {
            assert(rest[0] == c);
            assert(rest.drop_first() =~= s@.skip(i + 1));
        }
        if !('0' <= c && c <= '9') {
            return Err(NumError::InvalidDigit);
        }
        let d: u64 = (c as u32 - '0' as u32) as u64;
        if acc > (u64::MAX - d) / 10 {
            return Err(NumError::Overflow);
        }
        acc = acc * 10 + d;
        i = i + 1;
    }
    Ok(acc)
}

/// The value of the hexadecimal digit `c`, in either case.
pub open spec fn hex_value(c: char) -> Option<nat> {
    if '0' <= c <= '9' {
        Some((c as u32 - '0' as u32) as nat)
    } else if 'a' <= c <= 'f' {
        Some((c as u32 - 'a' as u32 + 10) as nat)
    } else if 'A' <= c <= 'F' {
        Some((c as u32 - 'A' as u32 + 10) as nat)
    } else {
        None
    }
}

/// The value of a hexadecimal digit.
pub fn hex_digit(c: char) -> (r: Option<u8>)
    ensures
        r matches Some(v) ==> hex_value(c) == Some(v as nat) && v < 16,
        r is None ==> hex_value(c) is None,
{
    if '0' <= c && c <= '9' {
        Some((c as u32 - '0' as u32) as u8)
    } else if 'a' <= c && c <= 'f' {
        Some((c as u32 - 'a' as u32 + 10) as u8)
    } else if 'A' <= c && c <= 'F' {
        Some((c as u32 - 'A' as u32 + 10) as u8)
    } else {
        None
    }
}

/// The lower-case hexadecimal digit for `d`.
pub open spec fn hex_lower(d: nat) -> char
    recommends
        d < 16,
{
    if d < 10 {
        (d + '0' as u32) as char
    } else {
        (d - 10 + 'a' as u32) as char
    }
}

/// The upper-case hexadecimal digit for `d`.
pub open spec fn hex_upper(d: nat) -> char
    recommends
        d < 16,
{
    if d < 10 {
        (d + '0' as u32) as char
    } else {
        (d - 10 + 'A' as u32) as char
    }
}

/// The lower-case hexadecimal digit for `d`.
pub fn hex_lower_digit(d: u8) -> (c: char)
    requires
        d < 16,
    ensures
        c == hex_lower(d as nat),
{
    if d < 10 {
        let n: u8 = 48 + d;
        n as char
    } else {
        let n: u8 = 87 + d;
        n as char
    }
}

/// The hexadecimal digits of `n` in lower case, most significant first,
/// without leading zeros.
pub open spec fn hex(n: nat) -> Seq<char>
    decreases n,
{
    if n < 16 {
        seq![hex_lower(n)]
    } else {
        hex(n / 16).push(hex_lower(n % 16))
    }
}

/// A hexadecimal digit tells its value, and is no dash.
pub proof fn lemma_hex_digit(a: nat, b: nat)
    requires
        a < 16,
        b < 16,
    ensures
        hex_lower(a) != '-',
        hex_lower(a) == hex_lower(b) ==> a == b,
{
    assert(hex_lower(a) as u32 == if a < 10 {
        a + 48
    } else {
        a + 87
    });
    assert(hex_lower(b) as u32 == if b < 10 {
        b + 48
    } else {
        b + 87
    });
    assert('-' as u32 == 45);
}

/// The hexadecimal digits of a number are at least one, and none is a dash.
pub proof fn lemma_hex_digits(n: nat)
    ensures
        hex(n).len() >= 1,
        forall|i: int| 0 <= i < hex(n).len() ==> hex(n)[i] != '-',
    decreases n,
{
    if n < 16 {
        lemma_hex_digit(n, 0);
    } else {
        lemma_hex_digits(n / 16);
        lemma_hex_digit(n % 16, 0);
    }
}

/// Two numbers with the same hexadecimal digits are the same number.
pub proof fn lemma_hex_injective(a: nat, b: nat)
    requires
        hex(a) == hex(b),
    ensures
        a == b,
    decreases a,
{
    lemma_hex_digits(a / 16);
    lemma_hex_digits(b / 16);
    let x = hex(a / 16);
    let y = hex(b / 16);
    if a >= 16 {
        assert(hex(a) == x.push(hex_lower(a % 16)));
        assert(hex(a).len() >= 2);
    } else {
        assert(hex(a) == seq![hex_lower(a)]);
        assert(hex(a).len() == 1);
    }
    if b >= 16 {
        assert(hex(b) == y.push(hex_lower(b % 16)));
        assert(hex(b).len() >= 2);
    } else {
        assert(hex(b) == seq![hex_lower(b)]);
        assert(hex(b).len() == 1);
    }
    if a < 16 && b < 16 {
        assert(hex(a)[0] == hex_lower(a));
        assert(hex(b)[0] == hex_lower(b));
        lemma_hex_digit(a, b);
    } else if a >= 16 && b >= 16 {
        assert(x.push(hex_lower(a % 16)).drop_last() =~= x);
        assert(y.push(hex_lower(b % 16)).drop_last() =~= y);
        assert(x.push(hex_lower(a % 16)).last() == hex_lower(a % 16));
        assert(y.push(hex_lower(b % 16)).last() == hex_lower(b % 16));
        lemma_hex_injective(a / 16, b / 16);
        lemma_hex_digit(a % 16, b % 16);
    }
}

/// The hexadecimal digits of `n`.
pub fn u128_to_hex(n: u128) -> (out: Vec<char>)
    ensures
        out@ == hex(n as nat),
{
    let mut rev: Vec<char> = Vec::new();
    let mut m: u128 = n;
    rev.push(hex_lower_digit((m % 16) as u8));
    m = m / 16;
    while m > 0
        invariant
            rev@.len() >= 1,
            hex(n as nat) == if m == 0 {
                rev@.reverse()
            } else {
                hex(m as nat) + rev@.reverse()
            },
        decreases m,
    {
        let ghost before = rev@;
        rev.push(hex_lower_digit((m % 16) as u8));
        proof {
            assert(rev@.reverse() =~= seq![hex_lower((m % 16) as nat)] + before.reverse());
            if m >= 16 {
                assert(hex(m as nat) + before.reverse() =~= hex((m / 16) as nat) + rev@.reverse());
            } else {
                assert(hex(m as nat) + before.reverse() =~= rev@.reverse());
            }
        }
        m = m / 16;
    }
    let mut out: Vec<char> = Vec::new();
    let mut i: usize = rev.len();
    while i > 0
        invariant
            i <= rev.len(),
            out@ == rev@.reverse().take(rev.len() - i),
        decreases i,
    {
        i = i - 1;
        out.push(rev[i]);
        assert(rev@.reverse().take(rev.len() - i) =~= rev@.reverse().take(rev.len() - i - 1).push(
            rev@[i as int],
        ));
    }
    assert(rev@.reverse().take(rev.len() as int) =~= rev@.reverse());
    out
}

} // verus!
