//! Unsigned integers written in text: decimal cells, and hexadecimal
//! addresses with an optional `0x` prefix and surrounding white space.

use vstd::prelude::*;

verus! {

/// Why a text did not read as an unsigned 32-bit integer.
#[derive(Debug, Clone, Copy, PartialEq, Eq, Structural)]
pub enum NumError {
    /// Nothing was left to read.
    Empty,
    /// A character that is not a digit of the radix.
    InvalidDigit,
    /// The value does not fit in 32 bits.
    PosOverflow,
}

/// The value of `c` as a digit of `radix` (`0-9`, then `a-z` or `A-Z`).
pub open spec fn digit_value(c: char, radix: nat) -> Option<nat> {
    let n = c as u32;
    let v: nat = if 48 <= n <= 57 {
        (n - 48) as nat
    } else if 97 <= n <= 122 {
        (n - 97 + 10) as nat
    } else if 65 <= n <= 90 {
        (n - 65 + 10) as nat
    } else {
        36
    };
    if v < radix {
        Some(v)
    } else {
        None
    }
}

/// The digits of an unsigned number: one leading `+` is dropped when
/// something follows it.
pub open spec fn digits_part(s: Seq<char>) -> Seq<char> {
    if s.len() > 1 && s[0] == '+' {
        s.drop_first()
    } else {
        s
    }
}

/// Reading the first `n` digits of `d` left to right: the value so far, or
/// the first failure met (a non-digit, or a value past `u32::MAX`).
pub open spec fn scan_digits(d: Seq<char>, radix: nat, n: nat) -> Result<nat, NumError>
    decreases n,
{
    if n == 0 {
        Ok(0)
    } else {
        match scan_digits(d, radix, (n - 1) as nat) {
            Err(e) => Err(e),
            Ok(v) => match digit_value(d[n - 1], radix) {
                None => Err(NumError::InvalidDigit),
                Some(x) => if v * radix + x > u32::MAX {
                    Err(NumError::PosOverflow)
                } else {
                    Ok(v * radix + x)
                },
            },
        }
    }
}

/// `d` read as digits of `radix` only, into an unsigned 32-bit integer.
pub open spec fn digits_spec(d: Seq<char>, radix: nat) -> Result<u32, NumError> {
    if d.len() == 0 {
        Err(NumError::Empty)
    } else {
        match scan_digits(d, radix, d.len()) {
            Ok(v) => Ok(v as u32),
            Err(e) => Err(e),
        }
    }
}

/// `s` read as an unsigned 32-bit integer in `radix`, with an optional `+`.
pub open spec fn parse_spec(s: Seq<char>, radix: nat) -> Result<u32, NumError> {
    if s.len() == 0 {
        Err(NumError::Empty)
    } else {
        digits_spec(digits_part(s), radix)
    }
}

proof fn lemma_scan_error_stays(d: Seq<char>, radix: nat, i: nat, n: nat)
    requires
        i <= n,
        scan_digits(d, radix, i) is Err,
    ensures
        scan_digits(d, radix, n) == scan_digits(d, radix, i),
    decreases n,
{
    if n > i {
        lemma_scan_error_stays(d, radix, i, (n - 1) as nat);
    }
}

fn digit_of(c: char, radix: u32) -> (r: Option<u32>)
    requires
        2 <= radix <= 36,
    ensures
        match digit_value(c, radix as nat) {
            Some(v) => r == Some(v as u32),
            None => r is None,
        },
{
    let n = c as u32;
    let v: u32 = if 48 <= n && n <= 57 {
        n - 48
    } else if 97 <= n && n <= 122 {
        n - 97 + 10
    } else if 65 <= n && n <= 90 {
        n - 65 + 10
    } else {
        36
    };
    if v < radix {
        Some(v)
    } else {
        None
    }
}

/// Reads `d` as digits of `radix` only: no sign, no white space.
pub fn parse_digits(d: &str, radix: u32) -> (r: Result<u32, NumError>)
    requires
        2 <= radix <= 36,
    ensures
        r == digits_spec(d@, radix as nat),
{
    let len = d.unicode_len();
    if len == 0 {
        return Err(NumError::Empty);
    }
    let mut acc: u32 = 0;
    let mut i: usize = 0;
    while i < len
        invariant
            2 <= radix <= 36,
            i <= len,
            len == d@.len(),
            scan_digits(d@, radix as nat, i as nat) == Ok::<nat, NumError>(acc as nat),
        decreases len - i,
    {
        let c = d.get_char(i);
        match digit_of(c, radix) {
            None => {
                assert(scan_digits(d@, radix as nat, (i + 1) as nat) is Err);
                proof {
                    lemma_scan_error_stays(d@, radix as nat, (i + 1) as nat, len as nat);
                }
                return Err(NumError::InvalidDigit);
            },
            Some(x) => {
                assert((acc as u64) * (radix as u64) <= 0xffff_ffffu64 * 36) by (nonlinear_arith)
                    requires
                        acc <= 0xffff_ffffu32,
                        radix <= 36,
                ;
                let v: u64 = (acc as u64) * (radix as u64) + (x as u64);
                if v > 0xffff_ffffu64 {
                    assert(scan_digits(d@, radix as nat, (i + 1) as nat) is Err);
                    proof {
                        lemma_scan_error_stays(d@, radix as nat, (i + 1) as nat, len as nat);
                    }
                    return Err(NumError::PosOverflow);
                }
                acc = v as u32;
            },
        }
        i = i + 1;
    }
    Ok(acc)
}


/// Reads `s` as an unsigned 32-bit integer in `radix`: an optional `+`, then
/// digits only. No white space is skipped.
pub fn parse_unsigned(s: &str, radix: u32) -> (r: Result<u32, NumError>)
    requires
        2 <= radix <= 36,
    ensures
        r == parse_spec(s@, radix as nat),
{
    let n = s.unicode_len();
    if n == 0 {
        return Err(NumError::Empty);
    }
    let start: usize = if n > 1 && s.get_char(0) == '+' {
        1
    } else {
        0
    };
    let d = s.substring_char(start, n);
    assert(d@ =~= digits_part(s@));
    parse_digits(d, radix)
}

/// Unicode `White_Space`, the set that `char::is_whitespace` tests.
pub open spec fn is_white_space(c: char) -> bool {
    let n = c as u32;
    (9 <= n <= 13) || n == 32 || n == 0x85 || n == 0xa0 || n == 0x1680 || (0x2000 <= n <= 0x200a)
        || n == 0x2028 || n == 0x2029 || n == 0x202f || n == 0x205f || n == 0x3000
}

/// `s` without its leading white space.
pub open spec fn trim_start(s: Seq<char>) -> Seq<char>
    decreases s.len(),
{
    if s.len() > 0 && is_white_space(s[0]) {
        trim_start(s.drop_first())
    } else {
        s
    }
}

/// `s` without its trailing white space.
pub open spec fn trim_end(s: Seq<char>) -> Seq<char>
    decreases s.len(),
{
    if s.len() > 0 && is_white_space(s.last()) {
        trim_end(s.drop_last())
    } else {
        s
    }
}

/// `s` without white space at either end.
pub open spec fn trimmed(s: Seq<char>) -> Seq<char> {
    trim_end(trim_start(s))
}

/// `s` without one leading `0x` or `0X`.
pub open spec fn without_hex_prefix(s: Seq<char>) -> Seq<char> {
    if s.len() >= 2 && s[0] == '0' && (s[1] == 'x' || s[1] == 'X') {
        s.subrange(2, s.len() as int)
    } else {
        s
    }
}

/// What a hexadecimal address cell reads as.
pub open spec fn hex_spec(s: Seq<char>) -> Result<u32, NumError> {
    digits_spec(without_hex_prefix(trimmed(s)), 16)
}

fn is_white(c: char) -> (r: bool)
    ensures
        r == is_white_space(c),
{
    let n = c as u32;
    (9 <= n && n <= 13) || n == 32 || n == 0x85 || n == 0xa0 || n == 0x1680 || (0x2000 <= n && n
        <= 0x200a) || n == 0x2028 || n == 0x2029 || n == 0x202f || n == 0x205f || n == 0x3000
}

/// `s` without white space at either end.
pub fn trim(s: &str) -> (r: &str)
    ensures
        r@ == trimmed(s@),
{
    let n = s.unicode_len();
    let mut i: usize = 0;
    assert(s@.subrange(0, n as int) =~= s@);
    while i < n && is_white(s.get_char(i))
        invariant
            i <= n,
            n == s@.len(),
            trim_start(s@) == trim_start(s@.subrange(i as int, n as int)),
        decreases n - i,
    {
        assert(s@.subrange(i as int, n as int).drop_first() =~= s@.subrange(i + 1, n as int));
        i = i + 1;
    }
    let ghost head = s@.subrange(i as int, n as int);
    assert(trim_start(s@) == head);
    let mut j: usize = n;
    while j > i && is_white(s.get_char(j - 1))
        invariant
            i <= j <= n,
            n == s@.len(),
            trim_end(head) == trim_end(s@.subrange(i as int, j as int)),
            head == s@.subrange(i as int, n as int),
        decreases j,
    {
        assert(s@.subrange(i as int, j as int).drop_last() =~= s@.subrange(i as int, j - 1));
        j = j - 1;
    }
    s.substring_char(i, j)
}

/// Reads a hexadecimal address: white space around it is ignored, then one
/// `0x` or `0X` prefix, and the rest must be hexadecimal digits only (no
/// sign) that fit in 32 bits.
pub fn from_hex(s: &str) -> (r: Result<u32, NumError>)
    ensures
        r == hex_spec(s@),
{
    let t = trim(s);
    let n = t.unicode_len();
    let body = if n >= 2 && t.get_char(0) == '0' && (t.get_char(1) == 'x' || t.get_char(1) == 'X') {
        t.substring_char(2, n)
    } else {
        t
    };
    assert(body@ =~= without_hex_prefix(trimmed(s@)));
    parse_digits(body, 16)
}

} // verus!
