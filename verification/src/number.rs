//! Numbers as text: reading signed decimal and unsigned hexadecimal
//! numerals, and writing small numbers in decimal.

use vstd::prelude::*;

verus! {

/// The value of `c` as a digit in the given radix, for a radix of at most 16:
/// `0` to `9`, then `a` to `f` in either case.
pub open spec fn digit_of(c: char, radix: int) -> Option<int> {
    let u = c as u32 as int;
    let d = if 48 <= u <= 57 {
        u - 48
    } else if 97 <= u <= 102 {
        u - 87
    } else if 65 <= u <= 70 {
        u - 55
    } else {
        radix
    };
    if d < radix {
        Some(d)
    } else {
        None
    }
}

/// Whether `s` consists of digits of the given radix only.
pub open spec fn all_digits(s: Seq<char>, radix: int) -> bool {
    forall|i: int| 0 <= i < s.len() ==> (#[trigger] digit_of(s[i], radix)) is Some
}

/// The number that the digits of `s` spell in the given radix, most
/// significant digit first. A character that is no digit counts as zero.
pub open spec fn number_value(s: Seq<char>, radix: int) -> int
    decreases s.len(),
{
    if s.len() == 0 {
        0
    } else {
        number_value(s.drop_last(), radix) * radix + match digit_of(s.last(), radix) {
            Some(d) => d,
            None => 0,
        }
    }
}

/// The number that `s` spells, where `s` is a non-empty run of digits and
/// the number does not exceed `limit`.
pub open spec fn magnitude(s: Seq<char>, radix: int, limit: int) -> Option<int> {
    if s.len() > 0 && all_digits(s, radix) && number_value(s, radix) <= limit {
        Some(number_value(s, radix))
    } else {
        None
    }
}

/// The signed 64-bit number that `s` spells in decimal: an optional `+` or
/// `-`, then at least one digit and nothing else, with a value in range.
pub open spec fn parse_i64(s: Seq<char>) -> Option<i64> {
    if s.len() > 0 && s[0] == '-' {
        match magnitude(s.skip(1), 10, 0x8000_0000_0000_0000) {
            Some(m) => Some((-m) as i64),
            None => None,
        }
    } else if s.len() > 0 && s[0] == '+' {
        match magnitude(s.skip(1), 10, 0x7fff_ffff_ffff_ffff) {
            Some(m) => Some(m as i64),
            None => None,
        }
    } else {
        match magnitude(s, 10, 0x7fff_ffff_ffff_ffff) {
            Some(m) => Some(m as i64),
            None => None,
        }
    }
}

/// The unsigned 32-bit number that `s` spells in hexadecimal: an optional
/// `+`, then at least one digit and nothing else, with a value in range.
pub open spec fn parse_hex_u32(s: Seq<char>) -> Option<u32> {
    if s.len() > 0 && s[0] == '+' {
        match magnitude(s.skip(1), 16, 0xffff_ffff) {
            Some(m) => Some(m as u32),
            None => None,
        }
    } else {
        match magnitude(s, 16, 0xffff_ffff) {
            Some(m) => Some(m as u32),
            None => None,
        }
    }
}

/// Appending a digit multiplies by the radix and adds the digit.
proof fn lemma_number_value_step(s: Seq<char>, k: int, radix: int)
    requires
        0 <= k < s.len(),
    ensures
        number_value(s.take(k + 1), radix) == number_value(s.take(k), radix) * radix
            + match digit_of(s[k], radix) {
            Some(d) => d,
            None => 0,
        },
{
    assert(s.take(k + 1).drop_last() =~= s.take(k));
}

/// The value of `c` as a digit in the given radix.
fn digit(c: char, radix: u8) -> (d: Option<u8>)
    requires
        radix <= 16,
    ensures
        match d {
            Some(v) => digit_of(c, radix as int) == Some(v as int),
            None => digit_of(c, radix as int) is None,
        },
{
    let u: u32 = c as u32;
    let v: u8 = if 48 <= u && u <= 57 {
        (u - 48) as u8
    } else if 97 <= u && u <= 102 {
        (u - 87) as u8
    } else if 65 <= u && u <= 70 {
        (u - 55) as u8
    } else {
        radix
    };
    if v < radix {
        Some(v)
    } else {
        None
    }
}

/// Reads the digits of `chars` from `start` on as one number of at most
/// `limit`.
fn read_magnitude(chars: &Vec<char>, start: usize, radix: u8, limit: u64) -> (m: Option<u64>)
    requires
        start <= chars.len(),
        2 <= radix <= 16,
    ensures
        match m {
            Some(v) => magnitude(chars@.skip(start as int), radix as int, limit as int) == Some(
                v as int,
            ),
            None => magnitude(chars@.skip(start as int), radix as int, limit as int) is None,
        },
{
    let ghost body = chars@.skip(start as int);
    if start == chars.len() {
        return None;
    }
    let mut value: u64 = 0;
    let mut exceeded = false;
    let mut i: usize = start;
    while i < chars.len()
        invariant
            start <= i <= chars.len(),
            2 <= radix <= 16,
            body == chars@.skip(start as int),
            all_digits(body.take(i - start), radix as int),
            0 <= number_value(body.take(i - start), radix as int),
            !exceeded ==> value == number_value(body.take(i - start), radix as int) && value
                <= limit,
            exceeded ==> number_value(body.take(i - start), radix as int) > limit,
        decreases chars.len() - i,
    {
        let ghost k = i - start;
        proof {
            lemma_number_value_step(body, k, radix as int);
        }
        match digit(chars[i], radix) {
            None => {
                return None;
            },
            Some(d) => {
                assert(number_value(body.take(k), radix as int) * radix >= number_value(
                    body.take(k),
                    radix as int,
                )) by (nonlinear_arith)
                    requires
                        number_value(body.take(k), radix as int) >= 0,
                        radix >= 2,
                ;
                if !exceeded {
                    assert(value * radix <= 0xffff_ffff_ffff_ffff * 16) by (nonlinear_arith)
                        requires
                            0 <= value <= 0xffff_ffff_ffff_ffff,
                            0 <= radix <= 16,
                    ;
                    let next: u128 = value as u128 * radix as u128 + d as u128;
                    if next > limit as u128 {
                        exceeded = true;
                    } else {
                        value = next as u64;
                    }
                }
            },
        }
        i += 1;
    }
    assert(body.take(i - start) =~= body);
    if exceeded {
        None
    } else {
        Some(value)
    }
}

/// Reads a signed decimal numeral.
pub fn parse_decimal_i64(chars: &Vec<char>) -> (number: Option<i64>)
    ensures
        number == parse_i64(chars@),
{
    if chars.len() > 0 && chars[0] == '-' {
        match read_magnitude(chars, 1, 10, 0x8000_0000_0000_0000) {
            Some(m) => {
                if m == 0x8000_0000_0000_0000 {
                    Some(i64::MIN)
                } else {
                    Some(-(m as i64))
                }
            },
            None => None,
        }
    } else if chars.len() > 0 && chars[0] == '+' {
        match read_magnitude(chars, 1, 10, 0x7fff_ffff_ffff_ffff) {
            Some(m) => Some(m as i64),
            None => None,
        }
    } else {
        assert(chars@.skip(0) =~= chars@);
        match read_magnitude(chars, 0, 10, 0x7fff_ffff_ffff_ffff) {
            Some(m) => Some(m as i64),
            None => None,
        }
    }
}

/// Reads an unsigned hexadecimal numeral.
pub fn parse_hexadecimal_u32(chars: &Vec<char>) -> (number: Option<u32>)
    ensures
        number == parse_hex_u32(chars@),
{
    if chars.len() > 0 && chars[0] == '+' {
        match read_magnitude(chars, 1, 16, 0xffff_ffff) {
            Some(m) => Some(m as u32),
            None => None,
        }
    } else {
        assert(chars@.skip(0) =~= chars@);
        match read_magnitude(chars, 0, 16, 0xffff_ffff) {
            Some(m) => Some(m as u32),
            None => None,
        }
    }
}

/// The character that writes the digit `d`.
pub open spec fn digit_char(d: int) -> char {
    (48 + d) as u8 as char
}

/// The decimal numeral of `n`, without leading zeros.
pub open spec fn decimal_text(n: nat) -> Seq<char>
    decreases n,
{
    if n < 10 {
        seq![digit_char(n as int)]
    } else {
        decimal_text(n / 10) + seq![digit_char((n % 10) as int)]
    }
}

/// The numeral of one decimal digit.
fn digit_text(d: u8) -> (text: &'static str)
    requires
        d < 10,
    ensures
        text@ == seq![digit_char(d as int)],
{
    proof {
        reveal_strlit("0");
        reveal_strlit("1");
        reveal_strlit("2");
        reveal_strlit("3");
        reveal_strlit("4");
        reveal_strlit("5");
        reveal_strlit("6");
        reveal_strlit("7");
        reveal_strlit("8");
        reveal_strlit("9");
    }
    if d == 0 {
        "0"
    } else if d == 1 {
        "1"
    } else if d == 2 {
        "2"
    } else if d == 3 {
        "3"
    } else if d == 4 {
        "4"
    } else if d == 5 {
        "5"
    } else if d == 6 {
        "6"
    } else if d == 7 {
        "7"
    } else if d == 8 {
        "8"
    } else {
        "9"
    }
}

/// Appends the decimal numeral of `n` to `out`.
pub fn push_decimal(out: &mut String, n: u8)
    ensures
        final(out)@ == old(out)@ + decimal_text(n as nat),
{
    reveal_with_fuel(decimal_text, 3);
    if n >= 100 {
        out.append(digit_text(n / 100));
        out.append(digit_text((n / 10) % 10));
        out.append(digit_text(n % 10));
    } else if n >= 10 {
        out.append(digit_text(n / 10));
        out.append(digit_text(n % 10));
    } else {
        out.append(digit_text(n));
    }
}

} // verus!
