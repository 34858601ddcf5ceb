//! Small text utilities: ASCII case handling and decimal parsing.

use vstd::prelude::*;
use vstd::string::StringSliceAdditionalSpecFns;

verus! {

/// The ASCII lower-case counterpart of a character; anything that is not an
/// ASCII upper-case letter is left as it is.
pub open spec fn spec_lower_char(c: char) -> char {
    if c == 'A' {
        'a'
    } else if c == 'B' {
        'b'
    } else if c == 'C' {
        'c'
    } else if c == 'D' {
        'd'
    } else if c == 'E' {
        'e'
    } else if c == 'F' {
        'f'
    } else if c == 'G' {
        'g'
    } else if c == 'H' {
        'h'
    } else if c == 'I' {
        'i'
    } else if c == 'J' {
        'j'
    } else if c == 'K' {
        'k'
    } else if c == 'L' {
        'l'
    } else if c == 'M' {
        'm'
    } else if c == 'N' {
        'n'
    } else if c == 'O' {
        'o'
    } else if c == 'P' {
        'p'
    } else if c == 'Q' {
        'q'
    } else if c == 'R' {
        'r'
    } else if c == 'S' {
        's'
    } else if c == 'T' {
        't'
    } else if c == 'U' {
        'u'
    } else if c == 'V' {
        'v'
    } else if c == 'W' {
        'w'
    } else if c == 'X' {
        'x'
    } else if c == 'Y' {
        'y'
    } else if c == 'Z' {
        'z'
    } else {
        c
    }
}

/// A character sequence with every ASCII upper-case letter lowered.
pub open spec fn spec_lower(s: Seq<char>) -> Seq<char> {
    s.map_values(|c: char| spec_lower_char(c))
}

/// Two character sequences that agree up to ASCII case.
pub open spec fn spec_eq_ignore_ascii_case(a: Seq<char>, b: Seq<char>) -> bool {
    spec_lower(a) == spec_lower(b)
}

/// Relies on str::to_ascii_lowercase: returns a copy of the string with each
/// ASCII upper-case letter mapped to its lower-case equivalent and every
/// other character unchanged.
#[verifier::external_body]
pub fn ascii_lowercase(s: &str) -> (r: String)
    ensures
        r@ == spec_lower(s@),
{
    s.to_ascii_lowercase()
}

/// Relies on str::eq_ignore_ascii_case: true exactly when the two strings
/// agree after ASCII-lower-casing both.
#[verifier::external_body]
pub fn eq_ignore_ascii_case(a: &str, b: &str) -> (r: bool)
    ensures
        r == spec_eq_ignore_ascii_case(a@, b@),
{
    a.eq_ignore_ascii_case(b)
}

/// True when the bytes are one or more ASCII decimal digits.
pub open spec fn spec_all_digits(b: Seq<u8>) -> bool {
    b.len() > 0 && forall|i: int| 0 <= i < b.len() ==> 0x30 <= #[trigger] b[i] <= 0x39
}

/// The number the digit bytes denote, most significant first.
pub open spec fn spec_digits_value(b: Seq<u8>) -> int
    decreases b.len(),
{
    if b.len() == 0 {
        0
    } else {
        spec_digits_value(b.drop_last()) * 10 + (b.last() - 0x30)
    }
}

proof fn lemma_digits_value_nonneg(b: Seq<u8>)
    requires
        forall|i: int| 0 <= i < b.len() ==> 0x30 <= #[trigger] b[i] <= 0x39,
    ensures
        spec_digits_value(b) >= 0,
    decreases b.len(),
{
    if b.len() > 0 {
        lemma_digits_value_nonneg(b.drop_last());
        assert(spec_digits_value(b.drop_last()) * 10 >= 0) by (nonlinear_arith)
            requires
                spec_digits_value(b.drop_last()) >= 0,
        ;
    }
}

proof fn lemma_digits_value_prefix_le(b: Seq<u8>, i: int)
    requires
        0 <= i <= b.len(),
        forall|k: int| 0 <= k < b.len() ==> 0x30 <= #[trigger] b[k] <= 0x39,
    ensures
        spec_digits_value(b.take(i)) <= spec_digits_value(b),
    decreases b.len() - i,
{
    if i == b.len() {
        assert(b.take(i) =~= b);
    } else {
        lemma_digits_value_prefix_le(b, i + 1);
        let p = b.take(i);
        let q = b.take(i + 1);
        assert(q.drop_last() =~= p);
        lemma_digits_value_nonneg(p);
        assert(spec_digits_value(p) <= spec_digits_value(p) * 10 + (q.last() - 0x30))
            by (nonlinear_arith)
            requires
                spec_digits_value(p) >= 0,
                0 <= q.last() - 0x30,
        ;
    }
}

/// The decimal rendering of a non-negative number, most significant digit
/// first, without leading zeroes (a lone zero for zero).
pub open spec fn spec_u32_decimal(n: int) -> Seq<char>
    recommends
        n >= 0,
    decreases n,
{
    if n < 10 {
        seq![crate::primitives::spec_hex_digit(if 0 <= n { n as u8 } else { 0u8 })]
    } else {
        spec_u32_decimal(n / 10).push(crate::primitives::spec_hex_digit((n % 10) as u8))
    }
}

/// Renders a number in decimal.
pub fn u32_to_decimal(n: u32) -> (r: String)
    ensures
        r@ == spec_u32_decimal(n as int),
    decreases n,
{
    if n < 10 {
        let mut s = String::new();
        crate::primitives::push_char(&mut s, crate::primitives::hex_digit_char((n % 10) as u8));
        proof {
            assert(s@ =~= spec_u32_decimal(n as int));
        }
        s
    } else {
        let mut s = u32_to_decimal(n / 10);
        crate::primitives::push_char(&mut s, crate::primitives::hex_digit_char((n % 10) as u8));
        s
    }
}

/// Parses a string of ASCII decimal digits.
///
/// Returns the denoted value when the string is one or more digits and the
/// value fits in a `u32`; returns nothing otherwise.
pub fn parse_u32(s: &str) -> (r: Option<u32>)
    ensures
        match r {
            Some(n) => spec_all_digits(s.spec_bytes()) && spec_digits_value(s.spec_bytes()) == n,
            None => !spec_all_digits(s.spec_bytes()) || spec_digits_value(s.spec_bytes())
                > u32::MAX,
        },
{
    let b = s.as_bytes();
    let len = b.len();
    if len == 0 {
        return None;
    }
    let mut acc: u32 = 0;
    let mut i: usize = 0;
    while i < len
        invariant
            0 < len == b@.len(),
            b@ == s.spec_bytes(),
            i <= len,
            forall|k: int| 0 <= k < i ==> 0x30 <= #[trigger] b@[k] <= 0x39,
            acc == spec_digits_value(b@.take(i as int)),
        decreases len - i,
    {
        let d = b[i];
        if d < 0x30 || d > 0x39 {
            proof {
                assert(!(0x30 <= b@[i as int] <= 0x39));
                assert(!spec_all_digits(b@));
            }
            return None;
        }
        proof {
            assert(b@.take(i + 1).drop_last() =~= b@.take(i as int));
            assert(b@.take(i + 1).last() == b@[i as int]);
        }
        match acc.checked_mul(10) {
            None => {
                proof {
                    if spec_all_digits(b@) {
                        lemma_digits_value_prefix_le(b@, i + 1);
                        assert(spec_digits_value(b@.take(i + 1)) == acc * 10 + (d - 0x30));
                    }
                }
                return None;
            },
            Some(m) => {
                match m.checked_add((d - 0x30) as u32) {
                    None => {
                        proof {
                            if spec_all_digits(b@) {
                                lemma_digits_value_prefix_le(b@, i + 1);
                                assert(spec_digits_value(b@.take(i + 1)) == acc * 10 + (d - 0x30));
                            }
                        }
                        return None;
                    },
                    Some(next) => {
                        acc = next;
                    },
                }
            },
        }
        i = i + 1;
    }
    proof {
        assert(b@.take(len as int) =~= b@);
    }
    Some(acc)
}

} // verus!
