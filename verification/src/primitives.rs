//! Fixed-width byte and integer primitives used throughout the crate:
//! 256-bit and 160-bit identifiers, a 256-bit unsigned integer, and
//! lower-case hex rendering of byte strings.

use vstd::prelude::*;

verus! {

broadcast use vstd::array::group_array_axioms;

/// A 256-bit value kept as 32 raw bytes, big-endian where it carries a number.
#[derive(Clone, Copy, Debug, Eq, Hash)]
pub struct H256(pub [u8; 32]);

/// A 160-bit value kept as 20 raw bytes; the address form used by EVM chains.
#[derive(Clone, Copy, Debug, Eq, Hash)]
pub struct H160(pub [u8; 20]);

impl View for H256 {
    type V = Seq<u8>;

    open spec fn view(&self) -> Seq<u8> {
        self.0@
    }
}

impl View for H160 {
    type V = Seq<u8>;

    open spec fn view(&self) -> Seq<u8> {
        self.0@
    }
}

/// Compares two 32-byte arrays element by element.
fn bytes32_eq(a: &[u8; 32], b: &[u8; 32]) -> (r: bool)
    ensures
        r == (a@ == b@),
{
    let mut i: usize = 0;
    while i < 32
        invariant
            i <= 32,
            forall|j: int| 0 <= j < i ==> a@[j] == b@[j],
        decreases 32 - i,
    {
        if a[i] != b[i] {
            assert(a@ != b@);
            return false;
        }
        i = i + 1;
    }
    assert(a@ =~= b@);
    true
}

/// Compares two 20-byte arrays element by element.
fn bytes20_eq(a: &[u8; 20], b: &[u8; 20]) -> (r: bool)
    ensures
        r == (a@ == b@),
{
    let mut i: usize = 0;
    while i < 20
        invariant
            i <= 20,
            forall|j: int| 0 <= j < i ==> a@[j] == b@[j],
        decreases 20 - i,
    {
        if a[i] != b[i] {
            assert(a@ != b@);
            return false;
        }
        i = i + 1;
    }
    assert(a@ =~= b@);
    true
}

impl PartialEq for H256 {
    fn eq(&self, other: &H256) -> bool {
        bytes32_eq(&self.0, &other.0)
    }
}

impl vstd::std_specs::cmp::PartialEqSpecImpl for H256 {
    open spec fn obeys_eq_spec() -> bool {
        true
    }

    open spec fn eq_spec(&self, other: &H256) -> bool {
        self.0@ == other.0@
    }
}

impl PartialEq for H160 {
    fn eq(&self, other: &H160) -> bool {
        bytes20_eq(&self.0, &other.0)
    }
}

impl vstd::std_specs::cmp::PartialEqSpecImpl for H160 {
    open spec fn obeys_eq_spec() -> bool {
        true
    }

    open spec fn eq_spec(&self, other: &H160) -> bool {
        self.0@ == other.0@
    }
}

/// The all-zero 32-byte sequence.
pub open spec fn spec_h256_zero() -> Seq<u8> {
    Seq::new(32, |i: int| 0u8)
}

/// Byte `k` (0 = most significant) of `v` rendered big-endian.
pub open spec fn spec_u64_byte_be(v: u64, k: int) -> u8
    recommends
        0 <= k < 8,
{
    ((v >> (((7 - k) * 8) as u64)) & 0xff) as u8
}

/// Byte `k` (0 = least significant) of `v` rendered little-endian.
pub open spec fn spec_u64_byte_le(v: u64, k: int) -> u8
    recommends
        0 <= k < 8,
{
    ((v >> ((k * 8) as u64)) & 0xff) as u8
}

/// 32 bytes holding `v` big-endian in the last 8 positions.
pub open spec fn spec_h256_from_low_u64_be(v: u64) -> Seq<u8> {
    Seq::new(32, |i: int| if i < 24 { 0u8 } else { spec_u64_byte_be(v, i - 24) })
}

/// 32 bytes holding `v` little-endian in the first 8 positions.
pub open spec fn spec_h256_from_low_u64_le(v: u64) -> Seq<u8> {
    Seq::new(32, |i: int| if i < 8 { spec_u64_byte_le(v, i) } else { 0u8 })
}

impl H256 {
    /// The all-zero value.
    pub fn zero() -> (r: H256)
        ensures
            r@ == spec_h256_zero(),
    {
        let r = H256([0u8; 32]);
        assert(r@ =~= spec_h256_zero());
        r
    }

    /// Places the low 64 bits big-endian into the last 8 bytes.
    pub fn from_low_u64_be(v: u64) -> (r: H256)
        ensures
            r@ == spec_h256_from_low_u64_be(v),
    {
        let mut buf = [0u8; 32];
        let mut k: usize = 0;
        while k < 8
            invariant
                k <= 8,
                buf@.len() == 32,
                forall|j: int| 0 <= j < 24 ==> buf@[j] == 0u8,
                forall|j: int| 24 <= j < 24 + k ==> buf@[j] == spec_u64_byte_be(v, j - 24),
                forall|j: int| 24 + k <= j < 32 ==> buf@[j] == 0u8,
            decreases 8 - k,
        {
            let shift: u64 = ((7 - k) as u64) * 8;
            let byte: u8 = ((v >> shift) & 0xff) as u8;
            buf.set(24 + k, byte);
            k = k + 1;
        }
        let r = H256(buf);
        assert(r@ =~= spec_h256_from_low_u64_be(v));
        r
    }

    /// Places the low 64 bits little-endian into the first 8 bytes.
    pub fn from_low_u64_le(v: u64) -> (r: H256)
        ensures
            r@ == spec_h256_from_low_u64_le(v),
    {
        let mut buf = [0u8; 32];
        let mut k: usize = 0;
        while k < 8
            invariant
                k <= 8,
                buf@.len() == 32,
                forall|j: int| 0 <= j < k ==> buf@[j] == spec_u64_byte_le(v, j),
                forall|j: int| k <= j < 32 ==> buf@[j] == 0u8,
            decreases 8 - k,
        {
            let shift: u64 = (k as u64) * 8;
            let byte: u8 = ((v >> shift) & 0xff) as u8;
            buf.set(k, byte);
            k = k + 1;
        }
        let r = H256(buf);
        assert(r@ =~= spec_h256_from_low_u64_le(v));
        r
    }

    /// The raw bytes, most significant first.
    pub fn as_bytes(&self) -> (r: &[u8])
        ensures
            r@ == self@,
    {
        self.0.as_slice()
    }

    /// Builds a value from exactly 32 bytes.
    pub fn from_slice(data: &[u8]) -> (r: H256)
        requires
            data@.len() == 32,
        ensures
            r@ == data@,
    {
        let mut buf = [0u8; 32];
        let mut i: usize = 0;
        while i < 32
            invariant
                i <= 32,
                data@.len() == 32,
                buf@.len() == 32,
                forall|j: int| 0 <= j < i ==> buf@[j] == data@[j],
            decreases 32 - i,
        {
            buf.set(i, data[i]);
            i = i + 1;
        }
        let r = H256(buf);
        assert(r@ =~= data@);
        r
    }
}

impl H160 {
    /// The all-zero value.
    pub fn zero() -> (r: H160)
        ensures
            r@ == Seq::new(20, |i: int| 0u8),
    {
        let r = H160([0u8; 20]);
        assert(r@ =~= Seq::new(20, |i: int| 0u8));
        r
    }

    /// The raw bytes, most significant first.
    pub fn as_bytes(&self) -> (r: &[u8])
        ensures
            r@ == self@,
    {
        self.0.as_slice()
    }

    /// Builds a value from exactly 20 bytes.
    pub fn from_slice(data: &[u8]) -> (r: H160)
        requires
            data@.len() == 20,
        ensures
            r@ == data@,
    {
        let mut buf = [0u8; 20];
        let mut i: usize = 0;
        while i < 20
            invariant
                i <= 20,
                data@.len() == 20,
                buf@.len() == 20,
                forall|j: int| 0 <= j < i ==> buf@[j] == data@[j],
            decreases 20 - i,
        {
            buf.set(i, data[i]);
            i = i + 1;
        }
        let r = H160(buf);
        assert(r@ =~= data@);
        r
    }
}

/// A 256-bit unsigned integer, split into a high and a low 128-bit half.
#[derive(Clone, Copy, Debug, PartialEq, Eq, Structural, Hash)]
pub struct U256 {
    pub high: u128,
    pub low: u128,
}

impl U256 {
    /// The mathematical value this pair of halves stands for.
    pub open spec fn spec_value(&self) -> int {
        self.high * 0x100000000000000000000000000000000 + self.low
    }

    /// Zero.
    pub fn zero() -> (r: U256)
        ensures
            r.spec_value() == 0,
    {
        U256 { high: 0, low: 0 }
    }

    /// One.
    pub fn one() -> (r: U256)
        ensures
            r.spec_value() == 1,
    {
        U256 { high: 0, low: 1 }
    }

    /// Widens a 64-bit value.
    pub fn from_u64(v: u64) -> (r: U256)
        ensures
            r.spec_value() == v,
    {
        U256 { high: 0, low: v as u128 }
    }

    /// True exactly when the value is zero.
    pub fn is_zero(&self) -> (r: bool)
        ensures
            r == (self.spec_value() == 0),
    {
        let r = self.high == 0 && self.low == 0;
        proof {
            if self.high != 0 {
                assert(self.spec_value() >= 0x100000000000000000000000000000000) by (nonlinear_arith)
                    requires
                        self.high >= 1,
                        self.low >= 0,
                        self.spec_value() == self.high * 0x100000000000000000000000000000000
                            + self.low,
                ;
            }
        }
        r
    }
}

/// The lower-case hex digit for a value below 16.
pub open spec fn spec_hex_digit(n: u8) -> char {
    if n == 0 {
        '0'
    } else if n == 1 {
        '1'
    } else if n == 2 {
        '2'
    } else if n == 3 {
        '3'
    } else if n == 4 {
        '4'
    } else if n == 5 {
        '5'
    } else if n == 6 {
        '6'
    } else if n == 7 {
        '7'
    } else if n == 8 {
        '8'
    } else if n == 9 {
        '9'
    } else if n == 10 {
        'a'
    } else if n == 11 {
        'b'
    } else if n == 12 {
        'c'
    } else if n == 13 {
        'd'
    } else if n == 14 {
        'e'
    } else {
        'f'
    }
}

/// The lower-case hex rendering of a byte string, two digits per byte.
pub open spec fn spec_to_hex(data: Seq<u8>) -> Seq<char>
    decreases data.len(),
{
    if data.len() == 0 {
        seq![]
    } else {
        seq![
            spec_hex_digit((data.first() >> 4u8) as u8),
            spec_hex_digit((data.first() & 0x0f) as u8),
        ] + spec_to_hex(data.drop_first())
    }
}

/// Relies on String::push: appends exactly the given character.
#[verifier::external_body]
pub(crate) fn push_char(s: &mut String, c: char)
    ensures
        final(s)@ == old(s)@.push(c),
{
    s.push(c);
}

pub(crate) fn hex_digit_char(n: u8) -> (c: char)
    requires
        n < 16,
    ensures
        c == spec_hex_digit(n),
{
    if n == 0 {
        '0'
    } else if n == 1 {
        '1'
    } else if n == 2 {
        '2'
    } else if n == 3 {
        '3'
    } else if n == 4 {
        '4'
    } else if n == 5 {
        '5'
    } else if n == 6 {
        '6'
    } else if n == 7 {
        '7'
    } else if n == 8 {
        '8'
    } else if n == 9 {
        '9'
    } else if n == 10 {
        'a'
    } else if n == 11 {
        'b'
    } else if n == 12 {
        'c'
    } else if n == 13 {
        'd'
    } else if n == 14 {
        'e'
    } else {
        'f'
    }
}

/// Appends the lower-case hex rendering of `data` to `s`.
pub fn append_hex(s: &mut String, data: &[u8])
    ensures
        final(s)@ == old(s)@ + spec_to_hex(data@),
{
    let len = data.len();
    proof {
        assert(data@.skip(0) =~= data@);
    }
    let mut i: usize = 0;
    while i < len
        invariant
            i <= len,
            len == data@.len(),
            s@ + spec_to_hex(data@.skip(i as int)) == old(s)@ + spec_to_hex(data@),
        decreases len - i,
    {
        let byte = data[i];
        assert((byte >> 4u8) < 16 && (byte & 0x0f) < 16) by (bit_vector);
        let ghost prev = s@;
        push_char(s, hex_digit_char(byte >> 4u8));
        push_char(s, hex_digit_char(byte & 0x0f));
        proof {
            let rest = data@.skip(i as int);
            assert(rest.drop_first() =~= data@.skip(i + 1));
            assert(s@ + spec_to_hex(data@.skip(i + 1)) =~= prev + spec_to_hex(rest));
        }
        i = i + 1;
    }
    proof {
        assert(data@.skip(len as int) =~= Seq::<u8>::empty());
        assert(s@ =~= s@ + spec_to_hex(data@.skip(len as int)));
    }
}

/// The lower-case `0x…` hex rendering of a byte string.
pub fn encode_hex_prefixed(data: &[u8]) -> (r: String)
    ensures
        r@ == "0x"@ + spec_to_hex(data@),
{
    let mut s = String::new();
    push_char(&mut s, '0');
    push_char(&mut s, 'x');
    proof {
        reveal_strlit("0x");
        assert(s@ =~= "0x"@);
    }
    append_hex(&mut s, data);
    s
}

} // verus!
