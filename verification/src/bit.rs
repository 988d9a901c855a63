//! Positioned reads over a byte buffer: bytes, big-endian multi-byte
//! integers, variable-width bit fields, zero-terminated strings, and bounded
//! sub-streams.  All multi-byte integers are big-endian.

use crate::HeifError;
use vstd::prelude::*;
use vstd::string::*;
use vstd::utf8::{encode_utf8, is_ascii_chars, is_ascii_chars_encode_utf8};

verus! {

/// The big-endian value of the two bytes of `d` starting at `i`.
pub open spec fn be16(d: Seq<u8>, i: int) -> int {
    d[i] * 0x100 + d[i + 1]
}

/// The big-endian value of the three bytes of `d` starting at `i`.
pub open spec fn be24(d: Seq<u8>, i: int) -> int {
    d[i] * 0x1_0000 + d[i + 1] * 0x100 + d[i + 2]
}

/// The big-endian value of the four bytes of `d` starting at `i`.
pub open spec fn be32(d: Seq<u8>, i: int) -> int {
    d[i] * 0x100_0000 + d[i + 1] * 0x1_0000 + d[i + 2] * 0x100 + d[i + 3]
}

/// The big-endian value of the eight bytes of `d` starting at `i`.
pub open spec fn be64(d: Seq<u8>, i: int) -> int {
    be32(d, i) * 0x1_0000_0000 + be32(d, i + 4)
}

/// The bit of `d` at bit position `p`, counting bits most-significant-first
/// within each byte.
pub open spec fn bit_at(d: Seq<u8>, p: int) -> u8 {
    (d[p / 8] >> ((7 - (p % 8)) as u8)) & 1
}

/// The value of the `n` bits of `d` starting at bit position `p`, read
/// most-significant-first.
pub open spec fn bits_val(d: Seq<u8>, p: int, n: nat) -> int
    decreases n,
{
    if n == 0 {
        0
    } else {
        bits_val(d, p, (n - 1) as nat) * 2 + bit_at(d, p + n - 1)
    }
}

/// Two to the power `n`.
pub open spec fn two_to(n: nat) -> int
    decreases n,
{
    if n == 0 {
        1
    } else {
        2 * two_to((n - 1) as nat)
    }
}

pub proof fn lemma_two_to_pos(n: nat)
    ensures
        two_to(n) >= 1,
    decreases n,
{
    if n > 0 {
        lemma_two_to_pos((n - 1) as nat);
    }
}

pub proof fn lemma_two_to_mono(a: nat, b: nat)
    requires
        a <= b,
    ensures
        1 <= two_to(a) <= two_to(b),
    decreases b,
{
    lemma_two_to_pos(a);
    if a < b {
        lemma_two_to_mono(a, (b - 1) as nat);
    }
}

pub proof fn lemma_bit_at_bound(d: Seq<u8>, p: int)
    ensures
        bit_at(d, p) <= 1,
{
    let b: u8 = d[p / 8];
    let sh: u8 = (7 - (p % 8)) as u8;
    assert((b >> sh) & 1 <= 1) by (bit_vector);
}

pub proof fn lemma_bits_val_bound(d: Seq<u8>, p: int, n: nat)
    ensures
        0 <= bits_val(d, p, n) < two_to(n),
    decreases n,
{
    if n > 0 {
        lemma_bits_val_bound(d, p, (n - 1) as nat);
        lemma_bit_at_bound(d, p + n - 1);
    }
}

#[verifier::rlimit(100)]
proof fn lemma_bits_val_fits_u64(d: Seq<u8>, p: int, n: nat)
    requires
        n <= 63,
    ensures
        0 <= bits_val(d, p, n) < 0x8000000000000000,
{
    lemma_bits_val_bound(d, p, n);
    lemma_two_to_mono(n, 63);
    assert(two_to(16) == 0x10000) by {
        reveal_with_fuel(two_to, 17);
    }
    assert(two_to(32) == 0x1_0000_0000) by {
        reveal_with_fuel(two_to, 17);
    }
    assert(two_to(48) == 0x1_0000_0000_0000) by {
        reveal_with_fuel(two_to, 17);
    }
    assert(two_to(63) == 0x8000_0000_0000_0000) by {
        reveal_with_fuel(two_to, 16);
    }
}

/// The big-endian value of the `k` bytes of `d` starting at `p`.
pub open spec fn be_val(d: Seq<u8>, p: int, k: nat) -> int
    decreases k,
{
    if k == 0 {
        0
    } else {
        be_val(d, p, (k - 1) as nat) * 0x100 + d[p + k - 1]
    }
}

/// Reading a span of bits in two parts gives the high part scaled past the
/// low part.
pub proof fn lemma_bits_val_split(d: Seq<u8>, p: int, m: nat, n: nat)
    ensures
        bits_val(d, p, (m + n) as nat) == bits_val(d, p, m) * two_to(n) + bits_val(d, p + m, n),
    decreases n,
{
    if n == 0 {
        assert(bits_val(d, p, m) * 1 == bits_val(d, p, m));
    } else {
        lemma_bits_val_split(d, p, m, (n - 1) as nat);
        assert((m + n) as nat - 1 == m + (n - 1));
        assert(bits_val(d, p, (m + n) as nat) == bits_val(d, p, ((m + n) as nat - 1) as nat) * 2
            + bit_at(d, p + m + n - 1));
        let a = bits_val(d, p, m);
        let t = two_to((n - 1) as nat);
        let b = bits_val(d, p + m, (n - 1) as nat);
        let c = bit_at(d, p + m + n - 1);
        assert((a * t + b) * 2 + c == a * (2 * t) + (b * 2 + c)) by (nonlinear_arith);
    }
}

/// Reading the eight bits of a whole byte gives the byte itself.
pub proof fn lemma_bits_val_byte(d: Seq<u8>, m: int)
    requires
        0 <= m,
    ensures
        bits_val(d, 8 * m, 8) == d[m],
{
    let b = d[m];
    assert forall|j: int| 0 <= j < 8 implies #[trigger] bit_at(d, 8 * m + j) == (b >> ((7 - j) as u8)) & 1 by {
        assert((8 * m + j) / 8 == m && (8 * m + j) % 8 == j) by (nonlinear_arith)
            requires
                0 <= j < 8,
                0 <= m,
        ;
    }
    let b7 = (b >> 7) & 1;
    let b6 = (b >> 6) & 1;
    let b5 = (b >> 5) & 1;
    let b4 = (b >> 4) & 1;
    let b3 = (b >> 3) & 1;
    let b2 = (b >> 2) & 1;
    let b1 = (b >> 1) & 1;
    let b0 = (b >> 0) & 1;
    assert(b7 * 128 + b6 * 64 + b5 * 32 + b4 * 16 + b3 * 8 + b2 * 4 + b1 * 2 + b0 == b)
        by (bit_vector)
        requires
            b7 == (b >> 7) & 1,
            b6 == (b >> 6) & 1,
            b5 == (b >> 5) & 1,
            b4 == (b >> 4) & 1,
            b3 == (b >> 3) & 1,
            b2 == (b >> 2) & 1,
            b1 == (b >> 1) & 1,
            b0 == (b >> 0) & 1,
    ;
    reveal_with_fuel(bits_val, 9);
}

/// Reading whole bytes as bits gives their big-endian byte value.
pub proof fn lemma_bits_val_bytes(d: Seq<u8>, p: int, k: nat)
    requires
        0 <= p,
    ensures
        bits_val(d, 8 * p, (8 * k) as nat) == be_val(d, p, k),
    decreases k,
{
    if k > 0 {
        lemma_bits_val_bytes(d, p, (k - 1) as nat);
        lemma_bits_val_split(d, 8 * p, (8 * (k - 1)) as nat, 8);
        lemma_bits_val_byte(d, p + k - 1);
        assert(two_to(8) == 256) by {
            reveal_with_fuel(two_to, 9);
        }
        assert(8 * p + 8 * (k - 1) == 8 * (p + k - 1));
    }
}

/// The two-byte big-endian value, as a byte count.
pub proof fn lemma_be_val_16(d: Seq<u8>, p: int)
    ensures
        be_val(d, p, 2) == be16(d, p),
{
    reveal_with_fuel(be_val, 3);
}

/// The four-byte big-endian value, as a byte count.
pub proof fn lemma_be_val_32(d: Seq<u8>, p: int)
    ensures
        be_val(d, p, 4) == be32(d, p),
{
    reveal_with_fuel(be_val, 5);
}

/// The eight-byte big-endian value, as a byte count.
pub proof fn lemma_be_val_64(d: Seq<u8>, p: int)
    ensures
        be_val(d, p, 8) == be64(d, p),
{
    reveal_with_fuel(be_val, 9);
}

/// The high nibble of a byte, read as four bits.
pub proof fn lemma_bits_val_hi_nibble(d: Seq<u8>, m: int)
    requires
        0 <= m,
    ensures
        bits_val(d, 8 * m, 4) == d[m] >> 4,
{
    let b = d[m];
    assert forall|j: int| 0 <= j < 4 implies #[trigger] bit_at(d, 8 * m + j) == (b >> ((7 - j) as u8)) & 1 by {
        assert((8 * m + j) / 8 == m && (8 * m + j) % 8 == j) by (nonlinear_arith)
            requires
                0 <= j < 4,
                0 <= m,
        ;
    }
    let b7 = (b >> 7) & 1;
    let b6 = (b >> 6) & 1;
    let b5 = (b >> 5) & 1;
    let b4 = (b >> 4) & 1;
    assert(b7 * 8 + b6 * 4 + b5 * 2 + b4 == b >> 4) by (bit_vector)
        requires
            b7 == (b >> 7) & 1,
            b6 == (b >> 6) & 1,
            b5 == (b >> 5) & 1,
            b4 == (b >> 4) & 1,
    ;
    reveal_with_fuel(bits_val, 5);
}

/// The low nibble of a byte, read as four bits.
pub proof fn lemma_bits_val_lo_nibble(d: Seq<u8>, m: int)
    requires
        0 <= m,
    ensures
        bits_val(d, 8 * m + 4, 4) == d[m] & 0x0F,
{
    let b = d[m];
    assert forall|j: int| 0 <= j < 4 implies #[trigger] bit_at(d, 8 * m + 4 + j) == (b >> ((3 - j) as u8)) & 1
        by {
        assert((8 * m + 4 + j) / 8 == m && (8 * m + 4 + j) % 8 == 4 + j) by (nonlinear_arith)
            requires
                0 <= j < 4,
                0 <= m,
        ;
    }
    let b3 = (b >> 3) & 1;
    let b2 = (b >> 2) & 1;
    let b1 = (b >> 1) & 1;
    let b0 = (b >> 0) & 1;
    assert(b3 * 8 + b2 * 4 + b1 * 2 + b0 == b & 0x0F) by (bit_vector)
        requires
            b3 == (b >> 3) & 1,
            b2 == (b >> 2) & 1,
            b1 == (b >> 1) & 1,
            b0 == (b >> 0) & 1,
    ;
    reveal_with_fuel(bits_val, 5);
}

/// The high bit of a byte, read as one bit.
pub proof fn lemma_bits_val_hi_bit(d: Seq<u8>, m: int)
    requires
        0 <= m,
    ensures
        bits_val(d, 8 * m, 1) == d[m] >> 7,
{
    let b = d[m];
    assert((8 * m) / 8 == m && (8 * m) % 8 == 0) by (nonlinear_arith)
        requires
            0 <= m,
    ;
    assert(((b >> 7) & 1) as int == (b >> 7) as int) by (bit_vector);
    reveal_with_fuel(bits_val, 2);
}

/// The seven low bits of a byte, read after its high bit.
pub proof fn lemma_bits_val_low7(d: Seq<u8>, m: int)
    requires
        0 <= m,
    ensures
        bits_val(d, 8 * m + 1, 7) == d[m] & 0x7F,
{
    let b = d[m];
    assert forall|j: int| 0 <= j < 7 implies #[trigger] bit_at(d, 8 * m + 1 + j) == (b >> ((6 - j) as u8)) & 1
        by {
        assert((8 * m + 1 + j) / 8 == m && (8 * m + 1 + j) % 8 == 1 + j) by (nonlinear_arith)
            requires
                0 <= j < 7,
                0 <= m,
        ;
    }
    let b6 = (b >> 6) & 1;
    let b5 = (b >> 5) & 1;
    let b4 = (b >> 4) & 1;
    let b3 = (b >> 3) & 1;
    let b2 = (b >> 2) & 1;
    let b1 = (b >> 1) & 1;
    let b0 = (b >> 0) & 1;
    assert(b6 * 64 + b5 * 32 + b4 * 16 + b3 * 8 + b2 * 4 + b1 * 2 + b0 == b & 0x7F)
        by (bit_vector)
        requires
            b6 == (b >> 6) & 1,
            b5 == (b >> 5) & 1,
            b4 == (b >> 4) & 1,
            b3 == (b >> 3) & 1,
            b2 == (b >> 2) & 1,
            b1 == (b >> 1) & 1,
            b0 == (b >> 0) & 1,
    ;
    reveal_with_fuel(bits_val, 8);
}

/// The six low bits of a byte, read after its two high bits.
pub proof fn lemma_bits_val_low6(d: Seq<u8>, m: int)
    requires
        0 <= m,
    ensures
        bits_val(d, 8 * m + 2, 6) == d[m] & 0x3F,
{
    let b = d[m];
    assert forall|j: int| 0 <= j < 6 implies #[trigger] bit_at(d, 8 * m + 2 + j) == (b >> ((5
        - j) as u8)) & 1 by {
        assert((8 * m + 2 + j) / 8 == m && (8 * m + 2 + j) % 8 == 2 + j) by (nonlinear_arith)
            requires
                0 <= j < 6,
                0 <= m,
        ;
    }
    let b5 = (b >> 5) & 1;
    let b4 = (b >> 4) & 1;
    let b3 = (b >> 3) & 1;
    let b2 = (b >> 2) & 1;
    let b1 = (b >> 1) & 1;
    let b0 = (b >> 0) & 1;
    assert(b5 * 32 + b4 * 16 + b3 * 8 + b2 * 4 + b1 * 2 + b0 == b & 0x3F) by (bit_vector)
        requires
            b5 == (b >> 5) & 1,
            b4 == (b >> 4) & 1,
            b3 == (b >> 3) & 1,
            b2 == (b >> 2) & 1,
            b1 == (b >> 1) & 1,
            b0 == (b >> 0) & 1,
    ;
    reveal_with_fuel(bits_val, 7);
}

/// The fifteen bits that follow a byte's high bit: its seven low bits and
/// the whole next byte.
pub proof fn lemma_bits_val_15(d: Seq<u8>, m: int)
    requires
        0 <= m,
    ensures
        bits_val(d, 8 * m + 1, 15) == (d[m] & 0x7F) * 0x100 + d[m + 1],
{
    lemma_bits_val_split(d, 8 * m + 1, 7, 8);
    lemma_bits_val_low7(d, m);
    lemma_bits_val_byte(d, m + 1);
    assert(two_to(8) == 256) by {
        reveal_with_fuel(two_to, 9);
    }
}

/// The position of the first zero byte of `d` at or after `i`, or `d.len()`
/// when none exists.
pub open spec fn cstr_end(d: Seq<u8>, i: int) -> int
    decreases d.len() - i,
{
    if i < 0 || i >= d.len() {
        i
    } else if d[i] == 0 {
        i
    } else {
        cstr_end(d, i + 1)
    }
}

/// How an executable string reflects the raw bytes it was decoded from:
/// when the bytes are all ASCII, the string holds exactly those characters.
pub open spec fn ascii_str_of(bytes: Seq<u8>, s: Seq<char>) -> bool {
    (forall|i: int| 0 <= i < bytes.len() ==> bytes[i] < 0x80) ==> s == bytes.map_values(
        |b: u8| b as char,
    )
}

/// The byte position after the zero-terminated string that starts at `i`:
/// past the terminator when one exists, else the end of `d`.
pub open spec fn cstr_after(d: Seq<u8>, i: int) -> int {
    if cstr_end(d, i) < d.len() {
        cstr_end(d, i) + 1
    } else {
        d.len() as int
    }
}

/// The bytes of the zero-terminated string that starts at `i`, without the
/// terminator.
pub open spec fn cstr_bytes(d: Seq<u8>, i: int) -> Seq<u8> {
    d.subrange(i, cstr_end(d, i))
}

/// The error of parsing a `Byte2` or `Byte4` from a string of the wrong
/// length.
#[derive(Debug)]
pub struct ParseBytesError;

/// Two bytes, most significant first.
#[derive(Debug, Default, Clone, Copy, PartialEq, Eq, Structural)]
pub struct Byte2(pub u8, pub u8);

impl Byte2 {
    /// The big-endian integer value of the two bytes.
    pub open spec fn value(&self) -> int {
        self.0 * 0x100 + self.1
    }

    pub fn to_u16(&self) -> (r: u16)
        ensures
            r == self.value(),
    {
        (self.0 as u16) * 0x100 + (self.1 as u16)
    }

    pub fn to_u32(&self) -> (r: u32)
        ensures
            r == self.value(),
    {
        self.to_u16() as u32
    }

    pub fn to_u64(&self) -> (r: u64)
        ensures
            r == self.value(),
    {
        self.to_u16() as u64
    }

    pub fn to_usize(&self) -> (r: usize)
        ensures
            r == self.value(),
    {
        self.to_u16() as usize
    }

    /// Parses a two-character string: succeeds exactly when the string
    /// encodes as two bytes, which become the fields in order.
    pub fn from_str(s: &str) -> (r: Result<Byte2, ParseBytesError>)
        ensures
            match r {
                Ok(b) => s.spec_bytes().len() == 2 && b.0 == s.spec_bytes()[0] && b.1
                    == s.spec_bytes()[1],
                Err(_) => s.spec_bytes().len() != 2,
            },
    {
        let bytes = s.as_bytes();
        if bytes.len() != 2 {
            Err(ParseBytesError)
        } else {
            Ok(Byte2(bytes[0], bytes[1]))
        }
    }
}

/// Four bytes, most significant first: the library's FourCC tag, used as box
/// type, brand, handler type, reference type, grouping type and item type.
#[derive(Debug, Default, Clone, Copy, PartialEq, Eq, Structural)]
pub struct Byte4(pub u8, pub u8, pub u8, pub u8);

impl Byte4 {
    /// The big-endian integer value of the four bytes.
    pub open spec fn value(&self) -> int {
        self.0 * 0x100_0000 + self.1 * 0x1_0000 + self.2 * 0x100 + self.3
    }

    /// The four bytes as a sequence.
    pub open spec fn bytes_seq(&self) -> Seq<u8> {
        seq![self.0, self.1, self.2, self.3]
    }

    /// The four bytes read as characters.
    pub open spec fn chars(&self) -> Seq<char> {
        seq![self.0 as char, self.1 as char, self.2 as char, self.3 as char]
    }

    /// True when all four bytes are ASCII.
    pub open spec fn is_ascii_tag(&self) -> bool {
        self.0 < 0x80 && self.1 < 0x80 && self.2 < 0x80 && self.3 < 0x80
    }

    pub fn to_u32(&self) -> (r: u32)
        ensures
            r == self.value(),
    {
        (self.0 as u32) * 0x100_0000 + (self.1 as u32) * 0x1_0000 + (self.2 as u32) * 0x100 + (
        self.3 as u32)
    }

    pub fn to_u64(&self) -> (r: u64)
        ensures
            r == self.value(),
    {
        self.to_u32() as u64
    }

    pub fn to_usize(&self) -> (r: usize)
        ensures
            r == self.value(),
    {
        self.to_u32() as usize
    }

    /// Parses a four-character string: succeeds exactly when the string
    /// encodes as four bytes, which become the fields in order.
    pub fn from_str(s: &str) -> (r: Result<Byte4, ParseBytesError>)
        ensures
            match r {
                Ok(b) => s.spec_bytes().len() == 4 && b.bytes_seq() =~= s.spec_bytes(),
                Err(_) => s.spec_bytes().len() != 4,
            },
    {
        let bytes = s.as_bytes();
        if bytes.len() != 4 {
            Err(ParseBytesError)
        } else {
            Ok(Byte4(bytes[0], bytes[1], bytes[2], bytes[3]))
        }
    }

    /// Renders the tag as a four-character string.
    pub fn to_string(&self) -> (r: String)
        ensures
            r@ == self.chars(),
    {
        let mut s = String::new();
        push_char(&mut s, self.0 as char);
        push_char(&mut s, self.1 as char);
        push_char(&mut s, self.2 as char);
        push_char(&mut s, self.3 as char);
        proof {
            assert(s@ =~= self.chars());
        }
        s
    }

    /// True exactly when the string's byte encoding is the four bytes of the
    /// tag.
    pub fn eq_str(&self, s: &str) -> (r: bool)
        ensures
            r == (s.spec_bytes() =~= self.bytes_seq()),
    {
        let bytes = s.as_bytes();
        if bytes.len() != 4 {
            proof {
                assert(s.spec_bytes() != self.bytes_seq());
            }
            false
        } else {
            let r = bytes[0] == self.0 && bytes[1] == self.1 && bytes[2] == self.2 && bytes[3]
                == self.3;
            proof {
                if r {
                    assert(s.spec_bytes() =~= self.bytes_seq());
                }
            }
            r
        }
    }
}

impl std::str::FromStr for Byte2 {
    type Err = ParseBytesError;

    fn from_str(s: &str) -> Result<Byte2, ParseBytesError> {
        Byte2::from_str(s)
    }
}

impl std::str::FromStr for Byte4 {
    type Err = ParseBytesError;

    fn from_str(s: &str) -> Result<Byte4, ParseBytesError> {
        Byte4::from_str(s)
    }
}

/// An ASCII FourCC rendered by [`Byte4::to_string`] encodes back to the same
/// four bytes, so [`Byte4::from_str`] on the rendered string returns the
/// original tag.
pub proof fn lemma_fourcc_round_trip(b: Byte4)
    requires
        b.is_ascii_tag(),
    ensures
        encode_utf8(b.chars()).len() == 4,
        encode_utf8(b.chars()) =~= b.bytes_seq(),
{
    assert(is_ascii_chars(b.chars()));
    is_ascii_chars_encode_utf8(b.chars());
}

/// A four-character ASCII string parsed by [`Byte4::from_str`] renders back
/// identically through [`Byte4::to_string`].
pub proof fn lemma_fourcc_parse_render(s: Seq<char>)
    requires
        s.len() == 4,
        is_ascii_chars(s),
    ensures
        encode_utf8(s).len() == 4,
        (Byte4(
            encode_utf8(s)[0],
            encode_utf8(s)[1],
            encode_utf8(s)[2],
            encode_utf8(s)[3],
        )).chars() =~= s,
{
    is_ascii_chars_encode_utf8(s);
}

/// Eight bytes, most significant first.
#[derive(Debug, Default, Clone, Copy, PartialEq, Eq, Structural)]
pub struct Byte8(
    pub u8,
    pub u8,
    pub u8,
    pub u8,
    pub u8,
    pub u8,
    pub u8,
    pub u8,
);

impl Byte8 {
    /// The big-endian integer value of the eight bytes.
    pub open spec fn value(&self) -> int {
        self.0 * 0x100_0000_0000_0000 + self.1 * 0x1_0000_0000_0000 + self.2 * 0x100_0000_0000
            + self.3 * 0x1_0000_0000 + self.4 * 0x100_0000 + self.5 * 0x1_0000 + self.6 * 0x100
            + self.7
    }

    pub fn to_u64(&self) -> (r: u64)
        ensures
            r == self.value(),
    {
        (self.0 as u64) * 0x100_0000_0000_0000 + (self.1 as u64) * 0x1_0000_0000_0000 + (
        self.2 as u64) * 0x100_0000_0000 + (self.3 as u64) * 0x1_0000_0000 + (self.4 as u64)
            * 0x100_0000 + (self.5 as u64) * 0x1_0000 + (self.6 as u64) * 0x100 + (self.7 as u64)
    }
}

/// Relies on `String::push`: appends exactly one character to the string.
#[verifier::external_body]
fn push_char(s: &mut String, c: char)
    ensures
        final(s)@ == old(s)@.push(c),
{
    s.push(c);
}

/// Relies on `String::from_utf8_lossy`: bytes that are valid UTF-8 decode to
/// themselves, so an all-ASCII byte sequence decodes character by character.
#[verifier::external_body]
fn bytes_to_string(bytes: &Vec<u8>) -> (r: String)
    ensures
        (forall|i: int| 0 <= i < bytes@.len() ==> bytes@[i] < 0x80) ==> r@ == bytes@.map_values(
            |b: u8| b as char,
        ),
{
    String::from_utf8_lossy(bytes.as_slice()).into_owned()
}

/// A positioned view over a byte buffer, with a byte cursor and a bit cursor
/// inside the current byte.
#[derive(Debug, Default)]
pub struct BitStream {
    pub inner: Vec<u8>,
    pub bit_offset: u8,
    pub byte_offset: usize,
}

impl BitStream {
    /// The cursors address a position inside the buffer: the bit cursor stays
    /// below eight and the overall bit position never passes the end.
    pub open spec fn wf(&self) -> bool {
        &&& self.bit_offset < 8
        &&& self.inner.len() == self.inner@.len()
        &&& self.byte_offset * 8 + self.bit_offset <= self.inner@.len() * 8
    }

    /// The overall position, in bits from the start of the buffer.
    pub open spec fn bitpos(&self) -> int {
        self.byte_offset * 8 + self.bit_offset
    }

    /// How many bits remain between the cursor and the end of the buffer.
    pub open spec fn bits_left(&self) -> int {
        self.inner@.len() * 8 - self.bitpos()
    }

    /// True when the two streams hold the same bytes and stand at the same
    /// position.
    pub open spec fn same_as(&self, other: &BitStream) -> bool {
        &&& self.inner@ == other.inner@
        &&& self.byte_offset == other.byte_offset
        &&& self.bit_offset == other.bit_offset
    }

    pub fn new(inner: Vec<u8>) -> (r: BitStream)
        ensures
            r.inner@ == inner@,
            r.byte_offset == 0,
            r.bit_offset == 0,
            r.wf(),
    {
        BitStream { inner, bit_offset: 0, byte_offset: 0 }
    }

    pub fn len(&self) -> (r: usize)
        ensures
            r == self.inner@.len(),
    {
        self.inner.len()
    }

    pub fn num_bytes_left(&self) -> (r: usize)
        requires
            self.wf(),
        ensures
            r == self.inner@.len() - self.byte_offset,
    {
        proof {
            assert(self.byte_offset * 8 <= self.inner@.len() * 8);
        }
        self.inner.len() - self.byte_offset
    }

    pub fn has_bytes(&self, n: usize) -> (r: bool)
        requires
            self.wf(),
        ensures
            r == (self.inner@.len() - self.byte_offset >= n),
    {
        self.num_bytes_left() >= n
    }

    pub fn is_eof(&self) -> (r: bool)
        requires
            self.wf(),
        ensures
            r == (self.byte_offset >= self.inner@.len()),
    {
        self.byte_offset >= self.inner.len()
    }

    pub fn current_byte(&self) -> (r: Result<u8, HeifError>)
        requires
            self.wf(),
        ensures
            match r {
                Ok(b) => self.byte_offset < self.inner@.len() && b == self.inner@[self.byte_offset as int],
                Err(e) => e == HeifError::EndOfStream && self.byte_offset >= self.inner@.len(),
            },
    {
        if self.is_eof() {
            Err(HeifError::EndOfStream)
        } else {
            Ok(self.inner[self.byte_offset])
        }
    }

    pub fn skip_bytes(&mut self, n: usize) -> (r: Result<usize, HeifError>)
        requires
            old(self).wf(),
            old(self).bit_offset == 0,
        ensures
            final(self).inner@ == old(self).inner@,
            final(self).wf(),
            final(self).bit_offset == 0,
            match r {
                Ok(p) => {
                    &&& old(self).inner@.len() - old(self).byte_offset >= n
                    &&& final(self).byte_offset == old(self).byte_offset + n
                    &&& p == final(self).byte_offset
                },
                Err(e) => {
                    &&& e == HeifError::EndOfStream
                    &&& old(self).inner@.len() - old(self).byte_offset < n
                    &&& final(self).same_as(old(self))
                },
            },
    {
        let left = self.num_bytes_left();
        if n > left {
            return Err(HeifError::EndOfStream);
        }
        self.byte_offset = self.byte_offset + n;
        Ok(self.byte_offset)
    }

    pub fn read_byte(&mut self) -> (r: Result<u8, HeifError>)
        requires
            old(self).wf(),
            old(self).bit_offset == 0,
        ensures
            final(self).inner@ == old(self).inner@,
            final(self).wf(),
            final(self).bit_offset == 0,
            match r {
                Ok(b) => {
                    &&& old(self).byte_offset < old(self).inner@.len()
                    &&& b == old(self).inner@[old(self).byte_offset as int]
                    &&& final(self).byte_offset == old(self).byte_offset + 1
                },
                Err(e) => {
                    &&& e == HeifError::EndOfStream
                    &&& old(self).byte_offset >= old(self).inner@.len()
                    &&& final(self).same_as(old(self))
                },
            },
    {
        if !self.has_bytes(1) {
            return Err(HeifError::EndOfStream);
        }
        let b = self.inner[self.byte_offset];
        self.byte_offset = self.byte_offset + 1;
        Ok(b)
    }

    pub fn read_2bytes(&mut self) -> (r: Result<Byte2, HeifError>)
        requires
            old(self).wf(),
            old(self).bit_offset == 0,
        ensures
            final(self).inner@ == old(self).inner@,
            final(self).wf(),
            final(self).bit_offset == 0,
            match r {
                Ok(b) => {
                    &&& old(self).inner@.len() - old(self).byte_offset >= 2
                    &&& b.0 == old(self).inner@[old(self).byte_offset as int]
                    &&& b.1 == old(self).inner@[old(self).byte_offset + 1]
                    &&& final(self).byte_offset == old(self).byte_offset + 2
                },
                Err(e) => {
                    &&& e == HeifError::EndOfStream
                    &&& old(self).inner@.len() - old(self).byte_offset < 2
                    &&& final(self).same_as(old(self))
                },
            },
    {
        if !self.has_bytes(2) {
            return Err(HeifError::EndOfStream);
        }
        let b = Byte2(self.inner[self.byte_offset], self.inner[self.byte_offset + 1]);
        self.byte_offset = self.byte_offset + 2;
        Ok(b)
    }

    pub fn read_4bytes(&mut self) -> (r: Result<Byte4, HeifError>)
        requires
            old(self).wf(),
            old(self).bit_offset == 0,
        ensures
            final(self).inner@ == old(self).inner@,
            final(self).wf(),
            final(self).bit_offset == 0,
            match r {
                Ok(b) => {
                    &&& old(self).inner@.len() - old(self).byte_offset >= 4
                    &&& b.0 == old(self).inner@[old(self).byte_offset as int]
                    &&& b.1 == old(self).inner@[old(self).byte_offset + 1]
                    &&& b.2 == old(self).inner@[old(self).byte_offset + 2]
                    &&& b.3 == old(self).inner@[old(self).byte_offset + 3]
                    &&& final(self).byte_offset == old(self).byte_offset + 4
                },
                Err(e) => {
                    &&& e == HeifError::EndOfStream
                    &&& old(self).inner@.len() - old(self).byte_offset < 4
                    &&& final(self).same_as(old(self))
                },
            },
    {
        if !self.has_bytes(4) {
            return Err(HeifError::EndOfStream);
        }
        let b = Byte4(
            self.inner[self.byte_offset],
            self.inner[self.byte_offset + 1],
            self.inner[self.byte_offset + 2],
            self.inner[self.byte_offset + 3],
        );
        self.byte_offset = self.byte_offset + 4;
        Ok(b)
    }

    pub fn read_8bytes(&mut self) -> (r: Result<Byte8, HeifError>)
        requires
            old(self).wf(),
            old(self).bit_offset == 0,
        ensures
            final(self).inner@ == old(self).inner@,
            final(self).wf(),
            final(self).bit_offset == 0,
            match r {
                Ok(b) => {
                    &&& old(self).inner@.len() - old(self).byte_offset >= 8
                    &&& b.0 == old(self).inner@[old(self).byte_offset as int]
                    &&& b.1 == old(self).inner@[old(self).byte_offset + 1]
                    &&& b.2 == old(self).inner@[old(self).byte_offset + 2]
                    &&& b.3 == old(self).inner@[old(self).byte_offset + 3]
                    &&& b.4 == old(self).inner@[old(self).byte_offset + 4]
                    &&& b.5 == old(self).inner@[old(self).byte_offset + 5]
                    &&& b.6 == old(self).inner@[old(self).byte_offset + 6]
                    &&& b.7 == old(self).inner@[old(self).byte_offset + 7]
                    &&& final(self).byte_offset == old(self).byte_offset + 8
                },
                Err(e) => {
                    &&& e == HeifError::EndOfStream
                    &&& old(self).inner@.len() - old(self).byte_offset < 8
                    &&& final(self).same_as(old(self))
                },
            },
    {
        if !self.has_bytes(8) {
            return Err(HeifError::EndOfStream);
        }
        let b = Byte8(
            self.inner[self.byte_offset],
            self.inner[self.byte_offset + 1],
            self.inner[self.byte_offset + 2],
            self.inner[self.byte_offset + 3],
            self.inner[self.byte_offset + 4],
            self.inner[self.byte_offset + 5],
            self.inner[self.byte_offset + 6],
            self.inner[self.byte_offset + 7],
        );
        self.byte_offset = self.byte_offset + 8;
        Ok(b)
    }

    /// Reads `n` bits, most-significant-first, across byte boundaries.
    /// Reading zero bits returns 0 and advances nothing.
    pub fn read_bits(&mut self, n: usize) -> (r: Result<u64, HeifError>)
        requires
            old(self).wf(),
            n <= 64,
        ensures
            final(self).inner@ == old(self).inner@,
            final(self).wf(),
            match r {
                Ok(v) => {
                    &&& old(self).bits_left() >= n
                    &&& v == bits_val(old(self).inner@, old(self).bitpos(), n as nat)
                    &&& (n <= 8 ==> v < 0x100)
                    &&& (n <= 16 ==> v < 0x1_0000)
                    &&& (n <= 32 ==> v < 0x1_0000_0000)
                    &&& final(self).bit_offset == (old(self).bit_offset + n) % 8
                    &&& final(self).byte_offset == old(self).byte_offset + (old(self).bit_offset
                        + n) / 8
                },
                Err(e) => {
                    &&& e == HeifError::EndOfStream
                    &&& old(self).bits_left() < n
                    &&& final(self).same_as(old(self))
                },
            },
    {
        let bytes_left = self.inner.len() - self.byte_offset;
        let enough: bool = if bytes_left >= 9 {
            true
        } else {
            bytes_left * 8 - (self.bit_offset as usize) >= n
        };
        if !enough {
            return Err(HeifError::EndOfStream);
        }
        let ghost d = self.inner@;
        let ghost p0 = self.bitpos();
        let ghost ob = self.byte_offset as int;
        let ghost obit = self.bit_offset as int;
        let mut acc: u64 = 0;
        let mut i: usize = 0;
        while i < n
            invariant
                i <= n,
                n <= 64,
                self.inner@ == d,
                self.wf(),
                self.bit_offset == (obit + i) % 8,
                self.byte_offset == ob + (obit + i) / 8,
                self.bitpos() == p0 + i,
                self.bits_left() >= n - i,
                acc == bits_val(d, p0, i as nat),
            decreases n - i,
        {
            proof {
                lemma_bits_val_fits_u64(d, p0, i as nat);
                assert(self.byte_offset < self.inner@.len());
            }
            let b = self.inner[self.byte_offset];
            let bit: u8 = (b >> (7 - self.bit_offset)) & 1;
            proof {
                assert(self.bitpos() / 8 == self.byte_offset && self.bitpos() % 8
                    == self.bit_offset) by (nonlinear_arith)
                    requires
                        self.bit_offset < 8,
                        self.bitpos() == self.byte_offset * 8 + self.bit_offset,
                ;
                assert(bit == bit_at(d, p0 + i));
                lemma_bit_at_bound(d, p0 + i);
            }
            acc = acc * 2 + (bit as u64);
            if self.bit_offset == 7 {
                self.byte_offset = self.byte_offset + 1;
                self.bit_offset = 0;
            } else {
                self.bit_offset = self.bit_offset + 1;
            }
            i = i + 1;
        }
        proof {
            lemma_bits_val_bound(old(self).inner@, old(self).bitpos(), n as nat);
            if n <= 8 {
                lemma_two_to_mono(n as nat, 8);
                assert(two_to(8) == 0x100) by {
                    reveal_with_fuel(two_to, 9);
                }
            }
            if n <= 16 {
                lemma_two_to_mono(n as nat, 16);
                assert(two_to(16) == 0x1_0000) by {
                    reveal_with_fuel(two_to, 17);
                }
            }
            if n <= 32 {
                lemma_two_to_mono(n as nat, 32);
                assert(two_to(16) == 0x1_0000) by {
                    reveal_with_fuel(two_to, 17);
                }
                assert(two_to(32) == 0x1_0000_0000) by {
                    reveal_with_fuel(two_to, 17);
                }
            }
        }
        Ok(acc)
    }

    /// Copies the next `size` bytes into a fresh vector and advances past
    /// them.
    pub fn read_bytes(&mut self, size: usize) -> (r: Result<Vec<u8>, HeifError>)
        requires
            old(self).wf(),
            old(self).bit_offset == 0,
        ensures
            final(self).inner@ == old(self).inner@,
            final(self).wf(),
            final(self).bit_offset == 0,
            match r {
                Ok(v) => {
                    &&& old(self).inner@.len() - old(self).byte_offset >= size
                    &&& v@ == old(self).inner@.subrange(
                        old(self).byte_offset as int,
                        old(self).byte_offset + size,
                    )
                    &&& final(self).byte_offset == old(self).byte_offset + size
                },
                Err(e) => {
                    &&& e == HeifError::EndOfStream
                    &&& old(self).inner@.len() - old(self).byte_offset < size
                    &&& final(self).same_as(old(self))
                },
            },
    {
        if !self.has_bytes(size) {
            return Err(HeifError::EndOfStream);
        }
        let start = self.byte_offset;
        let mut v: Vec<u8> = Vec::new();
        let mut i: usize = 0;
        while i < size
            invariant
                self.wf(),
                i <= size,
                start + size <= self.inner@.len(),
                v@ == self.inner@.subrange(start as int, start + i),
            decreases size - i,
        {
            v.push(self.inner[start + i]);
            proof {
                assert(v@ =~= self.inner@.subrange(start as int, start + i + 1));
            }
            i = i + 1;
        }
        self.byte_offset = start + size;
        Ok(v)
    }

    /// Copies `length` bytes starting at the absolute offset `offset`,
    /// without moving the cursor.
    pub fn slice(&self, offset: usize, length: usize) -> (r: Result<Vec<u8>, HeifError>)
        ensures
            match r {
                Ok(v) => {
                    &&& offset + length <= self.inner@.len()
                    &&& v@ == self.inner@.subrange(offset as int, offset + length)
                },
                Err(e) => e == HeifError::EndOfStream && offset + length > self.inner@.len(),
            },
    {
        if length > self.inner.len() || offset > self.inner.len() - length {
            return Err(HeifError::EndOfStream);
        }
        let mut v: Vec<u8> = Vec::new();
        let mut i: usize = 0;
        while i < length
            invariant
                i <= length,
                self.inner.len() == self.inner@.len(),
                offset + length <= self.inner@.len(),
                v@ == self.inner@.subrange(offset as int, offset + i),
            decreases length - i,
        {
            v.push(self.inner[offset + i]);
            proof {
                assert(v@ =~= self.inner@.subrange(offset as int, offset + i + 1));
            }
            i = i + 1;
        }
        Ok(v)
    }

    /// Reads bytes until a zero byte or the end of the stream; the zero
    /// terminator is consumed when present and is not part of the result.
    /// The bytes before the terminator become the string; when they are all
    /// ASCII the string holds exactly those characters.
    pub fn read_zero_term_string(&mut self) -> (r: String)
        requires
            old(self).wf(),
            old(self).bit_offset == 0,
        ensures
            final(self).inner@ == old(self).inner@,
            final(self).wf(),
            final(self).bit_offset == 0,
            ({
                let d = old(self).inner@;
                let start = old(self).byte_offset as int;
                &&& final(self).byte_offset == cstr_after(d, start)
                &&& ascii_str_of(cstr_bytes(d, start), r@)
            }),
    {
        let ghost d = self.inner@;
        let ghost start = self.byte_offset as int;
        let mut collected: Vec<u8> = Vec::new();
        let mut terminated: bool = false;
        while !terminated && self.byte_offset < self.inner.len()
            invariant
                self.inner@ == d,
                self.wf(),
                self.bit_offset == 0,
                0 <= start <= self.byte_offset <= d.len(),
                collected@ == d.subrange(start, start + collected@.len()),
                !terminated ==> {
                    &&& self.byte_offset == start + collected@.len()
                    &&& cstr_end(d, start) == cstr_end(d, self.byte_offset as int)
                },
                terminated ==> {
                    &&& cstr_end(d, start) == start + collected@.len()
                    &&& cstr_end(d, start) < d.len()
                    &&& self.byte_offset == start + collected@.len() + 1
                },
            decreases d.len() - self.byte_offset, if terminated {
                0int
            } else {
                1int
            },
        {
            let ch = self.inner[self.byte_offset];
            self.byte_offset = self.byte_offset + 1;
            if ch == 0 {
                terminated = true;
            } else {
                collected.push(ch);
                proof {
                    assert(collected@ =~= d.subrange(start, start + collected@.len()));
                }
            }
        }
        proof {
            if !terminated {
                assert(cstr_end(d, start) == d.len());
            }
            let content = d.subrange(start, cstr_end(d, start));
            assert(collected@ =~= content);
        }
        bytes_to_string(&collected)
    }


    /// Reads `count` big-endian 16-bit integers, widened to 32 bits.
    pub fn read_be16s_as_u32(&mut self, count: usize) -> (r: Result<Vec<u32>, HeifError>)
        requires
            old(self).wf(),
            old(self).bit_offset == 0,
        ensures
            final(self).inner@ == old(self).inner@,
            final(self).wf(),
            final(self).bit_offset == 0,
            match r {
                Ok(v) => {
                    &&& old(self).inner@.len() - old(self).byte_offset >= 2 * count
                    &&& v@.len() == count
                    &&& (forall|i: int|
                        0 <= i < count ==> v@[i] == be16(
                            old(self).inner@,
                            old(self).byte_offset + 2 * i,
                        ))
                    &&& final(self).byte_offset == old(self).byte_offset + 2 * count
                },
                Err(e) => {
                    &&& e == HeifError::EndOfStream
                    &&& old(self).inner@.len() - old(self).byte_offset < 2 * count
                    &&& final(self).same_as(old(self))
                },
            },
    {
        if self.num_bytes_left() / 2 < count {
            return Err(HeifError::EndOfStream);
        }
        let ghost d = self.inner@;
        let ghost p = self.byte_offset as int;
        let mut v: Vec<u32> = Vec::new();
        let mut i: usize = 0;
        while i < count
            invariant
                d == old(self).inner@,
                p == old(self).byte_offset as int,
                self.inner@ == d,
                self.wf(),
                self.bit_offset == 0,
                i <= count,
                d.len() - p >= 2 * count,
                self.byte_offset == p + 2 * i,
                v@.len() == i,
                forall|j: int| 0 <= j < i ==> v@[j] == be16(d, p + 2 * j),
            decreases count - i,
        {
            let b = self.read_2bytes()?;
            v.push(b.to_u32());
            i = i + 1;
        }
        Ok(v)
    }

    /// Reads `count` big-endian 32-bit integers.
    pub fn read_be32s(&mut self, count: usize) -> (r: Result<Vec<u32>, HeifError>)
        requires
            old(self).wf(),
            old(self).bit_offset == 0,
        ensures
            final(self).inner@ == old(self).inner@,
            final(self).wf(),
            final(self).bit_offset == 0,
            match r {
                Ok(v) => {
                    &&& old(self).inner@.len() - old(self).byte_offset >= 4 * count
                    &&& v@.len() == count
                    &&& (forall|i: int|
                        0 <= i < count ==> v@[i] == be32(
                            old(self).inner@,
                            old(self).byte_offset + 4 * i,
                        ))
                    &&& final(self).byte_offset == old(self).byte_offset + 4 * count
                },
                Err(e) => {
                    &&& e == HeifError::EndOfStream
                    &&& old(self).inner@.len() - old(self).byte_offset < 4 * count
                    &&& final(self).same_as(old(self))
                },
            },
    {
        if self.num_bytes_left() / 4 < count {
            return Err(HeifError::EndOfStream);
        }
        let ghost d = self.inner@;
        let ghost p = self.byte_offset as int;
        let mut v: Vec<u32> = Vec::new();
        let mut i: usize = 0;
        while i < count
            invariant
                d == old(self).inner@,
                p == old(self).byte_offset as int,
                self.inner@ == d,
                self.wf(),
                self.bit_offset == 0,
                i <= count,
                d.len() - p >= 4 * count,
                self.byte_offset == p + 4 * i,
                v@.len() == i,
                forall|j: int| 0 <= j < i ==> v@[j] == be32(d, p + 4 * j),
            decreases count - i,
        {
            let b = self.read_4bytes()?;
            v.push(b.to_u32());
            i = i + 1;
        }
        Ok(v)
    }

    /// Returns a bounded sub-stream over the next `size` bytes; the outer
    /// cursor advances past them and the sub-stream starts at its beginning.
    pub fn extract(&mut self, size: usize) -> (r: Result<BitStream, HeifError>)
        requires
            old(self).wf(),
            old(self).bit_offset == 0,
        ensures
            final(self).inner@ == old(self).inner@,
            final(self).wf(),
            final(self).bit_offset == 0,
            match r {
                Ok(ex) => {
                    &&& old(self).inner@.len() - old(self).byte_offset >= size
                    &&& ex.inner@ == old(self).inner@.subrange(
                        old(self).byte_offset as int,
                        old(self).byte_offset + size,
                    )
                    &&& ex.byte_offset == 0
                    &&& ex.bit_offset == 0
                    &&& ex.wf()
                    &&& final(self).byte_offset == old(self).byte_offset + size
                },
                Err(e) => {
                    &&& e == HeifError::EndOfStream
                    &&& old(self).inner@.len() - old(self).byte_offset < size
                    &&& final(self).same_as(old(self))
                },
            },
    {
        let bytes = self.read_bytes(size)?;
        Ok(BitStream::new(bytes))
    }
}

} // verus!
