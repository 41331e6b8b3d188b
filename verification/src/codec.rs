//! Fixed-width integer byte encodings in both endiannesses.
//!
//! The specification functions here say what it means to render a value
//! into bytes and to read a value back out of bytes; the executable
//! functions are proved against them, and the lemmas establish that
//! decoding an encoding gives the value back.

use vstd::arithmetic::power::pow;
use vstd::prelude::*;

verus! {

/// Little-endian rendering of `v` into `width` bytes: lowest 8 bits first.
pub open spec fn le_bytes_of(v: nat, width: nat) -> Seq<u8>
    decreases width,
{
    if width == 0 {
        Seq::empty()
    } else {
        seq![(v % 256) as u8] + le_bytes_of(v / 256, (width - 1) as nat)
    }
}

/// Big-endian rendering: the same bytes, most significant first.
pub open spec fn be_bytes_of(v: nat, width: nat) -> Seq<u8> {
    le_bytes_of(v, width).reverse()
}

/// The value denoted by a little-endian byte sequence.
pub open spec fn le_value_of(s: Seq<u8>) -> nat
    decreases s.len(),
{
    if s.len() == 0 {
        0
    } else {
        s[0] as nat + 256 * le_value_of(s.drop_first())
    }
}

/// The value denoted by a big-endian byte sequence.
pub open spec fn be_value_of(s: Seq<u8>) -> nat {
    le_value_of(s.reverse())
}

pub proof fn lemma_le_bytes_len(v: nat, width: nat)
    ensures
        le_bytes_of(v, width).len() == width,
    decreases width,
{
    if width > 0 {
        lemma_le_bytes_len(v / 256, (width - 1) as nat);
    }
}

/// Every `width`-byte value is below `pow(256, width)`.
pub proof fn lemma_le_value_bound(s: Seq<u8>)
    ensures
        le_value_of(s) < pow(256, s.len()),
    decreases s.len(),
{
    reveal(pow);
    if s.len() == 0 {
    } else {
        lemma_le_value_bound(s.drop_first());
        assert(le_value_of(s) == s[0] as nat + 256 * le_value_of(s.drop_first()));
        assert(pow(256, s.len()) == 256 * pow(256, (s.len() - 1) as nat));
    }
}

/// Reading back a little-endian encoding recovers the value.
pub proof fn lemma_le_round_trip(v: nat, width: nat)
    requires
        v < pow(256, width),
    ensures
        le_value_of(le_bytes_of(v, width)) == v,
    decreases width,
{
    reveal(pow);
    if width == 0 {
    } else {
        let rest = v / 256;
        assert(pow(256, width) == 256 * pow(256, (width - 1) as nat));
        assert(rest < pow(256, (width - 1) as nat)) by {
            vstd::arithmetic::div_mod::lemma_multiply_divide_lt(
                v as int,
                256,
                pow(256, (width - 1) as nat) as int,
            );
        }
        lemma_le_round_trip(rest, (width - 1) as nat);
        let s = le_bytes_of(v, width);
        assert(s.drop_first() =~= le_bytes_of(rest, (width - 1) as nat));
        assert(v == 256 * (v / 256) + v % 256) by {
            vstd::arithmetic::div_mod::lemma_fundamental_div_mod(v as int, 256);
        }
    }
}

/// Reading back a big-endian encoding recovers the value.
pub proof fn lemma_be_round_trip(v: nat, width: nat)
    requires
        v < pow(256, width),
    ensures
        be_value_of(be_bytes_of(v, width)) == v,
{
    let s = le_bytes_of(v, width);
    assert(s.reverse().reverse() =~= s);
    lemma_le_round_trip(v, width);
}

/// Concrete values of the powers of 256 that the executable code needs.
pub proof fn lemma_pow256_values()
    ensures
        pow(256, 0) == 1,
        pow(256, 1) == 0x100,
        pow(256, 2) == 0x10000,
        pow(256, 3) == 0x1000000,
        pow(256, 4) == 0x100000000,
        pow(256, 5) == 0x10000000000,
        pow(256, 6) == 0x1000000000000,
        pow(256, 7) == 0x100000000000000,
        pow(256, 8) == 0x10000000000000000,
{
    reveal(pow);
    assert(pow(256, 0) == 1);
    assert(pow(256, 1) == 0x100);
    assert(pow(256, 2) == 0x10000);
    assert(pow(256, 3) == 0x1000000);
    assert(pow(256, 4) == 0x100000000);
    assert(pow(256, 5) == 0x10000000000);
    assert(pow(256, 6) == 0x1000000000000);
    assert(pow(256, 7) == 0x100000000000000);
    assert(pow(256, 8) == 0x10000000000000000);
}

/// Renders the low `width` bytes of `v`, least significant first.
pub fn encode_le(v: u64, width: usize) -> (r: Vec<u8>)
    ensures
        r@ == le_bytes_of(v as nat, width as nat),
        r@.len() == width,
{
    let mut out: Vec<u8> = Vec::new();
    let mut x: u64 = v;
    let mut i: usize = 0;
    proof {
        assert(out@ + le_bytes_of(x as nat, width as nat) =~= le_bytes_of(
            v as nat,
            width as nat,
        ));
    }
    while i < width
        invariant
            i <= width,
            out@.len() == i,
            out@ + le_bytes_of(x as nat, (width - i) as nat) == le_bytes_of(
                v as nat,
                width as nat,
            ),
        decreases width - i,
    {
        let b: u8 = (x % 256) as u8;
        proof {
            assert(le_bytes_of(x as nat, (width - i) as nat) == seq![b] + le_bytes_of(
                (x as nat) / 256,
                (width - i - 1) as nat,
            ));
            assert(out@.push(b) + le_bytes_of((x as nat) / 256, (width - i - 1) as nat)
                =~= out@ + le_bytes_of(x as nat, (width - i) as nat));
        }
        out.push(b);
        x = x / 256;
        i = i + 1;
    }
    proof {
        lemma_le_bytes_len(v as nat, width as nat);
        assert(out@ =~= le_bytes_of(v as nat, width as nat));
    }
    out
}

/// Copies a byte slice in reverse order.
pub fn reversed(b: &[u8]) -> (r: Vec<u8>)
    ensures
        r@ == b@.reverse(),
{
    let n = b.len();
    let mut out: Vec<u8> = Vec::new();
    let mut j: usize = 0;
    while j < n
        invariant
            j <= n,
            n == b@.len(),
            out@.len() == j,
            forall|k: int| 0 <= k < j ==> out@[k] == b@[n - 1 - k],
        decreases n - j,
    {
        let c = b[n - 1 - j];
        out.push(c);
        j = j + 1;
    }
    proof {
        assert(out@ =~= b@.reverse());
    }
    out
}

/// Renders the low `width` bytes of `v`, most significant first.
pub fn encode_be(v: u64, width: usize) -> (r: Vec<u8>)
    ensures
        r@ == be_bytes_of(v as nat, width as nat),
        r@.len() == width,
{
    let le = encode_le(v, width);
    let r = reversed(le.as_slice());
    proof {
        assert(r@.len() == width) by {
            lemma_le_bytes_len(v as nat, width as nat);
        }
    }
    r
}

/// Reads a value out of at most eight little-endian bytes.
pub fn le_value_u64(b: &[u8]) -> (r: u64)
    requires
        b@.len() <= 8,
    ensures
        r as nat == le_value_of(b@),
{
    let n = b.len();
    let mut x: u64 = 0;
    let mut j: usize = n;
    proof {
        assert(b@.subrange(n as int, n as int) =~= Seq::<u8>::empty());
    }
    while j > 0
        invariant
            j <= n,
            n == b@.len() <= 8,
            x as nat == le_value_of(b@.subrange(j as int, n as int)),
        decreases j,
    {
        proof {
            lemma_pow256_values();
            lemma_le_value_bound(b@.subrange(j as int, n as int));
            if n - j < 8 {
                vstd::arithmetic::power::lemma_pow_increases(256, (n - j) as nat, 7);
            }
            assert(x < pow(256, 7) == 0x100000000000000);
            let s = b@.subrange(j - 1, n as int);
            assert(s.drop_first() =~= b@.subrange(j as int, n as int));
            assert(le_value_of(s) == s[0] as nat + 256 * le_value_of(s.drop_first()));
        }
        let c = b[j - 1];
        x = x * 256 + (c as u64);
        j = j - 1;
    }
    proof {
        assert(b@.subrange(0, n as int) =~= b@);
    }
    x
}

/// Reads a value out of at most eight big-endian bytes.
pub fn be_value_u64(b: &[u8]) -> (r: u64)
    requires
        b@.len() <= 8,
    ensures
        r as nat == be_value_of(b@),
{
    let rev = reversed(b);
    le_value_u64(rev.as_slice())
}

// --- two's-complement views of signed values ---

/// The unsigned number whose bytes are the two's-complement form of `v`.
pub open spec fn unsigned8_of(v: i8) -> u8 {
    if v >= 0 {
        v as u8
    } else {
        (v + 0x100) as u8
    }
}

pub open spec fn unsigned16_of(v: i16) -> u16 {
    if v >= 0 {
        v as u16
    } else {
        (v + 0x10000) as u16
    }
}

pub open spec fn unsigned32_of(v: i32) -> u32 {
    if v >= 0 {
        v as u32
    } else {
        (v + 0x100000000) as u32
    }
}

pub open spec fn unsigned64_of(v: i64) -> u64 {
    if v >= 0 {
        v as u64
    } else {
        (v + 0x10000000000000000) as u64
    }
}

/// The signed reading of an unsigned number's two's-complement bytes.
pub open spec fn signed8_of(u: u8) -> i8 {
    if u < 0x80 {
        u as i8
    } else {
        (u - 0x100) as i8
    }
}

pub open spec fn signed16_of(u: u16) -> i16 {
    if u < 0x8000 {
        u as i16
    } else {
        (u - 0x10000) as i16
    }
}

pub open spec fn signed32_of(u: u32) -> i32 {
    if u < 0x80000000 {
        u as i32
    } else {
        (u - 0x100000000) as i32
    }
}

pub open spec fn signed64_of(u: u64) -> i64 {
    if u < 0x8000000000000000 {
        u as i64
    } else {
        (u - 0x10000000000000000) as i64
    }
}

pub fn i8_to_u8(v: i8) -> (r: u8)
    ensures
        r == unsigned8_of(v),
{
    if v >= 0 {
        v as u8
    } else {
        ((v as i16) + 0x100) as u8
    }
}

pub fn i16_to_u16(v: i16) -> (r: u16)
    ensures
        r == unsigned16_of(v),
{
    if v >= 0 {
        v as u16
    } else {
        ((v as i32) + 0x10000) as u16
    }
}

pub fn i32_to_u32(v: i32) -> (r: u32)
    ensures
        r == unsigned32_of(v),
{
    if v >= 0 {
        v as u32
    } else {
        ((v as i64) + 0x100000000) as u32
    }
}

pub fn i64_to_u64(v: i64) -> (r: u64)
    ensures
        r == unsigned64_of(v),
{
    if v >= 0 {
        v as u64
    } else {
        ((v as i128) + 0x10000000000000000) as u64
    }
}

pub fn u8_to_i8(u: u8) -> (r: i8)
    ensures
        r == signed8_of(u),
{
    if u < 0x80 {
        u as i8
    } else {
        ((u as i16) - 0x100) as i8
    }
}

pub fn u16_to_i16(u: u16) -> (r: i16)
    ensures
        r == signed16_of(u),
{
    if u < 0x8000 {
        u as i16
    } else {
        ((u as i32) - 0x10000) as i16
    }
}

pub fn u32_to_i32(u: u32) -> (r: i32)
    ensures
        r == signed32_of(u),
{
    if u < 0x80000000 {
        u as i32
    } else {
        ((u as i64) - 0x100000000) as i32
    }
}

pub fn u64_to_i64(u: u64) -> (r: i64)
    ensures
        r == signed64_of(u),
{
    if u < 0x8000000000000000 {
        u as i64
    } else {
        ((u as i128) - 0x10000000000000000) as i64
    }
}

/// The signed reading of a signed value's two's-complement form is the value.
pub proof fn lemma_signed_round_trip(a: i8, b: i16, c: i32, d: i64)
    ensures
        signed8_of(unsigned8_of(a)) == a,
        signed16_of(unsigned16_of(b)) == b,
        signed32_of(unsigned32_of(c)) == c,
        signed64_of(unsigned64_of(d)) == d,
{
}

} // verus!
