//! Typed search values, their byte-pattern encodings, the haystack
//! capability, and the substring scan that finds every occurrence of a
//! pattern.

use crate::codec;
use std::sync::Arc;
use vstd::prelude::*;
use vstd::string::StrSliceExecFns;
use vstd::string::StringSliceAdditionalSpecFns;

verus! {

/// Byte order of a multi-byte numeric pattern.
#[derive(Debug, Clone, Copy, PartialEq, Eq, Structural)]
pub enum Endianness {
    BigEndian,
    LittleEndian,
}

/// A typed search value, before encoding: the caller's search intent.
#[derive(Debug, Clone, Copy)]
pub enum Needle<'n> {
    U8(u8),
    I8(i8),
    U16(Endianness, u16),
    I16(Endianness, i16),
    U32(Endianness, u32),
    I32(Endianness, i32),
    U64(Endianness, u64),
    I64(Endianness, i64),
    Bytes(&'n [u8]),
    Str(&'n str),
}

/// Fixed-width rendering of a value in the requested byte order.
pub open spec fn endian_bytes_of(e: Endianness, v: nat, width: nat) -> Seq<u8> {
    match e {
        Endianness::BigEndian => codec::be_bytes_of(v, width),
        Endianness::LittleEndian => codec::le_bytes_of(v, width),
    }
}

/// The value denoted by bytes in the requested byte order.
pub open spec fn endian_value_of(e: Endianness, s: Seq<u8>) -> nat {
    match e {
        Endianness::BigEndian => codec::be_value_of(s),
        Endianness::LittleEndian => codec::le_value_of(s),
    }
}

/// The byte pattern a needle encodes to: two's complement for signed
/// values, the requested endianness for widths of two bytes and up, the
/// verbatim bytes for byte and text needles.
pub open spec fn encoded_bytes(n: Needle) -> Seq<u8> {
    match n {
        Needle::U8(v) => seq![v],
        Needle::I8(v) => seq![codec::unsigned8_of(v)],
        Needle::U16(e, v) => endian_bytes_of(e, v as nat, 2),
        Needle::I16(e, v) => endian_bytes_of(e, codec::unsigned16_of(v) as nat, 2),
        Needle::U32(e, v) => endian_bytes_of(e, v as nat, 4),
        Needle::I32(e, v) => endian_bytes_of(e, codec::unsigned32_of(v) as nat, 4),
        Needle::U64(e, v) => endian_bytes_of(e, v as nat, 8),
        Needle::I64(e, v) => endian_bytes_of(e, codec::unsigned64_of(v) as nat, 8),
        Needle::Bytes(b) => b@,
        Needle::Str(s) => s.spec_bytes(),
    }
}

/// An owned, immutable byte pattern, independent of the needle it came from.
#[derive(Debug)]
pub struct NeedleOwned {
    needle: Vec<u8>,
}

impl View for NeedleOwned {
    type V = Seq<u8>;

    closed spec fn view(&self) -> Seq<u8> {
        self.needle@
    }
}

impl NeedleOwned {
    /// Wraps caller-supplied bytes as a pattern, verbatim.
    pub fn from_data(data: Vec<u8>) -> (r: Self)
        ensures
            r@ == data@,
    {
        Self { needle: data }
    }

    /// Encodes a typed needle into its byte pattern. Total: every needle
    /// value encodes.
    pub fn encode(value: Needle<'_>) -> (r: Self)
        ensures
            r@ == encoded_bytes(value),
    {
        let needle: Vec<u8> = match value {
            Needle::U8(v) => {
                let mut b: Vec<u8> = Vec::new();
                b.push(v);
                b
            },
            Needle::I8(v) => {
                let mut b: Vec<u8> = Vec::new();
                b.push(codec::i8_to_u8(v));
                b
            },
            Needle::Bytes(v) => vstd::slice::slice_to_vec(v),
            Needle::Str(v) => v.as_bytes_vec(),
            Needle::U16(e, v) => match e {
                Endianness::BigEndian => codec::encode_be(v as u64, 2),
                Endianness::LittleEndian => codec::encode_le(v as u64, 2),
            },
            Needle::I16(e, v) => match e {
                Endianness::BigEndian => codec::encode_be(codec::i16_to_u16(v) as u64, 2),
                Endianness::LittleEndian => codec::encode_le(codec::i16_to_u16(v) as u64, 2),
            },
            Needle::U32(e, v) => match e {
                Endianness::BigEndian => codec::encode_be(v as u64, 4),
                Endianness::LittleEndian => codec::encode_le(v as u64, 4),
            },
            Needle::I32(e, v) => match e {
                Endianness::BigEndian => codec::encode_be(codec::i32_to_u32(v) as u64, 4),
                Endianness::LittleEndian => codec::encode_le(codec::i32_to_u32(v) as u64, 4),
            },
            Needle::U64(e, v) => match e {
                Endianness::BigEndian => codec::encode_be(v, 8),
                Endianness::LittleEndian => codec::encode_le(v, 8),
            },
            Needle::I64(e, v) => match e {
                Endianness::BigEndian => codec::encode_be(codec::i64_to_u64(v), 8),
                Endianness::LittleEndian => codec::encode_le(codec::i64_to_u64(v), 8),
            },
        };
        Self { needle }
    }

    /// Length in bytes of the encoded pattern.
    pub fn byte_length(&self) -> (r: usize)
        ensures
            r == self@.len(),
    {
        self.needle.len()
    }

    /// The encoded pattern's bytes.
    pub fn as_bytes(&self) -> (r: &[u8])
        ensures
            r@ == self@,
    {
        self.needle.as_slice()
    }
}

impl<'n> From<Needle<'n>> for NeedleOwned {
    fn from(value: Needle<'n>) -> (r: Self) {
        NeedleOwned::encode(value)
    }
}

impl<'n> vstd::std_specs::convert::FromSpecImpl<Needle<'n>> for NeedleOwned {
    open spec fn obeys_from_spec() -> bool {
        false
    }

    open spec fn from_spec(v: Needle<'n>) -> Self {
        vstd::pervasive::arbitrary()
    }
}

impl<'n> From<&'n str> for Needle<'n> {
    fn from(value: &'n str) -> (r: Self) {
        Needle::Str(value)
    }
}

impl<'n> vstd::std_specs::convert::FromSpecImpl<&'n str> for Needle<'n> {
    open spec fn obeys_from_spec() -> bool {
        true
    }

    open spec fn from_spec(v: &'n str) -> Self {
        Needle::Str(v)
    }
}

impl<'n> From<&'n [u8]> for Needle<'n> {
    fn from(value: &'n [u8]) -> (r: Self) {
        Needle::Bytes(value)
    }
}

impl<'n> vstd::std_specs::convert::FromSpecImpl<&'n [u8]> for Needle<'n> {
    open spec fn obeys_from_spec() -> bool {
        true
    }

    open spec fn from_spec(v: &'n [u8]) -> Self {
        Needle::Bytes(v)
    }
}

/// Decoding an encoded numeric needle with the matching width, byte order
/// and signedness gives the original value back; byte and text needles
/// encode verbatim.
pub proof fn lemma_encode_round_trip(n: Needle)
    ensures
        match n {
            Needle::U8(v) => encoded_bytes(n).len() == 1 && encoded_bytes(n)[0] == v,
            Needle::I8(v) => encoded_bytes(n).len() == 1 && codec::signed8_of(
                encoded_bytes(n)[0],
            ) == v,
            Needle::U16(e, v) => encoded_bytes(n).len() == 2 && endian_value_of(
                e,
                encoded_bytes(n),
            ) == v,
            Needle::I16(e, v) => encoded_bytes(n).len() == 2 && codec::signed16_of(
                endian_value_of(e, encoded_bytes(n)) as u16,
            ) == v,
            Needle::U32(e, v) => encoded_bytes(n).len() == 4 && endian_value_of(
                e,
                encoded_bytes(n),
            ) == v,
            Needle::I32(e, v) => encoded_bytes(n).len() == 4 && codec::signed32_of(
                endian_value_of(e, encoded_bytes(n)) as u32,
            ) == v,
            Needle::U64(e, v) => encoded_bytes(n).len() == 8 && endian_value_of(
                e,
                encoded_bytes(n),
            ) == v,
            Needle::I64(e, v) => encoded_bytes(n).len() == 8 && codec::signed64_of(
                endian_value_of(e, encoded_bytes(n)) as u64,
            ) == v,
            Needle::Bytes(b) => encoded_bytes(n) == b@,
            Needle::Str(s) => encoded_bytes(n) == s.spec_bytes(),
        },
{
    codec::lemma_pow256_values();
    match n {
        Needle::U8(v) => {},
        Needle::I8(v) => {},
        Needle::U16(e, v) => {
            lemma_endian_round_trip(e, v as nat, 2);
        },
        Needle::I16(e, v) => {
            lemma_endian_round_trip(e, codec::unsigned16_of(v) as nat, 2);
        },
        Needle::U32(e, v) => {
            lemma_endian_round_trip(e, v as nat, 4);
        },
        Needle::I32(e, v) => {
            lemma_endian_round_trip(e, codec::unsigned32_of(v) as nat, 4);
        },
        Needle::U64(e, v) => {
            lemma_endian_round_trip(e, v as nat, 8);
        },
        Needle::I64(e, v) => {
            lemma_endian_round_trip(e, codec::unsigned64_of(v) as nat, 8);
        },
        Needle::Bytes(b) => {},
        Needle::Str(s) => {},
    }
}

/// Helper for the round trip: in either byte order, a value below
/// `pow(256, width)` reads back from its rendering.
pub proof fn lemma_endian_round_trip(e: Endianness, v: nat, width: nat)
    requires
        v < vstd::arithmetic::power::pow(256, width),
    ensures
        endian_bytes_of(e, v, width).len() == width,
        endian_value_of(e, endian_bytes_of(e, v, width)) == v,
{
    codec::lemma_le_bytes_len(v, width);
    match e {
        Endianness::BigEndian => {
            codec::lemma_be_round_trip(v, width);
        },
        Endianness::LittleEndian => {
            codec::lemma_le_round_trip(v, width);
        },
    }
}

/// A byte buffer that a search session can own and read on a worker: the
/// view is stable for as long as the provider is held, and the provider can
/// move to another thread.
pub trait Haystack: Send + 'static {
    /// The bytes the provider exposes.
    spec fn view_bytes(&self) -> Seq<u8>;

    /// A borrowed view of exactly those bytes.
    fn as_bytes(&self) -> (r: &[u8])
        ensures
            r@ == self.view_bytes(),
    ;
}

impl Haystack for Vec<u8> {
    open spec fn view_bytes(&self) -> Seq<u8> {
        self@
    }

    fn as_bytes(&self) -> (r: &[u8]) {
        self.as_slice()
    }
}

impl Haystack for &'static [u8] {
    open spec fn view_bytes(&self) -> Seq<u8> {
        (*self)@
    }

    fn as_bytes(&self) -> (r: &[u8]) {
        *self
    }
}

impl Haystack for &'static str {
    open spec fn view_bytes(&self) -> Seq<u8> {
        self.spec_bytes()
    }

    fn as_bytes(&self) -> (r: &[u8]) {
        str::as_bytes(*self)
    }
}

impl Haystack for String {
    open spec fn view_bytes(&self) -> Seq<u8> {
        vstd::utf8::encode_utf8(self@)
    }

    fn as_bytes(&self) -> (r: &[u8]) {
        str::as_bytes(self.as_str())
    }
}

impl<const N: usize> Haystack for [u8; N] {
    open spec fn view_bytes(&self) -> Seq<u8> {
        self@
    }

    fn as_bytes(&self) -> (r: &[u8]) {
        proof {
            vstd::array::axiom_spec_array_as_slice(self);
        }
        vstd::array::array_as_slice(self)
    }
}

impl<const N: usize> Haystack for Box<[u8; N]> {
    open spec fn view_bytes(&self) -> Seq<u8> {
        (**self)@
    }

    fn as_bytes(&self) -> (r: &[u8]) {
        proof {
            vstd::array::axiom_spec_array_as_slice(&**self);
        }
        vstd::array::array_as_slice(&**self)
    }
}

impl Haystack for Box<[u8]> {
    open spec fn view_bytes(&self) -> Seq<u8> {
        (**self)@
    }

    fn as_bytes(&self) -> (r: &[u8]) {
        &**self
    }
}

impl<const N: usize> Haystack for Arc<[u8; N]> {
    open spec fn view_bytes(&self) -> Seq<u8> {
        (**self)@
    }

    fn as_bytes(&self) -> (r: &[u8]) {
        proof {
            vstd::array::axiom_spec_array_as_slice(&**self);
        }
        vstd::array::array_as_slice(&**self)
    }
}

impl Haystack for Arc<[u8]> {
    open spec fn view_bytes(&self) -> Seq<u8> {
        (**self)@
    }

    fn as_bytes(&self) -> (r: &[u8]) {
        &**self
    }
}

impl Haystack for Arc<Vec<u8>> {
    open spec fn view_bytes(&self) -> Seq<u8> {
        self@
    }

    fn as_bytes(&self) -> (r: &[u8]) {
        (**self).as_slice()
    }
}

#[verifier::external_type_specification]
#[verifier::external_body]
pub struct ExMmap(memmap2::Mmap);

/// The bytes a mapped file view holds: one `Mmap` value exposes one fixed
/// byte slice for its whole lifetime.
pub uninterp spec fn mmap_contents(m: &memmap2::Mmap) -> Seq<u8>;

/// Relies on memmap2's `Deref<Target = [u8]>` for `Mmap`: the slice a
/// mapping derefs to is the mapping's contents, stable while it is held.
#[verifier::external_body]
fn mmap_slice(m: &memmap2::Mmap) -> (r: &[u8])
    ensures
        r@ == mmap_contents(m),
{
    m
}

impl Haystack for memmap2::Mmap {
    open spec fn view_bytes(&self) -> Seq<u8> {
        mmap_contents(self)
    }

    fn as_bytes(&self) -> (r: &[u8]) {
        mmap_slice(self)
    }
}

impl Haystack for Arc<memmap2::Mmap> {
    open spec fn view_bytes(&self) -> Seq<u8> {
        mmap_contents(&**self)
    }

    fn as_bytes(&self) -> (r: &[u8]) {
        mmap_slice(&**self)
    }
}

/// The mapped bytes behind a shared handle.
pub fn mmap_slice_of(m: &Arc<memmap2::Mmap>) -> (r: &[u8])
    ensures
        r@ == mmap_contents(&**m),
{
    mmap_slice(&**m)
}

/// `p` occurs in `h` starting at index `i`.
pub open spec fn match_at(h: Seq<u8>, p: Seq<u8>, i: int) -> bool {
    &&& 0 <= i
    &&& i + p.len() <= h.len()
    &&& h.subrange(i, i + p.len() as int) == p
}

/// Relies on memchr::memchr: the index of the first occurrence of the byte,
/// or None when the byte does not occur.
pub assume_specification [ memchr::memchr ](needle: u8, haystack: &[u8]) -> (r: Option<usize>)
    ensures
        match r {
            Some(i) => i < haystack@.len() && haystack@[i as int] == needle && (forall|j: int|
                0 <= j < i ==> haystack@[j] != needle),
            None => forall|j: int| 0 <= j < haystack@.len() ==> haystack@[j] != needle,
        },
;

/// Relies on memchr::memmem::find: the index of the first occurrence of the
/// needle in the haystack, or None when the needle does not occur.
pub assume_specification [ memchr::memmem::find ](haystack: &[u8], needle: &[u8]) -> (r: Option<
    usize,
>)
    requires
        needle@.len() >= 1,
    ensures
        match r {
            Some(i) => match_at(haystack@, needle@, i as int) && (forall|j: int|
                0 <= j < i ==> !match_at(haystack@, needle@, j)),
            None => forall|j: int| !match_at(haystack@, needle@, j),
        },
;

/// The least offset at or after `from` where `p` occurs in `h`. Length-one
/// patterns go through a direct byte scan; longer ones through the
/// substring search.
pub fn find_from(h: &[u8], p: &[u8], from: usize) -> (r: Option<usize>)
    requires
        p@.len() >= 1,
        from <= h@.len(),
    ensures
        match r {
            Some(i) => from <= i && match_at(h@, p@, i as int) && (forall|j: int|
                from <= j < i ==> !match_at(h@, p@, j)),
            None => forall|j: int| from <= j ==> !match_at(h@, p@, j),
        },
{
    let sub: &[u8] = &h[from..h.len()];
    let found: Option<usize> = if p.len() == 1 {
        memchr::memchr(p[0], sub)
    } else {
        memchr::memmem::find(sub, p)
    };
    proof {
        assert forall|j: int| 0 <= j implies #[trigger] match_at(sub@, p@, j) == match_at(
            h@,
            p@,
            from + j,
        ) by {
            if j + p@.len() <= sub@.len() {
                assert(sub@.subrange(j, j + p@.len() as int) =~= h@.subrange(
                    from + j,
                    from + j + p@.len() as int,
                ));
            }
        }
        if p@.len() == 1 {
            assert forall|j: int| 0 <= j < sub@.len() implies #[trigger] match_at(
                sub@,
                p@,
                j,
            ) == (sub@[j] == p@[0]) by {
                assert(p@ =~= seq![p@[0]]);
                if sub@[j] == p@[0] {
                    assert(sub@.subrange(j, j + 1) =~= seq![sub@[j]]);
                }
            }
        }
    }
    match found {
        Some(i) => {
            proof {
                assert(match_at(sub@, p@, i as int));
                assert(match_at(h@, p@, from + i));
                assert forall|j: int| from <= j < from + i implies !match_at(h@, p@, j) by {
                    let jj = j - from;
                    assert(!match_at(sub@, p@, jj));
                }
            }
            Some(from + i)
        },
        None => {
            proof {
                assert forall|j: int| from <= j implies !match_at(h@, p@, j) by {
                    let jj = j - from;
                    assert(!match_at(sub@, p@, jj));
                }
            }
            None
        },
    }
}

/// Every offset at which `p` occurs in `h` — overlapping occurrences
/// included — in strictly increasing order. An empty pattern, and one
/// longer than the haystack, matches nowhere.
pub fn find_all(h: &[u8], p: &[u8]) -> (r: Vec<usize>)
    ensures
        forall|k1: int, k2: int| 0 <= k1 < k2 < r@.len() ==> r@[k1] < r@[k2],
        forall|k: int| 0 <= k < r@.len() ==> match_at(h@, p@, r@[k] as int),
        p@.len() >= 1 ==> (forall|i: int| match_at(h@, p@, i) ==> r@.contains(i as usize)),
        p@.len() == 0 ==> r@.len() == 0,
        p@.len() > h@.len() ==> r@.len() == 0,
{
    let mut out: Vec<usize> = Vec::new();
    if p.len() == 0 {
        return out;
    }
    let hn: usize = h.len();
    let mut pos: usize = 0;
    let mut running: bool = true;
    while running
        invariant
            p@.len() >= 1,
            hn == h@.len(),
            pos <= h@.len(),
            forall|k: int| 0 <= k < out@.len() ==> out@[k] < pos,
            forall|k1: int, k2: int| 0 <= k1 < k2 < out@.len() ==> out@[k1] < out@[k2],
            forall|k: int| 0 <= k < out@.len() ==> match_at(h@, p@, out@[k] as int),
            forall|i: int| 0 <= i < pos && match_at(h@, p@, i) ==> out@.contains(i as usize),
            !running ==> (forall|i: int| pos <= i ==> !match_at(h@, p@, i)),
        decreases h@.len() - pos + (if running {
            1int
        } else {
            0int
        }),
    {
        match find_from(h, p, pos) {
            Some(m) => {
                proof {
                    assert(m + p@.len() <= h@.len());
                    assert forall|i: int|
                        0 <= i < m + 1 && match_at(h@, p@, i) implies out@.push(m).contains(
                        i as usize,
                    ) by {
                        if i < pos {
                            let k = choose|k: int|
                                0 <= k < out@.len() && out@[k] == i as usize;
                            assert(out@.push(m)[k] == i as usize);
                        } else {
                            assert(out@.push(m)[out@.len() as int] == m);
                            assert(i == m);
                        }
                    }
                }
                out.push(m);
                pos = m + 1;
            },
            None => {
                running = false;
            },
        }
    }
    proof {
        if p@.len() > h@.len() && out@.len() > 0 {
            assert(match_at(h@, p@, out@[0] as int));
            assert(false);
        }
    }
    out
}

} // verus!
