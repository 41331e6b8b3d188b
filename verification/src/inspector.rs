//! Decoding the bytes at a cursor into human-readable interpretations:
//! integers of several widths in a chosen radix and byte order, a one-byte
//! character reading, and the first UTF-8, UTF-16 or UTF-32 character.

use crate::codec;
use vstd::prelude::*;
use vstd::string::StringExecFns;
use vstd::utf8;
use vstd::arithmetic::power::pow;

verus! {

/// The base in which the inspector renders numbers.
#[derive(Debug, Clone, Copy, PartialEq, Eq, Structural)]
pub enum Radix {
    Decimal,
    Hexadecimal,
    Binary,
    Octal,
}

impl Radix {
    /// The radix's display name.
    pub fn label(&self) -> (r: &'static str)
        ensures
            match *self {
                Radix::Decimal => r@ == "Decimal"@,
                Radix::Hexadecimal => r@ == "Hexadecimal"@,
                Radix::Binary => r@ == "Binary"@,
                Radix::Octal => r@ == "Octal"@,
            },
    {
        match self {
            Radix::Decimal => "Decimal",
            Radix::Hexadecimal => "Hexadecimal",
            Radix::Binary => "Binary",
            Radix::Octal => "Octal",
        }
    }
}

/// Relies on String::push: appends exactly the one character.
#[verifier::external_body]
fn push_char(s: &mut String, c: char)
    ensures
        final(s)@ == old(s)@.push(c),
{
    s.push(c)
}

/// Relies on char::from_u32: Some exactly for the Unicode scalar values —
/// below the surrogate range or between it and the maximum — and then the
/// character with that value.
#[verifier::external_body]
fn char_from_u32(v: u32) -> (r: Option<char>)
    ensures
        (r matches Some(c) ==> c as u32 == v),
        r is Some <==> (v < 0xD800 || (0xE000 <= v && v <= 0x10FFFF)),
{
    char::from_u32(v)
}

/// What the inspector shows when too few bytes are left.
pub open spec fn eof_msg() -> Seq<char> {
    "No Data"@
}

/// The replacement character, shown for malformed text.
pub open spec fn replacement() -> Seq<char> {
    seq!['\u{FFFD}']
}

/// One digit, `0`-`9` then upper-case letters.
pub open spec fn digit_char(d: nat) -> char {
    if d == 0 {
        '0'
    } else if d == 1 {
        '1'
    } else if d == 2 {
        '2'
    } else if d == 3 {
        '3'
    } else if d == 4 {
        '4'
    } else if d == 5 {
        '5'
    } else if d == 6 {
        '6'
    } else if d == 7 {
        '7'
    } else if d == 8 {
        '8'
    } else if d == 9 {
        '9'
    } else if d == 10 {
        'A'
    } else if d == 11 {
        'B'
    } else if d == 12 {
        'C'
    } else if d == 13 {
        'D'
    } else if d == 14 {
        'E'
    } else {
        'F'
    }
}

/// The digits of `v` in the given base, most significant first, with no
/// leading zeros except for the value zero itself.
pub open spec fn spec_digits(v: nat, base: nat) -> Seq<char>
    recommends
        2 <= base <= 16,
    decreases v,
    via spec_digits_decreases
{
    if base < 2 {
        Seq::empty()
    } else if v < base {
        seq![digit_char(v)]
    } else {
        spec_digits(v / base, base) + seq![digit_char(v % base)]
    }
}

#[via_fn]
proof fn spec_digits_decreases(v: nat, base: nat) {
    if base >= 2 && v >= base {
        vstd::arithmetic::div_mod::lemma_div_decreases(v as int, base as int);
    }
}

/// A number as the inspector renders it: plain decimal digits, or the
/// digits of the base behind its `0x`, `0b` or `0o` marker.
pub open spec fn spec_format_number(v: nat, radix: Radix) -> Seq<char> {
    match radix {
        Radix::Decimal => spec_digits(v, 10),
        Radix::Hexadecimal => seq!['0', 'x'] + spec_digits(v, 16),
        Radix::Binary => seq!['0', 'b'] + spec_digits(v, 2),
        Radix::Octal => seq!['0', 'o'] + spec_digits(v, 8),
    }
}

/// A signed number: the magnitude as above, behind a minus sign when it is
/// negative.
pub open spec fn spec_format_signed(v: int, radix: Radix) -> Seq<char> {
    if v >= 0 {
        spec_format_number(v as nat, radix)
    } else {
        seq!['-'] + spec_format_number((-v) as nat, radix)
    }
}

/// Exec mirror of `digit_char`.
fn digit_char_of(d: u64) -> (r: char)
    requires
        d < 16,
    ensures
        r == digit_char(d as nat),
{
    if d == 0 {
        '0'
    } else if d == 1 {
        '1'
    } else if d == 2 {
        '2'
    } else if d == 3 {
        '3'
    } else if d == 4 {
        '4'
    } else if d == 5 {
        '5'
    } else if d == 6 {
        '6'
    } else if d == 7 {
        '7'
    } else if d == 8 {
        '8'
    } else if d == 9 {
        '9'
    } else if d == 10 {
        'A'
    } else if d == 11 {
        'B'
    } else if d == 12 {
        'C'
    } else if d == 13 {
        'D'
    } else if d == 14 {
        'E'
    } else {
        'F'
    }
}

/// The digits of `v` in the given base, exactly as `spec_digits` says.
fn digits_of(v: u64, base: u64) -> (r: Vec<char>)
    requires
        2 <= base <= 16,
    ensures
        r@ == spec_digits(v as nat, base as nat),
{
    let mut tmp: Vec<char> = Vec::new();
    let mut x: u64 = v;
    proof {
        assert(spec_digits(x as nat, base as nat) + tmp@.reverse() =~= spec_digits(
            v as nat,
            base as nat,
        ));
    }
    while x >= base
        invariant
            2 <= base <= 16,
            spec_digits(x as nat, base as nat) + tmp@.reverse() == spec_digits(
                v as nat,
                base as nat,
            ),
        decreases x,
    {
        let d: char = digit_char_of(x % base);
        proof {
            assert(tmp@.push(d).reverse() =~= seq![d] + tmp@.reverse());
            assert((spec_digits((x as nat) / (base as nat), base as nat) + seq![d])
                + tmp@.reverse() =~= spec_digits((x as nat) / (base as nat), base as nat) + (
            seq![d] + tmp@.reverse()));
        }
        tmp.push(d);
        x = x / base;
    }
    let mut out: Vec<char> = Vec::new();
    out.push(digit_char_of(x));
    let n: usize = tmp.len();
    let mut j: usize = 0;
    while j < n
        invariant
            j <= n,
            n == tmp@.len(),
            out@.len() == 1 + j,
            out@[0] == digit_char(x as nat),
            forall|k: int| 0 <= k < j ==> #[trigger] out@[1 + k] == tmp@[n - 1 - k],
        decreases n - j,
    {
        let c = tmp[n - 1 - j];
        out.push(c);
        j = j + 1;
    }
    proof {
        let whole = seq![digit_char(x as nat)] + tmp@.reverse();
        assert forall|i: int| 0 <= i < out@.len() implies out@[i] == whole[i] by {
            if i >= 1 {
                let k = i - 1;
                assert(out@[1 + k] == tmp@[n - 1 - k]);
            }
        }
        assert(out@ =~= whole);
    }
    out
}

/// Appends the digits of `v` in the given base to `s`.
fn push_digits(s: &mut String, v: u64, base: u64)
    requires
        2 <= base <= 16,
    ensures
        final(s)@ == old(s)@ + spec_digits(v as nat, base as nat),
{
    let ds = digits_of(v, base);
    let n: usize = ds.len();
    let mut i: usize = 0;
    while i < n
        invariant
            i <= n,
            n == ds@.len(),
            ds@ == spec_digits(v as nat, base as nat),
            s@ == old(s)@ + ds@.take(i as int),
        decreases n - i,
    {
        proof {
            assert((old(s)@ + ds@.take(i as int)).push(ds@[i as int]) =~= old(s)@ + ds@.take(i
                + 1));
        }
        let c = ds[i];
        push_char(s, c);
        i = i + 1;
    }
    proof {
        assert(ds@.take(n as int) =~= ds@);
    }
}

/// One value, rendered exactly as `spec_format_number` says.
pub fn format_number(value: u64, radix: Radix) -> (r: String)
    ensures
        r@ == spec_format_number(value as nat, radix),
{
    let (prefix, base): (&str, u64) = match radix {
        Radix::Decimal => ("", 10),
        Radix::Hexadecimal => ("0x", 16),
        Radix::Binary => ("0b", 2),
        Radix::Octal => ("0o", 8),
    };
    let mut s = String::from_str(prefix);
    push_digits(&mut s, value, base);
    proof {
        reveal_strlit("");
        reveal_strlit("0x");
        reveal_strlit("0b");
        reveal_strlit("0o");
        match radix {
            Radix::Decimal => {
                assert(""@ + spec_digits(value as nat, 10) =~= spec_digits(value as nat, 10));
            },
            Radix::Hexadecimal => {
                assert("0x"@ + spec_digits(value as nat, 16) =~= seq!['0', 'x'] + spec_digits(
                    value as nat,
                    16,
                ));
            },
            Radix::Binary => {
                assert("0b"@ + spec_digits(value as nat, 2) =~= seq!['0', 'b'] + spec_digits(
                    value as nat,
                    2,
                ));
            },
            Radix::Octal => {
                assert("0o"@ + spec_digits(value as nat, 8) =~= seq!['0', 'o'] + spec_digits(
                    value as nat,
                    8,
                ));
            },
        }
    }
    s
}

/// One signed value, rendered exactly as `spec_format_signed` says.
pub fn format_signed_number(value: i64, radix: Radix) -> (r: String)
    ensures
        r@ == spec_format_signed(value as int, radix),
{
    if value >= 0 {
        format_number(value as u64, radix)
    } else {
        let mag: u64 = if value == i64::MIN {
            0x8000000000000000
        } else {
            (-value) as u64
        };
        let rest = format_number(mag, radix);
        let mut s = String::from_str("-");
        s.append(rest.as_str());
        proof {
            reveal_strlit("-");
            assert("-"@ + spec_format_number(mag as nat, radix) =~= seq!['-'] + spec_format_number(
                mag as nat,
                radix,
            ));
        }
        s
    }
}

/// A displayable character, wrapped in single quotes.
pub open spec fn spec_quoted(c: char) -> Seq<char> {
    seq!['\'', c, '\'']
}

/// Wraps a character in single quotes, exactly as `spec_quoted` says.
fn quoted(c: char) -> (r: String)
    ensures
        r@ == spec_quoted(c),
{
    let mut s = String::new();
    push_char(&mut s, '\'');
    push_char(&mut s, c);
    push_char(&mut s, '\'');
    proof {
        assert(s@ =~= spec_quoted(c));
    }
    s
}

/// The replacement character as a string.
fn replacement_string() -> (r: String)
    ensures
        r@ == replacement(),
{
    let mut s = String::new();
    push_char(&mut s, '\u{FFFD}');
    proof {
        assert(s@ =~= replacement());
    }
    s
}

/// The value the first `width` bytes denote in the chosen byte order.
pub open spec fn uval(b: Seq<u8>, width: nat, le: bool) -> nat
    recommends
        width <= b.len(),
{
    if le {
        codec::le_value_of(b.take(width as int))
    } else {
        codec::be_value_of(b.take(width as int))
    }
}

/// Reads the first `width` bytes in the chosen byte order, exactly as
/// `uval` says.
fn read_uval(b: &[u8], width: usize, le: bool) -> (r: u64)
    requires
        width <= 8,
        width <= b@.len(),
    ensures
        r as nat == uval(b@, width as nat, le),
        r < pow(256, width as nat),
{
    let s: &[u8] = &b[0..width];
    proof {
        assert(s@ =~= b@.take(width as int));
        codec::lemma_le_value_bound(s@);
        codec::lemma_le_value_bound(s@.reverse());
    }
    if le {
        codec::le_value_u64(s)
    } else {
        codec::be_value_u64(s)
    }
}

// --- the character tables for the one-byte reading ---

/// The name of an ASCII control byte (0x00 to 0x1F, and 0x7F).
pub open spec fn spec_ctrl_name(b: u8) -> Seq<char> {
    if b == 0x00 {
        "NUL"@
    } else if b == 0x01 {
        "SOH"@
    } else if b == 0x02 {
        "STX"@
    } else if b == 0x03 {
        "ETX"@
    } else if b == 0x04 {
        "EOT"@
    } else if b == 0x05 {
        "ENQ"@
    } else if b == 0x06 {
        "ACK"@
    } else if b == 0x07 {
        "BEL"@
    } else if b == 0x08 {
        "BS"@
    } else if b == 0x09 {
        "TAB"@
    } else if b == 0x0A {
        "LF"@
    } else if b == 0x0B {
        "VT"@
    } else if b == 0x0C {
        "FF"@
    } else if b == 0x0D {
        "CR"@
    } else if b == 0x0E {
        "SO"@
    } else if b == 0x0F {
        "SI"@
    } else if b == 0x10 {
        "DLE"@
    } else if b == 0x11 {
        "DC1"@
    } else if b == 0x12 {
        "DC2"@
    } else if b == 0x13 {
        "DC3"@
    } else if b == 0x14 {
        "DC4"@
    } else if b == 0x15 {
        "NAK"@
    } else if b == 0x16 {
        "SYN"@
    } else if b == 0x17 {
        "ETB"@
    } else if b == 0x18 {
        "CAN"@
    } else if b == 0x19 {
        "EM"@
    } else if b == 0x1A {
        "SUB"@
    } else if b == 0x1B {
        "ESC"@
    } else if b == 0x1C {
        "FS"@
    } else if b == 0x1D {
        "GS"@
    } else if b == 0x1E {
        "RS"@
    } else if b == 0x1F {
        "US"@
    } else {
        "DEL"@
    }
}

/// Exec mirror of `spec_ctrl_name`.
fn ctrl_name(b: u8) -> (r: &'static str)
    ensures
        r@ == spec_ctrl_name(b),
{
    if b == 0x00 {
        "NUL"
    } else if b == 0x01 {
        "SOH"
    } else if b == 0x02 {
        "STX"
    } else if b == 0x03 {
        "ETX"
    } else if b == 0x04 {
        "EOT"
    } else if b == 0x05 {
        "ENQ"
    } else if b == 0x06 {
        "ACK"
    } else if b == 0x07 {
        "BEL"
    } else if b == 0x08 {
        "BS"
    } else if b == 0x09 {
        "TAB"
    } else if b == 0x0A {
        "LF"
    } else if b == 0x0B {
        "VT"
    } else if b == 0x0C {
        "FF"
    } else if b == 0x0D {
        "CR"
    } else if b == 0x0E {
        "SO"
    } else if b == 0x0F {
        "SI"
    } else if b == 0x10 {
        "DLE"
    } else if b == 0x11 {
        "DC1"
    } else if b == 0x12 {
        "DC2"
    } else if b == 0x13 {
        "DC3"
    } else if b == 0x14 {
        "DC4"
    } else if b == 0x15 {
        "NAK"
    } else if b == 0x16 {
        "SYN"
    } else if b == 0x17 {
        "ETB"
    } else if b == 0x18 {
        "CAN"
    } else if b == 0x19 {
        "EM"
    } else if b == 0x1A {
        "SUB"
    } else if b == 0x1B {
        "ESC"
    } else if b == 0x1C {
        "FS"
    } else if b == 0x1D {
        "GS"
    } else if b == 0x1E {
        "RS"
    } else if b == 0x1F {
        "US"
    } else {
        "DEL"
    }
}

/// The Windows-1252 reading of a byte between 0x80 and 0x9F: the mapped
/// character, or nothing for the five unmapped bytes.
pub open spec fn spec_win1252(b: u8) -> Option<char> {
    if b == 0x80 {
        Some('\u{20AC}')
    } else if b == 0x82 {
        Some('\u{201A}')
    } else if b == 0x83 {
        Some('\u{0192}')
    } else if b == 0x84 {
        Some('\u{201E}')
    } else if b == 0x85 {
        Some('\u{2026}')
    } else if b == 0x86 {
        Some('\u{2020}')
    } else if b == 0x87 {
        Some('\u{2021}')
    } else if b == 0x88 {
        Some('\u{02C6}')
    } else if b == 0x89 {
        Some('\u{2030}')
    } else if b == 0x8A {
        Some('\u{0160}')
    } else if b == 0x8B {
        Some('\u{2039}')
    } else if b == 0x8C {
        Some('\u{0152}')
    } else if b == 0x8E {
        Some('\u{017D}')
    } else if b == 0x91 {
        Some('\u{2018}')
    } else if b == 0x92 {
        Some('\u{2019}')
    } else if b == 0x93 {
        Some('\u{201C}')
    } else if b == 0x94 {
        Some('\u{201D}')
    } else if b == 0x95 {
        Some('\u{2022}')
    } else if b == 0x96 {
        Some('\u{2013}')
    } else if b == 0x97 {
        Some('\u{2014}')
    } else if b == 0x98 {
        Some('\u{02DC}')
    } else if b == 0x99 {
        Some('\u{2122}')
    } else if b == 0x9A {
        Some('\u{0161}')
    } else if b == 0x9B {
        Some('\u{203A}')
    } else if b == 0x9C {
        Some('\u{0153}')
    } else if b == 0x9E {
        Some('\u{017E}')
    } else if b == 0x9F {
        Some('\u{0178}')
    } else {
        None
    }
}

/// Exec mirror of `spec_win1252`.
fn win1252(b: u8) -> (r: Option<char>)
    ensures
        r == spec_win1252(b),
{
    if b == 0x80 {
        Some('\u{20AC}')
    } else if b == 0x82 {
        Some('\u{201A}')
    } else if b == 0x83 {
        Some('\u{0192}')
    } else if b == 0x84 {
        Some('\u{201E}')
    } else if b == 0x85 {
        Some('\u{2026}')
    } else if b == 0x86 {
        Some('\u{2020}')
    } else if b == 0x87 {
        Some('\u{2021}')
    } else if b == 0x88 {
        Some('\u{02C6}')
    } else if b == 0x89 {
        Some('\u{2030}')
    } else if b == 0x8A {
        Some('\u{0160}')
    } else if b == 0x8B {
        Some('\u{2039}')
    } else if b == 0x8C {
        Some('\u{0152}')
    } else if b == 0x8E {
        Some('\u{017D}')
    } else if b == 0x91 {
        Some('\u{2018}')
    } else if b == 0x92 {
        Some('\u{2019}')
    } else if b == 0x93 {
        Some('\u{201C}')
    } else if b == 0x94 {
        Some('\u{201D}')
    } else if b == 0x95 {
        Some('\u{2022}')
    } else if b == 0x96 {
        Some('\u{2013}')
    } else if b == 0x97 {
        Some('\u{2014}')
    } else if b == 0x98 {
        Some('\u{02DC}')
    } else if b == 0x99 {
        Some('\u{2122}')
    } else if b == 0x9A {
        Some('\u{0161}')
    } else if b == 0x9B {
        Some('\u{203A}')
    } else if b == 0x9C {
        Some('\u{0153}')
    } else if b == 0x9E {
        Some('\u{017E}')
    } else if b == 0x9F {
        Some('\u{0178}')
    } else {
        None
    }
}

/// The one-byte character reading: control names and printable characters
/// for ASCII, the Windows-1252 reading above 0x7F, the replacement
/// character where Windows-1252 leaves a byte unmapped.
pub open spec fn spec_ascii(b: Seq<u8>) -> (Seq<char>, Seq<char>) {
    if b.len() == 0 {
        ("ASCII"@, eof_msg())
    } else {
        let c = b[0];
        if c <= 0x1F || c == 0x7F {
            ("ASCII"@, spec_ctrl_name(c))
        } else if c <= 0x7E {
            ("ASCII"@, spec_quoted((c as u32) as char))
        } else if c <= 0x9F {
            match spec_win1252(c) {
                Some(ch) => ("Win1252"@, spec_quoted(ch)),
                None => ("Win1252"@, replacement()),
            }
        } else {
            ("Win1252"@, spec_quoted((c as u32) as char))
        }
    }
}

/// The first UTF-8 character of the bytes: the leading byte announces the
/// width; too few bytes is no data; a malformed sequence — bad leading or
/// continuation bytes, an overlong encoding, a surrogate — shows the
/// replacement character.
pub open spec fn spec_utf8_reading(b: Seq<u8>) -> (Seq<char>, Seq<char>) {
    if b.len() == 0 {
        ("UTF-8"@, eof_msg())
    } else if utf8::is_leading_byte_width_1(b[0]) {
        ("UTF-8(1)"@, spec_quoted(utf8::decode_first_scalar(b.take(1)) as char))
    } else if utf8::is_leading_byte_width_2(b[0]) {
        if b.len() < 2 {
            ("UTF-8"@, eof_msg())
        } else if utf8::valid_first_scalar(b.take(2)) {
            ("UTF-8(2)"@, spec_quoted(utf8::decode_first_scalar(b.take(2)) as char))
        } else {
            ("UTF-8"@, replacement())
        }
    } else if utf8::is_leading_byte_width_3(b[0]) {
        if b.len() < 3 {
            ("UTF-8"@, eof_msg())
        } else if utf8::valid_first_scalar(b.take(3)) {
            ("UTF-8(3)"@, spec_quoted(utf8::decode_first_scalar(b.take(3)) as char))
        } else {
            ("UTF-8"@, replacement())
        }
    } else if utf8::is_leading_byte_width_4(b[0]) {
        if b.len() < 4 {
            ("UTF-8"@, eof_msg())
        } else if utf8::valid_first_scalar(b.take(4)) {
            ("UTF-8(4)"@, spec_quoted(utf8::decode_first_scalar(b.take(4)) as char))
        } else {
            ("UTF-8"@, replacement())
        }
    } else {
        ("UTF-8"@, replacement())
    }
}

/// The first UTF-16 character: one unit, or a surrogate pair; a lone
/// surrogate shows the replacement character.
pub open spec fn spec_utf16_reading(b: Seq<u8>, le: bool) -> (Seq<char>, Seq<char>) {
    if b.len() < 2 {
        ("UTF-16"@, eof_msg())
    } else {
        let u0 = uval(b, 2, le);
        if 0xD800 <= u0 && u0 <= 0xDBFF {
            if b.len() < 4 {
                ("UTF-16"@, eof_msg())
            } else {
                let u1 = uval(b.skip(2), 2, le);
                if 0xDC00 <= u1 && u1 <= 0xDFFF {
                    (
                        "UTF-16(2)"@,
                        spec_quoted(
                            ((0x10000 + (u0 - 0xD800) * 0x400 + (u1 - 0xDC00)) as u32) as char,
                        ),
                    )
                } else {
                    ("UTF-16"@, replacement())
                }
            }
        } else if 0xDC00 <= u0 && u0 <= 0xDFFF {
            ("UTF-16"@, replacement())
        } else {
            ("UTF-16(1)"@, spec_quoted((u0 as u32) as char))
        }
    }
}

/// The UTF-32 character: the four-byte value when it is a Unicode scalar
/// value, else the replacement character.
pub open spec fn spec_utf32_reading(b: Seq<u8>, le: bool) -> (Seq<char>, Seq<char>) {
    if b.len() < 4 {
        ("UTF-32"@, eof_msg())
    } else {
        let v = uval(b, 4, le);
        if v < 0xD800 || (0xE000 <= v && v <= 0x10FFFF) {
            ("UTF-32"@, spec_quoted((v as u32) as char))
        } else {
            ("UTF-32"@, replacement())
        }
    }
}

/// The inspector's settings: the byte order and radix its readings use.
pub struct DataInspector {
    little_endian: bool,
    radix: Radix,
}

impl DataInspector {
    pub closed spec fn spec_little_endian(&self) -> bool {
        self.little_endian
    }

    pub closed spec fn spec_radix(&self) -> Radix {
        self.radix
    }

    /// The defaults: little-endian, decimal.
    pub fn new() -> (r: Self)
        ensures
            r.spec_little_endian() == true,
            r.spec_radix() == Radix::Decimal,
    {
        Self { little_endian: true, radix: Radix::Decimal }
    }

    /// Chooses the byte order for the multi-byte readings.
    pub fn set_little_endian(&mut self, le: bool)
        ensures
            final(self).spec_little_endian() == le,
            final(self).spec_radix() == old(self).spec_radix(),
    {
        self.little_endian = le;
    }

    /// Chooses the radix for the numeric readings.
    pub fn set_radix(&mut self, radix: Radix)
        ensures
            final(self).spec_radix() == radix,
            final(self).spec_little_endian() == old(self).spec_little_endian(),
    {
        self.radix = radix;
    }

    /// The one-byte character reading, exactly as `spec_ascii` says.
    pub fn intepret_ascii(b: &[u8]) -> (r: (String, String))
        ensures
            r.0@ == spec_ascii(b@).0,
            r.1@ == spec_ascii(b@).1,
    {
        if b.len() == 0 {
            return (String::from_str("ASCII"), String::from_str("No Data"));
        }
        let c: u8 = b[0];
        if c <= 0x1F || c == 0x7F {
            (String::from_str("ASCII"), String::from_str(ctrl_name(c)))
        } else if c <= 0x7E {
            let ch: char = match char_from_u32(c as u32) {
                Some(ch) => ch,
                None => '\u{FFFD}',
            };
            proof {
                vstd::utf8::char_u32_cast(ch, c as u32);
            }
            (String::from_str("ASCII"), quoted(ch))
        } else if c <= 0x9F {
            match win1252(c) {
                Some(ch) => (String::from_str("Win1252"), quoted(ch)),
                None => (String::from_str("Win1252"), replacement_string()),
            }
        } else {
            let ch: char = match char_from_u32(c as u32) {
                Some(ch) => ch,
                None => '\u{FFFD}',
            };
            proof {
                vstd::utf8::char_u32_cast(ch, c as u32);
            }
            (String::from_str("Win1252"), quoted(ch))
        }
    }

    /// The unsigned one-byte reading.
    pub fn intepret_u8(b: &[u8], radix: Radix) -> (r: (String, String))
        ensures
            r.0@ == "u8"@,
            r.1@ == (if b@.len() == 0 {
                eof_msg()
            } else {
                spec_format_number(b@[0] as nat, radix)
            }),
    {
        if b.len() == 0 {
            (String::from_str("u8"), String::from_str("No Data"))
        } else {
            (String::from_str("u8"), format_number(b[0] as u64, radix))
        }
    }

    /// The signed one-byte reading, two's complement.
    pub fn intepret_i8(b: &[u8], radix: Radix) -> (r: (String, String))
        ensures
            r.0@ == "i8"@,
            r.1@ == (if b@.len() == 0 {
                eof_msg()
            } else {
                spec_format_signed(codec::signed8_of(b@[0]) as int, radix)
            }),
    {
        if b.len() == 0 {
            (String::from_str("i8"), String::from_str("No Data"))
        } else {
            (String::from_str("i8"), format_signed_number(codec::u8_to_i8(b[0]) as i64, radix))
        }
    }

    /// The unsigned two-byte reading in the chosen byte order.
    pub fn intepret_u16(b: &[u8], radix: Radix, is_little_endian: bool) -> (r: (String, String))
        ensures
            r.0@ == "u16"@,
            r.1@ == (if b@.len() < 2 {
                eof_msg()
            } else {
                spec_format_number(uval(b@, 2, is_little_endian), radix)
            }),
    {
        if b.len() < 2 {
            (String::from_str("u16"), String::from_str("No Data"))
        } else {
            (String::from_str("u16"), format_number(read_uval(b, 2, is_little_endian), radix))
        }
    }

    /// The signed two-byte reading, two's complement.
    pub fn intepret_i16(b: &[u8], radix: Radix, is_little_endian: bool) -> (r: (String, String))
        ensures
            r.0@ == "i16"@,
            r.1@ == (if b@.len() < 2 {
                eof_msg()
            } else {
                spec_format_signed(
                    codec::signed16_of(uval(b@, 2, is_little_endian) as u16) as int,
                    radix,
                )
            }),
    {
        if b.len() < 2 {
            (String::from_str("i16"), String::from_str("No Data"))
        } else {
            let v: u64 = read_uval(b, 2, is_little_endian);
            proof {
                codec::lemma_pow256_values();
            }
            let signed: i16 = codec::u16_to_i16(v as u16);
            (String::from_str("i16"), format_signed_number(signed as i64, radix))
        }
    }

    /// The unsigned three-byte reading in the chosen byte order.
    pub fn intepret_u24(b: &[u8], radix: Radix, is_little_endian: bool) -> (r: (String, String))
        ensures
            r.0@ == "u24"@,
            r.1@ == (if b@.len() < 3 {
                eof_msg()
            } else {
                spec_format_number(uval(b@, 3, is_little_endian), radix)
            }),
    {
        if b.len() < 3 {
            (String::from_str("u24"), String::from_str("No Data"))
        } else {
            (String::from_str("u24"), format_number(read_uval(b, 3, is_little_endian), radix))
        }
    }

    /// The signed three-byte reading: the three bytes, sign-extended.
    pub fn intepret_i24(b: &[u8], radix: Radix, is_little_endian: bool) -> (r: (String, String))
        ensures
            r.0@ == "i24"@,
            r.1@ == (if b@.len() < 3 {
                eof_msg()
            } else {
                spec_format_signed(
                    ({
                        let v = uval(b@, 3, is_little_endian);
                        if v >= 0x800000 {
                            v - 0x1000000
                        } else {
                            v as int
                        }
                    }),
                    radix,
                )
            }),
    {
        if b.len() < 3 {
            (String::from_str("i24"), String::from_str("No Data"))
        } else {
            let v: u64 = read_uval(b, 3, is_little_endian);
            proof {
                codec::lemma_pow256_values();
            }
            let signed: i64 = if v >= 0x800000 {
                (v as i64) - 0x1000000
            } else {
                v as i64
            };
            (String::from_str("i24"), format_signed_number(signed, radix))
        }
    }

    /// The unsigned four-byte reading in the chosen byte order.
    pub fn intepret_u32(b: &[u8], radix: Radix, is_little_endian: bool) -> (r: (String, String))
        ensures
            r.0@ == "u32"@,
            r.1@ == (if b@.len() < 4 {
                eof_msg()
            } else {
                spec_format_number(uval(b@, 4, is_little_endian), radix)
            }),
    {
        if b.len() < 4 {
            (String::from_str("u32"), String::from_str("No Data"))
        } else {
            (String::from_str("u32"), format_number(read_uval(b, 4, is_little_endian), radix))
        }
    }

    /// The signed four-byte reading, two's complement.
    pub fn intepret_i32(b: &[u8], radix: Radix, is_little_endian: bool) -> (r: (String, String))
        ensures
            r.0@ == "i32"@,
            r.1@ == (if b@.len() < 4 {
                eof_msg()
            } else {
                spec_format_signed(
                    codec::signed32_of(uval(b@, 4, is_little_endian) as u32) as int,
                    radix,
                )
            }),
    {
        if b.len() < 4 {
            (String::from_str("i32"), String::from_str("No Data"))
        } else {
            let v: u64 = read_uval(b, 4, is_little_endian);
            proof {
                codec::lemma_pow256_values();
            }
            let signed: i32 = codec::u32_to_i32(v as u32);
            (String::from_str("i32"), format_signed_number(signed as i64, radix))
        }
    }

    /// The unsigned eight-byte reading in the chosen byte order.
    pub fn intepret_u64(b: &[u8], radix: Radix, is_little_endian: bool) -> (r: (String, String))
        ensures
            r.0@ == "u64"@,
            r.1@ == (if b@.len() < 8 {
                eof_msg()
            } else {
                spec_format_number(uval(b@, 8, is_little_endian), radix)
            }),
    {
        if b.len() < 8 {
            (String::from_str("u64"), String::from_str("No Data"))
        } else {
            (String::from_str("u64"), format_number(read_uval(b, 8, is_little_endian), radix))
        }
    }

    /// The signed eight-byte reading, two's complement.
    pub fn intepret_i64(b: &[u8], radix: Radix, is_little_endian: bool) -> (r: (String, String))
        ensures
            r.0@ == "i64"@,
            r.1@ == (if b@.len() < 8 {
                eof_msg()
            } else {
                spec_format_signed(
                    codec::signed64_of(uval(b@, 8, is_little_endian) as u64) as int,
                    radix,
                )
            }),
    {
        if b.len() < 8 {
            (String::from_str("i64"), String::from_str("No Data"))
        } else {
            let v: u64 = read_uval(b, 8, is_little_endian);
            let signed: i64 = codec::u64_to_i64(v);
            (String::from_str("i64"), format_signed_number(signed, radix))
        }
    }

    /// The first UTF-8 character, exactly as `spec_utf8_reading` says.
    pub fn interpret_utf8(b: &[u8]) -> (r: (String, String))
        ensures
            r.0@ == spec_utf8_reading(b@).0,
            r.1@ == spec_utf8_reading(b@).1,
    {
        if b.len() == 0 {
            return (String::from_str("UTF-8"), String::from_str("No Data"));
        }
        let b0: u8 = b[0];
        if b0 <= 0x7f {
            proof {
                assert(b@.take(1)[0] == b@[0]);
            }
            let ch: char = match char_from_u32((b0 & 0x7f) as u32) {
                Some(ch) => ch,
                None => '\u{FFFD}',
            };
            proof {
                assert(b0 & 0x7f == b0) by (bit_vector)
                    requires
                        b0 <= 0x7f,
                ;
                vstd::utf8::char_u32_cast(ch, (b0 & 0x7f) as u32);
            }
            (String::from_str("UTF-8(1)"), quoted(ch))
        } else if 0xc0 <= b0 && b0 <= 0xdf {
            if b.len() < 2 {
                return (String::from_str("UTF-8"), String::from_str("No Data"));
            }
            let b1: u8 = b[1];
            proof {
                assert(b@.take(2)[0] == b@[0]);
                assert(b@.take(2)[1] == b@[1]);
            }
            if 0x80 <= b1 && b1 <= 0xbf {
                let cp: u32 = (((b0 & 0x1f) as u32) << 6u32) | ((b1 & 0x3f) as u32);
                proof {
                    assert(cp < 0x800) by (bit_vector)
                        requires
                            cp == (((b0 & 0x1f) as u32) << 6u32) | ((b1 & 0x3f) as u32),
                    ;
                }
                if cp >= 0x80 {
                    let ch: char = match char_from_u32(cp) {
                        Some(ch) => ch,
                        None => '\u{FFFD}',
                    };
                    proof {
                        vstd::utf8::char_u32_cast(ch, cp);
                    }
                    (String::from_str("UTF-8(2)"), quoted(ch))
                } else {
                    (String::from_str("UTF-8"), replacement_string())
                }
            } else {
                (String::from_str("UTF-8"), replacement_string())
            }
        } else if 0xe0 <= b0 && b0 <= 0xef {
            if b.len() < 3 {
                return (String::from_str("UTF-8"), String::from_str("No Data"));
            }
            let b1: u8 = b[1];
            let b2: u8 = b[2];
            proof {
                assert(b@.take(3)[0] == b@[0]);
                assert(b@.take(3)[1] == b@[1]);
                assert(b@.take(3)[2] == b@[2]);
            }
            if 0x80 <= b1 && b1 <= 0xbf && 0x80 <= b2 && b2 <= 0xbf {
                let cp: u32 = (((b0 & 0x0f) as u32) << 12u32) | (((b1 & 0x3f) as u32) << 6u32) | ((
                b2 & 0x3f) as u32);
                proof {
                    assert(cp < 0x10000) by (bit_vector)
                        requires
                            cp == (((b0 & 0x0f) as u32) << 12u32) | (((b1 & 0x3f) as u32) << 6u32)
                                | ((b2 & 0x3f) as u32),
                    ;
                }
                if cp >= 0x800 && !(0xD800 <= cp && cp <= 0xDFFF) {
                    let ch: char = match char_from_u32(cp) {
                        Some(ch) => ch,
                        None => '\u{FFFD}',
                    };
                    proof {
                        vstd::utf8::char_u32_cast(ch, cp);
                    }
                    (String::from_str("UTF-8(3)"), quoted(ch))
                } else {
                    (String::from_str("UTF-8"), replacement_string())
                }
            } else {
                (String::from_str("UTF-8"), replacement_string())
            }
        } else if 0xf0 <= b0 && b0 <= 0xf7 {
            if b.len() < 4 {
                return (String::from_str("UTF-8"), String::from_str("No Data"));
            }
            let b1: u8 = b[1];
            let b2: u8 = b[2];
            let b3: u8 = b[3];
            proof {
                assert(b@.take(4)[0] == b@[0]);
                assert(b@.take(4)[1] == b@[1]);
                assert(b@.take(4)[2] == b@[2]);
                assert(b@.take(4)[3] == b@[3]);
            }
            if 0x80 <= b1 && b1 <= 0xbf && 0x80 <= b2 && b2 <= 0xbf && 0x80 <= b3 && b3 <= 0xbf {
                let cp: u32 = (((b0 & 0x07) as u32) << 18u32) | (((b1 & 0x3f) as u32) << 12u32) | ((
                (b2 & 0x3f) as u32) << 6u32) | ((b3 & 0x3f) as u32);
                proof {
                    assert(cp < 0x200000) by (bit_vector)
                        requires
                            cp == (((b0 & 0x07) as u32) << 18u32) | (((b1 & 0x3f) as u32) << 12u32)
                                | (((b2 & 0x3f) as u32) << 6u32) | ((b3 & 0x3f) as u32),
                    ;
                }
                if 0x10000 <= cp && cp <= 0x10ffff {
                    let ch: char = match char_from_u32(cp) {
                        Some(ch) => ch,
                        None => '\u{FFFD}',
                    };
                    proof {
                        vstd::utf8::char_u32_cast(ch, cp);
                    }
                    (String::from_str("UTF-8(4)"), quoted(ch))
                } else {
                    (String::from_str("UTF-8"), replacement_string())
                }
            } else {
                (String::from_str("UTF-8"), replacement_string())
            }
        } else {
            (String::from_str("UTF-8"), replacement_string())
        }
    }

    /// The first UTF-16 character, exactly as `spec_utf16_reading` says.
    pub fn interpret_utf16(b: &[u8], is_little_endian: bool) -> (r: (String, String))
        ensures
            r.0@ == spec_utf16_reading(b@, is_little_endian).0,
            r.1@ == spec_utf16_reading(b@, is_little_endian).1,
    {
        if b.len() < 2 {
            return (String::from_str("UTF-16"), String::from_str("No Data"));
        }
        let u0: u64 = read_uval(b, 2, is_little_endian);
        proof {
            codec::lemma_pow256_values();
        }
        if 0xD800 <= u0 && u0 <= 0xDBFF {
            if b.len() < 4 {
                return (String::from_str("UTF-16"), String::from_str("No Data"));
            }
            let second: &[u8] = &b[2..b.len()];
            proof {
                assert(second@ =~= b@.skip(2));
            }
            let u1: u64 = read_uval(second, 2, is_little_endian);
            if 0xDC00 <= u1 && u1 <= 0xDFFF {
                let cp: u32 = 0x10000 + ((u0 as u32) - 0xD800) * 0x400 + ((u1 as u32) - 0xDC00);
                let ch: char = match char_from_u32(cp) {
                    Some(ch) => ch,
                    None => '\u{FFFD}',
                };
                proof {
                    vstd::utf8::char_u32_cast(ch, cp);
                }
                (String::from_str("UTF-16(2)"), quoted(ch))
            } else {
                (String::from_str("UTF-16"), replacement_string())
            }
        } else if 0xDC00 <= u0 && u0 <= 0xDFFF {
            (String::from_str("UTF-16"), replacement_string())
        } else {
            let ch: char = match char_from_u32(u0 as u32) {
                Some(ch) => ch,
                None => '\u{FFFD}',
            };
            proof {
                vstd::utf8::char_u32_cast(ch, u0 as u32);
            }
            (String::from_str("UTF-16(1)"), quoted(ch))
        }
    }

    /// The UTF-32 character, exactly as `spec_utf32_reading` says.
    pub fn interpret_utf32(b: &[u8], is_little_endian: bool) -> (r: (String, String))
        ensures
            r.0@ == spec_utf32_reading(b@, is_little_endian).0,
            r.1@ == spec_utf32_reading(b@, is_little_endian).1,
    {
        if b.len() < 4 {
            return (String::from_str("UTF-32"), String::from_str("No Data"));
        }
        let v: u64 = read_uval(b, 4, is_little_endian);
        proof {
            codec::lemma_pow256_values();
        }
        match char_from_u32(v as u32) {
            Some(ch) => {
                proof {
                    vstd::utf8::char_u32_cast(ch, v as u32);
                }
                (String::from_str("UTF-32"), quoted(ch))
            },
            None => (String::from_str("UTF-32"), replacement_string()),
        }
    }

    /// Every non-float reading of the bytes at `offset`, in display order:
    /// the integer readings in the inspector's radix and byte order, then
    /// the character readings. Floating-point readings are outside this
    /// library.
    pub fn get_data_interpretations(&self, data: &[u8], offset: Option<usize>) -> (r: Vec<
        (String, String),
    >)
        requires
            offset matches Some(o) ==> o <= data@.len(),
        ensures
            ({
                let s = (match offset {
                    Some(o) => data@.skip(o as int),
                    None => Seq::<u8>::empty(),
                });
                let le = self.spec_little_endian();
                let radix = self.spec_radix();
                &&& r@.len() == 14
                &&& r@[0].0@ == "u8"@ && r@[0].1@ == (if s.len() == 0 {
                    eof_msg()
                } else {
                    spec_format_number(s[0] as nat, radix)
                })
                &&& r@[1].0@ == "i8"@ && r@[1].1@ == (if s.len() == 0 {
                    eof_msg()
                } else {
                    spec_format_signed(codec::signed8_of(s[0]) as int, radix)
                })
                &&& r@[2].0@ == "u16"@ && r@[2].1@ == (if s.len() < 2 {
                    eof_msg()
                } else {
                    spec_format_number(uval(s, 2, le), radix)
                })
                &&& r@[3].0@ == "i16"@ && r@[3].1@ == (if s.len() < 2 {
                    eof_msg()
                } else {
                    spec_format_signed(codec::signed16_of(uval(s, 2, le) as u16) as int, radix)
                })
                &&& r@[4].0@ == "u24"@ && r@[4].1@ == (if s.len() < 3 {
                    eof_msg()
                } else {
                    spec_format_number(uval(s, 3, le), radix)
                })
                &&& r@[5].0@ == "i24"@ && r@[5].1@ == (if s.len() < 3 {
                    eof_msg()
                } else {
                    spec_format_signed(
                        ({
                            let v = uval(s, 3, le);
                            if v >= 0x800000 {
                                v - 0x1000000
                            } else {
                                v as int
                            }
                        }),
                        radix,
                    )
                })
                &&& r@[6].0@ == "u32"@ && r@[6].1@ == (if s.len() < 4 {
                    eof_msg()
                } else {
                    spec_format_number(uval(s, 4, le), radix)
                })
                &&& r@[7].0@ == "i32"@ && r@[7].1@ == (if s.len() < 4 {
                    eof_msg()
                } else {
                    spec_format_signed(codec::signed32_of(uval(s, 4, le) as u32) as int, radix)
                })
                &&& r@[8].0@ == "u64"@ && r@[8].1@ == (if s.len() < 8 {
                    eof_msg()
                } else {
                    spec_format_number(uval(s, 8, le), radix)
                })
                &&& r@[9].0@ == "i64"@ && r@[9].1@ == (if s.len() < 8 {
                    eof_msg()
                } else {
                    spec_format_signed(codec::signed64_of(uval(s, 8, le) as u64) as int, radix)
                })
                &&& (r@[10].0@, r@[10].1@) == spec_ascii(s)
                &&& (r@[11].0@, r@[11].1@) == spec_utf8_reading(s)
                &&& (r@[12].0@, r@[12].1@) == spec_utf16_reading(s, le)
                &&& (r@[13].0@, r@[13].1@) == spec_utf32_reading(s, le)
            }),
    {
        let data_slice: &[u8] = match offset {
            Some(off) => &data[off..data.len()],
            None => &data[0..0],
        };
        proof {
            match offset {
                Some(o) => {
                    assert(data_slice@ =~= data@.skip(o as int));
                },
                None => {
                    assert(data_slice@ =~= Seq::<u8>::empty());
                },
            }
        }
        let mut rows: Vec<(String, String)> = Vec::new();
        rows.push(Self::intepret_u8(data_slice, self.radix));
        rows.push(Self::intepret_i8(data_slice, self.radix));
        rows.push(Self::intepret_u16(data_slice, self.radix, self.little_endian));
        rows.push(Self::intepret_i16(data_slice, self.radix, self.little_endian));
        rows.push(Self::intepret_u24(data_slice, self.radix, self.little_endian));
        rows.push(Self::intepret_i24(data_slice, self.radix, self.little_endian));
        rows.push(Self::intepret_u32(data_slice, self.radix, self.little_endian));
        rows.push(Self::intepret_i32(data_slice, self.radix, self.little_endian));
        rows.push(Self::intepret_u64(data_slice, self.radix, self.little_endian));
        rows.push(Self::intepret_i64(data_slice, self.radix, self.little_endian));
        rows.push(Self::intepret_ascii(data_slice));
        rows.push(Self::interpret_utf8(data_slice));
        rows.push(Self::interpret_utf16(data_slice, self.little_endian));
        rows.push(Self::interpret_utf32(data_slice, self.little_endian));
        rows
    }
}

} // verus!
