//! A base-prefixed integer parser for user-typed search values.
//!
//! Accepted shape: optional whitespace around the number, an optional
//! `0x`/`0b`/`0o` prefix (either case) choosing the base, an optional sign
//! inside the number part (`-` only for the signed parsers), then digits of
//! the base. Digits are folded left to right, and the first step that
//! leaves the type's range reports an overflow — even when an invalid digit
//! follows further right, exactly as digit-by-digit checked accumulation
//! behaves.

use vstd::prelude::*;
use vstd::string::StringSliceAdditionalSpecFns;
use vstd::string::StringExecFns;

verus! {

/// Why an input failed to parse.
#[derive(Debug, Clone, Copy, PartialEq, Eq, Structural)]
pub enum IntParserErrorKind {
    /// Nothing but whitespace.
    Empty,
    /// A character that is no digit of the chosen base, a stray sign, or a
    /// bare base prefix.
    Invalid,
    /// The digits denote a value outside the requested type's range.
    Overflow,
}

/// A failed parse: why it failed, and the input that failed.
#[derive(Debug, Clone, PartialEq, Eq)]
pub struct IntParserError {
    pub kind: IntParserErrorKind,
    pub input: String,
}

impl IntParserError {
    /// Records the failure kind together with a copy of the input.
    pub fn new(kind: IntParserErrorKind, input: &str) -> (r: Self)
        ensures
            r.kind == kind,
            r.input@ == input@,
    {
        Self { kind, input: String::from_str(input) }
    }
}

/// The one-byte whitespace characters: space, tab, line feed, vertical
/// tab, form feed, carriage return.
pub open spec fn is_ws(b: u8) -> bool {
    b == 32 || (9 <= b && b <= 13)
}

/// The two-byte UTF-8 whitespace characters: next line (U+0085) and
/// no-break space (U+00A0).
pub open spec fn is_ws_pair(a: u8, b: u8) -> bool {
    a == 0xC2 && (b == 0x85 || b == 0xA0)
}

/// The three-byte UTF-8 whitespace characters: the ogham space mark
/// (U+1680), the typographic spaces U+2000 to U+200A, the line and
/// paragraph separators (U+2028, U+2029), the narrow no-break space
/// (U+202F), the medium mathematical space (U+205F), and the ideographic
/// space (U+3000). Together with the shorter forms this is the whole
/// Unicode `White_Space` set, so on UTF-8 input the trim below strips
/// exactly the characters a Unicode-aware trim strips.
pub open spec fn is_ws_triple(a: u8, b: u8, c: u8) -> bool {
    ||| (a == 0xE1 && b == 0x9A && c == 0x80)
    ||| (a == 0xE2 && b == 0x80 && ((0x80 <= c && c <= 0x8A) || c == 0xA8 || c == 0xA9 || c
        == 0xAF))
    ||| (a == 0xE2 && b == 0x81 && c == 0x9F)
    ||| (a == 0xE3 && b == 0x80 && c == 0x80)
}

/// How many bytes the sequence's one leading whitespace character has:
/// zero when it does not start with one.
pub open spec fn front_ws(s: Seq<u8>) -> nat {
    if s.len() >= 1 && is_ws(s[0]) {
        1
    } else if s.len() >= 2 && is_ws_pair(s[0], s[1]) {
        2
    } else if s.len() >= 3 && is_ws_triple(s[0], s[1], s[2]) {
        3
    } else {
        0
    }
}

/// How many bytes the sequence's one trailing whitespace character has.
/// On UTF-8 input the byte patterns are unambiguous from the end: the
/// one-byte forms are never continuation bytes, and the leading bytes of
/// the longer forms can stand nowhere else in a character.
pub open spec fn back_ws(s: Seq<u8>) -> nat {
    if s.len() >= 1 && is_ws(s[s.len() - 1]) {
        1
    } else if s.len() >= 2 && is_ws_pair(s[s.len() - 2], s[s.len() - 1]) {
        2
    } else if s.len() >= 3 && is_ws_triple(s[s.len() - 3], s[s.len() - 2], s[s.len() - 1]) {
        3
    } else {
        0
    }
}

/// How many bytes of whitespace characters the sequence starts with,
/// matched one character at a time.
pub open spec fn ws_prefix_len(s: Seq<u8>) -> nat
    decreases s.len(),
{
    let k = front_ws(s);
    if k == 0 {
        0
    } else {
        (k + ws_prefix_len(s.skip(k as int))) as nat
    }
}

/// How many bytes of whitespace characters the sequence ends with.
pub open spec fn ws_suffix_len(s: Seq<u8>) -> nat
    decreases s.len(),
{
    let k = back_ws(s);
    if k == 0 {
        0
    } else {
        (k + ws_suffix_len(s.take(s.len() - k))) as nat
    }
}

/// The sequence with leading and trailing whitespace characters removed.
pub open spec fn trimmed(s: Seq<u8>) -> Seq<u8> {
    let a = s.skip(ws_prefix_len(s) as int);
    a.take(a.len() - ws_suffix_len(a) as int)
}

/// The base a trimmed input selects: 16 after `0x`/`0X`, 2 after `0b`/`0B`,
/// 8 after `0o`/`0O`, 10 otherwise.
pub open spec fn base_of(t: Seq<u8>) -> nat {
    if t.len() >= 2 && t[0] == 48 && (t[1] == 120 || t[1] == 88) {
        16
    } else if t.len() >= 2 && t[0] == 48 && (t[1] == 98 || t[1] == 66) {
        2
    } else if t.len() >= 2 && t[0] == 48 && (t[1] == 111 || t[1] == 79) {
        8
    } else {
        10
    }
}

/// The trimmed input with any base prefix removed.
pub open spec fn number_part(t: Seq<u8>) -> Seq<u8> {
    if base_of(t) == 10 {
        t
    } else {
        t.skip(2)
    }
}

/// The value of one digit byte in the given base, if it is one: `0`-`9`,
/// then letters of either case from ten upward.
pub open spec fn digit_val(b: u8, base: nat) -> Option<nat> {
    let d: nat = if 48 <= b && b <= 57 {
        (b - 48) as nat
    } else if 97 <= b && b <= 122 {
        (b - 97 + 10) as nat
    } else if 65 <= b && b <= 90 {
        (b - 65 + 10) as nat
    } else {
        99
    };
    if d < base {
        Some(d)
    } else {
        None
    }
}

/// Folds digit bytes left to right onto `acc`. The first byte that is no
/// digit of the base is `Invalid`; the first step whose result would pass
/// `limit` is `Overflow`.
pub open spec fn fold_digits(s: Seq<u8>, base: nat, acc: nat, limit: nat) -> Result<
    nat,
    IntParserErrorKind,
>
    decreases s.len(),
{
    if s.len() == 0 {
        Ok(acc)
    } else {
        match digit_val(s[0], base) {
            None => Err(IntParserErrorKind::Invalid),
            Some(d) => {
                if acc * base + d > limit {
                    Err(IntParserErrorKind::Overflow)
                } else {
                    fold_digits(s.drop_first(), base, acc * base + d, limit)
                }
            },
        }
    }
}

/// The whole pipeline on raw input bytes: trim, detect the base, take the
/// sign, fold the digits against the limit for that sign. `Ok` carries the
/// sign and the magnitude.
pub open spec fn spec_parse_int(
    s: Seq<u8>,
    signed: bool,
    limit_pos: nat,
    limit_neg: nat,
) -> Result<(bool, nat), IntParserErrorKind> {
    let t = trimmed(s);
    if t.len() == 0 {
        Err(IntParserErrorKind::Empty)
    } else {
        let num = number_part(t);
        if num.len() == 0 {
            Err(IntParserErrorKind::Invalid)
        } else {
            let neg = num[0] == 45;
            let has_sign = num[0] == 43 || num[0] == 45;
            if neg && !signed {
                Err(IntParserErrorKind::Invalid)
            } else {
                let digits = if has_sign {
                    num.skip(1)
                } else {
                    num
                };
                if digits.len() == 0 {
                    Err(IntParserErrorKind::Invalid)
                } else {
                    match fold_digits(
                        digits,
                        base_of(t),
                        0,
                        if neg {
                            limit_neg
                        } else {
                            limit_pos
                        },
                    ) {
                        Ok(v) => Ok((neg, v)),
                        Err(k) => Err(k),
                    }
                }
            }
        }
    }
}

/// Exec mirror of `is_ws`.
fn byte_is_ws(b: u8) -> (r: bool)
    ensures
        r == is_ws(b),
{
    b == 32 || (9 <= b && b <= 13)
}

/// Exec mirror of `is_ws_pair`.
fn byte_pair_ws(a: u8, b: u8) -> (r: bool)
    ensures
        r == is_ws_pair(a, b),
{
    a == 0xC2 && (b == 0x85 || b == 0xA0)
}

/// Exec mirror of `is_ws_triple`.
fn byte_triple_ws(a: u8, b: u8, c: u8) -> (r: bool)
    ensures
        r == is_ws_triple(a, b, c),
{
    (a == 0xE1 && b == 0x9A && c == 0x80) || (a == 0xE2 && b == 0x80 && ((0x80 <= c && c <= 0x8A)
        || c == 0xA8 || c == 0xA9 || c == 0xAF)) || (a == 0xE2 && b == 0x81 && c == 0x9F) || (a
        == 0xE3 && b == 0x80 && c == 0x80)
}

/// The byte width of the one whitespace character `b[lo..]` starts with,
/// exactly as `front_ws` says; zero when it starts with none.
fn front_ws_at(b: &[u8], lo: usize) -> (k: usize)
    requires
        lo <= b@.len(),
    ensures
        k == front_ws(b@.skip(lo as int)),
        lo + k <= b@.len(),
{
    let n: usize = b.len();
    proof {
        let s = b@.skip(lo as int);
        if lo < n {
            assert(s[0] == b@[lo as int]);
        }
        if lo + 1 < n {
            assert(s[1] == b@[lo + 1]);
        }
        if lo + 2 < n {
            assert(s[2] == b@[lo + 2]);
        }
    }
    if lo < n && byte_is_ws(b[lo]) {
        1
    } else if n - lo >= 2 && byte_pair_ws(b[lo], b[lo + 1]) {
        2
    } else if n - lo >= 3 && byte_triple_ws(b[lo], b[lo + 1], b[lo + 2]) {
        3
    } else {
        0
    }
}

/// The byte width of the one whitespace character `b[lo..hi]` ends with,
/// exactly as `back_ws` says; zero when it ends with none.
fn back_ws_at(b: &[u8], lo: usize, hi: usize) -> (k: usize)
    requires
        lo <= hi <= b@.len(),
    ensures
        k == back_ws(b@.subrange(lo as int, hi as int)),
        k <= hi - lo,
{
    proof {
        let s = b@.subrange(lo as int, hi as int);
        if hi - lo >= 1 {
            assert(s[s.len() - 1] == b@[hi - 1]);
        }
        if hi - lo >= 2 {
            assert(s[s.len() - 2] == b@[hi - 2]);
        }
        if hi - lo >= 3 {
            assert(s[s.len() - 3] == b@[hi - 3]);
        }
    }
    if hi - lo >= 1 && byte_is_ws(b[hi - 1]) {
        1
    } else if hi - lo >= 2 && byte_pair_ws(b[hi - 2], b[hi - 1]) {
        2
    } else if hi - lo >= 3 && byte_triple_ws(b[hi - 3], b[hi - 2], b[hi - 1]) {
        3
    } else {
        0
    }
}

/// Exec mirror of `digit_val`.
fn byte_digit_val(b: u8, base: u64) -> (r: Option<u64>)
    ensures
        match r {
            Some(d) => digit_val(b, base as nat) == Some(d as nat),
            None => digit_val(b, base as nat) is None,
        },
{
    let d: u64 = if 48 <= b && b <= 57 {
        (b - 48) as u64
    } else if 97 <= b && b <= 122 {
        (b - 97 + 10) as u64
    } else if 65 <= b && b <= 90 {
        (b - 65 + 10) as u64
    } else {
        99
    };
    if d < base {
        Some(d)
    } else {
        None
    }
}

/// Folds the digit bytes of `b[lo..hi]` exactly as `fold_digits` says.
fn parse_digits(b: &[u8], lo: usize, hi: usize, base: u64, limit: u64) -> (r: Result<
    u64,
    IntParserErrorKind,
>)
    requires
        lo <= hi <= b@.len(),
        2 <= base <= 16,
    ensures
        match r {
            Ok(v) => v <= limit && fold_digits(
                b@.subrange(lo as int, hi as int),
                base as nat,
                0,
                limit as nat,
            ) == Ok::<nat, IntParserErrorKind>(v as nat),
            Err(k) => fold_digits(b@.subrange(lo as int, hi as int), base as nat, 0, limit as nat)
                == Err::<nat, IntParserErrorKind>(k),
        },
{
    let ghost whole: Seq<u8> = b@.subrange(lo as int, hi as int);
    let mut acc: u64 = 0;
    let mut i: usize = lo;
    while i < hi
        invariant
            lo <= i <= hi <= b@.len(),
            2 <= base <= 16,
            acc <= limit,
            whole == b@.subrange(lo as int, hi as int),
            fold_digits(whole, base as nat, 0, limit as nat) == fold_digits(
                b@.subrange(i as int, hi as int),
                base as nat,
                acc as nat,
                limit as nat,
            ),
        decreases hi - i,
    {
        let ghost rest: Seq<u8> = b@.subrange(i as int, hi as int);
        proof {
            assert(rest.drop_first() =~= b@.subrange(i + 1, hi as int));
            assert(rest[0] == b@[i as int]);
        }
        let d: u64 = match byte_digit_val(b[i], base) {
            Some(d) => d,
            None => {
                return Err(IntParserErrorKind::Invalid);
            },
        };
        let stepped: u64 = match acc.checked_mul(base) {
            Some(m) => match m.checked_add(d) {
                Some(t) => t,
                None => {
                    return Err(IntParserErrorKind::Overflow);
                },
            },
            None => {
                return Err(IntParserErrorKind::Overflow);
            },
        };
        if stepped > limit {
            return Err(IntParserErrorKind::Overflow);
        }
        acc = stepped;
        i = i + 1;
    }
    proof {
        assert(b@.subrange(i as int, hi as int) =~= Seq::<u8>::empty());
    }
    Ok(acc)
}

/// The bounds of the trimmed region: whole whitespace characters are
/// stripped from either end, exactly as `trimmed` says.
fn trim_bounds(b: &[u8]) -> (r: (usize, usize))
    ensures
        ({
            let (lo, hi) = r;
            &&& lo <= hi <= b@.len()
            &&& trimmed(b@) == b@.subrange(lo as int, hi as int)
        }),
{
    let n: usize = b.len();
    let mut lo: usize = 0;
    let mut scanning: bool = true;
    proof {
        assert(b@.skip(0) =~= b@);
    }
    while scanning
        invariant
            lo <= n,
            n == b@.len(),
            ws_prefix_len(b@) == lo + ws_prefix_len(b@.skip(lo as int)),
            !scanning ==> front_ws(b@.skip(lo as int)) == 0,
        decreases n - lo + (if scanning {
            1int
        } else {
            0int
        }),
    {
        let k = front_ws_at(b, lo);
        if k == 0 {
            scanning = false;
        } else {
            proof {
                assert(b@.skip(lo as int).skip(k as int) =~= b@.skip(lo + k));
            }
            lo = lo + k;
        }
    }
    let mut hi: usize = n;
    let mut back_scanning: bool = true;
    proof {
        assert(b@.subrange(lo as int, n as int) =~= b@.skip(lo as int));
    }
    while back_scanning
        invariant
            lo <= hi <= n,
            n == b@.len(),
            ws_suffix_len(b@.skip(lo as int)) == (n - hi) + ws_suffix_len(
                b@.subrange(lo as int, hi as int),
            ),
            !back_scanning ==> back_ws(b@.subrange(lo as int, hi as int)) == 0,
        decreases hi + (if back_scanning {
            1int
        } else {
            0int
        }),
    {
        let k = back_ws_at(b, lo, hi);
        if k == 0 {
            back_scanning = false;
        } else {
            proof {
                let s = b@.subrange(lo as int, hi as int);
                assert(s.take(s.len() - k) =~= b@.subrange(lo as int, hi - k));
            }
            hi = hi - k;
        }
    }
    proof {
        let a = b@.skip(lo as int);
        assert(ws_prefix_len(b@) == lo);
        assert(ws_suffix_len(a) == n - hi);
        assert(a.take(a.len() - (n - hi)) =~= b@.subrange(lo as int, hi as int));
    }
    (lo, hi)
}

/// Trims, splits base and sign, and folds the digits of `input`, exactly
/// as `spec_parse_int` says of the input's UTF-8 bytes.
fn split_parse(input: &str, signed: bool, limit_pos: u64, limit_neg: u64) -> (r: Result<
    (bool, u64),
    IntParserErrorKind,
>)
    ensures
        match r {
            Ok((neg, v)) => v <= (if neg {
                limit_neg
            } else {
                limit_pos
            }) && spec_parse_int(
                input.spec_bytes(),
                signed,
                limit_pos as nat,
                limit_neg as nat,
            ) == Ok::<(bool, nat), IntParserErrorKind>((neg, v as nat)),
            Err(k) => spec_parse_int(input.spec_bytes(), signed, limit_pos as nat, limit_neg as nat)
                == Err::<(bool, nat), IntParserErrorKind>(k),
        },
{
    let b: &[u8] = input.as_bytes();
    let n: usize = b.len();
    let (lo, hi) = trim_bounds(b);
    let ghost t: Seq<u8> = b@.subrange(lo as int, hi as int);
    if lo == hi {
        return Err(IntParserErrorKind::Empty);
    }
    let (base, ds): (u64, usize) = if hi - lo >= 2 && b[lo] == 48 {
        let second: u8 = b[lo + 1];
        if second == 120 || second == 88 {
            (16, lo + 2)
        } else if second == 98 || second == 66 {
            (2, lo + 2)
        } else if second == 111 || second == 79 {
            (8, lo + 2)
        } else {
            (10, lo)
        }
    } else {
        (10, lo)
    };
    proof {
        assert(t[0] == b@[lo as int]);
        if t.len() >= 2 {
            assert(t[1] == b@[lo + 1]);
        }
        assert(base == base_of(t));
        assert(number_part(t) =~= b@.subrange(ds as int, hi as int));
    }
    if ds == hi {
        return Err(IntParserErrorKind::Invalid);
    }
    let first: u8 = b[ds];
    proof {
        assert(number_part(t)[0] == b@[ds as int]);
    }
    let neg: bool = first == 45;
    let has_sign: bool = neg || first == 43;
    if neg && !signed {
        return Err(IntParserErrorKind::Invalid);
    }
    let dstart: usize = if has_sign {
        ds + 1
    } else {
        ds
    };
    proof {
        if has_sign {
            assert(number_part(t).skip(1) =~= b@.subrange(dstart as int, hi as int));
        }
    }
    if dstart == hi {
        return Err(IntParserErrorKind::Invalid);
    }
    let limit: u64 = if neg {
        limit_neg
    } else {
        limit_pos
    };
    match parse_digits(b, dstart, hi, base, limit) {
        Ok(v) => Ok((neg, v)),
        Err(k) => Err(k),
    }
}

// --- the per-type results, stated over the pipeline ---

pub open spec fn spec_parse_u8(s: Seq<u8>) -> Result<u8, IntParserErrorKind> {
    match spec_parse_int(s, false, 0xff, 0) {
        Ok((neg, v)) => Ok(v as u8),
        Err(k) => Err(k),
    }
}

pub open spec fn spec_parse_u16(s: Seq<u8>) -> Result<u16, IntParserErrorKind> {
    match spec_parse_int(s, false, 0xffff, 0) {
        Ok((neg, v)) => Ok(v as u16),
        Err(k) => Err(k),
    }
}

pub open spec fn spec_parse_u32(s: Seq<u8>) -> Result<u32, IntParserErrorKind> {
    match spec_parse_int(s, false, 0xffffffff, 0) {
        Ok((neg, v)) => Ok(v as u32),
        Err(k) => Err(k),
    }
}

pub open spec fn spec_parse_u64(s: Seq<u8>) -> Result<u64, IntParserErrorKind> {
    match spec_parse_int(s, false, 0xffffffffffffffff, 0) {
        Ok((neg, v)) => Ok(v as u64),
        Err(k) => Err(k),
    }
}

pub open spec fn spec_parse_i8(s: Seq<u8>) -> Result<i8, IntParserErrorKind> {
    match spec_parse_int(s, true, 0x7f, 0x80) {
        Ok((neg, v)) => Ok(
            (if neg {
                0 - v
            } else {
                v as int
            }) as i8,
        ),
        Err(k) => Err(k),
    }
}

pub open spec fn spec_parse_i16(s: Seq<u8>) -> Result<i16, IntParserErrorKind> {
    match spec_parse_int(s, true, 0x7fff, 0x8000) {
        Ok((neg, v)) => Ok(
            (if neg {
                0 - v
            } else {
                v as int
            }) as i16,
        ),
        Err(k) => Err(k),
    }
}

pub open spec fn spec_parse_i32(s: Seq<u8>) -> Result<i32, IntParserErrorKind> {
    match spec_parse_int(s, true, 0x7fffffff, 0x80000000) {
        Ok((neg, v)) => Ok(
            (if neg {
                0 - v
            } else {
                v as int
            }) as i32,
        ),
        Err(k) => Err(k),
    }
}

pub open spec fn spec_parse_i64(s: Seq<u8>) -> Result<i64, IntParserErrorKind> {
    match spec_parse_int(s, true, 0x7fffffffffffffff, 0x8000000000000000) {
        Ok((neg, v)) => Ok(
            (if neg {
                0 - v
            } else {
                v as int
            }) as i64,
        ),
        Err(k) => Err(k),
    }
}

/// The integer parser: one function per target type, all over the same
/// pipeline.
pub struct IntParser;

impl IntParser {
    /// Parse a string into u8
    pub fn parse_u8(input: &str) -> (r: Result<u8, IntParserError>)
        ensures
            match r {
                Ok(v) => spec_parse_u8(input.spec_bytes()) == Ok::<u8, IntParserErrorKind>(v),
                Err(e) => spec_parse_u8(input.spec_bytes()) == Err::<u8, IntParserErrorKind>(e.kind)
                    && e.input@ == input@,
            },
    {
        match split_parse(input, false, 0xff, 0) {
            Ok((_, v)) => Ok(v as u8),
            Err(k) => Err(IntParserError::new(k, input)),
        }
    }

    /// Parse a string into u16
    pub fn parse_u16(input: &str) -> (r: Result<u16, IntParserError>)
        ensures
            match r {
                Ok(v) => spec_parse_u16(input.spec_bytes()) == Ok::<u16, IntParserErrorKind>(v),
                Err(e) => spec_parse_u16(input.spec_bytes()) == Err::<u16, IntParserErrorKind>(
                    e.kind,
                ) && e.input@ == input@,
            },
    {
        match split_parse(input, false, 0xffff, 0) {
            Ok((_, v)) => Ok(v as u16),
            Err(k) => Err(IntParserError::new(k, input)),
        }
    }

    /// Parse a string into u32
    pub fn parse_u32(input: &str) -> (r: Result<u32, IntParserError>)
        ensures
            match r {
                Ok(v) => spec_parse_u32(input.spec_bytes()) == Ok::<u32, IntParserErrorKind>(v),
                Err(e) => spec_parse_u32(input.spec_bytes()) == Err::<u32, IntParserErrorKind>(
                    e.kind,
                ) && e.input@ == input@,
            },
    {
        match split_parse(input, false, 0xffffffff, 0) {
            Ok((_, v)) => Ok(v as u32),
            Err(k) => Err(IntParserError::new(k, input)),
        }
    }

    /// Parse a string into u64
    pub fn parse_u64(input: &str) -> (r: Result<u64, IntParserError>)
        ensures
            match r {
                Ok(v) => spec_parse_u64(input.spec_bytes()) == Ok::<u64, IntParserErrorKind>(v),
                Err(e) => spec_parse_u64(input.spec_bytes()) == Err::<u64, IntParserErrorKind>(
                    e.kind,
                ) && e.input@ == input@,
            },
    {
        match split_parse(input, false, 0xffffffffffffffff, 0) {
            Ok((_, v)) => Ok(v),
            Err(k) => Err(IntParserError::new(k, input)),
        }
    }

    /// Parse a string into i8
    pub fn parse_i8(input: &str) -> (r: Result<i8, IntParserError>)
        ensures
            match r {
                Ok(v) => spec_parse_i8(input.spec_bytes()) == Ok::<i8, IntParserErrorKind>(v),
                Err(e) => spec_parse_i8(input.spec_bytes()) == Err::<i8, IntParserErrorKind>(e.kind)
                    && e.input@ == input@,
            },
    {
        match split_parse(input, true, 0x7f, 0x80) {
            Ok((neg, v)) => Ok(
                if neg {
                    if v == 0x80 {
                        i8::MIN
                    } else {
                        -(v as i8)
                    }
                } else {
                    v as i8
                },
            ),
            Err(k) => Err(IntParserError::new(k, input)),
        }
    }

    /// Parse a string into i16
    pub fn parse_i16(input: &str) -> (r: Result<i16, IntParserError>)
        ensures
            match r {
                Ok(v) => spec_parse_i16(input.spec_bytes()) == Ok::<i16, IntParserErrorKind>(v),
                Err(e) => spec_parse_i16(input.spec_bytes()) == Err::<i16, IntParserErrorKind>(
                    e.kind,
                ) && e.input@ == input@,
            },
    {
        match split_parse(input, true, 0x7fff, 0x8000) {
            Ok((neg, v)) => Ok(
                if neg {
                    if v == 0x8000 {
                        i16::MIN
                    } else {
                        -(v as i16)
                    }
                } else {
                    v as i16
                },
            ),
            Err(k) => Err(IntParserError::new(k, input)),
        }
    }

    /// Parse a string into i32
    pub fn parse_i32(input: &str) -> (r: Result<i32, IntParserError>)
        ensures
            match r {
                Ok(v) => spec_parse_i32(input.spec_bytes()) == Ok::<i32, IntParserErrorKind>(v),
                Err(e) => spec_parse_i32(input.spec_bytes()) == Err::<i32, IntParserErrorKind>(
                    e.kind,
                ) && e.input@ == input@,
            },
    {
        match split_parse(input, true, 0x7fffffff, 0x80000000) {
            Ok((neg, v)) => Ok(
                if neg {
                    if v == 0x80000000 {
                        i32::MIN
                    } else {
                        -(v as i32)
                    }
                } else {
                    v as i32
                },
            ),
            Err(k) => Err(IntParserError::new(k, input)),
        }
    }

    /// Parse a string into i64
    pub fn parse_i64(input: &str) -> (r: Result<i64, IntParserError>)
        ensures
            match r {
                Ok(v) => spec_parse_i64(input.spec_bytes()) == Ok::<i64, IntParserErrorKind>(v),
                Err(e) => spec_parse_i64(input.spec_bytes()) == Err::<i64, IntParserErrorKind>(
                    e.kind,
                ) && e.input@ == input@,
            },
    {
        match split_parse(input, true, 0x7fffffffffffffff, 0x8000000000000000) {
            Ok((neg, v)) => Ok(
                if neg {
                    if v == 0x8000000000000000 {
                        i64::MIN
                    } else {
                        -(v as i64)
                    }
                } else {
                    v as i64
                },
            ),
            Err(k) => Err(IntParserError::new(k, input)),
        }
    }
}

} // verus!
