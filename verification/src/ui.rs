//! Driver-facing value types: what kind of value is being searched for,
//! which options apply to it, byte selections in the viewed buffer, and the
//! parsing of a typed-in search value into an owned byte pattern.

use crate::int_parse;
use crate::int_parse::IntParser;
use crate::int_parse::IntParserError;
use crate::search::encoded_bytes;
use crate::search::Endianness;
use crate::search::Needle;
use crate::search::NeedleOwned;
use vstd::prelude::*;
use vstd::string::StringSliceAdditionalSpecFns;
use vstd::string::StringExecFns;

verus! {

/// The kind of value a search input denotes.
#[non_exhaustive]
#[derive(Debug, Clone, Copy, PartialEq, Eq, Structural)]
pub enum SearchType {
    Bit8,
    Bit16,
    Bit32,
    Bit64,
    Bytes,
    String,
}

/// Endianness applies to the multi-byte numeric kinds only.
pub open spec fn endianness_enabled(t: SearchType) -> bool {
    match t {
        SearchType::Bit16 => true,
        SearchType::Bit32 => true,
        SearchType::Bit64 => true,
        _ => false,
    }
}

/// Signedness applies to the numeric kinds only.
pub open spec fn signedness_enabled(t: SearchType) -> bool {
    match t {
        SearchType::Bit8 => true,
        SearchType::Bit16 => true,
        SearchType::Bit32 => true,
        SearchType::Bit64 => true,
        _ => false,
    }
}

/// A text encoding applies to text searches only.
pub open spec fn encoding_enabled(t: SearchType) -> bool {
    t matches SearchType::String
}

impl SearchType {
    pub fn is_endianness_enabled(&self) -> (r: bool)
        ensures
            r == endianness_enabled(*self),
    {
        matches!(self, SearchType::Bit16 | SearchType::Bit32 | SearchType::Bit64)
    }

    pub fn is_signedness_enabled(&self) -> (r: bool)
        ensures
            r == signedness_enabled(*self),
    {
        matches!(
            self,
            SearchType::Bit8 | SearchType::Bit16 | SearchType::Bit32 | SearchType::Bit64,
        )
    }

    pub fn is_encoding_enabled(&self) -> (r: bool)
        ensures
            r == encoding_enabled(*self),
    {
        matches!(self, SearchType::String)
    }

    /// The kind's display name.
    pub fn label(&self) -> (r: &'static str)
        ensures
            match *self {
                SearchType::Bit8 => r@ == "8-Bit"@,
                SearchType::Bit16 => r@ == "16-Bit"@,
                SearchType::Bit32 => r@ == "32-Bit"@,
                SearchType::Bit64 => r@ == "64-Bit"@,
                SearchType::Bytes => r@ == "Bytes"@,
                SearchType::String => r@ == "String"@,
            },
    {
        match self {
            SearchType::Bit8 => "8-Bit",
            SearchType::Bit16 => "16-Bit",
            SearchType::Bit32 => "32-Bit",
            SearchType::Bit64 => "64-Bit",
            SearchType::Bytes => "Bytes",
            SearchType::String => "String",
        }
    }
}

/// The text encodings a text search can use.
#[non_exhaustive]
#[derive(Debug, Clone, Copy, PartialEq, Eq, Structural)]
pub enum Encoding {
    UTF8,
}

impl Encoding {
    /// The encoding's display name.
    pub fn label(&self) -> (r: &'static str)
        ensures
            match *self {
                Encoding::UTF8 => r@ == "UTF8"@,
            },
    {
        match self {
            Encoding::UTF8 => "UTF8",
        }
    }
}

/// A selection of bytes: both ends inclusive, and the end may lie before
/// the start, so a selection is never empty.
#[derive(Clone, Copy, Debug, PartialEq, Eq, Structural)]
pub struct Selection {
    start: usize,
    end: usize,
}

impl Selection {
    /// Where the selection was started.
    pub closed spec fn spec_start(&self) -> usize {
        self.start
    }

    /// Where the selection currently ends.
    pub closed spec fn spec_end(&self) -> usize {
        self.end
    }

    /// The smaller of the two endpoints.
    pub open spec fn spec_lower(&self) -> usize {
        if self.spec_start() <= self.spec_end() {
            self.spec_start()
        } else {
            self.spec_end()
        }
    }

    /// The larger of the two endpoints.
    pub open spec fn spec_upper(&self) -> usize {
        if self.spec_start() <= self.spec_end() {
            self.spec_end()
        } else {
            self.spec_start()
        }
    }

    /// The one-byte selection at `offset`.
    pub fn new(offset: usize) -> (r: Self)
        ensures
            r.spec_start() == offset,
            r.spec_end() == offset,
    {
        Self { start: offset, end: offset }
    }

    /// The selection from `start` to `end`, in either order.
    pub fn range(start: usize, end: usize) -> (r: Self)
        ensures
            r.spec_start() == start,
            r.spec_end() == end,
    {
        Self { start, end }
    }

    pub fn lower(&self) -> (r: usize)
        ensures
            r == self.spec_lower(),
    {
        if self.start <= self.end {
            self.start
        } else {
            self.end
        }
    }

    pub fn upper(&self) -> (r: usize)
        ensures
            r == self.spec_upper(),
    {
        if self.start <= self.end {
            self.end
        } else {
            self.start
        }
    }

    /// Whether `offset` lies inside the selection, ends included.
    pub fn contains(&self, offset: usize) -> (r: bool)
        ensures
            r == (self.spec_lower() <= offset && offset <= self.spec_upper()),
    {
        let lo = self.lower();
        let hi = self.upper();
        lo <= offset && offset <= hi
    }

    /// Moves the end, keeping the start.
    pub fn update_end(&mut self, end: usize)
        ensures
            final(self).spec_start() == old(self).spec_start(),
            final(self).spec_end() == end,
    {
        self.end = end;
    }

    /// Moves the start, keeping the end.
    pub fn update_start(&mut self, start: usize)
        ensures
            final(self).spec_start() == start,
            final(self).spec_end() == old(self).spec_end(),
    {
        self.start = start;
    }
}

/// One search hit as a results list shows it: its position in the list and
/// the byte offset of the match.
#[derive(Debug, Clone, Copy)]
pub struct SearchResult {
    pub index: usize,
    pub offset: usize,
}

/// Why a typed-in search value could not be turned into a pattern.
#[derive(Debug, Clone)]
pub enum InputParseError {
    /// The integer parser rejected the input.
    IntParser(IntParserError),
    /// Any other reason, in words.
    Other(String),
}

impl InputParseError {
    /// A human-readable account of the failure.
    pub fn message(&self) -> (r: String)
        ensures
            match self {
                InputParseError::IntParser(e) => r@ == spec_int_parser_message(e),
                InputParseError::Other(m) => r@ == m@,
            },
    {
        match self {
            InputParseError::IntParser(e) => int_parser_message(e),
            InputParseError::Other(m) => m.clone(),
        }
    }
}

/// The integer parser's failure, in words.
pub open spec fn spec_int_parser_message(e: &IntParserError) -> Seq<char> {
    match e.kind {
        int_parse::IntParserErrorKind::Empty => "Cannot parse empty string into an integer."@,
        int_parse::IntParserErrorKind::Invalid => "Cannot parse "@ + e.input@
            + " into an integer."@,
        int_parse::IntParserErrorKind::Overflow => e.input@
            + " is too large/small to be intepreted as given integer type."@,
    }
}

/// Renders an integer-parser failure as text, exactly as
/// `spec_int_parser_message` says.
pub fn int_parser_message(e: &IntParserError) -> (r: String)
    ensures
        r@ == spec_int_parser_message(e),
{
    match e.kind {
        int_parse::IntParserErrorKind::Empty => String::from_str(
            "Cannot parse empty string into an integer.",
        ),
        int_parse::IntParserErrorKind::Invalid => {
            let mut s = String::from_str("Cannot parse ");
            s.append(e.input.as_str());
            s.append(" into an integer.");
            s
        },
        int_parse::IntParserErrorKind::Overflow => {
            let mut s = e.input.clone();
            s.append(" is too large/small to be intepreted as given integer type.");
            s
        },
    }
}

impl From<IntParserError> for InputParseError {
    fn from(err: IntParserError) -> (r: Self) {
        InputParseError::IntParser(err)
    }
}

impl vstd::std_specs::convert::FromSpecImpl<IntParserError> for InputParseError {
    open spec fn obeys_from_spec() -> bool {
        true
    }

    open spec fn from_spec(err: IntParserError) -> Self {
        InputParseError::IntParser(err)
    }
}

impl From<String> for InputParseError {
    fn from(msg: String) -> (r: Self) {
        InputParseError::Other(msg)
    }
}

impl vstd::std_specs::convert::FromSpecImpl<String> for InputParseError {
    open spec fn obeys_from_spec() -> bool {
        true
    }

    open spec fn from_spec(msg: String) -> Self {
        InputParseError::Other(msg)
    }
}

impl From<&str> for InputParseError {
    fn from(msg: &str) -> (r: Self) {
        InputParseError::Other(String::from_str(msg))
    }
}

impl vstd::std_specs::convert::FromSpecImpl<&str> for InputParseError {
    open spec fn obeys_from_spec() -> bool {
        false
    }

    open spec fn from_spec(msg: &str) -> Self {
        vstd::pervasive::arbitrary()
    }
}

// --- hex byte input, for searches of kind `Bytes` ---

/// The input bytes with every space removed.
pub open spec fn without_spaces(s: Seq<u8>) -> Seq<u8>
    decreases s.len(),
{
    if s.len() == 0 {
        Seq::empty()
    } else if s[0] == 32 {
        without_spaces(s.drop_first())
    } else {
        seq![s[0]] + without_spaces(s.drop_first())
    }
}

/// The bytes with every (left-to-right, non-overlapping) `0x` removed.
pub open spec fn without_0x(s: Seq<u8>) -> Seq<u8>
    decreases s.len(),
{
    if s.len() == 0 {
        Seq::empty()
    } else if s.len() >= 2 && s[0] == 48 && s[1] == 120 {
        without_0x(s.skip(2))
    } else {
        seq![s[0]] + without_0x(s.drop_first())
    }
}

/// Two hex digits per byte: the bytes an even-length digit string denotes,
/// or nothing if some pair is no pair of hex digits.
pub open spec fn bytes_of_hex(s: Seq<u8>) -> Option<Seq<u8>>
    decreases s.len(),
{
    if s.len() == 0 {
        Some(Seq::empty())
    } else if s.len() == 1 {
        None
    } else {
        match (int_parse::digit_val(s[0], 16), int_parse::digit_val(s[1], 16)) {
            (Some(a), Some(b)) => match bytes_of_hex(s.skip(2)) {
                Some(rest) => Some(seq![(a * 16 + b) as u8] + rest),
                None => None,
            },
            _ => None,
        }
    }
}

/// A digit string of odd length denotes no byte sequence.
pub proof fn lemma_odd_hex_none(s: Seq<u8>)
    requires
        s.len() % 2 == 1,
    ensures
        bytes_of_hex(s) is None,
    decreases s.len(),
{
    if s.len() > 1 {
        lemma_odd_hex_none(s.skip(2));
    }
}

/// Prepends a decoded prefix to a decoding of the rest, if there is one.
pub open spec fn opt_concat(prefix: Seq<u8>, rest: Option<Seq<u8>>) -> Option<Seq<u8>> {
    match rest {
        Some(r) => Some(prefix + r),
        None => None,
    }
}

/// Parses a hex byte string such as `41 42 43`, `414243` or `0x41 0x42`:
/// spaces and `0x` markers are dropped, then each pair of hex digits is one
/// byte. The digit string must have even length, and every pair must be two
/// hex digits.
pub fn parse_hex_bytes(input: &str) -> (r: Result<Vec<u8>, InputParseError>)
    ensures
        ({
            let cleaned = without_0x(without_spaces(input.spec_bytes()));
            match r {
                Ok(v) => bytes_of_hex(cleaned) == Some(v@),
                Err(e) => e matches InputParseError::Other(m) && (if cleaned.len() % 2 == 1 {
                    m@ == "Hex string must have even number of characters"@
                } else {
                    bytes_of_hex(cleaned) is None && m@ == "Invalid hex byte"@
                }),
            }
        }),
{
    let b: &[u8] = input.as_bytes();
    let n: usize = b.len();
    // drop spaces
    let mut nospace: Vec<u8> = Vec::new();
    let mut i: usize = 0;
    proof {
        assert(b@.skip(0) =~= b@);
        assert(nospace@ + without_spaces(b@) =~= without_spaces(b@));
    }
    while i < n
        invariant
            i <= n,
            n == b@.len(),
            nospace@ + without_spaces(b@.skip(i as int)) == without_spaces(b@),
        decreases n - i,
    {
        let ghost rest = b@.skip(i as int);
        proof {
            assert(rest.drop_first() =~= b@.skip(i + 1));
            assert(rest[0] == b@[i as int]);
        }
        let c: u8 = b[i];
        if c != 32 {
            proof {
                assert(nospace@.push(c) + without_spaces(b@.skip(i + 1)) =~= nospace@ + (seq![c]
                    + without_spaces(b@.skip(i + 1))));
            }
            nospace.push(c);
        }
        i = i + 1;
    }
    proof {
        assert(b@.skip(n as int) =~= Seq::<u8>::empty());
        assert(nospace@ + Seq::<u8>::empty() =~= nospace@);
    }
    // drop the 0x markers
    let m: usize = nospace.len();
    let mut cleaned: Vec<u8> = Vec::new();
    let mut j: usize = 0;
    proof {
        assert(nospace@.skip(0) =~= nospace@);
        assert(cleaned@ + without_0x(nospace@) =~= without_0x(nospace@));
    }
    while j < m
        invariant
            j <= m,
            m == nospace@.len(),
            cleaned@ + without_0x(nospace@.skip(j as int)) == without_0x(nospace@),
        decreases m - j,
    {
        let ghost rest = nospace@.skip(j as int);
        proof {
            assert(rest.drop_first() =~= nospace@.skip(j + 1));
            assert(rest[0] == nospace@[j as int]);
            if j + 1 < m {
                assert(rest.skip(2) =~= nospace@.skip(j + 2));
                assert(rest[1] == nospace@[j + 1]);
            }
        }
        let c: u8 = nospace[j];
        if c == 48 && j + 1 < m && nospace[j + 1] == 120 {
            j = j + 2;
        } else {
            proof {
                assert(cleaned@.push(c) + without_0x(nospace@.skip(j + 1)) =~= cleaned@ + (seq![c]
                    + without_0x(nospace@.skip(j + 1))));
            }
            cleaned.push(c);
            j = j + 1;
        }
    }
    proof {
        assert(nospace@.skip(m as int) =~= Seq::<u8>::empty());
        assert(cleaned@ + Seq::<u8>::empty() =~= cleaned@);
        assert(cleaned@ == without_0x(without_spaces(input.spec_bytes())));
    }
    // decode pairs
    let clen: usize = cleaned.len();
    if clen % 2 == 1 {
        return Err(
            InputParseError::Other(
                String::from_str("Hex string must have even number of characters"),
            ),
        );
    }
    let mut out: Vec<u8> = Vec::new();
    let mut k: usize = 0;
    proof {
        assert(cleaned@.skip(0) =~= cleaned@);
        assert(opt_concat(out@, bytes_of_hex(cleaned@)) == bytes_of_hex(cleaned@)) by {
            match bytes_of_hex(cleaned@) {
                Some(rest2) => {
                    assert(out@ + rest2 =~= rest2);
                },
                None => {},
            }
        }
    }
    while k < clen
        invariant
            k <= clen,
            clen == cleaned@.len(),
            clen % 2 == 0,
            k % 2 == 0,
            cleaned@ == without_0x(without_spaces(input.spec_bytes())),
            bytes_of_hex(cleaned@) == opt_concat(out@, bytes_of_hex(cleaned@.skip(k as int))),
        decreases clen - k,
    {
        let ghost rest = cleaned@.skip(k as int);
        proof {
            assert(rest.skip(2) =~= cleaned@.skip(k + 2));
            assert(rest[0] == cleaned@[k as int]);
            assert(rest[1] == cleaned@[k + 1]);
            assert(rest.len() >= 2);
        }
        let a: u64 = match int_parse_digit(cleaned[k]) {
            Some(d) => d,
            None => {
                return Err(InputParseError::Other(String::from_str("Invalid hex byte")));
            },
        };
        let bdig: u64 = match int_parse_digit(cleaned[k + 1]) {
            Some(d) => d,
            None => {
                return Err(InputParseError::Other(String::from_str("Invalid hex byte")));
            },
        };
        let byte: u8 = (a * 16 + bdig) as u8;
        proof {
            assert(out@.push(byte) + (match bytes_of_hex(cleaned@.skip(k + 2)) {
                Some(rest2) => rest2,
                None => Seq::empty(),
            }) =~= out@ + (seq![byte] + (match bytes_of_hex(cleaned@.skip(k + 2)) {
                Some(rest2) => rest2,
                None => Seq::empty(),
            })));
        }
        out.push(byte);
        k = k + 2;
    }
    proof {
        assert(cleaned@.skip(clen as int) =~= Seq::<u8>::empty());
        assert(out@ + Seq::<u8>::empty() =~= out@);
    }
    Ok(out)
}

/// Exec mirror of `int_parse::digit_val` in base sixteen.
fn int_parse_digit(b: u8) -> (r: Option<u64>)
    ensures
        match r {
            Some(d) => int_parse::digit_val(b, 16) == Some(d as nat) && d < 16,
            None => int_parse::digit_val(b, 16) is None,
        },
{
    let d: u64 = if 48 <= b && b <= 57 {
        (b - 48) as u64
    } else if 97 <= b && b <= 122 {
        (b - 97 + 10) as u64
    } else if 65 <= b && b <= 90 {
        (b - 65 + 10) as u64
    } else {
        99
    };
    if d < 16 {
        Some(d)
    } else {
        None
    }
}

/// The byte pattern a search input denotes, if it denotes one: the encoded
/// parse for the numeric kinds, the input's own bytes for text, the decoded
/// hex digits for `Bytes`.
pub open spec fn spec_needle_bytes(
    s: Seq<u8>,
    t: SearchType,
    e: Endianness,
    signed: bool,
) -> Option<Seq<u8>> {
    match t {
        SearchType::Bit8 => if signed {
            match int_parse::spec_parse_i8(s) {
                Ok(v) => Some(encoded_bytes(Needle::I8(v))),
                Err(_) => None,
            }
        } else {
            match int_parse::spec_parse_u8(s) {
                Ok(v) => Some(encoded_bytes(Needle::U8(v))),
                Err(_) => None,
            }
        },
        SearchType::Bit16 => if signed {
            match int_parse::spec_parse_i16(s) {
                Ok(v) => Some(encoded_bytes(Needle::I16(e, v))),
                Err(_) => None,
            }
        } else {
            match int_parse::spec_parse_u16(s) {
                Ok(v) => Some(encoded_bytes(Needle::U16(e, v))),
                Err(_) => None,
            }
        },
        SearchType::Bit32 => if signed {
            match int_parse::spec_parse_i32(s) {
                Ok(v) => Some(encoded_bytes(Needle::I32(e, v))),
                Err(_) => None,
            }
        } else {
            match int_parse::spec_parse_u32(s) {
                Ok(v) => Some(encoded_bytes(Needle::U32(e, v))),
                Err(_) => None,
            }
        },
        SearchType::Bit64 => if signed {
            match int_parse::spec_parse_i64(s) {
                Ok(v) => Some(encoded_bytes(Needle::I64(e, v))),
                Err(_) => None,
            }
        } else {
            match int_parse::spec_parse_u64(s) {
                Ok(v) => Some(encoded_bytes(Needle::U64(e, v))),
                Err(_) => None,
            }
        },
        SearchType::String => Some(s),
        SearchType::Bytes => {
            let cleaned = without_0x(without_spaces(s));
            if cleaned.len() % 2 == 0 {
                bytes_of_hex(cleaned)
            } else {
                None
            }
        },
    }
}

/// Parses a typed-in search value into an owned byte pattern, honouring the
/// kind, byte order, signedness and encoding choices: the numeric kinds go
/// through the integer parser and the needle encoder, text is its UTF-8
/// bytes, and `Bytes` is a hex byte string.
pub fn parse_search_input(
    input: &str,
    search_type: SearchType,
    endianness: Endianness,
    is_signed: bool,
    encoding: Encoding,
) -> (r: Result<NeedleOwned, InputParseError>)
    ensures
        search_type matches SearchType::Bit8 && !is_signed ==> (match int_parse::spec_parse_u8(
            input.spec_bytes(),
        ) {
            Ok(v) => r matches Ok(n) && n@ == encoded_bytes(Needle::U8(v)),
            Err(k) => r matches Err(InputParseError::IntParser(e)) && e.kind == k && e.input@
                == input@,
        }),
        search_type matches SearchType::Bit8 && is_signed ==> (match int_parse::spec_parse_i8(
            input.spec_bytes(),
        ) {
            Ok(v) => r matches Ok(n) && n@ == encoded_bytes(Needle::I8(v)),
            Err(k) => r matches Err(InputParseError::IntParser(e)) && e.kind == k && e.input@
                == input@,
        }),
        search_type matches SearchType::Bit16 && !is_signed ==> (match int_parse::spec_parse_u16(
            input.spec_bytes(),
        ) {
            Ok(v) => r matches Ok(n) && n@ == encoded_bytes(Needle::U16(endianness, v)),
            Err(k) => r matches Err(InputParseError::IntParser(e)) && e.kind == k && e.input@
                == input@,
        }),
        search_type matches SearchType::Bit16 && is_signed ==> (match int_parse::spec_parse_i16(
            input.spec_bytes(),
        ) {
            Ok(v) => r matches Ok(n) && n@ == encoded_bytes(Needle::I16(endianness, v)),
            Err(k) => r matches Err(InputParseError::IntParser(e)) && e.kind == k && e.input@
                == input@,
        }),
        search_type matches SearchType::Bit32 && !is_signed ==> (match int_parse::spec_parse_u32(
            input.spec_bytes(),
        ) {
            Ok(v) => r matches Ok(n) && n@ == encoded_bytes(Needle::U32(endianness, v)),
            Err(k) => r matches Err(InputParseError::IntParser(e)) && e.kind == k && e.input@
                == input@,
        }),
        search_type matches SearchType::Bit32 && is_signed ==> (match int_parse::spec_parse_i32(
            input.spec_bytes(),
        ) {
            Ok(v) => r matches Ok(n) && n@ == encoded_bytes(Needle::I32(endianness, v)),
            Err(k) => r matches Err(InputParseError::IntParser(e)) && e.kind == k && e.input@
                == input@,
        }),
        search_type matches SearchType::Bit64 && !is_signed ==> (match int_parse::spec_parse_u64(
            input.spec_bytes(),
        ) {
            Ok(v) => r matches Ok(n) && n@ == encoded_bytes(Needle::U64(endianness, v)),
            Err(k) => r matches Err(InputParseError::IntParser(e)) && e.kind == k && e.input@
                == input@,
        }),
        search_type matches SearchType::Bit64 && is_signed ==> (match int_parse::spec_parse_i64(
            input.spec_bytes(),
        ) {
            Ok(v) => r matches Ok(n) && n@ == encoded_bytes(Needle::I64(endianness, v)),
            Err(k) => r matches Err(InputParseError::IntParser(e)) && e.kind == k && e.input@
                == input@,
        }),
        search_type matches SearchType::String ==> r matches Ok(n) && n@ == input.spec_bytes(),
        search_type matches SearchType::Bytes ==> (match bytes_of_hex(
            without_0x(without_spaces(input.spec_bytes())),
        ) {
            Some(bs) => (without_0x(without_spaces(input.spec_bytes())).len() % 2 == 0 ==> (r
                matches Ok(n) && n@ == bs)),
            None => r matches Err(InputParseError::Other(_)),
        }) && (without_0x(without_spaces(input.spec_bytes())).len() % 2 == 1 ==> r matches Err(
            InputParseError::Other(_),
        )),
        (match spec_needle_bytes(input.spec_bytes(), search_type, endianness, is_signed) {
            Some(bs) => r matches Ok(n) && n@ == bs,
            None => r is Err,
        }),
{
    match search_type {
        SearchType::Bit8 => {
            if is_signed {
                match IntParser::parse_i8(input) {
                    Ok(v) => Ok(NeedleOwned::encode(Needle::I8(v))),
                    Err(e) => Err(InputParseError::IntParser(e)),
                }
            } else {
                match IntParser::parse_u8(input) {
                    Ok(v) => Ok(NeedleOwned::encode(Needle::U8(v))),
                    Err(e) => Err(InputParseError::IntParser(e)),
                }
            }
        },
        SearchType::Bit16 => {
            if is_signed {
                match IntParser::parse_i16(input) {
                    Ok(v) => Ok(NeedleOwned::encode(Needle::I16(endianness, v))),
                    Err(e) => Err(InputParseError::IntParser(e)),
                }
            } else {
                match IntParser::parse_u16(input) {
                    Ok(v) => Ok(NeedleOwned::encode(Needle::U16(endianness, v))),
                    Err(e) => Err(InputParseError::IntParser(e)),
                }
            }
        },
        SearchType::Bit32 => {
            if is_signed {
                match IntParser::parse_i32(input) {
                    Ok(v) => Ok(NeedleOwned::encode(Needle::I32(endianness, v))),
                    Err(e) => Err(InputParseError::IntParser(e)),
                }
            } else {
                match IntParser::parse_u32(input) {
                    Ok(v) => Ok(NeedleOwned::encode(Needle::U32(endianness, v))),
                    Err(e) => Err(InputParseError::IntParser(e)),
                }
            }
        },
        SearchType::Bit64 => {
            if is_signed {
                match IntParser::parse_i64(input) {
                    Ok(v) => Ok(NeedleOwned::encode(Needle::I64(endianness, v))),
                    Err(e) => Err(InputParseError::IntParser(e)),
                }
            } else {
                match IntParser::parse_u64(input) {
                    Ok(v) => Ok(NeedleOwned::encode(Needle::U64(endianness, v))),
                    Err(e) => Err(InputParseError::IntParser(e)),
                }
            }
        },
        SearchType::String => match encoding {
            Encoding::UTF8 => Ok(NeedleOwned::encode(Needle::Str(input))),
        },
        SearchType::Bytes => {
            proof {
                let cleaned = without_0x(without_spaces(input.spec_bytes()));
                if cleaned.len() % 2 == 1 {
                    lemma_odd_hex_none(cleaned);
                }
            }
            match parse_hex_bytes(input) {
                Ok(v) => Ok(NeedleOwned::from_data(v)),
                Err(e) => Err(e),
            }
        },
    }
}

} // verus!
