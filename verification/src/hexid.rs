//! Fixed-size on-chain identifiers and their textual encoding.
//!
//! An object identifier and an account address are both twenty bytes,
//! written as forty hexadecimal digits with an optional `0x` prefix.

use vstd::prelude::*;
use vstd::string::*;

verus! {

/// Number of bytes in an object identifier or an account address.
pub const ID_BYTE_LEN: usize = 20;

/// Number of hexadecimal digits that encode an identifier.
pub const ID_HEX_LEN: usize = 40;

/// Whether `c` is a hexadecimal digit.
pub open spec fn is_hex_digit(c: char) -> bool {
    (48 <= c as int && c as int <= 57)      // '0' ..= '9'
    || (97 <= c as int && c as int <= 102)  // 'a' ..= 'f'
    || (65 <= c as int && c as int <= 70)   // 'A' ..= 'F'
}

/// Numeric value of a hexadecimal digit.
pub open spec fn hex_digit_value(c: char) -> int
    recommends
        is_hex_digit(c),
{
    if 48 <= c as int && c as int <= 57 {
        c as int - 48
    } else if 97 <= c as int && c as int <= 102 {
        c as int - 87
    } else {
        c as int - 55
    }
}

/// Whether every character of `s` is a hexadecimal digit.
pub open spec fn all_hex_digits(s: Seq<char>) -> bool {
    forall|i: int| 0 <= i < s.len() ==> is_hex_digit(#[trigger] s[i])
}

/// `s` without a leading `0x`, if it has one.
pub open spec fn strip_hex_prefix(s: Seq<char>) -> Seq<char> {
    if s.len() >= 2 && s[0] == '0' && s[1] == 'x' {
        s.subrange(2, s.len() as int)
    } else {
        s
    }
}

/// The byte encoded by two hexadecimal digits.
pub open spec fn hex_pair_value(hi: char, lo: char) -> int {
    16 * hex_digit_value(hi) + hex_digit_value(lo)
}

/// The bytes encoded by a sequence of hexadecimal digits, two digits each.
pub open spec fn bytes_of_hex_digits(s: Seq<char>) -> Seq<u8> {
    Seq::new((s.len() / 2) as nat, |i: int| hex_pair_value(s[2 * i], s[2 * i + 1]) as u8)
}

/// Whether `s` is a valid textual encoding of an identifier.
pub open spec fn is_valid_id_text(s: Seq<char>) -> bool {
    strip_hex_prefix(s).len() == 40 && all_hex_digits(strip_hex_prefix(s))
}

/// The twenty bytes encoded by a valid identifier text.
pub open spec fn id_bytes_of_text(s: Seq<char>) -> Seq<u8>
    recommends
        is_valid_id_text(s),
{
    bytes_of_hex_digits(strip_hex_prefix(s))
}

/// Why a piece of text is not a valid identifier encoding.
#[derive(Clone, Copy, PartialEq, Eq, Structural, Debug)]
pub enum IdParseError {
    /// The digit count (after any `0x` prefix) is not forty.
    WrongLength,
    /// A character is not a hexadecimal digit.
    InvalidDigit,
}

/// Numeric value of one hexadecimal digit character, if it is one.
fn hex_value_of_char(c: char) -> (r: Option<u8>)
    ensures
        r is Some <==> is_hex_digit(c),
        r matches Some(v) ==> v as int == hex_digit_value(c) && v < 16,
{
    let u: u32 = c as u32;
    if 48 <= u && u <= 57 {
        Some((u - 48) as u8)
    } else if 97 <= u && u <= 102 {
        Some((u - 87) as u8)
    } else if 65 <= u && u <= 70 {
        Some((u - 55) as u8)
    } else {
        None
    }
}

/// Parse a forty-digit hexadecimal text (optional `0x` prefix) into its
/// twenty bytes, reporting exactly why an invalid text is rejected.
pub fn parse_id_bytes(s: &str) -> (r: Result<Vec<u8>, IdParseError>)
    ensures
        r is Ok <==> is_valid_id_text(s@),
        r matches Ok(v) ==> v@ == id_bytes_of_text(s@) && v@.len() == 20,
        r matches Err(e) ==> (e is WrongLength <==> strip_hex_prefix(s@).len() != 40),
{
    let n = s.unicode_len();
    let off: usize = if n >= 2 && s.get_char(0) == '0' && s.get_char(1) == 'x' {
        2
    } else {
        0
    };
    assert(s@.subrange(off as int, n as int) == strip_hex_prefix(s@));
    if n - off != 40 {
        return Err(IdParseError::WrongLength);
    }
    let mut bytes: Vec<u8> = Vec::new();
    let mut i: usize = 0;
    while i < 20
        invariant
            i <= 20,
            off + 40 == n,
            n == s@.len(),
            off == 0 || off == 2,
            s@.subrange(off as int, n as int) == strip_hex_prefix(s@),
            bytes@.len() == i,
            forall|j: int|
                0 <= j < 2 * i ==> is_hex_digit(#[trigger] strip_hex_prefix(s@)[j]),
            forall|j: int|
                0 <= j < i ==> bytes@[j] as int == hex_pair_value(
                    strip_hex_prefix(s@)[2 * j],
                    strip_hex_prefix(s@)[2 * j + 1],
                ),
        decreases 20 - i,
    {
        let hi = hex_value_of_char(s.get_char(off + 2 * i));
        let lo = hex_value_of_char(s.get_char(off + 2 * i + 1));
        match (hi, lo) {
            (Some(h), Some(l)) => {
                bytes.push(16 * h + l);
            },
            _ => {
                assert(!all_hex_digits(strip_hex_prefix(s@))) by {
                    if hi is None {
                        assert(strip_hex_prefix(s@)[2 * i] == s@[off + 2 * i]);
                    } else {
                        assert(strip_hex_prefix(s@)[2 * i + 1] == s@[off + 2 * i + 1]);
                    }
                }
                return Err(IdParseError::InvalidDigit);
            },
        }
        i += 1;
    }
    assert(bytes@ =~= bytes_of_hex_digits(strip_hex_prefix(s@)));
    Ok(bytes)
}

/// The lowercase hexadecimal digit for a value below sixteen.
pub open spec fn hex_char_of_value(v: int) -> char
    recommends
        0 <= v < 16,
{
    if v == 0 {
        '0'
    } else if v == 1 {
        '1'
    } else if v == 2 {
        '2'
    } else if v == 3 {
        '3'
    } else if v == 4 {
        '4'
    } else if v == 5 {
        '5'
    } else if v == 6 {
        '6'
    } else if v == 7 {
        '7'
    } else if v == 8 {
        '8'
    } else if v == 9 {
        '9'
    } else if v == 10 {
        'a'
    } else if v == 11 {
        'b'
    } else if v == 12 {
        'c'
    } else if v == 13 {
        'd'
    } else if v == 14 {
        'e'
    } else {
        'f'
    }
}

/// The lowercase hexadecimal digits of a byte sequence, two per byte.
pub open spec fn hex_text_of_bytes(b: Seq<u8>) -> Seq<char> {
    Seq::new(
        2 * b.len(),
        |i: int|
            if i % 2 == 0 {
                hex_char_of_value(b[i / 2] as int / 16)
            } else {
                hex_char_of_value(b[i / 2] as int % 16)
            },
    )
}

/// The canonical display of an identifier: `0x` then its lowercase digits.
pub open spec fn id_display_text(b: Seq<u8>) -> Seq<char> {
    seq!['0', 'x'] + hex_text_of_bytes(b)
}

/// A lowercase hexadecimal digit, as a one-character string.
fn hex_char_str(v: u8) -> (r: &'static str)
    requires
        v < 16,
    ensures
        r@.len() == 1,
        r@[0] == hex_char_of_value(v as int),
{
    proof {
        reveal_strlit("0");
        reveal_strlit("1");
        reveal_strlit("2");
        reveal_strlit("3");
        reveal_strlit("4");
        reveal_strlit("5");
        reveal_strlit("6");
        reveal_strlit("7");
        reveal_strlit("8");
        reveal_strlit("9");
        reveal_strlit("a");
        reveal_strlit("b");
        reveal_strlit("c");
        reveal_strlit("d");
        reveal_strlit("e");
        reveal_strlit("f");
    }
    match v {
        0 => "0",
        1 => "1",
        2 => "2",
        3 => "3",
        4 => "4",
        5 => "5",
        6 => "6",
        7 => "7",
        8 => "8",
        9 => "9",
        10 => "a",
        11 => "b",
        12 => "c",
        13 => "d",
        14 => "e",
        _ => "f",
    }
}

/// Render twenty identifier bytes as `0x` followed by forty lowercase digits.
pub fn format_id_text(bytes: &Vec<u8>) -> (r: String)
    requires
        bytes@.len() == 20,
    ensures
        r@ == id_display_text(bytes@),
{
    let mut r = String::from_str("0x");
    proof {
        reveal_strlit("0x");
        assert(r@ =~= seq!['0', 'x']);
    }
    let mut i: usize = 0;
    while i < 20
        invariant
            i <= 20,
            bytes@.len() == 20,
            r@ == seq!['0', 'x'] + hex_text_of_bytes(bytes@.subrange(0, i as int)),
        decreases 20 - i,
    {
        let b = bytes[i];
        r.append(hex_char_str(b / 16));
        r.append(hex_char_str(b % 16));
        proof {
            assert(r@ =~= seq!['0', 'x'] + hex_text_of_bytes(bytes@.subrange(0, i + 1)));
        }
        i += 1;
    }
    proof {
        assert(bytes@.subrange(0, 20) =~= bytes@);
    }
    r
}

/// A hexadecimal digit stands for its own value.
proof fn lemma_hex_char_of_value_inverts(v: int)
    requires
        0 <= v < 16,
    ensures
        is_hex_digit(hex_char_of_value(v)),
        hex_digit_value(hex_char_of_value(v)) == v,
{
}

/// Parsing the canonical display of twenty bytes yields those bytes back.
pub proof fn lemma_display_round_trip(b: Seq<u8>)
    requires
        b.len() == 20,
    ensures
        is_valid_id_text(id_display_text(b)),
        id_bytes_of_text(id_display_text(b)) == b,
{
    let text = id_display_text(b);
    let digits = hex_text_of_bytes(b);
    assert(strip_hex_prefix(text) =~= digits);
    assert forall|i: int| 0 <= i < digits.len() implies is_hex_digit(#[trigger] digits[i]) by {
        if i % 2 == 0 {
            lemma_hex_char_of_value_inverts(b[i / 2] as int / 16);
        } else {
            lemma_hex_char_of_value_inverts(b[i / 2] as int % 16);
        }
    }
    assert forall|i: int| 0 <= i < 20 implies bytes_of_hex_digits(digits)[i] == b[i] by {
        lemma_hex_char_of_value_inverts(b[i] as int / 16);
        lemma_hex_char_of_value_inverts(b[i] as int % 16);
        assert(digits[2 * i] == hex_char_of_value(b[i] as int / 16));
        assert(digits[2 * i + 1] == hex_char_of_value(b[i] as int % 16));
        assert(16 * (b[i] as int / 16) + b[i] as int % 16 == b[i] as int);
    }
    assert(bytes_of_hex_digits(digits) =~= b);
}

/// Which text describes a rejected identifier encoding.
pub open spec fn id_error_text(s: Seq<char>) -> Seq<char>
    recommends
        !is_valid_id_text(s),
{
    if strip_hex_prefix(s).len() != 40 {
        "invalid length"@
    } else {
        "invalid hex digit"@
    }
}

impl IdParseError {
    /// The fixed description of this error.
    pub open spec fn text(self) -> Seq<char> {
        match self {
            IdParseError::WrongLength => "invalid length"@,
            IdParseError::InvalidDigit => "invalid hex digit"@,
        }
    }

    /// Describe this error in words.
    pub fn describe(&self) -> (r: &'static str)
        ensures
            r@ == self.text(),
    {
        match self {
            IdParseError::WrongLength => "invalid length",
            IdParseError::InvalidDigit => "invalid hex digit",
        }
    }
}

/// A fixed-size reference to an on-chain object, held as its twenty bytes.
#[derive(Clone, PartialEq, Eq, Debug)]
pub struct ObjectId {
    bytes: Vec<u8>,
}

impl View for ObjectId {
    type V = Seq<u8>;

    closed spec fn view(&self) -> Seq<u8> {
        self.bytes@
    }
}

impl ObjectId {
    /// An identifier always holds exactly twenty bytes.
    pub open spec fn wf(&self) -> bool {
        self@.len() == 20
    }

    /// Parse an identifier from its hexadecimal encoding.
    pub fn parse(s: &str) -> (r: Result<ObjectId, IdParseError>)
        ensures
            r is Ok <==> is_valid_id_text(s@),
            r matches Ok(id) ==> id.wf() && id@ == id_bytes_of_text(s@),
            r matches Err(e) ==> e.text() == id_error_text(s@),
    {
        match parse_id_bytes(s) {
            Ok(bytes) => Ok(ObjectId { bytes }),
            Err(e) => Err(e),
        }
    }

    /// Build an identifier directly from its twenty bytes.
    pub fn from_bytes(bytes: Vec<u8>) -> (r: ObjectId)
        requires
            bytes@.len() == 20,
        ensures
            r.wf(),
            r@ == bytes@,
    {
        ObjectId { bytes }
    }

    /// The identifier's bytes.
    pub fn bytes(&self) -> (r: &Vec<u8>)
        ensures
            r@ == self@,
    {
        &self.bytes
    }

    /// The canonical display: `0x` followed by forty lowercase digits.
    pub fn to_text(&self) -> (r: String)
        requires
            self.wf(),
        ensures
            r@ == id_display_text(self@),
    {
        format_id_text(&self.bytes)
    }
}

/// A fixed-size reference to an account, held as its twenty bytes.
#[derive(Clone, PartialEq, Eq, Debug)]
pub struct Address {
    bytes: Vec<u8>,
}

impl View for Address {
    type V = Seq<u8>;

    closed spec fn view(&self) -> Seq<u8> {
        self.bytes@
    }
}

impl Address {
    /// An address always holds exactly twenty bytes.
    pub open spec fn wf(&self) -> bool {
        self@.len() == 20
    }

    /// Parse an address from its hexadecimal encoding.
    pub fn parse(s: &str) -> (r: Result<Address, IdParseError>)
        ensures
            r is Ok <==> is_valid_id_text(s@),
            r matches Ok(a) ==> a.wf() && a@ == id_bytes_of_text(s@),
            r matches Err(e) ==> e.text() == id_error_text(s@),
    {
        match parse_id_bytes(s) {
            Ok(bytes) => Ok(Address { bytes }),
            Err(e) => Err(e),
        }
    }

    /// The address's bytes.
    pub fn bytes(&self) -> (r: &Vec<u8>)
        ensures
            r@ == self@,
    {
        &self.bytes
    }

    /// The canonical display: `0x` followed by forty lowercase digits.
    pub fn to_text(&self) -> (r: String)
        requires
            self.wf(),
        ensures
            r@ == id_display_text(self@),
    {
        format_id_text(&self.bytes)
    }
}

} // verus!
