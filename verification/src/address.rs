//! Device address codec.
//!
//! A Bluetooth device is identified by six octets.  The codec converts
//! between that identifier and its two string encodings: the colon form
//! `AA:BB:CC:11:22:33` and the bus path segment `dev_AA_BB_CC_11_22_33`.

use vstd::prelude::*;

verus! {

/// Why a path segment failed to decode into a device address.
///
/// The segment is judged positionally against the shape
/// `dev_XX_XX_XX_XX_XX_XX`: a missing `dev_` prefix is `MissingPrefix`;
/// a body whose length or separator positions do not match six
/// two-digit groups is `WrongSegmentCount`; a non-hexadecimal character
/// in a digit position is `BadOctet`.
#[derive(Clone, Copy, Debug, PartialEq, Eq, Structural)]
pub enum DecodeError {
    MissingPrefix,
    WrongSegmentCount,
    BadOctet,
}

/// A six-octet Bluetooth device identifier.
///
/// Equality, ordering and hashing are byte-wise over the octets, most
/// significant octet first.
#[derive(Clone, Copy, Debug, PartialEq, Eq, PartialOrd, Ord, Hash, Structural)]
pub struct DeviceAddress {
    pub b0: u8,
    pub b1: u8,
    pub b2: u8,
    pub b3: u8,
    pub b4: u8,
    pub b5: u8,
}

impl View for DeviceAddress {
    type V = Seq<u8>;

    open spec fn view(&self) -> Seq<u8> {
        seq![self.b0, self.b1, self.b2, self.b3, self.b4, self.b5]
    }
}

/// True for the characters `0`-`9`, `A`-`F` and `a`-`f`.
pub open spec fn is_hex_digit(c: char) -> bool {
    ('0' <= c && c <= '9') || ('A' <= c && c <= 'F') || ('a' <= c && c <= 'f')
}

/// True for the characters `0`-`9` and `A`-`F`, the digits the encoder emits.
pub open spec fn is_upper_hex_digit(c: char) -> bool {
    ('0' <= c && c <= '9') || ('A' <= c && c <= 'F')
}

/// The numeric value of a hexadecimal digit character.
pub open spec fn hex_val(c: char) -> int {
    if '0' <= c && c <= '9' {
        c as int - '0' as int
    } else if 'A' <= c && c <= 'F' {
        10 + c as int - 'A' as int
    } else {
        10 + c as int - 'a' as int
    }
}

/// The upper-case hexadecimal digit character for a value below 16.
pub open spec fn hex_upper(n: int) -> char {
    if n == 0 { '0' }
    else if n == 1 { '1' }
    else if n == 2 { '2' }
    else if n == 3 { '3' }
    else if n == 4 { '4' }
    else if n == 5 { '5' }
    else if n == 6 { '6' }
    else if n == 7 { '7' }
    else if n == 8 { '8' }
    else if n == 9 { '9' }
    else if n == 10 { 'A' }
    else if n == 11 { 'B' }
    else if n == 12 { 'C' }
    else if n == 13 { 'D' }
    else if n == 14 { 'E' }
    else { 'F' }
}

/// The segment starts with the literal prefix `dev_`.
pub open spec fn has_dev_prefix(s: Seq<char>) -> bool {
    s.len() >= 4 && s[0] == 'd' && s[1] == 'e' && s[2] == 'v' && s[3] == '_'
}

/// The segment body has the length of six two-digit groups with an
/// underscore between consecutive groups.
pub open spec fn separators_ok(s: Seq<char>) -> bool {
    s.len() == 21 && s[6] == '_' && s[9] == '_' && s[12] == '_' && s[15] == '_'
        && s[18] == '_'
}

/// Every digit position of the segment holds a hexadecimal digit.
pub open spec fn octets_ok(s: Seq<char>) -> bool {
    s.len() == 21 && is_hex_digit(s[4]) && is_hex_digit(s[5]) && is_hex_digit(s[7])
        && is_hex_digit(s[8]) && is_hex_digit(s[10]) && is_hex_digit(s[11])
        && is_hex_digit(s[13]) && is_hex_digit(s[14]) && is_hex_digit(s[16])
        && is_hex_digit(s[17]) && is_hex_digit(s[19]) && is_hex_digit(s[20])
}

/// A well-formed path segment: `dev_` followed by six underscore-separated
/// two-digit hexadecimal octets.
pub open spec fn segment_well_formed(s: Seq<char>) -> bool {
    has_dev_prefix(s) && separators_ok(s) && octets_ok(s)
}

/// A well-formed segment whose digits are all upper-case, as the encoder
/// emits them.
pub open spec fn segment_canonical(s: Seq<char>) -> bool {
    segment_well_formed(s) && is_upper_hex_digit(s[4]) && is_upper_hex_digit(s[5])
        && is_upper_hex_digit(s[7]) && is_upper_hex_digit(s[8])
        && is_upper_hex_digit(s[10]) && is_upper_hex_digit(s[11])
        && is_upper_hex_digit(s[13]) && is_upper_hex_digit(s[14])
        && is_upper_hex_digit(s[16]) && is_upper_hex_digit(s[17])
        && is_upper_hex_digit(s[19]) && is_upper_hex_digit(s[20])
}

/// The value of the octet starting at digit position `4 + 3 * i` of a
/// well-formed segment.
pub open spec fn octet_at(s: Seq<char>, i: int) -> int {
    16 * hex_val(s[4 + 3 * i]) + hex_val(s[5 + 3 * i])
}

/// The device address a well-formed segment denotes.
pub open spec fn spec_decode(s: Seq<char>) -> DeviceAddress {
    DeviceAddress {
        b0: octet_at(s, 0) as u8,
        b1: octet_at(s, 1) as u8,
        b2: octet_at(s, 2) as u8,
        b3: octet_at(s, 3) as u8,
        b4: octet_at(s, 4) as u8,
        b5: octet_at(s, 5) as u8,
    }
}

/// The colon form of an address: `AA:BB:CC:11:22:33`.
pub open spec fn spec_colon_form(a: DeviceAddress) -> Seq<char> {
    seq![
        hex_upper(a.b0 as int / 16),
        hex_upper(a.b0 as int % 16),
        ':',
        hex_upper(a.b1 as int / 16),
        hex_upper(a.b1 as int % 16),
        ':',
        hex_upper(a.b2 as int / 16),
        hex_upper(a.b2 as int % 16),
        ':',
        hex_upper(a.b3 as int / 16),
        hex_upper(a.b3 as int % 16),
        ':',
        hex_upper(a.b4 as int / 16),
        hex_upper(a.b4 as int % 16),
        ':',
        hex_upper(a.b5 as int / 16),
        hex_upper(a.b5 as int % 16),
    ]
}

/// The path-segment form of an address: `dev_AA_BB_CC_11_22_33`.
pub open spec fn spec_segment_form(a: DeviceAddress) -> Seq<char> {
    seq![
        'd',
        'e',
        'v',
        '_',
        hex_upper(a.b0 as int / 16),
        hex_upper(a.b0 as int % 16),
        '_',
        hex_upper(a.b1 as int / 16),
        hex_upper(a.b1 as int % 16),
        '_',
        hex_upper(a.b2 as int / 16),
        hex_upper(a.b2 as int % 16),
        '_',
        hex_upper(a.b3 as int / 16),
        hex_upper(a.b3 as int % 16),
        '_',
        hex_upper(a.b4 as int / 16),
        hex_upper(a.b4 as int % 16),
        '_',
        hex_upper(a.b5 as int / 16),
        hex_upper(a.b5 as int % 16),
    ]
}

impl DeviceAddress {
    /// Builds an address from its six octets, most significant first.
    pub fn new(b0: u8, b1: u8, b2: u8, b3: u8, b4: u8, b5: u8) -> (r: DeviceAddress)
        ensures
            r@ == seq![b0, b1, b2, b3, b4, b5],
    {
        DeviceAddress { b0, b1, b2, b3, b4, b5 }
    }
}

/// The numeric value of a hexadecimal digit character, or `None` for any
/// other character.
fn hex_digit_value(c: char) -> (r: Option<u8>)
    ensures
        r is Some <==> is_hex_digit(c),
        r matches Some(v) ==> v == hex_val(c),
{
    if '0' <= c && c <= '9' {
        Some((c as u8) - 48)
    } else if 'A' <= c && c <= 'F' {
        Some((c as u8) - 65 + 10)
    } else if 'a' <= c && c <= 'f' {
        Some((c as u8) - 97 + 10)
    } else {
        None
    }
}

/// The octet denoted by the two digit characters at `pos` and `pos + 1`,
/// or `None` if either is not a hexadecimal digit.
fn parse_octet(s: &str, pos: usize) -> (r: Option<u8>)
    requires
        pos + 1 < s@.len(),
        s@.len() <= usize::MAX,
    ensures
        r is Some <==> is_hex_digit(s@[pos as int]) && is_hex_digit(s@[pos as int + 1]),
        r matches Some(v) ==> v == 16 * hex_val(s@[pos as int]) + hex_val(s@[pos as int + 1]),
{
    let hi = hex_digit_value(s.get_char(pos));
    let lo = hex_digit_value(s.get_char(pos + 1));
    match (hi, lo) {
        (Some(h), Some(l)) => Some(16 * h + l),
        _ => None,
    }
}

impl DeviceAddress {
    /// Decodes a bus path segment of the form `dev_AA_BB_CC_11_22_33`.
    ///
    /// Never panics: every malformed segment is reported as a
    /// `DecodeError`, classified as the prefix check first, then the
    /// length and separator shape, then the digits.
    pub fn parse(segment: &str) -> (r: Result<DeviceAddress, DecodeError>)
        ensures
            r is Ok <==> segment_well_formed(segment@),
            r matches Ok(a) ==> a == spec_decode(segment@),
            !has_dev_prefix(segment@) <==> r == Err::<DeviceAddress, DecodeError>(
                DecodeError::MissingPrefix,
            ),
            has_dev_prefix(segment@) && !separators_ok(segment@)
                <==> r == Err::<DeviceAddress, DecodeError>(DecodeError::WrongSegmentCount),
            has_dev_prefix(segment@) && separators_ok(segment@) && !octets_ok(segment@)
                <==> r == Err::<DeviceAddress, DecodeError>(DecodeError::BadOctet),
    {
        let n = segment.unicode_len();
        if n < 4 || segment.get_char(0) != 'd' || segment.get_char(1) != 'e'
            || segment.get_char(2) != 'v' || segment.get_char(3) != '_' {
            return Err(DecodeError::MissingPrefix);
        }
        if n != 21 || segment.get_char(6) != '_' || segment.get_char(9) != '_'
            || segment.get_char(12) != '_' || segment.get_char(15) != '_'
            || segment.get_char(18) != '_' {
            return Err(DecodeError::WrongSegmentCount);
        }
        let o0 = parse_octet(segment, 4);
        let o1 = parse_octet(segment, 7);
        let o2 = parse_octet(segment, 10);
        let o3 = parse_octet(segment, 13);
        let o4 = parse_octet(segment, 16);
        let o5 = parse_octet(segment, 19);
        match (o0, o1, o2, o3, o4, o5) {
            (Some(b0), Some(b1), Some(b2), Some(b3), Some(b4), Some(b5)) => {
                Ok(DeviceAddress { b0, b1, b2, b3, b4, b5 })
            }
            _ => Err(DecodeError::BadOctet),
        }
    }
}

/// The one-character string for an upper-case hexadecimal digit.
fn hex_digit_str(n: u8) -> (r: &'static str)
    requires
        n < 16,
    ensures
        r@.len() == 1,
        r@[0] == hex_upper(n as int),
{
    proof {
        reveal_strlit("0");
        reveal_strlit("1");
        reveal_strlit("2");
        reveal_strlit("3");
        reveal_strlit("4");
        reveal_strlit("5");
        reveal_strlit("6");
        reveal_strlit("7");
        reveal_strlit("8");
        reveal_strlit("9");
        reveal_strlit("A");
        reveal_strlit("B");
        reveal_strlit("C");
        reveal_strlit("D");
        reveal_strlit("E");
        reveal_strlit("F");
    }
    match n {
        0 => "0",
        1 => "1",
        2 => "2",
        3 => "3",
        4 => "4",
        5 => "5",
        6 => "6",
        7 => "7",
        8 => "8",
        9 => "9",
        10 => "A",
        11 => "B",
        12 => "C",
        13 => "D",
        14 => "E",
        _ => "F",
    }
}

impl DeviceAddress {
    /// The colon form, `AA:BB:CC:11:22:33`, in upper-case hexadecimal.
    pub fn colon_string(&self) -> (r: String)
        ensures
            r@ == spec_colon_form(*self),
    {
        proof {
            reveal_strlit(":");
        }
        let mut s = String::new();
        s.append(hex_digit_str(self.b0 / 16));
        s.append(hex_digit_str(self.b0 % 16));
        s.append(":");
        s.append(hex_digit_str(self.b1 / 16));
        s.append(hex_digit_str(self.b1 % 16));
        s.append(":");
        s.append(hex_digit_str(self.b2 / 16));
        s.append(hex_digit_str(self.b2 % 16));
        s.append(":");
        s.append(hex_digit_str(self.b3 / 16));
        s.append(hex_digit_str(self.b3 % 16));
        s.append(":");
        s.append(hex_digit_str(self.b4 / 16));
        s.append(hex_digit_str(self.b4 % 16));
        s.append(":");
        s.append(hex_digit_str(self.b5 / 16));
        s.append(hex_digit_str(self.b5 % 16));
        proof {
            assert(s@ =~= spec_colon_form(*self));
        }
        s
    }

    /// The path-segment form, `dev_AA_BB_CC_11_22_33`, in upper-case
    /// hexadecimal.
    pub fn segment_string(&self) -> (r: String)
        ensures
            r@ == spec_segment_form(*self),
    {
        proof {
            reveal_strlit("dev_");
            reveal_strlit("_");
        }
        let mut s = String::new();
        s.append("dev_");
        s.append(hex_digit_str(self.b0 / 16));
        s.append(hex_digit_str(self.b0 % 16));
        s.append("_");
        s.append(hex_digit_str(self.b1 / 16));
        s.append(hex_digit_str(self.b1 % 16));
        s.append("_");
        s.append(hex_digit_str(self.b2 / 16));
        s.append(hex_digit_str(self.b2 % 16));
        s.append("_");
        s.append(hex_digit_str(self.b3 / 16));
        s.append(hex_digit_str(self.b3 % 16));
        s.append("_");
        s.append(hex_digit_str(self.b4 / 16));
        s.append(hex_digit_str(self.b4 % 16));
        s.append("_");
        s.append(hex_digit_str(self.b5 / 16));
        s.append(hex_digit_str(self.b5 % 16));
        proof {
            assert(s@ =~= spec_segment_form(*self));
        }
        s
    }

    /// Both string encodings of the address: the colon form and the path
    /// segment, exact inverses of `parse`.
    pub fn format(&self) -> (r: (String, String))
        ensures
            r.0@ == spec_colon_form(*self),
            r.1@ == spec_segment_form(*self),
    {
        (self.colon_string(), self.segment_string())
    }
}

/// Decoding an upper-case hexadecimal digit and re-encoding it gives the
/// digit back.
pub proof fn lemma_hex_digit_round_trip(c: char)
    requires
        is_upper_hex_digit(c),
    ensures
        0 <= hex_val(c) < 16,
        hex_upper(hex_val(c)) == c,
{
}

/// Encoding a value below 16 gives an upper-case digit that decodes to the
/// same value.
pub proof fn lemma_hex_digit_value_round_trip(n: int)
    requires
        0 <= n < 16,
    ensures
        is_upper_hex_digit(hex_upper(n)),
        hex_val(hex_upper(n)) == n,
{
}

/// Round trip, decode first: re-encoding the address decoded from any
/// canonical path segment yields that segment again.  Together with the
/// contracts of `parse` and `segment_string`, this gives
/// `format(parse(s)) == s` for every canonical segment `s`.
/// One octet of the round trip: the two digits at positions `p` and
/// `p + 1` re-encode to themselves through the octet value they denote.
proof fn lemma_octet_round_trip(hi: char, lo: char)
    requires
        is_upper_hex_digit(hi),
        is_upper_hex_digit(lo),
    ensures
        0 <= 16 * hex_val(hi) + hex_val(lo) < 256,
        hex_upper(((16 * hex_val(hi) + hex_val(lo)) as u8) as int / 16) == hi,
        hex_upper(((16 * hex_val(hi) + hex_val(lo)) as u8) as int % 16) == lo,
{
    lemma_hex_digit_round_trip(hi);
    lemma_hex_digit_round_trip(lo);
    let b = 16 * hex_val(hi) + hex_val(lo);
    assert(b / 16 == hex_val(hi) && b % 16 == hex_val(lo)) by (nonlinear_arith)
        requires
            0 <= hex_val(hi) < 16 && 0 <= hex_val(lo) < 16 && b == 16 * hex_val(hi)
                + hex_val(lo),
    ;
}

pub proof fn lemma_segment_round_trip(s: Seq<char>)
    requires
        segment_canonical(s),
    ensures
        spec_segment_form(spec_decode(s)) == s,
{
    lemma_octet_round_trip(s[4], s[5]);
    lemma_octet_round_trip(s[7], s[8]);
    lemma_octet_round_trip(s[10], s[11]);
    lemma_octet_round_trip(s[13], s[14]);
    lemma_octet_round_trip(s[16], s[17]);
    lemma_octet_round_trip(s[19], s[20]);
    assert(spec_segment_form(spec_decode(s)) =~= s);
}

/// Round trip, encode first: the path segment encoded from an address is
/// canonical and decodes back to the same address.
pub proof fn lemma_segment_form_round_trip(a: DeviceAddress)
    ensures
        segment_canonical(spec_segment_form(a)),
        spec_decode(spec_segment_form(a)) == a,
{
    lemma_hex_digit_value_round_trip(a.b0 as int / 16);
    lemma_hex_digit_value_round_trip(a.b0 as int % 16);
    lemma_hex_digit_value_round_trip(a.b1 as int / 16);
    lemma_hex_digit_value_round_trip(a.b1 as int % 16);
    lemma_hex_digit_value_round_trip(a.b2 as int / 16);
    lemma_hex_digit_value_round_trip(a.b2 as int % 16);
    lemma_hex_digit_value_round_trip(a.b3 as int / 16);
    lemma_hex_digit_value_round_trip(a.b3 as int % 16);
    lemma_hex_digit_value_round_trip(a.b4 as int / 16);
    lemma_hex_digit_value_round_trip(a.b4 as int % 16);
    lemma_hex_digit_value_round_trip(a.b5 as int / 16);
    lemma_hex_digit_value_round_trip(a.b5 as int % 16);
}

} // verus!
