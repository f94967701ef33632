use vstd::prelude::*;

verus! {

use crate::{Win32Error, WintunError};

/// The UTF-16 code units of one character: one unit below `0x10000`, a
/// surrogate pair above.
pub open spec fn utf16_units(c: char) -> Seq<u16> {
    let v = c as u32;
    if v < 0x10000 {
        seq![v as u16]
    } else {
        seq![
            (0xD800 + (v - 0x10000) / 0x400) as u16,
            (0xDC00 + (v - 0x10000) % 0x400) as u16,
        ]
    }
}

/// The UTF-16 encoding of a string, character by character.
pub open spec fn utf16_encode(s: Seq<char>) -> Seq<u16>
    decreases s.len(),
{
    if s.len() == 0 {
        Seq::empty()
    } else {
        utf16_units(s[0]) + utf16_encode(s.drop_first())
    }
}

/// The unit sequence a driver name is sent as: the UTF-16 encoding, with a
/// single trailing nul (which becomes the terminator) dropped.
pub open spec fn encoded_name(s: Seq<char>) -> Seq<u16> {
    if utf16_encode(s).len() > 0 && utf16_encode(s).last() == 0 {
        utf16_encode(s).drop_last()
    } else {
        utf16_encode(s)
    }
}

/// The string's UTF-16 encoding has a nul unit somewhere other than as a
/// single final unit.
pub open spec fn has_interior_nul(s: Seq<char>) -> bool {
    exists|i: int| 0 <= i < utf16_encode(s).len() - 1 && utf16_encode(s)[i] == 0
}

/// A single character's encoding holds a nul unit exactly when the character
/// is nul itself: a character below `0x10000` becomes its own code unit, and
/// both halves of a surrogate pair are at least `0xD800`.
proof fn lemma_nul_unit_iff_nul_char(c: char)
    ensures
        (exists|i: int| 0 <= i < utf16_units(c).len() && utf16_units(c)[i] == 0) <==> c == '\0',
{
    vstd::utf8::char_is_scalar(c);
    if c == '\0' {
        assert(utf16_units(c)[0] == 0);
    }
}

/// The UTF-16 encoding of a string holds a nul unit exactly when the string
/// holds a nul character.
pub proof fn lemma_encoding_nul_iff_string_nul(s: Seq<char>)
    ensures
        (exists|i: int| 0 <= i < utf16_encode(s).len() && utf16_encode(s)[i] == 0) <==> (exists|
            j: int,
        | 0 <= j < s.len() && s[j] == '\0'),
    decreases s.len(),
{
    if s.len() > 0 {
        lemma_nul_unit_iff_nul_char(s[0]);
        lemma_encoding_nul_iff_string_nul(s.drop_first());
        let head = utf16_units(s[0]);
        let tail = utf16_encode(s.drop_first());
        if exists|i: int| 0 <= i < utf16_encode(s).len() && utf16_encode(s)[i] == 0 {
            let i = choose|i: int| 0 <= i < utf16_encode(s).len() && utf16_encode(s)[i] == 0;
            if i < head.len() {
                assert(head[i] == 0);
                assert(s[0] == '\0');
            } else {
                assert(tail[i - head.len()] == 0);
                let j = choose|j: int| 0 <= j < s.drop_first().len() && s.drop_first()[j] == '\0';
                assert(s[j + 1] == '\0');
            }
        }
        if exists|j: int| 0 <= j < s.len() && s[j] == '\0' {
            let j = choose|j: int| 0 <= j < s.len() && s[j] == '\0';
            if j == 0 {
                let i = choose|i: int| 0 <= i < head.len() && head[i] == 0;
                assert(utf16_encode(s)[i] == 0);
            } else {
                assert(s.drop_first()[j - 1] == '\0');
                let i = choose|i: int| 0 <= i < tail.len() && tail[i] == 0;
                assert(utf16_encode(s)[head.len() + i] == 0);
            }
        }
    }
}

/// A string whose characters all lie below `0x10000` (no surrogate pairs)
/// encodes to exactly one UTF-16 unit per character.
pub proof fn lemma_bmp_encoding_length(s: Seq<char>)
    requires
        forall|j: int| 0 <= j < s.len() ==> (#[trigger] s[j] as u32) < 0x10000,
    ensures
        utf16_encode(s).len() == s.len(),
    decreases s.len(),
{
    if s.len() > 0 {
        assert(s.drop_first() =~= s.subrange(1, s.len() as int));
        assert(forall|j: int|
            0 <= j < s.drop_first().len() ==> (#[trigger] s.drop_first()[j] as u32) < 0x10000);
        lemma_bmp_encoding_length(s.drop_first());
    }
}

/// Relies on widestring::U16CString::from_str with into_vec: the result is
/// the string's UTF-16 encoding without a terminator, where at most a single
/// trailing nul unit is accepted and dropped; otherwise the index of the
/// first nul unit is reported through nul_position.
#[verifier::external_body]
fn utf16_nul_checked_units(string: &str) -> (r: Result<Vec<u16>, usize>)
    ensures
        match r {
            Ok(units) => {
                &&& forall|i: int| 0 <= i < units@.len() ==> units@[i] != 0
                &&& {
                    ||| units@ == utf16_encode(string@)
                    ||| (utf16_encode(string@).len() > 0 && utf16_encode(string@).last() == 0
                        && units@ == utf16_encode(string@).drop_last())
                }
            },
            Err(pos) => {
                &&& 0 <= pos
                &&& pos + 1 < utf16_encode(string@).len()
                &&& utf16_encode(string@)[pos as int] == 0
                &&& forall|i: int| 0 <= i < pos ==> utf16_encode(string@)[i] != 0
            },
        },
{
    match widestring::U16CString::from_str(string) {
        Ok(units) => Ok(units.into_vec()),
        Err(err) => Err(err.nul_position()),
    }
}

/// Encodes a driver-facing name as UTF-16 and validates it: an interior nul
/// unit is rejected as `ContainsNull` with its index, and an encoding of more
/// than `max_characters` units (the terminator not counted) as `TooLongName`.
/// Both checks happen before any driver call.
pub fn encode_utf16(string: &str, max_characters: usize) -> (r: Result<Vec<u16>, WintunError>)
    ensures
        has_interior_nul(string@) ==> (r matches Err(WintunError::ContainsNull(pos))
            && utf16_encode(string@)[pos as int] == 0 && pos + 1 < utf16_encode(string@).len()
            && (forall|i: int| 0 <= i < pos ==> utf16_encode(string@)[i] != 0)),
        !has_interior_nul(string@) && encoded_name(string@).len() > max_characters ==> (r matches
            Err(WintunError::TooLongName { max, got }) && max == max_characters && got
            == encoded_name(string@).len()),
        !has_interior_nul(string@) && encoded_name(string@).len() <= max_characters ==> (r matches
            Ok(units) && units@ == encoded_name(string@) && (forall|i: int|
            0 <= i < units@.len() ==> units@[i] != 0)),
{
    let units = match utf16_nul_checked_units(string) {
        Ok(units) => units,
        Err(pos) => {
            return Err(WintunError::ContainsNull(pos));
        },
    };
    proof {
        let u = utf16_encode(string@);
        if u.len() > 0 && u.last() == 0 && units@ == u.drop_last() {
            assert(encoded_name(string@) == units@);
            if has_interior_nul(string@) {
                let i = choose|i: int| 0 <= i < u.len() - 1 && u[i] == 0;
                assert(units@[i] == u[i]);
                assert(false);
            }
        } else {
            assert(units@ == u);
            if u.len() > 0 {
                assert(units@[u.len() - 1] != 0);
            }
            assert(encoded_name(string@) == units@);
            if has_interior_nul(string@) {
                let i = choose|i: int| 0 <= i < u.len() - 1 && u[i] == 0;
                assert(units@[i] == u[i]);
                assert(false);
            }
        }
    }
    if units.len() > max_characters {
        return Err(WintunError::TooLongName { max: max_characters, got: units.len() });
    }
    Ok(units)
}

/// The driver-native 128-bit identifier layout: one 32-bit field, two 16-bit
/// fields and eight single bytes, in declaration order.
#[derive(Debug, Clone, Copy, PartialEq, Eq)]
pub struct Guid {
    pub data1: u32,
    pub data2: u16,
    pub data3: u16,
    pub data4: [u8; 8],
}

/// The 128-bit integer whose little-endian byte layout coincides with the
/// struct layout of `g`: `data1` occupies the low 32 bits, `data2` and `data3`
/// the next two 16-bit lanes, and `data4` the high 8 bytes in order.
pub open spec fn spec_guid_to_u128(g: Guid) -> u128 {
    (g.data1 as u128) | ((g.data2 as u128) << 32) | ((g.data3 as u128) << 48) | ((g.data4[0]
        as u128) << 64) | ((g.data4[1] as u128) << 72) | ((g.data4[2] as u128) << 80) | ((g.data4[3]
        as u128) << 88) | ((g.data4[4] as u128) << 96) | ((g.data4[5] as u128) << 104)
        | ((g.data4[6] as u128) << 112) | ((g.data4[7] as u128) << 120)
}

/// The inverse lane split: each field takes its bytes from the value's
/// little-endian layout, no byte order changed.
pub open spec fn spec_guid_from_u128(value: u128) -> Guid {
    Guid {
        data1: (value & 0xFFFF_FFFF) as u32,
        data2: ((value >> 32) & 0xFFFF) as u16,
        data3: ((value >> 48) & 0xFFFF) as u16,
        data4: [
            ((value >> 64) & 0xFF) as u8,
            ((value >> 72) & 0xFF) as u8,
            ((value >> 80) & 0xFF) as u8,
            ((value >> 88) & 0xFF) as u8,
            ((value >> 96) & 0xFF) as u8,
            ((value >> 104) & 0xFF) as u8,
            ((value >> 112) & 0xFF) as u8,
            ((value >> 120) & 0xFF) as u8,
        ],
    }
}

/// The two bytes of a 16-bit field, reversed.
pub open spec fn spec_swap_u16(x: u16) -> u16 {
    ((x & 0xFF) << 8) | ((x >> 8) & 0xFF)
}

/// The four bytes of a 32-bit field, reversed.
pub open spec fn spec_swap_u32(x: u32) -> u32 {
    ((x & 0xFF) << 24) | (((x >> 8) & 0xFF) << 16) | (((x >> 16) & 0xFF) << 8) | ((x >> 24) & 0xFF)
}

/// A layout whose multi-byte fields are stored big-endian, read into native
/// order: `data1`, `data2` and `data3` have their bytes reversed; `data4`,
/// being single bytes, stays as it is.
pub open spec fn spec_guid_be_to_ne(g: Guid) -> Guid {
    Guid { data1: spec_swap_u32(g.data1), data2: spec_swap_u16(g.data2), data3: spec_swap_u16(
        g.data3,
    ), data4: g.data4 }
}

/// A 16-byte sequence read as one 128-bit integer, low byte first.
pub open spec fn spec_u128_from_bytes16(b: Seq<u8>) -> u128
    recommends
        b.len() == 16,
{
    (b[0] as u128) | ((b[1] as u128) << 8) | ((b[2] as u128) << 16) | ((b[3] as u128) << 24) | ((
    b[4] as u128) << 32) | ((b[5] as u128) << 40) | ((b[6] as u128) << 48) | ((b[7] as u128) << 56)
        | ((b[8] as u128) << 64) | ((b[9] as u128) << 72) | ((b[10] as u128) << 80) | ((b[11]
        as u128) << 88) | ((b[12] as u128) << 96) | ((b[13] as u128) << 104) | ((b[14] as u128)
        << 112) | ((b[15] as u128) << 120)
}

/// The identifier that a device-name-embedded GUID string's 16 parsed bytes
/// denote: the bytes read low byte first, split into the driver-native
/// layout, the multi-byte fields' stored big-endian order made native, and
/// the result packed back into one integer.
pub open spec fn spec_embedded_guid(bytes: Seq<u8>) -> u128 {
    spec_guid_to_u128(spec_guid_be_to_ne(spec_guid_from_u128(spec_u128_from_bytes16(bytes))))
}

/// Unpacks a 128-bit identifier into the driver-native layout, verbatim: no
/// field's byte order is changed.
pub fn guid_from_u128(value: u128) -> (r: Guid)
    ensures
        r == spec_guid_from_u128(value),
        spec_guid_to_u128(r) == value,
{
    proof {
        assert((value & 0xFFFF_FFFF) <= 0xFFFF_FFFF) by (bit_vector);
        assert(((value >> 32) & 0xFFFF) <= 0xFFFF) by (bit_vector);
        assert(((value >> 48) & 0xFFFF) <= 0xFFFF) by (bit_vector);
        assert(((value >> 64) & 0xFF) <= 0xFF) by (bit_vector);
        assert(((value >> 72) & 0xFF) <= 0xFF) by (bit_vector);
        assert(((value >> 80) & 0xFF) <= 0xFF) by (bit_vector);
        assert(((value >> 88) & 0xFF) <= 0xFF) by (bit_vector);
        assert(((value >> 96) & 0xFF) <= 0xFF) by (bit_vector);
        assert(((value >> 104) & 0xFF) <= 0xFF) by (bit_vector);
        assert(((value >> 112) & 0xFF) <= 0xFF) by (bit_vector);
        assert(((value >> 120) & 0xFF) <= 0xFF) by (bit_vector);
    }
    let r = Guid {
        data1: (value & 0xFFFF_FFFF) as u32,
        data2: ((value >> 32) & 0xFFFF) as u16,
        data3: ((value >> 48) & 0xFFFF) as u16,
        data4: [
            ((value >> 64) & 0xFF) as u8,
            ((value >> 72) & 0xFF) as u8,
            ((value >> 80) & 0xFF) as u8,
            ((value >> 88) & 0xFF) as u8,
            ((value >> 96) & 0xFF) as u8,
            ((value >> 104) & 0xFF) as u8,
            ((value >> 112) & 0xFF) as u8,
            ((value >> 120) & 0xFF) as u8,
        ],
    };
    proof {
        assert(r.data4 =~= spec_guid_from_u128(value).data4);
        lemma_guid_pack_unpack(value);
    }
    r
}

/// Packs the driver-native layout back into a 128-bit identifier, verbatim.
pub fn guid_to_u128(g: Guid) -> (r: u128)
    ensures
        r == spec_guid_to_u128(g),
{
    (g.data1 as u128) | ((g.data2 as u128) << 32) | ((g.data3 as u128) << 48) | ((g.data4[0]
        as u128) << 64) | ((g.data4[1] as u128) << 72) | ((g.data4[2] as u128) << 80) | ((g.data4[3]
        as u128) << 88) | ((g.data4[4] as u128) << 96) | ((g.data4[5] as u128) << 104)
        | ((g.data4[6] as u128) << 112) | ((g.data4[7] as u128) << 120)
}

/// Turns a layout whose multi-byte fields are stored big-endian into the
/// native-order layout the rest of the library works with.
pub fn guid_be_to_ne(g: Guid) -> (r: Guid)
    ensures
        r == spec_guid_be_to_ne(g),
{
    proof {
        let d1 = g.data1;
        let d2 = g.data2;
        let d3 = g.data3;
        assert(((d2 & 0xFF) << 8) | ((d2 >> 8) & 0xFF) < 0x10000) by (bit_vector);
        assert(((d3 & 0xFF) << 8) | ((d3 >> 8) & 0xFF) < 0x10000) by (bit_vector);
    }
    let r = Guid {
        data1: ((g.data1 & 0xFF) << 24) | (((g.data1 >> 8) & 0xFF) << 16) | (((g.data1 >> 16)
            & 0xFF) << 8) | ((g.data1 >> 24) & 0xFF),
        data2: ((g.data2 & 0xFF) << 8) | ((g.data2 >> 8) & 0xFF),
        data3: ((g.data3 & 0xFF) << 8) | ((g.data3 >> 8) & 0xFF),
        data4: g.data4,
    };
    proof {
        assert(r.data4 =~= spec_guid_be_to_ne(g).data4);
    }
    r
}

/// Reads 16 bytes as one 128-bit integer, low byte first.
pub fn u128_from_bytes16(b: &[u8; 16]) -> (r: u128)
    ensures
        r == spec_u128_from_bytes16(b@),
{
    (b[0] as u128) | ((b[1] as u128) << 8) | ((b[2] as u128) << 16) | ((b[3] as u128) << 24) | ((
    b[4] as u128) << 32) | ((b[5] as u128) << 40) | ((b[6] as u128) << 48) | ((b[7] as u128) << 56)
        | ((b[8] as u128) << 64) | ((b[9] as u128) << 72) | ((b[10] as u128) << 80) | ((b[11]
        as u128) << 88) | ((b[12] as u128) << 96) | ((b[13] as u128) << 104) | ((b[14] as u128)
        << 112) | ((b[15] as u128) << 120)
}

/// Splitting a 128-bit value into the layout's lanes and recombining them
/// gives the value back.
proof fn lemma_guid_pack_unpack(value: u128)
    ensures
        (((value & 0xFFFF_FFFF) as u32) as u128) | (((((value >> 32) & 0xFFFF) as u16) as u128)
            << 32) | (((((value >> 48) & 0xFFFF) as u16) as u128) << 48) | (((((value >> 64) & 0xFF)
            as u8) as u128) << 64) | (((((value >> 72) & 0xFF) as u8) as u128) << 72) | (((((value
            >> 80) & 0xFF) as u8) as u128) << 80) | (((((value >> 88) & 0xFF) as u8) as u128) << 88)
            | (((((value >> 96) & 0xFF) as u8) as u128) << 96) | (((((value >> 104) & 0xFF) as u8)
            as u128) << 104) | (((((value >> 112) & 0xFF) as u8) as u128) << 112) | (((((value
            >> 120) & 0xFF) as u8) as u128) << 120) == value,
{
    assert((((value & 0xFFFF_FFFF) as u32) as u128) | (((((value >> 32) & 0xFFFF) as u16) as u128)
        << 32) | (((((value >> 48) & 0xFFFF) as u16) as u128) << 48) | (((((value >> 64) & 0xFF)
        as u8) as u128) << 64) | (((((value >> 72) & 0xFF) as u8) as u128) << 72) | (((((value
        >> 80) & 0xFF) as u8) as u128) << 80) | (((((value >> 88) & 0xFF) as u8) as u128) << 88)
        | (((((value >> 96) & 0xFF) as u8) as u128) << 96) | (((((value >> 104) & 0xFF) as u8)
        as u128) << 104) | (((((value >> 112) & 0xFF) as u8) as u128) << 112) | (((((value >> 120)
        & 0xFF) as u8) as u128) << 120) == value) by (bit_vector);
}

/// A 128-bit identifier survives the round trip through the driver-native
/// layout unchanged.
pub proof fn lemma_guid_round_trip(value: u128)
    ensures
        spec_guid_to_u128(spec_guid_from_u128(value)) == value,
{
    lemma_guid_pack_unpack(value);
}

/// The GUID string inside a device name was not hyphenated hex of the
/// expected shape.
#[derive(Debug, Clone, Copy, PartialEq, Eq, Structural)]
pub struct GuidParseError;

/// An ASCII hexadecimal digit, either case.
pub open spec fn is_hex_digit(c: char) -> bool {
    let u = c as u32;
    (48 <= u <= 57) || (97 <= u <= 102) || (65 <= u <= 70)
}

/// The numeric value of an ASCII hexadecimal digit.
pub open spec fn hex_digit_value(c: char) -> u8
    recommends
        is_hex_digit(c),
{
    let u = c as u32;
    if 48 <= u <= 57 {
        (u - 48) as u8
    } else if 97 <= u <= 102 {
        (u - 87) as u8
    } else {
        (u - 55) as u8
    }
}

/// The byte written as the two hexadecimal digits at `p` and `p + 1`.
pub open spec fn hex_pair_value(s: Seq<char>, p: int) -> u8
    recommends
        0 <= p,
        p + 1 < s.len(),
        is_hex_digit(s[p]),
        is_hex_digit(s[p + 1]),
{
    (16 * hex_digit_value(s[p]) + hex_digit_value(s[p + 1])) as u8
}

/// A well-formed GUID string: 36 characters of hexadecimal digits in five
/// hyphen-separated groups of 8, 4, 4, 4 and 12 digits.
pub open spec fn guid_string_wf(s: Seq<char>) -> bool {
    &&& s.len() == 36
    &&& s[8] == '-' && s[13] == '-' && s[18] == '-' && s[23] == '-'
    &&& is_hex_digit(s[0]) && is_hex_digit(s[1]) && is_hex_digit(s[2]) && is_hex_digit(s[3])
    &&& is_hex_digit(s[4]) && is_hex_digit(s[5]) && is_hex_digit(s[6]) && is_hex_digit(s[7])
    &&& is_hex_digit(s[9]) && is_hex_digit(s[10]) && is_hex_digit(s[11]) && is_hex_digit(s[12])
    &&& is_hex_digit(s[14]) && is_hex_digit(s[15]) && is_hex_digit(s[16]) && is_hex_digit(s[17])
    &&& is_hex_digit(s[19]) && is_hex_digit(s[20]) && is_hex_digit(s[21]) && is_hex_digit(s[22])
    &&& is_hex_digit(s[24]) && is_hex_digit(s[25]) && is_hex_digit(s[26]) && is_hex_digit(s[27])
    &&& is_hex_digit(s[28]) && is_hex_digit(s[29]) && is_hex_digit(s[30]) && is_hex_digit(s[31])
    &&& is_hex_digit(s[32]) && is_hex_digit(s[33]) && is_hex_digit(s[34]) && is_hex_digit(s[35])
}

/// The 16 bytes a well-formed GUID string writes, in string order: digit
/// pairs read left to right, hyphens skipped.
pub open spec fn guid_bytes(s: Seq<char>) -> Seq<u8>
    recommends
        guid_string_wf(s),
{
    seq![
        hex_pair_value(s, 0),
        hex_pair_value(s, 2),
        hex_pair_value(s, 4),
        hex_pair_value(s, 6),
        hex_pair_value(s, 9),
        hex_pair_value(s, 11),
        hex_pair_value(s, 14),
        hex_pair_value(s, 16),
        hex_pair_value(s, 19),
        hex_pair_value(s, 21),
        hex_pair_value(s, 24),
        hex_pair_value(s, 26),
        hex_pair_value(s, 28),
        hex_pair_value(s, 30),
        hex_pair_value(s, 32),
        hex_pair_value(s, 34),
    ]
}

/// Decodes one hexadecimal digit, or reports that the character is none.
fn hex_digit(c: char) -> (r: Option<u8>)
    ensures
        r is Some <==> is_hex_digit(c),
        r matches Some(v) ==> v == hex_digit_value(c),
{
    let u = c as u32;
    if 48 <= u && u <= 57 {
        Some((u - 48) as u8)
    } else if 97 <= u && u <= 102 {
        Some((u - 87) as u8)
    } else if 65 <= u && u <= 70 {
        Some((u - 55) as u8)
    } else {
        None
    }
}

/// Decodes the digit pair at `p` and `p + 1` of `src` into one byte.
fn hex_pair(src: &str, p: usize) -> (r: Option<u8>)
    requires
        src@.len() == 36,
        p + 1 < 36,
    ensures
        r is Some <==> is_hex_digit(src@[p as int]) && is_hex_digit(src@[p + 1]),
        r matches Some(v) ==> v == hex_pair_value(src@, p as int),
{
    let high = match hex_digit(src.get_char(p)) {
        Some(v) => v,
        None => {
            return None;
        },
    };
    let low = match hex_digit(src.get_char(p + 1)) {
        Some(v) => v,
        None => {
            return None;
        },
    };
    Some(16 * high + low)
}

/// Parses a hyphenated hexadecimal GUID string (the text between the braces
/// of a device name) into its 16 raw bytes, in string order.
#[verifier::rlimit(100)]
pub fn parse_guid(src: &str) -> (r: Result<[u8; 16], GuidParseError>)
    ensures
        r is Ok <==> guid_string_wf(src@),
        r matches Ok(bytes) ==> bytes@ =~= guid_bytes(src@),
{
    if src.unicode_len() != 36 {
        return Err(GuidParseError);
    }
    if !(src.get_char(8) == '-' && src.get_char(13) == '-' && src.get_char(18) == '-'
        && src.get_char(23) == '-') {
        return Err(GuidParseError);
    }
    let b0 = match hex_pair(src, 0) {
        Some(v) => v,
        None => {
            return Err(GuidParseError);
        },
    };
    let b1 = match hex_pair(src, 2) {
        Some(v) => v,
        None => {
            return Err(GuidParseError);
        },
    };
    let b2 = match hex_pair(src, 4) {
        Some(v) => v,
        None => {
            return Err(GuidParseError);
        },
    };
    let b3 = match hex_pair(src, 6) {
        Some(v) => v,
        None => {
            return Err(GuidParseError);
        },
    };
    let b4 = match hex_pair(src, 9) {
        Some(v) => v,
        None => {
            return Err(GuidParseError);
        },
    };
    let b5 = match hex_pair(src, 11) {
        Some(v) => v,
        None => {
            return Err(GuidParseError);
        },
    };
    let b6 = match hex_pair(src, 14) {
        Some(v) => v,
        None => {
            return Err(GuidParseError);
        },
    };
    let b7 = match hex_pair(src, 16) {
        Some(v) => v,
        None => {
            return Err(GuidParseError);
        },
    };
    let b8 = match hex_pair(src, 19) {
        Some(v) => v,
        None => {
            return Err(GuidParseError);
        },
    };
    let b9 = match hex_pair(src, 21) {
        Some(v) => v,
        None => {
            return Err(GuidParseError);
        },
    };
    let b10 = match hex_pair(src, 24) {
        Some(v) => v,
        None => {
            return Err(GuidParseError);
        },
    };
    let b11 = match hex_pair(src, 26) {
        Some(v) => v,
        None => {
            return Err(GuidParseError);
        },
    };
    let b12 = match hex_pair(src, 28) {
        Some(v) => v,
        None => {
            return Err(GuidParseError);
        },
    };
    let b13 = match hex_pair(src, 30) {
        Some(v) => v,
        None => {
            return Err(GuidParseError);
        },
    };
    let b14 = match hex_pair(src, 32) {
        Some(v) => v,
        None => {
            return Err(GuidParseError);
        },
    };
    let b15 = match hex_pair(src, 34) {
        Some(v) => v,
        None => {
            return Err(GuidParseError);
        },
    };
    Ok([b0, b1, b2, b3, b4, b5, b6, b7, b8, b9, b10, b11, b12, b13, b14, b15])
}

/// Decision half of the OS's LUID-to-GUID conversion: the OS returns a status
/// code and fills the identifier; only on a non-zero status is the detailed
/// code fetched.
pub fn luid_to_guid_outcome(status: u32, guid: Guid, last_error_code: u32) -> (r: Result<
    Guid,
    Win32Error,
>)
    ensures
        status == crate::NO_ERROR ==> r == Result::<Guid, Win32Error>::Ok(guid),
        status != crate::NO_ERROR ==> r == Result::<Guid, Win32Error>::Err(
            (Win32Error { code: last_error_code }),
        ),
{
    if status == crate::NO_ERROR {
        Ok(guid)
    } else {
        Err(Win32Error::new(last_error_code))
    }
}

/// The identifier embedded in a device name, when there is one: the text
/// between the first `{` and the first `}` must be a well-formed GUID string,
/// and its bytes denote the identifier as `spec_embedded_guid` says.
pub open spec fn embedded_guid_of(s: Seq<char>) -> Option<u128> {
    match (s.index_of_first('{'), s.index_of_first('}')) {
        (Some(open), Some(close)) => {
            if open + 1 <= close && guid_string_wf(s.subrange(open + 1, close)) {
                Some(spec_embedded_guid(guid_bytes(s.subrange(open + 1, close))))
            } else {
                None
            }
        },
        _ => None,
    }
}

/// Finds the first occurrence of `needle` in `s`.
fn find_char(s: &str, needle: char) -> (r: Option<usize>)
    ensures
        r matches Some(i) ==> s@.index_of_first(needle) == Some(i as int),
        r is None ==> s@.index_of_first(needle) is None,
{
    let n = s.unicode_len();
    let mut i: usize = 0;
    while i < n
        invariant
            n == s@.len(),
            0 <= i <= n,
            forall|j: int| 0 <= j < i ==> s@[j] != needle,
        decreases n - i,
    {
        if s.get_char(i) == needle {
            proof {
                s@.index_of_first_ensures(needle);
                assert(s@.contains(needle));
                let k = s@.index_of_first(needle)->Some_0;
                assert(s@[k] == needle);
                assert(k >= i) by {
                    if k < i {
                        assert(s@[k] != needle);
                    }
                }
                assert(k <= i) by {
                    if k > i {
                        assert(s@[i as int] != needle);
                    }
                }
            }
            return Some(i);
        }
        i = i + 1;
    }
    proof {
        s@.index_of_first_ensures(needle);
        if s@.contains(needle) {
            let k = choose|k: int| 0 <= k < s@.len() && s@[k] == needle;
            assert(s@[k] != needle);
        }
    }
    None
}

/// Extracts and decodes the brace-delimited GUID string of a device name:
/// the identifier it denotes, or nothing when the name has no well-formed
/// embedded GUID.
pub fn interface_embedded_guid(name: &str) -> (r: Option<u128>)
    ensures
        r == embedded_guid_of(name@),
{
    proof {
        name@.index_of_first_ensures('{');
        name@.index_of_first_ensures('}');
    }
    let open = match find_char(name, '{') {
        Some(i) => i,
        None => {
            return None;
        },
    };
    let close = match find_char(name, '}') {
        Some(i) => i,
        None => {
            return None;
        },
    };
    if close <= open {
        return None;
    }
    let sub = name.substring_char(open + 1, close);
    let digits = match parse_guid(sub) {
        Ok(d) => d,
        Err(_) => {
            return None;
        },
    };
    let value = u128_from_bytes16(&digits);
    let guid = guid_be_to_ne(guid_from_u128(value));
    Some(guid_to_u128(guid))
}

} // verus!
