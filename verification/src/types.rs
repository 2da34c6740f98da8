//! Field-level value types shared by all catalog records: RGB colors with a
//! canonical lower-case `#rrggbb` text form, and the two closed enumerations
//! (part relationship kind and part material).

use vstd::prelude::*;

verus! {

/// An RGB color, decoded from 6 hex digits with an optional `#` prefix.
#[derive(Copy, Clone, Eq, PartialEq, Structural, PartialOrd, Ord, Hash, Debug)]
pub struct Rgb {
    pub r: u8,
    pub g: u8,
    pub b: u8,
}

/// Error for text that is not a valid RGB color encoding.
#[derive(Clone, Eq, PartialEq, Structural, Debug)]
pub struct ParseRgbError;

/// The value of one hex digit character, upper or lower case.
pub open spec fn spec_hex_val(c: char) -> Option<u8> {
    match c {
        '0' => Some(0u8),
        '1' => Some(1u8),
        '2' => Some(2u8),
        '3' => Some(3u8),
        '4' => Some(4u8),
        '5' => Some(5u8),
        '6' => Some(6u8),
        '7' => Some(7u8),
        '8' => Some(8u8),
        '9' => Some(9u8),
        'a' => Some(10u8),
        'b' => Some(11u8),
        'c' => Some(12u8),
        'd' => Some(13u8),
        'e' => Some(14u8),
        'f' => Some(15u8),
        'A' => Some(10u8),
        'B' => Some(11u8),
        'C' => Some(12u8),
        'D' => Some(13u8),
        'E' => Some(14u8),
        'F' => Some(15u8),
        _ => None,
    }
}

/// The canonical (lower-case) hex digit character for a value below 16.
pub open spec fn spec_hex_char(v: u8) -> char
    recommends
        v < 16,
{
    match v {
        0u8 => '0',
        1u8 => '1',
        2u8 => '2',
        3u8 => '3',
        4u8 => '4',
        5u8 => '5',
        6u8 => '6',
        7u8 => '7',
        8u8 => '8',
        9u8 => '9',
        10u8 => 'a',
        11u8 => 'b',
        12u8 => 'c',
        13u8 => 'd',
        14u8 => 'e',
        15u8 => 'f',
        _ => '0',
    }
}

/// Two hex digits read as one byte, high digit first.
pub open spec fn spec_hex_pair(hi: char, lo: char) -> Option<u8> {
    match (spec_hex_val(hi), spec_hex_val(lo)) {
        (Some(h), Some(l)) => Some((h * 16 + l) as u8),
        _ => None,
    }
}

/// What a color text decodes to: an optional `#` prefix followed by exactly
/// six hex digits; anything else is rejected.
pub open spec fn spec_parse_rgb(s: Seq<char>) -> Option<Rgb> {
    let t = if s.len() > 0 && s[0] == '#' {
        s.subrange(1, s.len() as int)
    } else {
        s
    };
    if t.len() == 6 {
        match (spec_hex_pair(t[0], t[1]), spec_hex_pair(t[2], t[3]), spec_hex_pair(t[4], t[5])) {
            (Some(r), Some(g), Some(b)) => Some(Rgb { r, g, b }),
            _ => None,
        }
    } else {
        None
    }
}

/// The canonical text of a color: `#` followed by six lower-case hex digits.
pub open spec fn spec_rgb_text(c: Rgb) -> Seq<char> {
    seq![
        '#',
        spec_hex_char((c.r / 16) as u8),
        spec_hex_char((c.r % 16) as u8),
        spec_hex_char((c.g / 16) as u8),
        spec_hex_char((c.g % 16) as u8),
        spec_hex_char((c.b / 16) as u8),
        spec_hex_char((c.b % 16) as u8),
    ]
}

pub proof fn lemma_hex_char_val(v: u8)
    requires
        v < 16,
    ensures
        spec_hex_val(spec_hex_char(v)) == Some(v),
{
}

fn hex_val(c: char) -> (r: Option<u8>)
    ensures
        r == spec_hex_val(c),
        r matches Some(v) ==> v < 16,
{
    match c {
        '0' => Some(0u8),
        '1' => Some(1u8),
        '2' => Some(2u8),
        '3' => Some(3u8),
        '4' => Some(4u8),
        '5' => Some(5u8),
        '6' => Some(6u8),
        '7' => Some(7u8),
        '8' => Some(8u8),
        '9' => Some(9u8),
        'a' => Some(10u8),
        'b' => Some(11u8),
        'c' => Some(12u8),
        'd' => Some(13u8),
        'e' => Some(14u8),
        'f' => Some(15u8),
        'A' => Some(10u8),
        'B' => Some(11u8),
        'C' => Some(12u8),
        'D' => Some(13u8),
        'E' => Some(14u8),
        'F' => Some(15u8),
        _ => None,
    }
}

fn hex_pair(hi: char, lo: char) -> (r: Option<u8>)
    ensures
        r == spec_hex_pair(hi, lo),
{
    match (hex_val(hi), hex_val(lo)) {
        (Some(h), Some(l)) => Some(h * 16 + l),
        _ => None,
    }
}

/// The canonical digit string for one hex value below 16.
pub fn hex_str(v: u8) -> (r: &'static str)
    requires
        v < 16,
    ensures
        r@ == seq![spec_hex_char(v)],
{
    match v {
        0u8 => {
            proof { reveal_strlit("0"); }
            "0"
        },
        1u8 => {
            proof { reveal_strlit("1"); }
            "1"
        },
        2u8 => {
            proof { reveal_strlit("2"); }
            "2"
        },
        3u8 => {
            proof { reveal_strlit("3"); }
            "3"
        },
        4u8 => {
            proof { reveal_strlit("4"); }
            "4"
        },
        5u8 => {
            proof { reveal_strlit("5"); }
            "5"
        },
        6u8 => {
            proof { reveal_strlit("6"); }
            "6"
        },
        7u8 => {
            proof { reveal_strlit("7"); }
            "7"
        },
        8u8 => {
            proof { reveal_strlit("8"); }
            "8"
        },
        9u8 => {
            proof { reveal_strlit("9"); }
            "9"
        },
        10u8 => {
            proof { reveal_strlit("a"); }
            "a"
        },
        11u8 => {
            proof { reveal_strlit("b"); }
            "b"
        },
        12u8 => {
            proof { reveal_strlit("c"); }
            "c"
        },
        13u8 => {
            proof { reveal_strlit("d"); }
            "d"
        },
        14u8 => {
            proof { reveal_strlit("e"); }
            "e"
        },
        _ => {
            proof { reveal_strlit("f"); }
            "f"
        },
    }
}

/// Whether two string slices hold the same characters.
pub fn str_eq(a: &str, b: &str) -> (r: bool)
    ensures
        r == (a@ == b@),
{
    let an: usize = a.unicode_len();
    let bn: usize = b.unicode_len();
    if an != bn {
        return false;
    }
    let mut i: usize = 0;
    while i < an
        invariant
            an == a@.len(),
            an == b@.len(),
            i <= an,
            forall|j: int| 0 <= j < i ==> a@[j] == b@[j],
        decreases an - i,
    {
        if a.get_char(i) != b.get_char(i) {
            return false;
        }
        i = i + 1;
    }
    proof {
        assert(a@ =~= b@);
    }
    true
}

impl Rgb {
    /// Decodes a color from its text form: six hex digits, optionally
    /// prefixed by `#`; any other length or non-hex character is an error.
    pub fn parse(s: &str) -> (r: Result<Rgb, ParseRgbError>)
        ensures
            match r {
                Ok(c) => spec_parse_rgb(s@) == Some(c),
                Err(_) => spec_parse_rgb(s@) is None,
            },
    {
        let n: usize = s.unicode_len();
        let start: usize = if n > 0 && s.get_char(0) == '#' {
            1
        } else {
            0
        };
        proof {
            if start == 1 {
                assert(s@.subrange(1, s@.len() as int) =~= s@.skip(1));
            } else {
                assert(s@.subrange(0, s@.len() as int) =~= s@);
            }
        }
        if n - start != 6 {
            return Err(ParseRgbError);
        }
        let p0 = hex_pair(s.get_char(start), s.get_char(start + 1));
        let p1 = hex_pair(s.get_char(start + 2), s.get_char(start + 3));
        let p2 = hex_pair(s.get_char(start + 4), s.get_char(start + 5));
        match (p0, p1, p2) {
            (Some(r), Some(g), Some(b)) => Ok(Rgb { r, g, b }),
            _ => Err(ParseRgbError),
        }
    }

    /// The canonical text of this color: `#` and six lower-case hex digits.
    pub fn to_text(&self) -> (r: String)
        ensures
            r@ == spec_rgb_text(*self),
    {
        let mut out = String::new();
        proof {
            reveal_strlit("#");
        }
        out.append("#");
        out.append(hex_str(self.r / 16));
        out.append(hex_str(self.r % 16));
        out.append(hex_str(self.g / 16));
        out.append(hex_str(self.g % 16));
        out.append(hex_str(self.b / 16));
        out.append(hex_str(self.b % 16));
        proof {
            assert(out@ =~= spec_rgb_text(*self));
        }
        out
    }
}

impl core::str::FromStr for Rgb {
    type Err = ParseRgbError;

    fn from_str(s: &str) -> Result<Rgb, ParseRgbError> {
        Rgb::parse(s)
    }
}

/// The value of one decimal digit character.
pub open spec fn spec_digit(c: char) -> Option<u8> {
    match c {
        '0' => Some(0u8),
        '1' => Some(1u8),
        '2' => Some(2u8),
        '3' => Some(3u8),
        '4' => Some(4u8),
        '5' => Some(5u8),
        '6' => Some(6u8),
        '7' => Some(7u8),
        '8' => Some(8u8),
        '9' => Some(9u8),
        _ => None,
    }
}

/// The value of a non-empty run of decimal digits, most significant first;
/// `None` if the run is empty or holds a non-digit.
pub open spec fn spec_digits_val(s: Seq<char>) -> Option<nat>
    decreases s.len(),
{
    if s.len() == 0 {
        None
    } else if s.len() == 1 {
        match spec_digit(s[0]) {
            Some(d) => Some(d as nat),
            None => None,
        }
    } else {
        match (spec_digits_val(s.drop_last()), spec_digit(s.last())) {
            (Some(v), Some(d)) => Some((v * 10 + d) as nat),
            _ => None,
        }
    }
}

/// What a signed decimal text means: an optional `+` or `-` sign, then at
/// least one digit, with the value required to fit the 32-bit signed range.
pub open spec fn spec_parse_i32(s: Seq<char>) -> Option<i32> {
    let neg = s.len() > 0 && s[0] == '-';
    let digits = if s.len() > 0 && (s[0] == '-' || s[0] == '+') {
        s.subrange(1, s.len() as int)
    } else {
        s
    };
    match spec_digits_val(digits) {
        Some(v) => {
            let n: int = if neg {
                -(v as int)
            } else {
                v as int
            };
            if i32::MIN <= n <= i32::MAX {
                Some(n as i32)
            } else {
                None
            }
        },
        None => None,
    }
}

proof fn lemma_digits_val_nondigit(s: Seq<char>, i: int)
    requires
        0 <= i < s.len(),
        spec_digit(s[i]) is None,
    ensures
        spec_digits_val(s) is None,
    decreases s.len(),
{
    if s.len() > 1 && i < s.len() - 1 {
        lemma_digits_val_nondigit(s.drop_last(), i);
    }
}

proof fn lemma_digits_val_prefix(s: Seq<char>, k: int)
    requires
        0 < k <= s.len(),
    ensures
        spec_digits_val(s) matches Some(v) ==> (spec_digits_val(s.subrange(0, k)) matches Some(w)
            ==> v >= w),
    decreases s.len() - k,
{
    if k == s.len() {
        assert(s.subrange(0, k) =~= s);
    } else if spec_digits_val(s) is Some {
        assert(s.len() > 1);
        assert(s.drop_last().subrange(0, k) =~= s.subrange(0, k));
        lemma_digits_val_prefix(s.drop_last(), k);
    }
}

fn digit(c: char) -> (r: Option<u8>)
    ensures
        r == spec_digit(c),
        r matches Some(d) ==> d < 10,
{
    match c {
        '0' => Some(0u8),
        '1' => Some(1u8),
        '2' => Some(2u8),
        '3' => Some(3u8),
        '4' => Some(4u8),
        '5' => Some(5u8),
        '6' => Some(6u8),
        '7' => Some(7u8),
        '8' => Some(8u8),
        '9' => Some(9u8),
        _ => None,
    }
}

/// Decodes a signed 32-bit integer from decimal text; rejects empty text, a
/// bare sign, any non-digit character, and out-of-range values.
pub fn parse_i32(s: &str) -> (r: Option<i32>)
    ensures
        r == spec_parse_i32(s@),
{
    let n: usize = s.unicode_len();
    let mut neg: bool = false;
    let mut start: usize = 0;
    if n > 0 {
        let c0 = s.get_char(0);
        if c0 == '-' {
            neg = true;
            start = 1;
        } else if c0 == '+' {
            start = 1;
        }
    }
    let ghost digits: Seq<char> = if start == 1 {
        s@.subrange(1, s@.len() as int)
    } else {
        s@
    };
    proof {
        if start == 0 {
            assert(s@.subrange(0, s@.len() as int) =~= s@);
        }
    }
    if start >= n {
        return None;
    }
    let mut acc: u64 = 0;
    let mut i: usize = start;
    while i < n
        invariant
            start <= i <= n,
            n == s@.len(),
            start <= 1,
            digits == s@.subrange(start as int, n as int),
            digits == (if s@.len() > 0 && (s@[0] == '-' || s@[0] == '+') {
                s@.subrange(1, s@.len() as int)
            } else {
                s@
            }),
            i > start ==> spec_digits_val(s@.subrange(start as int, i as int)) == Some(
                acc as nat,
            ),
            i > start ==> acc <= 0x8000_0000u64,
            i == start ==> acc == 0,
        decreases n - i,
    {
        let c = s.get_char(i);
        match digit(c) {
            None => {
                proof {
                    lemma_digits_val_nondigit(digits, i - start);
                }
                return None;
            },
            Some(d) => {
                let new_acc: u64 = acc * 10 + (d as u64);
                proof {
                    let pre = s@.subrange(start as int, i as int);
                    let cur = s@.subrange(start as int, i + 1 as int);
                    assert(cur.drop_last() =~= pre);
                    assert(cur.last() == s@[i as int]);
                    if i == start {
                        assert(cur.len() == 1);
                        assert(cur[0] == s@[i as int]);
                    }
                    assert(spec_digits_val(cur) == Some(new_acc as nat));
                }
                if new_acc > 0x8000_0000u64 {
                    proof {
                        let cur = s@.subrange(start as int, i + 1 as int);
                        lemma_digits_val_prefix(digits, i + 1 - start);
                        assert(digits.subrange(0, i + 1 - start) =~= cur);
                    }
                    return None;
                }
                acc = new_acc;
            },
        }
        i = i + 1;
    }
    proof {
        assert(s@.subrange(start as int, n as int) =~= digits);
    }
    if neg {
        let v: i64 = -(acc as i64);
        Some(v as i32)
    } else {
        if acc > 0x7fff_ffffu64 {
            return None;
        }
        Some(acc as i32)
    }
}

/// The kind of a relationship between two parts, a closed enumeration.
#[derive(Copy, Clone, Eq, PartialEq, Structural, PartialOrd, Ord, Hash, Debug)]
pub enum PartRelationType {
    Print,
    Pair,
    SubPart,
    Mold,
    Pattern,
    Alternate,
}

/// The material of a part, a closed enumeration.
#[derive(Copy, Clone, Eq, PartialEq, Structural, PartialOrd, Ord, Hash, Debug)]
pub enum PartMaterial {
    CardboardPaper,
    Cloth,
    FlexiblePlastic,
    Foam,
    Metal,
    Plastic,
    Rubber,
}

/// The source code letter of each relationship kind.
pub open spec fn spec_relation_code(t: PartRelationType) -> Seq<char> {
    match t {
        PartRelationType::Print => "P"@,
        PartRelationType::Pair => "R"@,
        PartRelationType::SubPart => "B"@,
        PartRelationType::Mold => "M"@,
        PartRelationType::Pattern => "T"@,
        PartRelationType::Alternate => "A"@,
    }
}

/// What a relationship code decodes to: the compact source codes and the
/// canonical persisted codes belong to one shared set, so every persisted
/// code decodes back; any unrecognized code is rejected.
pub open spec fn spec_decode_relation(s: Seq<char>) -> Option<PartRelationType> {
    if s == "P"@ {
        Some(PartRelationType::Print)
    } else if s == "R"@ {
        Some(PartRelationType::Pair)
    } else if s == "B"@ {
        Some(PartRelationType::SubPart)
    } else if s == "M"@ {
        Some(PartRelationType::Mold)
    } else if s == "T"@ {
        Some(PartRelationType::Pattern)
    } else if s == "A"@ {
        Some(PartRelationType::Alternate)
    } else if s == "print"@ {
        Some(PartRelationType::Print)
    } else if s == "pair"@ {
        Some(PartRelationType::Pair)
    } else if s == "subpart"@ {
        Some(PartRelationType::SubPart)
    } else if s == "mold"@ {
        Some(PartRelationType::Mold)
    } else if s == "pattern"@ {
        Some(PartRelationType::Pattern)
    } else if s == "alternate"@ {
        Some(PartRelationType::Alternate)
    } else {
        None
    }
}

/// The text under which each relationship kind is persisted.
pub open spec fn spec_encode_relation(t: PartRelationType) -> Seq<char> {
    match t {
        PartRelationType::Print => "print"@,
        PartRelationType::Pair => "pair"@,
        PartRelationType::SubPart => "subpart"@,
        PartRelationType::Mold => "mold"@,
        PartRelationType::Pattern => "pattern"@,
        PartRelationType::Alternate => "alternate"@,
    }
}

/// The source code of each material.
pub open spec fn spec_material_code(m: PartMaterial) -> Seq<char> {
    match m {
        PartMaterial::CardboardPaper => "Cardboard/Paper"@,
        PartMaterial::Cloth => "Cloth"@,
        PartMaterial::FlexiblePlastic => "Flexible Plastic"@,
        PartMaterial::Foam => "Foam"@,
        PartMaterial::Metal => "Metal"@,
        PartMaterial::Plastic => "Plastic"@,
        PartMaterial::Rubber => "Rubber"@,
    }
}

/// What a material code decodes to: the source codes and the canonical
/// persisted codes belong to one shared set, so every persisted code
/// decodes back; any unrecognized code is rejected.
pub open spec fn spec_decode_material(s: Seq<char>) -> Option<PartMaterial> {
    if s == "Cardboard/Paper"@ {
        Some(PartMaterial::CardboardPaper)
    } else if s == "Cloth"@ {
        Some(PartMaterial::Cloth)
    } else if s == "Flexible Plastic"@ {
        Some(PartMaterial::FlexiblePlastic)
    } else if s == "Foam"@ {
        Some(PartMaterial::Foam)
    } else if s == "Metal"@ {
        Some(PartMaterial::Metal)
    } else if s == "Plastic"@ {
        Some(PartMaterial::Plastic)
    } else if s == "Rubber"@ {
        Some(PartMaterial::Rubber)
    } else if s == "cardboard/paper"@ {
        Some(PartMaterial::CardboardPaper)
    } else if s == "cloth"@ {
        Some(PartMaterial::Cloth)
    } else if s == "flexible plastic"@ {
        Some(PartMaterial::FlexiblePlastic)
    } else if s == "foam"@ {
        Some(PartMaterial::Foam)
    } else if s == "metal"@ {
        Some(PartMaterial::Metal)
    } else if s == "plastic"@ {
        Some(PartMaterial::Plastic)
    } else if s == "rubber"@ {
        Some(PartMaterial::Rubber)
    } else {
        None
    }
}

/// The text under which each material is persisted.
pub open spec fn spec_encode_material(m: PartMaterial) -> Seq<char> {
    match m {
        PartMaterial::CardboardPaper => "cardboard/paper"@,
        PartMaterial::Cloth => "cloth"@,
        PartMaterial::FlexiblePlastic => "flexible plastic"@,
        PartMaterial::Foam => "foam"@,
        PartMaterial::Metal => "metal"@,
        PartMaterial::Plastic => "plastic"@,
        PartMaterial::Rubber => "rubber"@,
    }
}

/// Decodes a relationship kind from its one-letter source code or its
/// canonical persisted code.
pub fn decode_relation_type(s: &str) -> (r: Option<PartRelationType>)
    ensures
        r == spec_decode_relation(s@),
{
    if str_eq(s, "P") {
        Some(PartRelationType::Print)
    } else if str_eq(s, "R") {
        Some(PartRelationType::Pair)
    } else if str_eq(s, "B") {
        Some(PartRelationType::SubPart)
    } else if str_eq(s, "M") {
        Some(PartRelationType::Mold)
    } else if str_eq(s, "T") {
        Some(PartRelationType::Pattern)
    } else if str_eq(s, "A") {
        Some(PartRelationType::Alternate)
    } else if str_eq(s, "print") {
        Some(PartRelationType::Print)
    } else if str_eq(s, "pair") {
        Some(PartRelationType::Pair)
    } else if str_eq(s, "subpart") {
        Some(PartRelationType::SubPart)
    } else if str_eq(s, "mold") {
        Some(PartRelationType::Mold)
    } else if str_eq(s, "pattern") {
        Some(PartRelationType::Pattern)
    } else if str_eq(s, "alternate") {
        Some(PartRelationType::Alternate)
    } else {
        None
    }
}

/// The text under which a relationship kind is persisted.
pub fn encode_relation_type(rel_type: PartRelationType) -> (r: &'static str)
    ensures
        r@ == spec_encode_relation(rel_type),
{
    match rel_type {
        PartRelationType::Print => "print",
        PartRelationType::Pair => "pair",
        PartRelationType::SubPart => "subpart",
        PartRelationType::Mold => "mold",
        PartRelationType::Pattern => "pattern",
        PartRelationType::Alternate => "alternate",
    }
}

/// Decodes a material from its source code or its canonical persisted code.
pub fn decode_part_material(s: &str) -> (r: Option<PartMaterial>)
    ensures
        r == spec_decode_material(s@),
{
    if str_eq(s, "Cardboard/Paper") {
        Some(PartMaterial::CardboardPaper)
    } else if str_eq(s, "Cloth") {
        Some(PartMaterial::Cloth)
    } else if str_eq(s, "Flexible Plastic") {
        Some(PartMaterial::FlexiblePlastic)
    } else if str_eq(s, "Foam") {
        Some(PartMaterial::Foam)
    } else if str_eq(s, "Metal") {
        Some(PartMaterial::Metal)
    } else if str_eq(s, "Plastic") {
        Some(PartMaterial::Plastic)
    } else if str_eq(s, "Rubber") {
        Some(PartMaterial::Rubber)
    } else if str_eq(s, "cardboard/paper") {
        Some(PartMaterial::CardboardPaper)
    } else if str_eq(s, "cloth") {
        Some(PartMaterial::Cloth)
    } else if str_eq(s, "flexible plastic") {
        Some(PartMaterial::FlexiblePlastic)
    } else if str_eq(s, "foam") {
        Some(PartMaterial::Foam)
    } else if str_eq(s, "metal") {
        Some(PartMaterial::Metal)
    } else if str_eq(s, "plastic") {
        Some(PartMaterial::Plastic)
    } else if str_eq(s, "rubber") {
        Some(PartMaterial::Rubber)
    } else {
        None
    }
}

/// The text under which a material is persisted.
pub fn encode_part_material(part_material: PartMaterial) -> (r: &'static str)
    ensures
        r@ == spec_encode_material(part_material),
{
    match part_material {
        PartMaterial::CardboardPaper => "cardboard/paper",
        PartMaterial::Cloth => "cloth",
        PartMaterial::FlexiblePlastic => "flexible plastic",
        PartMaterial::Foam => "foam",
        PartMaterial::Metal => "metal",
        PartMaterial::Plastic => "plastic",
        PartMaterial::Rubber => "rubber",
    }
}

/// Decoding the source code of a relationship kind gives back that kind.
pub proof fn lemma_relation_code_round_trip(t: PartRelationType)
    ensures
        spec_decode_relation(spec_relation_code(t)) == Some(t),
{
    reveal_strlit("P");
    reveal_strlit("R");
    reveal_strlit("B");
    reveal_strlit("M");
    reveal_strlit("T");
    reveal_strlit("A");
    assert(("P"@)[0] == 'P' && ("R"@)[0] == 'R' && ("B"@)[0] == 'B');
    assert(("M"@)[0] == 'M' && ("T"@)[0] == 'T' && ("A"@)[0] == 'A');
    assert("R"@ != "P"@);
    assert("B"@ != "P"@ && "B"@ != "R"@);
    assert("M"@ != "P"@ && "M"@ != "R"@ && "M"@ != "B"@);
    assert("T"@ != "P"@ && "T"@ != "R"@ && "T"@ != "B"@ && "T"@ != "M"@);
    assert("A"@ != "P"@ && "A"@ != "R"@ && "A"@ != "B"@ && "A"@ != "M"@ && "A"@ != "T"@);
}

/// Decoding the source code of a material gives back that material.
pub proof fn lemma_material_code_round_trip(m: PartMaterial)
    ensures
        spec_decode_material(spec_material_code(m)) == Some(m),
{
    reveal_strlit("Cardboard/Paper");
    reveal_strlit("Cloth");
    reveal_strlit("Flexible Plastic");
    reveal_strlit("Foam");
    reveal_strlit("Metal");
    reveal_strlit("Plastic");
    reveal_strlit("Rubber");
    assert(("Cardboard/Paper"@).len() == 15);
    assert(("Cloth"@).len() == 5);
    assert(("Flexible Plastic"@).len() == 16);
    assert(("Foam"@).len() == 4);
    assert(("Metal"@).len() == 5);
    assert(("Plastic"@).len() == 7);
    assert(("Rubber"@).len() == 6);
    assert(("Cloth"@)[0] == 'C' && ("Metal"@)[0] == 'M');
    assert("Cloth"@ != "Cardboard/Paper"@);
    assert("Flexible Plastic"@ != "Cardboard/Paper"@ && "Flexible Plastic"@ != "Cloth"@);
    assert("Foam"@ != "Cardboard/Paper"@ && "Foam"@ != "Cloth"@ && "Foam"@
        != "Flexible Plastic"@);
    assert("Metal"@ != "Cardboard/Paper"@ && "Metal"@ != "Cloth"@ && "Metal"@
        != "Flexible Plastic"@ && "Metal"@ != "Foam"@);
    assert("Plastic"@ != "Cardboard/Paper"@ && "Plastic"@ != "Cloth"@ && "Plastic"@
        != "Flexible Plastic"@ && "Plastic"@ != "Foam"@ && "Plastic"@ != "Metal"@);
    assert("Rubber"@ != "Cardboard/Paper"@ && "Rubber"@ != "Cloth"@ && "Rubber"@
        != "Flexible Plastic"@ && "Rubber"@ != "Foam"@ && "Rubber"@ != "Metal"@ && "Rubber"@
        != "Plastic"@);
}

/// Decoding the persisted code of a relationship kind gives back that
/// kind: decoding and persistence share one canonical code set.
pub proof fn lemma_relation_persist_round_trip(t: PartRelationType)
    ensures
        spec_decode_relation(spec_encode_relation(t)) == Some(t),
{
    reveal_strlit("P");
    reveal_strlit("R");
    reveal_strlit("B");
    reveal_strlit("M");
    reveal_strlit("T");
    reveal_strlit("A");
    reveal_strlit("print");
    reveal_strlit("pair");
    reveal_strlit("subpart");
    reveal_strlit("mold");
    reveal_strlit("pattern");
    reveal_strlit("alternate");
    assert(("P"@).len() == 1 && ("R"@).len() == 1 && ("B"@).len() == 1 && ("M"@).len() == 1
        && ("T"@).len() == 1 && ("A"@).len() == 1);
    assert(("print"@).len() == 5);
    assert(("pair"@).len() == 4);
    assert(("subpart"@).len() == 7);
    assert(("mold"@).len() == 4);
    assert(("pattern"@).len() == 7);
    assert(("alternate"@).len() == 9);
    assert(("pair"@)[0] == 'p' && ("mold"@)[0] == 'm');
    assert(("subpart"@)[0] == 's' && ("pattern"@)[0] == 'p');
    assert(forall|w: Seq<char>| w.len() > 1 ==> w != "P"@ && w != "R"@ && w != "B"@ && w != "M"@
        && w != "T"@ && w != "A"@);
    assert("pair"@ != "print"@);
    assert("subpart"@ != "print"@ && "subpart"@ != "pair"@);
    assert("mold"@ != "print"@ && "mold"@ != "pair"@ && "mold"@ != "subpart"@);
    assert("pattern"@ != "print"@ && "pattern"@ != "pair"@ && "pattern"@ != "subpart"@
        && "pattern"@ != "mold"@);
    assert("alternate"@ != "print"@ && "alternate"@ != "pair"@ && "alternate"@ != "subpart"@
        && "alternate"@ != "mold"@ && "alternate"@ != "pattern"@);
}

/// Decoding the persisted code of a material gives back that material:
/// decoding and persistence share one canonical code set.
pub proof fn lemma_material_persist_round_trip(m: PartMaterial)
    ensures
        spec_decode_material(spec_encode_material(m)) == Some(m),
{
    reveal_strlit("Cardboard/Paper");
    reveal_strlit("Cloth");
    reveal_strlit("Flexible Plastic");
    reveal_strlit("Foam");
    reveal_strlit("Metal");
    reveal_strlit("Plastic");
    reveal_strlit("Rubber");
    reveal_strlit("cardboard/paper");
    reveal_strlit("cloth");
    reveal_strlit("flexible plastic");
    reveal_strlit("foam");
    reveal_strlit("metal");
    reveal_strlit("plastic");
    reveal_strlit("rubber");
    assert(("Cardboard/Paper"@).len() == 15 && ("cardboard/paper"@).len() == 15);
    assert(("Cloth"@).len() == 5 && ("cloth"@).len() == 5);
    assert(("Flexible Plastic"@).len() == 16 && ("flexible plastic"@).len() == 16);
    assert(("Foam"@).len() == 4 && ("foam"@).len() == 4);
    assert(("Metal"@).len() == 5 && ("metal"@).len() == 5);
    assert(("Plastic"@).len() == 7 && ("plastic"@).len() == 7);
    assert(("Rubber"@).len() == 6 && ("rubber"@).len() == 6);
    assert(("Cardboard/Paper"@)[0] == 'C' && ("cardboard/paper"@)[0] == 'c');
    assert(("Cloth"@)[0] == 'C' && ("cloth"@)[0] == 'c');
    assert(("Flexible Plastic"@)[0] == 'F' && ("flexible plastic"@)[0] == 'f');
    assert(("Foam"@)[0] == 'F' && ("foam"@)[0] == 'f');
    assert(("Metal"@)[0] == 'M' && ("metal"@)[0] == 'm');
    assert(("Plastic"@)[0] == 'P' && ("plastic"@)[0] == 'p');
    assert(("Rubber"@)[0] == 'R' && ("rubber"@)[0] == 'r');
    assert("cardboard/paper"@ != "Cardboard/Paper"@ && "cloth"@ != "Cloth"@ && "cloth"@
        != "Metal"@ && "flexible plastic"@ != "Flexible Plastic"@ && "foam"@ != "Foam"@
        && "metal"@ != "Metal"@ && "metal"@ != "Cloth"@ && "plastic"@ != "Plastic"@
        && "rubber"@ != "Rubber"@);
    assert("cloth"@ != "Cardboard/Paper"@ && "cloth"@ != "Flexible Plastic"@ && "cloth"@
        != "Foam"@ && "cloth"@ != "Plastic"@ && "cloth"@ != "Rubber"@ && "cloth"@
        != "cardboard/paper"@);
    assert("flexible plastic"@ != "Cardboard/Paper"@ && "flexible plastic"@ != "Cloth"@
        && "flexible plastic"@ != "Foam"@ && "flexible plastic"@ != "Metal"@
        && "flexible plastic"@ != "Plastic"@ && "flexible plastic"@ != "Rubber"@
        && "flexible plastic"@ != "cardboard/paper"@ && "flexible plastic"@ != "cloth"@);
    assert("foam"@ != "Cardboard/Paper"@ && "foam"@ != "Cloth"@ && "foam"@
        != "Flexible Plastic"@ && "foam"@ != "Metal"@ && "foam"@ != "Plastic"@ && "foam"@
        != "Rubber"@ && "foam"@ != "cardboard/paper"@ && "foam"@ != "cloth"@ && "foam"@
        != "flexible plastic"@);
    assert("metal"@ != "Cardboard/Paper"@ && "metal"@ != "Flexible Plastic"@ && "metal"@
        != "Foam"@ && "metal"@ != "Plastic"@ && "metal"@ != "Rubber"@ && "metal"@
        != "cardboard/paper"@ && "metal"@ != "cloth"@ && "metal"@ != "flexible plastic"@
        && "metal"@ != "foam"@);
    assert("plastic"@ != "Cardboard/Paper"@ && "plastic"@ != "Cloth"@ && "plastic"@
        != "Flexible Plastic"@ && "plastic"@ != "Foam"@ && "plastic"@ != "Metal"@
        && "plastic"@ != "Rubber"@ && "plastic"@ != "cardboard/paper"@ && "plastic"@
        != "cloth"@ && "plastic"@ != "flexible plastic"@ && "plastic"@ != "foam"@
        && "plastic"@ != "metal"@);
    assert("rubber"@ != "Cardboard/Paper"@ && "rubber"@ != "Cloth"@ && "rubber"@
        != "Flexible Plastic"@ && "rubber"@ != "Foam"@ && "rubber"@ != "Metal"@ && "rubber"@
        != "Plastic"@ && "rubber"@ != "cardboard/paper"@ && "rubber"@ != "cloth"@
        && "rubber"@ != "flexible plastic"@ && "rubber"@ != "foam"@ && "rubber"@ != "metal"@
        && "rubber"@ != "plastic"@);
    assert("cardboard/paper"@ != "Cloth"@ && "cardboard/paper"@ != "Flexible Plastic"@
        && "cardboard/paper"@ != "Foam"@ && "cardboard/paper"@ != "Metal"@
        && "cardboard/paper"@ != "Plastic"@ && "cardboard/paper"@ != "Rubber"@);
}

/// Decoding a canonical color text gives back the same color.
pub proof fn lemma_rgb_round_trip(c: Rgb)
    ensures
        spec_parse_rgb(spec_rgb_text(c)) == Some(c),
{
    let s = spec_rgb_text(c);
    assert(s[0] == '#');
    let t = s.subrange(1, s.len() as int);
    assert(t.len() == 6);
    assert(t[0] == spec_hex_char((c.r / 16) as u8));
    lemma_hex_char_val((c.r / 16) as u8);
    lemma_hex_char_val((c.r % 16) as u8);
    lemma_hex_char_val((c.g / 16) as u8);
    lemma_hex_char_val((c.g % 16) as u8);
    lemma_hex_char_val((c.b / 16) as u8);
    lemma_hex_char_val((c.b % 16) as u8);
    assert(spec_hex_pair(t[0], t[1]) == Some(c.r));
    assert(spec_hex_pair(t[2], t[3]) == Some(c.g));
    assert(spec_hex_pair(t[4], t[5]) == Some(c.b));
}

} // verus!
