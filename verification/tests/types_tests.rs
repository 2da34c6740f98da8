use std::str::FromStr;

use rbk_db::types::{
    decode_part_material, decode_relation_type, encode_part_material, encode_relation_type,
    parse_i32, PartMaterial, PartRelationType, Rgb,
};

#[test]
fn from_str() {
    assert_eq!(
        Rgb::from_str("#ff00ff").unwrap(),
        Rgb {
            r: 0xff,
            g: 0x00,
            b: 0xff
        }
    );
    assert!(Rgb::from_str("#ff00f").is_err());
    assert!(Rgb::from_str("#ff00ff0").is_err());
    assert!(Rgb::from_str("#ff00fg").is_err());
}

#[test]
fn rgb_decodes_without_prefix() {
    assert_eq!(
        Rgb::parse("ff00ff").unwrap(),
        Rgb {
            r: 0xff,
            g: 0x00,
            b: 0xff
        }
    );
}

#[test]
fn rgb_round_trips_through_canonical_text() {
    let c = Rgb::parse("#ff00ff").unwrap();
    assert_eq!(c.to_text(), "#ff00ff");
    let c2 = Rgb::parse(&c.to_text()).unwrap();
    assert_eq!(c, c2);
}

#[test]
fn rgb_canonical_text_is_lower_case() {
    let c = Rgb::parse("FF00AB").unwrap();
    assert_eq!(c.to_text(), "#ff00ab");
}

#[test]
fn rgb_rejects_bad_lengths_and_digits() {
    assert!(Rgb::parse("").is_err());
    assert!(Rgb::parse("#").is_err());
    assert!(Rgb::parse("#1234567").is_err());
    assert!(Rgb::parse("zzzzzz").is_err());
}

#[test]
fn relation_codes_decode() {
    assert_eq!(decode_relation_type("P"), Some(PartRelationType::Print));
    assert_eq!(decode_relation_type("R"), Some(PartRelationType::Pair));
    assert_eq!(decode_relation_type("B"), Some(PartRelationType::SubPart));
    assert_eq!(decode_relation_type("M"), Some(PartRelationType::Mold));
    assert_eq!(decode_relation_type("T"), Some(PartRelationType::Pattern));
    assert_eq!(decode_relation_type("A"), Some(PartRelationType::Alternate));
    assert_eq!(decode_relation_type("X"), None);
    assert_eq!(decode_relation_type(""), None);
}

#[test]
fn persisted_relation_codes_decode_back() {
    // Decoding and persistence share one canonical code set: every
    // persisted code decodes to the value it was written for.
    for t in [
        PartRelationType::Print,
        PartRelationType::Pair,
        PartRelationType::SubPart,
        PartRelationType::Mold,
        PartRelationType::Pattern,
        PartRelationType::Alternate,
    ] {
        assert_eq!(decode_relation_type(encode_relation_type(t)), Some(t));
    }
    assert_eq!(decode_relation_type("print"), Some(PartRelationType::Print));
    assert_eq!(
        decode_relation_type("alternate"),
        Some(PartRelationType::Alternate)
    );
}

#[test]
fn relation_types_encode() {
    assert_eq!(encode_relation_type(PartRelationType::Print), "print");
    assert_eq!(encode_relation_type(PartRelationType::Pair), "pair");
    assert_eq!(encode_relation_type(PartRelationType::SubPart), "subpart");
    assert_eq!(encode_relation_type(PartRelationType::Mold), "mold");
    assert_eq!(encode_relation_type(PartRelationType::Pattern), "pattern");
    assert_eq!(
        encode_relation_type(PartRelationType::Alternate),
        "alternate"
    );
}

#[test]
fn material_codes_decode() {
    assert_eq!(
        decode_part_material("Cardboard/Paper"),
        Some(PartMaterial::CardboardPaper)
    );
    assert_eq!(decode_part_material("Cloth"), Some(PartMaterial::Cloth));
    assert_eq!(
        decode_part_material("Flexible Plastic"),
        Some(PartMaterial::FlexiblePlastic)
    );
    assert_eq!(decode_part_material("Foam"), Some(PartMaterial::Foam));
    assert_eq!(decode_part_material("Metal"), Some(PartMaterial::Metal));
    assert_eq!(decode_part_material("Plastic"), Some(PartMaterial::Plastic));
    assert_eq!(decode_part_material("Rubber"), Some(PartMaterial::Rubber));
    assert_eq!(decode_part_material("granite"), None);
    assert_eq!(decode_part_material(""), None);
}

#[test]
fn persisted_material_codes_decode_back() {
    // Decoding and persistence share one canonical code set: every
    // persisted code decodes to the value it was written for.
    for m in [
        PartMaterial::CardboardPaper,
        PartMaterial::Cloth,
        PartMaterial::FlexiblePlastic,
        PartMaterial::Foam,
        PartMaterial::Metal,
        PartMaterial::Plastic,
        PartMaterial::Rubber,
    ] {
        assert_eq!(decode_part_material(encode_part_material(m)), Some(m));
    }
    assert_eq!(
        decode_part_material("cardboard/paper"),
        Some(PartMaterial::CardboardPaper)
    );
    assert_eq!(decode_part_material("plastic"), Some(PartMaterial::Plastic));
}

#[test]
fn materials_encode() {
    assert_eq!(
        encode_part_material(PartMaterial::CardboardPaper),
        "cardboard/paper"
    );
    assert_eq!(encode_part_material(PartMaterial::Cloth), "cloth");
    assert_eq!(
        encode_part_material(PartMaterial::FlexiblePlastic),
        "flexible plastic"
    );
    assert_eq!(encode_part_material(PartMaterial::Foam), "foam");
    assert_eq!(encode_part_material(PartMaterial::Metal), "metal");
    assert_eq!(encode_part_material(PartMaterial::Plastic), "plastic");
    assert_eq!(encode_part_material(PartMaterial::Rubber), "rubber");
}

#[test]
fn parse_i32_accepts_signed_decimal() {
    assert_eq!(parse_i32("0"), Some(0));
    assert_eq!(parse_i32("123"), Some(123));
    assert_eq!(parse_i32("-123"), Some(-123));
    assert_eq!(parse_i32("+123"), Some(123));
    assert_eq!(parse_i32("007"), Some(7));
    assert_eq!(parse_i32("2147483647"), Some(i32::MAX));
    assert_eq!(parse_i32("-2147483648"), Some(i32::MIN));
}

#[test]
fn parse_i32_rejects_bad_text() {
    assert_eq!(parse_i32(""), None);
    assert_eq!(parse_i32("-"), None);
    assert_eq!(parse_i32("+"), None);
    assert_eq!(parse_i32("12x"), None);
    assert_eq!(parse_i32("x12"), None);
    assert_eq!(parse_i32(" 12"), None);
    assert_eq!(parse_i32("2147483648"), None);
    assert_eq!(parse_i32("-2147483649"), None);
    assert_eq!(parse_i32("99999999999999999999"), None);
}
