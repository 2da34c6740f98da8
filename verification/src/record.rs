//! Typed records, one per dataset, and their strict row decoders. A row is a
//! vector of raw text fields in schema order; a record decodes only when
//! every field decodes and the row has exactly the declared arity.

use vstd::prelude::*;
use crate::types::{
    PartMaterial, PartRelationType, Rgb, parse_i32, spec_decode_material, spec_decode_relation,
    spec_parse_i32, spec_parse_rgb, decode_relation_type, decode_part_material,
};

verus! {

/// A failed field or row decode, with the offending field and value.
#[derive(Clone, Eq, PartialEq, Debug)]
pub struct DecodeError {
    pub field: String,
    pub value: String,
}

/// Copies a string slice into an owned string.
pub fn str_to_string(s: &str) -> (r: String)
    ensures
        r@ == s@,
{
    let mut out = String::new();
    out.append(s);
    out
}

fn decode_err(field: &str, value: &str) -> (r: DecodeError)
    ensures
        r.field@ == field@,
        r.value@ == value@,
{
    DecodeError { field: str_to_string(field), value: str_to_string(value) }
}

/// What a boolean field decodes to: only `t` and `f` are accepted.
pub open spec fn spec_decode_bool(s: Seq<char>) -> Option<bool> {
    if s == "t"@ {
        Some(true)
    } else if s == "f"@ {
        Some(false)
    } else {
        None
    }
}

/// Decodes a boolean field: `t` is true, `f` is false, all else an error.
pub fn decode_bool(s: &str) -> (r: Option<bool>)
    ensures
        r == spec_decode_bool(s@),
{
    if crate::types::str_eq(s, "t") {
        Some(true)
    } else if crate::types::str_eq(s, "f") {
        Some(false)
    } else {
        None
    }
}

/// What an optional integer field decodes to: empty text is absent.
pub open spec fn spec_decode_opt_i32(s: Seq<char>) -> Option<Option<i32>> {
    if s.len() == 0 {
        Some(None)
    } else {
        match spec_parse_i32(s) {
            Some(v) => Some(Some(v)),
            None => None,
        }
    }
}

/// Decodes an optional integer field.
pub fn decode_opt_i32(s: &str) -> (r: Option<Option<i32>>)
    ensures
        r == spec_decode_opt_i32(s@),
{
    if s.unicode_len() == 0 {
        Some(None)
    } else {
        match parse_i32(s) {
            Some(v) => Some(Some(v)),
            None => None,
        }
    }
}

/// The serialization of the URL that the given text parses to, or `None`
/// where the text is not a valid URL. A name for what `url::Url::parse`
/// returns: the result depends on the text alone.
pub uninterp spec fn url_norm_of(s: Seq<char>) -> Option<Seq<char>>;

/// Relies on url::Url::parse and the url crate's String conversion: parse
/// failure and the parsed URL's serialization are functions of the text.
#[verifier::external_body]
fn normalize_url(s: &str) -> (r: Option<String>)
    ensures
        match r {
            Some(u) => url_norm_of(s@) == Some(u@),
            None => url_norm_of(s@) is None,
        },
{
    match url::Url::parse(s) {
        Ok(u) => Some(String::from(u)),
        Err(_) => None,
    }
}

/// What an optional URL field decodes to: empty text is absent, non-empty
/// text must parse as a URL and is kept in serialized form.
pub open spec fn spec_decode_opt_url(s: Seq<char>) -> Option<Option<Seq<char>>> {
    if s.len() == 0 {
        Some(None)
    } else {
        match url_norm_of(s) {
            Some(u) => Some(Some(u)),
            None => None,
        }
    }
}

/// Decodes an optional URL field.
pub fn decode_opt_url(s: &str) -> (r: Option<Option<String>>)
    ensures
        match r {
            Some(o) => spec_decode_opt_url(s@) == Some(o.deep_view()),
            None => spec_decode_opt_url(s@) is None,
        },
{
    if s.unicode_len() == 0 {
        Some(None)
    } else {
        match normalize_url(s) {
            Some(u) => Some(Some(u)),
            None => None,
        }
    }
}

/// One row of the inventories dataset.
#[derive(Clone, Eq, PartialEq, Debug)]
pub struct Inventory {
    pub id: i32,
    pub version: i32,
    pub set_num: String,
}

/// One row of the inventory parts dataset.
#[derive(Clone, Eq, PartialEq, Debug)]
pub struct InventoryPart {
    pub inventory_id: i32,
    pub part_num: String,
    pub color_id: i32,
    pub quantity: i32,
    pub is_spare: bool,
    pub img_url: Option<String>,
}

/// One row of the inventory minifigs dataset.
#[derive(Clone, Eq, PartialEq, Debug)]
pub struct InventoryMinifig {
    pub inventory_id: i32,
    pub fig_num: String,
    pub quantity: i32,
}

/// One row of the inventory sets dataset.
#[derive(Clone, Eq, PartialEq, Debug)]
pub struct InventorySet {
    pub inventory_id: i32,
    pub set_num: String,
    pub quantity: i32,
}

/// One row of the parts dataset.
#[derive(Clone, Eq, PartialEq, Debug)]
pub struct Part {
    pub part_num: String,
    pub name: String,
    pub part_cat_id: i32,
    pub part_material: PartMaterial,
}

/// One row of the part categories dataset.
#[derive(Clone, Eq, PartialEq, Debug)]
pub struct PartCategory {
    pub id: i32,
    pub name: String,
}

/// One row of the part relationships dataset.
#[derive(Clone, Eq, PartialEq, Debug)]
pub struct PartRelationship {
    pub rel_type: PartRelationType,
    pub child_part_num: String,
    pub parent_part_num: String,
}

/// One row of the elements dataset.
#[derive(Clone, Eq, PartialEq, Debug)]
pub struct Element {
    pub element_id: String,
    pub part_num: String,
    pub color_id: i32,
    pub design_id: Option<i32>,
}

/// One row of the colors dataset.
#[derive(Clone, Eq, PartialEq, Debug)]
pub struct Color {
    pub id: i32,
    pub name: String,
    pub rgb: Rgb,
    pub is_trans: bool,
}

/// One row of the minifigs dataset.
#[derive(Clone, Eq, PartialEq, Debug)]
pub struct Minifig {
    pub fig_num: String,
    pub name: String,
    pub num_parts: i32,
    pub img_url: Option<String>,
}

/// One row of the sets dataset.
#[derive(Clone, Eq, PartialEq, Debug)]
pub struct SetRecord {
    pub set_num: String,
    pub name: String,
    pub year: i32,
    pub theme_id: i32,
    pub num_parts: i32,
    pub img_url: Option<String>,
}

/// One row of the themes dataset; `parent_id` is an optional self-reference
/// to another row of the same dataset, possibly one appearing later.
#[derive(Clone, Eq, PartialEq, Debug)]
pub struct Theme {
    pub id: i32,
    pub name: String,
    pub parent_id: Option<i32>,
}

/// Whether an inventories row decodes.
pub open spec fn spec_inventory_row_ok(row: Seq<Seq<char>>) -> bool {
    &&& row.len() == 3
    &&& spec_parse_i32(row[0]) is Some
    &&& spec_parse_i32(row[1]) is Some
}

/// Decodes an inventories row.
pub fn decode_inventory(row: &Vec<String>) -> (r: Result<Inventory, DecodeError>)
    ensures
        r is Ok <==> spec_inventory_row_ok(row.deep_view()),
        r matches Ok(rec) ==> ({
            &&& Some(rec.id) == spec_parse_i32(row.deep_view()[0])
            &&& Some(rec.version) == spec_parse_i32(row.deep_view()[1])
            &&& rec.set_num@ == row.deep_view()[2]
        }),
{
    if row.len() != 3 {
        return Err(decode_err("inventories row", ""));
    }
    let id = match parse_i32(row[0].as_str()) {
        Some(v) => v,
        None => {
            return Err(decode_err("id", row[0].as_str()));
        },
    };
    let version = match parse_i32(row[1].as_str()) {
        Some(v) => v,
        None => {
            return Err(decode_err("version", row[1].as_str()));
        },
    };
    Ok(Inventory { id, version, set_num: str_to_string(row[2].as_str()) })
}

/// Whether an inventory parts row decodes.
pub open spec fn spec_inventory_part_row_ok(row: Seq<Seq<char>>) -> bool {
    &&& row.len() == 6
    &&& spec_parse_i32(row[0]) is Some
    &&& spec_parse_i32(row[2]) is Some
    &&& spec_parse_i32(row[3]) is Some
    &&& spec_decode_bool(row[4]) is Some
    &&& spec_decode_opt_url(row[5]) is Some
}

/// Decodes an inventory parts row.
pub fn decode_inventory_part(row: &Vec<String>) -> (r: Result<InventoryPart, DecodeError>)
    ensures
        r is Ok <==> spec_inventory_part_row_ok(row.deep_view()),
        r matches Ok(rec) ==> ({
            &&& Some(rec.inventory_id) == spec_parse_i32(row.deep_view()[0])
            &&& rec.part_num@ == row.deep_view()[1]
            &&& Some(rec.color_id) == spec_parse_i32(row.deep_view()[2])
            &&& Some(rec.quantity) == spec_parse_i32(row.deep_view()[3])
            &&& Some(rec.is_spare) == spec_decode_bool(row.deep_view()[4])
            &&& Some(rec.img_url.deep_view()) == spec_decode_opt_url(row.deep_view()[5])
        }),
{
    if row.len() != 6 {
        return Err(decode_err("inventory parts row", ""));
    }
    let inventory_id = match parse_i32(row[0].as_str()) {
        Some(v) => v,
        None => {
            return Err(decode_err("inventory_id", row[0].as_str()));
        },
    };
    let color_id = match parse_i32(row[2].as_str()) {
        Some(v) => v,
        None => {
            return Err(decode_err("color_id", row[2].as_str()));
        },
    };
    let quantity = match parse_i32(row[3].as_str()) {
        Some(v) => v,
        None => {
            return Err(decode_err("quantity", row[3].as_str()));
        },
    };
    let is_spare = match decode_bool(row[4].as_str()) {
        Some(v) => v,
        None => {
            return Err(decode_err("is_spare", row[4].as_str()));
        },
    };
    let img_url = match decode_opt_url(row[5].as_str()) {
        Some(v) => v,
        None => {
            return Err(decode_err("img_url", row[5].as_str()));
        },
    };
    Ok(InventoryPart {
        inventory_id,
        part_num: str_to_string(row[1].as_str()),
        color_id,
        quantity,
        is_spare,
        img_url,
    })
}

/// Whether an inventory minifigs row decodes.
pub open spec fn spec_inventory_minifig_row_ok(row: Seq<Seq<char>>) -> bool {
    &&& row.len() == 3
    &&& spec_parse_i32(row[0]) is Some
    &&& spec_parse_i32(row[2]) is Some
}

/// Decodes an inventory minifigs row.
pub fn decode_inventory_minifig(row: &Vec<String>) -> (r: Result<InventoryMinifig, DecodeError>)
    ensures
        r is Ok <==> spec_inventory_minifig_row_ok(row.deep_view()),
        r matches Ok(rec) ==> ({
            &&& Some(rec.inventory_id) == spec_parse_i32(row.deep_view()[0])
            &&& rec.fig_num@ == row.deep_view()[1]
            &&& Some(rec.quantity) == spec_parse_i32(row.deep_view()[2])
        }),
{
    if row.len() != 3 {
        return Err(decode_err("inventory minifigs row", ""));
    }
    let inventory_id = match parse_i32(row[0].as_str()) {
        Some(v) => v,
        None => {
            return Err(decode_err("inventory_id", row[0].as_str()));
        },
    };
    let quantity = match parse_i32(row[2].as_str()) {
        Some(v) => v,
        None => {
            return Err(decode_err("quantity", row[2].as_str()));
        },
    };
    Ok(InventoryMinifig { inventory_id, fig_num: str_to_string(row[1].as_str()), quantity })
}

/// Whether an inventory sets row decodes.
pub open spec fn spec_inventory_set_row_ok(row: Seq<Seq<char>>) -> bool {
    &&& row.len() == 3
    &&& spec_parse_i32(row[0]) is Some
    &&& spec_parse_i32(row[2]) is Some
}

/// Decodes an inventory sets row.
pub fn decode_inventory_set(row: &Vec<String>) -> (r: Result<InventorySet, DecodeError>)
    ensures
        r is Ok <==> spec_inventory_set_row_ok(row.deep_view()),
        r matches Ok(rec) ==> ({
            &&& Some(rec.inventory_id) == spec_parse_i32(row.deep_view()[0])
            &&& rec.set_num@ == row.deep_view()[1]
            &&& Some(rec.quantity) == spec_parse_i32(row.deep_view()[2])
        }),
{
    if row.len() != 3 {
        return Err(decode_err("inventory sets row", ""));
    }
    let inventory_id = match parse_i32(row[0].as_str()) {
        Some(v) => v,
        None => {
            return Err(decode_err("inventory_id", row[0].as_str()));
        },
    };
    let quantity = match parse_i32(row[2].as_str()) {
        Some(v) => v,
        None => {
            return Err(decode_err("quantity", row[2].as_str()));
        },
    };
    Ok(InventorySet { inventory_id, set_num: str_to_string(row[1].as_str()), quantity })
}

/// Whether a parts row decodes.
pub open spec fn spec_part_row_ok(row: Seq<Seq<char>>) -> bool {
    &&& row.len() == 4
    &&& spec_parse_i32(row[2]) is Some
    &&& spec_decode_material(row[3]) is Some
}

/// Decodes a parts row.
pub fn decode_part(row: &Vec<String>) -> (r: Result<Part, DecodeError>)
    ensures
        r is Ok <==> spec_part_row_ok(row.deep_view()),
        r matches Ok(rec) ==> ({
            &&& rec.part_num@ == row.deep_view()[0]
            &&& rec.name@ == row.deep_view()[1]
            &&& Some(rec.part_cat_id) == spec_parse_i32(row.deep_view()[2])
            &&& Some(rec.part_material) == spec_decode_material(row.deep_view()[3])
        }),
{
    if row.len() != 4 {
        return Err(decode_err("parts row", ""));
    }
    let part_cat_id = match parse_i32(row[2].as_str()) {
        Some(v) => v,
        None => {
            return Err(decode_err("part_cat_id", row[2].as_str()));
        },
    };
    let part_material = match decode_part_material(row[3].as_str()) {
        Some(v) => v,
        None => {
            return Err(decode_err("part_material", row[3].as_str()));
        },
    };
    Ok(Part {
        part_num: str_to_string(row[0].as_str()),
        name: str_to_string(row[1].as_str()),
        part_cat_id,
        part_material,
    })
}

/// Whether a part categories row decodes.
pub open spec fn spec_part_category_row_ok(row: Seq<Seq<char>>) -> bool {
    &&& row.len() == 2
    &&& spec_parse_i32(row[0]) is Some
}

/// Decodes a part categories row.
pub fn decode_part_category(row: &Vec<String>) -> (r: Result<PartCategory, DecodeError>)
    ensures
        r is Ok <==> spec_part_category_row_ok(row.deep_view()),
        r matches Ok(rec) ==> ({
            &&& Some(rec.id) == spec_parse_i32(row.deep_view()[0])
            &&& rec.name@ == row.deep_view()[1]
        }),
{
    if row.len() != 2 {
        return Err(decode_err("part categories row", ""));
    }
    let id = match parse_i32(row[0].as_str()) {
        Some(v) => v,
        None => {
            return Err(decode_err("id", row[0].as_str()));
        },
    };
    Ok(PartCategory { id, name: str_to_string(row[1].as_str()) })
}

/// Whether a part relationships row decodes.
pub open spec fn spec_part_relationship_row_ok(row: Seq<Seq<char>>) -> bool {
    &&& row.len() == 3
    &&& spec_decode_relation(row[0]) is Some
}

/// Decodes a part relationships row.
pub fn decode_part_relationship(row: &Vec<String>) -> (r: Result<PartRelationship, DecodeError>)
    ensures
        r is Ok <==> spec_part_relationship_row_ok(row.deep_view()),
        r matches Ok(rec) ==> ({
            &&& Some(rec.rel_type) == spec_decode_relation(row.deep_view()[0])
            &&& rec.child_part_num@ == row.deep_view()[1]
            &&& rec.parent_part_num@ == row.deep_view()[2]
        }),
{
    if row.len() != 3 {
        return Err(decode_err("part relationships row", ""));
    }
    let rel_type = match decode_relation_type(row[0].as_str()) {
        Some(v) => v,
        None => {
            return Err(decode_err("rel_type", row[0].as_str()));
        },
    };
    Ok(PartRelationship {
        rel_type,
        child_part_num: str_to_string(row[1].as_str()),
        parent_part_num: str_to_string(row[2].as_str()),
    })
}

/// Whether an elements row decodes.
pub open spec fn spec_element_row_ok(row: Seq<Seq<char>>) -> bool {
    &&& row.len() == 4
    &&& spec_parse_i32(row[2]) is Some
    &&& spec_decode_opt_i32(row[3]) is Some
}

/// Decodes an elements row.
pub fn decode_element(row: &Vec<String>) -> (r: Result<Element, DecodeError>)
    ensures
        r is Ok <==> spec_element_row_ok(row.deep_view()),
        r matches Ok(rec) ==> ({
            &&& rec.element_id@ == row.deep_view()[0]
            &&& rec.part_num@ == row.deep_view()[1]
            &&& Some(rec.color_id) == spec_parse_i32(row.deep_view()[2])
            &&& Some(rec.design_id) == spec_decode_opt_i32(row.deep_view()[3])
        }),
{
    if row.len() != 4 {
        return Err(decode_err("elements row", ""));
    }
    let color_id = match parse_i32(row[2].as_str()) {
        Some(v) => v,
        None => {
            return Err(decode_err("color_id", row[2].as_str()));
        },
    };
    let design_id = match decode_opt_i32(row[3].as_str()) {
        Some(v) => v,
        None => {
            return Err(decode_err("design_id", row[3].as_str()));
        },
    };
    Ok(Element {
        element_id: str_to_string(row[0].as_str()),
        part_num: str_to_string(row[1].as_str()),
        color_id,
        design_id,
    })
}

/// Whether a colors row decodes.
pub open spec fn spec_color_row_ok(row: Seq<Seq<char>>) -> bool {
    &&& row.len() == 4
    &&& spec_parse_i32(row[0]) is Some
    &&& spec_parse_rgb(row[2]) is Some
    &&& spec_decode_bool(row[3]) is Some
}

/// Decodes a colors row.
pub fn decode_color(row: &Vec<String>) -> (r: Result<Color, DecodeError>)
    ensures
        r is Ok <==> spec_color_row_ok(row.deep_view()),
        r matches Ok(rec) ==> ({
            &&& Some(rec.id) == spec_parse_i32(row.deep_view()[0])
            &&& rec.name@ == row.deep_view()[1]
            &&& Some(rec.rgb) == spec_parse_rgb(row.deep_view()[2])
            &&& Some(rec.is_trans) == spec_decode_bool(row.deep_view()[3])
        }),
{
    if row.len() != 4 {
        return Err(decode_err("colors row", ""));
    }
    let id = match parse_i32(row[0].as_str()) {
        Some(v) => v,
        None => {
            return Err(decode_err("id", row[0].as_str()));
        },
    };
    let rgb = match Rgb::parse(row[2].as_str()) {
        Ok(v) => v,
        Err(_) => {
            return Err(decode_err("rgb", row[2].as_str()));
        },
    };
    let is_trans = match decode_bool(row[3].as_str()) {
        Some(v) => v,
        None => {
            return Err(decode_err("is_trans", row[3].as_str()));
        },
    };
    Ok(Color { id, name: str_to_string(row[1].as_str()), rgb, is_trans })
}

/// Whether a minifigs row decodes.
pub open spec fn spec_minifig_row_ok(row: Seq<Seq<char>>) -> bool {
    &&& row.len() == 4
    &&& spec_parse_i32(row[2]) is Some
    &&& spec_decode_opt_url(row[3]) is Some
}

/// Decodes a minifigs row.
pub fn decode_minifig(row: &Vec<String>) -> (r: Result<Minifig, DecodeError>)
    ensures
        r is Ok <==> spec_minifig_row_ok(row.deep_view()),
        r matches Ok(rec) ==> ({
            &&& rec.fig_num@ == row.deep_view()[0]
            &&& rec.name@ == row.deep_view()[1]
            &&& Some(rec.num_parts) == spec_parse_i32(row.deep_view()[2])
            &&& Some(rec.img_url.deep_view()) == spec_decode_opt_url(row.deep_view()[3])
        }),
{
    if row.len() != 4 {
        return Err(decode_err("minifigs row", ""));
    }
    let num_parts = match parse_i32(row[2].as_str()) {
        Some(v) => v,
        None => {
            return Err(decode_err("num_parts", row[2].as_str()));
        },
    };
    let img_url = match decode_opt_url(row[3].as_str()) {
        Some(v) => v,
        None => {
            return Err(decode_err("img_url", row[3].as_str()));
        },
    };
    Ok(Minifig {
        fig_num: str_to_string(row[0].as_str()),
        name: str_to_string(row[1].as_str()),
        num_parts,
        img_url,
    })
}

/// Whether a sets row decodes.
pub open spec fn spec_set_row_ok(row: Seq<Seq<char>>) -> bool {
    &&& row.len() == 6
    &&& spec_parse_i32(row[2]) is Some
    &&& spec_parse_i32(row[3]) is Some
    &&& spec_parse_i32(row[4]) is Some
    &&& spec_decode_opt_url(row[5]) is Some
}

/// Decodes a sets row.
pub fn decode_set(row: &Vec<String>) -> (r: Result<SetRecord, DecodeError>)
    ensures
        r is Ok <==> spec_set_row_ok(row.deep_view()),
        r matches Ok(rec) ==> ({
            &&& rec.set_num@ == row.deep_view()[0]
            &&& rec.name@ == row.deep_view()[1]
            &&& Some(rec.year) == spec_parse_i32(row.deep_view()[2])
            &&& Some(rec.theme_id) == spec_parse_i32(row.deep_view()[3])
            &&& Some(rec.num_parts) == spec_parse_i32(row.deep_view()[4])
            &&& Some(rec.img_url.deep_view()) == spec_decode_opt_url(row.deep_view()[5])
        }),
{
    if row.len() != 6 {
        return Err(decode_err("sets row", ""));
    }
    let year = match parse_i32(row[2].as_str()) {
        Some(v) => v,
        None => {
            return Err(decode_err("year", row[2].as_str()));
        },
    };
    let theme_id = match parse_i32(row[3].as_str()) {
        Some(v) => v,
        None => {
            return Err(decode_err("theme_id", row[3].as_str()));
        },
    };
    let num_parts = match parse_i32(row[4].as_str()) {
        Some(v) => v,
        None => {
            return Err(decode_err("num_parts", row[4].as_str()));
        },
    };
    let img_url = match decode_opt_url(row[5].as_str()) {
        Some(v) => v,
        None => {
            return Err(decode_err("img_url", row[5].as_str()));
        },
    };
    Ok(SetRecord {
        set_num: str_to_string(row[0].as_str()),
        name: str_to_string(row[1].as_str()),
        year,
        theme_id,
        num_parts,
        img_url,
    })
}

/// Whether a themes row decodes.
pub open spec fn spec_theme_row_ok(row: Seq<Seq<char>>) -> bool {
    &&& row.len() == 3
    &&& spec_parse_i32(row[0]) is Some
    &&& spec_decode_opt_i32(row[2]) is Some
}

/// Decodes a themes row.
pub fn decode_theme(row: &Vec<String>) -> (r: Result<Theme, DecodeError>)
    ensures
        r is Ok <==> spec_theme_row_ok(row.deep_view()),
        r matches Ok(rec) ==> ({
            &&& Some(rec.id) == spec_parse_i32(row.deep_view()[0])
            &&& rec.name@ == row.deep_view()[1]
            &&& Some(rec.parent_id) == spec_decode_opt_i32(row.deep_view()[2])
        }),
{
    if row.len() != 3 {
        return Err(decode_err("themes row", ""));
    }
    let id = match parse_i32(row[0].as_str()) {
        Some(v) => v,
        None => {
            return Err(decode_err("id", row[0].as_str()));
        },
    };
    let parent_id = match decode_opt_i32(row[2].as_str()) {
        Some(v) => v,
        None => {
            return Err(decode_err("parent_id", row[2].as_str()));
        },
    };
    Ok(Theme { id, name: str_to_string(row[1].as_str()), parent_id })
}

} // verus!
