//! The fixed catalog of the twelve datasets: their logical names, their
//! remote resource names, and the two orders that matter — the catalog
//! order used for fetching and the dependency order used for loading.

use vstd::prelude::*;
use crate::record::str_to_string;

verus! {

/// One of the twelve datasets.
#[derive(Copy, Clone, Eq, PartialEq, Structural, Hash, Debug)]
pub enum TableId {
    Inventories,
    InventoryParts,
    InventoryMinifigs,
    InventorySets,
    Parts,
    PartCategories,
    PartRelationships,
    Elements,
    Colors,
    Minifigs,
    Sets,
    Themes,
}

/// The logical (and store-side) name of each dataset.
pub open spec fn spec_table_name(t: TableId) -> Seq<char> {
    match t {
        TableId::Inventories => "inventories"@,
        TableId::InventoryParts => "inventory_parts"@,
        TableId::InventoryMinifigs => "inventory_minifigs"@,
        TableId::InventorySets => "inventory_sets"@,
        TableId::Parts => "parts"@,
        TableId::PartCategories => "part_categories"@,
        TableId::PartRelationships => "part_relationships"@,
        TableId::Elements => "elements"@,
        TableId::Colors => "colors"@,
        TableId::Minifigs => "minifigs"@,
        TableId::Sets => "sets"@,
        TableId::Themes => "themes"@,
    }
}

/// The logical name of a dataset.
pub fn table_name(t: TableId) -> (r: &'static str)
    ensures
        r@ == spec_table_name(t),
{
    match t {
        TableId::Inventories => "inventories",
        TableId::InventoryParts => "inventory_parts",
        TableId::InventoryMinifigs => "inventory_minifigs",
        TableId::InventorySets => "inventory_sets",
        TableId::Parts => "parts",
        TableId::PartCategories => "part_categories",
        TableId::PartRelationships => "part_relationships",
        TableId::Elements => "elements",
        TableId::Colors => "colors",
        TableId::Minifigs => "minifigs",
        TableId::Sets => "sets",
        TableId::Themes => "themes",
    }
}

/// The remote resource (and local file) name: the logical name followed by
/// the compressed-table suffix.
pub open spec fn spec_file_name(t: TableId) -> Seq<char> {
    spec_table_name(t) + ".csv.gz"@
}

/// The remote resource name of a dataset.
pub fn file_name(t: TableId) -> (r: String)
    ensures
        r@ == spec_file_name(t),
{
    let mut out = str_to_string(table_name(t));
    out.append(".csv.gz");
    out
}

/// The order in which the catalog lists its datasets; fetch tasks are
/// spawned in this order.
pub open spec fn spec_catalog_order() -> Seq<TableId> {
    seq![
        TableId::Inventories,
        TableId::InventoryParts,
        TableId::InventoryMinifigs,
        TableId::InventorySets,
        TableId::Parts,
        TableId::PartCategories,
        TableId::PartRelationships,
        TableId::Elements,
        TableId::Colors,
        TableId::Minifigs,
        TableId::Sets,
        TableId::Themes,
    ]
}

/// The catalog order, as a vector.
pub fn catalog_order() -> (r: Vec<TableId>)
    ensures
        r@ == spec_catalog_order(),
{
    let r = vec![
        TableId::Inventories,
        TableId::InventoryParts,
        TableId::InventoryMinifigs,
        TableId::InventorySets,
        TableId::Parts,
        TableId::PartCategories,
        TableId::PartRelationships,
        TableId::Elements,
        TableId::Colors,
        TableId::Minifigs,
        TableId::Sets,
        TableId::Themes,
    ];
    proof {
        assert(r@ =~= spec_catalog_order());
    }
    r
}

/// The fixed dependency order in which tables are loaded: every parent
/// table is committed before any table whose constraints reference it.
pub open spec fn spec_load_order() -> Seq<TableId> {
    seq![
        TableId::Colors,
        TableId::PartCategories,
        TableId::Parts,
        TableId::PartRelationships,
        TableId::Elements,
        TableId::Minifigs,
        TableId::Themes,
        TableId::Sets,
        TableId::Inventories,
        TableId::InventoryParts,
        TableId::InventoryMinifigs,
        TableId::InventorySets,
    ]
}

/// The dependency order, as a vector.
pub fn load_order() -> (r: Vec<TableId>)
    ensures
        r@ == spec_load_order(),
{
    let r = vec![
        TableId::Colors,
        TableId::PartCategories,
        TableId::Parts,
        TableId::PartRelationships,
        TableId::Elements,
        TableId::Minifigs,
        TableId::Themes,
        TableId::Sets,
        TableId::Inventories,
        TableId::InventoryParts,
        TableId::InventoryMinifigs,
        TableId::InventorySets,
    ];
    proof {
        assert(r@ =~= spec_load_order());
    }
    r
}

/// No dataset appears twice in the load order; with every dataset covered,
/// the load order is a permutation of the catalog.
pub proof fn lemma_load_order_distinct(i: int, j: int)
    requires
        0 <= i < spec_load_order().len(),
        0 <= j < spec_load_order().len(),
        i != j,
    ensures
        spec_load_order()[i] != spec_load_order()[j],
{
}

/// Every dataset of the catalog appears in the load order.
pub proof fn lemma_load_order_covers(t: TableId)
    ensures
        spec_load_order().contains(t),
{
    let o = spec_load_order();
    match t {
        TableId::Inventories => {
            assert(o[8] == t);
        },
        TableId::InventoryParts => {
            assert(o[9] == t);
        },
        TableId::InventoryMinifigs => {
            assert(o[10] == t);
        },
        TableId::InventorySets => {
            assert(o[11] == t);
        },
        TableId::Parts => {
            assert(o[2] == t);
        },
        TableId::PartCategories => {
            assert(o[1] == t);
        },
        TableId::PartRelationships => {
            assert(o[3] == t);
        },
        TableId::Elements => {
            assert(o[4] == t);
        },
        TableId::Colors => {
            assert(o[0] == t);
        },
        TableId::Minifigs => {
            assert(o[5] == t);
        },
        TableId::Sets => {
            assert(o[7] == t);
        },
        TableId::Themes => {
            assert(o[6] == t);
        },
    }
}

} // verus!
