use std::io::Write;

use rbk_db::catalog::TableId;
use rbk_db::db::Database;
use rbk_db::record::{Color, SetRecord, Theme};

fn gz(text: &str) -> Vec<u8> {
    let mut enc = flate2::write::GzEncoder::new(Vec::new(), flate2::Compression::default());
    enc.write_all(text.as_bytes()).unwrap();
    enc.finish().unwrap()
}

fn db_path(dir: &tempfile::TempDir) -> String {
    dir.path().join("test.db").to_str().unwrap().to_string()
}

#[test]
fn init() {
    let dir = tempfile::tempdir().unwrap();
    let path = db_path(&dir);
    Database::open(&path).unwrap();
}

#[test]
fn theme_forward_references_load() {
    let dir = tempfile::tempdir().unwrap();
    let path = db_path(&dir);
    let mut db = Database::open(&path).unwrap();
    // The child rows come before the parent rows they reference.
    let themes = gz("id,name,parent_id\n3,Grandchild,2\n2,Child,1\n1,Root,\n");
    db.load_table::<Theme>(&themes).unwrap();
    drop(db);

    let conn = rusqlite::Connection::open(&path).unwrap();
    let count: i64 = conn
        .query_row("SELECT COUNT(*) FROM themes", [], |r| r.get(0))
        .unwrap();
    assert_eq!(count, 3);
    let dangling: i64 = conn
        .query_row(
            "SELECT COUNT(*) FROM themes WHERE parent_id IS NOT NULL AND parent_id NOT IN (SELECT id FROM themes)",
            [],
            |r| r.get(0),
        )
        .unwrap();
    assert_eq!(dangling, 0);
    let root_parent: Option<i64> = conn
        .query_row("SELECT parent_id FROM themes WHERE id = 1", [], |r| r.get(0))
        .unwrap();
    assert_eq!(root_parent, None);
    let child_parent: Option<i64> = conn
        .query_row("SELECT parent_id FROM themes WHERE id = 2", [], |r| r.get(0))
        .unwrap();
    assert_eq!(child_parent, Some(1));
}

#[test]
fn load_order_is_fixed() {
    let order = rbk_db::catalog::load_order();
    assert_eq!(
        order,
        vec![
            TableId::Colors,
            TableId::PartCategories,
            TableId::Parts,
            TableId::PartRelationships,
            TableId::Elements,
            TableId::Minifigs,
            TableId::Themes,
            TableId::Sets,
            TableId::Inventories,
            TableId::InventoryParts,
            TableId::InventoryMinifigs,
            TableId::InventorySets,
        ]
    );
}

#[test]
fn order_violation_trips_constraints() {
    let dir = tempfile::tempdir().unwrap();
    let path = db_path(&dir);
    let mut db = Database::open(&path).unwrap();
    // Loading sets before themes violates the reference constraint on the
    // theme key, so the dependency order is load-bearing.
    let sets = gz("set_num,name,year,theme_id,num_parts,img_url\n1234-1,Some Set,2020,1,100,\n");
    assert!(db.load_table::<SetRecord>(&sets).is_err());

    let themes = gz("id,name,parent_id\n1,Root,\n");
    db.load_table::<Theme>(&themes).unwrap();
    db.load_table::<SetRecord>(&sets).unwrap();
}

#[test]
fn failed_table_rolls_back_whole_transaction() {
    let dir = tempfile::tempdir().unwrap();
    let path = db_path(&dir);
    let mut db = Database::open(&path).unwrap();
    // The second row repeats the primary key, so the insert fails after the
    // first row was already inserted; the rollback must leave none.
    let colors = gz("id,name,rgb,is_trans\n1,Black,#000000,f\n1,White,#ffffff,f\n");
    assert!(db.load_table::<Color>(&colors).is_err());
    drop(db);

    let conn = rusqlite::Connection::open(&path).unwrap();
    let count: i64 = conn
        .query_row("SELECT COUNT(*) FROM colors", [], |r| r.get(0))
        .unwrap();
    assert_eq!(count, 0);
}

#[test]
fn bad_row_aborts_before_touching_store() {
    let dir = tempfile::tempdir().unwrap();
    let path = db_path(&dir);
    let mut db = Database::open(&path).unwrap();
    let colors = gz("id,name,rgb,is_trans\n1,Black,#000000,f\n2,White,#fffffg,f\n");
    assert!(db.load_table::<Color>(&colors).is_err());
    drop(db);

    let conn = rusqlite::Connection::open(&path).unwrap();
    let count: i64 = conn
        .query_row("SELECT COUNT(*) FROM colors", [], |r| r.get(0))
        .unwrap();
    assert_eq!(count, 0);
}

#[test]
fn unknown_column_fails_table() {
    let dir = tempfile::tempdir().unwrap();
    let path = db_path(&dir);
    let mut db = Database::open(&path).unwrap();
    let colors = gz("id,name,rgb,is_trans,extra\n1,Black,#000000,f,boo\n");
    assert!(db.load_table::<Color>(&colors).is_err());
}

#[test]
fn failed_load_keeps_committed_prefix() {
    let dir = tempfile::tempdir().unwrap();
    let path = db_path(&dir);
    let mut db = Database::open(&path).unwrap();

    // The themes file (seventh in the load order) is malformed; everything
    // before it must stay committed, everything after must stay untouched.
    let files: Vec<Vec<u8>> = vec![
        gz("id,name,rgb,is_trans
1,Black,#000000,f
"),
        gz("id,name
1,Bricks
"),
        gz("part_num,name,part_cat_id,part_material
3001,Brick 2x4,1,Plastic
"),
        gz("rel_type,child_part_num,parent_part_num
P,3001,3001
"),
        gz("element_id,part_num,color_id,design_id
300126,3001,1,
"),
        gz("fig_num,name,num_parts,img_url
fig-000001,Captain,5,
"),
        gz("id,name,parent_id
1,Root,not_a_number
"),
        gz("set_num,name,year,theme_id,num_parts,img_url
1234-1,Some Set,2020,1,100,
"),
        gz("id,version,set_num
1,1,1234-1
"),
        gz("inventory_id,part_num,color_id,quantity,is_spare,img_url
1,3001,1,4,f,
"),
        gz("inventory_id,fig_num,quantity
1,fig-000001,1
"),
        gz("inventory_id,set_num,quantity
1,1234-1,1
"),
    ];
    match db.load_all(&files) {
        Err(rbk_db::db::LoadError::Decode(table, _)) => assert_eq!(table, "themes"),
        other => panic!("expected a decode failure naming themes, got {:?}", other),
    }
    drop(db);

    let conn = rusqlite::Connection::open(&path).unwrap();
    for (table, expected) in [
        ("colors", 1i64),
        ("part_categories", 1),
        ("parts", 1),
        ("part_relationships", 1),
        ("elements", 1),
        ("minifigs", 1),
        ("themes", 0),
        ("sets", 0),
        ("inventories", 0),
    ] {
        let count: i64 = conn
            .query_row(&format!("SELECT COUNT(*) FROM {}", table), [], |r| r.get(0))
            .unwrap();
        assert_eq!(count, expected, "table {}", table);
    }
}

#[test]
fn store_failure_names_its_table() {
    let dir = tempfile::tempdir().unwrap();
    let path = db_path(&dir);
    let mut db = Database::open(&path).unwrap();
    let sets = gz("set_num,name,year,theme_id,num_parts,img_url
1234-1,Some Set,2020,1,100,
");
    match db.load_table::<SetRecord>(&sets) {
        Err(rbk_db::db::LoadError::Store(table, _)) => assert_eq!(table, "sets"),
        other => panic!("expected a store failure naming sets, got {:?}", other),
    }
}

#[test]
fn full_load_in_dependency_order() {
    let dir = tempfile::tempdir().unwrap();
    let path = db_path(&dir);
    let mut db = Database::open(&path).unwrap();

    let files: Vec<Vec<u8>> = vec![
        gz("id,name,rgb,is_trans\n1,Black,#000000,f\n"),
        gz("id,name\n1,Bricks\n"),
        gz("part_num,name,part_cat_id,part_material\n3001,Brick 2x4,1,Plastic\n"),
        gz("rel_type,child_part_num,parent_part_num\nP,3001,3001\n"),
        gz("element_id,part_num,color_id,design_id\n300126,3001,1,\n"),
        gz("fig_num,name,num_parts,img_url\nfig-000001,Captain,5,\n"),
        gz("id,name,parent_id\n2,Child,1\n1,Root,\n"),
        gz("set_num,name,year,theme_id,num_parts,img_url\n1234-1,Some Set,2020,1,100,https://example.com/s.png\n"),
        gz("id,version,set_num\n1,1,1234-1\n"),
        gz("inventory_id,part_num,color_id,quantity,is_spare,img_url\n1,3001,1,4,f,\n"),
        gz("inventory_id,fig_num,quantity\n1,fig-000001,1\n"),
        gz("inventory_id,set_num,quantity\n1,1234-1,1\n"),
    ];
    db.load_all(&files).unwrap();
    drop(db);

    let conn = rusqlite::Connection::open(&path).unwrap();
    for (table, expected) in [
        ("colors", 1i64),
        ("part_categories", 1),
        ("parts", 1),
        ("part_relationships", 1),
        ("elements", 1),
        ("minifigs", 1),
        ("themes", 2),
        ("sets", 1),
        ("inventories", 1),
        ("inventory_parts", 1),
        ("inventory_minifigs", 1),
        ("inventory_sets", 1),
    ] {
        let count: i64 = conn
            .query_row(&format!("SELECT COUNT(*) FROM {}", table), [], |r| r.get(0))
            .unwrap();
        assert_eq!(count, expected, "table {}", table);
    }
    let material: String = conn
        .query_row("SELECT part_material FROM parts WHERE part_num = '3001'", [], |r| {
            r.get(0)
        })
        .unwrap();
    assert_eq!(material, "plastic");
    let rel: String = conn
        .query_row("SELECT rel_type FROM part_relationships", [], |r| r.get(0))
        .unwrap();
    assert_eq!(rel, "print");
    let rgb: String = conn
        .query_row("SELECT rgb FROM colors WHERE id = 1", [], |r| r.get(0))
        .unwrap();
    assert_eq!(rgb, "#000000");
    // The staging column of the theme transaction is gone after the load.
    let tmp_cols: i64 = conn
        .query_row(
            "SELECT COUNT(*) FROM pragma_table_info('themes') WHERE name = 'tmp_parent_id'",
            [],
            |r| r.get(0),
        )
        .unwrap();
    assert_eq!(tmp_cols, 0);
}
