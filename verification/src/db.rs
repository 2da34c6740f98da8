//! The target store and the transactional loader. Every statement issued to
//! the store is mirrored in a ghost history of calls, so contracts can pin
//! down exactly which statements a load issues, with which parameters, in
//! which order.

use vstd::prelude::*;
use crate::catalog::{TableId, spec_load_order, spec_table_name, table_name};
use crate::record::{
    Color, DecodeError, Element, Inventory, InventoryMinifig, InventoryPart, InventorySet,
    Minifig, Part, PartCategory, PartRelationship, SetRecord, Theme, decode_color,
    decode_element, decode_inventory, decode_inventory_minifig, decode_inventory_part,
    decode_inventory_set, decode_minifig, decode_part, decode_part_category,
    decode_part_relationship, decode_set, decode_theme, spec_color_row_ok,
    spec_decode_bool, spec_decode_opt_i32, spec_decode_opt_url, spec_element_row_ok,
    spec_inventory_minifig_row_ok, spec_inventory_part_row_ok, spec_inventory_row_ok,
    spec_inventory_set_row_ok, spec_minifig_row_ok, spec_part_category_row_ok,
    spec_part_relationship_row_ok, spec_part_row_ok, spec_set_row_ok, spec_theme_row_ok,
    str_to_string,
};
use crate::types::{
    encode_part_material, encode_relation_type, spec_decode_material, spec_decode_relation,
    spec_encode_material, spec_encode_relation, spec_parse_i32, spec_parse_rgb, spec_rgb_text,
};
use crate::decode::{check_header, read_table_rows, spec_table_rows};

verus! {

/// The ghost-level value of one bound statement parameter.
pub enum SqlVal {
    Null,
    Int(i64),
    Text(Seq<char>),
}

/// One value bound to a statement parameter.
#[derive(Clone, Eq, PartialEq, Debug)]
pub enum SqlValue {
    Null,
    Int(i64),
    Text(String),
}

impl View for SqlValue {
    type V = SqlVal;

    open spec fn view(&self) -> SqlVal {
        match self {
            SqlValue::Null => SqlVal::Null,
            SqlValue::Int(v) => SqlVal::Int(*v),
            SqlValue::Text(s) => SqlVal::Text(s@),
        }
    }
}

impl DeepView for SqlValue {
    type V = SqlVal;

    open spec fn deep_view(&self) -> SqlVal {
        self.view()
    }
}

/// One statement issued to the store: its SQL text and its bound values.
pub struct Call {
    pub sql: Seq<char>,
    pub params: Seq<SqlVal>,
}

/// A store-side failure, carrying the store's message.
#[derive(Clone, Eq, PartialEq, Debug)]
pub struct StoreError {
    pub message: String,
}

/// A failure of a table load: either the stream did not decode, or the
/// store refused a statement. The first value names the dataset that
/// failed.
#[derive(Clone, Eq, PartialEq, Debug)]
pub enum LoadError {
    Decode(String, DecodeError),
    Store(String, StoreError),
}

/// The name of the dataset a load error belongs to.
pub open spec fn load_error_table(e: LoadError) -> Seq<char> {
    match e {
        LoadError::Decode(t, _) => t@,
        LoadError::Store(t, _) => t@,
    }
}

/// A record type that can be bulk-loaded into its table: its declared
/// schema, its row decoder, its insert statement with per-record parameter
/// bindings, and the hooks that run inside the table's transaction.
pub trait Insertable: Sized {
    /// The dataset this record type belongs to.
    spec fn spec_table() -> TableId;

    /// The declared field names of the dataset, in order.
    spec fn spec_schema() -> Seq<Seq<char>>;

    /// Whether a raw row decodes into a record.
    spec fn spec_row_ok(row: Seq<Seq<char>>) -> bool;

    /// Whether `rec` is the record that `row` decodes to.
    spec fn spec_of(row: Seq<Seq<char>>, rec: Self) -> bool;

    /// The parameter values this record binds to the insert statement.
    spec fn spec_params(&self) -> Seq<SqlVal>;

    /// The same parameter values, as a function of the raw row text.
    spec fn spec_row_params(row: Seq<Seq<char>>) -> Seq<SqlVal>;

    /// The insert statement for this table.
    spec fn spec_insert_sql() -> Seq<char>;

    /// The statement run inside the transaction before the inserts, if any.
    spec fn spec_pre_sql() -> Option<Seq<char>>;

    /// The statements run inside the transaction after the inserts.
    spec fn spec_post_sql() -> Seq<Seq<char>>;

    fn table() -> (t: TableId)
        ensures
            t == Self::spec_table(),
    ;

    fn schema() -> (r: Vec<&'static str>)
        ensures
            r.deep_view() == Self::spec_schema(),
    ;

    fn decode_row(row: &Vec<String>) -> (r: Result<Self, DecodeError>)
        ensures
            r is Ok <==> Self::spec_row_ok(row.deep_view()),
            r matches Ok(rec) ==> Self::spec_of(row.deep_view(), rec),
    ;

    fn insert_sql() -> (r: &'static str)
        ensures
            r@ == Self::spec_insert_sql(),
    ;

    fn pre_sql() -> (r: Option<&'static str>)
        ensures
            match r {
                Some(s) => Self::spec_pre_sql() == Some(s@),
                None => Self::spec_pre_sql() is None,
            },
    ;

    fn post_sql() -> (r: Vec<&'static str>)
        ensures
            r.deep_view() == Self::spec_post_sql(),
    ;

    fn row_params(&self) -> (r: Vec<SqlValue>)
        ensures
            r.deep_view() == self.spec_params(),
    ;

    /// A decoded record binds exactly the values determined by its row.
    proof fn lemma_row_params(row: Seq<Seq<char>>, rec: Self)
        requires
            Self::spec_row_ok(row),
            Self::spec_of(row, rec),
        ensures
            rec.spec_params() == Self::spec_row_params(row),
    ;
}

/// Decodes every raw row of one table, failing on the first bad row, so
/// that nothing is handed to the store unless the whole table decodes.
pub fn decode_rows<R: Insertable>(rows: &Vec<Vec<String>>) -> (r: Result<Vec<R>, DecodeError>)
    ensures
        r is Ok <==> (forall|i: int|
            0 <= i < rows.deep_view().len() ==> R::spec_row_ok(rows.deep_view()[i])),
        r matches Ok(v) ==> ({
            &&& v@.len() == rows.deep_view().len()
            &&& forall|i: int|
                0 <= i < v@.len() ==> R::spec_of(rows.deep_view()[i], v@[i])
        }),
{
    let n = rows.len();
    let mut out: Vec<R> = Vec::new();
    let mut i: usize = 0;
    while i < n
        invariant
            n == rows@.len(),
            i <= n,
            out@.len() == i,
            forall|j: int| 0 <= j < i ==> R::spec_row_ok(rows.deep_view()[j]),
            forall|j: int| 0 <= j < i ==> R::spec_of(rows.deep_view()[j], out@[j]),
        decreases n - i,
    {
        proof {
            assert(rows.deep_view()[i as int] == rows@[i as int].deep_view());
        }
        match R::decode_row(&rows[i]) {
            Ok(rec) => {
                out.push(rec);
            },
            Err(e) => {
                proof {
                    assert(!R::spec_row_ok(rows.deep_view()[i as int]));
                }
                return Err(e);
            },
        }
        i = i + 1;
    }
    Ok(out)
}

/// Decodes every raw row of one table independently: one judgement per
/// row, so one bad row neither hides nor corrupts the judgement of any
/// later row; the caller decides whether to abort or continue.
pub fn decode_rows_each<R: Insertable>(rows: &Vec<Vec<String>>) -> (r: Vec<
    Result<R, DecodeError>,
>)
    ensures
        r@.len() == rows.deep_view().len(),
        forall|i: int|
            0 <= i < r@.len() ==> (r@[i] is Ok <==> R::spec_row_ok(rows.deep_view()[i])),
        forall|i: int|
            0 <= i < r@.len() ==> ((#[trigger] r@[i]) matches Ok(rec) ==> R::spec_of(
                rows.deep_view()[i],
                rec,
            )),
{
    let n = rows.len();
    let mut out: Vec<Result<R, DecodeError>> = Vec::new();
    let mut i: usize = 0;
    while i < n
        invariant
            n == rows@.len(),
            i <= n,
            out@.len() == i,
            forall|j: int| 0 <= j < i ==> (out@[j] is Ok <==> R::spec_row_ok(
                rows.deep_view()[j],
            )),
            forall|j: int| 0 <= j < i ==> ((#[trigger] out@[j]) matches Ok(rec) ==> R::spec_of(
                rows.deep_view()[j],
                rec,
            )),
        decreases n - i,
    {
        proof {
            assert(rows.deep_view()[i as int] == rows@[i as int].deep_view());
        }
        out.push(R::decode_row(&rows[i]));
        i = i + 1;
    }
    out
}

/// The inserts of a script, one per record.
pub open spec fn spec_insert_calls<R: Insertable>(recs: Seq<R>) -> Seq<Call> {
    Seq::new(recs.len(), |i: int| Call { sql: R::spec_insert_sql(), params: recs[i].spec_params() })
}

/// The inserts of a script, as a function of the raw rows.
pub open spec fn spec_row_calls<R: Insertable>(rows: Seq<Seq<Seq<char>>>) -> Seq<Call> {
    Seq::new(
        rows.len(),
        |i: int| Call { sql: R::spec_insert_sql(), params: R::spec_row_params(rows[i]) },
    )
}

/// The pre-hook statement of a table's transaction, if any.
pub open spec fn spec_pre_calls<R: Insertable>() -> Seq<Call> {
    match R::spec_pre_sql() {
        Some(s) => seq![Call { sql: s, params: Seq::empty() }],
        None => Seq::empty(),
    }
}

/// The post-hook statements of a table's transaction.
pub open spec fn spec_post_calls<R: Insertable>() -> Seq<Call> {
    Seq::new(
        R::spec_post_sql().len(),
        |i: int| Call { sql: R::spec_post_sql()[i], params: Seq::empty() },
    )
}

/// One table's whole transaction: begin, the pre-hook, the given inserts,
/// the post-hooks, commit.
pub open spec fn spec_script_frame<R: Insertable>(inserts: Seq<Call>) -> Seq<Call> {
    seq![Call { sql: "BEGIN"@, params: Seq::empty() }] + spec_pre_calls::<R>() + inserts
        + spec_post_calls::<R>() + seq![Call { sql: "COMMIT"@, params: Seq::empty() }]
}

/// The statements that inserting the given records issues.
pub open spec fn spec_insert_script<R: Insertable>(recs: Seq<R>) -> Seq<Call> {
    spec_script_frame::<R>(spec_insert_calls::<R>(recs))
}

/// The statements that loading one fetched table stream issues, or `None`
/// where the stream does not fully decode against the declared schema.
pub open spec fn spec_table_script<R: Insertable>(bytes: Seq<u8>) -> Option<Seq<Call>> {
    match spec_table_rows(bytes) {
        Some(hr) => {
            if hr.0 == R::spec_schema() && (forall|i: int|
                0 <= i < hr.1.len() ==> R::spec_row_ok(hr.1[i])) {
                Some(spec_script_frame::<R>(spec_row_calls::<R>(hr.1)))
            } else {
                None
            }
        },
        None => None,
    }
}

/// Whether `h` extends `h0` by an aborted transaction for the given
/// script: either the opening `BEGIN` alone (its own failure, nothing else
/// issued), or a prefix of the script followed directly by a `ROLLBACK`.
/// The history records issued statements, so a trailing `COMMIT` inside
/// such a prefix is one the store refused; no shape with a successful
/// commit of part of the script is admitted.
pub open spec fn spec_aborted(h0: Seq<Call>, h: Seq<Call>, script: Seq<Call>) -> bool {
    ||| h == h0 + seq![Call { sql: "BEGIN"@, params: Seq::empty() }]
    ||| exists|k: int|
        0 <= k <= script.len() && h == h0 + script.subrange(0, k) + seq![
            Call { sql: "ROLLBACK"@, params: Seq::empty() },
        ]
}

/// The statements that loading the dataset at position `i` of the load
/// order issues from its file, or `None` where that stream does not
/// decode.
pub open spec fn spec_script_at(files: Seq<Seq<u8>>, i: int) -> Option<Seq<Call>> {
    if i == 0 {
        spec_table_script::<Color>(files[0])
    } else if i == 1 {
        spec_table_script::<PartCategory>(files[1])
    } else if i == 2 {
        spec_table_script::<Part>(files[2])
    } else if i == 3 {
        spec_table_script::<PartRelationship>(files[3])
    } else if i == 4 {
        spec_table_script::<Element>(files[4])
    } else if i == 5 {
        spec_table_script::<Minifig>(files[5])
    } else if i == 6 {
        spec_table_script::<Theme>(files[6])
    } else if i == 7 {
        spec_table_script::<SetRecord>(files[7])
    } else if i == 8 {
        spec_table_script::<Inventory>(files[8])
    } else if i == 9 {
        spec_table_script::<InventoryPart>(files[9])
    } else if i == 10 {
        spec_table_script::<InventoryMinifig>(files[10])
    } else {
        spec_table_script::<InventorySet>(files[11])
    }
}

/// The concatenation of the scripts of the first `k` datasets of the load
/// order.
pub open spec fn spec_scripts_prefix(files: Seq<Seq<u8>>, k: int) -> Seq<Call>
    decreases k,
{
    if k <= 0 {
        Seq::empty()
    } else {
        spec_scripts_prefix(files, k - 1) + (match spec_script_at(files, k - 1) {
            Some(s) => s,
            None => Seq::empty(),
        })
    }
}

/// How a failed load left the store: the `k` datasets before the failing
/// one fully loaded in the fixed order, the error naming the failing
/// dataset, and that dataset either never touched the store (a decode
/// failure) or left an aborted transaction; nothing after it was issued.
pub open spec fn spec_load_failed_at(
    h0: Seq<Call>,
    h: Seq<Call>,
    files: Seq<Seq<u8>>,
    e: LoadError,
    k: int,
) -> bool {
    &&& 0 <= k < spec_load_order().len()
    &&& (forall|i: int| 0 <= i < k ==> spec_script_at(files, i) is Some)
    &&& load_error_table(e) == spec_table_name(spec_load_order()[k])
    &&& ({
        ||| (spec_script_at(files, k) is None && e is Decode && h == h0 + spec_scripts_prefix(
            files,
            k,
        ))
        ||| (spec_script_at(files, k) matches Some(s) && e is Store && spec_aborted(
            h0 + spec_scripts_prefix(files, k),
            h,
            s,
        ))
    })
}

/// The relational store, with the ghost history of issued statements.
pub struct Database {
    conn: rusqlite::Connection,
    history: Ghost<Seq<Call>>,
}

#[verifier::external_type_specification]
#[verifier::external_body]
pub struct ExConnection(rusqlite::Connection);

/// The schema the loader targets: one relation per dataset, keyed by its
/// natural key, with reference constraints enforced, and the theme relation
/// declaring a nullable self-reference.
pub open spec fn spec_schema_sql() -> Seq<char> {
    SCHEMA_SQL@
}

pub const SCHEMA_SQL: &'static str =
    "PRAGMA foreign_keys = ON;\nCREATE TABLE IF NOT EXISTS colors (id INTEGER PRIMARY KEY, name TEXT NOT NULL, rgb TEXT NOT NULL, is_trans INTEGER NOT NULL);\nCREATE TABLE IF NOT EXISTS part_categories (id INTEGER PRIMARY KEY, name TEXT NOT NULL);\nCREATE TABLE IF NOT EXISTS parts (part_num TEXT PRIMARY KEY, name TEXT NOT NULL, part_cat_id INTEGER NOT NULL REFERENCES part_categories(id), part_material TEXT NOT NULL);\nCREATE TABLE IF NOT EXISTS part_relationships (rel_type TEXT NOT NULL, child_part_num TEXT NOT NULL REFERENCES parts(part_num), parent_part_num TEXT NOT NULL REFERENCES parts(part_num));\nCREATE TABLE IF NOT EXISTS elements (element_id TEXT PRIMARY KEY, part_num TEXT NOT NULL REFERENCES parts(part_num), color_id INTEGER NOT NULL REFERENCES colors(id));\nCREATE TABLE IF NOT EXISTS minifigs (fig_num TEXT PRIMARY KEY, name TEXT NOT NULL, num_parts INTEGER NOT NULL, img_url TEXT);\nCREATE TABLE IF NOT EXISTS themes (id INTEGER PRIMARY KEY, name TEXT NOT NULL, parent_id INTEGER REFERENCES themes(id));\nCREATE TABLE IF NOT EXISTS sets (set_num TEXT PRIMARY KEY, name TEXT NOT NULL, year INTEGER NOT NULL, theme_id INTEGER NOT NULL REFERENCES themes(id), num_parts INTEGER NOT NULL, img_url TEXT);\nCREATE TABLE IF NOT EXISTS inventories (id INTEGER PRIMARY KEY, version INTEGER NOT NULL, set_num TEXT NOT NULL REFERENCES sets(set_num));\nCREATE TABLE IF NOT EXISTS inventory_parts (inventory_id INTEGER NOT NULL REFERENCES inventories(id), part_num TEXT NOT NULL REFERENCES parts(part_num), color_id INTEGER NOT NULL REFERENCES colors(id), quantity INTEGER NOT NULL, is_spare INTEGER NOT NULL, img_url TEXT);\nCREATE TABLE IF NOT EXISTS inventory_minifigs (inventory_id INTEGER NOT NULL REFERENCES inventories(id), fig_num TEXT NOT NULL REFERENCES minifigs(fig_num), quantity INTEGER NOT NULL);\nCREATE TABLE IF NOT EXISTS inventory_sets (inventory_id INTEGER NOT NULL REFERENCES inventories(id), set_num TEXT NOT NULL, quantity INTEGER NOT NULL);";

impl Database {
    /// The statements issued to the store so far, in order.
    pub closed spec fn hist(&self) -> Seq<Call> {
        self.history@
    }

    /// Relies on rusqlite::Connection::open: opens, creating if absent, a
    /// database file at the given path.
    #[verifier::external_body]
    fn open_conn(path: &str) -> (r: Result<rusqlite::Connection, StoreError>)
    {
        match rusqlite::Connection::open(path) {
            Ok(conn) => Ok(conn),
            Err(e) => Err(StoreError { message: e.to_string() }),
        }
    }

    /// Relies on rusqlite::Connection::execute_batch: runs the given SQL
    /// statements, which take no parameters.
    #[verifier::external_body]
    fn exec_sql(&mut self, sql: &str) -> (r: Result<(), StoreError>)
        ensures
            final(self).hist() == old(self).hist().push(
                Call { sql: sql@, params: Seq::empty() },
            ),
    {
        match self.conn.execute_batch(sql) {
            Ok(()) => Ok(()),
            Err(e) => Err(StoreError { message: e.to_string() }),
        }
    }

    /// Relies on rusqlite::Connection::execute and params_from_iter: runs
    /// one SQL statement with the given values bound in order.
    #[verifier::external_body]
    fn exec_params(&mut self, sql: &str, params: &Vec<SqlValue>) -> (r: Result<(), StoreError>)
        ensures
            final(self).hist() == old(self).hist().push(
                Call { sql: sql@, params: params.deep_view() },
            ),
    {
        let vals = params.iter().map(|p| match p {
            SqlValue::Null => rusqlite::types::Value::Null,
            SqlValue::Int(v) => rusqlite::types::Value::Integer(*v),
            SqlValue::Text(s) => rusqlite::types::Value::Text(s.clone()),
        });
        match self.conn.execute(sql, rusqlite::params_from_iter(vals)) {
            Ok(_) => Ok(()),
            Err(e) => Err(StoreError { message: e.to_string() }),
        }
    }

    /// Opens the store at the given path and brings it to the expected
    /// schema, with reference constraints enforced.
    pub fn open(path: &str) -> (r: Result<Database, StoreError>)
        ensures
            r matches Ok(db) ==> db.hist() == seq![
                Call { sql: spec_schema_sql(), params: Seq::empty() },
            ],
    {
        let conn = Self::open_conn(path)?;
        let mut db = Database { conn, history: Ghost(Seq::empty()) };
        match db.exec_sql(schema_sql()) {
            Ok(()) => Ok(db),
            Err(e) => Err(e),
        }
    }

    /// Inserts every record into its table inside one transaction, in the
    /// given order, with the table's hooks around the inserts; on any
    /// failure the transaction is rolled back and nothing later runs.
    pub fn insert_many<R: Insertable>(&mut self, rows: &Vec<R>) -> (r: Result<(), StoreError>)
        ensures
            r is Ok ==> final(self).hist() == old(self).hist() + spec_insert_script::<R>(rows@),
            r is Err ==> spec_aborted(
                old(self).hist(),
                final(self).hist(),
                spec_insert_script::<R>(rows@),
            ),
    {
        match self.exec_sql("BEGIN") {
            Ok(()) => {},
            Err(e) => {
                proof {
                    assert(self.hist() =~= old(self).hist() + seq![
                        Call { sql: "BEGIN"@, params: Seq::<SqlVal>::empty() },
                    ]);
                }
                return Err(e);
            },
        }
        match R::pre_sql() {
            Some(pre) => {
                match self.exec_sql(pre) {
                    Ok(()) => {},
                    Err(e) => {
                        let _ = self.exec_sql("ROLLBACK");
                        proof {
                            let script = spec_insert_script::<R>(rows@);
                            assert(script.subrange(0, 2) =~= seq![
                                Call { sql: "BEGIN"@, params: Seq::<SqlVal>::empty() },
                                Call { sql: pre@, params: Seq::<SqlVal>::empty() },
                            ]);
                            assert(self.hist() =~= old(self).hist() + script.subrange(0, 2)
                                + seq![Call { sql: "ROLLBACK"@, params: Seq::<SqlVal>::empty() }]);
                        }
                        return Err(e);
                    },
                }
            },
            None => {},
        }
        proof {
            assert(self.hist() =~= old(self).hist() + seq![
                Call { sql: "BEGIN"@, params: Seq::<SqlVal>::empty() },
            ] + spec_pre_calls::<R>());
        }
        let sql = R::insert_sql();
        let n = rows.len();
        let mut i: usize = 0;
        while i < n
            invariant
                n == rows@.len(),
                i <= n,
                sql@ == R::spec_insert_sql(),
                self.hist() == old(self).hist() + seq![
                    Call { sql: "BEGIN"@, params: Seq::<SqlVal>::empty() },
                ] + spec_pre_calls::<R>() + spec_insert_calls::<R>(rows@.subrange(0, i as int)),
            decreases n - i,
        {
            let params = rows[i].row_params();
            match self.exec_params(sql, &params) {
                Ok(()) => {},
                Err(e) => {
                    let _ = self.exec_sql("ROLLBACK");
                    proof {
                        let script = spec_insert_script::<R>(rows@);
                        let k = 1 + spec_pre_calls::<R>().len() + i + 1;
                        assert(spec_insert_calls::<R>(rows@).subrange(0, i + 1)
                            =~= spec_insert_calls::<R>(rows@.subrange(0, i as int)).push(
                                Call { sql: sql@, params: params.deep_view() },
                            ));
                        assert(script.subrange(0, k as int) =~= seq![
                            Call { sql: "BEGIN"@, params: Seq::<SqlVal>::empty() },
                        ] + spec_pre_calls::<R>() + spec_insert_calls::<R>(rows@).subrange(
                            0,
                            i + 1,
                        ));
                        assert(self.hist() =~= old(self).hist() + script.subrange(0, k as int)
                            + seq![Call { sql: "ROLLBACK"@, params: Seq::<SqlVal>::empty() }]);
                    }
                    return Err(e);
                },
            }
            proof {
                assert(spec_insert_calls::<R>(rows@.subrange(0, i + 1 as int))
                    =~= spec_insert_calls::<R>(rows@.subrange(0, i as int)).push(
                        Call { sql: sql@, params: params.deep_view() },
                    ));
                assert(self.hist() =~= old(self).hist() + seq![
                    Call { sql: "BEGIN"@, params: Seq::<SqlVal>::empty() },
                ] + spec_pre_calls::<R>() + spec_insert_calls::<R>(
                    rows@.subrange(0, i + 1 as int),
                ));
            }
            i = i + 1;
        }
        proof {
            assert(rows@.subrange(0, n as int) =~= rows@);
        }
        let posts = R::post_sql();
        let m = posts.len();
        let mut j: usize = 0;
        while j < m
            invariant
                m == posts@.len(),
                j <= m,
                posts.deep_view() == R::spec_post_sql(),
                self.hist() == old(self).hist() + seq![
                    Call { sql: "BEGIN"@, params: Seq::<SqlVal>::empty() },
                ] + spec_pre_calls::<R>() + spec_insert_calls::<R>(rows@)
                    + spec_post_calls::<R>().subrange(0, j as int),
            decreases m - j,
        {
            match self.exec_sql(posts[j]) {
                Ok(()) => {},
                Err(e) => {
                    let _ = self.exec_sql("ROLLBACK");
                    proof {
                        let script = spec_insert_script::<R>(rows@);
                        let k = 1 + spec_pre_calls::<R>().len() + rows@.len() + j + 1;
                        assert(posts@[j as int]@ == R::spec_post_sql()[j as int]);
                        assert(spec_post_calls::<R>().subrange(0, j + 1)
                            =~= spec_post_calls::<R>().subrange(0, j as int).push(
                                Call { sql: posts@[j as int]@, params: Seq::<SqlVal>::empty() },
                            ));
                        assert(script.subrange(0, k as int) =~= seq![
                            Call { sql: "BEGIN"@, params: Seq::<SqlVal>::empty() },
                        ] + spec_pre_calls::<R>() + spec_insert_calls::<R>(rows@)
                            + spec_post_calls::<R>().subrange(0, j + 1));
                        assert(self.hist() =~= old(self).hist() + script.subrange(0, k as int)
                            + seq![Call { sql: "ROLLBACK"@, params: Seq::<SqlVal>::empty() }]);
                    }
                    return Err(e);
                },
            }
            proof {
                assert(posts@[j as int]@ == R::spec_post_sql()[j as int]);
                assert(spec_post_calls::<R>().subrange(0, j + 1 as int)
                    =~= spec_post_calls::<R>().subrange(0, j as int).push(
                        Call { sql: posts@[j as int]@, params: Seq::<SqlVal>::empty() },
                    ));
                assert(self.hist() =~= old(self).hist() + seq![
                    Call { sql: "BEGIN"@, params: Seq::<SqlVal>::empty() },
                ] + spec_pre_calls::<R>() + spec_insert_calls::<R>(rows@)
                    + spec_post_calls::<R>().subrange(0, j + 1 as int));
            }
            j = j + 1;
        }
        proof {
            assert(spec_post_calls::<R>().subrange(0, m as int) =~= spec_post_calls::<R>());
        }
        match self.exec_sql("COMMIT") {
            Ok(()) => {},
            Err(e) => {
                let _ = self.exec_sql("ROLLBACK");
                proof {
                    let script = spec_insert_script::<R>(rows@);
                    assert(script.subrange(0, script.len() as int) =~= script);
                    assert(self.hist() =~= old(self).hist() + script.subrange(
                        0,
                        script.len() as int,
                    ) + seq![Call { sql: "ROLLBACK"@, params: Seq::<SqlVal>::empty() }]);
                }
                return Err(e);
            },
        }
        proof {
            assert(self.hist() =~= old(self).hist() + spec_insert_script::<R>(rows@));
        }
        Ok(())
    }

    /// Loads one fetched table stream: decodes it fully — failing with the
    /// store untouched if any row is bad — then inserts every record, in
    /// decode order, inside one transaction that commits whole or is
    /// rolled back. Errors name the dataset.
    pub fn load_table<R: Insertable>(&mut self, bytes: &Vec<u8>) -> (r: Result<(), LoadError>)
        ensures
            r is Ok ==> (spec_table_script::<R>(bytes@) matches Some(s) && final(self).hist()
                == old(self).hist() + s),
            spec_table_script::<R>(bytes@) is None ==> (r matches Err(e) && e is Decode
                && final(self).hist() == old(self).hist()),
            r matches Err(e) ==> ((e is Decode <==> spec_table_script::<R>(bytes@) is None)
                && load_error_table(e) == spec_table_name(R::spec_table())),
            (r matches Err(e) && e is Store) ==> (spec_table_script::<R>(bytes@) matches Some(
                s,
            ) && spec_aborted(old(self).hist(), final(self).hist(), s)),
    {
        let tname = table_name(R::table());
        let parsed = match read_table_rows(bytes) {
            Some(p) => p,
            None => {
                return Err(
                    LoadError::Decode(
                        str_to_string(tname),
                        DecodeError {
                            field: str_to_string("table stream"),
                            value: str_to_string("not a valid compressed table"),
                        },
                    ),
                );
            },
        };
        let (header, rows) = parsed;
        let schema = R::schema();
        if !check_header(&header, &schema) {
            return Err(
                LoadError::Decode(
                    str_to_string(tname),
                    DecodeError {
                        field: str_to_string("header"),
                        value: str_to_string("does not match the declared schema"),
                    },
                ),
            );
        }
        let recs: Vec<R> = match decode_rows::<R>(&rows) {
            Ok(v) => v,
            Err(e) => {
                return Err(LoadError::Decode(str_to_string(tname), e));
            },
        };
        proof {
            let hr = spec_table_rows(bytes@).unwrap();
            assert forall|i: int| 0 <= i < hr.1.len() implies R::spec_row_ok(hr.1[i]) by {
                assert(hr.1[i] == rows.deep_view()[i]);
            }
            assert forall|i: int| 0 <= i < recs@.len() implies recs@[i].spec_params()
                == R::spec_row_params(hr.1[i]) by {
                assert(hr.1[i] == rows.deep_view()[i]);
                R::lemma_row_params(rows.deep_view()[i], recs@[i]);
            }
            assert(spec_insert_calls::<R>(recs@) =~= spec_row_calls::<R>(hr.1));
        }
        match self.insert_many::<R>(&recs) {
            Ok(()) => Ok(()),
            Err(e) => Err(LoadError::Store(str_to_string(tname), e)),
        }
    }

    /// Loads every fetched dataset, one table at a time, in the fixed
    /// dependency order. On failure the committed tables are exactly a
    /// prefix of that order, the failing table's transaction was aborted,
    /// and later tables are never touched; the error names the failing
    /// dataset.
    ///
    /// `files[i]` holds the fetched bytes of the dataset at position `i` of
    /// the load order.
    #[verifier::rlimit(100)]
    pub fn load_all(&mut self, files: &Vec<Vec<u8>>) -> (r: Result<(), LoadError>)
        requires
            files@.len() == spec_load_order().len(),
        ensures
            r is Ok ==> ((forall|i: int|
                0 <= i < spec_load_order().len() ==> spec_script_at(
                    files.deep_view(),
                    i,
                ) is Some) && final(self).hist() == old(self).hist() + spec_scripts_prefix(
                files.deep_view(),
                spec_load_order().len() as int,
            )),
            r matches Err(e) ==> (exists|k: int|
                spec_load_failed_at(
                    old(self).hist(),
                    final(self).hist(),
                    files.deep_view(),
                    e,
                    k,
                )),
    {
        let ghost f = files.deep_view();
        proof {
            assert forall|j: int| 0 <= j < 12 implies f[j] == files@[j]@ by {
                assert(files@[j].deep_view() =~= files@[j]@);
            }
            assert(old(self).hist() + spec_scripts_prefix(f, 0) =~= old(self).hist());
        }
        match self.load_table::<Color>(&files[0]) {
            Ok(()) => {
                proof {
                    let s = spec_table_script::<Color>(f[0]).unwrap();
                    assert(spec_script_at(f, 0) is Some);
                    assert(spec_scripts_prefix(f, 1) =~= spec_scripts_prefix(f, 0) + s);
                    assert(self.hist() =~= old(self).hist() + spec_scripts_prefix(f, 1));
                }
            },
            Err(e) => {
                proof {
                    assert(Color::spec_table() == spec_load_order()[0]);
                    assert(spec_load_failed_at(old(self).hist(), self.hist(), f, e, 0));
                }
                return Err(e);
            },
        }
        match self.load_table::<PartCategory>(&files[1]) {
            Ok(()) => {
                proof {
                    let s = spec_table_script::<PartCategory>(f[1]).unwrap();
                    assert(spec_script_at(f, 1) is Some);
                    assert(spec_scripts_prefix(f, 2) =~= spec_scripts_prefix(f, 1) + s);
                    assert(self.hist() =~= old(self).hist() + spec_scripts_prefix(f, 2));
                }
            },
            Err(e) => {
                proof {
                    assert(PartCategory::spec_table() == spec_load_order()[1]);
                    assert(spec_load_failed_at(old(self).hist(), self.hist(), f, e, 1));
                }
                return Err(e);
            },
        }
        match self.load_table::<Part>(&files[2]) {
            Ok(()) => {
                proof {
                    let s = spec_table_script::<Part>(f[2]).unwrap();
                    assert(spec_script_at(f, 2) is Some);
                    assert(spec_scripts_prefix(f, 3) =~= spec_scripts_prefix(f, 2) + s);
                    assert(self.hist() =~= old(self).hist() + spec_scripts_prefix(f, 3));
                }
            },
            Err(e) => {
                proof {
                    assert(Part::spec_table() == spec_load_order()[2]);
                    assert(spec_load_failed_at(old(self).hist(), self.hist(), f, e, 2));
                }
                return Err(e);
            },
        }
        match self.load_table::<PartRelationship>(&files[3]) {
            Ok(()) => {
                proof {
                    let s = spec_table_script::<PartRelationship>(f[3]).unwrap();
                    assert(spec_script_at(f, 3) is Some);
                    assert(spec_scripts_prefix(f, 4) =~= spec_scripts_prefix(f, 3) + s);
                    assert(self.hist() =~= old(self).hist() + spec_scripts_prefix(f, 4));
                }
            },
            Err(e) => {
                proof {
                    assert(PartRelationship::spec_table() == spec_load_order()[3]);
                    assert(spec_load_failed_at(old(self).hist(), self.hist(), f, e, 3));
                }
                return Err(e);
            },
        }
        match self.load_table::<Element>(&files[4]) {
            Ok(()) => {
                proof {
                    let s = spec_table_script::<Element>(f[4]).unwrap();
                    assert(spec_script_at(f, 4) is Some);
                    assert(spec_scripts_prefix(f, 5) =~= spec_scripts_prefix(f, 4) + s);
                    assert(self.hist() =~= old(self).hist() + spec_scripts_prefix(f, 5));
                }
            },
            Err(e) => {
                proof {
                    assert(Element::spec_table() == spec_load_order()[4]);
                    assert(spec_load_failed_at(old(self).hist(), self.hist(), f, e, 4));
                }
                return Err(e);
            },
        }
        match self.load_table::<Minifig>(&files[5]) {
            Ok(()) => {
                proof {
                    let s = spec_table_script::<Minifig>(f[5]).unwrap();
                    assert(spec_script_at(f, 5) is Some);
                    assert(spec_scripts_prefix(f, 6) =~= spec_scripts_prefix(f, 5) + s);
                    assert(self.hist() =~= old(self).hist() + spec_scripts_prefix(f, 6));
                }
            },
            Err(e) => {
                proof {
                    assert(Minifig::spec_table() == spec_load_order()[5]);
                    assert(spec_load_failed_at(old(self).hist(), self.hist(), f, e, 5));
                }
                return Err(e);
            },
        }
        match self.load_table::<Theme>(&files[6]) {
            Ok(()) => {
                proof {
                    let s = spec_table_script::<Theme>(f[6]).unwrap();
                    assert(spec_script_at(f, 6) is Some);
                    assert(spec_scripts_prefix(f, 7) =~= spec_scripts_prefix(f, 6) + s);
                    assert(self.hist() =~= old(self).hist() + spec_scripts_prefix(f, 7));
                }
            },
            Err(e) => {
                proof {
                    assert(Theme::spec_table() == spec_load_order()[6]);
                    assert(spec_load_failed_at(old(self).hist(), self.hist(), f, e, 6));
                }
                return Err(e);
            },
        }
        match self.load_table::<SetRecord>(&files[7]) {
            Ok(()) => {
                proof {
                    let s = spec_table_script::<SetRecord>(f[7]).unwrap();
                    assert(spec_script_at(f, 7) is Some);
                    assert(spec_scripts_prefix(f, 8) =~= spec_scripts_prefix(f, 7) + s);
                    assert(self.hist() =~= old(self).hist() + spec_scripts_prefix(f, 8));
                }
            },
            Err(e) => {
                proof {
                    assert(SetRecord::spec_table() == spec_load_order()[7]);
                    assert(spec_load_failed_at(old(self).hist(), self.hist(), f, e, 7));
                }
                return Err(e);
            },
        }
        match self.load_table::<Inventory>(&files[8]) {
            Ok(()) => {
                proof {
                    let s = spec_table_script::<Inventory>(f[8]).unwrap();
                    assert(spec_script_at(f, 8) is Some);
                    assert(spec_scripts_prefix(f, 9) =~= spec_scripts_prefix(f, 8) + s);
                    assert(self.hist() =~= old(self).hist() + spec_scripts_prefix(f, 9));
                }
            },
            Err(e) => {
                proof {
                    assert(Inventory::spec_table() == spec_load_order()[8]);
                    assert(spec_load_failed_at(old(self).hist(), self.hist(), f, e, 8));
                }
                return Err(e);
            },
        }
        match self.load_table::<InventoryPart>(&files[9]) {
            Ok(()) => {
                proof {
                    let s = spec_table_script::<InventoryPart>(f[9]).unwrap();
                    assert(spec_script_at(f, 9) is Some);
                    assert(spec_scripts_prefix(f, 10) =~= spec_scripts_prefix(f, 9) + s);
                    assert(self.hist() =~= old(self).hist() + spec_scripts_prefix(f, 10));
                }
            },
            Err(e) => {
                proof {
                    assert(InventoryPart::spec_table() == spec_load_order()[9]);
                    assert(spec_load_failed_at(old(self).hist(), self.hist(), f, e, 9));
                }
                return Err(e);
            },
        }
        match self.load_table::<InventoryMinifig>(&files[10]) {
            Ok(()) => {
                proof {
                    let s = spec_table_script::<InventoryMinifig>(f[10]).unwrap();
                    assert(spec_script_at(f, 10) is Some);
                    assert(spec_scripts_prefix(f, 11) =~= spec_scripts_prefix(f, 10) + s);
                    assert(self.hist() =~= old(self).hist() + spec_scripts_prefix(f, 11));
                }
            },
            Err(e) => {
                proof {
                    assert(InventoryMinifig::spec_table() == spec_load_order()[10]);
                    assert(spec_load_failed_at(old(self).hist(), self.hist(), f, e, 10));
                }
                return Err(e);
            },
        }
        match self.load_table::<InventorySet>(&files[11]) {
            Ok(()) => {
                proof {
                    let s = spec_table_script::<InventorySet>(f[11]).unwrap();
                    assert(spec_script_at(f, 11) is Some);
                    assert(spec_scripts_prefix(f, 12) =~= spec_scripts_prefix(f, 11) + s);
                    assert(self.hist() =~= old(self).hist() + spec_scripts_prefix(f, 12));
                }
            },
            Err(e) => {
                proof {
                    assert(InventorySet::spec_table() == spec_load_order()[11]);
                    assert(spec_load_failed_at(old(self).hist(), self.hist(), f, e, 11));
                }
                return Err(e);
            },
        }
        Ok(())
    }
}


impl Insertable for Inventory {
    open spec fn spec_table() -> TableId {
        TableId::Inventories
    }

    fn table() -> (t: TableId) {
        TableId::Inventories
    }

    open spec fn spec_schema() -> Seq<Seq<char>> {
        seq!["id"@, "version"@, "set_num"@]
    }

    open spec fn spec_row_ok(row: Seq<Seq<char>>) -> bool {
        spec_inventory_row_ok(row)
    }

    open spec fn spec_of(row: Seq<Seq<char>>, rec: Inventory) -> bool {
        &&& Some(rec.id) == spec_parse_i32(row[0])
        &&& Some(rec.version) == spec_parse_i32(row[1])
        &&& rec.set_num@ == row[2]
    }

    open spec fn spec_params(&self) -> Seq<SqlVal> {
        seq![
            SqlVal::Int(self.id as i64),
            SqlVal::Int(self.version as i64),
            SqlVal::Text(self.set_num@),
        ]
    }

    open spec fn spec_row_params(row: Seq<Seq<char>>) -> Seq<SqlVal> {
        seq![
            SqlVal::Int(spec_parse_i32(row[0]).unwrap() as i64),
            SqlVal::Int(spec_parse_i32(row[1]).unwrap() as i64),
            SqlVal::Text(row[2]),
        ]
    }

    open spec fn spec_insert_sql() -> Seq<char> {
        "INSERT INTO inventories (id, version, set_num) VALUES (?, ?, ?)"@
    }

    open spec fn spec_pre_sql() -> Option<Seq<char>> {
        None
    }

    open spec fn spec_post_sql() -> Seq<Seq<char>> {
        Seq::empty()
    }

    fn schema() -> (r: Vec<&'static str>) {
        let r = vec!["id", "version", "set_num"];
        proof {
            assert(r.deep_view() =~= Self::spec_schema());
        }
        r
    }

    fn decode_row(row: &Vec<String>) -> (r: Result<Inventory, DecodeError>) {
        decode_inventory(row)
    }

    fn insert_sql() -> (r: &'static str) {
        "INSERT INTO inventories (id, version, set_num) VALUES (?, ?, ?)"
    }

    fn pre_sql() -> (r: Option<&'static str>) {
        None
    }

    fn post_sql() -> (r: Vec<&'static str>) {
        let r: Vec<&'static str> = Vec::new();
        proof {
            assert(r.deep_view() =~= Self::spec_post_sql());
        }
        r
    }

    fn row_params(&self) -> (r: Vec<SqlValue>) {
        let r = vec![
            SqlValue::Int(self.id as i64),
            SqlValue::Int(self.version as i64),
            SqlValue::Text(self.set_num.clone()),
        ];
        proof {
            assert(r.deep_view() =~= self.spec_params());
        }
        r
    }

    proof fn lemma_row_params(row: Seq<Seq<char>>, rec: Inventory) {
        assert(rec.spec_params() =~= Self::spec_row_params(row));
    }
}

impl Insertable for InventoryPart {
    open spec fn spec_table() -> TableId {
        TableId::InventoryParts
    }

    fn table() -> (t: TableId) {
        TableId::InventoryParts
    }

    open spec fn spec_schema() -> Seq<Seq<char>> {
        seq!["inventory_id"@, "part_num"@, "color_id"@, "quantity"@, "is_spare"@, "img_url"@]
    }

    open spec fn spec_row_ok(row: Seq<Seq<char>>) -> bool {
        spec_inventory_part_row_ok(row)
    }

    open spec fn spec_of(row: Seq<Seq<char>>, rec: InventoryPart) -> bool {
        &&& Some(rec.inventory_id) == spec_parse_i32(row[0])
        &&& rec.part_num@ == row[1]
        &&& Some(rec.color_id) == spec_parse_i32(row[2])
        &&& Some(rec.quantity) == spec_parse_i32(row[3])
        &&& Some(rec.is_spare) == spec_decode_bool(row[4])
        &&& Some(rec.img_url.deep_view()) == spec_decode_opt_url(row[5])
    }

    open spec fn spec_params(&self) -> Seq<SqlVal> {
        seq![
            SqlVal::Int(self.inventory_id as i64),
            SqlVal::Text(self.part_num@),
            SqlVal::Int(self.color_id as i64),
            SqlVal::Int(self.quantity as i64),
            SqlVal::Int(if self.is_spare { 1i64 } else { 0i64 }),
            (match self.img_url { Some(u) => SqlVal::Text(u@), None => SqlVal::Null }),
        ]
    }

    open spec fn spec_row_params(row: Seq<Seq<char>>) -> Seq<SqlVal> {
        seq![
            SqlVal::Int(spec_parse_i32(row[0]).unwrap() as i64),
            SqlVal::Text(row[1]),
            SqlVal::Int(spec_parse_i32(row[2]).unwrap() as i64),
            SqlVal::Int(spec_parse_i32(row[3]).unwrap() as i64),
            SqlVal::Int(if spec_decode_bool(row[4]).unwrap() { 1i64 } else { 0i64 }),
            (match spec_decode_opt_url(row[5]).unwrap() { Some(u) => SqlVal::Text(u), None => SqlVal::Null }),
        ]
    }

    open spec fn spec_insert_sql() -> Seq<char> {
        "INSERT INTO inventory_parts (inventory_id, part_num, color_id, quantity, is_spare, img_url) VALUES (?, ?, ?, ?, ?, ?)"@
    }

    open spec fn spec_pre_sql() -> Option<Seq<char>> {
        None
    }

    open spec fn spec_post_sql() -> Seq<Seq<char>> {
        Seq::empty()
    }

    fn schema() -> (r: Vec<&'static str>) {
        let r = vec!["inventory_id", "part_num", "color_id", "quantity", "is_spare", "img_url"];
        proof {
            assert(r.deep_view() =~= Self::spec_schema());
        }
        r
    }

    fn decode_row(row: &Vec<String>) -> (r: Result<InventoryPart, DecodeError>) {
        decode_inventory_part(row)
    }

    fn insert_sql() -> (r: &'static str) {
        "INSERT INTO inventory_parts (inventory_id, part_num, color_id, quantity, is_spare, img_url) VALUES (?, ?, ?, ?, ?, ?)"
    }

    fn pre_sql() -> (r: Option<&'static str>) {
        None
    }

    fn post_sql() -> (r: Vec<&'static str>) {
        let r: Vec<&'static str> = Vec::new();
        proof {
            assert(r.deep_view() =~= Self::spec_post_sql());
        }
        r
    }

    fn row_params(&self) -> (r: Vec<SqlValue>) {
        let r = vec![
            SqlValue::Int(self.inventory_id as i64),
            SqlValue::Text(self.part_num.clone()),
            SqlValue::Int(self.color_id as i64),
            SqlValue::Int(self.quantity as i64),
            SqlValue::Int(if self.is_spare { 1i64 } else { 0i64 }),
            (match &self.img_url { Some(u) => SqlValue::Text(u.clone()), None => SqlValue::Null }),
        ];
        proof {
            assert(r.deep_view() =~= self.spec_params());
        }
        r
    }

    proof fn lemma_row_params(row: Seq<Seq<char>>, rec: InventoryPart) {
        assert(rec.spec_params() =~= Self::spec_row_params(row));
    }
}

impl Insertable for InventoryMinifig {
    open spec fn spec_table() -> TableId {
        TableId::InventoryMinifigs
    }

    fn table() -> (t: TableId) {
        TableId::InventoryMinifigs
    }

    open spec fn spec_schema() -> Seq<Seq<char>> {
        seq!["inventory_id"@, "fig_num"@, "quantity"@]
    }

    open spec fn spec_row_ok(row: Seq<Seq<char>>) -> bool {
        spec_inventory_minifig_row_ok(row)
    }

    open spec fn spec_of(row: Seq<Seq<char>>, rec: InventoryMinifig) -> bool {
        &&& Some(rec.inventory_id) == spec_parse_i32(row[0])
        &&& rec.fig_num@ == row[1]
        &&& Some(rec.quantity) == spec_parse_i32(row[2])
    }

    open spec fn spec_params(&self) -> Seq<SqlVal> {
        seq![
            SqlVal::Int(self.inventory_id as i64),
            SqlVal::Text(self.fig_num@),
            SqlVal::Int(self.quantity as i64),
        ]
    }

    open spec fn spec_row_params(row: Seq<Seq<char>>) -> Seq<SqlVal> {
        seq![
            SqlVal::Int(spec_parse_i32(row[0]).unwrap() as i64),
            SqlVal::Text(row[1]),
            SqlVal::Int(spec_parse_i32(row[2]).unwrap() as i64),
        ]
    }

    open spec fn spec_insert_sql() -> Seq<char> {
        "INSERT INTO inventory_minifigs (inventory_id, fig_num, quantity) VALUES (?, ?, ?)"@
    }

    open spec fn spec_pre_sql() -> Option<Seq<char>> {
        None
    }

    open spec fn spec_post_sql() -> Seq<Seq<char>> {
        Seq::empty()
    }

    fn schema() -> (r: Vec<&'static str>) {
        let r = vec!["inventory_id", "fig_num", "quantity"];
        proof {
            assert(r.deep_view() =~= Self::spec_schema());
        }
        r
    }

    fn decode_row(row: &Vec<String>) -> (r: Result<InventoryMinifig, DecodeError>) {
        decode_inventory_minifig(row)
    }

    fn insert_sql() -> (r: &'static str) {
        "INSERT INTO inventory_minifigs (inventory_id, fig_num, quantity) VALUES (?, ?, ?)"
    }

    fn pre_sql() -> (r: Option<&'static str>) {
        None
    }

    fn post_sql() -> (r: Vec<&'static str>) {
        let r: Vec<&'static str> = Vec::new();
        proof {
            assert(r.deep_view() =~= Self::spec_post_sql());
        }
        r
    }

    fn row_params(&self) -> (r: Vec<SqlValue>) {
        let r = vec![
            SqlValue::Int(self.inventory_id as i64),
            SqlValue::Text(self.fig_num.clone()),
            SqlValue::Int(self.quantity as i64),
        ];
        proof {
            assert(r.deep_view() =~= self.spec_params());
        }
        r
    }

    proof fn lemma_row_params(row: Seq<Seq<char>>, rec: InventoryMinifig) {
        assert(rec.spec_params() =~= Self::spec_row_params(row));
    }
}

impl Insertable for InventorySet {
    open spec fn spec_table() -> TableId {
        TableId::InventorySets
    }

    fn table() -> (t: TableId) {
        TableId::InventorySets
    }

    open spec fn spec_schema() -> Seq<Seq<char>> {
        seq!["inventory_id"@, "set_num"@, "quantity"@]
    }

    open spec fn spec_row_ok(row: Seq<Seq<char>>) -> bool {
        spec_inventory_set_row_ok(row)
    }

    open spec fn spec_of(row: Seq<Seq<char>>, rec: InventorySet) -> bool {
        &&& Some(rec.inventory_id) == spec_parse_i32(row[0])
        &&& rec.set_num@ == row[1]
        &&& Some(rec.quantity) == spec_parse_i32(row[2])
    }

    open spec fn spec_params(&self) -> Seq<SqlVal> {
        seq![
            SqlVal::Int(self.inventory_id as i64),
            SqlVal::Text(self.set_num@),
            SqlVal::Int(self.quantity as i64),
        ]
    }

    open spec fn spec_row_params(row: Seq<Seq<char>>) -> Seq<SqlVal> {
        seq![
            SqlVal::Int(spec_parse_i32(row[0]).unwrap() as i64),
            SqlVal::Text(row[1]),
            SqlVal::Int(spec_parse_i32(row[2]).unwrap() as i64),
        ]
    }

    open spec fn spec_insert_sql() -> Seq<char> {
        "INSERT INTO inventory_sets (inventory_id, set_num, quantity) VALUES (?, ?, ?)"@
    }

    open spec fn spec_pre_sql() -> Option<Seq<char>> {
        None
    }

    open spec fn spec_post_sql() -> Seq<Seq<char>> {
        Seq::empty()
    }

    fn schema() -> (r: Vec<&'static str>) {
        let r = vec!["inventory_id", "set_num", "quantity"];
        proof {
            assert(r.deep_view() =~= Self::spec_schema());
        }
        r
    }

    fn decode_row(row: &Vec<String>) -> (r: Result<InventorySet, DecodeError>) {
        decode_inventory_set(row)
    }

    fn insert_sql() -> (r: &'static str) {
        "INSERT INTO inventory_sets (inventory_id, set_num, quantity) VALUES (?, ?, ?)"
    }

    fn pre_sql() -> (r: Option<&'static str>) {
        None
    }

    fn post_sql() -> (r: Vec<&'static str>) {
        let r: Vec<&'static str> = Vec::new();
        proof {
            assert(r.deep_view() =~= Self::spec_post_sql());
        }
        r
    }

    fn row_params(&self) -> (r: Vec<SqlValue>) {
        let r = vec![
            SqlValue::Int(self.inventory_id as i64),
            SqlValue::Text(self.set_num.clone()),
            SqlValue::Int(self.quantity as i64),
        ];
        proof {
            assert(r.deep_view() =~= self.spec_params());
        }
        r
    }

    proof fn lemma_row_params(row: Seq<Seq<char>>, rec: InventorySet) {
        assert(rec.spec_params() =~= Self::spec_row_params(row));
    }
}

impl Insertable for Part {
    open spec fn spec_table() -> TableId {
        TableId::Parts
    }

    fn table() -> (t: TableId) {
        TableId::Parts
    }

    open spec fn spec_schema() -> Seq<Seq<char>> {
        seq!["part_num"@, "name"@, "part_cat_id"@, "part_material"@]
    }

    open spec fn spec_row_ok(row: Seq<Seq<char>>) -> bool {
        spec_part_row_ok(row)
    }

    open spec fn spec_of(row: Seq<Seq<char>>, rec: Part) -> bool {
        &&& rec.part_num@ == row[0]
        &&& rec.name@ == row[1]
        &&& Some(rec.part_cat_id) == spec_parse_i32(row[2])
        &&& Some(rec.part_material) == spec_decode_material(row[3])
    }

    open spec fn spec_params(&self) -> Seq<SqlVal> {
        seq![
            SqlVal::Text(self.part_num@),
            SqlVal::Text(self.name@),
            SqlVal::Int(self.part_cat_id as i64),
            SqlVal::Text(spec_encode_material(self.part_material)),
        ]
    }

    open spec fn spec_row_params(row: Seq<Seq<char>>) -> Seq<SqlVal> {
        seq![
            SqlVal::Text(row[0]),
            SqlVal::Text(row[1]),
            SqlVal::Int(spec_parse_i32(row[2]).unwrap() as i64),
            SqlVal::Text(spec_encode_material(spec_decode_material(row[3]).unwrap())),
        ]
    }

    open spec fn spec_insert_sql() -> Seq<char> {
        "INSERT INTO parts (part_num, name, part_cat_id, part_material) VALUES (?, ?, ?, ?)"@
    }

    open spec fn spec_pre_sql() -> Option<Seq<char>> {
        None
    }

    open spec fn spec_post_sql() -> Seq<Seq<char>> {
        Seq::empty()
    }

    fn schema() -> (r: Vec<&'static str>) {
        let r = vec!["part_num", "name", "part_cat_id", "part_material"];
        proof {
            assert(r.deep_view() =~= Self::spec_schema());
        }
        r
    }

    fn decode_row(row: &Vec<String>) -> (r: Result<Part, DecodeError>) {
        decode_part(row)
    }

    fn insert_sql() -> (r: &'static str) {
        "INSERT INTO parts (part_num, name, part_cat_id, part_material) VALUES (?, ?, ?, ?)"
    }

    fn pre_sql() -> (r: Option<&'static str>) {
        None
    }

    fn post_sql() -> (r: Vec<&'static str>) {
        let r: Vec<&'static str> = Vec::new();
        proof {
            assert(r.deep_view() =~= Self::spec_post_sql());
        }
        r
    }

    fn row_params(&self) -> (r: Vec<SqlValue>) {
        let r = vec![
            SqlValue::Text(self.part_num.clone()),
            SqlValue::Text(self.name.clone()),
            SqlValue::Int(self.part_cat_id as i64),
            SqlValue::Text(str_to_string(encode_part_material(self.part_material))),
        ];
        proof {
            assert(r.deep_view() =~= self.spec_params());
        }
        r
    }

    proof fn lemma_row_params(row: Seq<Seq<char>>, rec: Part) {
        assert(rec.spec_params() =~= Self::spec_row_params(row));
    }
}

impl Insertable for PartCategory {
    open spec fn spec_table() -> TableId {
        TableId::PartCategories
    }

    fn table() -> (t: TableId) {
        TableId::PartCategories
    }

    open spec fn spec_schema() -> Seq<Seq<char>> {
        seq!["id"@, "name"@]
    }

    open spec fn spec_row_ok(row: Seq<Seq<char>>) -> bool {
        spec_part_category_row_ok(row)
    }

    open spec fn spec_of(row: Seq<Seq<char>>, rec: PartCategory) -> bool {
        &&& Some(rec.id) == spec_parse_i32(row[0])
        &&& rec.name@ == row[1]
    }

    open spec fn spec_params(&self) -> Seq<SqlVal> {
        seq![
            SqlVal::Int(self.id as i64),
            SqlVal::Text(self.name@),
        ]
    }

    open spec fn spec_row_params(row: Seq<Seq<char>>) -> Seq<SqlVal> {
        seq![
            SqlVal::Int(spec_parse_i32(row[0]).unwrap() as i64),
            SqlVal::Text(row[1]),
        ]
    }

    open spec fn spec_insert_sql() -> Seq<char> {
        "INSERT INTO part_categories (id, name) VALUES (?, ?)"@
    }

    open spec fn spec_pre_sql() -> Option<Seq<char>> {
        None
    }

    open spec fn spec_post_sql() -> Seq<Seq<char>> {
        Seq::empty()
    }

    fn schema() -> (r: Vec<&'static str>) {
        let r = vec!["id", "name"];
        proof {
            assert(r.deep_view() =~= Self::spec_schema());
        }
        r
    }

    fn decode_row(row: &Vec<String>) -> (r: Result<PartCategory, DecodeError>) {
        decode_part_category(row)
    }

    fn insert_sql() -> (r: &'static str) {
        "INSERT INTO part_categories (id, name) VALUES (?, ?)"
    }

    fn pre_sql() -> (r: Option<&'static str>) {
        None
    }

    fn post_sql() -> (r: Vec<&'static str>) {
        let r: Vec<&'static str> = Vec::new();
        proof {
            assert(r.deep_view() =~= Self::spec_post_sql());
        }
        r
    }

    fn row_params(&self) -> (r: Vec<SqlValue>) {
        let r = vec![
            SqlValue::Int(self.id as i64),
            SqlValue::Text(self.name.clone()),
        ];
        proof {
            assert(r.deep_view() =~= self.spec_params());
        }
        r
    }

    proof fn lemma_row_params(row: Seq<Seq<char>>, rec: PartCategory) {
        assert(rec.spec_params() =~= Self::spec_row_params(row));
    }
}

impl Insertable for PartRelationship {
    open spec fn spec_table() -> TableId {
        TableId::PartRelationships
    }

    fn table() -> (t: TableId) {
        TableId::PartRelationships
    }

    open spec fn spec_schema() -> Seq<Seq<char>> {
        seq!["rel_type"@, "child_part_num"@, "parent_part_num"@]
    }

    open spec fn spec_row_ok(row: Seq<Seq<char>>) -> bool {
        spec_part_relationship_row_ok(row)
    }

    open spec fn spec_of(row: Seq<Seq<char>>, rec: PartRelationship) -> bool {
        &&& Some(rec.rel_type) == spec_decode_relation(row[0])
        &&& rec.child_part_num@ == row[1]
        &&& rec.parent_part_num@ == row[2]
    }

    open spec fn spec_params(&self) -> Seq<SqlVal> {
        seq![
            SqlVal::Text(spec_encode_relation(self.rel_type)),
            SqlVal::Text(self.child_part_num@),
            SqlVal::Text(self.parent_part_num@),
        ]
    }

    open spec fn spec_row_params(row: Seq<Seq<char>>) -> Seq<SqlVal> {
        seq![
            SqlVal::Text(spec_encode_relation(spec_decode_relation(row[0]).unwrap())),
            SqlVal::Text(row[1]),
            SqlVal::Text(row[2]),
        ]
    }

    open spec fn spec_insert_sql() -> Seq<char> {
        "INSERT INTO part_relationships (rel_type, child_part_num, parent_part_num) VALUES (?, ?, ?)"@
    }

    open spec fn spec_pre_sql() -> Option<Seq<char>> {
        None
    }

    open spec fn spec_post_sql() -> Seq<Seq<char>> {
        Seq::empty()
    }

    fn schema() -> (r: Vec<&'static str>) {
        let r = vec!["rel_type", "child_part_num", "parent_part_num"];
        proof {
            assert(r.deep_view() =~= Self::spec_schema());
        }
        r
    }

    fn decode_row(row: &Vec<String>) -> (r: Result<PartRelationship, DecodeError>) {
        decode_part_relationship(row)
    }

    fn insert_sql() -> (r: &'static str) {
        "INSERT INTO part_relationships (rel_type, child_part_num, parent_part_num) VALUES (?, ?, ?)"
    }

    fn pre_sql() -> (r: Option<&'static str>) {
        None
    }

    fn post_sql() -> (r: Vec<&'static str>) {
        let r: Vec<&'static str> = Vec::new();
        proof {
            assert(r.deep_view() =~= Self::spec_post_sql());
        }
        r
    }

    fn row_params(&self) -> (r: Vec<SqlValue>) {
        let r = vec![
            SqlValue::Text(str_to_string(encode_relation_type(self.rel_type))),
            SqlValue::Text(self.child_part_num.clone()),
            SqlValue::Text(self.parent_part_num.clone()),
        ];
        proof {
            assert(r.deep_view() =~= self.spec_params());
        }
        r
    }

    proof fn lemma_row_params(row: Seq<Seq<char>>, rec: PartRelationship) {
        assert(rec.spec_params() =~= Self::spec_row_params(row));
    }
}

impl Insertable for Element {
    open spec fn spec_table() -> TableId {
        TableId::Elements
    }

    fn table() -> (t: TableId) {
        TableId::Elements
    }

    open spec fn spec_schema() -> Seq<Seq<char>> {
        seq!["element_id"@, "part_num"@, "color_id"@, "design_id"@]
    }

    open spec fn spec_row_ok(row: Seq<Seq<char>>) -> bool {
        spec_element_row_ok(row)
    }

    open spec fn spec_of(row: Seq<Seq<char>>, rec: Element) -> bool {
        &&& rec.element_id@ == row[0]
        &&& rec.part_num@ == row[1]
        &&& Some(rec.color_id) == spec_parse_i32(row[2])
        &&& Some(rec.design_id) == spec_decode_opt_i32(row[3])
    }

    open spec fn spec_params(&self) -> Seq<SqlVal> {
        seq![
            SqlVal::Text(self.element_id@),
            SqlVal::Text(self.part_num@),
            SqlVal::Int(self.color_id as i64),
        ]
    }

    open spec fn spec_row_params(row: Seq<Seq<char>>) -> Seq<SqlVal> {
        seq![
            SqlVal::Text(row[0]),
            SqlVal::Text(row[1]),
            SqlVal::Int(spec_parse_i32(row[2]).unwrap() as i64),
        ]
    }

    open spec fn spec_insert_sql() -> Seq<char> {
        "INSERT INTO elements (element_id, part_num, color_id) VALUES (?, ?, ?)"@
    }

    open spec fn spec_pre_sql() -> Option<Seq<char>> {
        None
    }

    open spec fn spec_post_sql() -> Seq<Seq<char>> {
        Seq::empty()
    }

    fn schema() -> (r: Vec<&'static str>) {
        let r = vec!["element_id", "part_num", "color_id", "design_id"];
        proof {
            assert(r.deep_view() =~= Self::spec_schema());
        }
        r
    }

    fn decode_row(row: &Vec<String>) -> (r: Result<Element, DecodeError>) {
        decode_element(row)
    }

    fn insert_sql() -> (r: &'static str) {
        "INSERT INTO elements (element_id, part_num, color_id) VALUES (?, ?, ?)"
    }

    fn pre_sql() -> (r: Option<&'static str>) {
        None
    }

    fn post_sql() -> (r: Vec<&'static str>) {
        let r: Vec<&'static str> = Vec::new();
        proof {
            assert(r.deep_view() =~= Self::spec_post_sql());
        }
        r
    }

    fn row_params(&self) -> (r: Vec<SqlValue>) {
        let r = vec![
            SqlValue::Text(self.element_id.clone()),
            SqlValue::Text(self.part_num.clone()),
            SqlValue::Int(self.color_id as i64),
        ];
        proof {
            assert(r.deep_view() =~= self.spec_params());
        }
        r
    }

    proof fn lemma_row_params(row: Seq<Seq<char>>, rec: Element) {
        assert(rec.spec_params() =~= Self::spec_row_params(row));
    }
}

impl Insertable for Color {
    open spec fn spec_table() -> TableId {
        TableId::Colors
    }

    fn table() -> (t: TableId) {
        TableId::Colors
    }

    open spec fn spec_schema() -> Seq<Seq<char>> {
        seq!["id"@, "name"@, "rgb"@, "is_trans"@]
    }

    open spec fn spec_row_ok(row: Seq<Seq<char>>) -> bool {
        spec_color_row_ok(row)
    }

    open spec fn spec_of(row: Seq<Seq<char>>, rec: Color) -> bool {
        &&& Some(rec.id) == spec_parse_i32(row[0])
        &&& rec.name@ == row[1]
        &&& Some(rec.rgb) == spec_parse_rgb(row[2])
        &&& Some(rec.is_trans) == spec_decode_bool(row[3])
    }

    open spec fn spec_params(&self) -> Seq<SqlVal> {
        seq![
            SqlVal::Int(self.id as i64),
            SqlVal::Text(self.name@),
            SqlVal::Text(spec_rgb_text(self.rgb)),
            SqlVal::Int(if self.is_trans { 1i64 } else { 0i64 }),
        ]
    }

    open spec fn spec_row_params(row: Seq<Seq<char>>) -> Seq<SqlVal> {
        seq![
            SqlVal::Int(spec_parse_i32(row[0]).unwrap() as i64),
            SqlVal::Text(row[1]),
            SqlVal::Text(spec_rgb_text(spec_parse_rgb(row[2]).unwrap())),
            SqlVal::Int(if spec_decode_bool(row[3]).unwrap() { 1i64 } else { 0i64 }),
        ]
    }

    open spec fn spec_insert_sql() -> Seq<char> {
        "INSERT INTO colors (id, name, rgb, is_trans) VALUES (?, ?, ?, ?)"@
    }

    open spec fn spec_pre_sql() -> Option<Seq<char>> {
        None
    }

    open spec fn spec_post_sql() -> Seq<Seq<char>> {
        Seq::empty()
    }

    fn schema() -> (r: Vec<&'static str>) {
        let r = vec!["id", "name", "rgb", "is_trans"];
        proof {
            assert(r.deep_view() =~= Self::spec_schema());
        }
        r
    }

    fn decode_row(row: &Vec<String>) -> (r: Result<Color, DecodeError>) {
        decode_color(row)
    }

    fn insert_sql() -> (r: &'static str) {
        "INSERT INTO colors (id, name, rgb, is_trans) VALUES (?, ?, ?, ?)"
    }

    fn pre_sql() -> (r: Option<&'static str>) {
        None
    }

    fn post_sql() -> (r: Vec<&'static str>) {
        let r: Vec<&'static str> = Vec::new();
        proof {
            assert(r.deep_view() =~= Self::spec_post_sql());
        }
        r
    }

    fn row_params(&self) -> (r: Vec<SqlValue>) {
        let r = vec![
            SqlValue::Int(self.id as i64),
            SqlValue::Text(self.name.clone()),
            SqlValue::Text(self.rgb.to_text()),
            SqlValue::Int(if self.is_trans { 1i64 } else { 0i64 }),
        ];
        proof {
            assert(r.deep_view() =~= self.spec_params());
        }
        r
    }

    proof fn lemma_row_params(row: Seq<Seq<char>>, rec: Color) {
        assert(rec.spec_params() =~= Self::spec_row_params(row));
    }
}

impl Insertable for Minifig {
    open spec fn spec_table() -> TableId {
        TableId::Minifigs
    }

    fn table() -> (t: TableId) {
        TableId::Minifigs
    }

    open spec fn spec_schema() -> Seq<Seq<char>> {
        seq!["fig_num"@, "name"@, "num_parts"@, "img_url"@]
    }

    open spec fn spec_row_ok(row: Seq<Seq<char>>) -> bool {
        spec_minifig_row_ok(row)
    }

    open spec fn spec_of(row: Seq<Seq<char>>, rec: Minifig) -> bool {
        &&& rec.fig_num@ == row[0]
        &&& rec.name@ == row[1]
        &&& Some(rec.num_parts) == spec_parse_i32(row[2])
        &&& Some(rec.img_url.deep_view()) == spec_decode_opt_url(row[3])
    }

    open spec fn spec_params(&self) -> Seq<SqlVal> {
        seq![
            SqlVal::Text(self.fig_num@),
            SqlVal::Text(self.name@),
            SqlVal::Int(self.num_parts as i64),
            (match self.img_url { Some(u) => SqlVal::Text(u@), None => SqlVal::Null }),
        ]
    }

    open spec fn spec_row_params(row: Seq<Seq<char>>) -> Seq<SqlVal> {
        seq![
            SqlVal::Text(row[0]),
            SqlVal::Text(row[1]),
            SqlVal::Int(spec_parse_i32(row[2]).unwrap() as i64),
            (match spec_decode_opt_url(row[3]).unwrap() { Some(u) => SqlVal::Text(u), None => SqlVal::Null }),
        ]
    }

    open spec fn spec_insert_sql() -> Seq<char> {
        "INSERT INTO minifigs (fig_num, name, num_parts, img_url) VALUES (?, ?, ?, ?)"@
    }

    open spec fn spec_pre_sql() -> Option<Seq<char>> {
        None
    }

    open spec fn spec_post_sql() -> Seq<Seq<char>> {
        Seq::empty()
    }

    fn schema() -> (r: Vec<&'static str>) {
        let r = vec!["fig_num", "name", "num_parts", "img_url"];
        proof {
            assert(r.deep_view() =~= Self::spec_schema());
        }
        r
    }

    fn decode_row(row: &Vec<String>) -> (r: Result<Minifig, DecodeError>) {
        decode_minifig(row)
    }

    fn insert_sql() -> (r: &'static str) {
        "INSERT INTO minifigs (fig_num, name, num_parts, img_url) VALUES (?, ?, ?, ?)"
    }

    fn pre_sql() -> (r: Option<&'static str>) {
        None
    }

    fn post_sql() -> (r: Vec<&'static str>) {
        let r: Vec<&'static str> = Vec::new();
        proof {
            assert(r.deep_view() =~= Self::spec_post_sql());
        }
        r
    }

    fn row_params(&self) -> (r: Vec<SqlValue>) {
        let r = vec![
            SqlValue::Text(self.fig_num.clone()),
            SqlValue::Text(self.name.clone()),
            SqlValue::Int(self.num_parts as i64),
            (match &self.img_url { Some(u) => SqlValue::Text(u.clone()), None => SqlValue::Null }),
        ];
        proof {
            assert(r.deep_view() =~= self.spec_params());
        }
        r
    }

    proof fn lemma_row_params(row: Seq<Seq<char>>, rec: Minifig) {
        assert(rec.spec_params() =~= Self::spec_row_params(row));
    }
}

impl Insertable for SetRecord {
    open spec fn spec_table() -> TableId {
        TableId::Sets
    }

    fn table() -> (t: TableId) {
        TableId::Sets
    }

    open spec fn spec_schema() -> Seq<Seq<char>> {
        seq!["set_num"@, "name"@, "year"@, "theme_id"@, "num_parts"@, "img_url"@]
    }

    open spec fn spec_row_ok(row: Seq<Seq<char>>) -> bool {
        spec_set_row_ok(row)
    }

    open spec fn spec_of(row: Seq<Seq<char>>, rec: SetRecord) -> bool {
        &&& rec.set_num@ == row[0]
        &&& rec.name@ == row[1]
        &&& Some(rec.year) == spec_parse_i32(row[2])
        &&& Some(rec.theme_id) == spec_parse_i32(row[3])
        &&& Some(rec.num_parts) == spec_parse_i32(row[4])
        &&& Some(rec.img_url.deep_view()) == spec_decode_opt_url(row[5])
    }

    open spec fn spec_params(&self) -> Seq<SqlVal> {
        seq![
            SqlVal::Text(self.set_num@),
            SqlVal::Text(self.name@),
            SqlVal::Int(self.year as i64),
            SqlVal::Int(self.theme_id as i64),
            SqlVal::Int(self.num_parts as i64),
            (match self.img_url { Some(u) => SqlVal::Text(u@), None => SqlVal::Null }),
        ]
    }

    open spec fn spec_row_params(row: Seq<Seq<char>>) -> Seq<SqlVal> {
        seq![
            SqlVal::Text(row[0]),
            SqlVal::Text(row[1]),
            SqlVal::Int(spec_parse_i32(row[2]).unwrap() as i64),
            SqlVal::Int(spec_parse_i32(row[3]).unwrap() as i64),
            SqlVal::Int(spec_parse_i32(row[4]).unwrap() as i64),
            (match spec_decode_opt_url(row[5]).unwrap() { Some(u) => SqlVal::Text(u), None => SqlVal::Null }),
        ]
    }

    open spec fn spec_insert_sql() -> Seq<char> {
        "INSERT INTO sets (set_num, name, year, theme_id, num_parts, img_url) VALUES (?, ?, ?, ?, ?, ?)"@
    }

    open spec fn spec_pre_sql() -> Option<Seq<char>> {
        None
    }

    open spec fn spec_post_sql() -> Seq<Seq<char>> {
        Seq::empty()
    }

    fn schema() -> (r: Vec<&'static str>) {
        let r = vec!["set_num", "name", "year", "theme_id", "num_parts", "img_url"];
        proof {
            assert(r.deep_view() =~= Self::spec_schema());
        }
        r
    }

    fn decode_row(row: &Vec<String>) -> (r: Result<SetRecord, DecodeError>) {
        decode_set(row)
    }

    fn insert_sql() -> (r: &'static str) {
        "INSERT INTO sets (set_num, name, year, theme_id, num_parts, img_url) VALUES (?, ?, ?, ?, ?, ?)"
    }

    fn pre_sql() -> (r: Option<&'static str>) {
        None
    }

    fn post_sql() -> (r: Vec<&'static str>) {
        let r: Vec<&'static str> = Vec::new();
        proof {
            assert(r.deep_view() =~= Self::spec_post_sql());
        }
        r
    }

    fn row_params(&self) -> (r: Vec<SqlValue>) {
        let r = vec![
            SqlValue::Text(self.set_num.clone()),
            SqlValue::Text(self.name.clone()),
            SqlValue::Int(self.year as i64),
            SqlValue::Int(self.theme_id as i64),
            SqlValue::Int(self.num_parts as i64),
            (match &self.img_url { Some(u) => SqlValue::Text(u.clone()), None => SqlValue::Null }),
        ];
        proof {
            assert(r.deep_view() =~= self.spec_params());
        }
        r
    }

    proof fn lemma_row_params(row: Seq<Seq<char>>, rec: SetRecord) {
        assert(rec.spec_params() =~= Self::spec_row_params(row));
    }
}

impl Insertable for Theme {
    open spec fn spec_table() -> TableId {
        TableId::Themes
    }

    fn table() -> (t: TableId) {
        TableId::Themes
    }

    open spec fn spec_schema() -> Seq<Seq<char>> {
        seq!["id"@, "name"@, "parent_id"@]
    }

    open spec fn spec_row_ok(row: Seq<Seq<char>>) -> bool {
        spec_theme_row_ok(row)
    }

    open spec fn spec_of(row: Seq<Seq<char>>, rec: Theme) -> bool {
        &&& Some(rec.id) == spec_parse_i32(row[0])
        &&& rec.name@ == row[1]
        &&& Some(rec.parent_id) == spec_decode_opt_i32(row[2])
    }

    open spec fn spec_params(&self) -> Seq<SqlVal> {
        seq![
            SqlVal::Int(self.id as i64),
            SqlVal::Text(self.name@),
            (match self.parent_id { Some(v) => SqlVal::Int(v as i64), None => SqlVal::Null }),
        ]
    }

    open spec fn spec_row_params(row: Seq<Seq<char>>) -> Seq<SqlVal> {
        seq![
            SqlVal::Int(spec_parse_i32(row[0]).unwrap() as i64),
            SqlVal::Text(row[1]),
            (match spec_decode_opt_i32(row[2]).unwrap() { Some(v) => SqlVal::Int(v as i64), None => SqlVal::Null }),
        ]
    }

    open spec fn spec_insert_sql() -> Seq<char> {
        "INSERT INTO themes (id, name, tmp_parent_id) VALUES (?, ?, ?)"@
    }

    open spec fn spec_pre_sql() -> Option<Seq<char>> {
        Some("ALTER TABLE themes ADD COLUMN tmp_parent_id INTEGER"@)
    }

    open spec fn spec_post_sql() -> Seq<Seq<char>> {
        seq!["UPDATE themes SET parent_id = tmp_parent_id"@, "ALTER TABLE themes DROP COLUMN tmp_parent_id"@]
    }

    fn schema() -> (r: Vec<&'static str>) {
        let r = vec!["id", "name", "parent_id"];
        proof {
            assert(r.deep_view() =~= Self::spec_schema());
        }
        r
    }

    fn decode_row(row: &Vec<String>) -> (r: Result<Theme, DecodeError>) {
        decode_theme(row)
    }

    fn insert_sql() -> (r: &'static str) {
        "INSERT INTO themes (id, name, tmp_parent_id) VALUES (?, ?, ?)"
    }

    fn pre_sql() -> (r: Option<&'static str>) {
        Some("ALTER TABLE themes ADD COLUMN tmp_parent_id INTEGER")
    }

    fn post_sql() -> (r: Vec<&'static str>) {
        let r: Vec<&'static str> = vec!["UPDATE themes SET parent_id = tmp_parent_id", "ALTER TABLE themes DROP COLUMN tmp_parent_id"];
        proof {
            assert(r.deep_view() =~= Self::spec_post_sql());
        }
        r
    }

    fn row_params(&self) -> (r: Vec<SqlValue>) {
        let r = vec![
            SqlValue::Int(self.id as i64),
            SqlValue::Text(self.name.clone()),
            (match self.parent_id { Some(v) => SqlValue::Int(v as i64), None => SqlValue::Null }),
        ];
        proof {
            assert(r.deep_view() =~= self.spec_params());
        }
        r
    }

    proof fn lemma_row_params(row: Seq<Seq<char>>, rec: Theme) {
        assert(rec.spec_params() =~= Self::spec_row_params(row));
    }
}

/// The schema the loader targets, as executable text.
pub fn schema_sql() -> (r: &'static str)
    ensures
        r@ == spec_schema_sql(),
{
    SCHEMA_SQL
}

} // verus!
