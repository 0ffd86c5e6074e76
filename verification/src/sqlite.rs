//! The trusted boundary to the SQLite backing store.
//!
//! Everything this library knows of a live database is said here, over
//! three uninterpreted names on a connection: the schema of each
//! relation, the rows of each relation, and the open transaction's
//! rollback point, if a transaction is open.  Each wrapper issues one
//! statement and states what the store does with it; the logic around
//! the wrappers is verified against these contracts and nothing else.
//!
//! Relation and column names are kept to plain lower-case identifiers
//! (see [`is_sql_ident`]), so a name denotes one relation exactly and
//! statement text built from names parses as intended.
//!
//! The connection is taken to be the exclusive handle to its database
//! file: no other connection or process writes the file while it is
//! open.  Under concurrent external writers nothing here could be
//! stated of a connection's contents at all.  The file is likewise
//! taken to hold plain relations only, as the files this library
//! writes do: a trigger, a check constraint, or a non-default conflict
//! action installed by someone else could make one statement touch
//! rows these contracts do not speak of.

use vstd::multiset::Multiset;
use vstd::prelude::*;

use crate::sqlgen::{create_sql_model, drop_sql_model, insert_sql_model, select_sql_model};
use crate::values::{col_pairs, is_sql_ident, row_fits, row_violates, ColSchema, ColumnDef, PlainValue, ValueV};

verus! {

#[verifier::external_type_specification]
#[verifier::external_body]
pub struct ExConnection(rusqlite::Connection);

#[verifier::external_type_specification]
#[verifier::external_body]
pub struct ExSqlValue(rusqlite::types::Value);

#[verifier::external_type_specification]
#[verifier::external_body]
pub struct ExPathBuf(std::path::PathBuf);

/// One failure of the persistence layer, each with the message the
/// backing store gave.
#[derive(Debug, Clone)]
pub enum StorageError {
    /// The backing store file could not be opened.
    Connection(String),
    /// Creating or dropping a relation failed.
    Schema(String),
    /// A record's declared column layout does not match the relation it
    /// is bound against.
    Binding(String),
    /// A row violated a constraint of its relation during insert.
    Constraint(String),
    /// A stored row could not be rebuilt into the target type.
    Deserialization(String),
    /// Any other failure of the backing store.
    Backend(String),
}

impl StorageError {
    /// The message carried by this error.
    pub fn message(&self) -> &String {
        match self {
            StorageError::Connection(m) => m,
            StorageError::Schema(m) => m,
            StorageError::Binding(m) => m,
            StorageError::Constraint(m) => m,
            StorageError::Deserialization(m) => m,
            StorageError::Backend(m) => m,
        }
    }
}

/// The schema of the database behind a connection: for each relation
/// whose name is a plain lower-case identifier, its columns as the
/// store describes them — identifier, declared type text, not-null and
/// key marks — in declaration order.
pub uninterp spec fn db_schema(c: rusqlite::Connection) -> Map<Seq<char>, Seq<ColSchema>>;

/// The rows of each relation of the database behind a connection, an
/// unordered bag per relation; each row holds one value per column, in
/// declaration order.
pub uninterp spec fn db_rows(c: rusqlite::Connection) -> Map<Seq<char>, Multiset<Seq<ValueV>>>;

/// The open transaction of a connection: absent in autocommit mode,
/// else the schema and rows that a rollback would restore.
pub uninterp spec fn db_txn(c: rusqlite::Connection) -> Option<
    (Map<Seq<char>, Seq<ColSchema>>, Map<Seq<char>, Multiset<Seq<ValueV>>>),
>;

/// The model of one value held by the store.
pub uninterp spec fn sql_value_model(v: rusqlite::types::Value) -> ValueV;

/// The columns of `t` under schema `m`; a relation that is absent has
/// none.
pub open spec fn schema_of(m: Map<Seq<char>, Seq<ColSchema>>, t: Seq<char>) -> Seq<ColSchema> {
    if m.contains_key(t) {
        m[t]
    } else {
        Seq::empty()
    }
}

/// The rows of `t` under row map `m`; a relation that is absent has
/// none.
pub open spec fn rows_of(
    m: Map<Seq<char>, Multiset<Seq<ValueV>>>,
    t: Seq<char>,
) -> Multiset<Seq<ValueV>> {
    if m.contains_key(t) {
        m[t]
    } else {
        Multiset::empty()
    }
}

/// Relies on rusqlite's `Connection::open`: opens (creating it if
/// absent) the backing store file; a fresh connection is in autocommit
/// mode.
#[verifier::external_body]
pub(crate) fn open_conn(path: &std::path::PathBuf) -> (r: Result<
    rusqlite::Connection,
    StorageError,
>)
    ensures
        r matches Ok(c) ==> db_txn(c) is None,
        r matches Err(e) ==> e is Connection,
{
    match rusqlite::Connection::open(path) {
        Ok(c) => Ok(c),
        Err(e) => Err(StorageError::Connection(format!("{}", e))),
    }
}

/// Relies on rusqlite's `Connection::execute` issuing
/// `CREATE TABLE IF NOT EXISTS <table> (<columns>)`, in autocommit mode
/// only (inside a transaction a failing statement could take the whole
/// transaction down with it): an absent relation is created empty with
/// exactly the given columns; a present one is left as it stands; a
/// failed statement in autocommit mode changes nothing.
#[verifier::external_body]
pub(crate) fn exec_create(
    conn: &mut rusqlite::Connection,
    table: &str,
    cols: &Vec<ColumnDef>,
    sql: &str,
) -> (r: Result<(), StorageError>)
    requires
        db_txn(*old(conn)) is None,
        is_sql_ident(table@),
        forall|i: int|
            0 <= i < cols@.len() ==> is_sql_ident(#[trigger] cols@[i]@.name),
        sql@ == create_sql_model(table@, cols@.map_values(|c: ColumnDef| c@)),
    ensures
        r matches Ok(u) ==> if db_schema(*old(conn)).contains_key(table@) {
            &&& db_schema(*final(conn)) == db_schema(*old(conn))
            &&& db_rows(*final(conn)) == db_rows(*old(conn))
        } else {
            &&& db_schema(*final(conn)) == db_schema(*old(conn)).insert(
                table@,
                col_pairs(cols@.map_values(|c: ColumnDef| c@)),
            )
            &&& db_rows(*final(conn)) == db_rows(*old(conn)).insert(table@, Multiset::empty())
        },
        r matches Ok(u) ==> db_txn(*final(conn)) == db_txn(*old(conn)),
        r matches Err(e) ==> {
            &&& db_schema(*final(conn)) == db_schema(*old(conn))
            &&& db_rows(*final(conn)) == db_rows(*old(conn))
            &&& db_txn(*final(conn)) == db_txn(*old(conn))
            &&& e is Schema
        },
{
    match conn.execute(sql, []) {
        Ok(_) => Ok(()),
        Err(e) => Err(StorageError::Schema(format!("{}", e))),
    }
}

/// Relies on rusqlite's `Connection::execute` issuing
/// `DROP TABLE IF EXISTS <table>`, in autocommit mode only: the
/// relation and its rows are gone; dropping an absent relation is a
/// no-op; a failed statement in autocommit mode changes nothing.
#[verifier::external_body]
pub(crate) fn exec_drop(conn: &mut rusqlite::Connection, table: &str, sql: &str) -> (r: Result<
    (),
    StorageError,
>)
    requires
        db_txn(*old(conn)) is None,
        is_sql_ident(table@),
        sql@ == drop_sql_model(table@),
    ensures
        r matches Ok(u) ==> {
            &&& db_schema(*final(conn)) == db_schema(*old(conn)).remove(table@)
            &&& db_rows(*final(conn)) == db_rows(*old(conn)).remove(table@)
            &&& db_txn(*final(conn)) == db_txn(*old(conn))
        },
        r matches Err(e) ==> {
            &&& db_schema(*final(conn)) == db_schema(*old(conn))
            &&& db_rows(*final(conn)) == db_rows(*old(conn))
            &&& db_txn(*final(conn)) == db_txn(*old(conn))
            &&& e is Schema
        },
{
    match conn.execute(sql, []) {
        Ok(_) => Ok(()),
        Err(e) => Err(StorageError::Schema(format!("{}", e))),
    }
}

/// Relies on rusqlite's `Connection::execute_batch` issuing `BEGIN`:
/// succeeds only in autocommit mode, and the state at this point
/// becomes the rollback point.
#[verifier::external_body]
pub(crate) fn exec_begin(conn: &mut rusqlite::Connection) -> (r: Result<(), StorageError>)
    ensures
        r matches Ok(u) ==> {
            &&& db_txn(*old(conn)) is None
            &&& db_schema(*final(conn)) == db_schema(*old(conn))
            &&& db_rows(*final(conn)) == db_rows(*old(conn))
            &&& db_txn(*final(conn)) == Some((db_schema(*old(conn)), db_rows(*old(conn))))
        },
        r matches Err(e) ==> {
            &&& db_schema(*final(conn)) == db_schema(*old(conn))
            &&& db_rows(*final(conn)) == db_rows(*old(conn))
            &&& db_txn(*final(conn)) == db_txn(*old(conn))
            &&& e is Backend
        },
{
    match conn.execute_batch("BEGIN") {
        Ok(_) => Ok(()),
        Err(e) => Err(StorageError::Backend(format!("{}", e))),
    }
}

/// Relies on rusqlite's `Connection::execute_batch` issuing `COMMIT`:
/// on success the open transaction's work is kept and the connection is
/// back in autocommit mode.  On failure the store either leaves the
/// transaction open and the state as it was, or has rolled back to the
/// rollback point on its own.
#[verifier::external_body]
pub(crate) fn exec_commit(conn: &mut rusqlite::Connection) -> (r: Result<(), StorageError>)
    ensures
        r matches Ok(u) ==> {
            &&& db_txn(*old(conn)) is Some
            &&& db_schema(*final(conn)) == db_schema(*old(conn))
            &&& db_rows(*final(conn)) == db_rows(*old(conn))
            &&& db_txn(*final(conn)) is None
        },
        r matches Err(e) ==> {
            &&& e is Backend
            &&& {
                ||| {
                    &&& db_schema(*final(conn)) == db_schema(*old(conn))
                    &&& db_rows(*final(conn)) == db_rows(*old(conn))
                    &&& db_txn(*final(conn)) == db_txn(*old(conn))
                }
                ||| {
                    &&& db_txn(*old(conn)) matches Some(snap)
                    &&& db_schema(*final(conn)) == snap.0
                    &&& db_rows(*final(conn)) == snap.1
                    &&& db_txn(*final(conn)) is None
                }
            }
        },
{
    match conn.execute_batch("COMMIT") {
        Ok(_) => Ok(()),
        Err(e) => Err(StorageError::Backend(format!("{}", e))),
    }
}

/// Relies on rusqlite's `Connection::execute_batch` issuing `ROLLBACK`:
/// on success the state is back at the rollback point and the
/// connection is in autocommit mode; a rollback that fails (none open,
/// or the store cannot proceed) changes nothing.
#[verifier::external_body]
pub(crate) fn exec_rollback(conn: &mut rusqlite::Connection) -> (r: Result<(), StorageError>)
    ensures
        r matches Ok(u) ==> {
            &&& db_txn(*old(conn)) matches Some(snap) && db_schema(*final(conn)) == snap.0
                && db_rows(*final(conn)) == snap.1
            &&& db_txn(*final(conn)) is None
        },
        r matches Err(e) ==> {
            &&& db_schema(*final(conn)) == db_schema(*old(conn))
            &&& db_rows(*final(conn)) == db_rows(*old(conn))
            &&& db_txn(*final(conn)) == db_txn(*old(conn))
            &&& e is Backend
        },
{
    match conn.execute_batch("ROLLBACK") {
        Ok(_) => Ok(()),
        Err(e) => Err(StorageError::Backend(format!("{}", e))),
    }
}

/// Relies on rusqlite's `Connection::execute` with positional
/// parameters, issuing the parameterized insert built for the
/// relation's full column list: on success exactly the given row is
/// added, so the row violated no constraint the relation declares.  A
/// failed statement (a constraint violation above all) adds nothing:
/// either everything is as it was, or — for the store's gravest
/// failures inside a transaction — the store has rolled the whole
/// transaction back to its rollback point on its own.
#[verifier::external_body]
pub(crate) fn exec_insert_row(
    conn: &mut rusqlite::Connection,
    table: &str,
    sql: &str,
    row: &Vec<rusqlite::types::Value>,
) -> (r: Result<(), StorageError>)
    requires
        is_sql_ident(table@),
        db_schema(*old(conn)).contains_key(table@),
        sql@ == insert_sql_model(
            table@,
            db_schema(*old(conn))[table@].map_values(|p: ColSchema| p.name),
        ),
        row_fits(row@.map_values(|v: rusqlite::types::Value| sql_value_model(v)), db_schema(*old(conn))[table@]),
    ensures
        r matches Ok(u) ==> {
            &&& db_schema(*final(conn)) == db_schema(*old(conn))
            &&& db_rows(*final(conn)) == db_rows(*old(conn)).insert(
                table@,
                rows_of(db_rows(*old(conn)), table@).insert(
                    row@.map_values(|v: rusqlite::types::Value| sql_value_model(v)),
                ),
            )
            &&& db_txn(*final(conn)) == db_txn(*old(conn))
            &&& !row_violates(
                row@.map_values(|v: rusqlite::types::Value| sql_value_model(v)),
                db_schema(*old(conn))[table@],
                rows_of(db_rows(*old(conn)), table@),
            )
        },
        r matches Err(e) ==> {
            &&& (e is Constraint || e is Backend)
            &&& {
                ||| {
                    &&& db_schema(*final(conn)) == db_schema(*old(conn))
                    &&& db_rows(*final(conn)) == db_rows(*old(conn))
                    &&& db_txn(*final(conn)) == db_txn(*old(conn))
                }
                ||| {
                    &&& db_txn(*old(conn)) matches Some(snap)
                    &&& db_schema(*final(conn)) == snap.0
                    &&& db_rows(*final(conn)) == snap.1
                    &&& db_txn(*final(conn)) is None
                }
            }
        },
{
    match conn.execute(sql, rusqlite::params_from_iter(row.iter())) {
        Ok(_) => Ok(()),
        Err(e) => {
            if e.sqlite_error_code() == Some(rusqlite::ErrorCode::ConstraintViolation) {
                Err(StorageError::Constraint(format!("{}", e)))
            } else {
                Err(StorageError::Backend(format!("{}", e)))
            }
        },
    }
}

/// Relies on rusqlite's `Connection::prepare`/`Statement::query_map`
/// over `SELECT name, type, "notnull", pk FROM pragma_table_info(?1)`:
/// the store reports the relation's columns — identifier, declared type
/// text, not-null mark, and key ordinal — in declaration order, and
/// nothing for an absent relation.
#[verifier::external_body]
pub(crate) fn read_schema(conn: &rusqlite::Connection, table: &str) -> (r: Result<
    Vec<(String, String, i64, i64)>,
    StorageError,
>)
    requires
        is_sql_ident(table@),
    ensures
        r matches Ok(v) ==> v@.map_values(
            |p: (String, String, i64, i64)|
                ColSchema { name: p.0@, decl: p.1@, not_null: p.2 as int, pk: p.3 as int },
        ) == schema_of(db_schema(*conn), table@),
        r matches Err(e) ==> e is Backend,
{
    let res: rusqlite::Result<Vec<(String, String, i64, i64)>> = (|| {
        let mut stmt = conn.prepare(
            "SELECT name, type, \"notnull\", pk FROM pragma_table_info(?1)",
        )?;
        let rows = stmt.query_map(
            [table],
            |row| Ok((row.get(0)?, row.get(1)?, row.get(2)?, row.get(3)?)),
        )?;
        rows.collect()
    })();
    match res {
        Ok(v) => Ok(v),
        Err(e) => Err(StorageError::Backend(format!("{}", e))),
    }
}

/// Relies on rusqlite's `Statement::query_map` over
/// `SELECT * FROM <table>`: the store hands back every row of the
/// relation, one value per column in declaration order; the order of
/// the rows is left open.
#[verifier::external_body]
pub(crate) fn query_rows(conn: &rusqlite::Connection, table: &str, sql: &str) -> (r: Result<
    Vec<Vec<rusqlite::types::Value>>,
    StorageError,
>)
    requires
        is_sql_ident(table@),
        sql@ == select_sql_model(table@),
    ensures
        r matches Ok(v) ==> v@.map_values(
            |row: Vec<rusqlite::types::Value>| row@.map_values(|x: rusqlite::types::Value| sql_value_model(x)),
        ).to_multiset() == rows_of(db_rows(*conn), table@),
        r matches Err(e) ==> e is Backend,
{
    let res: rusqlite::Result<Vec<Vec<rusqlite::types::Value>>> = (|| {
        let mut stmt = conn.prepare(sql)?;
        let n = stmt.column_count();
        let rows = stmt.query_map([], |row| {
            (0..n).map(|i| row.get::<usize, rusqlite::types::Value>(i)).collect()
        })?;
        rows.collect()
    })();
    match res {
        Ok(v) => Ok(v),
        Err(e) => Err(StorageError::Backend(format!("{}", e))),
    }
}

/// Relies on rusqlite's `types::Value` constructors: builds the stored
/// form of a plain value.
#[verifier::external_body]
pub(crate) fn plain_to_sql(v: &PlainValue) -> (r: rusqlite::types::Value)
    ensures
        sql_value_model(r) == v@,
{
    match v {
        PlainValue::Text(s) => rusqlite::types::Value::Text(s.clone()),
        PlainValue::Integer(i) => rusqlite::types::Value::Integer(*i),
        PlainValue::Null => rusqlite::types::Value::Null,
    }
}

/// Relies on rusqlite's `types::Value` variants: reads a stored value
/// back as a plain value, or nothing for a storage class this library
/// does not handle.
#[verifier::external_body]
pub(crate) fn sql_to_plain(v: &rusqlite::types::Value) -> (r: Option<PlainValue>)
    ensures
        r matches Some(p) ==> p@ == sql_value_model(*v),
        r is None <==> sql_value_model(*v) is Other,
{
    match v {
        rusqlite::types::Value::Text(s) => Some(PlainValue::Text(s.clone())),
        rusqlite::types::Value::Integer(i) => Some(PlainValue::Integer(*i)),
        rusqlite::types::Value::Null => Some(PlainValue::Null),
        rusqlite::types::Value::Real(_) => None,
        rusqlite::types::Value::Blob(_) => None,
    }
}

} // verus!
