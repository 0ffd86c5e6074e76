//! The generic persistence core: the schema contract every entity type
//! supplies, the table lifecycle, the transactional batch writer, the
//! typed reader, and the storage capability surface the application
//! services depend on.

use vstd::multiset::Multiset;
use vstd::prelude::*;
use vstd::string::StringExecFns;

use crate::agency::Agency;
use crate::sqlgen::{create_table_sql, drop_table_sql, insert_sql, select_sql};
use crate::sqlite::{
    db_rows, db_schema, db_txn, exec_begin, exec_commit, exec_create, exec_drop, exec_insert_row,
    exec_rollback, open_conn, plain_to_sql, query_rows, read_schema, rows_of, schema_of,
    sql_to_plain, sql_value_model, StorageError,
};
use crate::trips::{RouteId, Trip};
use crate::values::{
    col_pairs, is_sql_ident, row_fits, row_violates, ColSchema, ColumnDef, ColumnModel,
    PlainValue, ValueV,
};

verus! {

/// The schema contract: an entity type declares the relation that backs
/// it.  The executable metadata is pinned to spec-level counterparts,
/// and the proof obligations tie the row encoding to the column layout:
/// every encoded row fits the declared columns, and decoding is the
/// exact inverse of encoding.
pub trait Table: View + Sized {
    /// The name of the backing relation.
    spec fn spec_table_name() -> Seq<char>;

    /// The declared column layout, in binding order.
    spec fn spec_columns() -> Seq<ColumnModel>;

    /// The stored form of a record: one value per column, in order.
    spec fn row_model(m: Self::V) -> Seq<ValueV>;

    /// The record a stored row reconstructs to, if any.
    spec fn spec_from_row(row: Seq<ValueV>) -> Option<Self::V>;

    /// The table name and every column name are plain identifiers, and
    /// the layout is never empty (an empty creation clause would make a
    /// columnless relation).
    proof fn lemma_wf()
        ensures
            is_sql_ident(Self::spec_table_name()),
            Self::spec_columns().len() > 0,
            forall|i: int|
                0 <= i < Self::spec_columns().len() ==> is_sql_ident(
                    #[trigger] Self::spec_columns()[i].name,
                ),
    ;

    /// Every encoded row matches the declared columns position by
    /// position.
    proof fn lemma_row_fits(m: Self::V)
        ensures
            row_fits(Self::row_model(m), col_pairs(Self::spec_columns())),
    ;

    /// Decoding inverts encoding: a record comes back from its own row.
    proof fn lemma_round_trip(m: Self::V)
        ensures
            Self::spec_from_row(Self::row_model(m)) == Some(m),
    ;

    /// Encoding inverts decoding: a row that reconstructs at all is the
    /// encoding of what it reconstructs to.
    proof fn lemma_decode_encode(row: Seq<ValueV>)
        ensures
            Self::spec_from_row(row) matches Some(m) ==> Self::row_model(m) == row,
    ;

    /// The name of the backing relation.
    fn table_name() -> (r: &'static str)
        ensures
            r@ == Self::spec_table_name(),
    ;

    /// The declared column layout, in binding order.
    fn columns() -> (r: Vec<ColumnDef>)
        ensures
            r@.map_values(|c: ColumnDef| c@) == Self::spec_columns(),
    ;

    /// The column identifiers, in binding order.
    fn column_names() -> (r: Vec<&'static str>)
        ensures
            r@.map_values(|s: &'static str| s@) == Self::spec_columns().map_values(
                |c: ColumnModel| c.name,
            ),
    ;

    /// Serializes a record into its stored row.
    fn to_row(&self) -> (r: Vec<PlainValue>)
        ensures
            r@.map_values(|v: PlainValue| v@) == Self::row_model(self@),
    ;

    /// Reconstructs a record from a stored row.
    fn from_row(row: &Vec<PlainValue>) -> (r: Option<Self>)
        ensures
            r matches Some(x) ==> Self::spec_from_row(row@.map_values(|v: PlainValue| v@))
                == Some(x@),
            r is None ==> Self::spec_from_row(row@.map_values(|v: PlainValue| v@)) is None,
    ;
}

/// An entity's columns as the backing store would describe them.
pub open spec fn declared_pairs<T: Table>() -> Seq<ColSchema> {
    col_pairs(T::spec_columns())
}

/// What creating a relation does to the database: an absent relation
/// appears empty with the given columns; a present one is untouched.
pub open spec fn create_effect(
    s: Map<Seq<char>, Seq<ColSchema>>,
    r: Map<Seq<char>, Multiset<Seq<ValueV>>>,
    t: Seq<char>,
    cols: Seq<ColSchema>,
) -> (Map<Seq<char>, Seq<ColSchema>>, Map<Seq<char>, Multiset<Seq<ValueV>>>) {
    if s.contains_key(t) {
        (s, r)
    } else {
        (s.insert(t, cols), r.insert(t, Multiset::empty()))
    }
}

/// What dropping a relation does to the database.
pub open spec fn drop_effect(
    s: Map<Seq<char>, Seq<ColSchema>>,
    r: Map<Seq<char>, Multiset<Seq<ValueV>>>,
    t: Seq<char>,
) -> (Map<Seq<char>, Seq<ColSchema>>, Map<Seq<char>, Multiset<Seq<ValueV>>>) {
    (s.remove(t), r.remove(t))
}

/// What committing a batch insert does to the rows of the database: the
/// encodings of the batch join the relation's bag of rows; an empty
/// batch changes nothing.
pub open spec fn insert_effect<T: Table>(
    r: Map<Seq<char>, Multiset<Seq<ValueV>>>,
    batch: Seq<T>,
) -> Map<Seq<char>, Multiset<Seq<ValueV>>> {
    if batch.len() == 0 {
        r
    } else {
        r.insert(
            T::spec_table_name(),
            rows_of(r, T::spec_table_name()).add(
                batch.map_values(|x: T| T::row_model(x@)).to_multiset(),
            ),
        )
    }
}

/// Whether a batch can be written without violating a constraint its
/// relation declares: no record's row leaves a declared not-null column
/// empty or duplicates a declared key, against the rows already stored
/// together with the batch's own earlier records.
pub open spec fn batch_admissible<T: Table>(
    batch: Seq<T>,
    existing: Multiset<Seq<ValueV>>,
) -> bool {
    forall|i: int|
        0 <= i < batch.len() ==> !row_violates(
            T::row_model((#[trigger] batch[i])@),
            declared_pairs::<T>(),
            existing.add(batch.take(i).map_values(|x: T| T::row_model(x@)).to_multiset()),
        )
}

/// Whether two row maps agree on every relation but `t`.
pub open spec fn rows_same_except(
    m1: Map<Seq<char>, Multiset<Seq<ValueV>>>,
    m2: Map<Seq<char>, Multiset<Seq<ValueV>>>,
    t: Seq<char>,
) -> bool {
    forall|k: Seq<char>|
        #![trigger rows_of(m1, k)]
        #![trigger rows_of(m2, k)]
        k != t ==> rows_of(m1, k) == rows_of(m2, k)
}

/// A batch insert touches no relation but its own.
proof fn lemma_insert_effect_same_except<T: Table>(
    r: Map<Seq<char>, Multiset<Seq<ValueV>>>,
    batch: Seq<T>,
)
    ensures
        rows_same_except(insert_effect::<T>(r, batch), r, T::spec_table_name()),
{
    assert forall|k: Seq<char>| k != T::spec_table_name() implies rows_of(
        insert_effect::<T>(r, batch),
        k,
    ) == rows_of(r, k) by {}
}

/// Creates the backing relation of `T` if it is absent (idempotent).
/// The lifecycle runs in autocommit mode, outside any batch
/// transaction.
pub fn create_table<T: Table>(conn: &mut rusqlite::Connection) -> (r: Result<(), StorageError>)
    requires
        db_txn(*old(conn)) is None,
    ensures
        r matches Ok(u) ==> {
            let e = create_effect(
                db_schema(*old(conn)),
                db_rows(*old(conn)),
                T::spec_table_name(),
                declared_pairs::<T>(),
            );
            &&& db_schema(*final(conn)) == e.0
            &&& db_rows(*final(conn)) == e.1
            &&& db_txn(*final(conn)) == db_txn(*old(conn))
        },
        r matches Err(e) ==> {
            &&& db_schema(*final(conn)) == db_schema(*old(conn))
            &&& db_rows(*final(conn)) == db_rows(*old(conn))
            &&& db_txn(*final(conn)) == db_txn(*old(conn))
            &&& e is Schema
        },
{
    let cols = T::columns();
    let name = T::table_name();
    let sql = create_table_sql(name, &cols);
    proof {
        T::lemma_wf();
        assert forall|i: int| 0 <= i < cols@.len() implies is_sql_ident(
            #[trigger] cols@[i]@.name,
        ) by {
            assert(cols@.map_values(|c: ColumnDef| c@)[i] == cols@[i]@);
        }
    }
    exec_create(conn, name, &cols, sql.as_str())
}

/// Drops the backing relation of `T` if it is present (idempotent).
/// The lifecycle runs in autocommit mode, outside any batch
/// transaction.
pub fn drop_table<T: Table>(conn: &mut rusqlite::Connection) -> (r: Result<(), StorageError>)
    requires
        db_txn(*old(conn)) is None,
    ensures
        r matches Ok(u) ==> {
            let e = drop_effect(db_schema(*old(conn)), db_rows(*old(conn)), T::spec_table_name());
            &&& db_schema(*final(conn)) == e.0
            &&& db_rows(*final(conn)) == e.1
            &&& db_txn(*final(conn)) == db_txn(*old(conn))
        },
        r matches Err(e) ==> {
            &&& db_schema(*final(conn)) == db_schema(*old(conn))
            &&& db_rows(*final(conn)) == db_rows(*old(conn))
            &&& db_txn(*final(conn)) == db_txn(*old(conn))
            &&& e is Schema
        },
{
    let name = T::table_name();
    let sql = drop_table_sql(name);
    proof {
        T::lemma_wf();
    }
    exec_drop(conn, name, sql.as_str())
}

/// Whether the relation's reported columns equal the entity's declared
/// layout.
pub open spec fn schema_matches<T: Table>(
    s: Map<Seq<char>, Seq<ColSchema>>,
) -> bool {
    schema_of(s, T::spec_table_name()) == declared_pairs::<T>()
}

/// Reads the backing relation's columns and compares them with the
/// entity's declared layout: success exactly when they agree.
fn check_binding<T: Table>(conn: &rusqlite::Connection) -> (r: Result<(), StorageError>)
    ensures
        r matches Ok(u) ==> schema_matches::<T>(db_schema(*conn)) && db_schema(
            *conn,
        ).contains_key(T::spec_table_name()),
        r matches Err(e) ==> e is Backend || (e is Binding && !schema_matches::<T>(
            db_schema(*conn),
        )),
{
    let name = T::table_name();
    proof {
        T::lemma_wf();
    }
    let reported = match read_schema(conn, name) {
        Ok(v) => v,
        Err(e) => {
            return Err(e);
        },
    };
    let cols = T::columns();
    let ghost pairs = declared_pairs::<T>();
    let ghost found = schema_of(db_schema(*conn), T::spec_table_name());
    if reported.len() != cols.len() {
        proof {
            assert(found.len() == reported@.len());
            assert(pairs.len() == cols@.len());
        }
        return Err(StorageError::Binding("record columns do not match the relation".to_owned()));
    }
    let mut i: usize = 0;
    while i < cols.len()
        invariant
            0 <= i <= cols.len(),
            reported@.len() == cols@.len(),
            pairs == declared_pairs::<T>(),
            found == schema_of(db_schema(*conn), T::spec_table_name()),
            reported@.map_values(
                |p: (String, String, i64, i64)|
                    ColSchema { name: p.0@, decl: p.1@, not_null: p.2 as int, pk: p.3 as int },
            ) == found,
            cols@.map_values(|c: ColumnDef| c@) == T::spec_columns(),
            forall|k: int| 0 <= k < i ==> #[trigger] found[k] == pairs[k],
        decreases cols.len() - i,
    {
        let dn: String = cols[i].name.to_owned();
        let dt: String = crate::sqlgen::decl_text(cols[i].ctype).to_owned();
        let en: i64 = if cols[i].not_null {
            1
        } else {
            0
        };
        let ep: i64 = if cols[i].primary_key {
            1
        } else {
            0
        };
        let same_name = reported[i].0 == dn;
        let same_type = reported[i].1 == dt;
        let same_nn = reported[i].2 == en;
        let same_pk = reported[i].3 == ep;
        proof {
            let rm = reported@.map_values(
                |p: (String, String, i64, i64)|
                    ColSchema { name: p.0@, decl: p.1@, not_null: p.2 as int, pk: p.3 as int },
            );
            assert(rm[i as int] == ColSchema {
                name: reported@[i as int].0@,
                decl: reported@[i as int].1@,
                not_null: reported@[i as int].2 as int,
                pk: reported@[i as int].3 as int,
            });
            assert(pairs[i as int] == crate::values::col_pair(T::spec_columns()[i as int]));
            assert(cols@.map_values(|c: ColumnDef| c@)[i as int] == cols@[i as int]@);
        }
        if !(same_name && same_type && same_nn && same_pk) {
            proof {
                assert(found[i as int] != pairs[i as int]);
                assert(!schema_matches::<T>(db_schema(*conn))) by {
                    if found == pairs {
                        assert(found[i as int] == pairs[i as int]);
                    }
                }
            }
            return Err(
                StorageError::Binding("record columns do not match the relation".to_owned()),
            );
        }
        proof {
            assert(found[i as int] == pairs[i as int]);
        }
        i = i + 1;
    }
    proof {
        T::lemma_wf();
        assert(found =~= pairs);
        if !db_schema(*conn).contains_key(T::spec_table_name()) {
            assert(found.len() == 0);
            assert(pairs.len() == T::spec_columns().len());
        }
    }
    Ok(())
}

/// Inserts a batch of records in one transaction.  On success the
/// relation was bound against the records' declared layout, no record
/// violated a constraint the relation declares, and exactly the batch's
/// encodings were added.  On failure the error carries the first
/// failure's class — `Binding` exactly when the layouts disagree — and
/// the database is unchanged, unless the store could not even roll
/// back, in which case the transaction is still open with the entry
/// state as its rollback point.  In every outcome no relation but `T`'s
/// own changes.
pub fn insert<T: Table>(conn: &mut rusqlite::Connection, records: &Vec<T>) -> (r: Result<
    (),
    StorageError,
>)
    ensures
        r matches Ok(u) ==> {
            &&& db_schema(*final(conn)) == db_schema(*old(conn))
            &&& db_rows(*final(conn)) == insert_effect::<T>(db_rows(*old(conn)), records@)
            &&& db_txn(*old(conn)) is None
            &&& db_txn(*final(conn)) is None
            &&& schema_matches::<T>(db_schema(*old(conn)))
            &&& batch_admissible::<T>(records@, rows_of(db_rows(*old(conn)), T::spec_table_name()))
            &&& rows_same_except(db_rows(*final(conn)), db_rows(*old(conn)), T::spec_table_name())
        },
        r matches Err(e) ==> {
            &&& e is Binding || e is Constraint || e is Backend
            &&& e is Binding ==> !schema_matches::<T>(db_schema(*old(conn)))
            &&& db_schema(*final(conn)) == db_schema(*old(conn))
            &&& rows_same_except(db_rows(*final(conn)), db_rows(*old(conn)), T::spec_table_name())
            &&& {
                ||| {
                    &&& db_rows(*final(conn)) == db_rows(*old(conn))
                    &&& db_txn(*final(conn)) == db_txn(*old(conn))
                }
                ||| db_txn(*final(conn)) == Some((db_schema(*old(conn)), db_rows(*old(conn))))
            }
        },
{
    let name = T::table_name();
    proof {
        T::lemma_wf();
    }
    match check_binding::<T>(conn) {
        Ok(u) => u,
        Err(e) => {
            return Err(e);
        },
    };
    let cols = T::columns();
    let sql = insert_sql(name, &cols);
    proof {
        let snames = db_schema(*conn)[T::spec_table_name()].map_values(|p: ColSchema| p.name);
        let dnames = cols@.map_values(|c: ColumnDef| c@.name);
        assert forall|k: int| 0 <= k < snames.len() implies snames[k] == dnames[k] by {
            assert(col_pairs(T::spec_columns())[k] == crate::values::col_pair(
                T::spec_columns()[k],
            ));
            assert(cols@.map_values(|c: ColumnDef| c@)[k] == cols@[k]@);
        }
        assert(snames =~= dnames);
    }
    match exec_begin(conn) {
        Ok(u) => u,
        Err(e) => {
            return Err(e);
        },
    };
    let ghost schema0 = db_schema(*old(conn));
    let ghost rows0 = db_rows(*old(conn));
    let mut i: usize = 0;
    while i < records.len()
        invariant
            0 <= i <= records.len(),
            schema0 == db_schema(*old(conn)),
            rows0 == db_rows(*old(conn)),
            db_schema(*conn) == schema0,
            db_txn(*old(conn)) is None,
            db_txn(*conn) == Some((schema0, rows0)),
            db_rows(*conn) == insert_effect::<T>(rows0, records@.take(i as int)),
            schema_matches::<T>(schema0),
            schema0.contains_key(T::spec_table_name()),
            sql@ == crate::sqlgen::insert_sql_model(
                T::spec_table_name(),
                schema0[T::spec_table_name()].map_values(|p: ColSchema| p.name),
            ),
            name@ == T::spec_table_name(),
            forall|k: int|
                0 <= k < i ==> !row_violates(
                    T::row_model((#[trigger] records@[k])@),
                    declared_pairs::<T>(),
                    rows_of(rows0, T::spec_table_name()).add(
                        records@.take(k).map_values(|x: T| T::row_model(x@)).to_multiset(),
                    ),
                ),
        decreases records.len() - i,
    {
        let prow = records[i].to_row();
        let mut vals: Vec<rusqlite::types::Value> = Vec::new();
        let mut j: usize = 0;
        while j < prow.len()
            invariant
                0 <= j <= prow.len(),
                prow@.map_values(|v: PlainValue| v@) == T::row_model(records@[i as int]@),
                i < records@.len(),
                vals@.len() == j,
                forall|k: int|
                    0 <= k < j ==> sql_value_model(#[trigger] vals@[k]) == prow@[k]@,
            decreases prow.len() - j,
        {
            let sv = plain_to_sql(&prow[j]);
            vals.push(sv);
            j = j + 1;
        }
        proof {
            T::lemma_wf();
            let rm = T::row_model(records@[i as int]@);
            assert(prow@.len() == rm.len()) by {
                assert(prow@.map_values(|v: PlainValue| v@).len() == prow@.len());
            }
            assert forall|k: int| 0 <= k < rm.len() implies #[trigger] rm[k] == prow@[k]@ by {
                assert(prow@.map_values(|v: PlainValue| v@)[k] == prow@[k]@);
            }
            assert(vals@.map_values(|v: rusqlite::types::Value| sql_value_model(v)) =~= rm) by {
                assert forall|k: int| 0 <= k < vals@.len() implies sql_value_model(
                    #[trigger] vals@[k],
                ) == rm[k] by {
                    assert(prow@[k]@ == rm[k]);
                }
            }
            T::lemma_row_fits(records@[i as int]@);
        }
        match exec_insert_row(conn, name, sql.as_str(), &vals) {
            Ok(u) => u,
            Err(e) => {
                proof {
                    lemma_insert_effect_same_except::<T>(rows0, records@.take(i as int));
                }
                let _ = exec_rollback(conn);
                return Err(e);
            },
        };
        proof {
            let rm = T::row_model(records@[i as int]@);
            let taken = records@.take(i as int).map_values(|x: T| T::row_model(x@));
            let taken1 = records@.take(i + 1).map_values(|x: T| T::row_model(x@));
            assert(taken1.drop_last() =~= taken);
            assert(taken1.last() == rm);
            broadcast use vstd::seq_lib::group_to_multiset_ensures;

            assert(taken1 =~= taken.push(rm));
            assert(taken1.to_multiset() =~= taken.to_multiset().insert(rm));
            if i == 0 {
                assert(taken.to_multiset() =~= Multiset::empty());
                assert(rows_of(rows0, T::spec_table_name()).add(taken1.to_multiset())
                    =~= rows_of(rows0, T::spec_table_name()).insert(rm));
            } else {
                assert(rows_of(insert_effect::<T>(rows0, records@.take(i as int)),
                    T::spec_table_name()) == rows_of(rows0, T::spec_table_name()).add(
                    taken.to_multiset(),
                ));
                assert(rows_of(rows0, T::spec_table_name()).add(taken.to_multiset()).insert(rm)
                    =~= rows_of(rows0, T::spec_table_name()).add(taken1.to_multiset()));
            }
            assert(db_rows(*conn) == insert_effect::<T>(rows0, records@.take(i + 1)));
            broadcast use vstd::multiset::group_multiset_axioms;

            assert(schema0[T::spec_table_name()] == declared_pairs::<T>());
            if i == 0 {
                assert(taken.to_multiset().len() == 0);
                assert(rows_of(rows0, T::spec_table_name()).add(taken.to_multiset()) =~= rows_of(
                    rows0,
                    T::spec_table_name(),
                ));
            }
            assert(!row_violates(
                rm,
                declared_pairs::<T>(),
                rows_of(rows0, T::spec_table_name()).add(taken.to_multiset()),
            ));
        }
        i = i + 1;
    }
    proof {
        assert(records@.take(records@.len() as int) =~= records@);
    }
    proof {
        lemma_insert_effect_same_except::<T>(rows0, records@);
    }
    match exec_commit(conn) {
        Ok(u) => Ok(()),
        Err(e) => {
            let _ = exec_rollback(conn);
            Err(e)
        },
    }
}

/// Reads every record of `T`'s relation: on success the result is, row
/// for row, the relation's bag of rows decoded; a row this library
/// cannot reconstruct aborts the read.
pub fn select_all<T: Table>(conn: &rusqlite::Connection) -> (r: Result<Vec<T>, StorageError>)
    ensures
        r matches Ok(v) ==> v@.map_values(|x: T| T::row_model(x@)).to_multiset() == rows_of(
            db_rows(*conn),
            T::spec_table_name(),
        ),
        r matches Err(e) ==> e is Backend || e is Deserialization,
        r matches Err(e) && e is Deserialization ==> exists|row: Seq<ValueV>|
            rows_of(db_rows(*conn), T::spec_table_name()).count(row) > 0 && T::spec_from_row(row)
                is None,
{
    let name = T::table_name();
    proof {
        T::lemma_wf();
    }
    let sql = select_sql(name);
    let raw = match query_rows(conn, name, sql.as_str()) {
        Ok(v) => v,
        Err(e) => {
            return Err(e);
        },
    };
    let ghost rawm = raw@.map_values(
        |row: Vec<rusqlite::types::Value>| row@.map_values(
            |x: rusqlite::types::Value| sql_value_model(x),
        ),
    );
    let mut out: Vec<T> = Vec::new();
    let mut i: usize = 0;
    while i < raw.len()
        invariant
            0 <= i <= raw.len(),
            rawm == raw@.map_values(
                |row: Vec<rusqlite::types::Value>| row@.map_values(
                    |x: rusqlite::types::Value| sql_value_model(x),
                ),
            ),
            rawm.to_multiset() == rows_of(db_rows(*conn), T::spec_table_name()),
            out@.len() == i,
            forall|k: int| 0 <= k < i ==> T::row_model(#[trigger] out@[k]@) == rawm[k],
        decreases raw.len() - i,
    {
        let rrow = &raw[i];
        proof {
            assert(rawm[i as int] == rrow@.map_values(
                |x: rusqlite::types::Value| sql_value_model(x),
            ));
        }
        let mut prow: Vec<PlainValue> = Vec::new();
        let mut j: usize = 0;
        while j < rrow.len()
            invariant
                0 <= j <= rrow.len(),
                i < raw.len(),
                rawm[i as int] == rrow@.map_values(
                    |x: rusqlite::types::Value| sql_value_model(x),
                ),
                rawm.to_multiset() == rows_of(db_rows(*conn), T::spec_table_name()),
                rawm.len() == raw@.len(),
                prow@.len() == j,
                forall|k: int| 0 <= k < j ==> #[trigger] prow@[k]@ == rawm[i as int][k],
            decreases rrow.len() - j,
        {
            proof {
                assert(rrow@.map_values(|x: rusqlite::types::Value| sql_value_model(x))[j as int]
                    == sql_value_model(rrow@[j as int]));
            }
            match sql_to_plain(&rrow[j]) {
                Some(p) => {
                    prow.push(p);
                },
                None => {
                    proof {
                        lemma_other_fails_decode::<T>(rawm[i as int], j as int);
                        broadcast use vstd::seq_lib::group_to_multiset_ensures;

                        assert(rawm.contains(rawm[i as int]));
                        assert(rows_of(db_rows(*conn), T::spec_table_name()).count(
                            rawm[i as int],
                        ) > 0);
                    }
                    return Err(
                        StorageError::Deserialization(
                            "a stored value has no typed reading".to_owned(),
                        ),
                    );
                },
            }
            j = j + 1;
        }
        proof {
            assert(prow@.map_values(|v: PlainValue| v@) =~= rawm[i as int]) by {
                assert(rawm[i as int].len() == rrow@.len());
                assert forall|k: int| 0 <= k < prow@.len() implies (#[trigger] prow@[k])@
                    == rawm[i as int][k] by {}
            }
        }
        match T::from_row(&prow) {
            Some(x) => {
                proof {
                    T::lemma_decode_encode(rawm[i as int]);
                }
                out.push(x);
            },
            None => {
                proof {
                    broadcast use vstd::seq_lib::group_to_multiset_ensures;

                    assert(rawm.contains(rawm[i as int]));
                    assert(rows_of(db_rows(*conn), T::spec_table_name()).count(rawm[i as int])
                        > 0);
                }
                return Err(
                    StorageError::Deserialization(
                        "a stored row does not reconstruct into the target type".to_owned(),
                    ),
                );
            },
        }
        i = i + 1;
    }
    proof {
        assert(out@.map_values(|x: T| T::row_model(x@)) =~= rawm);
    }
    Ok(out)
}

/// A row holding a value of an unhandled storage class reconstructs to
/// nothing: anything that reconstructs is an encoding, and encodings
/// fit the declared columns, which such a value does not.
proof fn lemma_other_fails_decode<T: Table>(row: Seq<ValueV>, j: int)
    requires
        0 <= j < row.len(),
        row[j] is Other,
    ensures
        T::spec_from_row(row) is None,
{
    match T::spec_from_row(row) {
        Some(m) => {
            T::lemma_decode_encode(row);
            T::lemma_row_fits(m);
            assert(row_fits(row, col_pairs(T::spec_columns())));
            assert(crate::values::value_fits(row[j], col_pairs(T::spec_columns())[j].decl));
        },
        None => {},
    }
}


/// What creating every known relation does to the database, in the
/// order the lifecycle manager issues it.
pub open spec fn create_all_effect(
    s: Map<Seq<char>, Seq<ColSchema>>,
    r: Map<Seq<char>, Multiset<Seq<ValueV>>>,
) -> (Map<Seq<char>, Seq<ColSchema>>, Map<Seq<char>, Multiset<Seq<ValueV>>>) {
    let e = create_effect(s, r, Agency::spec_table_name(), declared_pairs::<Agency>());
    create_effect(e.0, e.1, Trip::spec_table_name(), declared_pairs::<Trip>())
}

/// What dropping every known relation does to the database.
pub open spec fn drop_all_effect(
    s: Map<Seq<char>, Seq<ColSchema>>,
    r: Map<Seq<char>, Multiset<Seq<ValueV>>>,
) -> (Map<Seq<char>, Seq<ColSchema>>, Map<Seq<char>, Multiset<Seq<ValueV>>>) {
    let e = drop_effect(s, r, Agency::spec_table_name());
    drop_effect(e.0, e.1, Trip::spec_table_name())
}

/// The storage capability the application services depend on: schema
/// lifecycle, batched inserts, and typed reads, stated over an abstract
/// model of the store so that callers never depend on the concrete
/// backing technology.
pub trait Gtfs {
    /// The schema of each relation of the store.
    spec fn schema_m(&self) -> Map<Seq<char>, Seq<ColSchema>>;

    /// The rows of each relation of the store.
    spec fn rows_m(&self) -> Map<Seq<char>, Multiset<Seq<ValueV>>>;

    /// The open transaction of the store, if one is open.
    spec fn txn_m(&self) -> Option<
        (Map<Seq<char>, Seq<ColSchema>>, Map<Seq<char>, Multiset<Seq<ValueV>>>),
    >;

    /// Creates every known relation that is absent.  The lifecycle runs
    /// in autocommit mode, outside any batch transaction.
    fn create_all(&mut self) -> (r: Result<(), StorageError>)
        requires
            old(self).txn_m() is None,
        ensures
            r matches Ok(u) ==> {
                let e = create_all_effect(old(self).schema_m(), old(self).rows_m());
                &&& final(self).schema_m() == e.0
                &&& final(self).rows_m() == e.1
                &&& final(self).txn_m() == old(self).txn_m()
            },
            r matches Err(e) ==> {
                &&& e is Schema
                &&& final(self).txn_m() == old(self).txn_m()
                &&& {
                    ||| {
                        &&& final(self).schema_m() == old(self).schema_m()
                        &&& final(self).rows_m() == old(self).rows_m()
                    }
                    ||| {
                        let e1 = create_effect(
                            old(self).schema_m(),
                            old(self).rows_m(),
                            Agency::spec_table_name(),
                            declared_pairs::<Agency>(),
                        );
                        &&& final(self).schema_m() == e1.0
                        &&& final(self).rows_m() == e1.1
                    }
                }
            },
    ;

    /// Drops every known relation that is present.  The lifecycle runs
    /// in autocommit mode, outside any batch transaction.
    fn drop_all(&mut self) -> (r: Result<(), StorageError>)
        requires
            old(self).txn_m() is None,
        ensures
            r matches Ok(u) ==> {
                let e = drop_all_effect(old(self).schema_m(), old(self).rows_m());
                &&& final(self).schema_m() == e.0
                &&& final(self).rows_m() == e.1
                &&& final(self).txn_m() == old(self).txn_m()
            },
            r matches Err(e) ==> {
                &&& e is Schema
                &&& final(self).txn_m() == old(self).txn_m()
                &&& {
                    ||| {
                        &&& final(self).schema_m() == old(self).schema_m()
                        &&& final(self).rows_m() == old(self).rows_m()
                    }
                    ||| {
                        let e1 = drop_effect(
                            old(self).schema_m(),
                            old(self).rows_m(),
                            Agency::spec_table_name(),
                        );
                        &&& final(self).schema_m() == e1.0
                        &&& final(self).rows_m() == e1.1
                    }
                }
            },
    ;

    /// Inserts a batch of agencies atomically: all of it on success —
    /// the batch having been bound against the relation's layout and
    /// having violated no declared constraint — and none of it on
    /// failure, unless the store could not even roll back, in which
    /// case the transaction is still open with the entry state as its
    /// rollback point.  No other relation changes either way.
    fn insert_agencies(&mut self, agencies: &Vec<Agency>) -> (r: Result<(), StorageError>)
        ensures
            r matches Ok(u) ==> {
                &&& final(self).schema_m() == old(self).schema_m()
                &&& final(self).rows_m() == insert_effect::<Agency>(old(self).rows_m(), agencies@)
                &&& old(self).txn_m() is None
                &&& final(self).txn_m() is None
                &&& schema_matches::<Agency>(old(self).schema_m())
                &&& batch_admissible::<Agency>(
                    agencies@,
                    rows_of(old(self).rows_m(), Agency::spec_table_name()),
                )
            },
            r matches Err(e) ==> {
                &&& e is Binding || e is Constraint || e is Backend
                &&& e is Binding ==> !schema_matches::<Agency>(old(self).schema_m())
                &&& final(self).schema_m() == old(self).schema_m()
                &&& {
                    ||| {
                        &&& final(self).rows_m() == old(self).rows_m()
                        &&& final(self).txn_m() == old(self).txn_m()
                    }
                    ||| final(self).txn_m() == Some((old(self).schema_m(), old(self).rows_m()))
                }
            },
            rows_same_except(final(self).rows_m(), old(self).rows_m(), Agency::spec_table_name()),
    ;

    /// Reads every stored agency.
    fn select_agencies(&mut self) -> (r: Result<Vec<Agency>, StorageError>)
        ensures
            final(self).schema_m() == old(self).schema_m(),
            final(self).rows_m() == old(self).rows_m(),
            final(self).txn_m() == old(self).txn_m(),
            r matches Ok(v) ==> v@.map_values(|x: Agency| Agency::row_model(x@)).to_multiset()
                == rows_of(old(self).rows_m(), Agency::spec_table_name()),
            r matches Err(e) ==> e is Backend || e is Deserialization,
    ;

    /// Inserts a batch of trips atomically: all of it on success — the
    /// batch having been bound against the relation's layout and having
    /// violated no declared constraint, the trip identifier's
    /// uniqueness above all — and none of it on failure, unless the
    /// store could not even roll back, in which case the transaction is
    /// still open with the entry state as its rollback point.  No other
    /// relation changes either way.
    fn insert_trips(&mut self, trips: &Vec<Trip>) -> (r: Result<(), StorageError>)
        ensures
            r matches Ok(u) ==> {
                &&& final(self).schema_m() == old(self).schema_m()
                &&& final(self).rows_m() == insert_effect::<Trip>(old(self).rows_m(), trips@)
                &&& old(self).txn_m() is None
                &&& final(self).txn_m() is None
                &&& schema_matches::<Trip>(old(self).schema_m())
                &&& batch_admissible::<Trip>(
                    trips@,
                    rows_of(old(self).rows_m(), Trip::spec_table_name()),
                )
            },
            r matches Err(e) ==> {
                &&& e is Binding || e is Constraint || e is Backend
                &&& e is Binding ==> !schema_matches::<Trip>(old(self).schema_m())
                &&& final(self).schema_m() == old(self).schema_m()
                &&& {
                    ||| {
                        &&& final(self).rows_m() == old(self).rows_m()
                        &&& final(self).txn_m() == old(self).txn_m()
                    }
                    ||| final(self).txn_m() == Some((old(self).schema_m(), old(self).rows_m()))
                }
            },
            rows_same_except(final(self).rows_m(), old(self).rows_m(), Trip::spec_table_name()),
    ;

    /// Reads stored trips: all of them, or only those serving the given
    /// route.
    fn select_trips(&mut self, route_id: &Option<RouteId>) -> (r: Result<Vec<Trip>, StorageError>)
        ensures
            final(self).schema_m() == old(self).schema_m(),
            final(self).rows_m() == old(self).rows_m(),
            final(self).txn_m() == old(self).txn_m(),
            r matches Ok(v) ==> match route_id {
                None => v@.map_values(|x: Trip| Trip::row_model(x@)).to_multiset() == rows_of(
                    old(self).rows_m(),
                    Trip::spec_table_name(),
                ),
                Some(id) => v@.map_values(|x: Trip| Trip::row_model(x@)).to_multiset() == rows_of(
                    old(self).rows_m(),
                    Trip::spec_table_name(),
                ).filter(|row: Seq<ValueV>| crate::trips::row_serves_route(row, id@)),
            },
            r matches Err(e) ==> e is Backend || e is Deserialization,
    ;
}

/// The concrete storage adapter: an exclusive connection to one SQLite
/// database file.
pub struct GtfsDb {
    connection: rusqlite::Connection,
}

impl GtfsDb {
    /// Opens (creating it if absent) the database file at `db`.
    pub fn new(db: &std::path::PathBuf) -> (r: Result<GtfsDb, StorageError>)
        ensures
            r matches Ok(g) ==> g.txn_m() is None,
            r matches Err(e) ==> e is Connection,
    {
        let conn = match open_conn(db) {
            Ok(c) => c,
            Err(e) => {
                return Err(e);
            },
        };
        Ok(GtfsDb { connection: conn })
    }
}

impl Gtfs for GtfsDb {
    closed spec fn schema_m(&self) -> Map<Seq<char>, Seq<ColSchema>> {
        db_schema(self.connection)
    }

    closed spec fn rows_m(&self) -> Map<Seq<char>, Multiset<Seq<ValueV>>> {
        db_rows(self.connection)
    }

    closed spec fn txn_m(&self) -> Option<
        (Map<Seq<char>, Seq<ColSchema>>, Map<Seq<char>, Multiset<Seq<ValueV>>>),
    > {
        db_txn(self.connection)
    }

    fn create_all(&mut self) -> (r: Result<(), StorageError>) {
        match create_table::<Agency>(&mut self.connection) {
            Ok(u) => u,
            Err(e) => {
                return Err(e);
            },
        };
        match create_table::<Trip>(&mut self.connection) {
            Ok(u) => u,
            Err(e) => {
                return Err(e);
            },
        };
        Ok(())
    }

    fn drop_all(&mut self) -> (r: Result<(), StorageError>) {
        match drop_table::<Agency>(&mut self.connection) {
            Ok(u) => u,
            Err(e) => {
                return Err(e);
            },
        };
        match drop_table::<Trip>(&mut self.connection) {
            Ok(u) => u,
            Err(e) => {
                return Err(e);
            },
        };
        Ok(())
    }

    fn insert_agencies(&mut self, agencies: &Vec<Agency>) -> (r: Result<(), StorageError>) {
        insert::<Agency>(&mut self.connection, agencies)
    }

    fn select_agencies(&mut self) -> (r: Result<Vec<Agency>, StorageError>) {
        select_all::<Agency>(&self.connection)
    }

    fn insert_trips(&mut self, trips: &Vec<Trip>) -> (r: Result<(), StorageError>) {
        insert::<Trip>(&mut self.connection, trips)
    }

    fn select_trips(&mut self, route_id: &Option<RouteId>) -> (r: Result<Vec<Trip>, StorageError>) {
        match route_id {
            Some(id) => crate::trips::select_by_route_id(&self.connection, id),
            None => select_all::<Trip>(&self.connection),
        }
    }
}

/// Opens the backing store at `path` and hands back the storage
/// capability over it.
pub fn init(path: &std::path::PathBuf) -> (r: Result<GtfsDb, StorageError>)
    ensures
        r matches Ok(g) ==> g.txn_m() is None,
        r matches Err(e) ==> e is Connection,
{
    GtfsDb::new(path)
}

} // verus!
