//! The import path: rebuild the database from already-read record
//! batches.  Reading the flat source files and command-line handling
//! live outside the library; this module takes the parsed batches and
//! performs the destructive rebuild.

use vstd::multiset::Multiset;
use vstd::prelude::*;

use crate::agency::Agency;
use crate::gtfsdb::{declared_pairs, init, Gtfs, GtfsDb, Table};
use crate::sqlite::{rows_of, schema_of, StorageError};
use crate::trips::Trip;

verus! {

/// The import command's options: where the database lives.
pub struct Opts {
    /// The path of the database file to rebuild.
    pub database: std::path::PathBuf,
}

/// Rebuilds the database at `op.database` from the given batches: every
/// known relation is dropped, recreated empty, and filled, each batch in
/// one transaction.  On success the store holds exactly the given
/// records and nothing else.
pub fn run(op: &Opts, agencies: &Vec<Agency>, trips: &Vec<Trip>) -> (r: Result<
    GtfsDb,
    StorageError,
>)
    ensures
        r matches Ok(g) ==> {
            &&& schema_of(g.schema_m(), Agency::spec_table_name()) == declared_pairs::<Agency>()
            &&& schema_of(g.schema_m(), Trip::spec_table_name()) == declared_pairs::<Trip>()
            &&& rows_of(g.rows_m(), Agency::spec_table_name()) == agencies@.map_values(
                |x: Agency| Agency::row_model(x@),
            ).to_multiset()
            &&& rows_of(g.rows_m(), Trip::spec_table_name()) == trips@.map_values(
                |x: Trip| Trip::row_model(x@),
            ).to_multiset()
            &&& g.txn_m() is None
        },
{
    let mut g = match init(&op.database) {
        Ok(g) => g,
        Err(e) => {
            return Err(e);
        },
    };
    match g.drop_all() {
        Ok(u) => u,
        Err(e) => {
            return Err(e);
        },
    };
    match g.create_all() {
        Ok(u) => u,
        Err(e) => {
            return Err(e);
        },
    };
    proof {
        lemma_names_differ();
        broadcast use vstd::seq_lib::group_to_multiset_ensures;

        assert(rows_of(g.rows_m(), Agency::spec_table_name()) =~= Multiset::empty());
        assert(rows_of(g.rows_m(), Trip::spec_table_name()) =~= Multiset::empty());
    }
    match g.insert_agencies(agencies) {
        Ok(u) => u,
        Err(e) => {
            return Err(e);
        },
    };
    proof {
        lemma_names_differ();
        lemma_rows_from_empty::<Agency>(agencies@);
    }
    match g.insert_trips(trips) {
        Ok(u) => u,
        Err(e) => {
            return Err(e);
        },
    };
    proof {
        lemma_names_differ();
        lemma_rows_from_empty::<Trip>(trips@);
    }
    Ok(g)
}

/// The two known relations have distinct names.
proof fn lemma_names_differ()
    ensures
        Agency::spec_table_name() != Trip::spec_table_name(),
{
    reveal_strlit("agency");
    reveal_strlit("trips");
    assert(("agency"@).len() == 6);
    assert(("trips"@).len() == 5);
}

/// Inserting a batch into an empty relation leaves exactly the batch's
/// encodings there, whether or not the batch is empty.
proof fn lemma_rows_from_empty<T: crate::gtfsdb::Table>(batch: Seq<T>)
    ensures
        ({
            let ms = batch.map_values(|x: T| T::row_model(x@)).to_multiset();
            forall|r: Map<Seq<char>, Multiset<Seq<crate::values::ValueV>>>|
                rows_of(#[trigger] crate::gtfsdb::insert_effect::<T>(r, batch), T::spec_table_name())
                    == rows_of(r, T::spec_table_name()).add(ms)
        }),
{
    broadcast use vstd::seq_lib::group_to_multiset_ensures;
    broadcast use vstd::multiset::group_multiset_axioms;

    let ms = batch.map_values(|x: T| T::row_model(x@)).to_multiset();
    assert forall|r: Map<Seq<char>, Multiset<Seq<crate::values::ValueV>>>|
        rows_of(#[trigger] crate::gtfsdb::insert_effect::<T>(r, batch), T::spec_table_name())
            == rows_of(r, T::spec_table_name()).add(ms) by {
        if batch.len() == 0 {
            assert(batch.map_values(|x: T| T::row_model(x@)).len() == 0);
            assert(ms.len() == 0);
            assert(rows_of(r, T::spec_table_name()).add(ms) =~= rows_of(
                r,
                T::spec_table_name(),
            )) by {
                assert forall|row: Seq<crate::values::ValueV>| ms.count(row) == 0 by {
                    assert(ms.count(row) <= ms.len());
                }
            }
        }
    }
}

} // verus!
