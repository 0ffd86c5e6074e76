//! The query path: read the stored trips back out of a database.
//! Choosing an output format and writing it live outside the library;
//! this module opens the store and hands back the typed records
//! together with the handle they were read from, so that what was
//! returned is pinned to what that store holds.

use vstd::prelude::*;

use crate::gtfsdb::{init, Gtfs, GtfsDb, Table};
use crate::sqlite::{rows_of, StorageError};
use crate::trips::Trip;

verus! {

/// The query command's options: where the database lives.
pub struct Opts {
    /// The path of the database file to read.
    pub database: std::path::PathBuf,
}

/// Opens the database at `op.database` and reads every stored trip: on
/// success the returned records are, row for row, exactly what the
/// returned store's trips relation holds.  The file may be unopenable,
/// the store may fail, or a stored row may not reconstruct into a trip;
/// each failure surfaces with its class.
pub fn run(op: &Opts) -> (r: Result<(GtfsDb, Vec<Trip>), StorageError>)
    ensures
        r matches Ok(p) ==> {
            &&& p.1@.map_values(|x: Trip| Trip::row_model(x@)).to_multiset() == rows_of(
                p.0.rows_m(),
                Trip::spec_table_name(),
            )
            &&& p.0.txn_m() is None
        },
        r matches Err(e) ==> e is Connection || e is Backend || e is Deserialization,
{
    let mut g = match init(&op.database) {
        Ok(g) => g,
        Err(e) => {
            return Err(e);
        },
    };
    match g.select_trips(&None) {
        Ok(v) => Ok((g, v)),
        Err(e) => Err(e),
    }
}

} // verus!
