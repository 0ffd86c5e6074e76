//! A small persistence layer for transit-feed records.
//!
//! Each entity type (an agency, a trip) declares its relational schema
//! through the [`gtfsdb::Table`] trait: a table name, an ordered column
//! layout, and a typed row encoding.  The generic writer inserts a batch
//! of records in one transaction (all-or-nothing), and the generic reader
//! rebuilds typed records from stored rows.  The backing store is SQLite;
//! every call into it goes through the contracts in [`sqlite`], and the
//! logic around those calls is verified against them.

pub mod agency;
pub mod get_trips;
pub mod gtfsdb;
pub mod laws;
pub mod make_db;
pub mod sqlgen;
pub mod sqlite;
pub mod trips;
pub mod values;
