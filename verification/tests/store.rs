use std::path::PathBuf;

use hibou::agency::Agency;
use hibou::gtfsdb::{init, Gtfs, GtfsDb, Table};
use hibou::sqlite::StorageError;
use hibou::trips::{BikesAllowed, Direction, Trip, WheelchairAccessible};
use hibou::values::PlainValue;

fn memory_db() -> GtfsDb {
    GtfsDb::new(&PathBuf::from(":memory:")).expect("open in-memory store")
}

fn sample_agency(id: &str) -> Agency {
    Agency {
        agency_id: id.to_string(),
        agency_name: "Metropolitan Bus".to_string(),
        agency_url: "http://bus.example.com/".to_string(),
        agency_timezone: "Asia/Tokyo".to_string(),
        agency_lang: "ja".to_string(),
        agency_phone: Some("03-0000-0000".to_string()),
        agency_fare_url: None,
        agency_email: Some("desk@bus.example.com".to_string()),
    }
}

fn sample_trip(trip_id: &str, route_id: &str) -> Trip {
    Trip {
        route_id: route_id.to_string(),
        service_id: "S1".to_string(),
        trip_id: trip_id.to_string(),
        trip_headsign: Some("Big Sight".to_string()),
        trip_short_name: None,
        direction_id: Some(Direction::Outbound),
        block_id: None,
        shape_id: Some("S_1001".to_string()),
        wheelchair_accessible: Some(WheelchairAccessible::Allow),
        bikes_allowed: Some(BikesAllowed::Unknown),
        jp_trip_desc: None,
        jp_trip_desc_symbol: None,
        jp_office_id: Some("S".to_string()),
    }
}

#[test]
fn lifecycle_twice_succeeds() {
    let mut g = memory_db();
    g.drop_all().expect("first drop");
    g.create_all().expect("first create");
    g.drop_all().expect("second drop");
    g.create_all().expect("second create");
    g.create_all().expect("create over existing tables");
}

#[test]
fn agency_insert_select_round_trip() {
    let mut g = memory_db();
    g.drop_all().unwrap();
    g.create_all().unwrap();
    let bare = Agency {
        agency_id: "A2".to_string(),
        agency_name: "Harbor Line".to_string(),
        agency_url: "http://harbor.example.com/".to_string(),
        agency_timezone: "Asia/Tokyo".to_string(),
        agency_lang: "ja".to_string(),
        agency_phone: None,
        agency_fare_url: None,
        agency_email: None,
    };
    let batch = vec![sample_agency("A1"), bare];
    g.insert_agencies(&batch).expect("insert agencies");
    let mut got = g.select_agencies().expect("select agencies");
    got.sort_by(|a, b| a.agency_id.cmp(&b.agency_id));
    assert_eq!(got, batch);
}

#[test]
fn trip_insert_select_round_trip() {
    let mut g = memory_db();
    g.drop_all().unwrap();
    g.create_all().unwrap();
    let batch = vec![sample_trip("1001_WD_001", "R1")];
    g.insert_trips(&batch).expect("insert trips");
    let got = g.select_trips(&None).expect("select trips");
    assert_eq!(got, batch);
}

#[test]
fn trips_scenario_duplicate_key_rolls_back() {
    let mut g = memory_db();
    g.drop_all().unwrap();
    g.create_all().unwrap();
    let t1 = sample_trip("T1", "R1");
    let t2 = sample_trip("T2", "R1");
    g.insert_trips(&vec![t1.clone(), t2.clone()]).expect("insert two trips");
    let mut got = g.select_trips(&None).expect("select after insert");
    got.sort_by(|a, b| a.trip_id.cmp(&b.trip_id));
    assert_eq!(got, vec![t1.clone(), t2.clone()]);

    let dup = sample_trip("T1", "R9");
    let err = g.insert_trips(&vec![dup]).expect_err("duplicate trip_id must fail");
    assert!(matches!(err, StorageError::Constraint(_)));
    let after = g.select_trips(&None).expect("select after failed insert");
    assert_eq!(after.len(), 2);
}

#[test]
fn batch_with_one_bad_record_leaves_table_unchanged() {
    let mut g = memory_db();
    g.drop_all().unwrap();
    g.create_all().unwrap();
    g.insert_trips(&vec![sample_trip("T1", "R1")]).unwrap();
    // The batch's first record is fine; the second collides with T1, so
    // nothing of the batch may stay.
    let batch = vec![sample_trip("T5", "R5"), sample_trip("T1", "R5")];
    let err = g.insert_trips(&batch).expect_err("batch with duplicate must fail");
    assert!(matches!(err, StorageError::Constraint(_)));
    let after = g.select_trips(&None).expect("select after rollback");
    assert_eq!(after.len(), 1);
    assert_eq!(after[0].trip_id, "T1");
}

#[test]
fn empty_batch_is_a_no_op() {
    let mut g = memory_db();
    g.drop_all().unwrap();
    g.create_all().unwrap();
    g.insert_trips(&vec![sample_trip("T1", "R1")]).unwrap();
    g.insert_trips(&Vec::new()).expect("empty batch succeeds");
    g.insert_agencies(&Vec::new()).expect("empty agency batch succeeds");
    let after = g.select_trips(&None).expect("select after empty batch");
    assert_eq!(after.len(), 1);
}

#[test]
fn select_by_route_with_no_match_is_empty_not_error() {
    let mut g = memory_db();
    g.drop_all().unwrap();
    g.create_all().unwrap();
    g.insert_trips(&vec![sample_trip("T1", "R1")]).unwrap();
    let got = g.select_trips(&Some("R9".to_string())).expect("no match is not an error");
    assert!(got.is_empty());
}

#[test]
fn select_by_route_returns_only_matching_trips() {
    let mut g = memory_db();
    g.drop_all().unwrap();
    g.create_all().unwrap();
    let t1 = sample_trip("T1", "R1");
    let t2 = sample_trip("T2", "R2");
    let t3 = sample_trip("T3", "R1");
    g.insert_trips(&vec![t1.clone(), t2, t3.clone()]).unwrap();
    let mut got = g.select_trips(&Some("R1".to_string())).expect("filtered select");
    got.sort_by(|a, b| a.trip_id.cmp(&b.trip_id));
    assert_eq!(got, vec![t1, t3]);
}

#[test]
fn insert_without_tables_is_a_binding_error() {
    let mut g = memory_db();
    let err = g.insert_trips(&vec![sample_trip("T1", "R1")]).expect_err(
        "insert into an absent relation must fail",
    );
    assert!(matches!(err, StorageError::Binding(_)));
}

#[test]
fn select_without_tables_is_an_error() {
    let mut g = memory_db();
    let err = g.select_trips(&None).expect_err("select from an absent relation must fail");
    assert!(matches!(err, StorageError::Backend(_)));
}

#[test]
fn open_under_missing_directory_is_a_connection_error() {
    let err = init(&PathBuf::from("/no_such_directory_anywhere/hibou.db"))
        .err()
        .expect("open must fail");
    assert!(matches!(err, StorageError::Connection(_)));
}

#[test]
fn make_db_run_rebuilds_from_batches() {
    let op = hibou::make_db::Opts { database: PathBuf::from(":memory:") };
    let agencies = vec![sample_agency("A1")];
    let trips = vec![sample_trip("T1", "R1"), sample_trip("T2", "R2")];
    let mut g = hibou::make_db::run(&op, &agencies, &trips).expect("rebuild");
    let got_a = g.select_agencies().expect("agencies back");
    assert_eq!(got_a, agencies);
    let mut got_t = g.select_trips(&None).expect("trips back");
    got_t.sort_by(|a, b| a.trip_id.cmp(&b.trip_id));
    assert_eq!(got_t, trips);
}

#[test]
fn get_trips_run_on_fresh_store_fails_cleanly() {
    let op = hibou::get_trips::Opts { database: PathBuf::from(":memory:") };
    let r = hibou::get_trips::run(&op);
    assert!(matches!(r, Err(StorageError::Backend(_))));
}

#[test]
fn sql_text_is_generated_exactly() {
    let cols = Trip::columns();
    assert_eq!(
        hibou::sqlgen::insert_sql(Trip::table_name(), &cols),
        "INSERT INTO trips (route_id,service_id,trip_id,trip_headsign,trip_short_name,\
         direction_id,block_id,shape_id,wheelchair_accessible,bikes_allowed,jp_trip_desc,\
         jp_trip_desc_symbol,jp_office_id) VALUES (?,?,?,?,?,?,?,?,?,?,?,?,?)"
    );
    assert_eq!(hibou::sqlgen::drop_table_sql("agency"), "DROP TABLE IF EXISTS agency");
    assert_eq!(hibou::sqlgen::select_sql("trips"), "SELECT * FROM trips");
    let acols = Agency::columns();
    assert_eq!(
        hibou::sqlgen::create_table_sql(Agency::table_name(), &acols),
        "CREATE TABLE IF NOT EXISTS agency (agency_id TEXT primary key,\
         agency_name TEXT not null,agency_url TEXT not null,agency_timezone TEXT not null,\
         agency_lang TEXT not null,agency_phone TEXT,agency_fare_url TEXT,agency_email TEXT)"
    );
}

#[test]
fn column_names_match_declared_layout() {
    assert_eq!(
        Agency::column_names(),
        vec![
            "agency_id",
            "agency_name",
            "agency_url",
            "agency_timezone",
            "agency_lang",
            "agency_phone",
            "agency_fare_url",
            "agency_email",
        ]
    );
    assert_eq!(Trip::column_names().len(), Trip::columns().len());
    assert_eq!(Trip::table_name(), "trips");
    assert_eq!(Agency::table_name(), "agency");
}

#[test]
fn row_encoding_round_trips_in_memory() {
    let t = sample_trip("T1", "R1");
    let row = t.to_row();
    assert_eq!(row.len(), 13);
    let back = Trip::from_row(&row).expect("decode own encoding");
    assert_eq!(back, t);

    let a = sample_agency("A1");
    let arow = a.to_row();
    assert_eq!(arow.len(), 8);
    let aback = Agency::from_row(&arow).expect("decode own encoding");
    assert_eq!(aback, a);
}

#[test]
fn malformed_rows_are_rejected() {
    // Too short.
    assert!(Agency::from_row(&vec![PlainValue::Null]).is_none());
    // A number where the identifier's text must stand.
    let mut row = sample_agency("A1").to_row();
    row[0] = PlainValue::Integer(7);
    assert!(Agency::from_row(&row).is_none());
    // An undeclared direction code.
    let mut trow = sample_trip("T1", "R1").to_row();
    trow[5] = PlainValue::Integer(9);
    assert!(Trip::from_row(&trow).is_none());
}

