//! The trip entity: one vehicle journey per record, keyed by its trip
//! identifier and pointing at the route it serves.

use vstd::prelude::*;

use vstd::multiset::Multiset;

use crate::gtfsdb::Table;
use crate::sqlite::{rows_of, StorageError};
use crate::values::{
    col_pairs, dec_opt, is_sql_ident, opt_text, textable, view_opt, ColType, ColumnDef,
    ColumnModel, PlainValue, ValueV,
};

verus! {

/// A route's identifier.
pub type RouteId = String;

/// A service-day pattern's identifier.
pub type ServiceId = String;

/// A trip's identifier.
pub type TripId = String;

/// An operating office's identifier.
pub type JpOfficeId = String;

/// The direction of travel, stored as the integer codes 0 and 1.
#[derive(Debug, Clone, Copy, PartialEq, Eq, Structural)]
pub enum Direction {
    /// Travel in the outbound direction (code 0).
    Outbound,
    /// Travel in the inbound direction (code 1).
    Inbound,
}

/// Wheelchair accessibility, stored as the integer codes 0 to 2.
#[derive(Debug, Clone, Copy, PartialEq, Eq, Structural)]
pub enum WheelchairAccessible {
    /// No accessibility information (code 0).
    Unknown,
    /// At least one wheelchair can board (code 1).
    Allow,
    /// No wheelchair can board (code 2).
    Deny,
}

/// Whether bicycles may be brought aboard, stored as the integer codes
/// 0 to 2.
#[derive(Debug, Clone, Copy, PartialEq, Eq, Structural)]
pub enum BikesAllowed {
    /// No bicycle information (code 0).
    Unknown,
    /// At least one bicycle can be brought aboard (code 1).
    Allow,
    /// No bicycle can be brought aboard (code 2).
    Deny,
}

/// One vehicle journey.
#[derive(Debug, Clone, PartialEq)]
pub struct Trip {
    /// The route this trip serves.
    pub route_id: RouteId,
    /// The service-day pattern this trip runs on.
    pub service_id: ServiceId,
    /// The trip's identifier, unique among all trips.
    pub trip_id: TripId,
    /// The destination shown to riders, if published.
    pub trip_headsign: Option<String>,
    /// A short public name of the trip, if published.
    pub trip_short_name: Option<String>,
    /// The direction of travel, if stated.
    pub direction_id: Option<Direction>,
    /// The block of through-running trips this trip belongs to, if any.
    pub block_id: Option<String>,
    /// The shape drawn for this trip, if any.
    pub shape_id: Option<String>,
    /// Wheelchair accessibility, if stated.
    pub wheelchair_accessible: Option<WheelchairAccessible>,
    /// Whether bicycles may be brought aboard, if stated.
    pub bikes_allowed: Option<BikesAllowed>,
    /// A free-form description of the trip, if any.
    pub jp_trip_desc: Option<String>,
    /// A symbol standing for the description, if any.
    pub jp_trip_desc_symbol: Option<String>,
    /// The operating office, if stated.
    pub jp_office_id: Option<JpOfficeId>,
}

/// The model of a [`Trip`].
pub struct TripV {
    pub route_id: Seq<char>,
    pub service_id: Seq<char>,
    pub trip_id: Seq<char>,
    pub trip_headsign: Option<Seq<char>>,
    pub trip_short_name: Option<Seq<char>>,
    pub direction_id: Option<Direction>,
    pub block_id: Option<Seq<char>>,
    pub shape_id: Option<Seq<char>>,
    pub wheelchair_accessible: Option<WheelchairAccessible>,
    pub bikes_allowed: Option<BikesAllowed>,
    pub jp_trip_desc: Option<Seq<char>>,
    pub jp_trip_desc_symbol: Option<Seq<char>>,
    pub jp_office_id: Option<Seq<char>>,
}

impl View for Trip {
    type V = TripV;

    open spec fn view(&self) -> TripV {
        TripV {
            route_id: self.route_id@,
            service_id: self.service_id@,
            trip_id: self.trip_id@,
            trip_headsign: view_opt(self.trip_headsign),
            trip_short_name: view_opt(self.trip_short_name),
            direction_id: self.direction_id,
            block_id: view_opt(self.block_id),
            shape_id: view_opt(self.shape_id),
            wheelchair_accessible: self.wheelchair_accessible,
            bikes_allowed: self.bikes_allowed,
            jp_trip_desc: view_opt(self.jp_trip_desc),
            jp_trip_desc_symbol: view_opt(self.jp_trip_desc_symbol),
            jp_office_id: view_opt(self.jp_office_id),
        }
    }
}

/// The integer code of a direction.
pub open spec fn direction_code(d: Direction) -> int {
    match d {
        Direction::Outbound => 0,
        Direction::Inbound => 1,
    }
}

/// The integer code of a wheelchair-accessibility statement.
pub open spec fn wheelchair_code(w: WheelchairAccessible) -> int {
    match w {
        WheelchairAccessible::Unknown => 0,
        WheelchairAccessible::Allow => 1,
        WheelchairAccessible::Deny => 2,
    }
}

/// The integer code of a bicycle statement.
pub open spec fn bikes_code(b: BikesAllowed) -> int {
    match b {
        BikesAllowed::Unknown => 0,
        BikesAllowed::Allow => 1,
        BikesAllowed::Deny => 2,
    }
}

/// The stored form of an optional direction.
pub open spec fn dir_value(o: Option<Direction>) -> ValueV {
    match o {
        Some(d) => ValueV::Integer(direction_code(d)),
        None => ValueV::Null,
    }
}

/// The stored form of an optional wheelchair-accessibility statement.
pub open spec fn wheelchair_value(o: Option<WheelchairAccessible>) -> ValueV {
    match o {
        Some(w) => ValueV::Integer(wheelchair_code(w)),
        None => ValueV::Null,
    }
}

/// The stored form of an optional bicycle statement.
pub open spec fn bikes_value(o: Option<BikesAllowed>) -> ValueV {
    match o {
        Some(b) => ValueV::Integer(bikes_code(b)),
        None => ValueV::Null,
    }
}

/// The optional direction a stored value reads back to, if it is a
/// declared code or absent.
pub open spec fn dir_back(v: ValueV) -> Option<Option<Direction>> {
    match v {
        ValueV::Null => Some(None),
        ValueV::Integer(c) => if c == 0 {
            Some(Some(Direction::Outbound))
        } else if c == 1 {
            Some(Some(Direction::Inbound))
        } else {
            None
        },
        _ => None,
    }
}

/// The optional wheelchair-accessibility statement a stored value reads
/// back to, if it is a declared code or absent.
pub open spec fn wheelchair_back(v: ValueV) -> Option<Option<WheelchairAccessible>> {
    match v {
        ValueV::Null => Some(None),
        ValueV::Integer(c) => if c == 0 {
            Some(Some(WheelchairAccessible::Unknown))
        } else if c == 1 {
            Some(Some(WheelchairAccessible::Allow))
        } else if c == 2 {
            Some(Some(WheelchairAccessible::Deny))
        } else {
            None
        },
        _ => None,
    }
}

/// The optional bicycle statement a stored value reads back to, if it
/// is a declared code or absent.
pub open spec fn bikes_back(v: ValueV) -> Option<Option<BikesAllowed>> {
    match v {
        ValueV::Null => Some(None),
        ValueV::Integer(c) => if c == 0 {
            Some(Some(BikesAllowed::Unknown))
        } else if c == 1 {
            Some(Some(BikesAllowed::Allow))
        } else if c == 2 {
            Some(Some(BikesAllowed::Deny))
        } else {
            None
        },
        _ => None,
    }
}

/// The column layout of the `trips` relation.
pub open spec fn trip_columns() -> Seq<ColumnModel> {
    seq![
        ColumnModel { name: "route_id"@, ctype: ColType::ColText, not_null: true, primary_key: false },
        ColumnModel { name: "service_id"@, ctype: ColType::ColText, not_null: true, primary_key: false },
        ColumnModel { name: "trip_id"@, ctype: ColType::ColText, not_null: false, primary_key: true },
        ColumnModel { name: "trip_headsign"@, ctype: ColType::ColText, not_null: false, primary_key: false },
        ColumnModel { name: "trip_short_name"@, ctype: ColType::ColText, not_null: false, primary_key: false },
        ColumnModel { name: "direction_id"@, ctype: ColType::ColInt, not_null: false, primary_key: false },
        ColumnModel { name: "block_id"@, ctype: ColType::ColText, not_null: false, primary_key: false },
        ColumnModel { name: "shape_id"@, ctype: ColType::ColText, not_null: false, primary_key: false },
        ColumnModel { name: "wheelchair_accessible"@, ctype: ColType::ColInt, not_null: false, primary_key: false },
        ColumnModel { name: "bikes_allowed"@, ctype: ColType::ColInt, not_null: false, primary_key: false },
        ColumnModel { name: "jp_trip_desc"@, ctype: ColType::ColText, not_null: false, primary_key: false },
        ColumnModel { name: "jp_trip_desc_symbol"@, ctype: ColType::ColText, not_null: false, primary_key: false },
        ColumnModel { name: "jp_office_id"@, ctype: ColType::ColText, not_null: false, primary_key: false },
    ]
}

/// The stored row of a trip.
pub open spec fn trip_row(m: TripV) -> Seq<ValueV> {
    seq![
        ValueV::Text(m.route_id),
        ValueV::Text(m.service_id),
        ValueV::Text(m.trip_id),
        opt_text(m.trip_headsign),
        opt_text(m.trip_short_name),
        dir_value(m.direction_id),
        opt_text(m.block_id),
        opt_text(m.shape_id),
        wheelchair_value(m.wheelchair_accessible),
        bikes_value(m.bikes_allowed),
        opt_text(m.jp_trip_desc),
        opt_text(m.jp_trip_desc_symbol),
        opt_text(m.jp_office_id),
    ]
}

/// The trip a stored row reconstructs to, if any.
pub open spec fn trip_from_row(row: Seq<ValueV>) -> Option<TripV> {
    if row.len() == 13 && row[0] is Text && row[1] is Text && row[2] is Text && textable(row[3])
        && textable(row[4]) && dir_back(row[5]) is Some && textable(row[6]) && textable(row[7])
        && wheelchair_back(row[8]) is Some && bikes_back(row[9]) is Some && textable(row[10])
        && textable(row[11]) && textable(row[12]) {
        Some(
            TripV {
                route_id: row[0]->Text_0,
                service_id: row[1]->Text_0,
                trip_id: row[2]->Text_0,
                trip_headsign: dec_opt(row[3]),
                trip_short_name: dec_opt(row[4]),
                direction_id: dir_back(row[5])->0,
                block_id: dec_opt(row[6]),
                shape_id: dec_opt(row[7]),
                wheelchair_accessible: wheelchair_back(row[8])->0,
                bikes_allowed: bikes_back(row[9])->0,
                jp_trip_desc: dec_opt(row[10]),
                jp_trip_desc_symbol: dec_opt(row[11]),
                jp_office_id: dec_opt(row[12]),
            },
        )
    } else {
        None
    }
}

impl Table for Trip {
    open spec fn spec_table_name() -> Seq<char> {
        "trips"@
    }

    open spec fn spec_columns() -> Seq<ColumnModel> {
        trip_columns()
    }

    open spec fn row_model(m: TripV) -> Seq<ValueV> {
        trip_row(m)
    }

    open spec fn spec_from_row(row: Seq<ValueV>) -> Option<TripV> {
        trip_from_row(row)
    }

    proof fn lemma_wf() {
        reveal_strlit("trips");
        reveal_strlit("route_id");
        reveal_strlit("service_id");
        reveal_strlit("trip_id");
        reveal_strlit("trip_headsign");
        reveal_strlit("trip_short_name");
        reveal_strlit("direction_id");
        reveal_strlit("block_id");
        reveal_strlit("shape_id");
        reveal_strlit("wheelchair_accessible");
        reveal_strlit("bikes_allowed");
        reveal_strlit("jp_trip_desc");
        reveal_strlit("jp_trip_desc_symbol");
        reveal_strlit("jp_office_id");
        reveal_with_fuel(crate::values::all_ident_chars, 25);
        assert(is_sql_ident("trips"@));
        assert(is_sql_ident("route_id"@));
        assert(is_sql_ident("service_id"@));
        assert(is_sql_ident("trip_id"@));
        assert(is_sql_ident("trip_headsign"@));
        assert(is_sql_ident("trip_short_name"@));
        assert(is_sql_ident("direction_id"@));
        assert(is_sql_ident("block_id"@));
        assert(is_sql_ident("shape_id"@));
        assert(is_sql_ident("wheelchair_accessible"@));
        assert(is_sql_ident("bikes_allowed"@));
        assert(is_sql_ident("jp_trip_desc"@));
        assert(is_sql_ident("jp_trip_desc_symbol"@));
        assert(is_sql_ident("jp_office_id"@));
    }

    proof fn lemma_row_fits(m: TripV) {
        reveal_strlit("TEXT");
        reveal_strlit("INT");
        let row = trip_row(m);
        let pairs = col_pairs(trip_columns());
        assert(("INT"@).len() == 3);
        assert(("TEXT"@).len() == 4);
        assert forall|i: int| 0 <= i < row.len() implies crate::values::value_fits(
            #[trigger] row[i],
            pairs[i].decl,
        ) by {
            assert(pairs[i] == crate::values::col_pair(trip_columns()[i]));
        }
    }

    proof fn lemma_round_trip(m: TripV) {
    }

    proof fn lemma_decode_encode(row: Seq<ValueV>) {
        match trip_from_row(row) {
            Some(m) => {
                assert(trip_row(m) =~= row);
            },
            None => {},
        }
    }

    fn table_name() -> (r: &'static str) {
        "trips"
    }

    fn columns() -> (r: Vec<ColumnDef>) {
        let mut v: Vec<ColumnDef> = Vec::new();
        v.push(ColumnDef { name: "route_id", ctype: ColType::ColText, not_null: true, primary_key: false });
        v.push(ColumnDef { name: "service_id", ctype: ColType::ColText, not_null: true, primary_key: false });
        v.push(ColumnDef { name: "trip_id", ctype: ColType::ColText, not_null: false, primary_key: true });
        v.push(ColumnDef { name: "trip_headsign", ctype: ColType::ColText, not_null: false, primary_key: false });
        v.push(ColumnDef { name: "trip_short_name", ctype: ColType::ColText, not_null: false, primary_key: false });
        v.push(ColumnDef { name: "direction_id", ctype: ColType::ColInt, not_null: false, primary_key: false });
        v.push(ColumnDef { name: "block_id", ctype: ColType::ColText, not_null: false, primary_key: false });
        v.push(ColumnDef { name: "shape_id", ctype: ColType::ColText, not_null: false, primary_key: false });
        v.push(ColumnDef { name: "wheelchair_accessible", ctype: ColType::ColInt, not_null: false, primary_key: false });
        v.push(ColumnDef { name: "bikes_allowed", ctype: ColType::ColInt, not_null: false, primary_key: false });
        v.push(ColumnDef { name: "jp_trip_desc", ctype: ColType::ColText, not_null: false, primary_key: false });
        v.push(ColumnDef { name: "jp_trip_desc_symbol", ctype: ColType::ColText, not_null: false, primary_key: false });
        v.push(ColumnDef { name: "jp_office_id", ctype: ColType::ColText, not_null: false, primary_key: false });
        proof {
            assert(v@.map_values(|c: ColumnDef| c@) =~= trip_columns());
        }
        v
    }

    fn column_names() -> (r: Vec<&'static str>) {
        let mut v: Vec<&'static str> = Vec::new();
        v.push("route_id");
        v.push("service_id");
        v.push("trip_id");
        v.push("trip_headsign");
        v.push("trip_short_name");
        v.push("direction_id");
        v.push("block_id");
        v.push("shape_id");
        v.push("wheelchair_accessible");
        v.push("bikes_allowed");
        v.push("jp_trip_desc");
        v.push("jp_trip_desc_symbol");
        v.push("jp_office_id");
        proof {
            assert(v@.map_values(|s: &'static str| s@) =~= trip_columns().map_values(
                |c: ColumnModel| c.name,
            ));
        }
        v
    }

    fn to_row(&self) -> (r: Vec<PlainValue>) {
        let mut r: Vec<PlainValue> = Vec::new();
        r.push(PlainValue::Text(self.route_id.clone()));
        r.push(PlainValue::Text(self.service_id.clone()));
        r.push(PlainValue::Text(self.trip_id.clone()));
        r.push(crate::agency::opt_value(&self.trip_headsign));
        r.push(crate::agency::opt_value(&self.trip_short_name));
        r.push(dir_to_value(&self.direction_id));
        r.push(crate::agency::opt_value(&self.block_id));
        r.push(crate::agency::opt_value(&self.shape_id));
        r.push(wheelchair_to_value(&self.wheelchair_accessible));
        r.push(bikes_to_value(&self.bikes_allowed));
        r.push(crate::agency::opt_value(&self.jp_trip_desc));
        r.push(crate::agency::opt_value(&self.jp_trip_desc_symbol));
        r.push(crate::agency::opt_value(&self.jp_office_id));
        proof {
            assert(r@.map_values(|v: PlainValue| v@) =~= trip_row(self@));
        }
        r
    }

    fn from_row(row: &Vec<PlainValue>) -> (r: Option<Self>) {
        let ghost rv = row@.map_values(|v: PlainValue| v@);
        if row.len() != 13 {
            return None;
        }
        proof {
            assert forall|k: int| 0 <= k < 13 implies #[trigger] rv[k] == row@[k]@ by {}
        }
        let route_id = match &row[0] {
            PlainValue::Text(s) => s.clone(),
            _ => {
                return None;
            },
        };
        let service_id = match &row[1] {
            PlainValue::Text(s) => s.clone(),
            _ => {
                return None;
            },
        };
        let trip_id = match &row[2] {
            PlainValue::Text(s) => s.clone(),
            _ => {
                return None;
            },
        };
        let trip_headsign = match crate::agency::opt_back(&row[3]) {
            Some(o) => o,
            None => {
                return None;
            },
        };
        let trip_short_name = match crate::agency::opt_back(&row[4]) {
            Some(o) => o,
            None => {
                return None;
            },
        };
        let direction_id = match dir_from_value(&row[5]) {
            Some(o) => o,
            None => {
                return None;
            },
        };
        let block_id = match crate::agency::opt_back(&row[6]) {
            Some(o) => o,
            None => {
                return None;
            },
        };
        let shape_id = match crate::agency::opt_back(&row[7]) {
            Some(o) => o,
            None => {
                return None;
            },
        };
        let wheelchair_accessible = match wheelchair_from_value(&row[8]) {
            Some(o) => o,
            None => {
                return None;
            },
        };
        let bikes_allowed = match bikes_from_value(&row[9]) {
            Some(o) => o,
            None => {
                return None;
            },
        };
        let jp_trip_desc = match crate::agency::opt_back(&row[10]) {
            Some(o) => o,
            None => {
                return None;
            },
        };
        let jp_trip_desc_symbol = match crate::agency::opt_back(&row[11]) {
            Some(o) => o,
            None => {
                return None;
            },
        };
        let jp_office_id = match crate::agency::opt_back(&row[12]) {
            Some(o) => o,
            None => {
                return None;
            },
        };
        Some(
            Trip {
                route_id,
                service_id,
                trip_id,
                trip_headsign,
                trip_short_name,
                direction_id,
                block_id,
                shape_id,
                wheelchair_accessible,
                bikes_allowed,
                jp_trip_desc,
                jp_trip_desc_symbol,
                jp_office_id,
            },
        )
    }
}

/// The stored form of an optional direction.
pub fn dir_to_value(o: &Option<Direction>) -> (r: PlainValue)
    ensures
        r@ == dir_value(*o),
{
    match o {
        Some(Direction::Outbound) => PlainValue::Integer(0),
        Some(Direction::Inbound) => PlainValue::Integer(1),
        None => PlainValue::Null,
    }
}

/// Reads an optional direction back from a stored value.
pub fn dir_from_value(v: &PlainValue) -> (r: Option<Option<Direction>>)
    ensures
        r == dir_back(v@),
{
    match v {
        PlainValue::Null => Some(None),
        PlainValue::Integer(c) => {
            if *c == 0 {
                Some(Some(Direction::Outbound))
            } else if *c == 1 {
                Some(Some(Direction::Inbound))
            } else {
                None
            }
        },
        _ => None,
    }
}

/// The stored form of an optional wheelchair-accessibility statement.
pub fn wheelchair_to_value(o: &Option<WheelchairAccessible>) -> (r: PlainValue)
    ensures
        r@ == wheelchair_value(*o),
{
    match o {
        Some(WheelchairAccessible::Unknown) => PlainValue::Integer(0),
        Some(WheelchairAccessible::Allow) => PlainValue::Integer(1),
        Some(WheelchairAccessible::Deny) => PlainValue::Integer(2),
        None => PlainValue::Null,
    }
}

/// Reads an optional wheelchair-accessibility statement back from a
/// stored value.
pub fn wheelchair_from_value(v: &PlainValue) -> (r: Option<Option<WheelchairAccessible>>)
    ensures
        r == wheelchair_back(v@),
{
    match v {
        PlainValue::Null => Some(None),
        PlainValue::Integer(c) => {
            if *c == 0 {
                Some(Some(WheelchairAccessible::Unknown))
            } else if *c == 1 {
                Some(Some(WheelchairAccessible::Allow))
            } else if *c == 2 {
                Some(Some(WheelchairAccessible::Deny))
            } else {
                None
            }
        },
        _ => None,
    }
}

/// The stored form of an optional bicycle statement.
pub fn bikes_to_value(o: &Option<BikesAllowed>) -> (r: PlainValue)
    ensures
        r@ == bikes_value(*o),
{
    match o {
        Some(BikesAllowed::Unknown) => PlainValue::Integer(0),
        Some(BikesAllowed::Allow) => PlainValue::Integer(1),
        Some(BikesAllowed::Deny) => PlainValue::Integer(2),
        None => PlainValue::Null,
    }
}

/// Whether a stored trip row serves the route named `rid`: its first
/// column, the route identifier, is that text.
pub open spec fn row_serves_route(row: Seq<ValueV>, rid: Seq<char>) -> bool {
    0 < row.len() && row[0] == ValueV::Text(rid)
}

/// Reads every stored trip that serves the given route: on success the
/// result is exactly the relation's rows whose route identifier matches,
/// decoded; a route no stored trip serves gives the empty sequence, not
/// an error.
pub fn select_by_route_id(conn: &rusqlite::Connection, route_id: &RouteId) -> (r: Result<
    Vec<Trip>,
    StorageError,
>)
    ensures
        r matches Ok(v) ==> {
            &&& v@.map_values(|x: Trip| Trip::row_model(x@)).to_multiset() == rows_of(
                crate::sqlite::db_rows(*conn),
                Trip::spec_table_name(),
            ).filter(|row: Seq<ValueV>| row_serves_route(row, route_id@))
            &&& forall|k: int| 0 <= k < v@.len() ==> (#[trigger] v@[k])@.route_id == route_id@
        },
        r matches Err(e) ==> e is Backend || e is Deserialization,
{
    let mut all = match crate::gtfsdb::select_all::<Trip>(conn) {
        Ok(v) => v,
        Err(e) => {
            return Err(e);
        },
    };
    let ghost orig = all@;
    let ghost f = |x: Trip| Trip::row_model(x@);
    let ghost p = |x: Trip| x@.route_id == route_id@;
    let ghost q = |row: Seq<ValueV>| row_serves_route(row, route_id@);
    let mut out: Vec<Trip> = Vec::new();
    proof {
        assert(orig.take(orig.len() as int) =~= orig);
        assert(orig.skip(orig.len() as int) =~= Seq::<Trip>::empty());
        reveal_with_fuel(Seq::filter, 2);
        assert(out@.map_values(f) =~= Seq::<Seq<ValueV>>::empty());
        assert(orig.skip(orig.len() as int).filter(p).map_values(f) =~= Seq::<Seq<ValueV>>::empty());
    }
    while all.len() > 0
        invariant
            all@.len() <= orig.len(),
            all@ == orig.take(all@.len() as int),
            out@.map_values(f).to_multiset() == orig.skip(all@.len() as int).filter(p).map_values(
                f,
            ).to_multiset(),
            f == |x: Trip| Trip::row_model(x@),
            p == |x: Trip| x@.route_id == route_id@,
            forall|k: int| 0 <= k < out@.len() ==> (#[trigger] out@[k])@.route_id == route_id@,
        decreases all@.len(),
    {
        let ghost m = all@.len() as int;
        let x = match all.pop() {
            Some(x) => x,
            None => {
                proof {
                    assert(false);
                }
                return Err(StorageError::Backend("unreachable".to_owned()));
            },
        };
        proof {
            broadcast use vstd::seq_lib::lemma_multiset_commutative;
            broadcast use vstd::seq_lib::group_to_multiset_ensures;

            assert(0 < m <= orig.len());
            assert(x == orig[m - 1]) by {
                assert(orig.take(m)[m - 1] == orig[m - 1]);
            }
            assert(all@ =~= orig.take(m - 1));
            let sing = if p(x) {
                seq![x]
            } else {
                Seq::<Trip>::empty()
            };
            crate::laws::lemma_filter_singleton(x, p);
            assert(orig.skip(m - 1) =~= seq![x] + orig.skip(m));
            assert((seq![x] + orig.skip(m)).filter(p) == seq![x].filter(p) + orig.skip(m).filter(
                p,
            )) by {
                broadcast use Seq::filter_distributes_over_add;

            }
            assert(orig.skip(m - 1).filter(p) == sing + orig.skip(m).filter(p));
            assert((sing + orig.skip(m).filter(p)).map_values(f) =~= sing.map_values(f) + orig.skip(
                m,
            ).filter(p).map_values(f));
            assert(orig.skip(m - 1).filter(p).map_values(f).to_multiset() == sing.map_values(
                f,
            ).to_multiset().add(orig.skip(m).filter(p).map_values(f).to_multiset()));
        }
        let matches_route = x.route_id == *route_id;
        if matches_route {
            let ghost out0 = out@;
            out.push(x);
            proof {
                broadcast use vstd::seq_lib::group_to_multiset_ensures;
                broadcast use vstd::multiset::group_multiset_axioms;

                assert(out@.map_values(f) =~= out0.map_values(f).push(f(x)));
                assert(seq![x].map_values(f) =~= seq![f(x)]);
                assert(seq![f(x)] =~= Seq::<Seq<ValueV>>::empty().push(f(x)));
                assert(seq![f(x)].to_multiset() =~= Multiset::<Seq<ValueV>>::empty().insert(
                    f(x),
                )) by {
                    assert(Seq::<Seq<ValueV>>::empty().to_multiset() =~= Multiset::<
                        Seq<ValueV>,
                    >::empty());
                }
                assert(out@.map_values(f).to_multiset() =~= orig.skip(m - 1).filter(p).map_values(
                    f,
                ).to_multiset());
            }
        } else {
            proof {
                broadcast use vstd::multiset::group_multiset_axioms;

                assert(Seq::<Trip>::empty().map_values(f) =~= Seq::<Seq<ValueV>>::empty());
                assert(Seq::<Seq<ValueV>>::empty().to_multiset() =~= Multiset::<
                    Seq<ValueV>,
                >::empty());
                assert(out@.map_values(f).to_multiset() =~= orig.skip(m - 1).filter(p).map_values(
                    f,
                ).to_multiset());
            }
        }
    }
    proof {
        assert(orig.skip(0) =~= orig);
        assert forall|x: Trip| #[trigger] p(x) == q(f(x)) by {
            assert(Trip::row_model(x@)[0] == ValueV::Text(x@.route_id));
            assert(Trip::row_model(x@).len() == 13);
        }
        crate::laws::lemma_filter_map_multiset(orig, f, p, q);
        assert(orig.map_values(f).to_multiset() == rows_of(
            crate::sqlite::db_rows(*conn),
            Trip::spec_table_name(),
        ));
    }
    Ok(out)
}

/// Reads an optional bicycle statement back from a stored value.
pub fn bikes_from_value(v: &PlainValue) -> (r: Option<Option<BikesAllowed>>)
    ensures
        r == bikes_back(v@),
{
    match v {
        PlainValue::Null => Some(None),
        PlainValue::Integer(c) => {
            if *c == 0 {
                Some(Some(BikesAllowed::Unknown))
            } else if *c == 1 {
                Some(Some(BikesAllowed::Allow))
            } else if *c == 2 {
                Some(Some(BikesAllowed::Deny))
            } else {
                None
            }
        },
        _ => None,
    }
}

} // verus!
