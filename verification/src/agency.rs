//! The agency entity: one transit operator per record.

use vstd::prelude::*;

use crate::gtfsdb::Table;
use crate::values::{
    col_pairs, dec_opt, is_sql_ident, opt_text, textable, view_opt, ColType, ColumnDef,
    ColumnModel, PlainValue, ValueV,
};

verus! {

/// An operator's identifier.
pub type AgencyId = String;

/// A web address.
pub type Url = String;

/// A timezone name.
pub type Timezone = String;

/// A language code.
pub type Lang = String;

/// A telephone number.
pub type TelephoneNumber = String;

/// A mail address.
pub type MailAddress = String;

/// One transit operator.
#[derive(Debug, Clone, PartialEq)]
pub struct Agency {
    /// The operator's identifier.
    pub agency_id: AgencyId,
    /// The operator's name.
    pub agency_name: String,
    /// The operator's web address.
    pub agency_url: Url,
    /// The timezone the operator's times are stated in.
    pub agency_timezone: Timezone,
    /// The language of the operator's texts.
    pub agency_lang: Lang,
    /// A telephone number, if published.
    pub agency_phone: Option<TelephoneNumber>,
    /// A fare purchase address, if published.
    pub agency_fare_url: Option<Url>,
    /// A mail address, if published.
    pub agency_email: Option<MailAddress>,
}

/// The model of an [`Agency`].
pub struct AgencyV {
    pub agency_id: Seq<char>,
    pub agency_name: Seq<char>,
    pub agency_url: Seq<char>,
    pub agency_timezone: Seq<char>,
    pub agency_lang: Seq<char>,
    pub agency_phone: Option<Seq<char>>,
    pub agency_fare_url: Option<Seq<char>>,
    pub agency_email: Option<Seq<char>>,
}

impl View for Agency {
    type V = AgencyV;

    open spec fn view(&self) -> AgencyV {
        AgencyV {
            agency_id: self.agency_id@,
            agency_name: self.agency_name@,
            agency_url: self.agency_url@,
            agency_timezone: self.agency_timezone@,
            agency_lang: self.agency_lang@,
            agency_phone: view_opt(self.agency_phone),
            agency_fare_url: view_opt(self.agency_fare_url),
            agency_email: view_opt(self.agency_email),
        }
    }
}

/// The column layout of the `agency` relation.
pub open spec fn agency_columns() -> Seq<ColumnModel> {
    seq![
        ColumnModel { name: "agency_id"@, ctype: ColType::ColText, not_null: false, primary_key: true },
        ColumnModel { name: "agency_name"@, ctype: ColType::ColText, not_null: true, primary_key: false },
        ColumnModel { name: "agency_url"@, ctype: ColType::ColText, not_null: true, primary_key: false },
        ColumnModel { name: "agency_timezone"@, ctype: ColType::ColText, not_null: true, primary_key: false },
        ColumnModel { name: "agency_lang"@, ctype: ColType::ColText, not_null: true, primary_key: false },
        ColumnModel { name: "agency_phone"@, ctype: ColType::ColText, not_null: false, primary_key: false },
        ColumnModel { name: "agency_fare_url"@, ctype: ColType::ColText, not_null: false, primary_key: false },
        ColumnModel { name: "agency_email"@, ctype: ColType::ColText, not_null: false, primary_key: false },
    ]
}

/// The stored row of an agency.
pub open spec fn agency_row(m: AgencyV) -> Seq<ValueV> {
    seq![
        ValueV::Text(m.agency_id),
        ValueV::Text(m.agency_name),
        ValueV::Text(m.agency_url),
        ValueV::Text(m.agency_timezone),
        ValueV::Text(m.agency_lang),
        opt_text(m.agency_phone),
        opt_text(m.agency_fare_url),
        opt_text(m.agency_email),
    ]
}

/// The agency a stored row reconstructs to, if any.
pub open spec fn agency_from_row(row: Seq<ValueV>) -> Option<AgencyV> {
    if row.len() == 8 && row[0] is Text && row[1] is Text && row[2] is Text && row[3] is Text
        && row[4] is Text && textable(row[5]) && textable(row[6]) && textable(row[7]) {
        Some(
            AgencyV {
                agency_id: row[0]->Text_0,
                agency_name: row[1]->Text_0,
                agency_url: row[2]->Text_0,
                agency_timezone: row[3]->Text_0,
                agency_lang: row[4]->Text_0,
                agency_phone: dec_opt(row[5]),
                agency_fare_url: dec_opt(row[6]),
                agency_email: dec_opt(row[7]),
            },
        )
    } else {
        None
    }
}

impl Table for Agency {
    open spec fn spec_table_name() -> Seq<char> {
        "agency"@
    }

    open spec fn spec_columns() -> Seq<ColumnModel> {
        agency_columns()
    }

    open spec fn row_model(m: AgencyV) -> Seq<ValueV> {
        agency_row(m)
    }

    open spec fn spec_from_row(row: Seq<ValueV>) -> Option<AgencyV> {
        agency_from_row(row)
    }

    proof fn lemma_wf() {
        reveal_strlit("agency");
        reveal_strlit("agency_id");
        reveal_strlit("agency_name");
        reveal_strlit("agency_url");
        reveal_strlit("agency_timezone");
        reveal_strlit("agency_lang");
        reveal_strlit("agency_phone");
        reveal_strlit("agency_fare_url");
        reveal_strlit("agency_email");
        reveal_with_fuel(crate::values::all_ident_chars, 20);
        assert(is_sql_ident("agency"@));
        assert(is_sql_ident("agency_id"@));
        assert(is_sql_ident("agency_name"@));
        assert(is_sql_ident("agency_url"@));
        assert(is_sql_ident("agency_timezone"@));
        assert(is_sql_ident("agency_lang"@));
        assert(is_sql_ident("agency_phone"@));
        assert(is_sql_ident("agency_fare_url"@));
        assert(is_sql_ident("agency_email"@));
    }

    proof fn lemma_row_fits(m: AgencyV) {
        reveal_strlit("TEXT");
    }

    proof fn lemma_round_trip(m: AgencyV) {
    }

    proof fn lemma_decode_encode(row: Seq<ValueV>) {
        match agency_from_row(row) {
            Some(m) => {
                assert(agency_row(m) =~= row);
            },
            None => {},
        }
    }

    fn table_name() -> (r: &'static str) {
        "agency"
    }

    fn columns() -> (r: Vec<ColumnDef>) {
        let mut v: Vec<ColumnDef> = Vec::new();
        v.push(ColumnDef { name: "agency_id", ctype: ColType::ColText, not_null: false, primary_key: true });
        v.push(ColumnDef { name: "agency_name", ctype: ColType::ColText, not_null: true, primary_key: false });
        v.push(ColumnDef { name: "agency_url", ctype: ColType::ColText, not_null: true, primary_key: false });
        v.push(ColumnDef { name: "agency_timezone", ctype: ColType::ColText, not_null: true, primary_key: false });
        v.push(ColumnDef { name: "agency_lang", ctype: ColType::ColText, not_null: true, primary_key: false });
        v.push(ColumnDef { name: "agency_phone", ctype: ColType::ColText, not_null: false, primary_key: false });
        v.push(ColumnDef { name: "agency_fare_url", ctype: ColType::ColText, not_null: false, primary_key: false });
        v.push(ColumnDef { name: "agency_email", ctype: ColType::ColText, not_null: false, primary_key: false });
        proof {
            assert(v@.map_values(|c: ColumnDef| c@) =~= agency_columns());
        }
        v
    }

    fn column_names() -> (r: Vec<&'static str>) {
        let mut v: Vec<&'static str> = Vec::new();
        v.push("agency_id");
        v.push("agency_name");
        v.push("agency_url");
        v.push("agency_timezone");
        v.push("agency_lang");
        v.push("agency_phone");
        v.push("agency_fare_url");
        v.push("agency_email");
        proof {
            assert(v@.map_values(|s: &'static str| s@) =~= agency_columns().map_values(
                |c: ColumnModel| c.name,
            ));
        }
        v
    }

    fn to_row(&self) -> (r: Vec<PlainValue>) {
        let mut r: Vec<PlainValue> = Vec::new();
        r.push(PlainValue::Text(self.agency_id.clone()));
        r.push(PlainValue::Text(self.agency_name.clone()));
        r.push(PlainValue::Text(self.agency_url.clone()));
        r.push(PlainValue::Text(self.agency_timezone.clone()));
        r.push(PlainValue::Text(self.agency_lang.clone()));
        r.push(opt_value(&self.agency_phone));
        r.push(opt_value(&self.agency_fare_url));
        r.push(opt_value(&self.agency_email));
        proof {
            assert(r@.map_values(|v: PlainValue| v@) =~= agency_row(self@));
        }
        r
    }

    fn from_row(row: &Vec<PlainValue>) -> (r: Option<Self>) {
        let ghost rv = row@.map_values(|v: PlainValue| v@);
        if row.len() != 8 {
            return None;
        }
        proof {
            assert forall|k: int| 0 <= k < 8 implies #[trigger] rv[k] == row@[k]@ by {}
        }
        let agency_id = match &row[0] {
            PlainValue::Text(s) => s.clone(),
            _ => {
                return None;
            },
        };
        let agency_name = match &row[1] {
            PlainValue::Text(s) => s.clone(),
            _ => {
                return None;
            },
        };
        let agency_url = match &row[2] {
            PlainValue::Text(s) => s.clone(),
            _ => {
                return None;
            },
        };
        let agency_timezone = match &row[3] {
            PlainValue::Text(s) => s.clone(),
            _ => {
                return None;
            },
        };
        let agency_lang = match &row[4] {
            PlainValue::Text(s) => s.clone(),
            _ => {
                return None;
            },
        };
        let agency_phone = match opt_back(&row[5]) {
            Some(o) => o,
            None => {
                return None;
            },
        };
        let agency_fare_url = match opt_back(&row[6]) {
            Some(o) => o,
            None => {
                return None;
            },
        };
        let agency_email = match opt_back(&row[7]) {
            Some(o) => o,
            None => {
                return None;
            },
        };
        Some(
            Agency {
                agency_id,
                agency_name,
                agency_url,
                agency_timezone,
                agency_lang,
                agency_phone,
                agency_fare_url,
                agency_email,
            },
        )
    }
}

/// Creates the `agency` relation if it is absent (idempotent), in
/// autocommit mode (outside any batch transaction).
pub fn create(conn: &mut rusqlite::Connection) -> (r: Result<(), crate::sqlite::StorageError>)
    requires
        crate::sqlite::db_txn(*old(conn)) is None,
    ensures
        r matches Ok(u) ==> {
            let e = crate::gtfsdb::create_effect(
                crate::sqlite::db_schema(*old(conn)),
                crate::sqlite::db_rows(*old(conn)),
                Agency::spec_table_name(),
                crate::gtfsdb::declared_pairs::<Agency>(),
            );
            &&& crate::sqlite::db_schema(*final(conn)) == e.0
            &&& crate::sqlite::db_rows(*final(conn)) == e.1
            &&& crate::sqlite::db_txn(*final(conn)) == crate::sqlite::db_txn(*old(conn))
        },
        r matches Err(e) ==> {
            &&& crate::sqlite::db_schema(*final(conn)) == crate::sqlite::db_schema(*old(conn))
            &&& crate::sqlite::db_rows(*final(conn)) == crate::sqlite::db_rows(*old(conn))
            &&& crate::sqlite::db_txn(*final(conn)) == crate::sqlite::db_txn(*old(conn))
            &&& e is Schema
        },
{
    crate::gtfsdb::create_table::<Agency>(conn)
}

/// The stored form of an optional text field.
pub fn opt_value(o: &Option<String>) -> (r: PlainValue)
    ensures
        r@ == opt_text(view_opt(*o)),
{
    match o {
        Some(s) => PlainValue::Text(s.clone()),
        None => PlainValue::Null,
    }
}

/// Reads an optional text field back from a stored value: absent, its
/// text, or (for a value of another storage class) nothing.
pub fn opt_back(v: &PlainValue) -> (r: Option<Option<String>>)
    ensures
        r matches Some(o) ==> textable(v@) && view_opt(o) == dec_opt(v@),
        r is None ==> !textable(v@),
{
    match v {
        PlainValue::Text(s) => Some(Some(s.clone())),
        PlainValue::Null => Some(None),
        PlainValue::Integer(_) => None,
    }
}

} // verus!
