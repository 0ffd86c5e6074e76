//! The plain values a stored row is made of, and the column metadata an
//! entity type declares for its backing table.

use vstd::prelude::*;

verus! {

/// A single field of a stored row, as this library reads and writes it.
/// The backing store also has floating-point and blob values; this
/// library never writes those, and a row holding one fails typed
/// reconstruction.
pub enum PlainValue {
    Text(String),
    Integer(i64),
    Null,
}

/// The mathematical model of a stored value.  `Other` stands for any
/// value of a storage class this library does not handle (a float, a
/// blob); no [`PlainValue`] views to it.
pub enum ValueV {
    Text(Seq<char>),
    Integer(int),
    Null,
    Other,
}

impl View for PlainValue {
    type V = ValueV;

    open spec fn view(&self) -> ValueV {
        match self {
            PlainValue::Text(s) => ValueV::Text(s@),
            PlainValue::Integer(i) => ValueV::Integer(*i as int),
            PlainValue::Null => ValueV::Null,
        }
    }
}

/// The column type of a table column.  These are the only two column
/// types this library declares; both store values of the matching
/// storage class unchanged.
#[derive(Clone, Copy, PartialEq, Eq, Structural)]
pub enum ColType {
    ColText,
    ColInt,
}

/// One column of an entity's table: its identifier, type, and the
/// constraints its creation clause declares.
pub struct ColumnDef {
    pub name: &'static str,
    pub ctype: ColType,
    pub not_null: bool,
    pub primary_key: bool,
}

/// The model of a [`ColumnDef`].
pub struct ColumnModel {
    pub name: Seq<char>,
    pub ctype: ColType,
    pub not_null: bool,
    pub primary_key: bool,
}

impl View for ColumnDef {
    type V = ColumnModel;

    open spec fn view(&self) -> ColumnModel {
        ColumnModel {
            name: self.name@,
            ctype: self.ctype,
            not_null: self.not_null,
            primary_key: self.primary_key,
        }
    }
}

/// The declared type text of a column, as it stands in the creation
/// clause and as the backing store reports it back (the store reports
/// declared types upper-cased, so the clause writes them that way).
pub open spec fn decl_of(t: ColType) -> Seq<char> {
    match t {
        ColType::ColText => "TEXT"@,
        ColType::ColInt => "INT"@,
    }
}

/// One column as the backing store describes it: identifier, declared
/// type text, and the not-null and primary-key marks the store reports
/// (0 for absent; for a key column, its ordinal within the key).
pub struct ColSchema {
    pub name: Seq<char>,
    pub decl: Seq<char>,
    pub not_null: int,
    pub pk: int,
}

/// A declared column as the backing store would describe it.
pub open spec fn col_pair(c: ColumnModel) -> ColSchema {
    ColSchema {
        name: c.name,
        decl: decl_of(c.ctype),
        not_null: if c.not_null {
            1
        } else {
            0
        },
        pk: if c.primary_key {
            1
        } else {
            0
        },
    }
}

/// A column layout as the backing store would describe it.
pub open spec fn col_pairs(cols: Seq<ColumnModel>) -> Seq<ColSchema> {
    cols.map_values(|c: ColumnModel| col_pair(c))
}

/// A character that may stand in a relation or column identifier.
pub open spec fn is_ident_char(c: char) -> bool {
    ('a' <= c && c <= 'z') || ('0' <= c && c <= '9') || c == '_'
}

/// Every character of `s` may stand in an identifier.
pub open spec fn all_ident_chars(s: Seq<char>) -> bool
    decreases s.len(),
{
    s.len() == 0 || (is_ident_char(s[0]) && all_ident_chars(s.drop_first()))
}

/// A plain lower-case identifier: what this library accepts as a
/// relation or column name.  Keeping to lower case sidesteps the
/// backing store's case-insensitive name lookup, so a name denotes one
/// relation exactly.
pub open spec fn is_sql_ident(s: Seq<char>) -> bool {
    &&& 1 <= s.len()
    &&& 'a' <= s[0] && s[0] <= 'z'
    &&& all_ident_chars(s)
}

/// The view of an optional text field.
pub open spec fn view_opt(o: Option<String>) -> Option<Seq<char>> {
    match o {
        Some(s) => Some(s@),
        None => None,
    }
}

/// The stored form of an optional text field: its text, or absent.
pub open spec fn opt_text(o: Option<Seq<char>>) -> ValueV {
    match o {
        Some(s) => ValueV::Text(s),
        None => ValueV::Null,
    }
}

/// Whether a stored value reads back as an optional text field.
pub open spec fn textable(v: ValueV) -> bool {
    v is Text || v is Null
}

/// The optional text field a stored value reads back to.
pub open spec fn dec_opt(v: ValueV) -> Option<Seq<char>> {
    match v {
        ValueV::Text(s) => Some(s),
        _ => None,
    }
}

/// Whether a stored value belongs to a column with the given declared
/// type text: absent, or of the matching storage class.  Values that
/// satisfy this are stored and returned unchanged by the backing store.
pub open spec fn value_fits(v: ValueV, decl: Seq<char>) -> bool {
    if decl == "TEXT"@ {
        v is Text || v is Null
    } else if decl == "INT"@ {
        v is Integer || v is Null
    } else {
        false
    }
}

/// Whether a row matches a column layout position by position.
pub open spec fn row_fits(row: Seq<ValueV>, cols: Seq<ColSchema>) -> bool {
    &&& row.len() == cols.len()
    &&& forall|i: int| 0 <= i < row.len() ==> value_fits(#[trigger] row[i], cols[i].decl)
}

/// Whether a row leaves a column empty that its relation declares not
/// null.
pub open spec fn not_null_violation(row: Seq<ValueV>, cols: Seq<ColSchema>) -> bool {
    exists|i: int|
        0 <= i < cols.len() && i < row.len() && (#[trigger] cols[i]).not_null != 0 && row[i] is Null
}

/// Whether the layout declares a primary key at all.
pub open spec fn has_pk(cols: Seq<ColSchema>) -> bool {
    exists|i: int| 0 <= i < cols.len() && (#[trigger] cols[i]).pk != 0
}

/// Whether a row fills every declared key column (the store treats a
/// key with an empty column as conflicting with nothing).
pub open spec fn pk_complete(row: Seq<ValueV>, cols: Seq<ColSchema>) -> bool {
    forall|i: int|
        0 <= i < cols.len() && (#[trigger] cols[i]).pk != 0 ==> i < row.len() && !(row[i] is Null)
}

/// Whether two rows agree on every declared key column.
pub open spec fn pk_matches(r1: Seq<ValueV>, r2: Seq<ValueV>, cols: Seq<ColSchema>) -> bool {
    forall|i: int|
        0 <= i < cols.len() && (#[trigger] cols[i]).pk != 0 ==> i < r1.len() && i < r2.len()
            && r1[i] == r2[i]
}

/// Whether inserting the row would violate the layout's declared
/// uniqueness constraint: the key is declared and filled, and a stored
/// row carries the same key.
pub open spec fn pk_conflict(
    row: Seq<ValueV>,
    cols: Seq<ColSchema>,
    existing: vstd::multiset::Multiset<Seq<ValueV>>,
) -> bool {
    &&& has_pk(cols)
    &&& pk_complete(row, cols)
    &&& exists|r2: Seq<ValueV>| #[trigger] existing.count(r2) > 0 && pk_matches(row, r2, cols)
}

/// Whether inserting the row would violate a constraint the relation
/// declares: a not-null column left empty, or a duplicated key.
pub open spec fn row_violates(
    row: Seq<ValueV>,
    cols: Seq<ColSchema>,
    existing: vstd::multiset::Multiset<Seq<ValueV>>,
) -> bool {
    not_null_violation(row, cols) || pk_conflict(row, cols, existing)
}

} // verus!
