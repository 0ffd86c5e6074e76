//! Generation of the SQL statement text the persistence layer issues,
//! pinned character for character by spec functions.  The trusted layer
//! in [`crate::sqlite`] accepts a statement only together with the
//! structured arguments it was generated from.

use vstd::prelude::*;
use vstd::string::StringExecFns;

use crate::values::{decl_of, ColType, ColumnDef, ColumnModel};

verus! {

/// The text of one column definition inside a creation clause:
/// identifier, type, and constraints.
pub open spec fn col_def_text(c: ColumnModel) -> Seq<char> {
    c.name + " "@ + decl_of(c.ctype) + (if c.not_null {
        " not null"@
    } else {
        Seq::<char>::empty()
    }) + (if c.primary_key {
        " primary key"@
    } else {
        Seq::<char>::empty()
    })
}

/// The comma-joined column definitions of a creation clause.
pub open spec fn create_clause_text(cols: Seq<ColumnModel>) -> Seq<char>
    decreases cols.len(),
{
    if cols.len() == 0 {
        Seq::<char>::empty()
    } else if cols.len() == 1 {
        col_def_text(cols[0])
    } else {
        create_clause_text(cols.drop_last()) + ","@ + col_def_text(cols.last())
    }
}

/// The comma-joined column identifiers of an insert statement.
pub open spec fn names_text(names: Seq<Seq<char>>) -> Seq<char>
    decreases names.len(),
{
    if names.len() == 0 {
        Seq::<char>::empty()
    } else if names.len() == 1 {
        names[0]
    } else {
        names_text(names.drop_last()) + ","@ + names.last()
    }
}

/// `n` comma-joined positional parameter marks.
pub open spec fn placeholders_text(n: int) -> Seq<char>
    decreases n,
{
    if n <= 0 {
        Seq::<char>::empty()
    } else if n == 1 {
        "?"@
    } else {
        placeholders_text(n - 1) + ",?"@
    }
}

/// The full text of the statement that creates an entity's table if it
/// is absent.
pub open spec fn create_sql_model(table: Seq<char>, cols: Seq<ColumnModel>) -> Seq<char> {
    "CREATE TABLE IF NOT EXISTS "@ + table + " ("@ + create_clause_text(cols) + ")"@
}

/// The full text of the statement that drops an entity's table if it is
/// present.
pub open spec fn drop_sql_model(table: Seq<char>) -> Seq<char> {
    "DROP TABLE IF EXISTS "@ + table
}

/// The full text of the parameterized single-record insert statement.
pub open spec fn insert_sql_model(table: Seq<char>, names: Seq<Seq<char>>) -> Seq<char> {
    "INSERT INTO "@ + table + " ("@ + names_text(names) + ") VALUES ("@ + placeholders_text(
        names.len() as int,
    ) + ")"@
}

/// The full text of the full-table scan statement.
pub open spec fn select_sql_model(table: Seq<char>) -> Seq<char> {
    "SELECT * FROM "@ + table
}

/// The declared type text of a column type.
pub fn decl_text(t: ColType) -> (r: &'static str)
    ensures
        r@ == decl_of(t),
{
    match t {
        ColType::ColText => "TEXT",
        ColType::ColInt => "INT",
    }
}

/// Builds the statement that creates the table named `table` with the
/// columns `cols`.
#[verifier::rlimit(60)]
pub fn create_table_sql(table: &str, cols: &Vec<ColumnDef>) -> (r: String)
    ensures
        r@ == create_sql_model(table@, cols@.map_values(|c: ColumnDef| c@)),
{
    let ghost cm = cols@.map_values(|c: ColumnDef| c@);
    let mut s = String::from_str("CREATE TABLE IF NOT EXISTS ");
    s.append(table);
    s.append(" (");
    let mut i: usize = 0;
    while i < cols.len()
        invariant
            0 <= i <= cols.len(),
            cm == cols@.map_values(|c: ColumnDef| c@),
            s@ == "CREATE TABLE IF NOT EXISTS "@ + table@ + " ("@ + create_clause_text(
                cm.take(i as int),
            ),
        decreases cols.len() - i,
    {
        if i > 0 {
            s.append(",");
        }
        s.append(cols[i].name);
        s.append(" ");
        s.append(decl_text(cols[i].ctype));
        if cols[i].not_null {
            s.append(" not null");
        }
        if cols[i].primary_key {
            s.append(" primary key");
        }
        proof {
            assert(cm.take(i + 1).drop_last() =~= cm.take(i as int));
            assert(cm.take(i + 1).last() == cm[i as int]);
            assert(cm[i as int] == cols@[i as int]@);
            if i == 0 {
                assert(create_clause_text(cm.take(1)) == col_def_text(cm[0]));
            }
            assert(s@ == "CREATE TABLE IF NOT EXISTS "@ + table@ + " ("@ + create_clause_text(
                cm.take(i + 1),
            ));
        }
        i = i + 1;
    }
    proof {
        assert(cm.take(cols@.len() as int) =~= cm);
    }
    s.append(")");
    s
}

/// Builds the statement that drops the table named `table`.
pub fn drop_table_sql(table: &str) -> (r: String)
    ensures
        r@ == drop_sql_model(table@),
{
    let mut s = String::from_str("DROP TABLE IF EXISTS ");
    s.append(table);
    s
}

/// Builds the parameterized insert statement for the table named
/// `table` with the columns `cols`.
pub fn insert_sql(table: &str, cols: &Vec<ColumnDef>) -> (r: String)
    ensures
        r@ == insert_sql_model(table@, cols@.map_values(|c: ColumnDef| c@.name)),
{
    let ghost cm = cols@.map_values(|c: ColumnDef| c@.name);
    let mut names = String::new();
    let mut marks = String::new();
    let mut i: usize = 0;
    while i < cols.len()
        invariant
            0 <= i <= cols.len(),
            cm == cols@.map_values(|c: ColumnDef| c@.name),
            names@ == names_text(cm.take(i as int)),
            marks@ == placeholders_text(i as int),
        decreases cols.len() - i,
    {
        if i > 0 {
            names.append(",");
            marks.append(",");
        }
        names.append(cols[i].name);
        marks.append("?");
        proof {
            assert(cm.take(i + 1).drop_last() =~= cm.take(i as int));
            assert(cm.take(i + 1).last() == cm[i as int]);
            assert(cm[i as int] == cols@[i as int]@.name);
            if i > 0 {
                assert(","@ + "?"@ =~= ",?"@) by {
                    reveal_strlit(",");
                    reveal_strlit("?");
                    reveal_strlit(",?");
                }
                assert(marks@ == placeholders_text(i + 1));
            }
        }
        i = i + 1;
    }
    proof {
        assert(cm.take(cols@.len() as int) =~= cm);
    }
    let mut s = String::from_str("INSERT INTO ");
    s.append(table);
    s.append(" (");
    s.append(names.as_str());
    s.append(") VALUES (");
    s.append(marks.as_str());
    s.append(")");
    s
}

/// Builds the full-table scan statement for the table named `table`.
pub fn select_sql(table: &str) -> (r: String)
    ensures
        r@ == select_sql_model(table@),
{
    let mut s = String::from_str("SELECT * FROM ");
    s.append(table);
    s
}

} // verus!
