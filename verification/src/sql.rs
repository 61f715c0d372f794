//! Statement construction. Every identifier that reaches these builders must
//! already have passed the character-class check in `ident`; scalar filter
//! values are never embedded in statement text, only a `?` placeholder is.

use vstd::prelude::*;
use vstd::string::StringExecFns;

use crate::decimal::dec_rep;
use crate::decimal::u64_to_dec;
use crate::ident::is_safe_ident;

verus! {

/// Statement text for the table enumeration query.
pub open spec fn show_tables_sql() -> Seq<char> {
    "SHOW TABLES"@
}

/// Statement text for the column enumeration query on a table.
pub open spec fn show_columns_sql(table: Seq<char>) -> Seq<char> {
    "SHOW COLUMNS FROM `"@ + table + "`"@
}

/// Statement text for the row-count query on a table.
pub open spec fn count_sql(table: Seq<char>) -> Seq<char> {
    "SELECT COUNT(*) AS count FROM `"@ + table + "`"@
}

/// Statement text for the distinct-values query on a column, with the
/// clamped limit embedded as a decimal literal.
pub open spec fn distinct_sql(table: Seq<char>, column: Seq<char>, limit: u32) -> Seq<char> {
    "SELECT DISTINCT `"@ + column + "` AS value FROM `"@ + table + "` WHERE `"@ + column
        + "` IS NOT NULL LIMIT "@ + dec_rep(limit as nat)
}

/// Statement text for the filtered row query: the projection and the
/// identifiers are embedded, the filter value is only ever the `?` parameter.
pub open spec fn filtered_sql(projection: Seq<char>, table: Seq<char>, field: Seq<char>, limit: u32) -> Seq<char> {
    "SELECT "@ + projection + " FROM `"@ + table + "` WHERE `"@ + field + "` = ? LIMIT "@
        + dec_rep(limit as nat)
}

/// The comma-joined projection list, each column name wrapped in backticks.
pub open spec fn joined_columns(cols: Seq<Seq<char>>) -> Seq<char>
    decreases cols.len(),
{
    if cols.len() == 0 {
        Seq::<char>::empty()
    } else if cols.len() == 1 {
        "`"@ + cols[0] + "`"@
    } else {
        joined_columns(cols.drop_last()) + ", `"@ + cols.last() + "`"@
    }
}

/// Builds the table enumeration statement.
pub fn build_show_tables() -> (r: String)
    ensures
        r@ == show_tables_sql(),
{
    String::from_str("SHOW TABLES")
}

/// Builds the column enumeration statement for a validated table name.
pub fn build_show_columns(table: &String) -> (r: String)
    requires
        is_safe_ident(table@),
    ensures
        r@ == show_columns_sql(table@),
{
    let mut s = String::from_str("SHOW COLUMNS FROM `");
    s.append(table.as_str());
    s.append("`");
    proof {
        assert(s@ =~= show_columns_sql(table@));
    }
    s
}

/// Builds the row-count statement for a validated table name.
pub fn build_count(table: &String) -> (r: String)
    requires
        is_safe_ident(table@),
    ensures
        r@ == count_sql(table@),
{
    let mut s = String::from_str("SELECT COUNT(*) AS count FROM `");
    s.append(table.as_str());
    s.append("`");
    proof {
        assert(s@ =~= count_sql(table@));
    }
    s
}

/// Builds the distinct-values statement for validated identifiers and a
/// clamped limit.
pub fn build_distinct(table: &String, column: &String, limit: u32) -> (r: String)
    requires
        is_safe_ident(table@),
        is_safe_ident(column@),
    ensures
        r@ == distinct_sql(table@, column@, limit),
{
    let mut s = String::from_str("SELECT DISTINCT `");
    s.append(column.as_str());
    s.append("` AS value FROM `");
    s.append(table.as_str());
    s.append("` WHERE `");
    s.append(column.as_str());
    s.append("` IS NOT NULL LIMIT ");
    let lim = u64_to_dec(limit as u64);
    s.append(lim.as_str());
    proof {
        assert(s@ =~= distinct_sql(table@, column@, limit));
    }
    s
}

/// Builds the filtered row statement around an already-built projection; the
/// filter value stays out of the text, represented by the `?` placeholder.
pub fn build_filtered(projection: &String, table: &String, field: &String, limit: u32) -> (r:
    String)
    requires
        is_safe_ident(table@),
        is_safe_ident(field@),
    ensures
        r@ == filtered_sql(projection@, table@, field@, limit),
{
    let mut s = String::from_str("SELECT ");
    s.append(projection.as_str());
    s.append(" FROM `");
    s.append(table.as_str());
    s.append("` WHERE `");
    s.append(field.as_str());
    s.append("` = ? LIMIT ");
    let lim = u64_to_dec(limit as u64);
    s.append(lim.as_str());
    proof {
        assert(s@ =~= filtered_sql(projection@, table@, field@, limit));
    }
    s
}

/// Joins validated column names into the projection list text.
pub fn build_joined_columns(cols: &Vec<String>) -> (r: String)
    ensures
        r@ == joined_columns(cols.deep_view()),
{
    let mut s = String::new();
    let mut i: usize = 0;
    proof {
        assert(cols.deep_view().len() == cols@.len());
    }
    while i < cols.len()
        invariant
            0 <= i <= cols@.len(),
            cols.deep_view().len() == cols@.len(),
            forall|j: int| 0 <= j < cols@.len() ==> cols.deep_view()[j] == cols@[j]@,
            s@ == joined_columns(cols.deep_view().take(i as int)),
        decreases cols@.len() - i,
    {
        if i == 0 {
            s.append("`");
            s.append(cols[i].as_str());
            s.append("`");
        } else {
            s.append(", `");
            s.append(cols[i].as_str());
            s.append("`");
        }
        proof {
            let dv = cols.deep_view();
            assert(dv.take(i + 1).drop_last() =~= dv.take(i as int));
            assert(dv.take(i + 1).last() == cols@[i as int]@);
            if i == 0 {
                assert(s@ =~= "`"@ + dv.take(1)[0] + "`"@);
            } else {
                assert(s@ =~= joined_columns(dv.take(i as int)) + ", `"@ + dv.take(i + 1).last()
                    + "`"@);
            }
        }
        i += 1;
    }
    proof {
        assert(cols.deep_view().take(cols@.len() as int) =~= cols.deep_view());
    }
    s
}

} // verus!
