//! Per-endpoint request planning: each function takes the caller's raw
//! inputs together with the live schema listing fetched for this request,
//! and either refuses the request or yields the statement to execute. Every
//! refusal happens before any statement text is built.

use vstd::prelude::*;
use vstd::string::StringExecFns;

use crate::decimal::dec_val;
use crate::decimal::digits_part;
use crate::decimal::is_dec_numeral;
use crate::decimal::parse_dec_saturating;
use crate::errors::err_invalid_columns;
use crate::errors::err_invalid_ident;
use crate::errors::err_missing_param;
use crate::errors::err_unknown_column;
use crate::errors::err_unknown_table;
use crate::errors::QueryError;
use crate::ident::check_ident;
use crate::ident::is_safe_ident;
use crate::schema::lemma_deep_view_index;
use crate::schema::missing_columns;
use crate::schema::missing_of;
use crate::schema::name_listed;
use crate::split::parse_columns;
use crate::split::requested_columns;
use crate::sql::build_count;
use crate::sql::build_distinct;
use crate::sql::build_filtered;
use crate::sql::build_joined_columns;
use crate::sql::build_show_columns;
use crate::sql::count_sql;
use crate::sql::distinct_sql;
use crate::sql::filtered_sql;
use crate::sql::joined_columns;
use crate::sql::show_columns_sql;

verus! {

/// The largest limit a caller may obtain; anything above is silently
/// truncated to this, never rejected.
pub const MAX_LIMIT: u32 = 1000;

/// The limit applied when the caller gives none, or an unparsable one.
pub const DEFAULT_LIMIT: u32 = 20;

/// The effective row limit for a raw caller-supplied limit parameter: the
/// requested value clamped to at most 1000 when the text is a well-formed
/// non-negative decimal numeral, and the default 20 otherwise.
pub open spec fn limit_of(raw: Option<Seq<char>>) -> u32 {
    match raw {
        Option::None => DEFAULT_LIMIT,
        Option::Some(s) => if is_dec_numeral(s) {
            if dec_val(digits_part(s)) > MAX_LIMIT {
                MAX_LIMIT
            } else {
                dec_val(digits_part(s)) as u32
            }
        } else {
            DEFAULT_LIMIT
        },
    }
}

/// Clamps a raw limit parameter: `min(requested, 1000)` for a well-formed
/// numeral of any length, the default 20 when absent or unparsable.
pub fn effective_limit(raw: &Option<String>) -> (r: u32)
    ensures
        r == limit_of(raw.deep_view()),
        r <= MAX_LIMIT,
{
    match raw {
        Option::None => DEFAULT_LIMIT,
        Option::Some(s) => {
            match parse_dec_saturating(s.as_str(), MAX_LIMIT) {
                Option::None => DEFAULT_LIMIT,
                Option::Some(v) => if v > MAX_LIMIT {
                    MAX_LIMIT
                } else {
                    v
                },
            }
        },
    }
}

/// The projection of a filtered query: every column, or an explicit
/// schema-confirmed list.
pub enum Projection {
    All,
    Columns(Vec<String>),
}

/// A ready distinct-values statement with its effective limit.
pub struct DistinctPlan {
    pub sql: String,
    pub limit: u32,
}

/// A ready filtered row query: the statement text (holding a `?`
/// placeholder), the one bound parameter for it, the projection, and the
/// effective limit.
pub struct FilteredPlan {
    pub sql: String,
    pub param: String,
    pub projection: Projection,
    pub limit: u32,
}

/// The result carries the given statement text.
pub open spec fn ok_sql(r: Result<String, QueryError>, text: Seq<char>) -> bool {
    match r {
        Result::Ok(s) => s@ == text,
        Result::Err(_) => false,
    }
}

/// Plans the column enumeration for a table: the identifier class is checked
/// first, then the table must appear in the live listing.
pub fn plan_table_columns(table: &String, tables: &Vec<String>) -> (r: Result<String, QueryError>)
    ensures
        !is_safe_ident(table@) ==> err_invalid_ident(r, table@),
        is_safe_ident(table@) && !tables.deep_view().contains(table@) ==> err_unknown_table(
            r,
            table@,
        ),
        is_safe_ident(table@) && tables.deep_view().contains(table@) ==> ok_sql(
            r,
            show_columns_sql(table@),
        ),
{
    if !check_ident(table.as_str()) {
        return Result::Err(QueryError::InvalidIdentifier(table.clone()));
    }
    if !name_listed(tables, table) {
        return Result::Err(QueryError::UnknownTable(table.clone()));
    }
    Result::Ok(build_show_columns(table))
}

/// Plans the row-count query for a table, with the same validation order as
/// the column enumeration.
pub fn plan_row_count(table: &String, tables: &Vec<String>) -> (r: Result<String, QueryError>)
    ensures
        !is_safe_ident(table@) ==> err_invalid_ident(r, table@),
        is_safe_ident(table@) && !tables.deep_view().contains(table@) ==> err_unknown_table(
            r,
            table@,
        ),
        is_safe_ident(table@) && tables.deep_view().contains(table@) ==> ok_sql(
            r,
            count_sql(table@),
        ),
{
    if !check_ident(table.as_str()) {
        return Result::Err(QueryError::InvalidIdentifier(table.clone()));
    }
    if !name_listed(tables, table) {
        return Result::Err(QueryError::UnknownTable(table.clone()));
    }
    Result::Ok(build_count(table))
}

/// The result carries the distinct-values statement for these identifiers
/// and this raw limit.
pub open spec fn distinct_plan_ok(
    r: Result<DistinctPlan, QueryError>,
    table: Seq<char>,
    column: Seq<char>,
    limit: Option<Seq<char>>,
) -> bool {
    match r {
        Result::Ok(p) => p.sql@ == distinct_sql(table, column, limit_of(limit)) && p.limit
            == limit_of(limit),
        Result::Err(_) => false,
    }
}

/// Plans the distinct-values query for a column of a table whose column
/// listing was already fetched.
pub fn plan_distinct_values(
    table: &String,
    column: &String,
    columns: &Vec<String>,
    limit: &Option<String>,
) -> (r: Result<DistinctPlan, QueryError>)
    ensures
        !is_safe_ident(table@) ==> err_invalid_ident(r, table@),
        is_safe_ident(table@) && !is_safe_ident(column@) ==> err_invalid_ident(r, column@),
        is_safe_ident(table@) && is_safe_ident(column@) && !columns.deep_view().contains(column@)
            ==> err_unknown_column(r, table@, column@),
        is_safe_ident(table@) && is_safe_ident(column@) && columns.deep_view().contains(column@)
            ==> distinct_plan_ok(r, table@, column@, limit.deep_view()),
{
    if !check_ident(table.as_str()) {
        return Result::Err(QueryError::InvalidIdentifier(table.clone()));
    }
    if !check_ident(column.as_str()) {
        return Result::Err(QueryError::InvalidIdentifier(column.clone()));
    }
    if !name_listed(columns, column) {
        return Result::Err(
            QueryError::UnknownColumn { table: table.clone(), column: column.clone() },
        );
    }
    let lim = effective_limit(limit);
    Result::Ok(DistinctPlan { sql: build_distinct(table, column, lim), limit: lim })
}

/// Every name in the sequence passes the identifier character class.
pub open spec fn all_safe_idents(cs: Seq<Seq<char>>) -> bool {
    forall|i: int| 0 <= i < cs.len() ==> is_safe_ident(cs[i])
}

/// Index `i` holds the first name failing the identifier character class.
pub open spec fn is_first_unsafe(cs: Seq<Seq<char>>, i: int) -> bool {
    0 <= i < cs.len() && !is_safe_ident(cs[i]) && (forall|j: int|
        0 <= j < i ==> is_safe_ident(cs[j]))
}

/// The result carries the filtered row statement for these inputs: the
/// projection text is `*` or the backticked join of the requested columns,
/// the filter value is the plan's one bound parameter (never part of the
/// text), and the limit is the clamped effective limit.
pub open spec fn filtered_plan_ok(
    r: Result<FilteredPlan, QueryError>,
    table: Seq<char>,
    field: Seq<char>,
    value: Seq<char>,
    columns: Option<Seq<char>>,
    limit: Option<Seq<char>>,
) -> bool {
    match r {
        Result::Ok(p) => {
            let lim = limit_of(limit);
            p.limit == lim && p.param@ == value && (match columns {
                Option::None => p.projection is All && p.sql@ == filtered_sql(
                    "*"@,
                    table,
                    field,
                    lim,
                ),
                Option::Some(c) => (match p.projection {
                    Projection::Columns(v) => v.deep_view() == requested_columns(c),
                    Projection::All => false,
                }) && p.sql@ == filtered_sql(
                    joined_columns(requested_columns(c)),
                    table,
                    field,
                    lim,
                ),
            })
        },
        Result::Err(_) => false,
    }
}

/// The whole contract of the filtered-query planner, in validation order:
/// required parameters, identifier classes, the filter field against the
/// table's columns, then the requested projection columns against the same
/// listing (collecting every absent name), then their identifier classes.
pub open spec fn filtered_outcome(
    r: Result<FilteredPlan, QueryError>,
    table: Seq<char>,
    field: Option<Seq<char>>,
    value: Option<Seq<char>>,
    columns: Option<Seq<char>>,
    limit: Option<Seq<char>>,
    available: Seq<Seq<char>>,
) -> bool {
    if field is None {
        err_missing_param(r, "field"@)
    } else if value is None {
        err_missing_param(r, "value"@)
    } else if !is_safe_ident(table) {
        err_invalid_ident(r, table)
    } else if !is_safe_ident(field->0) {
        err_invalid_ident(r, field->0)
    } else if !available.contains(field->0) {
        err_unknown_column(r, table, field->0)
    } else {
        match columns {
            Option::None => filtered_plan_ok(r, table, field->0, value->0, columns, limit),
            Option::Some(c) => {
                let req = requested_columns(c);
                let bad = missing_of(req, available);
                if bad.len() > 0 {
                    err_invalid_columns(r, bad)
                } else if !all_safe_idents(req) {
                    exists|i: int| #[trigger] is_first_unsafe(req, i) && err_invalid_ident(
                        r,
                        req[i],
                    )
                } else {
                    filtered_plan_ok(r, table, field->0, value->0, columns, limit)
                }
            },
        }
    }
}

/// Scans the requested column names for the first one failing the
/// identifier character class.
fn find_unsafe_ident(req: &Vec<String>) -> (r: Option<usize>)
    ensures
        r matches Some(i) ==> i < req@.len() && is_first_unsafe(req.deep_view(), i as int),
        r is None ==> all_safe_idents(req.deep_view()),
{
    proof {
        lemma_deep_view_index(*req);
    }
    let mut i: usize = 0;
    while i < req.len()
        invariant
            0 <= i <= req@.len(),
            req.deep_view().len() == req@.len(),
            forall|j: int| 0 <= j < req@.len() ==> req.deep_view()[j] == req@[j]@,
            forall|j: int| 0 <= j < i ==> is_safe_ident(req.deep_view()[j]),
        decreases req@.len() - i,
    {
        if !check_ident(req[i].as_str()) {
            proof {
                assert(!is_safe_ident(req.deep_view()[i as int]));
            }
            return Option::Some(i);
        }
        i += 1;
    }
    Option::None
}

/// Plans the filtered row query against the table's fetched column listing.
pub fn plan_filtered_query(
    table: &String,
    field: &Option<String>,
    value: &Option<String>,
    columns: &Option<String>,
    limit: &Option<String>,
    available: &Vec<String>,
) -> (r: Result<FilteredPlan, QueryError>)
    ensures
        filtered_outcome(
            r,
            table@,
            field.deep_view(),
            value.deep_view(),
            columns.deep_view(),
            limit.deep_view(),
            available.deep_view(),
        ),
{
    let f: &String = match field {
        Option::Some(f) => f,
        Option::None => {
            return Result::Err(QueryError::MissingParameter(String::from_str("field")));
        },
    };
    let v: &String = match value {
        Option::Some(v) => v,
        Option::None => {
            return Result::Err(QueryError::MissingParameter(String::from_str("value")));
        },
    };
    if !check_ident(table.as_str()) {
        return Result::Err(QueryError::InvalidIdentifier(table.clone()));
    }
    if !check_ident(f.as_str()) {
        return Result::Err(QueryError::InvalidIdentifier(f.clone()));
    }
    if !name_listed(available, f) {
        return Result::Err(
            QueryError::UnknownColumn { table: table.clone(), column: f.clone() },
        );
    }
    let lim = effective_limit(limit);
    match columns {
        Option::None => {
            let proj = String::from_str("*");
            let sql = build_filtered(&proj, table, f, lim);
            Result::Ok(
                FilteredPlan { sql, param: v.clone(), projection: Projection::All, limit: lim },
            )
        },
        Option::Some(c) => {
            let req = parse_columns(c.as_str());
            let bad = missing_columns(&req, available);
            proof {
                lemma_deep_view_index(bad);
                lemma_deep_view_index(req);
            }
            if bad.len() > 0 {
                return Result::Err(QueryError::InvalidColumns(bad));
            }
            let ghost reqv = requested_columns(c@);
            match find_unsafe_ident(&req) {
                Option::Some(i) => {
                    let bad_name = req[i].clone();
                    proof {
                        assert(is_first_unsafe(reqv, i as int));
                        assert(!all_safe_idents(reqv));
                    }
                    let r = Result::Err(QueryError::InvalidIdentifier(bad_name));
                    proof {
                        assert(bad_name@ == reqv[i as int]);
                        assert(err_invalid_ident(r, reqv[i as int]));
                        assert(exists|k: int|
                            #[trigger] is_first_unsafe(reqv, k) && err_invalid_ident(r, reqv[k]));
                    }
                    return r;
                },
                Option::None => {},
            }
            let proj = build_joined_columns(&req);
            let sql = build_filtered(&proj, table, f, lim);
            Result::Ok(
                FilteredPlan {
                    sql,
                    param: v.clone(),
                    projection: Projection::Columns(req),
                    limit: lim,
                },
            )
        },
    }
}

} // verus!
