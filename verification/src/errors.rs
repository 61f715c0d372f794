//! The request-level error taxonomy. Every variant is caller-correctable and
//! is produced before any statement executes; database faults arise only
//! outside this crate and are mapped by the transport layer.

use vstd::prelude::*;

verus! {

/// Why a request was refused before any statement was built or executed.
pub enum QueryError {
    /// The named table is not in the live schema listing.
    UnknownTable(String),
    /// The named column is not among the table's columns.
    UnknownColumn { table: String, column: String },
    /// The identifier holds a character outside the letters/digits/underscore
    /// class and must never be embedded in statement text.
    InvalidIdentifier(String),
    /// Requested projection columns that the table does not have.
    InvalidColumns(Vec<String>),
    /// A required request parameter was absent.
    MissingParameter(String),
}

/// The result is the invalid-identifier refusal for the given name.
pub open spec fn err_invalid_ident<T>(r: Result<T, QueryError>, name: Seq<char>) -> bool {
    match r {
        Result::Err(QueryError::InvalidIdentifier(n)) => n@ == name,
        _ => false,
    }
}

/// The result is the unknown-table refusal for the given name.
pub open spec fn err_unknown_table<T>(r: Result<T, QueryError>, name: Seq<char>) -> bool {
    match r {
        Result::Err(QueryError::UnknownTable(n)) => n@ == name,
        _ => false,
    }
}

/// The result is the unknown-column refusal for the given table and column.
pub open spec fn err_unknown_column<T>(
    r: Result<T, QueryError>,
    table: Seq<char>,
    column: Seq<char>,
) -> bool {
    match r {
        Result::Err(QueryError::UnknownColumn { table: t, column: c }) => t@ == table && c@
            == column,
        _ => false,
    }
}

/// The result is the invalid-columns refusal listing exactly the given
/// names, in order.
pub open spec fn err_invalid_columns<T>(r: Result<T, QueryError>, names: Seq<Seq<char>>) -> bool {
    match r {
        Result::Err(QueryError::InvalidColumns(v)) => v.deep_view() == names,
        _ => false,
    }
}

/// The result is the missing-parameter refusal for the given parameter name.
pub open spec fn err_missing_param<T>(r: Result<T, QueryError>, name: Seq<char>) -> bool {
    match r {
        Result::Err(QueryError::MissingParameter(n)) => n@ == name,
        _ => false,
    }
}

/// The endpoint a refusal is answered for. The category of an absent-table
/// refusal depends on it: only the column-enumeration endpoint answers with
/// the not-found category; the row-count, distinct-values and filtered-query
/// endpoints answer an absent table with the bad-request category.
#[derive(Clone, Copy)]
pub enum Endpoint {
    TableColumns,
    DistinctValues,
    RowCount,
    FilteredQuery,
}

/// The response category label owed for an error on an endpoint.
pub open spec fn category_label(e: QueryError, endpoint: Endpoint) -> Seq<char> {
    if e is UnknownTable && endpoint is TableColumns {
        "Not Found"@
    } else {
        "Bad Request"@
    }
}

/// The response category label for an error: an absent table on the
/// column-enumeration endpoint is "Not Found"; every other refusal, on every
/// endpoint, is "Bad Request".
pub fn category(e: &QueryError, endpoint: Endpoint) -> (r: &'static str)
    ensures
        r@ == category_label(*e, endpoint),
{
    match e {
        QueryError::UnknownTable(_) => match endpoint {
            Endpoint::TableColumns => "Not Found",
            _ => "Bad Request",
        },
        _ => "Bad Request",
    }
}

} // verus!
