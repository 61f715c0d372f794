use table_browser::errors::category;
use table_browser::errors::Endpoint;
use table_browser::errors::QueryError;
use table_browser::plans::plan_distinct_values;
use table_browser::plans::plan_filtered_query;
use table_browser::plans::plan_row_count;
use table_browser::plans::plan_table_columns;
use table_browser::plans::Projection;
use table_browser::schema::missing_columns;
use table_browser::schema::name_listed;
use table_browser::split::parse_columns;
use table_browser::split::split_columns;
use table_browser::split::trim_str;
use table_browser::sql::build_count;
use table_browser::sql::build_distinct;
use table_browser::sql::build_filtered;
use table_browser::sql::build_joined_columns;
use table_browser::sql::build_show_columns;
use table_browser::sql::build_show_tables;

fn users_tables() -> Vec<String> {
    vec!["users".to_string(), "orders".to_string()]
}

fn users_columns() -> Vec<String> {
    vec!["id".to_string(), "name".to_string()]
}

#[test]
fn statement_texts_are_exact() {
    assert_eq!(build_show_tables(), "SHOW TABLES");
    assert_eq!(build_show_columns(&"users".to_string()), "SHOW COLUMNS FROM `users`");
    assert_eq!(build_count(&"users".to_string()), "SELECT COUNT(*) AS count FROM `users`");
    assert_eq!(
        build_distinct(&"users".to_string(), &"name".to_string(), 20),
        "SELECT DISTINCT `name` AS value FROM `users` WHERE `name` IS NOT NULL LIMIT 20"
    );
    assert_eq!(
        build_filtered(&"`id`, `name`".to_string(), &"users".to_string(), &"name".to_string(), 5),
        "SELECT `id`, `name` FROM `users` WHERE `name` = ? LIMIT 5"
    );
}

#[test]
fn projection_join_wraps_each_column() {
    assert_eq!(build_joined_columns(&users_columns()), "`id`, `name`");
    assert_eq!(build_joined_columns(&vec!["id".to_string()]), "`id`");
    assert_eq!(build_joined_columns(&Vec::new()), "");
}

#[test]
fn splitting_and_trimming() {
    assert_eq!(split_columns("id,name"), vec!["id", "name"]);
    assert_eq!(split_columns(""), vec![""]);
    assert_eq!(split_columns("a,,b"), vec!["a", "", "b"]);
    assert_eq!(trim_str("  a b\t"), "a b");
    assert_eq!(trim_str("\r\n"), "");
    assert_eq!(parse_columns("id, name"), vec!["id", "name"]);
    assert_eq!(parse_columns(" a ,b,, c\t"), vec!["a", "b", "", "c"]);
}

#[test]
fn trimming_covers_unicode_whitespace() {
    assert_eq!(trim_str("\u{00A0}id\u{00A0}"), "id");
    assert_eq!(trim_str("\u{2003}x\u{2028}"), "x");
    assert_eq!(parse_columns("\u{00A0}id\u{00A0},\u{3000}name"), vec!["id", "name"]);
}

#[test]
fn schema_lookup() {
    let cols = users_columns();
    assert!(name_listed(&cols, &"id".to_string()));
    assert!(!name_listed(&cols, &"ghost".to_string()));
    let req = vec!["id".to_string(), "bogus".to_string(), "name".to_string()];
    assert_eq!(missing_columns(&req, &cols), vec!["bogus"]);
    assert_eq!(missing_columns(&users_columns(), &cols), Vec::<String>::new());
}

#[test]
fn columns_of_existing_table() {
    let r = plan_table_columns(&"users".to_string(), &users_tables());
    assert_eq!(r.unwrap_or_default(), "SHOW COLUMNS FROM `users`");
}

#[test]
fn columns_of_absent_table_is_not_found() {
    let r = plan_table_columns(&"ghost".to_string(), &users_tables());
    match r {
        Err(QueryError::UnknownTable(n)) => {
            assert_eq!(n, "ghost");
            assert_eq!(category(&QueryError::UnknownTable(n), Endpoint::TableColumns), "Not Found");
        },
        _ => panic!("expected an unknown-table refusal"),
    }
}

#[test]
fn absent_table_is_bad_request_on_the_other_endpoints() {
    let r = plan_row_count(&"ghost".to_string(), &users_tables());
    match r {
        Err(e @ QueryError::UnknownTable(_)) => {
            assert_eq!(category(&e, Endpoint::RowCount), "Bad Request");
            assert_eq!(category(&e, Endpoint::DistinctValues), "Bad Request");
            assert_eq!(category(&e, Endpoint::FilteredQuery), "Bad Request");
        },
        _ => panic!("expected an unknown-table refusal"),
    }
}

#[test]
fn absent_table_never_reaches_statement_text() {
    let r = plan_row_count(&"ghost".to_string(), &users_tables());
    assert!(matches!(r, Err(QueryError::UnknownTable(_))));
    let r2 = plan_table_columns(&"nope".to_string(), &users_tables());
    assert!(matches!(r2, Err(QueryError::UnknownTable(_))));
}

#[test]
fn row_count_of_existing_table() {
    let r = plan_row_count(&"orders".to_string(), &users_tables());
    assert_eq!(r.unwrap_or_default(), "SELECT COUNT(*) AS count FROM `orders`");
}

#[test]
fn bad_identifier_is_rejected_before_any_statement() {
    let evil = "users`; DROP TABLE users; --".to_string();
    let r = plan_table_columns(&evil, &vec![evil.clone()]);
    match r {
        Err(QueryError::InvalidIdentifier(n)) => assert_eq!(n, evil),
        _ => panic!("expected an invalid-identifier refusal"),
    }
    let r2 = plan_distinct_values(
        &"users".to_string(),
        &"name; x".to_string(),
        &users_columns(),
        &None,
    );
    assert!(matches!(r2, Err(QueryError::InvalidIdentifier(_))));
}

#[test]
fn distinct_values_plan() {
    let r = plan_distinct_values(
        &"users".to_string(),
        &"name".to_string(),
        &users_columns(),
        &None,
    )
    .ok()
    .unwrap();
    assert_eq!(
        r.sql,
        "SELECT DISTINCT `name` AS value FROM `users` WHERE `name` IS NOT NULL LIMIT 20"
    );
    assert_eq!(r.limit, 20);
}

#[test]
fn distinct_values_of_absent_column_is_bad_request() {
    let r = plan_distinct_values(
        &"users".to_string(),
        &"age".to_string(),
        &users_columns(),
        &Some("5".to_string()),
    );
    match r {
        Err(QueryError::UnknownColumn { table, column }) => {
            assert_eq!(table, "users");
            assert_eq!(column, "age");
            assert_eq!(
                category(&QueryError::UnknownColumn { table, column }, Endpoint::DistinctValues),
                "Bad Request"
            );
        },
        _ => panic!("expected an unknown-column refusal"),
    }
}

#[test]
fn filtered_query_clamps_limit_and_binds_value() {
    let r = plan_filtered_query(
        &"users".to_string(),
        &Some("name".to_string()),
        &Some("Alice".to_string()),
        &None,
        &Some("5000".to_string()),
        &users_columns(),
    )
    .ok()
    .unwrap();
    assert_eq!(r.sql, "SELECT * FROM `users` WHERE `name` = ? LIMIT 1000");
    assert_eq!(r.param, "Alice");
    assert_eq!(r.limit, 1000);
    assert!(matches!(r.projection, Projection::All));
    assert!(!r.sql.contains("Alice"));
}

#[test]
fn filtered_query_with_projection() {
    let r = plan_filtered_query(
        &"users".to_string(),
        &Some("id".to_string()),
        &Some("7".to_string()),
        &Some("id, name".to_string()),
        &None,
        &users_columns(),
    )
    .ok()
    .unwrap();
    assert_eq!(r.sql, "SELECT `id`, `name` FROM `users` WHERE `id` = ? LIMIT 20");
    match r.projection {
        Projection::Columns(v) => assert_eq!(v, vec!["id", "name"]),
        Projection::All => panic!("expected an explicit projection"),
    }
}

#[test]
fn filtered_query_with_bogus_column_executes_nothing() {
    let r = plan_filtered_query(
        &"users".to_string(),
        &Some("name".to_string()),
        &Some("Alice".to_string()),
        &Some("id,bogus".to_string()),
        &None,
        &users_columns(),
    );
    match r {
        Err(QueryError::InvalidColumns(bad)) => assert_eq!(bad, vec!["bogus"]),
        _ => panic!("expected an invalid-columns refusal"),
    }
}

#[test]
fn filtered_query_requires_field_and_value() {
    let r = plan_filtered_query(
        &"users".to_string(),
        &None,
        &Some("Alice".to_string()),
        &None,
        &None,
        &users_columns(),
    );
    match r {
        Err(QueryError::MissingParameter(p)) => assert_eq!(p, "field"),
        _ => panic!("expected a missing-parameter refusal"),
    }
    let r2 = plan_filtered_query(
        &"users".to_string(),
        &Some("name".to_string()),
        &None,
        &None,
        &None,
        &users_columns(),
    );
    match r2 {
        Err(QueryError::MissingParameter(p)) => assert_eq!(p, "value"),
        _ => panic!("expected a missing-parameter refusal"),
    }
}

#[test]
fn filtered_query_unknown_field_is_bad_request() {
    let r = plan_filtered_query(
        &"users".to_string(),
        &Some("age".to_string()),
        &Some("30".to_string()),
        &None,
        &None,
        &users_columns(),
    );
    match r {
        Err(e @ QueryError::UnknownColumn { .. }) => {
            assert_eq!(category(&e, Endpoint::FilteredQuery), "Bad Request");
        },
        _ => panic!("expected an unknown-column refusal"),
    }
}
