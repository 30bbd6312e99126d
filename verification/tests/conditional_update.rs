//! End-to-end exercises of the conditional update: wrapping, compiling to the
//! CTE statement, and interpreting the raw result rows a store returns.

use update_cte::check_result;
use update_cte::CompiledStatement;
use update_cte::Error;
use update_cte::TableIdentity;
use update_cte::UpdateAndQueryResult;
use update_cte::UpdateAndQueryStatement;
use update_cte::UpdateCte;
use update_cte::UpdateStatement;
use uuid::Uuid;

/// An update of the `objects` table (primary key `id`), as a caller would
/// supply it: pre-rendered `SET` and `WHERE` fragments, no `RETURNING`.
fn objects_update(set_sql: &str, where_sql: &str) -> UpdateStatement {
    UpdateStatement {
        table: TableIdentity {
            name: "objects".to_string(),
            pk_column: "id".to_string(),
        },
        set_sql: set_sql.to_string(),
        where_sql: where_sql.to_string(),
        returning_sql: None,
    }
}

fn compile_objects_update(set_sql: &str, where_sql: &str, key: u128) -> CompiledStatement {
    objects_update(set_sql, where_sql)
        .check_if_exists(key)
        .unwrap()
        .compile()
        .unwrap()
}

#[test]
fn check_output() {
    let id = Uuid::new_v4();
    let compiled = compile_objects_update(
        "\"runtime\" = 'new-runtime'",
        "\"id\" = $1 AND \"gen\" >= 2",
        id.as_u128(),
    );
    let sql = compiled.sql_text();
    println!("{}", sql);
    assert_eq!(
        sql,
        "WITH found AS (SELECT \"id\" FROM \"objects\" WHERE \"id\" = $1), \
         updated AS (UPDATE \"objects\" SET \"runtime\" = 'new-runtime' \
         WHERE \"id\" = $1 AND \"gen\" >= 2 RETURNING *) \
         SELECT found.\"id\", updated.\"id\" \
         FROM found LEFT JOIN updated ON found.\"id\" = updated.\"id\""
    );
    assert_eq!(compiled.key_bind, id.as_u128());
    assert!(!compiled.safe_to_cache_prepared);
}

#[test]
fn try_to_see_result() {
    let id = Uuid::new_v4();
    let compiled = compile_objects_update(
        "\"runtime\" = 'new-runtime'",
        "\"id\" = $1 AND \"gen\" > 3",
        id.as_u128(),
    );
    // The store found the row, but the guard rejected the update: the single
    // result row carries the key beside a null updated key.
    let rows: Vec<(Option<u128>, Option<u128>)> = vec![(Some(compiled.key_bind), None)];
    let result = check_result(&rows).unwrap();
    assert_eq!(result, UpdateAndQueryResult::NotUpdatedButExists);
}

#[test]
fn try_load_the_query_ourselves() {
    let id = Uuid::new_v4();
    let compiled = compile_objects_update(
        "\"runtime\" = 'new-runtime'",
        "\"id\" = $1 AND \"gen\" > 3",
        id.as_u128(),
    );
    // The raw shape a client loads: at most one pair of nullable keys.
    let rows: Vec<(Option<u128>, Option<u128>)> =
        vec![(Some(compiled.key_bind), Some(compiled.key_bind))];
    let (found_id, updated_id) = rows.get(0).unwrap();
    assert_eq!(found_id, updated_id);
    assert_eq!(check_result(&rows).unwrap(), UpdateAndQueryResult::Updated);
}

// The concrete scenario: table `objects`, primary key `id`; the row `id = a`
// exists with `gen = 5`; `id = b` matches no row.

#[test]
fn guard_passes_and_the_row_is_updated() {
    let a = Uuid::new_v4().as_u128();
    let compiled = compile_objects_update("\"runtime\" = 'new'", "\"id\" = $1 AND \"gen\" >= 2", a);
    // gen = 5 satisfies gen >= 2, so the update reached the row: the store
    // returns the key from `found` and from `updated`.
    let row_gen = 5;
    assert!(row_gen >= 2);
    let rows = vec![(Some(compiled.key_bind), Some(compiled.key_bind))];
    assert_eq!(check_result(&rows).unwrap(), UpdateAndQueryResult::Updated);
}

#[test]
fn guard_fails_and_the_row_is_left_alone() {
    let a = Uuid::new_v4().as_u128();
    let compiled =
        compile_objects_update("\"runtime\" = 'other'", "\"id\" = $1 AND \"gen\" >= 10", a);
    // gen = 5 fails gen >= 10: `updated` is empty, the left join pads with null.
    let row_gen = 5;
    assert!(row_gen < 10);
    let rows = vec![(Some(compiled.key_bind), None)];
    assert_eq!(
        check_result(&rows).unwrap(),
        UpdateAndQueryResult::NotUpdatedButExists
    );
}

#[test]
fn missing_row_yields_not_found() {
    let b = Uuid::new_v4().as_u128();
    let compiled = compile_objects_update("\"runtime\" = 'x'", "\"id\" = $1 AND \"gen\" >= 0", b);
    // No row with key b: `found` is empty, so the statement yields no row.
    assert_eq!(compiled.key_bind, b);
    let rows: Vec<(Option<u128>, Option<u128>)> = vec![];
    assert_eq!(check_result(&rows).unwrap_err(), Error::NotFound);
}

#[test]
fn second_identical_request_does_not_update_again() {
    let key = Uuid::new_v4().as_u128();
    // A monotonic guard: gen must be below 6, and the update sets gen to 6.
    let mut gen = 5;
    assert!(gen < 6);
    // First call: the guard passes, the update applies and bumps gen.
    let rows_first = vec![(Some(key), Some(key))];
    assert_eq!(
        check_result(&rows_first).unwrap(),
        UpdateAndQueryResult::Updated
    );
    gen = 6;
    // Repeated call: the same guard now fails; found, but not updated.
    assert!(gen >= 6);
    let rows_second = vec![(Some(key), None)];
    assert_eq!(
        check_result(&rows_second).unwrap(),
        UpdateAndQueryResult::NotUpdatedButExists
    );
}

#[test]
fn wrapping_with_a_returning_clause_fails() {
    let mut statement = objects_update("\"runtime\" = 'x'", "\"gen\" >= 0");
    statement.returning_sql = Some("*".to_string());
    let err = statement.check_if_exists(1).unwrap_err();
    assert_eq!(err, Error::Configuration);
}

#[test]
fn compiling_with_a_returning_clause_fails() {
    let mut statement = objects_update("\"runtime\" = 'x'", "\"gen\" >= 0");
    statement.returning_sql = Some("\"id\"".to_string());
    let request = UpdateAndQueryStatement {
        update_statement: statement,
        key: 1,
    };
    assert_eq!(request.compile().unwrap_err(), Error::Configuration);
}

#[test]
fn identifiers_are_quoted_and_embedded_quotes_doubled() {
    let statement = UpdateStatement {
        table: TableIdentity {
            name: "odd\"table".to_string(),
            pk_column: "weird\"id".to_string(),
        },
        set_sql: "\"runtime\" = 'x'".to_string(),
        where_sql: "\"gen\" >= 0".to_string(),
        returning_sql: None,
    };
    let compiled = statement.check_if_exists(7).unwrap().compile().unwrap();
    assert_eq!(
        compiled.sql_before_key,
        "WITH found AS (SELECT \"weird\"\"id\" FROM \"odd\"\"table\" WHERE \"weird\"\"id\" = "
    );
    assert!(compiled
        .sql_after_key
        .starts_with("), updated AS (UPDATE \"odd\"\"table\" SET "));
}

#[test]
fn sql_text_splices_the_key_marker_between_the_parts() {
    let compiled = compile_objects_update("\"runtime\" = 'x'", "\"gen\" >= 0", 7);
    let joined = format!("{}$1{}", compiled.sql_before_key, compiled.sql_after_key);
    assert_eq!(compiled.sql_text(), joined);
}

#[test]
fn mismatched_keys_are_an_internal_invariant_error() {
    let rows = vec![(Some(1u128), Some(2u128))];
    assert_eq!(check_result(&rows).unwrap_err(), Error::InternalInvariant);
}

#[test]
fn updated_key_without_found_key_is_an_internal_invariant_error() {
    let rows = vec![(None, Some(2u128))];
    assert_eq!(check_result(&rows).unwrap_err(), Error::InternalInvariant);
}

#[test]
fn only_the_first_row_is_interpreted() {
    // The statement yields at most one row per key; the interpreter reads the
    // first row and ignores anything after it.
    let rows = vec![(Some(3u128), Some(3u128)), (None, None)];
    assert_eq!(check_result(&rows).unwrap(), UpdateAndQueryResult::Updated);
}
