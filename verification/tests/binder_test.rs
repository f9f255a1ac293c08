use rs_backend::binder::{bind_query_value, bind_values, prepare};
use rs_backend::query::{build_insert, build_update_by_id, Statement};
use rs_backend::value::SqlValue;
use sqlx::sqlite::SqliteArguments;
use sqlx::Arguments;

fn shown(arguments: &SqliteArguments<'static>) -> String {
    format!("{:?}", arguments)
}

fn bound_alone(value: SqlValue) -> String {
    shown(&bind_query_value(SqliteArguments::default(), value))
}

#[test]
fn booleans_are_bound_as_integers() {
    assert_eq!(bound_alone(SqlValue::Bool(Some(true))), "SqliteArguments { values: [Int(1)] }");
    assert_eq!(bound_alone(SqlValue::Bool(Some(false))), "SqliteArguments { values: [Int(0)] }");
}

#[test]
fn small_integers_are_bound_as_32_bit_integers() {
    assert_eq!(bound_alone(SqlValue::TinyInt(Some(-128))), "SqliteArguments { values: [Int(-128)] }");
    assert_eq!(bound_alone(SqlValue::TinyInt(Some(127))), "SqliteArguments { values: [Int(127)] }");
    assert_eq!(
        bound_alone(SqlValue::SmallInt(Some(-32768))),
        "SqliteArguments { values: [Int(-32768)] }"
    );
    assert_eq!(
        bound_alone(SqlValue::Int(Some(i32::MAX))),
        "SqliteArguments { values: [Int(2147483647)] }"
    );
}

#[test]
fn big_integers_are_bound_as_64_bit_integers() {
    assert_eq!(
        bound_alone(SqlValue::BigInt(Some(i64::MIN))),
        "SqliteArguments { values: [Int64(-9223372036854775808)] }"
    );
    assert_eq!(bound_alone(SqlValue::BigInt(Some(5))), "SqliteArguments { values: [Int64(5)] }");
}

#[test]
fn floating_point_numbers_are_bound_as_doubles() {
    assert_eq!(
        bound_alone(SqlValue::Real(sea_query::Value::Float(Some(1.5)))),
        "SqliteArguments { values: [Double(1.5)] }"
    );
    assert_eq!(
        bound_alone(SqlValue::Real(sea_query::Value::Double(Some(-0.25)))),
        "SqliteArguments { values: [Double(-0.25)] }"
    );
}

#[test]
fn text_and_bytes_are_bound_as_they_are() {
    assert_eq!(
        bound_alone(SqlValue::Text(Some("Juan Pérez".to_string()))),
        "SqliteArguments { values: [Text(\"Juan Pérez\")] }"
    );
    assert_eq!(
        bound_alone(SqlValue::Bytes(Some(vec![0, 1, 255]))),
        "SqliteArguments { values: [Blob([0, 1, 255])] }"
    );
}

#[test]
fn the_null_of_each_kind_is_bound_as_null() {
    let null = "SqliteArguments { values: [Null] }";
    assert_eq!(bound_alone(SqlValue::Bool(None)), null);
    assert_eq!(bound_alone(SqlValue::TinyInt(None)), null);
    assert_eq!(bound_alone(SqlValue::SmallInt(None)), null);
    assert_eq!(bound_alone(SqlValue::Int(None)), null);
    assert_eq!(bound_alone(SqlValue::BigInt(None)), null);
    assert_eq!(bound_alone(SqlValue::Real(sea_query::Value::Float(None))), null);
    assert_eq!(bound_alone(SqlValue::Real(sea_query::Value::Double(None))), null);
    assert_eq!(bound_alone(SqlValue::Text(None)), null);
    assert_eq!(bound_alone(SqlValue::Bytes(None)), null);
}

#[test]
fn a_value_of_another_kind_is_passed_over() {
    assert_eq!(bound_alone(SqlValue::Other), "SqliteArguments { values: [] }");
    assert_eq!(
        bound_alone(SqlValue::Real(sea_query::Value::Int(Some(3)))),
        "SqliteArguments { values: [] }"
    );

    let arguments = bind_values(vec![
        SqlValue::BigInt(Some(1)),
        SqlValue::Other,
        SqlValue::Text(Some("x".to_string())),
    ]);
    assert_eq!(arguments.len(), 2);
    assert_eq!(shown(&arguments), "SqliteArguments { values: [Int64(1), Text(\"x\")] }");
}

#[test]
fn binding_appends_after_what_is_bound() {
    let arguments = bind_query_value(SqliteArguments::default(), SqlValue::Int(Some(1)));
    let arguments = bind_query_value(arguments, SqlValue::Text(None));
    let arguments = bind_query_value(arguments, SqlValue::Bool(Some(true)));
    assert_eq!(shown(&arguments), "SqliteArguments { values: [Int(1), Null, Int(1)] }");
}

#[test]
fn no_values_bind_nothing() {
    let arguments = bind_values(Vec::new());
    assert_eq!(arguments.len(), 0);
}

#[test]
fn values_are_bound_in_order() {
    let arguments = bind_values(vec![
        SqlValue::Text(Some("a".to_string())),
        SqlValue::Bytes(Some(vec![7])),
        SqlValue::BigInt(Some(-9)),
        SqlValue::Bool(None),
    ]);
    assert_eq!(
        shown(&arguments),
        "SqliteArguments { values: [Text(\"a\"), Blob([7]), Int64(-9), Null] }"
    );
}

#[test]
fn prepare_keeps_the_text_and_binds_the_values() {
    let prepared = prepare(build_update_by_id(4, "n".to_string(), "e".to_string()));
    assert_eq!(
        prepared.sql,
        "UPDATE \"users\" SET \"nombre\" = ?, \"email\" = ? WHERE \"id\" = ?"
    );
    assert_eq!(
        shown(&prepared.arguments),
        "SqliteArguments { values: [Text(\"n\"), Text(\"e\"), Int64(4)] }"
    );

    let prepared = prepare(build_insert("n".to_string(), "e".to_string()));
    assert_eq!(shown(&prepared.arguments), "SqliteArguments { values: [Text(\"n\"), Text(\"e\")] }");

    let prepared = prepare(Statement { sql: "SELECT 1".to_string(), values: Vec::new() });
    assert_eq!(prepared.sql, "SELECT 1");
    assert_eq!(prepared.arguments.len(), 0);
}
