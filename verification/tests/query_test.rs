use rs_backend::models::Users;
use rs_backend::query::{
    build_delete_by_id, build_insert, build_select_by_id, build_update_by_id, Statement,
};
use rs_backend::value::SqlValue;

fn text(s: &str) -> SqlValue {
    SqlValue::Text(Some(s.to_string()))
}

#[test]
fn identifiers_of_the_table() {
    assert_eq!(Users::Table.name(), "users");
    assert_eq!(Users::Id.name(), "id");
    assert_eq!(Users::Nombre.name(), "nombre");
    assert_eq!(Users::Email.name(), "email");
}

#[test]
fn insert_has_two_placeholders_and_no_id() {
    let statement = build_insert("Juan Pérez".to_string(), "juan.perez@example.com".to_string());
    assert_eq!(
        statement,
        Statement {
            sql: "INSERT INTO \"users\" (\"nombre\", \"email\") VALUES (?, ?)".to_string(),
            values: vec![text("Juan Pérez"), text("juan.perez@example.com")],
        }
    );
}

#[test]
fn select_by_id_binds_the_id() {
    let statement = build_select_by_id(7);
    assert_eq!(
        statement,
        Statement {
            sql: "SELECT \"id\", \"nombre\", \"email\" FROM \"users\" WHERE \"id\" = ?"
                .to_string(),
            values: vec![SqlValue::BigInt(Some(7))],
        }
    );
}

#[test]
fn update_by_id_binds_the_id_last() {
    let statement = build_update_by_id(
        3,
        "Juan Actualizado".to_string(),
        "juan.actualizado@example.com".to_string(),
    );
    assert_eq!(
        statement,
        Statement {
            sql: "UPDATE \"users\" SET \"nombre\" = ?, \"email\" = ? WHERE \"id\" = ?"
                .to_string(),
            values: vec![
                text("Juan Actualizado"),
                text("juan.actualizado@example.com"),
                SqlValue::BigInt(Some(3)),
            ],
        }
    );
}

#[test]
fn delete_by_id_binds_the_id() {
    let statement = build_delete_by_id(-1);
    assert_eq!(
        statement,
        Statement {
            sql: "DELETE FROM \"users\" WHERE \"id\" = ?".to_string(),
            values: vec![SqlValue::BigInt(Some(-1))],
        }
    );
}

#[test]
fn extreme_ids_are_bound_unchanged() {
    assert_eq!(build_select_by_id(i64::MIN).values, vec![SqlValue::BigInt(Some(i64::MIN))]);
    assert_eq!(build_delete_by_id(i64::MAX).values, vec![SqlValue::BigInt(Some(i64::MAX))]);
    assert_eq!(build_select_by_id(0).values, vec![SqlValue::BigInt(Some(0))]);
}

#[test]
fn text_of_a_statement_does_not_depend_on_the_values() {
    let hostile = "x'); DROP TABLE users; --";
    let quoted = "\"nombre\" = 'a' ?";
    let plain = build_insert("a".to_string(), "b".to_string());
    let other = build_insert(hostile.to_string(), quoted.to_string());
    assert_eq!(plain.sql, other.sql);
    assert!(!other.sql.contains("DROP"));
    assert_eq!(other.values, vec![text(hostile), text(quoted)]);

    let plain = build_update_by_id(1, "a".to_string(), "b".to_string());
    let other = build_update_by_id(2, hostile.to_string(), quoted.to_string());
    assert_eq!(plain.sql, other.sql);
    assert_eq!(other.values, vec![text(hostile), text(quoted), SqlValue::BigInt(Some(2))]);

    assert_eq!(build_select_by_id(1).sql, build_select_by_id(i64::MAX).sql);
    assert_eq!(build_delete_by_id(1).sql, build_delete_by_id(i64::MIN).sql);
}

#[test]
fn empty_name_and_email_are_accepted() {
    let statement = build_insert(String::new(), String::new());
    assert_eq!(statement.values, vec![text(""), text("")]);
}
