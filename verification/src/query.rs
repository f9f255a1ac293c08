//! Parameterised statements for the four operations on the `users` table.
//!
//! A statement is SQL text with positional placeholders and the values that
//! belong to them, in order. No value ever becomes part of the text.

use crate::models::Users;
use crate::value::{SqlValue, SqlValueView};
use sea_query::{Alias, Expr, Query, SqliteQueryBuilder, Value, Values};
use vstd::prelude::*;

verus! {

/// `sea_query::Values`, the values that a built statement collected.
#[verifier::external_type_specification]
#[verifier::external_body]
pub struct ExValues(Values);

/// The values that a `sea_query::Values` holds, in the order of their
/// placeholders.
pub uninterp spec fn held(values: Values) -> Seq<SqlValueView>;

/// An identifier that quoting leaves as it is: it holds no double quote.
pub open spec fn plain(name: Seq<char>) -> bool {
    !name.contains('"')
}

/// A plain identifier between double quotes.
pub open spec fn quoted(name: Seq<char>) -> Seq<char> {
    seq!['"'] + name + seq!['"']
}

/// The text of an insert of one row into two columns.
pub open spec fn insert_text(table: Seq<char>, first: Seq<char>, second: Seq<char>) -> Seq<char> {
    "INSERT INTO "@ + quoted(table) + " ("@ + quoted(first) + ", "@ + quoted(second)
        + ") VALUES (?, ?)"@
}

/// `sea_query::Query::insert` with `into_table`, `columns` and `values_panic`,
/// built by `InsertStatement::build` for SQLite: an insert of one row of two
/// text values into two columns of a table. For plain identifiers the text is
/// `INSERT INTO "table" ("first", "second") VALUES (?, ?)`, and the values
/// collected are the two texts, in the order of the columns.
#[verifier::external_body]
fn insert_two(table: &str, first: &str, second: &str, a: String, b: String) -> (built: (
    String,
    Values,
))
    requires
        plain(table@),
        plain(first@),
        plain(second@),
    ensures
        built.0@ == insert_text(table@, first@, second@),
        held(built.1) == seq![SqlValueView::Text(Some(a@)), SqlValueView::Text(Some(b@))],
{
    Query::insert()
        .into_table(Alias::new(table))
        .columns([Alias::new(first), Alias::new(second)])
        .values_panic([a.into(), b.into()])
        .build(SqliteQueryBuilder)
}

/// The text of a select of three columns from the rows where a key column
/// equals a value.
pub open spec fn select_text(
    first: Seq<char>,
    second: Seq<char>,
    third: Seq<char>,
    table: Seq<char>,
    key: Seq<char>,
) -> Seq<char> {
    "SELECT "@ + quoted(first) + ", "@ + quoted(second) + ", "@ + quoted(third) + " FROM "@
        + quoted(table) + " WHERE "@ + quoted(key) + " = ?"@
}

/// `sea_query::Query::select` with `columns`, `from` and `and_where`, built by
/// `SelectStatement::build` for SQLite: a select of three columns from a table
/// under the condition that a key column equals an integer. For plain
/// identifiers the text is
/// `SELECT "first", "second", "third" FROM "table" WHERE "key" = ?`, and the
/// one value collected is the integer, as a big integer.
#[verifier::external_body]
fn select_three(first: &str, second: &str, third: &str, table: &str, key: &str, id: i64) -> (built:
    (String, Values))
    requires
        plain(first@),
        plain(second@),
        plain(third@),
        plain(table@),
        plain(key@),
    ensures
        built.0@ == select_text(first@, second@, third@, table@, key@),
        held(built.1) == seq![SqlValueView::BigInt(Some(id))],
{
    Query::select()
        .columns([Alias::new(first), Alias::new(second), Alias::new(third)])
        .from(Alias::new(table))
        .and_where(Expr::col(Alias::new(key)).eq(id))
        .build(SqliteQueryBuilder)
}

/// The text of an update of two columns in the rows where a key column equals
/// a value.
pub open spec fn update_text(
    table: Seq<char>,
    first: Seq<char>,
    second: Seq<char>,
    key: Seq<char>,
) -> Seq<char> {
    "UPDATE "@ + quoted(table) + " SET "@ + quoted(first) + " = ?, "@ + quoted(second)
        + " = ? WHERE "@ + quoted(key) + " = ?"@
}

/// `sea_query::Query::update` with `table`, `values` and `and_where`, built by
/// `UpdateStatement::build` for SQLite: an update that sets two columns to
/// text values under the condition that a key column equals an integer. For
/// plain identifiers the text is
/// `UPDATE "table" SET "first" = ?, "second" = ? WHERE "key" = ?`, and the
/// values collected are the two texts and then the integer.
#[verifier::external_body]
fn update_two(table: &str, first: &str, second: &str, key: &str, a: String, b: String, id: i64) -> (built:
    (String, Values))
    requires
        plain(table@),
        plain(first@),
        plain(second@),
        plain(key@),
    ensures
        built.0@ == update_text(table@, first@, second@, key@),
        held(built.1) == seq![
            SqlValueView::Text(Some(a@)),
            SqlValueView::Text(Some(b@)),
            SqlValueView::BigInt(Some(id)),
        ],
{
    Query::update()
        .table(Alias::new(table))
        .values([(Alias::new(first), a.into()), (Alias::new(second), b.into())])
        .and_where(Expr::col(Alias::new(key)).eq(id))
        .build(SqliteQueryBuilder)
}

/// The text of a delete of the rows where a key column equals a value.
pub open spec fn delete_text(table: Seq<char>, key: Seq<char>) -> Seq<char> {
    "DELETE FROM "@ + quoted(table) + " WHERE "@ + quoted(key) + " = ?"@
}

/// `sea_query::Query::delete` with `from_table` and `and_where`, built by
/// `DeleteStatement::build` for SQLite: a delete from a table under the
/// condition that a key column equals an integer. For plain identifiers the
/// text is `DELETE FROM "table" WHERE "key" = ?`, and the one value collected
/// is the integer, as a big integer.
#[verifier::external_body]
fn delete_where(table: &str, key: &str, id: i64) -> (built: (String, Values))
    requires
        plain(table@),
        plain(key@),
    ensures
        built.0@ == delete_text(table@, key@),
        held(built.1) == seq![SqlValueView::BigInt(Some(id))],
{
    Query::delete()
        .from_table(Alias::new(table))
        .and_where(Expr::col(Alias::new(key)).eq(id))
        .build(SqliteQueryBuilder)
}

/// Hands out the values of a `sea_query::Values`, in order, each as the
/// [`SqlValue`] of the same kind and content. A floating point value is
/// carried as it is; the kinds that `SqlValue` does not name become `Other`.
#[verifier::external_body]
fn into_values(values: Values) -> (out: Vec<SqlValue>)
    ensures
        out.deep_view() == held(values),
{
    values.0.into_iter().map(|value| match value {
        Value::Bool(b) => SqlValue::Bool(b),
        Value::TinyInt(i) => SqlValue::TinyInt(i),
        Value::SmallInt(i) => SqlValue::SmallInt(i),
        Value::Int(i) => SqlValue::Int(i),
        Value::BigInt(i) => SqlValue::BigInt(i),
        number @ (Value::Float(_) | Value::Double(_)) => SqlValue::Real(number),
        Value::String(s) => SqlValue::Text(s.map(|boxed| *boxed)),
        Value::Bytes(b) => SqlValue::Bytes(b.map(|boxed| *boxed)),
        _ => SqlValue::Other,
    }).collect()
}

/// SQL text with positional placeholders, and the values for them in order.
#[derive(Debug, PartialEq)]
pub struct Statement {
    pub sql: String,
    pub values: Vec<SqlValue>,
}

/// The text of the insert statement.
pub open spec fn insert_sql() -> Seq<char> {
    "INSERT INTO \"users\" (\"nombre\", \"email\") VALUES (?, ?)"@
}

/// The statement that inserts a new row with the given name and email. It
/// names no `id`: the storage layer assigns it.
pub fn build_insert(nombre: String, email: String) -> (statement: Statement)
    ensures
        statement.sql@ == insert_sql(),
        statement.values.deep_view() == seq![
            SqlValueView::Text(Some(nombre@)),
            SqlValueView::Text(Some(email@)),
        ],
{
    proof {
        Users::Table.lemma_name_has_no_quote();
        Users::Nombre.lemma_name_has_no_quote();
        Users::Email.lemma_name_has_no_quote();
    }
    let (sql, values) = insert_two(
        Users::Table.name(),
        Users::Nombre.name(),
        Users::Email.name(),
        nombre,
        email,
    );
    proof {
        reveal_strlit("users");
        reveal_strlit("nombre");
        reveal_strlit("email");
        reveal_strlit("INSERT INTO ");
        reveal_strlit(" (");
        reveal_strlit(", ");
        reveal_strlit(") VALUES (?, ?)");
        reveal_strlit("INSERT INTO \"users\" (\"nombre\", \"email\") VALUES (?, ?)");
        assert(sql@ =~= insert_sql());
    }
    Statement { sql, values: into_values(values) }
}

/// The text of the statement that selects a user by id.
pub open spec fn select_sql() -> Seq<char> {
    "SELECT \"id\", \"nombre\", \"email\" FROM \"users\" WHERE \"id\" = ?"@
}

/// The statement that selects `id`, `nombre` and `email` of the row whose id
/// is `id`.
pub fn build_select_by_id(id: i64) -> (statement: Statement)
    ensures
        statement.sql@ == select_sql(),
        statement.values.deep_view() == seq![SqlValueView::BigInt(Some(id))],
{
    proof {
        Users::Table.lemma_name_has_no_quote();
        Users::Id.lemma_name_has_no_quote();
        Users::Nombre.lemma_name_has_no_quote();
        Users::Email.lemma_name_has_no_quote();
    }
    let (sql, values) = select_three(
        Users::Id.name(),
        Users::Nombre.name(),
        Users::Email.name(),
        Users::Table.name(),
        Users::Id.name(),
        id,
    );
    proof {
        reveal_strlit("users");
        reveal_strlit("id");
        reveal_strlit("nombre");
        reveal_strlit("email");
        reveal_strlit("SELECT ");
        reveal_strlit(", ");
        reveal_strlit(" FROM ");
        reveal_strlit(" WHERE ");
        reveal_strlit(" = ?");
        reveal_strlit("SELECT \"id\", \"nombre\", \"email\" FROM \"users\" WHERE \"id\" = ?");
        assert(sql@ =~= select_sql());
    }
    Statement { sql, values: into_values(values) }
}

/// The text of the statement that updates a user by id.
pub open spec fn update_sql() -> Seq<char> {
    "UPDATE \"users\" SET \"nombre\" = ?, \"email\" = ? WHERE \"id\" = ?"@
}

/// The statement that sets `nombre` and `email` of the row whose id is `id`.
/// The value for the condition comes after the values that are set.
pub fn build_update_by_id(id: i64, nombre: String, email: String) -> (statement: Statement)
    ensures
        statement.sql@ == update_sql(),
        statement.values.deep_view() == seq![
            SqlValueView::Text(Some(nombre@)),
            SqlValueView::Text(Some(email@)),
            SqlValueView::BigInt(Some(id)),
        ],
{
    proof {
        Users::Table.lemma_name_has_no_quote();
        Users::Id.lemma_name_has_no_quote();
        Users::Nombre.lemma_name_has_no_quote();
        Users::Email.lemma_name_has_no_quote();
    }
    let (sql, values) = update_two(
        Users::Table.name(),
        Users::Nombre.name(),
        Users::Email.name(),
        Users::Id.name(),
        nombre,
        email,
        id,
    );
    proof {
        reveal_strlit("users");
        reveal_strlit("id");
        reveal_strlit("nombre");
        reveal_strlit("email");
        reveal_strlit("UPDATE ");
        reveal_strlit(" SET ");
        reveal_strlit(" = ?, ");
        reveal_strlit(" = ? WHERE ");
        reveal_strlit(" = ?");
        reveal_strlit("UPDATE \"users\" SET \"nombre\" = ?, \"email\" = ? WHERE \"id\" = ?");
        assert(sql@ =~= update_sql());
    }
    Statement { sql, values: into_values(values) }
}

/// The text of the statement that deletes a user by id.
pub open spec fn delete_sql() -> Seq<char> {
    "DELETE FROM \"users\" WHERE \"id\" = ?"@
}

/// The statement that deletes the row whose id is `id`.
pub fn build_delete_by_id(id: i64) -> (statement: Statement)
    ensures
        statement.sql@ == delete_sql(),
        statement.values.deep_view() == seq![SqlValueView::BigInt(Some(id))],
{
    proof {
        Users::Table.lemma_name_has_no_quote();
        Users::Id.lemma_name_has_no_quote();
    }
    let (sql, values) = delete_where(Users::Table.name(), Users::Id.name(), id);
    proof {
        reveal_strlit("users");
        reveal_strlit("id");
        reveal_strlit("DELETE FROM ");
        reveal_strlit(" WHERE ");
        reveal_strlit(" = ?");
        reveal_strlit("DELETE FROM \"users\" WHERE \"id\" = ?");
        assert(sql@ =~= delete_sql());
    }
    Statement { sql, values: into_values(values) }
}

} // verus!
