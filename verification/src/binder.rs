//! Attaching typed values to the argument list of a driver-level statement.
//!
//! The list is filled in order, one entry for each value of a kind that the
//! binder knows. A value of any other kind is passed over: nothing is bound
//! for it and nothing is reported.

use crate::query::Statement;
use crate::value::{SqlValue, SqlValueView};
use sqlx::sqlite::SqliteArguments;
use vstd::prelude::*;

verus! {

/// `sqlx::sqlite::SqliteArguments`, the ordered list of values that the SQLite
/// driver binds to the placeholders of a statement.
#[verifier::external_type_specification]
#[verifier::external_body]
pub struct ExSqliteArguments<'q>(SqliteArguments<'q>);

/// What the driver holds for one placeholder.
pub enum Bound {
    Null,
    Int(i32),
    Int64(i64),
    /// A double precision number, by its bits.
    Double(u64),
    Text(Seq<char>),
    Blob(Seq<u8>),
}

/// The entries of an argument list, in the order of the placeholders.
pub uninterp spec fn bound(arguments: SqliteArguments<'static>) -> Seq<Bound>;

/// The entries that binding a floating point value of the statement builder
/// appends: one entry for a single or double precision number or the null of
/// either kind, none for a value of another kind.
pub uninterp spec fn real_entries(value: sea_query::Value) -> Seq<Bound>;

/// `SqliteArguments::default`: a list without entries.
#[verifier::external_body]
fn no_arguments() -> (arguments: SqliteArguments<'static>)
    ensures
        bound(arguments) == Seq::<Bound>::empty(),
{
    SqliteArguments::default()
}

/// `sqlx::Arguments::add` with an optional `bool`. The SQLite encoding never
/// fails; it appends the integer 1 for `true`, 0 for `false`, and a null for
/// `None`.
#[verifier::external_body]
fn add_bool(arguments: &mut SqliteArguments<'static>, value: Option<bool>)
    ensures
        bound(*final(arguments)) == bound(*old(arguments)).push(
            match value {
                Some(b) => Bound::Int(
                    if b {
                        1i32
                    } else {
                        0i32
                    },
                ),
                None => Bound::Null,
            },
        ),
{
    let _ = sqlx::Arguments::add(arguments, value);
}

/// `sqlx::Arguments::add` with an optional `i8`. The SQLite encoding never
/// fails; it appends the number as a 32-bit integer, or a null for `None`.
#[verifier::external_body]
fn add_tiny_int(arguments: &mut SqliteArguments<'static>, value: Option<i8>)
    ensures
        bound(*final(arguments)) == bound(*old(arguments)).push(
            match value {
                Some(i) => Bound::Int(i as i32),
                None => Bound::Null,
            },
        ),
{
    let _ = sqlx::Arguments::add(arguments, value);
}

/// `sqlx::Arguments::add` with an optional `i16`. The SQLite encoding never
/// fails; it appends the number as a 32-bit integer, or a null for `None`.
#[verifier::external_body]
fn add_small_int(arguments: &mut SqliteArguments<'static>, value: Option<i16>)
    ensures
        bound(*final(arguments)) == bound(*old(arguments)).push(
            match value {
                Some(i) => Bound::Int(i as i32),
                None => Bound::Null,
            },
        ),
{
    let _ = sqlx::Arguments::add(arguments, value);
}

/// `sqlx::Arguments::add` with an optional `i32`. The SQLite encoding never
/// fails; it appends the number as a 32-bit integer, or a null for `None`.
#[verifier::external_body]
fn add_int(arguments: &mut SqliteArguments<'static>, value: Option<i32>)
    ensures
        bound(*final(arguments)) == bound(*old(arguments)).push(
            match value {
                Some(i) => Bound::Int(i),
                None => Bound::Null,
            },
        ),
{
    let _ = sqlx::Arguments::add(arguments, value);
}

/// `sqlx::Arguments::add` with an optional `i64`. The SQLite encoding never
/// fails; it appends the number as a 64-bit integer, or a null for `None`.
#[verifier::external_body]
fn add_big_int(arguments: &mut SqliteArguments<'static>, value: Option<i64>)
    ensures
        bound(*final(arguments)) == bound(*old(arguments)).push(
            match value {
                Some(i) => Bound::Int64(i),
                None => Bound::Null,
            },
        ),
{
    let _ = sqlx::Arguments::add(arguments, value);
}

/// `sqlx::Arguments::add` with an optional `String`. The SQLite encoding never
/// fails; it appends the text, or a null for `None`.
#[verifier::external_body]
fn add_text(arguments: &mut SqliteArguments<'static>, value: Option<String>)
    ensures
        bound(*final(arguments)) == bound(*old(arguments)).push(
            match value {
                Some(s) => Bound::Text(s@),
                None => Bound::Null,
            },
        ),
{
    let _ = sqlx::Arguments::add(arguments, value);
}

/// `sqlx::Arguments::add` with an optional `Vec<u8>`. The SQLite encoding
/// never fails; it appends the bytes as a blob, or a null for `None`.
#[verifier::external_body]
fn add_bytes(arguments: &mut SqliteArguments<'static>, value: Option<Vec<u8>>)
    ensures
        bound(*final(arguments)) == bound(*old(arguments)).push(
            match value {
                Some(b) => Bound::Blob(b@),
                None => Bound::Null,
            },
        ),
{
    let _ = sqlx::Arguments::add(arguments, value);
}

/// `sqlx::Arguments::add` with the optional number inside a floating point
/// value of the statement builder. What it appends depends on the value
/// alone; the entries before it stay.
#[verifier::external_body]
fn add_real(arguments: &mut SqliteArguments<'static>, value: sea_query::Value)
    ensures
        bound(*final(arguments)) == bound(*old(arguments)) + real_entries(value),
{
    match value {
        sea_query::Value::Float(single) => { let _ = sqlx::Arguments::add(arguments, single); },
        sea_query::Value::Double(double) => { let _ = sqlx::Arguments::add(arguments, double); },
        _ => {},
    }
}

/// The entries that binding one value appends: one entry for a value of a
/// kind that the binder knows, none for `Other`.
pub open spec fn entries(value: SqlValueView) -> Seq<Bound> {
    match value {
        SqlValueView::Bool(Some(b)) => seq![Bound::Int(if b { 1i32 } else { 0i32 })],
        SqlValueView::TinyInt(Some(i)) => seq![Bound::Int(i as i32)],
        SqlValueView::SmallInt(Some(i)) => seq![Bound::Int(i as i32)],
        SqlValueView::Int(Some(i)) => seq![Bound::Int(i)],
        SqlValueView::BigInt(Some(i)) => seq![Bound::Int64(i)],
        SqlValueView::Real(r) => real_entries(r),
        SqlValueView::Text(Some(s)) => seq![Bound::Text(s)],
        SqlValueView::Bytes(Some(b)) => seq![Bound::Blob(b)],
        SqlValueView::Other => Seq::empty(),
        _ => seq![Bound::Null],
    }
}

/// The entries that binding a sequence of values appends, in order.
pub open spec fn all_entries(values: Seq<SqlValueView>) -> Seq<Bound>
    decreases values.len(),
{
    if values.len() == 0 {
        Seq::empty()
    } else {
        all_entries(values.drop_last()) + entries(values.last())
    }
}

/// Binds one value to the next placeholder, by the method of its kind. A
/// value of kind `Other` is passed over and leaves the list as it was.
pub fn bind_query_value(arguments: SqliteArguments<'static>, value: SqlValue) -> (out:
    SqliteArguments<'static>)
    ensures
        bound(out) == bound(arguments) + entries(value@),
{
    let mut arguments = arguments;
    let ghost before = bound(arguments);
    match value {
        SqlValue::Bool(boolean) => add_bool(&mut arguments, boolean),
        SqlValue::TinyInt(number) => add_tiny_int(&mut arguments, number),
        SqlValue::SmallInt(number) => add_small_int(&mut arguments, number),
        SqlValue::Int(number) => add_int(&mut arguments, number),
        SqlValue::BigInt(number) => add_big_int(&mut arguments, number),
        SqlValue::Real(number) => add_real(&mut arguments, number),
        SqlValue::Text(Some(text)) => add_text(&mut arguments, Some(text)),
        SqlValue::Bytes(Some(bytes)) => add_bytes(&mut arguments, Some(bytes)),
        SqlValue::Text(None) => add_text(&mut arguments, None),
        SqlValue::Bytes(None) => add_bytes(&mut arguments, None),
        SqlValue::Other => {},
    }
    assert(bound(arguments) =~= before + entries(value@));
    arguments
}

/// Binds every value of a list, in order, to a fresh argument list.
pub fn bind_values(values: Vec<SqlValue>) -> (arguments: SqliteArguments<'static>)
    ensures
        bound(arguments) == all_entries(values.deep_view()),
{
    let ghost views = values.deep_view();
    let mut arguments = no_arguments();
    assert(views.take(0) =~= Seq::<SqlValueView>::empty());
    for value in iter: values
        invariant
            views == values.deep_view(),
            iter.seq() == values@,
            bound(arguments) == all_entries(views.take(iter.index() as int)),
    {
        let ghost k = iter.index() as int;
        assert(views.take(k + 1).drop_last() =~= views.take(k));
        assert(views.take(k + 1).last() == value@);
        arguments = bind_query_value(arguments, value);
    }
    assert(views.take(views.len() as int) =~= views);
    arguments
}

/// A statement ready to run: its text, and its values bound in order.
#[derive(Debug)]
pub struct Prepared {
    pub sql: String,
    pub arguments: SqliteArguments<'static>,
}

/// The mathematical value of a [`Prepared`]: the text, and the entries of
/// the argument list.
pub struct PreparedView {
    pub sql: Seq<char>,
    pub entries: Seq<Bound>,
}

impl View for Prepared {
    type V = PreparedView;

    open spec fn view(&self) -> PreparedView {
        PreparedView { sql: self.sql@, entries: bound(self.arguments) }
    }
}

/// Binds the values of a statement, in order, and keeps its text.
pub fn prepare(statement: Statement) -> (prepared: Prepared)
    ensures
        prepared@ == (PreparedView {
            sql: statement.sql@,
            entries: all_entries(statement.values.deep_view()),
        }),
{
    let Statement { sql, values } = statement;
    Prepared { sql, arguments: bind_values(values) }
}

} // verus!
