//! The request handlers: what to run for a request, and what to answer once
//! the storage layer has run it.
//!
//! A handler keeps no state. Each operation on users comes in two steps: the
//! first turns the request into a statement ready to run (or, for a malformed
//! id, into the answer at once), the second turns the outcome of running it
//! into the response.

use crate::binder::{all_entries, entries, prepare, Bound, Prepared, PreparedView};
use crate::models::{NewUser, UpdateUser, User, UserView};
use crate::query::{
    build_delete_by_id, build_insert, build_select_by_id, build_update_by_id, delete_sql,
    insert_sql, select_sql, update_sql,
};
use crate::segment::{parse_id, parsed_id};
use crate::value::SqlValueView;
use vstd::prelude::*;

verus! {

pub const OK: u16 = 200;

pub const CREATED: u16 = 201;

pub const BAD_REQUEST: u16 = 400;

pub const NOT_FOUND: u16 = 404;

pub const INTERNAL_SERVER_ERROR: u16 = 500;

/// The body of a response.
#[derive(Clone, Debug, PartialEq, Eq)]
pub enum Body {
    /// Plain text, not JSON.
    Plain(String),
    /// A JSON object with the one member `message`.
    Message(String),
    /// A JSON object with the one member `error`.
    Error(String),
    /// A JSON string.
    Note(String),
    /// A user, as a JSON object.
    User(User),
}

/// The mathematical value of a [`Body`].
pub enum BodyView {
    Plain(Seq<char>),
    Message(Seq<char>),
    Error(Seq<char>),
    Note(Seq<char>),
    User(UserView),
}

impl View for Body {
    type V = BodyView;

    open spec fn view(&self) -> BodyView {
        match *self {
            Body::Plain(s) => BodyView::Plain(s@),
            Body::Message(s) => BodyView::Message(s@),
            Body::Error(s) => BodyView::Error(s@),
            Body::Note(s) => BodyView::Note(s@),
            Body::User(u) => BodyView::User(u@),
        }
    }
}

/// An HTTP response: a status code and a body.
#[derive(Clone, Debug, PartialEq, Eq)]
pub struct Response {
    pub status: u16,
    pub body: Body,
}

/// The mathematical value of a [`Response`].
pub struct ResponseView {
    pub status: u16,
    pub body: BodyView,
}

impl View for Response {
    type V = ResponseView;

    open spec fn view(&self) -> ResponseView {
        ResponseView { status: self.status, body: self.body@ }
    }
}

/// What a handler asks for after its first step.
#[derive(Debug)]
pub enum Plan {
    /// Run this statement and hand the outcome to the second step.
    Run(Prepared),
    /// Answer at once; there is nothing to run.
    Reply(Response),
}

/// The mathematical value of a [`Plan`].
pub enum PlanView {
    Run(PreparedView),
    Reply(ResponseView),
}

impl View for Plan {
    type V = PlanView;

    open spec fn view(&self) -> PlanView {
        match *self {
            Plan::Run(prepared) => PlanView::Run(prepared@),
            Plan::Reply(response) => PlanView::Reply(response@),
        }
    }
}

/// The outcome of running a statement that returns no rows: the number of
/// rows it touched, or the text of the failure.
pub open spec fn executed_view(outcome: Result<u64, String>) -> Result<u64, Seq<char>> {
    match outcome {
        Ok(rows) => Ok(rows),
        Err(error) => Err(error@),
    }
}

/// The outcome of fetching at most one user: the row if one matched, or the
/// text of the failure.
pub open spec fn fetched_view(outcome: Result<Option<User>, String>) -> Result<
    Option<UserView>,
    Seq<char>,
> {
    match outcome {
        Ok(Some(user)) => Ok(Some(user@)),
        Ok(None) => Ok(None),
        Err(error) => Err(error@),
    }
}

/// The entries bound for a list of values are those of the values but the
/// last, followed by those of the last.
proof fn lemma_all_entries_push(values: Seq<SqlValueView>, value: SqlValueView)
    ensures
        all_entries(values.push(value)) == all_entries(values) + entries(value),
{
    assert(values.push(value).drop_last() =~= values);
}

/// The greeting at the root.
pub open spec fn greeting() -> ResponseView {
    ResponseView { status: 200, body: BodyView::Plain("Bienvenido al servidor API!"@) }
}

/// The greeting at the root: 200 with a fixed text.
pub fn index() -> (response: Response)
    ensures
        response@ == greeting(),
{
    Response { status: OK, body: Body::Plain("Bienvenido al servidor API!".to_owned()) }
}

/// The text in which an id is looked for: the path segment, or `0` where the
/// path has no such segment.
pub open spec fn segment_text(segment: Option<&str>) -> Seq<char> {
    match segment {
        Some(text) => text@,
        None => "0"@,
    }
}

/// The select for one id, ready to run: the id is its one bound value.
pub open spec fn select_of(id: i64) -> PreparedView {
    PreparedView { sql: select_sql(), entries: seq![Bound::Int64(id)] }
}

/// The answer to a segment that names no id.
pub open spec fn invalid_id() -> ResponseView {
    ResponseView { status: 400, body: BodyView::Note("ID inválido"@) }
}

/// What fetching a user asks for, given the text of the id segment: to run
/// the select where the text names an id, to answer 400 where it does not.
pub open spec fn fetch_plan(text: Seq<char>) -> PlanView {
    match parsed_id(text) {
        Some(id) => PlanView::Run(select_of(id)),
        None => PlanView::Reply(invalid_id()),
    }
}

/// First step of fetching a user. Where the segment names an id, the plan is
/// to run the select for that id, with the id as its one bound value. For
/// every other segment the plan is to answer 400, and nothing is run. A path
/// without the segment counts as the segment `0`.
pub fn get_user(segment: Option<&str>) -> (plan: Plan)
    ensures
        plan@ == fetch_plan(segment_text(segment)),
{
    let text = match segment {
        Some(text) => text,
        None => "0",
    };
    match parse_id(text) {
        Some(id) => {
            let statement = build_select_by_id(id);
            proof {
                lemma_all_entries_push(Seq::empty(), SqlValueView::BigInt(Some(id)));
                assert(statement.values.deep_view() =~= Seq::<SqlValueView>::empty().push(
                    SqlValueView::BigInt(Some(id)),
                ));
            }
            let prepared = prepare(statement);
            assert(prepared@.entries =~= select_of(id).entries);
            Plan::Run(prepared)
        },
        None => Plan::Reply(
            Response { status: BAD_REQUEST, body: Body::Note("ID inválido".to_owned()) },
        ),
    }
}

/// The answer to a fetch, given its outcome.
pub open spec fn fetch_reply(outcome: Result<Option<UserView>, Seq<char>>) -> ResponseView {
    match outcome {
        Ok(Some(user)) => ResponseView { status: 200, body: BodyView::User(user) },
        Ok(None) => ResponseView { status: 404, body: BodyView::Note("Usuario no encontrado"@) },
        Err(_) => ResponseView {
            status: 500,
            body: BodyView::Note("Error al consultar la base de datos"@),
        },
    }
}

/// Second step of fetching a user: 200 with the row where one matched, 404
/// where none did, 500 where the storage layer failed. The text of the
/// failure is not passed on.
pub fn get_user_response(outcome: Result<Option<User>, String>) -> (response: Response)
    ensures
        response@ == fetch_reply(fetched_view(outcome)),
{
    match outcome {
        Ok(Some(user)) => Response { status: OK, body: Body::User(user) },
        Ok(None) => Response {
            status: NOT_FOUND,
            body: Body::Note("Usuario no encontrado".to_owned()),
        },
        Err(_) => Response {
            status: INTERNAL_SERVER_ERROR,
            body: Body::Note("Error al consultar la base de datos".to_owned()),
        },
    }
}

/// A fetch by a segment that names no id answers 400, and nothing is run.
pub proof fn law_malformed_segment_is_bad_request(text: Seq<char>)
    requires
        parsed_id(text) is None,
    ensures
        fetch_plan(text) == PlanView::Reply(invalid_id()),
        invalid_id().status == 400,
{
}

/// A fetch answers 404 exactly when the storage layer ran the select and
/// found no row: never where it found one, never where it failed.
pub proof fn law_not_found_means_no_row(outcome: Result<Option<UserView>, Seq<char>>)
    ensures
        fetch_reply(outcome).status == 404 <==> outcome == Ok::<Option<UserView>, Seq<char>>(None),
        outcome is Ok && outcome->Ok_0 is Some ==> fetch_reply(outcome).status == 200,
        outcome is Err ==> fetch_reply(outcome).status == 500,
{
}

/// An update or a delete that ran answers 200 whatever the number of rows it
/// touched, also where it touched none.
pub proof fn law_update_and_delete_answer_ok_for_any_count(rows: u64)
    ensures
        update_reply(Ok(rows)).status == 200,
        delete_reply(Ok(rows)).status == 200,
        update_reply(Ok(rows)) == update_reply(Ok(0)),
        delete_reply(Ok(rows)) == delete_reply(Ok(0)),
{
}

/// The insert of a name and an email, ready to run: the two are bound in the
/// order of the columns, and no id is bound.
pub open spec fn insert_of(nombre: Seq<char>, email: Seq<char>) -> PreparedView {
    PreparedView { sql: insert_sql(), entries: seq![Bound::Text(nombre), Bound::Text(email)] }
}

/// First step of creating a user: the insert, with the name and the email
/// bound in the order of the columns. No id is bound.
pub fn create_user(new_user: NewUser) -> (prepared: Prepared)
    ensures
        prepared@ == insert_of(new_user.nombre@, new_user.email@),
{
    let ghost nombre = SqlValueView::Text(Some(new_user.nombre@));
    let ghost email = SqlValueView::Text(Some(new_user.email@));
    let statement = build_insert(new_user.nombre, new_user.email);
    proof {
        lemma_all_entries_push(Seq::empty(), nombre);
        lemma_all_entries_push(Seq::empty().push(nombre), email);
        assert(statement.values.deep_view() =~= Seq::<SqlValueView>::empty().push(nombre).push(
            email,
        ));
    }
    let prepared = prepare(statement);
    assert(prepared@.entries =~= insert_of(new_user.nombre@, new_user.email@).entries);
    prepared
}

/// The answer to a create, given its outcome.
pub open spec fn create_reply(outcome: Result<u64, Seq<char>>) -> ResponseView {
    match outcome {
        Ok(_) => ResponseView {
            status: 201,
            body: BodyView::Message("Usuario creado con éxito"@),
        },
        Err(error) => ResponseView { status: 500, body: BodyView::Error(error) },
    }
}

/// Second step of creating a user: 201 where the insert ran, 500 with the
/// text of the failure where it did not.
pub fn create_user_response(outcome: Result<u64, String>) -> (response: Response)
    ensures
        response@ == create_reply(executed_view(outcome)),
{
    match outcome {
        Ok(_) => Response {
            status: CREATED,
            body: Body::Message("Usuario creado con éxito".to_owned()),
        },
        Err(error) => Response { status: INTERNAL_SERVER_ERROR, body: Body::Error(error) },
    }
}

/// The update of one row, ready to run: the new name and email are bound
/// first, the id of the row last.
pub open spec fn update_of(id: i64, nombre: Seq<char>, email: Seq<char>) -> PreparedView {
    PreparedView {
        sql: update_sql(),
        entries: seq![Bound::Text(nombre), Bound::Text(email), Bound::Int64(id)],
    }
}

/// First step of updating a user: the update, with the new name and email
/// bound first and the id of the row last.
pub fn update_user(id: i64, updated_user: UpdateUser) -> (prepared: Prepared)
    ensures
        prepared@ == update_of(id, updated_user.nombre@, updated_user.email@),
{
    let ghost nombre = SqlValueView::Text(Some(updated_user.nombre@));
    let ghost email = SqlValueView::Text(Some(updated_user.email@));
    let ghost key = SqlValueView::BigInt(Some(id));
    let statement = build_update_by_id(id, updated_user.nombre, updated_user.email);
    proof {
        lemma_all_entries_push(Seq::empty(), nombre);
        lemma_all_entries_push(Seq::empty().push(nombre), email);
        lemma_all_entries_push(Seq::empty().push(nombre).push(email), key);
        assert(statement.values.deep_view() =~= Seq::<SqlValueView>::empty().push(nombre).push(
            email,
        ).push(key));
    }
    let prepared = prepare(statement);
    assert(prepared@.entries =~= update_of(
        id,
        updated_user.nombre@,
        updated_user.email@,
    ).entries);
    prepared
}

/// The answer to an update, given its outcome.
pub open spec fn update_reply(outcome: Result<u64, Seq<char>>) -> ResponseView {
    match outcome {
        Ok(_) => ResponseView {
            status: 200,
            body: BodyView::Message("Usuario actualizado con éxito"@),
        },
        Err(error) => ResponseView { status: 500, body: BodyView::Error(error) },
    }
}

/// Second step of updating a user: 200 where the update ran, whether or not
/// any row matched, and 500 with the text of the failure where it did not
/// run.
pub fn update_user_response(outcome: Result<u64, String>) -> (response: Response)
    ensures
        response@ == update_reply(executed_view(outcome)),
{
    match outcome {
        Ok(_) => Response {
            status: OK,
            body: Body::Message("Usuario actualizado con éxito".to_owned()),
        },
        Err(error) => Response { status: INTERNAL_SERVER_ERROR, body: Body::Error(error) },
    }
}

/// The delete of one row, ready to run: the id is its one bound value.
pub open spec fn delete_of(id: i64) -> PreparedView {
    PreparedView { sql: delete_sql(), entries: seq![Bound::Int64(id)] }
}

/// First step of deleting a user: the delete, with the id of the row as its
/// one bound value.
pub fn delete_user(id: i64) -> (prepared: Prepared)
    ensures
        prepared@ == delete_of(id),
{
    let statement = build_delete_by_id(id);
    proof {
        lemma_all_entries_push(Seq::empty(), SqlValueView::BigInt(Some(id)));
        assert(statement.values.deep_view() =~= Seq::<SqlValueView>::empty().push(
            SqlValueView::BigInt(Some(id)),
        ));
    }
    let prepared = prepare(statement);
    assert(prepared@.entries =~= delete_of(id).entries);
    prepared
}

/// The answer to a delete, given its outcome.
pub open spec fn delete_reply(outcome: Result<u64, Seq<char>>) -> ResponseView {
    match outcome {
        Ok(_) => ResponseView { status: 200, body: BodyView::Message("Usuario eliminado"@) },
        Err(error) => ResponseView { status: 500, body: BodyView::Error(error) },
    }
}

/// Second step of deleting a user: 200 where the delete ran, whether or not
/// any row matched, and 500 with the text of the failure where it did not
/// run.
pub fn delete_user_response(outcome: Result<u64, String>) -> (response: Response)
    ensures
        response@ == delete_reply(executed_view(outcome)),
{
    match outcome {
        Ok(_) => Response { status: OK, body: Body::Message("Usuario eliminado".to_owned()) },
        Err(error) => Response { status: INTERNAL_SERVER_ERROR, body: Body::Error(error) },
    }
}

} // verus!
