//! A model of the `users` table, and what the handlers guarantee over it.
//!
//! The storage engine is not part of this crate and nothing here is proved
//! of it. This module writes down what each of the four statements is taken
//! to do to the table, and proves, under that reading, how the two steps of
//! the handlers fit together: what a fetch answers after a create, an update
//! or a delete.

use crate::binder::{Bound, PreparedView};
use crate::handlers::{
    create_reply, delete_of, delete_reply, fetch_plan, fetch_reply, insert_of, select_of,
    update_of, update_reply, BodyView, PlanView, ResponseView,
};
use crate::models::UserView;
use crate::query::{delete_sql, insert_sql, select_sql, update_sql};
use crate::segment::parsed_id;
use vstd::prelude::*;

verus! {

/// What a row holds beside its id.
pub struct Row {
    pub nombre: Seq<char>,
    pub email: Seq<char>,
}

/// The table: its rows by id, and the highest id that was ever assigned
/// (0 before the first insert). An id is assigned once and never again, also
/// after its row is gone.
pub struct Table {
    pub rows: Map<i64, Row>,
    pub last_id: int,
}

impl Table {
    /// Every row has an id that was assigned: at least 1, at most `last_id`.
    pub open spec fn wf(self) -> bool {
        &&& 0 <= self.last_id <= i64::MAX
        &&& forall|id: i64| #[trigger] self.rows.contains_key(id) ==> 1 <= id <= self.last_id
    }

    /// The user with the given id, if the table has one.
    pub open spec fn user(self, id: i64) -> Option<UserView> {
        if self.rows.contains_key(id) {
            Some(UserView { id: Some(id), nombre: self.rows[id].nombre, email: self.rows[id].email })
        } else {
            None
        }
    }
}

/// What a statement asks of the table.
pub enum Operation {
    Insert { nombre: Seq<char>, email: Seq<char> },
    Select { id: i64 },
    Update { id: i64, nombre: Seq<char>, email: Seq<char> },
    Delete { id: i64 },
}

/// The operation that a statement of this crate stands for, read from its
/// text and its bound entries; `None` for any other statement.
pub open spec fn operation(prepared: PreparedView) -> Option<Operation> {
    let entries = prepared.entries;
    if prepared.sql == insert_sql() && entries.len() == 2 {
        match (entries[0], entries[1]) {
            (Bound::Text(nombre), Bound::Text(email)) => Some(Operation::Insert { nombre, email }),
            _ => None,
        }
    } else if prepared.sql == select_sql() && entries.len() == 1 {
        match entries[0] {
            Bound::Int64(id) => Some(Operation::Select { id }),
            _ => None,
        }
    } else if prepared.sql == update_sql() && entries.len() == 3 {
        match (entries[0], entries[1], entries[2]) {
            (Bound::Text(nombre), Bound::Text(email), Bound::Int64(id)) => Some(
                Operation::Update { id, nombre, email },
            ),
            _ => None,
        }
    } else if prepared.sql == delete_sql() && entries.len() == 1 {
        match entries[0] {
            Bound::Int64(id) => Some(Operation::Delete { id }),
            _ => None,
        }
    } else {
        None
    }
}

/// The table after a statement ran, and the outcome handed to the second
/// step of the handler.
pub struct Ran {
    pub table: Table,
    pub outcome: Result<u64, Seq<char>>,
}

/// Running a statement that returns no rows. An insert takes the next id, or
/// fails where none is left; an update or a delete touches the row with the
/// id if there is one, and succeeds either way. Anything else fails and
/// leaves the table as it was.
pub open spec fn execute(table: Table, prepared: PreparedView) -> Ran {
    match operation(prepared) {
        Some(Operation::Insert { nombre, email }) => if table.last_id < i64::MAX {
            Ran {
                table: Table {
                    rows: table.rows.insert((table.last_id + 1) as i64, Row { nombre, email }),
                    last_id: table.last_id + 1,
                },
                outcome: Ok(1),
            }
        } else {
            Ran { table, outcome: Err(Seq::empty()) }
        },
        Some(Operation::Update { id, nombre, email }) => if table.rows.contains_key(id) {
            Ran {
                table: Table { rows: table.rows.insert(id, Row { nombre, email }), ..table },
                outcome: Ok(1),
            }
        } else {
            Ran { table, outcome: Ok(0) }
        },
        Some(Operation::Delete { id }) => if table.rows.contains_key(id) {
            Ran { table: Table { rows: table.rows.remove(id), ..table }, outcome: Ok(1) }
        } else {
            Ran { table, outcome: Ok(0) }
        },
        _ => Ran { table, outcome: Err(Seq::empty()) },
    }
}

/// Running a statement that returns at most one row: a select returns the
/// row with the id if there is one. Anything else fails.
pub open spec fn fetch_optional(table: Table, prepared: PreparedView) -> Result<
    Option<UserView>,
    Seq<char>,
> {
    match operation(prepared) {
        Some(Operation::Select { id }) => Ok(table.user(id)),
        _ => Err(Seq::empty()),
    }
}

/// The four statements of this crate are read as the operations they were
/// built for.
pub proof fn lemma_operations(id: i64, nombre: Seq<char>, email: Seq<char>)
    ensures
        operation(insert_of(nombre, email)) == Some(Operation::Insert { nombre, email }),
        operation(select_of(id)) == Some(Operation::Select { id }),
        operation(update_of(id, nombre, email)) == Some(Operation::Update { id, nombre, email }),
        operation(delete_of(id)) == Some(Operation::Delete { id }),
{
    reveal_strlit("INSERT INTO \"users\" (\"nombre\", \"email\") VALUES (?, ?)");
    reveal_strlit("SELECT \"id\", \"nombre\", \"email\" FROM \"users\" WHERE \"id\" = ?");
    reveal_strlit("UPDATE \"users\" SET \"nombre\" = ?, \"email\" = ? WHERE \"id\" = ?");
    reveal_strlit("DELETE FROM \"users\" WHERE \"id\" = ?");
    assert(insert_sql()[0] == 'I');
    assert(select_sql()[0] == 'S');
    assert(update_sql()[0] == 'U');
    assert(delete_sql()[0] == 'D');
}

/// Running a statement keeps the table well formed.
pub proof fn law_execute_keeps_table_well_formed(table: Table, prepared: PreparedView)
    requires
        table.wf(),
    ensures
        execute(table, prepared).table.wf(),
{
}

/// A user that was created is fetched by the id that the storage layer gave
/// it: where the insert of a name and an email ran, the answer to the create
/// is 201, and a fetch by a segment that names the new id answers 200 with
/// that id, that name and that email.
pub proof fn law_create_then_fetch(table: Table, nombre: Seq<char>, email: Seq<char>, text: Seq<char>)
    requires
        table.wf(),
        execute(table, insert_of(nombre, email)).outcome is Ok,
        parsed_id(text) == Some((table.last_id + 1) as i64),
    ensures
        ({
            let ran = execute(table, insert_of(nombre, email));
            let id = (table.last_id + 1) as i64;
            &&& create_reply(ran.outcome).status == 201
            &&& fetch_plan(text) == PlanView::Run(select_of(id))
            &&& fetch_reply(fetch_optional(ran.table, select_of(id))) == (ResponseView {
                status: 200,
                body: BodyView::User(UserView { id: Some(id), nombre, email }),
            })
        }),
{
    lemma_operations((table.last_id + 1) as i64, nombre, email);
}

/// A fetch of an id that the table does not hold answers 404, not 200 and
/// not 500. An id above every id ever assigned is such an id.
pub proof fn law_fetch_of_unknown_id_is_not_found(table: Table, text: Seq<char>, id: i64)
    requires
        table.wf(),
        parsed_id(text) == Some(id),
        !table.rows.contains_key(id) || id > table.last_id,
    ensures
        fetch_plan(text) == PlanView::Run(select_of(id)),
        fetch_reply(fetch_optional(table, select_of(id))).status == 404,
{
    lemma_operations(id, Seq::empty(), Seq::empty());
}

/// An update of a row that the table holds changes the name and the email of
/// that row and nothing else: the answer is 200, a fetch of the id answers
/// with the new values, and a fetch of any other id answers as before.
pub proof fn law_update_changes_only_that_row(
    table: Table,
    id: i64,
    nombre: Seq<char>,
    email: Seq<char>,
    other: i64,
)
    requires
        table.wf(),
        table.rows.contains_key(id),
        other != id,
    ensures
        ({
            let ran = execute(table, update_of(id, nombre, email));
            &&& update_reply(ran.outcome).status == 200
            &&& fetch_reply(fetch_optional(ran.table, select_of(id))) == (ResponseView {
                status: 200,
                body: BodyView::User(UserView { id: Some(id), nombre, email }),
            })
            &&& fetch_optional(ran.table, select_of(other)) == fetch_optional(
                table,
                select_of(other),
            )
            &&& ran.table.last_id == table.last_id
        }),
{
    lemma_operations(id, nombre, email);
    lemma_operations(other, nombre, email);
}

/// After a delete of an id, a fetch of that id answers 404, and a fetch of
/// any other id answers as before.
pub proof fn law_delete_then_fetch_is_not_found(table: Table, id: i64, other: i64)
    requires
        table.wf(),
        other != id,
    ensures
        ({
            let ran = execute(table, delete_of(id));
            &&& delete_reply(ran.outcome).status == 200
            &&& fetch_reply(fetch_optional(ran.table, select_of(id))).status == 404
            &&& fetch_optional(ran.table, select_of(other)) == fetch_optional(
                table,
                select_of(other),
            )
        }),
{
    lemma_operations(id, Seq::empty(), Seq::empty());
    lemma_operations(other, Seq::empty(), Seq::empty());
}

/// An update or a delete of an id that the table does not hold still answers
/// 200, and leaves the table as it was.
pub proof fn law_update_or_delete_of_unknown_id_is_ok(
    table: Table,
    id: i64,
    nombre: Seq<char>,
    email: Seq<char>,
)
    requires
        table.wf(),
        !table.rows.contains_key(id),
    ensures
        update_reply(execute(table, update_of(id, nombre, email)).outcome).status == 200,
        execute(table, update_of(id, nombre, email)).table == table,
        delete_reply(execute(table, delete_of(id)).outcome).status == 200,
        execute(table, delete_of(id)).table == table,
{
    lemma_operations(id, nombre, email);
}

} // verus!
