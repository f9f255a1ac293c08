//! The user entity, the payload shapes for creating and updating it, and the
//! identifiers of the table that stores it.

use vstd::prelude::*;

verus! {

/// The identifiers of the `users` table: the table itself and its columns.
#[derive(Clone, Copy, Debug, PartialEq, Eq)]
pub enum Users {
    Table,
    Id,
    Nombre,
    Email,
}

impl Users {
    /// The identifier as it is written in a statement, before quoting.
    pub open spec fn spec_name(self) -> Seq<char> {
        match self {
            Users::Table => "users"@,
            Users::Id => "id"@,
            Users::Nombre => "nombre"@,
            Users::Email => "email"@,
        }
    }

    /// The identifier as it is written in a statement, before quoting.
    pub fn name(&self) -> (s: &'static str)
        ensures
            s@ == self.spec_name(),
    {
        match self {
            Users::Table => "users",
            Users::Id => "id",
            Users::Nombre => "nombre",
            Users::Email => "email",
        }
    }

    /// No identifier of the table holds a double quote, so quoting one never
    /// has anything to escape.
    pub proof fn lemma_name_has_no_quote(self)
        ensures
            !self.spec_name().contains('"'),
    {
        reveal_strlit("users");
        reveal_strlit("id");
        reveal_strlit("nombre");
        reveal_strlit("email");
    }
}

/// A persisted user. `id` is assigned by the storage layer at insertion and is
/// never set by this crate.
#[derive(Clone, Debug, PartialEq, Eq)]
pub struct User {
    pub id: Option<i64>,
    pub nombre: String,
    pub email: String,
}

/// The mathematical value of a [`User`].
pub struct UserView {
    pub id: Option<i64>,
    pub nombre: Seq<char>,
    pub email: Seq<char>,
}

impl View for User {
    type V = UserView;

    open spec fn view(&self) -> UserView {
        UserView { id: self.id, nombre: self.nombre@, email: self.email@ }
    }
}

/// The payload that creates a user: no `id`, the storage layer assigns it.
#[derive(Clone, Debug, PartialEq, Eq)]
pub struct NewUser {
    pub nombre: String,
    pub email: String,
}

/// The payload that updates a user. The row is named by an id that travels
/// beside the payload, not in it.
#[derive(Clone, Debug, PartialEq, Eq)]
pub struct UpdateUser {
    pub nombre: String,
    pub email: String,
}

} // verus!
