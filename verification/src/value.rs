//! The typed values that travel from a built statement to its placeholders.

use vstd::prelude::*;

verus! {

/// `sea_query::Value`, one value of a built statement. Verified code never
/// looks inside one; it only carries the floating point kinds through.
#[verifier::external_type_specification]
#[verifier::external_body]
pub struct ExValue(sea_query::Value);

/// One value to bind, tagged with its kind. Every kind but `Other` has a null
/// of its own (`None`).
#[derive(Debug, PartialEq)]
pub enum SqlValue {
    Bool(Option<bool>),
    TinyInt(Option<i8>),
    SmallInt(Option<i16>),
    Int(Option<i32>),
    BigInt(Option<i64>),
    /// A single or double precision number, or the null of either kind, as the
    /// statement builder made it.
    Real(sea_query::Value),
    Text(Option<String>),
    Bytes(Option<Vec<u8>>),
    /// A value of any other kind. Nothing binds it.
    Other,
}

/// The mathematical value of a [`SqlValue`].
pub enum SqlValueView {
    Bool(Option<bool>),
    TinyInt(Option<i8>),
    SmallInt(Option<i16>),
    Int(Option<i32>),
    BigInt(Option<i64>),
    Real(sea_query::Value),
    Text(Option<Seq<char>>),
    Bytes(Option<Seq<u8>>),
    Other,
}

impl View for SqlValue {
    type V = SqlValueView;

    open spec fn view(&self) -> SqlValueView {
        match *self {
            SqlValue::Bool(b) => SqlValueView::Bool(b),
            SqlValue::TinyInt(i) => SqlValueView::TinyInt(i),
            SqlValue::SmallInt(i) => SqlValueView::SmallInt(i),
            SqlValue::Int(i) => SqlValueView::Int(i),
            SqlValue::BigInt(i) => SqlValueView::BigInt(i),
            SqlValue::Real(r) => SqlValueView::Real(r),
            SqlValue::Text(Some(s)) => SqlValueView::Text(Some(s@)),
            SqlValue::Text(None) => SqlValueView::Text(None),
            SqlValue::Bytes(Some(b)) => SqlValueView::Bytes(Some(b@)),
            SqlValue::Bytes(None) => SqlValueView::Bytes(None),
            SqlValue::Other => SqlValueView::Other,
        }
    }
}

impl DeepView for SqlValue {
    type V = SqlValueView;

    open spec fn deep_view(&self) -> SqlValueView {
        self@
    }
}

} // verus!
